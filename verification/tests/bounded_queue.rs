use lock_free_mpsc::bounded::RawMpsc;

#[test]
fn test_basic_push_pop() {
    let mut q = RawMpsc::new(8);

    assert!(q.push(10).is_ok());
    assert!(q.push(20).is_ok());

    assert_eq!(q.pop(), Some(10));
    assert_eq!(q.pop(), Some(20));
    assert_eq!(q.pop(), None);
}

#[test]
fn test_push_until_full() {
    let mut q = RawMpsc::new(4);

    for i in 0..4 {
        assert!(q.push(i).is_ok());
    }

    // Now full, next push should fail
    assert_eq!(q.push(99), Err(99));
}

#[test]
fn test_pop_from_empty() {
    let mut q = RawMpsc::<u64>::new(4);

    assert_eq!(q.pop(), None);
}

#[test]
fn test_order_preserved_single_thread() {
    let mut q = RawMpsc::new(8);

    for i in 0..8 {
        assert!(q.push(i).is_ok());
    }

    for i in 0..8 {
        assert_eq!(q.pop(), Some(i));
    }

    assert_eq!(q.pop(), None);
}

#[test]
fn test_degenerate_capacity_zero() {
    let mut q = RawMpsc::<i32>::new(0);
    assert!(q.push(1).is_err());
    assert_eq!(q.pop(), None);
}

#[test]
fn test_capacity_one_behavior() {
    let mut q = RawMpsc::new(1);
    assert!(q.push(1).is_ok());
    assert!(q.push(2).is_err());
    assert_eq!(q.pop(), Some(1));
    assert_eq!(q.pop(), None);
    assert!(q.push(3).is_ok()); // no wraparound
}

#[test]
fn free_drop_test() {
    let mut q = RawMpsc::new(10);
    for i in 0..10 {
        assert!(q.push(i).is_ok())
    }
}

#[test]
fn test_example_scenario_capacity_four() {
    let mut q = RawMpsc::new(4);
    assert_eq!(q.push(0), Ok(()));
    assert_eq!(q.push(1), Ok(()));
    assert_eq!(q.push(2), Ok(()));
    assert_eq!(q.push(3), Ok(()));
    assert_eq!(q.push(4), Err(4));
    assert_eq!(q.pop(), Some(0));
    assert_eq!(q.push(4), Ok(()));
    assert_eq!(q.pop(), Some(1));
    assert_eq!(q.pop(), Some(2));
    assert_eq!(q.pop(), Some(3));
    assert_eq!(q.pop(), Some(4));
    assert_eq!(q.pop(), None);
}

#[test]
fn test_wraparound_many_cycles() {
    // A small ring cycled many times: the cursors wrap repeatedly and order
    // is kept throughout.
    let mut q = RawMpsc::new(3);
    for round in 0..50u64 {
        assert!(q.push(3 * round).is_ok());
        assert!(q.push(3 * round + 1).is_ok());
        assert!(q.push(3 * round + 2).is_ok());
        assert_eq!(q.push(999), Err(999));
        assert_eq!(q.pop(), Some(3 * round));
        assert_eq!(q.pop(), Some(3 * round + 1));
        assert_eq!(q.pop(), Some(3 * round + 2));
        assert_eq!(q.pop(), None);
    }
}

#[test]
fn test_interleaved_producers_no_loss_no_dup() {
    // Two producers' disjoint value sets, interleaved: everything pushed comes
    // out exactly once, in the interleaving order.
    let mut q = RawMpsc::new(64);
    for i in 0..20 {
        assert!(q.push(i).is_ok());
        assert!(q.push(1000 + i).is_ok());
    }
    let mut seen = Vec::new();
    while let Some(v) = q.pop() {
        seen.push(v);
    }
    assert_eq!(seen.len(), 40);
    let mut expected = Vec::new();
    for i in 0..20 {
        expected.push(i);
        expected.push(1000 + i);
    }
    assert_eq!(seen, expected);
}

use lock_free_mpsc::unbounded::RawMpsc;

// Basic test: push then pop single element in one thread
#[test]
fn test_push_pop_single_thread() {
    let mut q = RawMpsc::new();

    q.push(42);
    let val = q.pop();

    assert_eq!(val, Some(42));
    assert_eq!(q.pop(), None);
}

// Test pop on empty queue returns None immediately
#[test]
fn test_pop_empty_queue() {
    let mut q: RawMpsc<u32> = RawMpsc::new();
    assert_eq!(q.pop(), None);
}

// Test pushing and popping multiple elements sequentially
#[test]
fn test_multiple_push_pop_single_thread() {
    let mut q = RawMpsc::new();

    for i in 0..1000 {
        q.push(i);
    }

    for i in 0..1000 {
        assert_eq!(q.pop(), Some(i));
    }

    assert_eq!(q.pop(), None);
}

// Test that popping from empty after exhaustion returns None
#[test]
fn test_pop_after_exhaustion() {
    let mut q = RawMpsc::new();
    q.push(1);
    assert_eq!(q.pop(), Some(1));
    assert_eq!(q.pop(), None);
    assert_eq!(q.pop(), None);
}

#[derive(Debug, PartialEq, Eq, PartialOrd, Ord)]
struct Message {
    producer_id: usize,
    value: usize,
}

#[test]
fn test_custom_struct_message() {
    let mut q = RawMpsc::new();

    let msg = Message { producer_id: 1, value: 42 };
    q.push(msg);

    let popped = q.pop().unwrap();
    assert_eq!(popped, Message { producer_id: 1, value: 42 });
}

#[test]
fn test_unbounded_growth_ten_segments() {
    // More than ten segments' worth of values: every push succeeds (push
    // cannot fail) and a full drain returns every value in FIFO order.
    let mut q = RawMpsc::new();
    let total = 1280u64; // 10 x the segment size
    for i in 0..total {
        q.push(i);
    }
    assert!(q.segment_count() > 1);
    for i in 0..total {
        assert_eq!(q.pop(), Some(i));
    }
    assert_eq!(q.pop(), None);
}

#[test]
fn test_segment_reclamation() {
    // Crossing a segment boundary and draining fully releases the old
    // segments: the chain shrinks back to a single segment, and no value is
    // seen twice.
    let mut q = RawMpsc::new();
    assert_eq!(q.segment_count(), 1);
    for i in 0..200u32 {
        q.push(i);
    }
    assert_eq!(q.segment_count(), 2);
    for i in 0..200u32 {
        assert_eq!(q.pop(), Some(i));
    }
    assert_eq!(q.pop(), None);
    assert_eq!(q.segment_count(), 1);
}

#[test]
fn test_interleaved_disjoint_sets() {
    // Three producers' disjoint value sets interleaved round-robin: the drain
    // yields the union, each value exactly once.
    let mut q = RawMpsc::new();
    for i in 0..130usize {
        q.push(i);
        q.push(10_000 + i);
        q.push(20_000 + i);
    }
    let mut seen = Vec::new();
    while let Some(v) = q.pop() {
        seen.push(v);
    }
    assert_eq!(seen.len(), 390);
    let mut sorted = seen.clone();
    sorted.sort();
    sorted.dedup();
    assert_eq!(sorted.len(), 390);
    let mut expected = Vec::new();
    for i in 0..130usize {
        expected.push(i);
    }
    for i in 0..130usize {
        expected.push(10_000 + i);
    }
    for i in 0..130usize {
        expected.push(20_000 + i);
    }
    assert_eq!(sorted, expected);
}

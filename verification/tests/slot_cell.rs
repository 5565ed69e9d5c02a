use lock_free_mpsc::slot::{Slot, READY, RESERVED};
use lock_free_mpsc::slot_arr::SlotArr;

#[test]
fn test_set_and_unset_success() {
    let mut slot = Slot::new();

    // Attempt to set a value
    assert!(slot.set(42).is_ok());

    // Attempt to unset and get the value
    let val = slot.unset().expect("Expected to unset a value");
    assert_eq!(val, 42);

    // After unset, slot should be READY
    assert_eq!(slot.state(), READY);
}

#[test]
fn test_set_failure_when_not_ready() {
    let mut slot = Slot::new_with_state(RESERVED);

    // Attempt to set should fail because slot is RESERVED
    let result = slot.set(100);
    assert!(result.is_err());
    assert_eq!(result.err(), Some(100));
}

#[test]
fn test_unset_failure_when_not_registered() {
    let mut slot = Slot::<i32>::new_with_state(RESERVED); // Not REGISTERED yet

    // Attempt to unset should fail
    let result = slot.unset();
    assert!(result.is_err());
}

#[test]
fn test_unchecked_set_and_unset() {
    let mut slot = Slot::new_with_state(RESERVED); // Skip READY check

    slot.unchecked_set(77);
    let val = slot.unchecked_unset();
    assert_eq!(val, 77);
}

#[test]
fn test_slot_arr_cycle() {
    let mut arr = SlotArr::new(4);
    assert_eq!(arr.capacity(), 4);
    assert_eq!(arr.set(0, 5), Ok(()));
    // The slot at 0 is now occupied: a second set hands the value back.
    assert_eq!(arr.set(0, 6), Err(6));
    assert_eq!(arr.unset(0), Ok(5));
    // The slot at 0 is empty again: nothing to take.
    assert_eq!(arr.unset(0), Err(()));
    // Other slots are independent.
    assert_eq!(arr.set(3, 7), Ok(()));
    assert_eq!(arr.unset(3), Ok(7));
}

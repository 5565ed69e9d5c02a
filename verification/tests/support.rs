use lock_free_mpsc::backoff::GlobalBackoff;
use lock_free_mpsc::local_backoff::LocalBackoff;
use lock_free_mpsc::segment::Segment;
use lock_free_mpsc::status_slot::{Slot, SlotStatus};

#[test]
fn test_global_backoff_register_cycle() {
    // Register/deregister pairs and waits at several contention levels; the
    // counter bookkeeping is exercised through a full cycle.
    let mut b = GlobalBackoff::new();
    b.reg_wait();
    b.reg_wait();
    b.wait();
    b.de_reg();
    b.wait();
    b.de_reg();
    b.spin_for(100);
}

#[test]
fn test_local_backoff_cycle() {
    let mut b = LocalBackoff::new();
    // A fresh backoff spins zero times until reset seeds it.
    b.wait();
    b.reset();
    b.wait();
    b.wait();
    b.wait();
}

#[test]
fn test_status_slot_cas() {
    let mut s = Slot::new(42, SlotStatus::Empty);
    assert_eq!(s.get_status().as_u8(), 0);
    // CAS from the wrong expected status fails and reports the actual one.
    let r = s.cas_status(SlotStatus::Full, SlotStatus::Processing);
    assert_eq!(r, Err(0));
    // CAS from the right expected status succeeds and reports the previous one.
    let r = s.cas_status(SlotStatus::Empty, SlotStatus::Full);
    assert_eq!(r, Ok(0));
    assert_eq!(s.get_status().as_u8(), 1);
    s.set_status(SlotStatus::Processing);
    assert_eq!(s.get_status().as_u8(), 2);
}

#[test]
fn test_status_byte_round_trip() {
    assert_eq!(SlotStatus::from_u8(0).as_u8(), 0);
    assert_eq!(SlotStatus::from_u8(1).as_u8(), 1);
    assert_eq!(SlotStatus::from_u8(2).as_u8(), 2);
    assert_eq!(SlotStatus::Full.as_u8(), 1);
}

#[test]
fn test_segment_cell_operations() {
    let mut seg = Segment::new();
    assert_eq!(seg.set(0, 1), Ok(()));
    // The slot at 0 is occupied: a second set hands the value back.
    assert_eq!(seg.set(0, 2), Err(2));
    assert_eq!(seg.unset(0), Some(1));
    // The slot at 0 is empty again.
    assert_eq!(seg.unset(0), None);
    // Unchecked variants bypass the state tag.
    seg.set_unchecked(3, 9);
    assert_eq!(seg.unset_unchecked(3), 9);
}

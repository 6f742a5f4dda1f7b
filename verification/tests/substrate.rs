use nextnode::events::{clear_event_flag, next_pending, set_event_flag, EventFlags, EventPriority};
use nextnode::slot::BufferSlot;

#[test]
fn empty_mask_is_idle() {
    let flags = EventFlags::new();
    assert_eq!(next_pending(&flags), None);
}

#[test]
fn set_then_next_pending_returns_it() {
    let mut flags = EventFlags::new();
    set_event_flag(&mut flags, EventPriority::AonRtc);
    assert_eq!(next_pending(&flags), Some(EventPriority::AonRtc));
}

#[test]
fn lower_bit_index_wins() {
    let mut flags = EventFlags::new();
    set_event_flag(&mut flags, EventPriority::AonProg);
    set_event_flag(&mut flags, EventPriority::Uart0);
    set_event_flag(&mut flags, EventPriority::I2c0);
    // Uart0 sits at bit 2, below I2c0 (bit 6) and AonProg (bit 7).
    assert_eq!(next_pending(&flags), Some(EventPriority::Uart0));
}

#[test]
fn uart1_outranks_uart0() {
    let mut flags = EventFlags::new();
    set_event_flag(&mut flags, EventPriority::Uart0);
    set_event_flag(&mut flags, EventPriority::Uart1);
    assert_eq!(next_pending(&flags), Some(EventPriority::Uart1));
}

#[test]
fn clear_then_next_pending_never_returns_it() {
    let mut flags = EventFlags::new();
    set_event_flag(&mut flags, EventPriority::Gpio);
    set_event_flag(&mut flags, EventPriority::Rtc);
    clear_event_flag(&mut flags, EventPriority::Gpio);
    assert_eq!(next_pending(&flags), Some(EventPriority::Rtc));
    clear_event_flag(&mut flags, EventPriority::Rtc);
    assert_eq!(next_pending(&flags), None);
}

#[test]
fn set_again_after_clear_is_pending_again() {
    let mut flags = EventFlags::new();
    set_event_flag(&mut flags, EventPriority::Uart0);
    clear_event_flag(&mut flags, EventPriority::Uart0);
    set_event_flag(&mut flags, EventPriority::Uart0);
    assert_eq!(next_pending(&flags), Some(EventPriority::Uart0));
}

#[test]
fn clear_is_idempotent_and_local() {
    let mut flags = EventFlags::new();
    set_event_flag(&mut flags, EventPriority::I2c0);
    clear_event_flag(&mut flags, EventPriority::Uart1);
    clear_event_flag(&mut flags, EventPriority::Uart1);
    assert_eq!(next_pending(&flags), Some(EventPriority::I2c0));
}

#[test]
fn put_on_empty_slot_succeeds() {
    let mut slot: BufferSlot<Vec<u8>> = BufferSlot::empty();
    assert!(!slot.is_occupied());
    assert!(slot.put(vec![1, 2, 3]).is_ok());
    assert!(slot.is_occupied());
}

#[test]
fn put_on_occupied_slot_is_rejected_not_overwritten() {
    let mut slot: BufferSlot<Vec<u8>> = BufferSlot::empty();
    slot.put(vec![1, 2, 3]).unwrap();
    let rejected = slot.put(vec![9, 9]);
    assert_eq!(rejected, Err(vec![9, 9]));
    // The first buffer is still the one the slot holds.
    assert_eq!(slot.take(), Some(vec![1, 2, 3]));
}

#[test]
fn take_on_empty_slot_returns_empty_never_stale() {
    let mut slot: BufferSlot<Vec<u8>> = BufferSlot::empty();
    assert_eq!(slot.take(), None);
    slot.put(vec![7]).unwrap();
    assert_eq!(slot.take(), Some(vec![7]));
    assert_eq!(slot.take(), None);
}

use log4rs_gelf::init::{InitError, LoggerSlot};

#[test]
fn second_init_fails_and_leaves_first_active() {
    let mut slot = LoggerSlot::new();
    assert!(!slot.is_initialized());
    assert_eq!(slot.try_init(), Ok(()));
    assert!(slot.is_initialized());
    assert_eq!(slot.try_init(), Err(InitError::AlreadyInitialized));
    assert!(slot.is_initialized());
}

#[test]
fn reset_frees_the_slot_for_tests() {
    let mut slot = LoggerSlot::new();
    assert_eq!(slot.try_init(), Ok(()));
    slot.reset();
    assert!(!slot.is_initialized());
    assert_eq!(slot.try_init(), Ok(()));
}

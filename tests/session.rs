use lm_sensors::errors::{Error, IoErrorKind};
use lm_sensors::session::{InitState, ListenerSlot};

#[test]
fn init_multiple_simultaneously() {
    let mut state = InitState::new();
    assert!(state.begin().is_ok());
    assert!(state.finish(0, String::new()).is_ok());
    assert!(state.is_live());

    assert_eq!(
        state.begin(),
        Err(Error::IO { operation: "sensors_init()", kind: IoErrorKind::AlreadyExists })
    );

    state.release();
    assert!(!state.is_live());
    assert!(state.begin().is_ok());
}

#[test]
fn init_failure_leaves_no_live_instance() {
    let mut state = InitState::new();
    assert!(state.begin().is_ok());
    assert_eq!(
        state.finish(-10, "I/O error".to_string()),
        Err(Error::LMSensors { operation: "sensors_init()", number: 10, description: "I/O error".to_string() })
    );
    assert!(!state.is_live());
    assert!(state.begin().is_ok());
}

#[test]
fn init_error_listener() {
    let mut slot: ListenerSlot<u32> = ListenerSlot::new();
    assert!(slot.routes_to_default());

    let reporter = slot.install(Some(42));
    assert!(!slot.routes_to_default());
    assert_eq!(slot.current(), Some(&42));

    let removed = slot.restore(reporter);
    assert_eq!(removed, Some(42));
    assert!(slot.routes_to_default());
    assert_eq!(slot.current(), None);
}

#[test]
fn nested_listeners_restore_in_order() {
    let mut slot: ListenerSlot<&str> = ListenerSlot::new();
    let first = slot.install(Some("first"));
    let second = slot.install(Some("second"));
    assert_eq!(slot.current(), Some(&"second"));
    assert_eq!(slot.restore(second), Some("second"));
    assert_eq!(slot.current(), Some(&"first"));
    assert_eq!(slot.restore(first), Some("first"));
    assert!(slot.routes_to_default());
}

use backend_supervisor::slot::ProcessSlot;

#[test]
fn cleanup_without_spawn_is_a_no_op() {
    let mut slot = ProcessSlot::empty();
    assert!(!slot.occupied());
    assert_eq!(slot.terminate_if_present(), None);
    assert!(!slot.occupied());
    assert_eq!(slot.terminate_if_present(), None);
}

#[test]
fn cleanup_after_spawn_signals_exactly_once() {
    let mut slot = ProcessSlot::empty();
    slot.record_spawn(Some(4217));
    assert!(slot.occupied());
    // First window-destroy: one termination order, to that process.
    assert_eq!(slot.terminate_if_present(), Some(4217));
    assert!(!slot.occupied());
    // Repeated window-destroy events: no further signal.
    assert_eq!(slot.terminate_if_present(), None);
    assert_eq!(slot.terminate_if_present(), None);
}

#[test]
fn failed_spawn_leaves_nothing_to_clean_up() {
    let mut slot = ProcessSlot::empty();
    slot.record_spawn(None);
    assert!(!slot.occupied());
    assert_eq!(slot.terminate_if_present(), None);
}

#[test]
fn take_gives_up_ownership_without_a_signal() {
    let mut slot = ProcessSlot::empty();
    slot.record_spawn(Some(7));
    assert_eq!(slot.take(), Some(7));
    assert!(!slot.occupied());
    assert_eq!(slot.terminate_if_present(), None);
}

use doorsys::door::{DoorAction, DoorActuator, DoorState, UNLOCK_WINDOW_MS};

#[test]
fn single_signal_opens_then_relocks() {
    let mut door = DoorActuator::new();
    assert_eq!(door.signal_open(1000), DoorAction::Unlock);
    assert_eq!(door.expire(1000 + UNLOCK_WINDOW_MS - 1), DoorAction::Hold);
    assert_eq!(door.expire(1000 + UNLOCK_WINDOW_MS), DoorAction::Relock);
    assert_eq!(door.state, DoorState::Locked);
}

#[test]
fn two_signals_merge_into_one_interval() {
    let t1 = 5000u64;
    let t2 = t1 + 1500;
    assert!(t2 < t1 + UNLOCK_WINDOW_MS);

    let mut door = DoorActuator::new();
    assert_eq!(door.signal_open(t1), DoorAction::Unlock);
    // The second signal arrives within the window: no relock/reopen edge.
    assert_eq!(door.signal_open(t2), DoorAction::Hold);
    // The interval ends a full window after the last signal, not the first.
    assert_eq!(door.expire(t1 + UNLOCK_WINDOW_MS), DoorAction::Hold);
    assert_eq!(door.expire(t2 + UNLOCK_WINDOW_MS), DoorAction::Relock);
}

#[test]
fn signal_after_expiry_opens_again() {
    let mut door = DoorActuator::new();
    door.signal_open(0);
    assert_eq!(door.expire(UNLOCK_WINDOW_MS), DoorAction::Relock);
    assert_eq!(door.signal_open(10_000), DoorAction::Unlock);
}

#[test]
fn expire_on_locked_door_holds() {
    let mut door = DoorActuator::new();
    assert_eq!(door.expire(123), DoorAction::Hold);
}

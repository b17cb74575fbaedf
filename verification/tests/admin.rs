use doorsys::admin::{
    create_staff_actions, fob_change_action, generate_pin, rotate_pin_action, staff_sync_actions,
};
use doorsys::UserAction;

#[test]
fn activation_publishes_additions() {
    assert_eq!(
        staff_sync_actions(true, 111222, Some(7)),
        vec![UserAction::Add(111222), UserAction::Add(7)]
    );
    assert_eq!(staff_sync_actions(true, 111222, None), vec![UserAction::Add(111222)]);
}

#[test]
fn deactivation_publishes_deletions() {
    assert_eq!(
        staff_sync_actions(false, 333444, Some(8)),
        vec![UserAction::Del(333444), UserAction::Del(8)]
    );
    assert_eq!(staff_sync_actions(false, 333444, None), vec![UserAction::Del(333444)]);
}

#[test]
fn fob_changes_map_to_mutations() {
    assert_eq!(
        fob_change_action(Some(1), Some(2)),
        Some(UserAction::Replace { old: 1, new: 2 })
    );
    assert_eq!(fob_change_action(Some(1), Some(1)), None);
    assert_eq!(fob_change_action(None, Some(5)), Some(UserAction::Add(5)));
    assert_eq!(fob_change_action(Some(5), None), Some(UserAction::Del(5)));
    assert_eq!(fob_change_action(None, None), None);
}

#[test]
fn generated_pins_are_six_digits() {
    for _ in 0..100 {
        let pin = generate_pin();
        assert!((100000..=999999).contains(&pin));
    }
}

#[test]
fn pin_rotation_publishes_replacement() {
    let (pin, action) = rotate_pin_action(123456);
    assert!((100000..=999999).contains(&pin));
    assert_eq!(action, UserAction::Replace { old: 123456, new: pin });
}

#[test]
fn staff_creation_publishes_fresh_credentials() {
    let (pin, actions) = create_staff_actions(Some(42));
    assert!((100000..=999999).contains(&pin));
    assert_eq!(actions, vec![UserAction::Add(pin), UserAction::Add(42)]);

    let (pin2, actions2) = create_staff_actions(None);
    assert_eq!(actions2, vec![UserAction::Add(pin2)]);
}

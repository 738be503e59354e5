use rustcraft::keybind::{Action, GamepadBinding, GamepadButton, InputState};

#[test]
fn bindable_actions_round_trip_through_their_index() {
    let all = Action::all_bindable();
    assert_eq!(all.len(), 27);
    assert_eq!(all[0], Action::Attack);
    for (index, action) in all.iter().enumerate() {
        assert_eq!(action.bindable_index(), Some(index));
        assert_eq!(Action::from_bindable_index(index), Some(*action));
    }
    assert_eq!(Action::ToggleSprint.bindable_index(), None);
    assert_eq!(Action::from_bindable_index(27), None);
}

#[test]
fn action_names_and_keys() {
    assert_eq!(Action::Backward.label(), "Back");
    assert_eq!(Action::Hotbar3.label(), "Hotbar Slot 3");
    assert_eq!(Action::ToggleSprint.translation_key(), "key.sprint");
    assert_eq!(Action::HotbarPrev.translation_key(), "key.hotbar.previous");
    assert_eq!(Action::Use.category_key(), "key.categories.gameplay");
    assert_eq!(Action::ToggleFlying.category_key(), "key.categories.movement");
    assert_eq!(Action::Hotbar9.category_key(), "key.categories.inventory");
    assert_eq!(Action::Pause.category_key(), "key.categories.ui");
}

#[test]
fn gamepad_binding_labels() {
    assert_eq!(GamepadBinding::Button(GamepadButton::South).label(), "A / Cross");
    assert_eq!(GamepadBinding::LeftStickLeft.label(), "Left Stick Left");
}

#[test]
fn key_presses_give_one_press_edge() {
    let mut input = InputState::new();
    assert!(!input.is_held(Action::Jump));
    input.on_key_down(Action::Jump);
    assert!(input.is_held(Action::Jump));
    assert!(input.is_just_pressed(Action::Jump));
    input.tick_reset();
    assert!(input.is_held(Action::Jump));
    assert!(!input.is_just_pressed(Action::Jump));
    input.on_key_up(Action::Jump);
    assert!(!input.is_held(Action::Jump));
}

#[test]
fn releasing_the_key_keeps_an_action_the_gamepad_holds() {
    let mut input = InputState::new();
    input.on_key_down(Action::Sneak);
    input.set_gamepad_held(&[Action::Sneak]);
    input.tick_reset();
    input.on_key_up(Action::Sneak);
    assert!(input.is_held(Action::Sneak));
    input.set_gamepad_held(&[]);
    assert!(!input.is_held(Action::Sneak));
    assert!(input.just_released[Action::Sneak.ordinal()]);
}

#[test]
fn gamepad_changes_give_edges_only_when_the_action_changes() {
    let mut input = InputState::new();
    input.set_gamepad_held(&[Action::Attack, Action::Use]);
    assert!(input.is_just_pressed(Action::Attack));
    assert!(input.is_just_pressed(Action::Use));
    input.tick_reset();
    input.set_gamepad_held(&[Action::Attack]);
    assert!(input.is_held(Action::Attack));
    assert!(!input.is_just_pressed(Action::Attack));
    assert!(!input.is_held(Action::Use));
    assert!(input.just_released[Action::Use.ordinal()]);
}

#[test]
fn a_key_release_is_reported_until_the_next_tick() {
    let mut input = InputState::new();
    input.on_key_down(Action::Jump);
    assert!(!input.is_just_released(Action::Jump));
    input.on_key_up(Action::Jump);
    assert!(input.is_just_released(Action::Jump));
    assert!(!input.is_just_released(Action::Sneak));
    input.tick_reset();
    assert!(!input.is_just_released(Action::Jump));
}

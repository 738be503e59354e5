use rustcraft::gamepad::{
    actions_not_in, binding_is_active, bindings_not_in, gamepad_held_actions, physical_bindings,
    PadState,
};
use rustcraft::keybind::{Action, GamepadBinding, GamepadButton, KeyBindings};

fn pad(held: &[usize]) -> PadState {
    let mut buttons = vec![false; 11];
    for &index in held {
        buttons[index] = true;
    }
    PadState {
        buttons,
        stick_up: false,
        stick_down: false,
        stick_left: false,
        stick_right: false,
    }
}

#[test]
fn held_buttons_and_stick_directions_activate_their_actions() {
    let bindings = KeyBindings::defaults();
    let mut state = pad(&[0, 7]);
    state.stick_up = true;
    assert!(binding_is_active(GamepadBinding::Button(GamepadButton::South), &state));
    assert!(!binding_is_active(GamepadBinding::LeftStickDown, &state));
    let held = gamepad_held_actions(&bindings, &state);
    assert_eq!(held, vec![Action::Attack, Action::Forward, Action::Jump]);
}

#[test]
fn edges_are_the_differences_between_frames() {
    let before = vec![Action::Attack, Action::Jump];
    let now = vec![Action::Jump, Action::Use];
    assert_eq!(actions_not_in(&now, &before), vec![Action::Use]);
    assert_eq!(actions_not_in(&before, &now), vec![Action::Attack]);
}

#[test]
fn newly_actuated_physical_inputs_are_reported_for_rebinding() {
    let mut state = pad(&[10]);
    state.stick_left = true;
    let now = physical_bindings(&state);
    assert_eq!(
        now,
        vec![
            GamepadBinding::Button(GamepadButton::Start),
            GamepadBinding::LeftStickLeft
        ]
    );
    let before = vec![GamepadBinding::LeftStickLeft];
    assert_eq!(
        bindings_not_in(&now, &before),
        vec![GamepadBinding::Button(GamepadButton::Start)]
    );
}

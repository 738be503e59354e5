use rustcraft::keybind::{
    key_label, mouse_button_label, Action, BindingInput, GamepadBinding, GamepadButton,
    KeyBindings, KeyCode, MouseButton,
};

#[test]
fn bedrock_defaults_keep_face_buttons_triggers_and_stick_movement() {
    let bindings = KeyBindings::defaults();
    assert_eq!(
        bindings.gamepad_binding_for(Action::Jump),
        Some(GamepadBinding::Button(GamepadButton::South))
    );
    assert_eq!(
        bindings.gamepad_binding_for(Action::Attack),
        Some(GamepadBinding::Button(GamepadButton::RightTrigger2))
    );
    assert_eq!(
        bindings.gamepad_binding_for(Action::Forward),
        Some(GamepadBinding::LeftStickUp)
    );
}

#[test]
fn default_keyboard_and_mouse_bindings() {
    let bindings = KeyBindings::defaults();
    assert_eq!(bindings.binding_for(Action::Forward), BindingInput::Key(KeyCode::KeyW));
    assert_eq!(bindings.binding_for(Action::Attack), BindingInput::Mouse(MouseButton::Left));
    assert_eq!(bindings.binding_for(Action::ToggleFlying), BindingInput::Unbound);
    assert_eq!(bindings.action_for_key(KeyCode::KeyE), Some(Action::Inventory));
    assert_eq!(bindings.action_for_key(KeyCode::KeyZ), None);
    assert_eq!(bindings.action_for_mouse(MouseButton::Right), Some(Action::Use));
    assert_eq!(bindings.binding_label(Action::Jump), "Space");
    assert_eq!(bindings.binding_label(Action::Use), "Button 2");
    assert_eq!(bindings.binding_label(Action::ToggleFlying), "NONE");
    assert_eq!(bindings.gamepad_binding_label(Action::Pause), "Menu / Start");
    assert_eq!(bindings.gamepad_binding_label(Action::Chat), "NONE");
}

#[test]
fn rebinding_replaces_the_other_device_and_reports_conflicts() {
    let mut bindings = KeyBindings::defaults();
    assert!(!bindings.has_conflict(Action::Jump));
    bindings.set_key(Action::Jump, KeyCode::KeyW);
    assert!(bindings.has_conflict(Action::Jump));
    assert!(bindings.has_conflict(Action::Forward));
    bindings.set_mouse(Action::Attack, MouseButton::Middle);
    assert_eq!(bindings.binding_for(Action::Attack), BindingInput::Mouse(MouseButton::Middle));
    bindings.set_key(Action::Attack, KeyCode::KeyF);
    assert_eq!(bindings.binding_for(Action::Attack), BindingInput::Key(KeyCode::KeyF));
    bindings.reset_action(Action::Jump);
    assert!(!bindings.has_conflict(Action::Jump));
    bindings.reset_action(Action::Attack);
    assert_eq!(bindings.binding_for(Action::Attack), BindingInput::Mouse(MouseButton::Left));
    bindings.clear(Action::Jump);
    assert_eq!(bindings.binding_for(Action::Jump), BindingInput::Unbound);
    assert!(!bindings.has_conflict(Action::Jump));
}

#[test]
fn gamepad_rebinding_and_conflicts() {
    let mut bindings = KeyBindings::defaults();
    bindings.set_gamepad(Action::Jump, GamepadBinding::Button(GamepadButton::RightThumb));
    assert_eq!(
        bindings.gamepad_binding_for(Action::Jump),
        Some(GamepadBinding::Button(GamepadButton::RightThumb))
    );
    assert!(bindings.has_gamepad_conflict(Action::Jump));
    assert!(bindings.has_gamepad_conflict(Action::TogglePerspective));
    bindings.reset_gamepad_action(Action::Jump);
    assert!(!bindings.has_gamepad_conflict(Action::Jump));
    bindings.clear_gamepad(Action::Jump);
    assert_eq!(bindings.gamepad_binding_for(Action::Jump), None);
    assert!(!bindings.has_gamepad_conflict(Action::Jump));
}

#[test]
fn merging_fills_only_missing_bindings() {
    let mut bindings = KeyBindings::defaults();
    bindings.clear(Action::Jump);
    bindings.clear_gamepad(Action::Jump);
    bindings.set_key(Action::Sneak, KeyCode::KeyC);
    bindings.clear(Action::ToggleFlying);
    let merged = bindings.merged_with_defaults();
    assert_eq!(merged.binding_for(Action::Jump), BindingInput::Key(KeyCode::Space));
    assert_eq!(
        merged.gamepad_binding_for(Action::Jump),
        Some(GamepadBinding::Button(GamepadButton::South))
    );
    assert_eq!(merged.binding_for(Action::Sneak), BindingInput::Key(KeyCode::KeyC));
    assert_eq!(merged.binding_for(Action::ToggleFlying), BindingInput::Unbound);
}

#[test]
fn key_and_button_labels() {
    assert_eq!(key_label(KeyCode::KeyA), "A");
    assert_eq!(key_label(KeyCode::Numpad7), "Num 7");
    assert_eq!(key_label(KeyCode::Backslash), "\\");
    assert_eq!(key_label(KeyCode::Quote), "'");
    assert_eq!(key_label(KeyCode::ArrowLeft), "Left");
    assert_eq!(key_label(KeyCode::F24), "F24");
    assert_eq!(mouse_button_label(MouseButton::Forward), "Button 5");
    assert_eq!(mouse_button_label(MouseButton::Other(7)), "Button 8");
}

use rustcraft::keybind::ControlDevice;

#[test]
fn control_rows_list_every_bindable_action() {
    let mut bindings = KeyBindings::defaults();
    bindings.set_key(Action::Jump, KeyCode::KeyW);
    let rows = bindings.control_rows(Some(Action::Use));
    assert_eq!(rows.len(), Action::all_bindable().len());
    assert_eq!(rows[0].action, Action::Attack);
    assert_eq!(rows[0].label_key, "key.attack");
    assert_eq!(rows[0].binding, "Button 1");
    assert!(rows[0].is_default);
    assert!(rows[1].listening);
    let jump = rows.iter().find(|row| row.action == Action::Jump).unwrap();
    assert!(jump.conflict);
    assert!(!jump.is_default);
    assert_eq!(jump.category_key, "key.categories.movement");
    let pad = bindings.control_rows_for_device(ControlDevice::Gamepad, None);
    assert_eq!(pad[0].binding, "Right Trigger");
    assert!(pad.iter().all(|row| row.is_default && !row.listening));
}

#[test]
fn the_last_mouse_button_number_wraps() {
    assert_eq!(mouse_button_label(MouseButton::Other(u16::MAX)), "Button 0");
}

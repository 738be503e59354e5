//! Actions that inputs are bound to, gamepad bindings, and the per-tick
//! state of every action.
use vstd::prelude::*;

verus! {

/// Something the player does that a key, mouse button or gamepad input
/// can be bound to.
#[derive(Clone, Copy, Debug, PartialEq, Eq, Hash, Structural)]
pub enum Action {
    Forward,
    Backward,
    StrafeLeft,
    StrafeRight,
    Jump,
    Sneak,
    Sprint,
    ToggleSprint,
    Attack,
    Use,
    Inventory,
    DropItem,
    Hotbar1,
    Hotbar2,
    Hotbar3,
    Hotbar4,
    Hotbar5,
    Hotbar6,
    Hotbar7,
    Hotbar8,
    Hotbar9,
    HotbarNext,
    HotbarPrev,
    Chat,
    Command,
    PlayerList,
    Pause,
    ToggleFlying,
    TogglePerspective,
}

/// The number of actions.
pub const ACTION_COUNT: usize = 29;

/// Which bindings the controls screen edits.
#[derive(Clone, Copy, Debug, PartialEq, Eq, Structural)]
pub enum ControlDevice {
    KeyboardMouse,
    Gamepad,
}

/// A gamepad button, independent of any gamepad library.
#[derive(Clone, Copy, Debug, PartialEq, Eq, Hash, Structural)]
pub enum GamepadButton {
    South,
    East,
    West,
    North,
    LeftTrigger,
    RightTrigger,
    LeftTrigger2,
    RightTrigger2,
    LeftThumb,
    RightThumb,
    Start,
}

/// One bindable gamepad input: a button or a left stick direction.
#[derive(Clone, Copy, Debug, PartialEq, Eq, Hash, Structural)]
pub enum GamepadBinding {
    Button(GamepadButton),
    LeftStickUp,
    LeftStickDown,
    LeftStickLeft,
    LeftStickRight,
}

/// The name shown for a gamepad binding.
pub open spec fn spec_gamepad_binding_label(b: GamepadBinding) -> Seq<char> {
    match b {
        GamepadBinding::Button(GamepadButton::South) => seq!['A', ' ', '/', ' ', 'C', 'r', 'o', 's', 's'],
        GamepadBinding::Button(GamepadButton::East) => seq!['B', ' ', '/', ' ', 'C', 'i', 'r', 'c', 'l', 'e'],
        GamepadBinding::Button(GamepadButton::West) => seq!['X', ' ', '/', ' ', 'S', 'q', 'u', 'a', 'r', 'e'],
        GamepadBinding::Button(GamepadButton::North) => seq!['Y', ' ', '/', ' ', 'T', 'r', 'i', 'a', 'n', 'g', 'l', 'e'],
        GamepadBinding::Button(GamepadButton::LeftTrigger) => seq!['L', 'e', 'f', 't', ' ', 'B', 'u', 'm', 'p', 'e', 'r'],
        GamepadBinding::Button(GamepadButton::RightTrigger) => seq!['R', 'i', 'g', 'h', 't', ' ', 'B', 'u', 'm', 'p', 'e', 'r'],
        GamepadBinding::Button(GamepadButton::LeftTrigger2) => seq!['L', 'e', 'f', 't', ' ', 'T', 'r', 'i', 'g', 'g', 'e', 'r'],
        GamepadBinding::Button(GamepadButton::RightTrigger2) => seq!['R', 'i', 'g', 'h', 't', ' ', 'T', 'r', 'i', 'g', 'g', 'e', 'r'],
        GamepadBinding::Button(GamepadButton::LeftThumb) => seq!['L', 'e', 'f', 't', ' ', 'S', 't', 'i', 'c', 'k', ' ', 'C', 'l', 'i', 'c', 'k'],
        GamepadBinding::Button(GamepadButton::RightThumb) => seq!['R', 'i', 'g', 'h', 't', ' ', 'S', 't', 'i', 'c', 'k', ' ', 'C', 'l', 'i', 'c', 'k'],
        GamepadBinding::Button(GamepadButton::Start) => seq!['M', 'e', 'n', 'u', ' ', '/', ' ', 'S', 't', 'a', 'r', 't'],
        GamepadBinding::LeftStickUp => seq!['L', 'e', 'f', 't', ' ', 'S', 't', 'i', 'c', 'k', ' ', 'U', 'p'],
        GamepadBinding::LeftStickDown => seq!['L', 'e', 'f', 't', ' ', 'S', 't', 'i', 'c', 'k', ' ', 'D', 'o', 'w', 'n'],
        GamepadBinding::LeftStickLeft => seq!['L', 'e', 'f', 't', ' ', 'S', 't', 'i', 'c', 'k', ' ', 'L', 'e', 'f', 't'],
        GamepadBinding::LeftStickRight => seq!['L', 'e', 'f', 't', ' ', 'S', 't', 'i', 'c', 'k', ' ', 'R', 'i', 'g', 'h', 't'],
    }
}

impl GamepadBinding {
    /// The name shown for this binding.
    pub fn label(self) -> (r: &'static str)
        ensures
            r@ == spec_gamepad_binding_label(self),
    {
        match self {
            GamepadBinding::Button(GamepadButton::South) => {
                proof {
                    reveal_strlit("A / Cross");
                }
                "A / Cross"
            },
            GamepadBinding::Button(GamepadButton::East) => {
                proof {
                    reveal_strlit("B / Circle");
                }
                "B / Circle"
            },
            GamepadBinding::Button(GamepadButton::West) => {
                proof {
                    reveal_strlit("X / Square");
                }
                "X / Square"
            },
            GamepadBinding::Button(GamepadButton::North) => {
                proof {
                    reveal_strlit("Y / Triangle");
                }
                "Y / Triangle"
            },
            GamepadBinding::Button(GamepadButton::LeftTrigger) => {
                proof {
                    reveal_strlit("Left Bumper");
                }
                "Left Bumper"
            },
            GamepadBinding::Button(GamepadButton::RightTrigger) => {
                proof {
                    reveal_strlit("Right Bumper");
                }
                "Right Bumper"
            },
            GamepadBinding::Button(GamepadButton::LeftTrigger2) => {
                proof {
                    reveal_strlit("Left Trigger");
                }
                "Left Trigger"
            },
            GamepadBinding::Button(GamepadButton::RightTrigger2) => {
                proof {
                    reveal_strlit("Right Trigger");
                }
                "Right Trigger"
            },
            GamepadBinding::Button(GamepadButton::LeftThumb) => {
                proof {
                    reveal_strlit("Left Stick Click");
                }
                "Left Stick Click"
            },
            GamepadBinding::Button(GamepadButton::RightThumb) => {
                proof {
                    reveal_strlit("Right Stick Click");
                }
                "Right Stick Click"
            },
            GamepadBinding::Button(GamepadButton::Start) => {
                proof {
                    reveal_strlit("Menu / Start");
                }
                "Menu / Start"
            },
            GamepadBinding::LeftStickUp => {
                proof {
                    reveal_strlit("Left Stick Up");
                }
                "Left Stick Up"
            },
            GamepadBinding::LeftStickDown => {
                proof {
                    reveal_strlit("Left Stick Down");
                }
                "Left Stick Down"
            },
            GamepadBinding::LeftStickLeft => {
                proof {
                    reveal_strlit("Left Stick Left");
                }
                "Left Stick Left"
            },
            GamepadBinding::LeftStickRight => {
                proof {
                    reveal_strlit("Left Stick Right");
                }
                "Left Stick Right"
            },
        }
    }
}

/// The position of each action in declaration order.
pub open spec fn spec_action_ord(a: Action) -> int {
    match a {
        Action::Forward => 0,
        Action::Backward => 1,
        Action::StrafeLeft => 2,
        Action::StrafeRight => 3,
        Action::Jump => 4,
        Action::Sneak => 5,
        Action::Sprint => 6,
        Action::ToggleSprint => 7,
        Action::Attack => 8,
        Action::Use => 9,
        Action::Inventory => 10,
        Action::DropItem => 11,
        Action::Hotbar1 => 12,
        Action::Hotbar2 => 13,
        Action::Hotbar3 => 14,
        Action::Hotbar4 => 15,
        Action::Hotbar5 => 16,
        Action::Hotbar6 => 17,
        Action::Hotbar7 => 18,
        Action::Hotbar8 => 19,
        Action::Hotbar9 => 20,
        Action::HotbarNext => 21,
        Action::HotbarPrev => 22,
        Action::Chat => 23,
        Action::Command => 24,
        Action::PlayerList => 25,
        Action::Pause => 26,
        Action::ToggleFlying => 27,
        Action::TogglePerspective => 28,
    }
}

/// The actions in the order the controls screen lists them (everything
/// but toggle sprint and toggle flying).
pub open spec fn bindable_actions() -> Seq<Action> {
    seq![Action::Attack, Action::Use, Action::Forward, Action::Backward, Action::StrafeLeft, Action::StrafeRight, Action::Jump, Action::Sneak, Action::Sprint, Action::Inventory, Action::DropItem, Action::Hotbar1, Action::Hotbar2, Action::Hotbar3, Action::Hotbar4, Action::Hotbar5, Action::Hotbar6, Action::Hotbar7, Action::Hotbar8, Action::Hotbar9, Action::HotbarNext, Action::HotbarPrev, Action::Chat, Action::Command, Action::PlayerList, Action::Pause, Action::TogglePerspective
    ]
}

/// The position of `a` in the controls list, if it is there.
pub open spec fn spec_bindable_index(a: Action) -> Option<usize> {
    match a {
        Action::Forward => Some(2usize),
        Action::Backward => Some(3usize),
        Action::StrafeLeft => Some(4usize),
        Action::StrafeRight => Some(5usize),
        Action::Jump => Some(6usize),
        Action::Sneak => Some(7usize),
        Action::Sprint => Some(8usize),
        Action::ToggleSprint => None,
        Action::Attack => Some(0usize),
        Action::Use => Some(1usize),
        Action::Inventory => Some(9usize),
        Action::DropItem => Some(10usize),
        Action::Hotbar1 => Some(11usize),
        Action::Hotbar2 => Some(12usize),
        Action::Hotbar3 => Some(13usize),
        Action::Hotbar4 => Some(14usize),
        Action::Hotbar5 => Some(15usize),
        Action::Hotbar6 => Some(16usize),
        Action::Hotbar7 => Some(17usize),
        Action::Hotbar8 => Some(18usize),
        Action::Hotbar9 => Some(19usize),
        Action::HotbarNext => Some(20usize),
        Action::HotbarPrev => Some(21usize),
        Action::Chat => Some(22usize),
        Action::Command => Some(23usize),
        Action::PlayerList => Some(24usize),
        Action::Pause => Some(25usize),
        Action::ToggleFlying => None,
        Action::TogglePerspective => Some(26usize),
    }
}

/// The name shown for each action.
pub open spec fn spec_action_label(a: Action) -> Seq<char> {
    match a {
        Action::Forward => seq!['F', 'o', 'r', 'w', 'a', 'r', 'd'],
        Action::Backward => seq!['B', 'a', 'c', 'k'],
        Action::StrafeLeft => seq!['L', 'e', 'f', 't'],
        Action::StrafeRight => seq!['R', 'i', 'g', 'h', 't'],
        Action::Jump => seq!['J', 'u', 'm', 'p'],
        Action::Sneak => seq!['S', 'n', 'e', 'a', 'k'],
        Action::Sprint => seq!['S', 'p', 'r', 'i', 'n', 't'],
        Action::ToggleSprint => seq!['T', 'o', 'g', 'g', 'l', 'e', ' ', 'S', 'p', 'r', 'i', 'n', 't'],
        Action::Attack => seq!['A', 't', 't', 'a', 'c', 'k', '/', 'D', 'e', 's', 't', 'r', 'o', 'y'],
        Action::Use => seq!['U', 's', 'e', ' ', 'I', 't', 'e', 'm', '/', 'P', 'l', 'a', 'c', 'e', ' ', 'B', 'l', 'o', 'c', 'k'],
        Action::Inventory => seq!['I', 'n', 'v', 'e', 'n', 't', 'o', 'r', 'y'],
        Action::DropItem => seq!['D', 'r', 'o', 'p', ' ', 'I', 't', 'e', 'm'],
        Action::Hotbar1 => seq!['H', 'o', 't', 'b', 'a', 'r', ' ', 'S', 'l', 'o', 't', ' ', '1'],
        Action::Hotbar2 => seq!['H', 'o', 't', 'b', 'a', 'r', ' ', 'S', 'l', 'o', 't', ' ', '2'],
        Action::Hotbar3 => seq!['H', 'o', 't', 'b', 'a', 'r', ' ', 'S', 'l', 'o', 't', ' ', '3'],
        Action::Hotbar4 => seq!['H', 'o', 't', 'b', 'a', 'r', ' ', 'S', 'l', 'o', 't', ' ', '4'],
        Action::Hotbar5 => seq!['H', 'o', 't', 'b', 'a', 'r', ' ', 'S', 'l', 'o', 't', ' ', '5'],
        Action::Hotbar6 => seq!['H', 'o', 't', 'b', 'a', 'r', ' ', 'S', 'l', 'o', 't', ' ', '6'],
        Action::Hotbar7 => seq!['H', 'o', 't', 'b', 'a', 'r', ' ', 'S', 'l', 'o', 't', ' ', '7'],
        Action::Hotbar8 => seq!['H', 'o', 't', 'b', 'a', 'r', ' ', 'S', 'l', 'o', 't', ' ', '8'],
        Action::Hotbar9 => seq!['H', 'o', 't', 'b', 'a', 'r', ' ', 'S', 'l', 'o', 't', ' ', '9'],
        Action::HotbarNext => seq!['N', 'e', 'x', 't', ' ', 'H', 'o', 't', 'b', 'a', 'r', ' ', 'S', 'l', 'o', 't'],
        Action::HotbarPrev => seq!['P', 'r', 'e', 'v', 'i', 'o', 'u', 's', ' ', 'H', 'o', 't', 'b', 'a', 'r', ' ', 'S', 'l', 'o', 't'],
        Action::Chat => seq!['O', 'p', 'e', 'n', ' ', 'C', 'h', 'a', 't'],
        Action::Command => seq!['O', 'p', 'e', 'n', ' ', 'C', 'o', 'm', 'm', 'a', 'n', 'd'],
        Action::PlayerList => seq!['L', 'i', 's', 't', ' ', 'P', 'l', 'a', 'y', 'e', 'r', 's'],
        Action::Pause => seq!['M', 'e', 'n', 'u'],
        Action::ToggleFlying => seq!['T', 'o', 'g', 'g', 'l', 'e', ' ', 'F', 'l', 'y', 'i', 'n', 'g'],
        Action::TogglePerspective => seq!['T', 'o', 'g', 'g', 'l', 'e', ' ', 'P', 'e', 'r', 's', 'p', 'e', 'c', 't', 'i', 'v', 'e'],
    }
}

/// The translation key of each action's name.
pub open spec fn spec_translation_key(a: Action) -> Seq<char> {
    match a {
        Action::Forward => seq!['k', 'e', 'y', '.', 'f', 'o', 'r', 'w', 'a', 'r', 'd'],
        Action::Backward => seq!['k', 'e', 'y', '.', 'b', 'a', 'c', 'k'],
        Action::StrafeLeft => seq!['k', 'e', 'y', '.', 'l', 'e', 'f', 't'],
        Action::StrafeRight => seq!['k', 'e', 'y', '.', 'r', 'i', 'g', 'h', 't'],
        Action::Jump => seq!['k', 'e', 'y', '.', 'j', 'u', 'm', 'p'],
        Action::Sneak => seq!['k', 'e', 'y', '.', 's', 'n', 'e', 'a', 'k'],
        Action::Sprint => seq!['k', 'e', 'y', '.', 's', 'p', 'r', 'i', 'n', 't'],
        Action::ToggleSprint => seq!['k', 'e', 'y', '.', 's', 'p', 'r', 'i', 'n', 't'],
        Action::Attack => seq!['k', 'e', 'y', '.', 'a', 't', 't', 'a', 'c', 'k'],
        Action::Use => seq!['k', 'e', 'y', '.', 'u', 's', 'e'],
        Action::Inventory => seq!['k', 'e', 'y', '.', 'i', 'n', 'v', 'e', 'n', 't', 'o', 'r', 'y'],
        Action::DropItem => seq!['k', 'e', 'y', '.', 'd', 'r', 'o', 'p'],
        Action::Hotbar1 => seq!['k', 'e', 'y', '.', 'h', 'o', 't', 'b', 'a', 'r', '.', '1'],
        Action::Hotbar2 => seq!['k', 'e', 'y', '.', 'h', 'o', 't', 'b', 'a', 'r', '.', '2'],
        Action::Hotbar3 => seq!['k', 'e', 'y', '.', 'h', 'o', 't', 'b', 'a', 'r', '.', '3'],
        Action::Hotbar4 => seq!['k', 'e', 'y', '.', 'h', 'o', 't', 'b', 'a', 'r', '.', '4'],
        Action::Hotbar5 => seq!['k', 'e', 'y', '.', 'h', 'o', 't', 'b', 'a', 'r', '.', '5'],
        Action::Hotbar6 => seq!['k', 'e', 'y', '.', 'h', 'o', 't', 'b', 'a', 'r', '.', '6'],
        Action::Hotbar7 => seq!['k', 'e', 'y', '.', 'h', 'o', 't', 'b', 'a', 'r', '.', '7'],
        Action::Hotbar8 => seq!['k', 'e', 'y', '.', 'h', 'o', 't', 'b', 'a', 'r', '.', '8'],
        Action::Hotbar9 => seq!['k', 'e', 'y', '.', 'h', 'o', 't', 'b', 'a', 'r', '.', '9'],
        Action::HotbarNext => seq!['k', 'e', 'y', '.', 'h', 'o', 't', 'b', 'a', 'r', '.', 'n', 'e', 'x', 't'],
        Action::HotbarPrev => seq!['k', 'e', 'y', '.', 'h', 'o', 't', 'b', 'a', 'r', '.', 'p', 'r', 'e', 'v', 'i', 'o', 'u', 's'],
        Action::Chat => seq!['k', 'e', 'y', '.', 'c', 'h', 'a', 't'],
        Action::Command => seq!['k', 'e', 'y', '.', 'c', 'o', 'm', 'm', 'a', 'n', 'd'],
        Action::PlayerList => seq!['k', 'e', 'y', '.', 'p', 'l', 'a', 'y', 'e', 'r', 'l', 'i', 's', 't'],
        Action::Pause => seq!['k', 'e', 'y', '.', 'p', 'a', 'u', 's', 'e'],
        Action::ToggleFlying => seq!['k', 'e', 'y', '.', 't', 'o', 'g', 'g', 'l', 'e', 'F', 'l', 'y', 'i', 'n', 'g'],
        Action::TogglePerspective => seq!['k', 'e', 'y', '.', 't', 'o', 'g', 'g', 'l', 'e', 'P', 'e', 'r', 's', 'p', 'e', 'c', 't', 'i', 'v', 'e'],
    }
}

/// The translation key of each action's category.
pub open spec fn spec_category_key(a: Action) -> Seq<char> {
    match a {
        Action::Forward => seq!['k', 'e', 'y', '.', 'c', 'a', 't', 'e', 'g', 'o', 'r', 'i', 'e', 's', '.', 'm', 'o', 'v', 'e', 'm', 'e', 'n', 't'],
        Action::Backward => seq!['k', 'e', 'y', '.', 'c', 'a', 't', 'e', 'g', 'o', 'r', 'i', 'e', 's', '.', 'm', 'o', 'v', 'e', 'm', 'e', 'n', 't'],
        Action::StrafeLeft => seq!['k', 'e', 'y', '.', 'c', 'a', 't', 'e', 'g', 'o', 'r', 'i', 'e', 's', '.', 'm', 'o', 'v', 'e', 'm', 'e', 'n', 't'],
        Action::StrafeRight => seq!['k', 'e', 'y', '.', 'c', 'a', 't', 'e', 'g', 'o', 'r', 'i', 'e', 's', '.', 'm', 'o', 'v', 'e', 'm', 'e', 'n', 't'],
        Action::Jump => seq!['k', 'e', 'y', '.', 'c', 'a', 't', 'e', 'g', 'o', 'r', 'i', 'e', 's', '.', 'm', 'o', 'v', 'e', 'm', 'e', 'n', 't'],
        Action::Sneak => seq!['k', 'e', 'y', '.', 'c', 'a', 't', 'e', 'g', 'o', 'r', 'i', 'e', 's', '.', 'm', 'o', 'v', 'e', 'm', 'e', 'n', 't'],
        Action::Sprint => seq!['k', 'e', 'y', '.', 'c', 'a', 't', 'e', 'g', 'o', 'r', 'i', 'e', 's', '.', 'm', 'o', 'v', 'e', 'm', 'e', 'n', 't'],
        Action::ToggleSprint => seq!['k', 'e', 'y', '.', 'c', 'a', 't', 'e', 'g', 'o', 'r', 'i', 'e', 's', '.', 'm', 'o', 'v', 'e', 'm', 'e', 'n', 't'],
        Action::Attack => seq!['k', 'e', 'y', '.', 'c', 'a', 't', 'e', 'g', 'o', 'r', 'i', 'e', 's', '.', 'g', 'a', 'm', 'e', 'p', 'l', 'a', 'y'],
        Action::Use => seq!['k', 'e', 'y', '.', 'c', 'a', 't', 'e', 'g', 'o', 'r', 'i', 'e', 's', '.', 'g', 'a', 'm', 'e', 'p', 'l', 'a', 'y'],
        Action::Inventory => seq!['k', 'e', 'y', '.', 'c', 'a', 't', 'e', 'g', 'o', 'r', 'i', 'e', 's', '.', 'i', 'n', 'v', 'e', 'n', 't', 'o', 'r', 'y'],
        Action::DropItem => seq!['k', 'e', 'y', '.', 'c', 'a', 't', 'e', 'g', 'o', 'r', 'i', 'e', 's', '.', 'i', 'n', 'v', 'e', 'n', 't', 'o', 'r', 'y'],
        Action::Hotbar1 => seq!['k', 'e', 'y', '.', 'c', 'a', 't', 'e', 'g', 'o', 'r', 'i', 'e', 's', '.', 'i', 'n', 'v', 'e', 'n', 't', 'o', 'r', 'y'],
        Action::Hotbar2 => seq!['k', 'e', 'y', '.', 'c', 'a', 't', 'e', 'g', 'o', 'r', 'i', 'e', 's', '.', 'i', 'n', 'v', 'e', 'n', 't', 'o', 'r', 'y'],
        Action::Hotbar3 => seq!['k', 'e', 'y', '.', 'c', 'a', 't', 'e', 'g', 'o', 'r', 'i', 'e', 's', '.', 'i', 'n', 'v', 'e', 'n', 't', 'o', 'r', 'y'],
        Action::Hotbar4 => seq!['k', 'e', 'y', '.', 'c', 'a', 't', 'e', 'g', 'o', 'r', 'i', 'e', 's', '.', 'i', 'n', 'v', 'e', 'n', 't', 'o', 'r', 'y'],
        Action::Hotbar5 => seq!['k', 'e', 'y', '.', 'c', 'a', 't', 'e', 'g', 'o', 'r', 'i', 'e', 's', '.', 'i', 'n', 'v', 'e', 'n', 't', 'o', 'r', 'y'],
        Action::Hotbar6 => seq!['k', 'e', 'y', '.', 'c', 'a', 't', 'e', 'g', 'o', 'r', 'i', 'e', 's', '.', 'i', 'n', 'v', 'e', 'n', 't', 'o', 'r', 'y'],
        Action::Hotbar7 => seq!['k', 'e', 'y', '.', 'c', 'a', 't', 'e', 'g', 'o', 'r', 'i', 'e', 's', '.', 'i', 'n', 'v', 'e', 'n', 't', 'o', 'r', 'y'],
        Action::Hotbar8 => seq!['k', 'e', 'y', '.', 'c', 'a', 't', 'e', 'g', 'o', 'r', 'i', 'e', 's', '.', 'i', 'n', 'v', 'e', 'n', 't', 'o', 'r', 'y'],
        Action::Hotbar9 => seq!['k', 'e', 'y', '.', 'c', 'a', 't', 'e', 'g', 'o', 'r', 'i', 'e', 's', '.', 'i', 'n', 'v', 'e', 'n', 't', 'o', 'r', 'y'],
        Action::HotbarNext => seq!['k', 'e', 'y', '.', 'c', 'a', 't', 'e', 'g', 'o', 'r', 'i', 'e', 's', '.', 'i', 'n', 'v', 'e', 'n', 't', 'o', 'r', 'y'],
        Action::HotbarPrev => seq!['k', 'e', 'y', '.', 'c', 'a', 't', 'e', 'g', 'o', 'r', 'i', 'e', 's', '.', 'i', 'n', 'v', 'e', 'n', 't', 'o', 'r', 'y'],
        Action::Chat => seq!['k', 'e', 'y', '.', 'c', 'a', 't', 'e', 'g', 'o', 'r', 'i', 'e', 's', '.', 'u', 'i'],
        Action::Command => seq!['k', 'e', 'y', '.', 'c', 'a', 't', 'e', 'g', 'o', 'r', 'i', 'e', 's', '.', 'u', 'i'],
        Action::PlayerList => seq!['k', 'e', 'y', '.', 'c', 'a', 't', 'e', 'g', 'o', 'r', 'i', 'e', 's', '.', 'u', 'i'],
        Action::Pause => seq!['k', 'e', 'y', '.', 'c', 'a', 't', 'e', 'g', 'o', 'r', 'i', 'e', 's', '.', 'u', 'i'],
        Action::ToggleFlying => seq!['k', 'e', 'y', '.', 'c', 'a', 't', 'e', 'g', 'o', 'r', 'i', 'e', 's', '.', 'm', 'o', 'v', 'e', 'm', 'e', 'n', 't'],
        Action::TogglePerspective => seq!['k', 'e', 'y', '.', 'c', 'a', 't', 'e', 'g', 'o', 'r', 'i', 'e', 's', '.', 'u', 'i'],
    }
}

impl Action {
    /// The position of this action in declaration order.
    pub fn ordinal(self) -> (r: usize)
        ensures
            r == spec_action_ord(self),
            r < ACTION_COUNT,
    {
        match self {
            Action::Forward => 0,
            Action::Backward => 1,
            Action::StrafeLeft => 2,
            Action::StrafeRight => 3,
            Action::Jump => 4,
            Action::Sneak => 5,
            Action::Sprint => 6,
            Action::ToggleSprint => 7,
            Action::Attack => 8,
            Action::Use => 9,
            Action::Inventory => 10,
            Action::DropItem => 11,
            Action::Hotbar1 => 12,
            Action::Hotbar2 => 13,
            Action::Hotbar3 => 14,
            Action::Hotbar4 => 15,
            Action::Hotbar5 => 16,
            Action::Hotbar6 => 17,
            Action::Hotbar7 => 18,
            Action::Hotbar8 => 19,
            Action::Hotbar9 => 20,
            Action::HotbarNext => 21,
            Action::HotbarPrev => 22,
            Action::Chat => 23,
            Action::Command => 24,
            Action::PlayerList => 25,
            Action::Pause => 26,
            Action::ToggleFlying => 27,
            Action::TogglePerspective => 28,
        }
    }

    /// The action at position `i` of declaration order.
    pub fn from_ordinal(i: usize) -> (r: Action)
        requires
            i < ACTION_COUNT,
        ensures
            spec_action_ord(r) == i,
    {
        match i {
            0 => Action::Forward,
            1 => Action::Backward,
            2 => Action::StrafeLeft,
            3 => Action::StrafeRight,
            4 => Action::Jump,
            5 => Action::Sneak,
            6 => Action::Sprint,
            7 => Action::ToggleSprint,
            8 => Action::Attack,
            9 => Action::Use,
            10 => Action::Inventory,
            11 => Action::DropItem,
            12 => Action::Hotbar1,
            13 => Action::Hotbar2,
            14 => Action::Hotbar3,
            15 => Action::Hotbar4,
            16 => Action::Hotbar5,
            17 => Action::Hotbar6,
            18 => Action::Hotbar7,
            19 => Action::Hotbar8,
            20 => Action::Hotbar9,
            21 => Action::HotbarNext,
            22 => Action::HotbarPrev,
            23 => Action::Chat,
            24 => Action::Command,
            25 => Action::PlayerList,
            26 => Action::Pause,
            27 => Action::ToggleFlying,
            _ => Action::TogglePerspective,
        }
    }

    /// The actions of the controls screen, in order.
    pub fn all_bindable() -> (r: Vec<Action>)
        ensures
            r@ == bindable_actions(),
    {
        let r: Vec<Action> = vec![Action::Attack, Action::Use, Action::Forward, Action::Backward, Action::StrafeLeft, Action::StrafeRight, Action::Jump, Action::Sneak, Action::Sprint, Action::Inventory, Action::DropItem, Action::Hotbar1, Action::Hotbar2, Action::Hotbar3, Action::Hotbar4, Action::Hotbar5, Action::Hotbar6, Action::Hotbar7, Action::Hotbar8, Action::Hotbar9, Action::HotbarNext, Action::HotbarPrev, Action::Chat, Action::Command, Action::PlayerList, Action::Pause, Action::TogglePerspective];
        assert(r@ =~= bindable_actions());
        r
    }

    /// The action at `index` of the controls list.
    pub fn from_bindable_index(index: usize) -> (r: Option<Action>)
        ensures
            r == (if index < bindable_actions().len() {
                Some(bindable_actions()[index as int])
            } else {
                None
            }),
    {
        let all = Action::all_bindable();
        if index < all.len() {
            Some(all[index])
        } else {
            None
        }
    }

    /// The position of this action in the controls list.
    pub fn bindable_index(self) -> (r: Option<usize>)
        ensures
            r == spec_bindable_index(self),
            r matches Some(i) ==> i < bindable_actions().len() && bindable_actions()[i as int] == self,
            r is None ==> !bindable_actions().contains(self),
    {
        let all = Action::all_bindable();
        let mut i: usize = 0;
        while i < all.len()
            invariant
                all@ == bindable_actions(),
                i <= all@.len(),
                forall|k: int| 0 <= k < i ==> all@[k] != self,
            decreases all.len() - i,
        {
            if all[i] == self {
                proof {
                    lemma_bindable_index_matches(self, i as int);
                }
                return Some(i);
            }
            i = i + 1;
        }
        proof {
            lemma_bindable_index_matches(self, -1);
        }
        None
    }

    /// The name shown for this action.
    pub fn label(self) -> (r: &'static str)
        ensures
            r@ == spec_action_label(self),
    {
        match self {
            Action::Forward => {
                proof {
                    reveal_strlit("Forward");
                }
                "Forward"
            },
            Action::Backward => {
                proof {
                    reveal_strlit("Back");
                }
                "Back"
            },
            Action::StrafeLeft => {
                proof {
                    reveal_strlit("Left");
                }
                "Left"
            },
            Action::StrafeRight => {
                proof {
                    reveal_strlit("Right");
                }
                "Right"
            },
            Action::Jump => {
                proof {
                    reveal_strlit("Jump");
                }
                "Jump"
            },
            Action::Sneak => {
                proof {
                    reveal_strlit("Sneak");
                }
                "Sneak"
            },
            Action::Sprint => {
                proof {
                    reveal_strlit("Sprint");
                }
                "Sprint"
            },
            Action::ToggleSprint => {
                proof {
                    reveal_strlit("Toggle Sprint");
                }
                "Toggle Sprint"
            },
            Action::Attack => {
                proof {
                    reveal_strlit("Attack/Destroy");
                }
                "Attack/Destroy"
            },
            Action::Use => {
                proof {
                    reveal_strlit("Use Item/Place Block");
                }
                "Use Item/Place Block"
            },
            Action::Inventory => {
                proof {
                    reveal_strlit("Inventory");
                }
                "Inventory"
            },
            Action::DropItem => {
                proof {
                    reveal_strlit("Drop Item");
                }
                "Drop Item"
            },
            Action::Hotbar1 => {
                proof {
                    reveal_strlit("Hotbar Slot 1");
                }
                "Hotbar Slot 1"
            },
            Action::Hotbar2 => {
                proof {
                    reveal_strlit("Hotbar Slot 2");
                }
                "Hotbar Slot 2"
            },
            Action::Hotbar3 => {
                proof {
                    reveal_strlit("Hotbar Slot 3");
                }
                "Hotbar Slot 3"
            },
            Action::Hotbar4 => {
                proof {
                    reveal_strlit("Hotbar Slot 4");
                }
                "Hotbar Slot 4"
            },
            Action::Hotbar5 => {
                proof {
                    reveal_strlit("Hotbar Slot 5");
                }
                "Hotbar Slot 5"
            },
            Action::Hotbar6 => {
                proof {
                    reveal_strlit("Hotbar Slot 6");
                }
                "Hotbar Slot 6"
            },
            Action::Hotbar7 => {
                proof {
                    reveal_strlit("Hotbar Slot 7");
                }
                "Hotbar Slot 7"
            },
            Action::Hotbar8 => {
                proof {
                    reveal_strlit("Hotbar Slot 8");
                }
                "Hotbar Slot 8"
            },
            Action::Hotbar9 => {
                proof {
                    reveal_strlit("Hotbar Slot 9");
                }
                "Hotbar Slot 9"
            },
            Action::HotbarNext => {
                proof {
                    reveal_strlit("Next Hotbar Slot");
                }
                "Next Hotbar Slot"
            },
            Action::HotbarPrev => {
                proof {
                    reveal_strlit("Previous Hotbar Slot");
                }
                "Previous Hotbar Slot"
            },
            Action::Chat => {
                proof {
                    reveal_strlit("Open Chat");
                }
                "Open Chat"
            },
            Action::Command => {
                proof {
                    reveal_strlit("Open Command");
                }
                "Open Command"
            },
            Action::PlayerList => {
                proof {
                    reveal_strlit("List Players");
                }
                "List Players"
            },
            Action::Pause => {
                proof {
                    reveal_strlit("Menu");
                }
                "Menu"
            },
            Action::ToggleFlying => {
                proof {
                    reveal_strlit("Toggle Flying");
                }
                "Toggle Flying"
            },
            Action::TogglePerspective => {
                proof {
                    reveal_strlit("Toggle Perspective");
                }
                "Toggle Perspective"
            },
        }
    }

    /// The translation key of this action's name.
    pub fn translation_key(self) -> (r: &'static str)
        ensures
            r@ == spec_translation_key(self),
    {
        match self {
            Action::Forward => {
                proof {
                    reveal_strlit("key.forward");
                }
                "key.forward"
            },
            Action::Backward => {
                proof {
                    reveal_strlit("key.back");
                }
                "key.back"
            },
            Action::StrafeLeft => {
                proof {
                    reveal_strlit("key.left");
                }
                "key.left"
            },
            Action::StrafeRight => {
                proof {
                    reveal_strlit("key.right");
                }
                "key.right"
            },
            Action::Jump => {
                proof {
                    reveal_strlit("key.jump");
                }
                "key.jump"
            },
            Action::Sneak => {
                proof {
                    reveal_strlit("key.sneak");
                }
                "key.sneak"
            },
            Action::Sprint => {
                proof {
                    reveal_strlit("key.sprint");
                }
                "key.sprint"
            },
            Action::ToggleSprint => {
                proof {
                    reveal_strlit("key.sprint");
                }
                "key.sprint"
            },
            Action::Attack => {
                proof {
                    reveal_strlit("key.attack");
                }
                "key.attack"
            },
            Action::Use => {
                proof {
                    reveal_strlit("key.use");
                }
                "key.use"
            },
            Action::Inventory => {
                proof {
                    reveal_strlit("key.inventory");
                }
                "key.inventory"
            },
            Action::DropItem => {
                proof {
                    reveal_strlit("key.drop");
                }
                "key.drop"
            },
            Action::Hotbar1 => {
                proof {
                    reveal_strlit("key.hotbar.1");
                }
                "key.hotbar.1"
            },
            Action::Hotbar2 => {
                proof {
                    reveal_strlit("key.hotbar.2");
                }
                "key.hotbar.2"
            },
            Action::Hotbar3 => {
                proof {
                    reveal_strlit("key.hotbar.3");
                }
                "key.hotbar.3"
            },
            Action::Hotbar4 => {
                proof {
                    reveal_strlit("key.hotbar.4");
                }
                "key.hotbar.4"
            },
            Action::Hotbar5 => {
                proof {
                    reveal_strlit("key.hotbar.5");
                }
                "key.hotbar.5"
            },
            Action::Hotbar6 => {
                proof {
                    reveal_strlit("key.hotbar.6");
                }
                "key.hotbar.6"
            },
            Action::Hotbar7 => {
                proof {
                    reveal_strlit("key.hotbar.7");
                }
                "key.hotbar.7"
            },
            Action::Hotbar8 => {
                proof {
                    reveal_strlit("key.hotbar.8");
                }
                "key.hotbar.8"
            },
            Action::Hotbar9 => {
                proof {
                    reveal_strlit("key.hotbar.9");
                }
                "key.hotbar.9"
            },
            Action::HotbarNext => {
                proof {
                    reveal_strlit("key.hotbar.next");
                }
                "key.hotbar.next"
            },
            Action::HotbarPrev => {
                proof {
                    reveal_strlit("key.hotbar.previous");
                }
                "key.hotbar.previous"
            },
            Action::Chat => {
                proof {
                    reveal_strlit("key.chat");
                }
                "key.chat"
            },
            Action::Command => {
                proof {
                    reveal_strlit("key.command");
                }
                "key.command"
            },
            Action::PlayerList => {
                proof {
                    reveal_strlit("key.playerlist");
                }
                "key.playerlist"
            },
            Action::Pause => {
                proof {
                    reveal_strlit("key.pause");
                }
                "key.pause"
            },
            Action::ToggleFlying => {
                proof {
                    reveal_strlit("key.toggleFlying");
                }
                "key.toggleFlying"
            },
            Action::TogglePerspective => {
                proof {
                    reveal_strlit("key.togglePerspective");
                }
                "key.togglePerspective"
            },
        }
    }

    /// The translation key of this action's category.
    pub fn category_key(self) -> (r: &'static str)
        ensures
            r@ == spec_category_key(self),
    {
        match self {
            Action::Forward => {
                proof {
                    reveal_strlit("key.categories.movement");
                }
                "key.categories.movement"
            },
            Action::Backward => {
                proof {
                    reveal_strlit("key.categories.movement");
                }
                "key.categories.movement"
            },
            Action::StrafeLeft => {
                proof {
                    reveal_strlit("key.categories.movement");
                }
                "key.categories.movement"
            },
            Action::StrafeRight => {
                proof {
                    reveal_strlit("key.categories.movement");
                }
                "key.categories.movement"
            },
            Action::Jump => {
                proof {
                    reveal_strlit("key.categories.movement");
                }
                "key.categories.movement"
            },
            Action::Sneak => {
                proof {
                    reveal_strlit("key.categories.movement");
                }
                "key.categories.movement"
            },
            Action::Sprint => {
                proof {
                    reveal_strlit("key.categories.movement");
                }
                "key.categories.movement"
            },
            Action::ToggleSprint => {
                proof {
                    reveal_strlit("key.categories.movement");
                }
                "key.categories.movement"
            },
            Action::Attack => {
                proof {
                    reveal_strlit("key.categories.gameplay");
                }
                "key.categories.gameplay"
            },
            Action::Use => {
                proof {
                    reveal_strlit("key.categories.gameplay");
                }
                "key.categories.gameplay"
            },
            Action::Inventory => {
                proof {
                    reveal_strlit("key.categories.inventory");
                }
                "key.categories.inventory"
            },
            Action::DropItem => {
                proof {
                    reveal_strlit("key.categories.inventory");
                }
                "key.categories.inventory"
            },
            Action::Hotbar1 => {
                proof {
                    reveal_strlit("key.categories.inventory");
                }
                "key.categories.inventory"
            },
            Action::Hotbar2 => {
                proof {
                    reveal_strlit("key.categories.inventory");
                }
                "key.categories.inventory"
            },
            Action::Hotbar3 => {
                proof {
                    reveal_strlit("key.categories.inventory");
                }
                "key.categories.inventory"
            },
            Action::Hotbar4 => {
                proof {
                    reveal_strlit("key.categories.inventory");
                }
                "key.categories.inventory"
            },
            Action::Hotbar5 => {
                proof {
                    reveal_strlit("key.categories.inventory");
                }
                "key.categories.inventory"
            },
            Action::Hotbar6 => {
                proof {
                    reveal_strlit("key.categories.inventory");
                }
                "key.categories.inventory"
            },
            Action::Hotbar7 => {
                proof {
                    reveal_strlit("key.categories.inventory");
                }
                "key.categories.inventory"
            },
            Action::Hotbar8 => {
                proof {
                    reveal_strlit("key.categories.inventory");
                }
                "key.categories.inventory"
            },
            Action::Hotbar9 => {
                proof {
                    reveal_strlit("key.categories.inventory");
                }
                "key.categories.inventory"
            },
            Action::HotbarNext => {
                proof {
                    reveal_strlit("key.categories.inventory");
                }
                "key.categories.inventory"
            },
            Action::HotbarPrev => {
                proof {
                    reveal_strlit("key.categories.inventory");
                }
                "key.categories.inventory"
            },
            Action::Chat => {
                proof {
                    reveal_strlit("key.categories.ui");
                }
                "key.categories.ui"
            },
            Action::Command => {
                proof {
                    reveal_strlit("key.categories.ui");
                }
                "key.categories.ui"
            },
            Action::PlayerList => {
                proof {
                    reveal_strlit("key.categories.ui");
                }
                "key.categories.ui"
            },
            Action::Pause => {
                proof {
                    reveal_strlit("key.categories.ui");
                }
                "key.categories.ui"
            },
            Action::ToggleFlying => {
                proof {
                    reveal_strlit("key.categories.movement");
                }
                "key.categories.movement"
            },
            Action::TogglePerspective => {
                proof {
                    reveal_strlit("key.categories.ui");
                }
                "key.categories.ui"
            },
        }
    }
}

/// The controls list holds each bindable action once: the index table
/// agrees with the list.
proof fn lemma_bindable_index_matches(a: Action, i: int)
    ensures
        0 <= i < bindable_actions().len() && bindable_actions()[i] == a ==> spec_bindable_index(a) == Some(i as usize),
        (forall|k: int| 0 <= k < bindable_actions().len() ==> bindable_actions()[k] != a) ==> spec_bindable_index(a) is None,
        spec_bindable_index(a) matches Some(j) ==> j < bindable_actions().len() && bindable_actions()[j as int] == a,
{
    if spec_bindable_index(a) is Some {
        let j = spec_bindable_index(a)->0;
        assert(bindable_actions()[j as int] == a);
    }
    if (forall|k: int| 0 <= k < bindable_actions().len() ==> bindable_actions()[k] != a) {
        if spec_bindable_index(a) is Some {
            let j = spec_bindable_index(a)->0;
            assert(bindable_actions()[j as int] == a);
        }
    }
}

/// Looking up an action's position in the controls list and reading the
/// list there gives the action back; reading the list at a position and
/// looking the action up gives the position back.
pub proof fn lemma_bindable_index_round_trip(a: Action, i: usize)
    ensures
        spec_bindable_index(a) matches Some(j) ==> bindable_actions()[j as int] == a,
        i < bindable_actions().len() ==> spec_bindable_index(bindable_actions()[i as int]) == Some(i),
{
    lemma_bindable_index_matches(a, -1);
    if i < bindable_actions().len() {
        lemma_bindable_index_matches(bindable_actions()[i as int], i as int);
    }
}


/// The state of every action, indexed by declaration order.
#[verifier::ext_equal]
pub struct InputModel {
    pub held: Seq<bool>,
    pub physical: Seq<bool>,
    pub gamepad: Seq<bool>,
    pub just_pressed: Seq<bool>,
    pub just_released: Seq<bool>,
}

impl InputModel {
    /// One entry per action in each table.
    pub open spec fn wf(self) -> bool {
        &&& self.held.len() == ACTION_COUNT
        &&& self.physical.len() == ACTION_COUNT
        &&& self.gamepad.len() == ACTION_COUNT
        &&& self.just_pressed.len() == ACTION_COUNT
        &&& self.just_released.len() == ACTION_COUNT
    }

    /// Every action is held exactly when a key, mouse button or gamepad
    /// input holds it.
    pub open spec fn held_consistent(self) -> bool {
        forall|i: int| 0 <= i < ACTION_COUNT ==> #[trigger] self.held[i] == (self.physical[i] || self.gamepad[i])
    }
}

/// The state with nothing held and no edges.
pub open spec fn initial_input() -> InputModel {
    let f = Seq::new(ACTION_COUNT as nat, |i: int| false);
    InputModel { held: f, physical: f, gamepad: f, just_pressed: f, just_released: f }
}

/// Recomputes whether action `i` is held from its two sources, recording
/// a press or release edge when that changes.
pub open spec fn refresh(m: InputModel, i: int) -> InputModel {
    let was = m.held[i];
    let now = m.physical[i] || m.gamepad[i];
    InputModel {
        held: m.held.update(i, now),
        just_pressed: if now && !was { m.just_pressed.update(i, true) } else { m.just_pressed },
        just_released: if !now && was { m.just_released.update(i, true) } else { m.just_released },
        ..m
    }
}

/// A key or mouse button bound to action `i` goes down.
pub open spec fn spec_key_down(m: InputModel, i: int) -> InputModel {
    refresh(InputModel { physical: m.physical.update(i, true), ..m }, i)
}

/// A key or mouse button bound to action `i` goes up.
pub open spec fn spec_key_up(m: InputModel, i: int) -> InputModel {
    refresh(InputModel { physical: m.physical.update(i, false), ..m }, i)
}

/// The gamepad now holds exactly the actions in `actions`; every action
/// the gamepad held before or holds now is refreshed.
pub open spec fn spec_set_gamepad_held(m: InputModel, actions: Seq<Action>) -> InputModel {
    let g = Seq::new(ACTION_COUNT as nat, |i: int| exists|k: int| 0 <= k < actions.len() && spec_action_ord(actions[k]) == i);
    let changed = |i: int| m.gamepad[i] || g[i];
    let now = |i: int| m.physical[i] || g[i];
    InputModel {
        gamepad: g,
        held: Seq::new(ACTION_COUNT as nat, |i: int| if changed(i) { now(i) } else { m.held[i] }),
        just_pressed: Seq::new(
            ACTION_COUNT as nat,
            |i: int| if changed(i) && now(i) && !m.held[i] { true } else { m.just_pressed[i] },
        ),
        just_released: Seq::new(
            ACTION_COUNT as nat,
            |i: int| if changed(i) && !now(i) && m.held[i] { true } else { m.just_released[i] },
        ),
        physical: m.physical,
    }
}

/// Edges are cleared at the end of a tick.
pub open spec fn spec_tick_reset(m: InputModel) -> InputModel {
    let f = Seq::new(ACTION_COUNT as nat, |i: int| false);
    InputModel { just_pressed: f, just_released: f, ..m }
}

/// The state of every action: held, and pressed or released since the
/// last tick.  Keyboard and mouse state is kept apart from the gamepad so
/// that letting go of one cannot release an action the other still holds.
pub struct InputState {
    /// Actions held now, by declaration order.
    pub held: Vec<bool>,
    physical_held: Vec<bool>,
    gamepad_held: Vec<bool>,
    /// Actions pressed since the last tick.
    pub just_pressed: Vec<bool>,
    /// Actions released since the last tick.
    pub just_released: Vec<bool>,
}

impl View for InputState {
    type V = InputModel;

    closed spec fn view(&self) -> InputModel {
        InputModel {
            held: self.held@,
            physical: self.physical_held@,
            gamepad: self.gamepad_held@,
            just_pressed: self.just_pressed@,
            just_released: self.just_released@,
        }
    }
}

fn all_false() -> (r: Vec<bool>)
    ensures
        r@ == Seq::new(ACTION_COUNT as nat, |i: int| false),
{
    let mut r: Vec<bool> = Vec::new();
    let mut i: usize = 0;
    while i < ACTION_COUNT
        invariant
            i <= ACTION_COUNT,
            r@ == Seq::new(i as nat, |k: int| false),
        decreases ACTION_COUNT - i,
    {
        r.push(false);
        i = i + 1;
        assert(r@ =~= Seq::new(i as nat, |k: int| false));
    }
    r
}

impl InputState {
    /// Nothing held, no edges.
    pub fn new() -> (r: InputState)
        ensures
            r@ == initial_input(),
            r@.wf(),
    {
        InputState {
            held: all_false(),
            physical_held: all_false(),
            gamepad_held: all_false(),
            just_pressed: all_false(),
            just_released: all_false(),
        }
    }

    fn refresh_index(&mut self, i: usize)
        requires
            old(self)@.wf(),
            i < ACTION_COUNT,
        ensures
            final(self)@ == refresh(old(self)@, i as int),
    {
        let was_held = self.held[i];
        let is_held = self.physical_held[i] || self.gamepad_held[i];
        self.held.set(i, is_held);
        if is_held && !was_held {
            self.just_pressed.set(i, true);
        } else if !is_held && was_held {
            self.just_released.set(i, true);
        }
        assert(self@ =~= refresh(old(self)@, i as int));
    }

    /// Recomputes whether `action` is held from its key and gamepad state.
    pub fn refresh_held(&mut self, action: Action)
        requires
            old(self)@.wf(),
        ensures
            final(self)@ == refresh(old(self)@, spec_action_ord(action)),
    {
        self.refresh_index(action.ordinal());
    }

    /// A key or mouse button bound to `action` was pressed.
    pub fn on_key_down(&mut self, action: Action)
        requires
            old(self)@.wf(),
        ensures
            final(self)@ == spec_key_down(old(self)@, spec_action_ord(action)),
    {
        let i = action.ordinal();
        self.physical_held.set(i, true);
        self.refresh_index(i);
    }

    /// A key or mouse button bound to `action` was released.
    pub fn on_key_up(&mut self, action: Action)
        requires
            old(self)@.wf(),
        ensures
            final(self)@ == spec_key_up(old(self)@, spec_action_ord(action)),
    {
        let i = action.ordinal();
        self.physical_held.set(i, false);
        self.refresh_index(i);
    }

    /// The gamepad now holds exactly `actions`; press and release edges
    /// come only where the combined state of an action changes.
    pub fn set_gamepad_held(&mut self, actions: &[Action])
        requires
            old(self)@.wf(),
        ensures
            final(self)@ == spec_set_gamepad_held(old(self)@, actions@),
    {
        let ghost m = self@;
        let ghost target = spec_set_gamepad_held(m, actions@);
        let mut g = all_false();
        let mut k: usize = 0;
        while k < actions.len()
            invariant
                k <= actions@.len(),
                g@.len() == ACTION_COUNT,
                forall|i: int| 0 <= i < ACTION_COUNT ==> #[trigger] g@[i] == (exists|j: int| 0 <= j < k && spec_action_ord(actions@[j]) == i),
            decreases actions.len() - k,
        {
            let o = actions[k].ordinal();
            g.set(o, true);
            k = k + 1;
            assert forall|i: int| 0 <= i < ACTION_COUNT implies #[trigger] g@[i] == (exists|j: int| 0 <= j < k && spec_action_ord(actions@[j]) == i) by {
                if i == o {
                    assert(spec_action_ord(actions@[k - 1]) == i);
                } else {
                    if exists|j: int| 0 <= j < k && spec_action_ord(actions@[j]) == i {
                        let j = choose|j: int| 0 <= j < k && spec_action_ord(actions@[j]) == i;
                        assert(j != k - 1);
                    }
                }
            }
        }
        assert(g@ =~= target.gamepad);
        let mut old_gamepad = g;
        std::mem::swap(&mut old_gamepad, &mut self.gamepad_held);
        let mut i: usize = 0;
        while i < ACTION_COUNT
            invariant
                i <= ACTION_COUNT,
                old_gamepad@ == m.gamepad,
                m.wf(),
                self@.wf(),
                target == spec_set_gamepad_held(m, actions@),
                self@.gamepad == target.gamepad,
                self@.physical == m.physical,
                forall|j: int| 0 <= j < i ==> #[trigger] self@.held[j] == target.held[j],
                forall|j: int| 0 <= j < i ==> #[trigger] self@.just_pressed[j] == target.just_pressed[j],
                forall|j: int| 0 <= j < i ==> #[trigger] self@.just_released[j] == target.just_released[j],
                forall|j: int| i <= j < ACTION_COUNT ==> #[trigger] self@.held[j] == m.held[j],
                forall|j: int| i <= j < ACTION_COUNT ==> #[trigger] self@.just_pressed[j] == m.just_pressed[j],
                forall|j: int| i <= j < ACTION_COUNT ==> #[trigger] self@.just_released[j] == m.just_released[j],
            decreases ACTION_COUNT - i,
        {
            if old_gamepad[i] || self.gamepad_held[i] {
                self.refresh_index(i);
            }
            i = i + 1;
        }
        assert(self@ =~= target);
    }

    /// Clears the press and release edges; called once per tick.
    pub fn tick_reset(&mut self)
        requires
            old(self)@.wf(),
        ensures
            final(self)@ == spec_tick_reset(old(self)@),
    {
        self.just_pressed = all_false();
        self.just_released = all_false();
        assert(self@ =~= spec_tick_reset(old(self)@));
    }

    /// Whether `action` is held.
    pub fn is_held(&self, action: Action) -> (r: bool)
        requires
            self@.wf(),
        ensures
            r == self@.held[spec_action_ord(action)],
    {
        self.held[action.ordinal()]
    }

    /// Whether `action` was pressed since the last tick.
    pub fn is_just_pressed(&self, action: Action) -> (r: bool)
        requires
            self@.wf(),
        ensures
            r == self@.just_pressed[spec_action_ord(action)],
    {
        self.just_pressed[action.ordinal()]
    }

    /// Whether `action` was released since the last tick.
    pub fn is_just_released(&self, action: Action) -> (r: bool)
        requires
            self@.wf(),
        ensures
            r == self@.just_released[spec_action_ord(action)],
    {
        self.just_released[action.ordinal()]
    }
}

impl Default for InputState {
    fn default() -> (r: InputState)
        ensures
            r@ == initial_input(),
    {
        InputState::new()
    }
}

/// Every change of input keeps each action held exactly when one of its
/// sources holds it, and keeps one entry per action.
pub proof fn lemma_input_keeps_held_consistent(m: InputModel, i: int, actions: Seq<Action>)
    requires
        m.wf(),
        m.held_consistent(),
        0 <= i < ACTION_COUNT,
    ensures
        spec_key_down(m, i).wf() && spec_key_down(m, i).held_consistent(),
        spec_key_up(m, i).wf() && spec_key_up(m, i).held_consistent(),
        spec_set_gamepad_held(m, actions).wf() && spec_set_gamepad_held(m, actions).held_consistent(),
        spec_tick_reset(m).wf() && spec_tick_reset(m).held_consistent(),
{
    let s = spec_set_gamepad_held(m, actions);
    assert forall|j: int| 0 <= j < ACTION_COUNT implies #[trigger] s.held[j] == (s.physical[j] || s.gamepad[j]) by {
        assert(m.held[j] == (m.physical[j] || m.gamepad[j]));
    }
}

/// Pressing a key for a released action holds it and records a press;
/// releasing the key of an action the gamepad also holds keeps it held
/// with no release.
pub proof fn lemma_key_edges(m: InputModel, i: int)
    requires
        m.wf(),
        m.held_consistent(),
        0 <= i < ACTION_COUNT,
    ensures
        spec_key_down(m, i).held[i],
        !m.held[i] ==> spec_key_down(m, i).just_pressed[i],
        m.gamepad[i] ==> spec_key_up(m, i).held[i] && spec_key_up(m, i).just_released[i] == m.just_released[i],
        !m.gamepad[i] && m.held[i] ==> !spec_key_up(m, i).held[i] && spec_key_up(m, i).just_released[i],
{
}


/// A keyboard key the controls can bind, named as the platform layer names
/// physical keys.
#[derive(Clone, Copy, Debug, PartialEq, Eq, Hash, Structural)]
pub enum KeyCode {
    KeyA,
    KeyB,
    KeyC,
    KeyD,
    KeyE,
    KeyF,
    KeyG,
    KeyH,
    KeyI,
    KeyJ,
    KeyK,
    KeyL,
    KeyM,
    KeyN,
    KeyO,
    KeyP,
    KeyQ,
    KeyR,
    KeyS,
    KeyT,
    KeyU,
    KeyV,
    KeyW,
    KeyX,
    KeyY,
    KeyZ,
    Digit0,
    Digit1,
    Digit2,
    Digit3,
    Digit4,
    Digit5,
    Digit6,
    Digit7,
    Digit8,
    Digit9,
    Numpad0,
    Numpad1,
    Numpad2,
    Numpad3,
    Numpad4,
    Numpad5,
    Numpad6,
    Numpad7,
    Numpad8,
    Numpad9,
    Space,
    ShiftLeft,
    ShiftRight,
    ControlLeft,
    ControlRight,
    AltLeft,
    AltRight,
    SuperLeft,
    SuperRight,
    Enter,
    NumpadEnter,
    Escape,
    Tab,
    Backspace,
    Delete,
    Insert,
    Home,
    End,
    PageUp,
    PageDown,
    ArrowUp,
    ArrowDown,
    ArrowLeft,
    ArrowRight,
    Minus,
    Equal,
    BracketLeft,
    BracketRight,
    Backslash,
    Semicolon,
    Quote,
    Backquote,
    Comma,
    Period,
    Slash,
    CapsLock,
    PrintScreen,
    ScrollLock,
    Pause,
    F1,
    F2,
    F3,
    F4,
    F5,
    F6,
    F7,
    F8,
    F9,
    F10,
    F11,
    F12,
    F13,
    F14,
    F15,
    F16,
    F17,
    F18,
    F19,
    F20,
    F21,
    F22,
    F23,
    F24,
    NumpadAdd,
    NumpadSubtract,
    NumpadMultiply,
    NumpadDivide,
    NumpadDecimal,
}

/// A mouse button; `Other` carries the platform's button number.
#[derive(Clone, Copy, Debug, PartialEq, Eq, Hash, Structural)]
pub enum MouseButton {
    Left,
    Right,
    Middle,
    Back,
    Forward,
    Other(u16),
}

/// What a keyboard/mouse action is bound to.
#[derive(Clone, Copy, Debug, PartialEq, Eq, Structural)]
pub enum BindingInput {
    Key(KeyCode),
    Mouse(MouseButton),
    Unbound,
}

/// The name shown for each key.
pub open spec fn spec_key_label(key: KeyCode) -> Seq<char> {
    match key {
        KeyCode::KeyA => seq!['A'],
        KeyCode::KeyB => seq!['B'],
        KeyCode::KeyC => seq!['C'],
        KeyCode::KeyD => seq!['D'],
        KeyCode::KeyE => seq!['E'],
        KeyCode::KeyF => seq!['F'],
        KeyCode::KeyG => seq!['G'],
        KeyCode::KeyH => seq!['H'],
        KeyCode::KeyI => seq!['I'],
        KeyCode::KeyJ => seq!['J'],
        KeyCode::KeyK => seq!['K'],
        KeyCode::KeyL => seq!['L'],
        KeyCode::KeyM => seq!['M'],
        KeyCode::KeyN => seq!['N'],
        KeyCode::KeyO => seq!['O'],
        KeyCode::KeyP => seq!['P'],
        KeyCode::KeyQ => seq!['Q'],
        KeyCode::KeyR => seq!['R'],
        KeyCode::KeyS => seq!['S'],
        KeyCode::KeyT => seq!['T'],
        KeyCode::KeyU => seq!['U'],
        KeyCode::KeyV => seq!['V'],
        KeyCode::KeyW => seq!['W'],
        KeyCode::KeyX => seq!['X'],
        KeyCode::KeyY => seq!['Y'],
        KeyCode::KeyZ => seq!['Z'],
        KeyCode::Digit0 => seq!['0'],
        KeyCode::Digit1 => seq!['1'],
        KeyCode::Digit2 => seq!['2'],
        KeyCode::Digit3 => seq!['3'],
        KeyCode::Digit4 => seq!['4'],
        KeyCode::Digit5 => seq!['5'],
        KeyCode::Digit6 => seq!['6'],
        KeyCode::Digit7 => seq!['7'],
        KeyCode::Digit8 => seq!['8'],
        KeyCode::Digit9 => seq!['9'],
        KeyCode::Numpad0 => seq!['N', 'u', 'm', ' ', '0'],
        KeyCode::Numpad1 => seq!['N', 'u', 'm', ' ', '1'],
        KeyCode::Numpad2 => seq!['N', 'u', 'm', ' ', '2'],
        KeyCode::Numpad3 => seq!['N', 'u', 'm', ' ', '3'],
        KeyCode::Numpad4 => seq!['N', 'u', 'm', ' ', '4'],
        KeyCode::Numpad5 => seq!['N', 'u', 'm', ' ', '5'],
        KeyCode::Numpad6 => seq!['N', 'u', 'm', ' ', '6'],
        KeyCode::Numpad7 => seq!['N', 'u', 'm', ' ', '7'],
        KeyCode::Numpad8 => seq!['N', 'u', 'm', ' ', '8'],
        KeyCode::Numpad9 => seq!['N', 'u', 'm', ' ', '9'],
        KeyCode::Space => seq!['S', 'p', 'a', 'c', 'e'],
        KeyCode::ShiftLeft => seq!['L', 'e', 'f', 't', ' ', 'S', 'h', 'i', 'f', 't'],
        KeyCode::ShiftRight => seq!['R', 'i', 'g', 'h', 't', ' ', 'S', 'h', 'i', 'f', 't'],
        KeyCode::ControlLeft => seq!['L', 'e', 'f', 't', ' ', 'C', 't', 'r', 'l'],
        KeyCode::ControlRight => seq!['R', 'i', 'g', 'h', 't', ' ', 'C', 't', 'r', 'l'],
        KeyCode::AltLeft => seq!['L', 'e', 'f', 't', ' ', 'A', 'l', 't'],
        KeyCode::AltRight => seq!['R', 'i', 'g', 'h', 't', ' ', 'A', 'l', 't'],
        KeyCode::SuperLeft => seq!['L', 'e', 'f', 't', ' ', 'S', 'u', 'p', 'e', 'r'],
        KeyCode::SuperRight => seq!['R', 'i', 'g', 'h', 't', ' ', 'S', 'u', 'p', 'e', 'r'],
        KeyCode::Enter => seq!['E', 'n', 't', 'e', 'r'],
        KeyCode::NumpadEnter => seq!['N', 'u', 'm', ' ', 'E', 'n', 't', 'e', 'r'],
        KeyCode::Escape => seq!['E', 's', 'c'],
        KeyCode::Tab => seq!['T', 'a', 'b'],
        KeyCode::Backspace => seq!['B', 'a', 'c', 'k', 's', 'p', 'a', 'c', 'e'],
        KeyCode::Delete => seq!['D', 'e', 'l', 'e', 't', 'e'],
        KeyCode::Insert => seq!['I', 'n', 's', 'e', 'r', 't'],
        KeyCode::Home => seq!['H', 'o', 'm', 'e'],
        KeyCode::End => seq!['E', 'n', 'd'],
        KeyCode::PageUp => seq!['P', 'a', 'g', 'e', ' ', 'U', 'p'],
        KeyCode::PageDown => seq!['P', 'a', 'g', 'e', ' ', 'D', 'o', 'w', 'n'],
        KeyCode::ArrowUp => seq!['U', 'p'],
        KeyCode::ArrowDown => seq!['D', 'o', 'w', 'n'],
        KeyCode::ArrowLeft => seq!['L', 'e', 'f', 't'],
        KeyCode::ArrowRight => seq!['R', 'i', 'g', 'h', 't'],
        KeyCode::Minus => seq!['-'],
        KeyCode::Equal => seq!['='],
        KeyCode::BracketLeft => seq!['['],
        KeyCode::BracketRight => seq![']'],
        KeyCode::Backslash => seq!['\\'],
        KeyCode::Semicolon => seq![';'],
        KeyCode::Quote => seq!['\''],
        KeyCode::Backquote => seq!['`'],
        KeyCode::Comma => seq![','],
        KeyCode::Period => seq!['.'],
        KeyCode::Slash => seq!['/'],
        KeyCode::CapsLock => seq!['C', 'a', 'p', 's', ' ', 'L', 'o', 'c', 'k'],
        KeyCode::PrintScreen => seq!['P', 'r', 'i', 'n', 't', ' ', 'S', 'c', 'r', 'e', 'e', 'n'],
        KeyCode::ScrollLock => seq!['S', 'c', 'r', 'o', 'l', 'l', ' ', 'L', 'o', 'c', 'k'],
        KeyCode::Pause => seq!['P', 'a', 'u', 's', 'e'],
        KeyCode::F1 => seq!['F', '1'],
        KeyCode::F2 => seq!['F', '2'],
        KeyCode::F3 => seq!['F', '3'],
        KeyCode::F4 => seq!['F', '4'],
        KeyCode::F5 => seq!['F', '5'],
        KeyCode::F6 => seq!['F', '6'],
        KeyCode::F7 => seq!['F', '7'],
        KeyCode::F8 => seq!['F', '8'],
        KeyCode::F9 => seq!['F', '9'],
        KeyCode::F10 => seq!['F', '1', '0'],
        KeyCode::F11 => seq!['F', '1', '1'],
        KeyCode::F12 => seq!['F', '1', '2'],
        KeyCode::F13 => seq!['F', '1', '3'],
        KeyCode::F14 => seq!['F', '1', '4'],
        KeyCode::F15 => seq!['F', '1', '5'],
        KeyCode::F16 => seq!['F', '1', '6'],
        KeyCode::F17 => seq!['F', '1', '7'],
        KeyCode::F18 => seq!['F', '1', '8'],
        KeyCode::F19 => seq!['F', '1', '9'],
        KeyCode::F20 => seq!['F', '2', '0'],
        KeyCode::F21 => seq!['F', '2', '1'],
        KeyCode::F22 => seq!['F', '2', '2'],
        KeyCode::F23 => seq!['F', '2', '3'],
        KeyCode::F24 => seq!['F', '2', '4'],
        KeyCode::NumpadAdd => seq!['N', 'u', 'm', ' ', '+'],
        KeyCode::NumpadSubtract => seq!['N', 'u', 'm', ' ', '-'],
        KeyCode::NumpadMultiply => seq!['N', 'u', 'm', ' ', '*'],
        KeyCode::NumpadDivide => seq!['N', 'u', 'm', ' ', '/'],
        KeyCode::NumpadDecimal => seq!['N', 'u', 'm', ' ', '.'],
    }
}

/// The name shown for a key.
pub fn key_label(key: KeyCode) -> (r: String)
    ensures
        r@ == spec_key_label(key),
{
    let label: &str = match key {
        KeyCode::KeyA => {
            proof {
                reveal_strlit("A");
                assert("A"@ =~= seq!['A']);
            }
            "A"
        },
        KeyCode::KeyB => {
            proof {
                reveal_strlit("B");
                assert("B"@ =~= seq!['B']);
            }
            "B"
        },
        KeyCode::KeyC => {
            proof {
                reveal_strlit("C");
                assert("C"@ =~= seq!['C']);
            }
            "C"
        },
        KeyCode::KeyD => {
            proof {
                reveal_strlit("D");
                assert("D"@ =~= seq!['D']);
            }
            "D"
        },
        KeyCode::KeyE => {
            proof {
                reveal_strlit("E");
                assert("E"@ =~= seq!['E']);
            }
            "E"
        },
        KeyCode::KeyF => {
            proof {
                reveal_strlit("F");
                assert("F"@ =~= seq!['F']);
            }
            "F"
        },
        KeyCode::KeyG => {
            proof {
                reveal_strlit("G");
                assert("G"@ =~= seq!['G']);
            }
            "G"
        },
        KeyCode::KeyH => {
            proof {
                reveal_strlit("H");
                assert("H"@ =~= seq!['H']);
            }
            "H"
        },
        KeyCode::KeyI => {
            proof {
                reveal_strlit("I");
                assert("I"@ =~= seq!['I']);
            }
            "I"
        },
        KeyCode::KeyJ => {
            proof {
                reveal_strlit("J");
                assert("J"@ =~= seq!['J']);
            }
            "J"
        },
        KeyCode::KeyK => {
            proof {
                reveal_strlit("K");
                assert("K"@ =~= seq!['K']);
            }
            "K"
        },
        KeyCode::KeyL => {
            proof {
                reveal_strlit("L");
                assert("L"@ =~= seq!['L']);
            }
            "L"
        },
        KeyCode::KeyM => {
            proof {
                reveal_strlit("M");
                assert("M"@ =~= seq!['M']);
            }
            "M"
        },
        KeyCode::KeyN => {
            proof {
                reveal_strlit("N");
                assert("N"@ =~= seq!['N']);
            }
            "N"
        },
        KeyCode::KeyO => {
            proof {
                reveal_strlit("O");
                assert("O"@ =~= seq!['O']);
            }
            "O"
        },
        KeyCode::KeyP => {
            proof {
                reveal_strlit("P");
                assert("P"@ =~= seq!['P']);
            }
            "P"
        },
        KeyCode::KeyQ => {
            proof {
                reveal_strlit("Q");
                assert("Q"@ =~= seq!['Q']);
            }
            "Q"
        },
        KeyCode::KeyR => {
            proof {
                reveal_strlit("R");
                assert("R"@ =~= seq!['R']);
            }
            "R"
        },
        KeyCode::KeyS => {
            proof {
                reveal_strlit("S");
                assert("S"@ =~= seq!['S']);
            }
            "S"
        },
        KeyCode::KeyT => {
            proof {
                reveal_strlit("T");
                assert("T"@ =~= seq!['T']);
            }
            "T"
        },
        KeyCode::KeyU => {
            proof {
                reveal_strlit("U");
                assert("U"@ =~= seq!['U']);
            }
            "U"
        },
        KeyCode::KeyV => {
            proof {
                reveal_strlit("V");
                assert("V"@ =~= seq!['V']);
            }
            "V"
        },
        KeyCode::KeyW => {
            proof {
                reveal_strlit("W");
                assert("W"@ =~= seq!['W']);
            }
            "W"
        },
        KeyCode::KeyX => {
            proof {
                reveal_strlit("X");
                assert("X"@ =~= seq!['X']);
            }
            "X"
        },
        KeyCode::KeyY => {
            proof {
                reveal_strlit("Y");
                assert("Y"@ =~= seq!['Y']);
            }
            "Y"
        },
        KeyCode::KeyZ => {
            proof {
                reveal_strlit("Z");
                assert("Z"@ =~= seq!['Z']);
            }
            "Z"
        },
        KeyCode::Digit0 => {
            proof {
                reveal_strlit("0");
                assert("0"@ =~= seq!['0']);
            }
            "0"
        },
        KeyCode::Digit1 => {
            proof {
                reveal_strlit("1");
                assert("1"@ =~= seq!['1']);
            }
            "1"
        },
        KeyCode::Digit2 => {
            proof {
                reveal_strlit("2");
                assert("2"@ =~= seq!['2']);
            }
            "2"
        },
        KeyCode::Digit3 => {
            proof {
                reveal_strlit("3");
                assert("3"@ =~= seq!['3']);
            }
            "3"
        },
        KeyCode::Digit4 => {
            proof {
                reveal_strlit("4");
                assert("4"@ =~= seq!['4']);
            }
            "4"
        },
        KeyCode::Digit5 => {
            proof {
                reveal_strlit("5");
                assert("5"@ =~= seq!['5']);
            }
            "5"
        },
        KeyCode::Digit6 => {
            proof {
                reveal_strlit("6");
                assert("6"@ =~= seq!['6']);
            }
            "6"
        },
        KeyCode::Digit7 => {
            proof {
                reveal_strlit("7");
                assert("7"@ =~= seq!['7']);
            }
            "7"
        },
        KeyCode::Digit8 => {
            proof {
                reveal_strlit("8");
                assert("8"@ =~= seq!['8']);
            }
            "8"
        },
        KeyCode::Digit9 => {
            proof {
                reveal_strlit("9");
                assert("9"@ =~= seq!['9']);
            }
            "9"
        },
        KeyCode::Numpad0 => {
            proof {
                reveal_strlit("Num 0");
                assert("Num 0"@ =~= seq!['N', 'u', 'm', ' ', '0']);
            }
            "Num 0"
        },
        KeyCode::Numpad1 => {
            proof {
                reveal_strlit("Num 1");
                assert("Num 1"@ =~= seq!['N', 'u', 'm', ' ', '1']);
            }
            "Num 1"
        },
        KeyCode::Numpad2 => {
            proof {
                reveal_strlit("Num 2");
                assert("Num 2"@ =~= seq!['N', 'u', 'm', ' ', '2']);
            }
            "Num 2"
        },
        KeyCode::Numpad3 => {
            proof {
                reveal_strlit("Num 3");
                assert("Num 3"@ =~= seq!['N', 'u', 'm', ' ', '3']);
            }
            "Num 3"
        },
        KeyCode::Numpad4 => {
            proof {
                reveal_strlit("Num 4");
                assert("Num 4"@ =~= seq!['N', 'u', 'm', ' ', '4']);
            }
            "Num 4"
        },
        KeyCode::Numpad5 => {
            proof {
                reveal_strlit("Num 5");
                assert("Num 5"@ =~= seq!['N', 'u', 'm', ' ', '5']);
            }
            "Num 5"
        },
        KeyCode::Numpad6 => {
            proof {
                reveal_strlit("Num 6");
                assert("Num 6"@ =~= seq!['N', 'u', 'm', ' ', '6']);
            }
            "Num 6"
        },
        KeyCode::Numpad7 => {
            proof {
                reveal_strlit("Num 7");
                assert("Num 7"@ =~= seq!['N', 'u', 'm', ' ', '7']);
            }
            "Num 7"
        },
        KeyCode::Numpad8 => {
            proof {
                reveal_strlit("Num 8");
                assert("Num 8"@ =~= seq!['N', 'u', 'm', ' ', '8']);
            }
            "Num 8"
        },
        KeyCode::Numpad9 => {
            proof {
                reveal_strlit("Num 9");
                assert("Num 9"@ =~= seq!['N', 'u', 'm', ' ', '9']);
            }
            "Num 9"
        },
        KeyCode::Space => {
            proof {
                reveal_strlit("Space");
                assert("Space"@ =~= seq!['S', 'p', 'a', 'c', 'e']);
            }
            "Space"
        },
        KeyCode::ShiftLeft => {
            proof {
                reveal_strlit("Left Shift");
                assert("Left Shift"@ =~= seq!['L', 'e', 'f', 't', ' ', 'S', 'h', 'i', 'f', 't']);
            }
            "Left Shift"
        },
        KeyCode::ShiftRight => {
            proof {
                reveal_strlit("Right Shift");
                assert("Right Shift"@ =~= seq!['R', 'i', 'g', 'h', 't', ' ', 'S', 'h', 'i', 'f', 't']);
            }
            "Right Shift"
        },
        KeyCode::ControlLeft => {
            proof {
                reveal_strlit("Left Ctrl");
                assert("Left Ctrl"@ =~= seq!['L', 'e', 'f', 't', ' ', 'C', 't', 'r', 'l']);
            }
            "Left Ctrl"
        },
        KeyCode::ControlRight => {
            proof {
                reveal_strlit("Right Ctrl");
                assert("Right Ctrl"@ =~= seq!['R', 'i', 'g', 'h', 't', ' ', 'C', 't', 'r', 'l']);
            }
            "Right Ctrl"
        },
        KeyCode::AltLeft => {
            proof {
                reveal_strlit("Left Alt");
                assert("Left Alt"@ =~= seq!['L', 'e', 'f', 't', ' ', 'A', 'l', 't']);
            }
            "Left Alt"
        },
        KeyCode::AltRight => {
            proof {
                reveal_strlit("Right Alt");
                assert("Right Alt"@ =~= seq!['R', 'i', 'g', 'h', 't', ' ', 'A', 'l', 't']);
            }
            "Right Alt"
        },
        KeyCode::SuperLeft => {
            proof {
                reveal_strlit("Left Super");
                assert("Left Super"@ =~= seq!['L', 'e', 'f', 't', ' ', 'S', 'u', 'p', 'e', 'r']);
            }
            "Left Super"
        },
        KeyCode::SuperRight => {
            proof {
                reveal_strlit("Right Super");
                assert("Right Super"@ =~= seq!['R', 'i', 'g', 'h', 't', ' ', 'S', 'u', 'p', 'e', 'r']);
            }
            "Right Super"
        },
        KeyCode::Enter => {
            proof {
                reveal_strlit("Enter");
                assert("Enter"@ =~= seq!['E', 'n', 't', 'e', 'r']);
            }
            "Enter"
        },
        KeyCode::NumpadEnter => {
            proof {
                reveal_strlit("Num Enter");
                assert("Num Enter"@ =~= seq!['N', 'u', 'm', ' ', 'E', 'n', 't', 'e', 'r']);
            }
            "Num Enter"
        },
        KeyCode::Escape => {
            proof {
                reveal_strlit("Esc");
                assert("Esc"@ =~= seq!['E', 's', 'c']);
            }
            "Esc"
        },
        KeyCode::Tab => {
            proof {
                reveal_strlit("Tab");
                assert("Tab"@ =~= seq!['T', 'a', 'b']);
            }
            "Tab"
        },
        KeyCode::Backspace => {
            proof {
                reveal_strlit("Backspace");
                assert("Backspace"@ =~= seq!['B', 'a', 'c', 'k', 's', 'p', 'a', 'c', 'e']);
            }
            "Backspace"
        },
        KeyCode::Delete => {
            proof {
                reveal_strlit("Delete");
                assert("Delete"@ =~= seq!['D', 'e', 'l', 'e', 't', 'e']);
            }
            "Delete"
        },
        KeyCode::Insert => {
            proof {
                reveal_strlit("Insert");
                assert("Insert"@ =~= seq!['I', 'n', 's', 'e', 'r', 't']);
            }
            "Insert"
        },
        KeyCode::Home => {
            proof {
                reveal_strlit("Home");
                assert("Home"@ =~= seq!['H', 'o', 'm', 'e']);
            }
            "Home"
        },
        KeyCode::End => {
            proof {
                reveal_strlit("End");
                assert("End"@ =~= seq!['E', 'n', 'd']);
            }
            "End"
        },
        KeyCode::PageUp => {
            proof {
                reveal_strlit("Page Up");
                assert("Page Up"@ =~= seq!['P', 'a', 'g', 'e', ' ', 'U', 'p']);
            }
            "Page Up"
        },
        KeyCode::PageDown => {
            proof {
                reveal_strlit("Page Down");
                assert("Page Down"@ =~= seq!['P', 'a', 'g', 'e', ' ', 'D', 'o', 'w', 'n']);
            }
            "Page Down"
        },
        KeyCode::ArrowUp => {
            proof {
                reveal_strlit("Up");
                assert("Up"@ =~= seq!['U', 'p']);
            }
            "Up"
        },
        KeyCode::ArrowDown => {
            proof {
                reveal_strlit("Down");
                assert("Down"@ =~= seq!['D', 'o', 'w', 'n']);
            }
            "Down"
        },
        KeyCode::ArrowLeft => {
            proof {
                reveal_strlit("Left");
                assert("Left"@ =~= seq!['L', 'e', 'f', 't']);
            }
            "Left"
        },
        KeyCode::ArrowRight => {
            proof {
                reveal_strlit("Right");
                assert("Right"@ =~= seq!['R', 'i', 'g', 'h', 't']);
            }
            "Right"
        },
        KeyCode::Minus => {
            proof {
                reveal_strlit("-");
                assert("-"@ =~= seq!['-']);
            }
            "-"
        },
        KeyCode::Equal => {
            proof {
                reveal_strlit("=");
                assert("="@ =~= seq!['=']);
            }
            "="
        },
        KeyCode::BracketLeft => {
            proof {
                reveal_strlit("[");
                assert("["@ =~= seq!['[']);
            }
            "["
        },
        KeyCode::BracketRight => {
            proof {
                reveal_strlit("]");
                assert("]"@ =~= seq![']']);
            }
            "]"
        },
        KeyCode::Backslash => {
            proof {
                reveal_strlit("\\");
                assert("\\"@ =~= seq!['\\']);
            }
            "\\"
        },
        KeyCode::Semicolon => {
            proof {
                reveal_strlit(";");
                assert(";"@ =~= seq![';']);
            }
            ";"
        },
        KeyCode::Quote => {
            proof {
                reveal_strlit("'");
                assert("'"@ =~= seq!['\'']);
            }
            "'"
        },
        KeyCode::Backquote => {
            proof {
                reveal_strlit("`");
                assert("`"@ =~= seq!['`']);
            }
            "`"
        },
        KeyCode::Comma => {
            proof {
                reveal_strlit(",");
                assert(","@ =~= seq![',']);
            }
            ","
        },
        KeyCode::Period => {
            proof {
                reveal_strlit(".");
                assert("."@ =~= seq!['.']);
            }
            "."
        },
        KeyCode::Slash => {
            proof {
                reveal_strlit("/");
                assert("/"@ =~= seq!['/']);
            }
            "/"
        },
        KeyCode::CapsLock => {
            proof {
                reveal_strlit("Caps Lock");
                assert("Caps Lock"@ =~= seq!['C', 'a', 'p', 's', ' ', 'L', 'o', 'c', 'k']);
            }
            "Caps Lock"
        },
        KeyCode::PrintScreen => {
            proof {
                reveal_strlit("Print Screen");
                assert("Print Screen"@ =~= seq!['P', 'r', 'i', 'n', 't', ' ', 'S', 'c', 'r', 'e', 'e', 'n']);
            }
            "Print Screen"
        },
        KeyCode::ScrollLock => {
            proof {
                reveal_strlit("Scroll Lock");
                assert("Scroll Lock"@ =~= seq!['S', 'c', 'r', 'o', 'l', 'l', ' ', 'L', 'o', 'c', 'k']);
            }
            "Scroll Lock"
        },
        KeyCode::Pause => {
            proof {
                reveal_strlit("Pause");
                assert("Pause"@ =~= seq!['P', 'a', 'u', 's', 'e']);
            }
            "Pause"
        },
        KeyCode::F1 => {
            proof {
                reveal_strlit("F1");
                assert("F1"@ =~= seq!['F', '1']);
            }
            "F1"
        },
        KeyCode::F2 => {
            proof {
                reveal_strlit("F2");
                assert("F2"@ =~= seq!['F', '2']);
            }
            "F2"
        },
        KeyCode::F3 => {
            proof {
                reveal_strlit("F3");
                assert("F3"@ =~= seq!['F', '3']);
            }
            "F3"
        },
        KeyCode::F4 => {
            proof {
                reveal_strlit("F4");
                assert("F4"@ =~= seq!['F', '4']);
            }
            "F4"
        },
        KeyCode::F5 => {
            proof {
                reveal_strlit("F5");
                assert("F5"@ =~= seq!['F', '5']);
            }
            "F5"
        },
        KeyCode::F6 => {
            proof {
                reveal_strlit("F6");
                assert("F6"@ =~= seq!['F', '6']);
            }
            "F6"
        },
        KeyCode::F7 => {
            proof {
                reveal_strlit("F7");
                assert("F7"@ =~= seq!['F', '7']);
            }
            "F7"
        },
        KeyCode::F8 => {
            proof {
                reveal_strlit("F8");
                assert("F8"@ =~= seq!['F', '8']);
            }
            "F8"
        },
        KeyCode::F9 => {
            proof {
                reveal_strlit("F9");
                assert("F9"@ =~= seq!['F', '9']);
            }
            "F9"
        },
        KeyCode::F10 => {
            proof {
                reveal_strlit("F10");
                assert("F10"@ =~= seq!['F', '1', '0']);
            }
            "F10"
        },
        KeyCode::F11 => {
            proof {
                reveal_strlit("F11");
                assert("F11"@ =~= seq!['F', '1', '1']);
            }
            "F11"
        },
        KeyCode::F12 => {
            proof {
                reveal_strlit("F12");
                assert("F12"@ =~= seq!['F', '1', '2']);
            }
            "F12"
        },
        KeyCode::F13 => {
            proof {
                reveal_strlit("F13");
                assert("F13"@ =~= seq!['F', '1', '3']);
            }
            "F13"
        },
        KeyCode::F14 => {
            proof {
                reveal_strlit("F14");
                assert("F14"@ =~= seq!['F', '1', '4']);
            }
            "F14"
        },
        KeyCode::F15 => {
            proof {
                reveal_strlit("F15");
                assert("F15"@ =~= seq!['F', '1', '5']);
            }
            "F15"
        },
        KeyCode::F16 => {
            proof {
                reveal_strlit("F16");
                assert("F16"@ =~= seq!['F', '1', '6']);
            }
            "F16"
        },
        KeyCode::F17 => {
            proof {
                reveal_strlit("F17");
                assert("F17"@ =~= seq!['F', '1', '7']);
            }
            "F17"
        },
        KeyCode::F18 => {
            proof {
                reveal_strlit("F18");
                assert("F18"@ =~= seq!['F', '1', '8']);
            }
            "F18"
        },
        KeyCode::F19 => {
            proof {
                reveal_strlit("F19");
                assert("F19"@ =~= seq!['F', '1', '9']);
            }
            "F19"
        },
        KeyCode::F20 => {
            proof {
                reveal_strlit("F20");
                assert("F20"@ =~= seq!['F', '2', '0']);
            }
            "F20"
        },
        KeyCode::F21 => {
            proof {
                reveal_strlit("F21");
                assert("F21"@ =~= seq!['F', '2', '1']);
            }
            "F21"
        },
        KeyCode::F22 => {
            proof {
                reveal_strlit("F22");
                assert("F22"@ =~= seq!['F', '2', '2']);
            }
            "F22"
        },
        KeyCode::F23 => {
            proof {
                reveal_strlit("F23");
                assert("F23"@ =~= seq!['F', '2', '3']);
            }
            "F23"
        },
        KeyCode::F24 => {
            proof {
                reveal_strlit("F24");
                assert("F24"@ =~= seq!['F', '2', '4']);
            }
            "F24"
        },
        KeyCode::NumpadAdd => {
            proof {
                reveal_strlit("Num +");
                assert("Num +"@ =~= seq!['N', 'u', 'm', ' ', '+']);
            }
            "Num +"
        },
        KeyCode::NumpadSubtract => {
            proof {
                reveal_strlit("Num -");
                assert("Num -"@ =~= seq!['N', 'u', 'm', ' ', '-']);
            }
            "Num -"
        },
        KeyCode::NumpadMultiply => {
            proof {
                reveal_strlit("Num *");
                assert("Num *"@ =~= seq!['N', 'u', 'm', ' ', '*']);
            }
            "Num *"
        },
        KeyCode::NumpadDivide => {
            proof {
                reveal_strlit("Num /");
                assert("Num /"@ =~= seq!['N', 'u', 'm', ' ', '/']);
            }
            "Num /"
        },
        KeyCode::NumpadDecimal => {
            proof {
                reveal_strlit("Num .");
                assert("Num ."@ =~= seq!['N', 'u', 'm', ' ', '.']);
            }
            "Num ."
        },
    };
    label.to_owned()
}

/// "Button n", with the buttons numbered from 1 (the number of an `Other`
/// button wraps around at `u16::MAX`).
pub open spec fn spec_mouse_button_label(button: MouseButton) -> Seq<char> {
    let n: nat = match button {
        MouseButton::Left => 1,
        MouseButton::Right => 2,
        MouseButton::Middle => 3,
        MouseButton::Back => 4,
        MouseButton::Forward => 5,
        MouseButton::Other(index) => if index == u16::MAX {
            0
        } else {
            (index + 1) as nat
        },
    };
    seq!['B', 'u', 't', 't', 'o', 'n', ' '] + crate::skin::decimal(n)
}

/// The name shown for a mouse button.
pub fn mouse_button_label(button: MouseButton) -> (r: String)
    ensures
        r@ == spec_mouse_button_label(button),
{
    let n: u64 = match button {
        MouseButton::Left => 1,
        MouseButton::Right => 2,
        MouseButton::Middle => 3,
        MouseButton::Back => 4,
        MouseButton::Forward => 5,
        MouseButton::Other(index) => index.wrapping_add(1) as u64,
    };
    let mut s = String::new();
    proof {
        reveal_strlit("Button ");
    }
    push_chars(&mut s, "Button ");
    crate::skin::push_decimal(&mut s, n);
    assert(s@ =~= spec_mouse_button_label(button));
    s
}

fn push_chars(s: &mut String, t: &str)
    ensures
        final(s)@ == old(s)@ + t@,
{
    let n = t.unicode_len();
    let mut i: usize = 0;
    while i < n
        invariant
            n == t@.len(),
            i <= n,
            s@ == old(s)@ + t@.take(i as int),
        decreases n - i,
    {
        crate::text::string_push(s, t.get_char(i));
        i = i + 1;
        assert(s@ =~= old(s)@ + t@.take(i as int));
    }
    assert(t@.take(n as int) =~= t@);
}

/// The default key of each action.
pub open spec fn default_key(i: int) -> Option<KeyCode> {
    if i == 0 {
        Some(KeyCode::KeyW)
    } else if i == 1 {
        Some(KeyCode::KeyS)
    } else if i == 2 {
        Some(KeyCode::KeyA)
    } else if i == 3 {
        Some(KeyCode::KeyD)
    } else if i == 4 {
        Some(KeyCode::Space)
    } else if i == 5 {
        Some(KeyCode::ShiftLeft)
    } else if i == 6 {
        Some(KeyCode::ControlLeft)
    } else if i == 10 {
        Some(KeyCode::KeyE)
    } else if i == 11 {
        Some(KeyCode::KeyQ)
    } else if i == 12 {
        Some(KeyCode::Digit1)
    } else if i == 13 {
        Some(KeyCode::Digit2)
    } else if i == 14 {
        Some(KeyCode::Digit3)
    } else if i == 15 {
        Some(KeyCode::Digit4)
    } else if i == 16 {
        Some(KeyCode::Digit5)
    } else if i == 17 {
        Some(KeyCode::Digit6)
    } else if i == 18 {
        Some(KeyCode::Digit7)
    } else if i == 19 {
        Some(KeyCode::Digit8)
    } else if i == 20 {
        Some(KeyCode::Digit9)
    } else if i == 23 {
        Some(KeyCode::KeyT)
    } else if i == 24 {
        Some(KeyCode::Slash)
    } else if i == 25 {
        Some(KeyCode::Tab)
    } else if i == 26 {
        Some(KeyCode::Escape)
    } else if i == 28 {
        Some(KeyCode::F5)
    } else {
        None
    }
}

/// The default mouse button of each action.
pub open spec fn default_mouse(i: int) -> Option<MouseButton> {
    if i == 8 {
        Some(MouseButton::Left)
    } else if i == 9 {
        Some(MouseButton::Right)
    } else {
        None
    }
}

/// The default gamepad binding of each action.
pub open spec fn default_gamepad(i: int) -> Option<GamepadBinding> {
    if i == 0 {
        Some(GamepadBinding::LeftStickUp)
    } else if i == 1 {
        Some(GamepadBinding::LeftStickDown)
    } else if i == 2 {
        Some(GamepadBinding::LeftStickLeft)
    } else if i == 3 {
        Some(GamepadBinding::LeftStickRight)
    } else if i == 4 {
        Some(GamepadBinding::Button(GamepadButton::South))
    } else if i == 5 {
        Some(GamepadBinding::Button(GamepadButton::East))
    } else if i == 6 {
        Some(GamepadBinding::Button(GamepadButton::LeftThumb))
    } else if i == 8 {
        Some(GamepadBinding::Button(GamepadButton::RightTrigger2))
    } else if i == 9 {
        Some(GamepadBinding::Button(GamepadButton::LeftTrigger2))
    } else if i == 10 {
        Some(GamepadBinding::Button(GamepadButton::West))
    } else if i == 11 {
        Some(GamepadBinding::Button(GamepadButton::North))
    } else if i == 21 {
        Some(GamepadBinding::Button(GamepadButton::RightTrigger))
    } else if i == 22 {
        Some(GamepadBinding::Button(GamepadButton::LeftTrigger))
    } else if i == 26 {
        Some(GamepadBinding::Button(GamepadButton::Start))
    } else if i == 28 {
        Some(GamepadBinding::Button(GamepadButton::RightThumb))
    } else {
        None
    }
}

/// The bindings of every action, indexed by declaration order.
#[verifier::ext_equal]
pub struct BindingsModel {
    pub keys: Seq<Option<KeyCode>>,
    pub mouse: Seq<Option<MouseButton>>,
    pub gamepad: Seq<Option<GamepadBinding>>,
}

impl BindingsModel {
    /// One entry per action in each table.
    pub open spec fn wf(self) -> bool {
        &&& self.keys.len() == ACTION_COUNT
        &&& self.mouse.len() == ACTION_COUNT
        &&& self.gamepad.len() == ACTION_COUNT
    }

    /// What action `i` is bound to on keyboard and mouse: its key, else its
    /// mouse button, else nothing.
    pub open spec fn binding(self, i: int) -> BindingInput {
        match self.keys[i] {
            Some(k) => BindingInput::Key(k),
            None => match self.mouse[i] {
                Some(m) => BindingInput::Mouse(m),
                None => BindingInput::Unbound,
            },
        }
    }
}

/// The default bindings.
pub open spec fn default_bindings() -> BindingsModel {
    BindingsModel {
        keys: Seq::new(ACTION_COUNT as nat, |i: int| default_key(i)),
        mouse: Seq::new(ACTION_COUNT as nat, |i: int| default_mouse(i)),
        gamepad: Seq::new(ACTION_COUNT as nat, |i: int| default_gamepad(i)),
    }
}

/// The bindings of every action on keyboard, mouse and gamepad.
#[derive(Clone, Debug)]
pub struct KeyBindings {
    /// The key of each action, by declaration order.
    pub keys: Vec<Option<KeyCode>>,
    /// The mouse button of each action.
    pub mouse: Vec<Option<MouseButton>>,
    /// The gamepad binding of each action.
    pub gamepad: Vec<Option<GamepadBinding>>,
}

impl View for KeyBindings {
    type V = BindingsModel;

    open spec fn view(&self) -> BindingsModel {
        BindingsModel { keys: self.keys@, mouse: self.mouse@, gamepad: self.gamepad@ }
    }
}

fn default_key_exec(i: usize) -> (r: Option<KeyCode>)
    ensures
        r == default_key(i as int),
{
    match i {
        0 => Some(KeyCode::KeyW),
        1 => Some(KeyCode::KeyS),
        2 => Some(KeyCode::KeyA),
        3 => Some(KeyCode::KeyD),
        4 => Some(KeyCode::Space),
        5 => Some(KeyCode::ShiftLeft),
        6 => Some(KeyCode::ControlLeft),
        10 => Some(KeyCode::KeyE),
        11 => Some(KeyCode::KeyQ),
        12 => Some(KeyCode::Digit1),
        13 => Some(KeyCode::Digit2),
        14 => Some(KeyCode::Digit3),
        15 => Some(KeyCode::Digit4),
        16 => Some(KeyCode::Digit5),
        17 => Some(KeyCode::Digit6),
        18 => Some(KeyCode::Digit7),
        19 => Some(KeyCode::Digit8),
        20 => Some(KeyCode::Digit9),
        23 => Some(KeyCode::KeyT),
        24 => Some(KeyCode::Slash),
        25 => Some(KeyCode::Tab),
        26 => Some(KeyCode::Escape),
        28 => Some(KeyCode::F5),
        _ => None,
    }
}

fn default_mouse_exec(i: usize) -> (r: Option<MouseButton>)
    ensures
        r == default_mouse(i as int),
{
    match i {
        8 => Some(MouseButton::Left),
        9 => Some(MouseButton::Right),
        _ => None,
    }
}

fn default_gamepad_exec(i: usize) -> (r: Option<GamepadBinding>)
    ensures
        r == default_gamepad(i as int),
{
    match i {
        0 => Some(GamepadBinding::LeftStickUp),
        1 => Some(GamepadBinding::LeftStickDown),
        2 => Some(GamepadBinding::LeftStickLeft),
        3 => Some(GamepadBinding::LeftStickRight),
        4 => Some(GamepadBinding::Button(GamepadButton::South)),
        5 => Some(GamepadBinding::Button(GamepadButton::East)),
        6 => Some(GamepadBinding::Button(GamepadButton::LeftThumb)),
        8 => Some(GamepadBinding::Button(GamepadButton::RightTrigger2)),
        9 => Some(GamepadBinding::Button(GamepadButton::LeftTrigger2)),
        10 => Some(GamepadBinding::Button(GamepadButton::West)),
        11 => Some(GamepadBinding::Button(GamepadButton::North)),
        21 => Some(GamepadBinding::Button(GamepadButton::RightTrigger)),
        22 => Some(GamepadBinding::Button(GamepadButton::LeftTrigger)),
        26 => Some(GamepadBinding::Button(GamepadButton::Start)),
        28 => Some(GamepadBinding::Button(GamepadButton::RightThumb)),
        _ => None,
    }
}

/// The action at position `i` of declaration order.
pub open spec fn spec_action_of(i: int) -> Action {
    if i == 0 {
        Action::Forward
    } else if i == 1 {
        Action::Backward
    } else if i == 2 {
        Action::StrafeLeft
    } else if i == 3 {
        Action::StrafeRight
    } else if i == 4 {
        Action::Jump
    } else if i == 5 {
        Action::Sneak
    } else if i == 6 {
        Action::Sprint
    } else if i == 7 {
        Action::ToggleSprint
    } else if i == 8 {
        Action::Attack
    } else if i == 9 {
        Action::Use
    } else if i == 10 {
        Action::Inventory
    } else if i == 11 {
        Action::DropItem
    } else if i == 12 {
        Action::Hotbar1
    } else if i == 13 {
        Action::Hotbar2
    } else if i == 14 {
        Action::Hotbar3
    } else if i == 15 {
        Action::Hotbar4
    } else if i == 16 {
        Action::Hotbar5
    } else if i == 17 {
        Action::Hotbar6
    } else if i == 18 {
        Action::Hotbar7
    } else if i == 19 {
        Action::Hotbar8
    } else if i == 20 {
        Action::Hotbar9
    } else if i == 21 {
        Action::HotbarNext
    } else if i == 22 {
        Action::HotbarPrev
    } else if i == 23 {
        Action::Chat
    } else if i == 24 {
        Action::Command
    } else if i == 25 {
        Action::PlayerList
    } else if i == 26 {
        Action::Pause
    } else if i == 27 {
        Action::ToggleFlying
    } else {
        Action::TogglePerspective
    }
}

proof fn lemma_action_of_ord(i: int)
    requires
        0 <= i < ACTION_COUNT,
    ensures
        spec_action_ord(spec_action_of(i)) == i,
{
}

/// Whether the action at position `i` is in the controls list.
pub open spec fn is_bindable_ord(i: int) -> bool {
    spec_bindable_index(spec_action_of(i)) is Some
}

/// Bindings completed from the defaults: a bindable action with neither
/// key nor mouse button takes its default key and button, and one without
/// a gamepad binding its default gamepad binding.
pub open spec fn spec_merged(m: BindingsModel) -> BindingsModel {
    let d = default_bindings();
    BindingsModel {
        keys: Seq::new(
            ACTION_COUNT as nat,
            |i: int| if is_bindable_ord(i) && m.keys[i] is None && m.mouse[i] is None && d.keys[i] is Some {
                d.keys[i]
            } else {
                m.keys[i]
            },
        ),
        mouse: Seq::new(
            ACTION_COUNT as nat,
            |i: int| if is_bindable_ord(i) && m.keys[i] is None && m.mouse[i] is None && d.mouse[i] is Some {
                d.mouse[i]
            } else {
                m.mouse[i]
            },
        ),
        gamepad: Seq::new(
            ACTION_COUNT as nat,
            |i: int| if is_bindable_ord(i) && m.gamepad[i] is None { d.gamepad[i] } else { m.gamepad[i] },
        ),
    }
}

/// Action `i` bound to key `k` alone (its mouse button dropped).
pub open spec fn spec_set_key(m: BindingsModel, i: int, k: KeyCode) -> BindingsModel {
    BindingsModel { keys: m.keys.update(i, Some(k)), mouse: m.mouse.update(i, None), ..m }
}

/// Action `i` bound to mouse button `b` alone (its key dropped).
pub open spec fn spec_set_mouse(m: BindingsModel, i: int, b: MouseButton) -> BindingsModel {
    BindingsModel { keys: m.keys.update(i, None), mouse: m.mouse.update(i, Some(b)), ..m }
}

/// Action `i` without key or mouse button.
pub open spec fn spec_clear(m: BindingsModel, i: int) -> BindingsModel {
    BindingsModel { keys: m.keys.update(i, None), mouse: m.mouse.update(i, None), ..m }
}

/// Action `i` back to its default keyboard or mouse binding.
pub open spec fn spec_reset(m: BindingsModel, i: int) -> BindingsModel {
    match default_bindings().binding(i) {
        BindingInput::Key(k) => spec_set_key(m, i, k),
        BindingInput::Mouse(b) => spec_set_mouse(m, i, b),
        BindingInput::Unbound => spec_clear(m, i),
    }
}

/// How many of the first `n` actions of the controls list are bound to
/// `b` on keyboard and mouse.
pub open spec fn binding_count(m: BindingsModel, b: BindingInput, n: int) -> int
    decreases n,
{
    if n <= 0 {
        0
    } else {
        binding_count(m, b, n - 1) + if m.binding(spec_action_ord(bindable_actions()[n - 1])) == b {
            1int
        } else {
            0
        }
    }
}

/// How many of the first `n` actions of the controls list are bound to
/// gamepad input `g`.
pub open spec fn gamepad_count(m: BindingsModel, g: GamepadBinding, n: int) -> int
    decreases n,
{
    if n <= 0 {
        0
    } else {
        gamepad_count(m, g, n - 1) + if m.gamepad[spec_action_ord(bindable_actions()[n - 1])] == Some(g) {
            1int
        } else {
            0
        }
    }
}

/// Two actions of the controls list share the keyboard or mouse binding of
/// action `i` (an unbound action never conflicts).
pub open spec fn spec_has_conflict(m: BindingsModel, i: int) -> bool {
    m.binding(i) != BindingInput::Unbound && binding_count(m, m.binding(i), bindable_actions().len() as int) > 1
}

/// Two actions of the controls list share the gamepad binding of action
/// `i`.
pub open spec fn spec_has_gamepad_conflict(m: BindingsModel, i: int) -> bool {
    match m.gamepad[i] {
        Some(g) => gamepad_count(m, g, bindable_actions().len() as int) > 1,
        None => false,
    }
}

/// The label of a keyboard or mouse binding ("NONE" when unbound).
pub open spec fn spec_binding_label(b: BindingInput) -> Seq<char> {
    match b {
        BindingInput::Key(k) => spec_key_label(k),
        BindingInput::Mouse(m) => spec_mouse_button_label(m),
        BindingInput::Unbound => seq!['N', 'O', 'N', 'E'],
    }
}

/// The label of a gamepad binding ("NONE" when unbound).
pub open spec fn spec_gamepad_label(g: Option<GamepadBinding>) -> Seq<char> {
    match g {
        Some(b) => spec_gamepad_binding_label(b),
        None => seq!['N', 'O', 'N', 'E'],
    }
}

impl KeyBindings {
    /// The default bindings: WASD, space, shift, control, E, Q, digits,
    /// T, slash, tab, escape and F5; left and right mouse buttons for
    /// attack and use; left stick, face buttons, triggers and bumpers on
    /// the gamepad.
    pub fn defaults() -> (r: KeyBindings)
        ensures
            r@ == default_bindings(),
    {
        let mut keys: Vec<Option<KeyCode>> = Vec::new();
        let mut mouse: Vec<Option<MouseButton>> = Vec::new();
        let mut gamepad: Vec<Option<GamepadBinding>> = Vec::new();
        let mut i: usize = 0;
        while i < ACTION_COUNT
            invariant
                i <= ACTION_COUNT,
                keys@ == Seq::new(i as nat, |k: int| default_key(k)),
                mouse@ == Seq::new(i as nat, |k: int| default_mouse(k)),
                gamepad@ == Seq::new(i as nat, |k: int| default_gamepad(k)),
            decreases ACTION_COUNT - i,
        {
            keys.push(default_key_exec(i));
            mouse.push(default_mouse_exec(i));
            gamepad.push(default_gamepad_exec(i));
            i = i + 1;
            assert(keys@ =~= Seq::new(i as nat, |k: int| default_key(k)));
            assert(mouse@ =~= Seq::new(i as nat, |k: int| default_mouse(k)));
            assert(gamepad@ =~= Seq::new(i as nat, |k: int| default_gamepad(k)));
        }
        KeyBindings { keys, mouse, gamepad }
    }

    /// Fills in the defaults for actions that have no binding, as when
    /// options saved by an older version are loaded.
    pub fn merged_with_defaults(self) -> (r: KeyBindings)
        requires
            self@.wf(),
        ensures
            r@ == spec_merged(self@),
    {
        let ghost m = self@;
        let defaults = KeyBindings::defaults();
        let mut b = self;
        let mut i: usize = 0;
        while i < ACTION_COUNT
            invariant
                i <= ACTION_COUNT,
                m.wf(),
                b@.wf(),
                defaults@ == default_bindings(),
                forall|k: int| 0 <= k < i ==> #[trigger] b@.keys[k] == spec_merged(m).keys[k],
                forall|k: int| 0 <= k < i ==> #[trigger] b@.mouse[k] == spec_merged(m).mouse[k],
                forall|k: int| 0 <= k < i ==> #[trigger] b@.gamepad[k] == spec_merged(m).gamepad[k],
                forall|k: int| i <= k < ACTION_COUNT ==> #[trigger] b@.keys[k] == m.keys[k],
                forall|k: int| i <= k < ACTION_COUNT ==> #[trigger] b@.mouse[k] == m.mouse[k],
                forall|k: int| i <= k < ACTION_COUNT ==> #[trigger] b@.gamepad[k] == m.gamepad[k],
            decreases ACTION_COUNT - i,
        {
            let action = Action::from_ordinal(i);
            proof {
                lemma_action_of_ord(i as int);
            }
            let bindable = action.bindable_index().is_some();
            if bindable {
                if b.keys[i].is_none() && b.mouse[i].is_none() {
                    if let Some(key) = defaults.keys[i] {
                        b.keys.set(i, Some(key));
                    }
                    if let Some(button) = defaults.mouse[i] {
                        b.mouse.set(i, Some(button));
                    }
                }
                if b.gamepad[i].is_none() {
                    if let Some(g) = defaults.gamepad[i] {
                        b.gamepad.set(i, Some(g));
                    }
                }
            }
            i = i + 1;
        }
        assert(b@ =~= spec_merged(m));
        b
    }

    /// The first action of the controls list bound to `key`.
    pub fn action_for_key(&self, key: KeyCode) -> (r: Option<Action>)
        requires
            self@.wf(),
        ensures
            match r {
                Some(a) => exists|j: int|
                    0 <= j < bindable_actions().len() && bindable_actions()[j] == a && self@.keys[spec_action_ord(a)]
                        == Some(key) && forall|l: int|
                        0 <= l < j ==> self@.keys[spec_action_ord(#[trigger] bindable_actions()[l])] != Some(key),
                None => forall|l: int|
                    0 <= l < bindable_actions().len() ==> self@.keys[spec_action_ord(#[trigger] bindable_actions()[l])]
                        != Some(key),
            },
    {
        let all = Action::all_bindable();
        let mut j: usize = 0;
        while j < all.len()
            invariant
                all@ == bindable_actions(),
                j <= all@.len(),
                self@.wf(),
                forall|l: int| 0 <= l < j ==> self@.keys[spec_action_ord(#[trigger] bindable_actions()[l])] != Some(key),
            decreases all.len() - j,
        {
            let a = all[j];
            if self.keys[a.ordinal()] == Some(key) {
                return Some(a);
            }
            j = j + 1;
        }
        None
    }

    /// The first action of the controls list bound to mouse `button`.
    pub fn action_for_mouse(&self, button: MouseButton) -> (r: Option<Action>)
        requires
            self@.wf(),
        ensures
            match r {
                Some(a) => exists|j: int|
                    0 <= j < bindable_actions().len() && bindable_actions()[j] == a && self@.mouse[spec_action_ord(a)]
                        == Some(button) && forall|l: int|
                        0 <= l < j ==> self@.mouse[spec_action_ord(#[trigger] bindable_actions()[l])] != Some(button),
                None => forall|l: int|
                    0 <= l < bindable_actions().len() ==> self@.mouse[spec_action_ord(#[trigger] bindable_actions()[l])]
                        != Some(button),
            },
    {
        let all = Action::all_bindable();
        let mut j: usize = 0;
        while j < all.len()
            invariant
                all@ == bindable_actions(),
                j <= all@.len(),
                self@.wf(),
                forall|l: int| 0 <= l < j ==> self@.mouse[spec_action_ord(#[trigger] bindable_actions()[l])] != Some(button),
            decreases all.len() - j,
        {
            let a = all[j];
            if self.mouse[a.ordinal()] == Some(button) {
                return Some(a);
            }
            j = j + 1;
        }
        None
    }

    /// What `action` is bound to on keyboard and mouse.
    pub fn binding_for(&self, action: Action) -> (r: BindingInput)
        requires
            self@.wf(),
        ensures
            r == self@.binding(spec_action_ord(action)),
    {
        let i = action.ordinal();
        match self.keys[i] {
            Some(k) => BindingInput::Key(k),
            None => match self.mouse[i] {
                Some(m) => BindingInput::Mouse(m),
                None => BindingInput::Unbound,
            },
        }
    }

    /// What `action` is bound to on the gamepad.
    pub fn gamepad_binding_for(&self, action: Action) -> (r: Option<GamepadBinding>)
        requires
            self@.wf(),
        ensures
            r == self@.gamepad[spec_action_ord(action)],
    {
        self.gamepad[action.ordinal()]
    }

    /// Binds `action` to `key`, dropping its mouse button.
    pub fn set_key(&mut self, action: Action, key: KeyCode)
        requires
            old(self)@.wf(),
        ensures
            final(self)@ == spec_set_key(old(self)@, spec_action_ord(action), key),
    {
        let i = action.ordinal();
        self.mouse.set(i, None);
        self.keys.set(i, Some(key));
    }

    /// Binds `action` to mouse `button`, dropping its key.
    pub fn set_mouse(&mut self, action: Action, button: MouseButton)
        requires
            old(self)@.wf(),
        ensures
            final(self)@ == spec_set_mouse(old(self)@, spec_action_ord(action), button),
    {
        let i = action.ordinal();
        self.keys.set(i, None);
        self.mouse.set(i, Some(button));
    }

    /// Removes the key and mouse button of `action`.
    pub fn clear(&mut self, action: Action)
        requires
            old(self)@.wf(),
        ensures
            final(self)@ == spec_clear(old(self)@, spec_action_ord(action)),
    {
        let i = action.ordinal();
        self.keys.set(i, None);
        self.mouse.set(i, None);
    }

    /// Removes the gamepad binding of `action`.
    pub fn clear_gamepad(&mut self, action: Action)
        requires
            old(self)@.wf(),
        ensures
            final(self)@ == (BindingsModel {
                gamepad: old(self)@.gamepad.update(spec_action_ord(action), None),
                ..old(self)@
            }),
    {
        self.gamepad.set(action.ordinal(), None);
    }

    /// Binds `action` to gamepad input `binding`.
    pub fn set_gamepad(&mut self, action: Action, binding: GamepadBinding)
        requires
            old(self)@.wf(),
        ensures
            final(self)@ == (BindingsModel {
                gamepad: old(self)@.gamepad.update(spec_action_ord(action), Some(binding)),
                ..old(self)@
            }),
    {
        self.gamepad.set(action.ordinal(), Some(binding));
    }

    /// Puts the keyboard or mouse binding of `action` back to its default.
    pub fn reset_action(&mut self, action: Action)
        requires
            old(self)@.wf(),
        ensures
            final(self)@ == spec_reset(old(self)@, spec_action_ord(action)),
    {
        let defaults = KeyBindings::defaults();
        match defaults.binding_for(action) {
            BindingInput::Key(key) => self.set_key(action, key),
            BindingInput::Mouse(button) => self.set_mouse(action, button),
            BindingInput::Unbound => self.clear(action),
        }
    }

    /// Puts the gamepad binding of `action` back to its default.
    pub fn reset_gamepad_action(&mut self, action: Action)
        requires
            old(self)@.wf(),
        ensures
            final(self)@ == (BindingsModel {
                gamepad: old(self)@.gamepad.update(spec_action_ord(action), default_gamepad(spec_action_ord(action))),
                ..old(self)@
            }),
    {
        let defaults = KeyBindings::defaults();
        match defaults.gamepad_binding_for(action) {
            Some(binding) => self.set_gamepad(action, binding),
            None => self.clear_gamepad(action),
        }
    }

    /// Whether another action of the controls list shares the keyboard or
    /// mouse binding of `action`.
    pub fn has_conflict(&self, action: Action) -> (r: bool)
        requires
            self@.wf(),
        ensures
            r == spec_has_conflict(self@, spec_action_ord(action)),
    {
        let binding = self.binding_for(action);
        if binding == BindingInput::Unbound {
            return false;
        }
        let all = Action::all_bindable();
        let mut count: usize = 0;
        let mut j: usize = 0;
        while j < all.len()
            invariant
                all@ == bindable_actions(),
                j <= all@.len(),
                self@.wf(),
                count == binding_count(self@, binding, j as int),
                count <= j,
            decreases all.len() - j,
        {
            if self.binding_for(all[j]) == binding {
                count = count + 1;
            }
            j = j + 1;
        }
        count > 1
    }

    /// Whether another action of the controls list shares the gamepad
    /// binding of `action`.
    pub fn has_gamepad_conflict(&self, action: Action) -> (r: bool)
        requires
            self@.wf(),
        ensures
            r == spec_has_gamepad_conflict(self@, spec_action_ord(action)),
    {
        let binding = match self.gamepad_binding_for(action) {
            Some(b) => b,
            None => return false,
        };
        let all = Action::all_bindable();
        let mut count: usize = 0;
        let mut j: usize = 0;
        while j < all.len()
            invariant
                all@ == bindable_actions(),
                j <= all@.len(),
                self@.wf(),
                count == gamepad_count(self@, binding, j as int),
                count <= j,
            decreases all.len() - j,
        {
            if self.gamepad_binding_for(all[j]) == Some(binding) {
                count = count + 1;
            }
            j = j + 1;
        }
        count > 1
    }

    /// The label of the keyboard or mouse binding of `action`.
    pub fn binding_label(&self, action: Action) -> (r: String)
        requires
            self@.wf(),
        ensures
            r@ == spec_binding_label(self@.binding(spec_action_ord(action))),
    {
        match self.binding_for(action) {
            BindingInput::Key(key) => key_label(key),
            BindingInput::Mouse(button) => mouse_button_label(button),
            BindingInput::Unbound => {
                proof {
                    reveal_strlit("NONE");
                }
                "NONE".to_owned()
            },
        }
    }

    /// The label of the gamepad binding of `action`.
    pub fn gamepad_binding_label(&self, action: Action) -> (r: String)
        requires
            self@.wf(),
        ensures
            r@ == spec_gamepad_label(self@.gamepad[spec_action_ord(action)]),
    {
        match self.gamepad_binding_for(action) {
            Some(binding) => binding.label().to_owned(),
            None => {
                proof {
                    reveal_strlit("NONE");
                }
                "NONE".to_owned()
            },
        }
    }
}

impl Default for KeyBindings {
    fn default() -> (r: KeyBindings)
        ensures
            r@ == default_bindings(),
    {
        KeyBindings::defaults()
    }
}

/// Binding an action and reading it back gives what was bound; resetting
/// gives the default binding; and every change leaves the other actions
/// as they were.
pub proof fn lemma_binding_round_trip(m: BindingsModel, i: int, j: int, k: KeyCode, b: MouseButton)
    requires
        m.wf(),
        0 <= i < ACTION_COUNT,
        0 <= j < ACTION_COUNT,
        i != j,
    ensures
        spec_set_key(m, i, k).binding(i) == BindingInput::Key(k),
        spec_set_mouse(m, i, b).binding(i) == BindingInput::Mouse(b),
        spec_clear(m, i).binding(i) == BindingInput::Unbound,
        spec_reset(m, i).binding(i) == default_bindings().binding(i),
        spec_set_key(m, i, k).binding(j) == m.binding(j),
        spec_set_mouse(m, i, b).binding(j) == m.binding(j),
        spec_clear(m, i).binding(j) == m.binding(j),
        spec_reset(m, i).binding(j) == m.binding(j),
{
}

/// Completing bindings from the defaults changes no action that has a
/// binding, leaves every bindable action with a default bound, and
/// completing twice is completing once.
pub proof fn lemma_merge_with_defaults(m: BindingsModel, i: int)
    requires
        m.wf(),
        0 <= i < ACTION_COUNT,
    ensures
        m.binding(i) != BindingInput::Unbound ==> spec_merged(m).binding(i) == m.binding(i),
        m.gamepad[i] is Some ==> spec_merged(m).gamepad[i] == m.gamepad[i],
        is_bindable_ord(i) && m.binding(i) == BindingInput::Unbound ==> spec_merged(m).binding(i)
            == default_bindings().binding(i),
        is_bindable_ord(i) && m.gamepad[i] is None ==> spec_merged(m).gamepad[i] == default_gamepad(i),
        spec_merged(spec_merged(m)) == spec_merged(m),
{
    let d = default_bindings();
    let once = spec_merged(m);
    let twice = spec_merged(once);
    assert forall|k: int| 0 <= k < ACTION_COUNT implies #[trigger] twice.keys[k] == once.keys[k]
        && twice.mouse[k] == once.mouse[k] && twice.gamepad[k] == once.gamepad[k] by {
        if is_bindable_ord(k) && m.keys[k] is None && m.mouse[k] is None {
            // the defaults of every action give it a key, a button, or neither
            assert(d.keys[k] is None || d.mouse[k] is None);
        }
    }
    assert(twice =~= once);
}


/// One row of the controls screen, before its translation keys are
/// looked up.
#[derive(Clone, Debug)]
pub struct ControlBindingRow {
    pub action: Action,
    /// Translation key of the action's name.
    pub label_key: &'static str,
    /// The bound input's label.
    pub binding: String,
    /// Translation key of the action's category.
    pub category_key: &'static str,
    /// Another action shares the binding.
    pub conflict: bool,
    /// The screen waits for a new input for this action.
    pub listening: bool,
    /// The binding is the default one.
    pub is_default: bool,
}

/// The row the controls screen shows for action `a` on `device`.
pub open spec fn row_matches(
    row: ControlBindingRow,
    m: BindingsModel,
    a: Action,
    device: ControlDevice,
    rebinding_action: Option<Action>,
) -> bool {
    let i = spec_action_ord(a);
    &&& row.action == a
    &&& row.label_key@ == spec_translation_key(a)
    &&& row.category_key@ == spec_category_key(a)
    &&& row.listening == (rebinding_action == Some(a))
    &&& match device {
        ControlDevice::KeyboardMouse => {
            &&& row.binding@ == spec_binding_label(m.binding(i))
            &&& row.conflict == spec_has_conflict(m, i)
            &&& row.is_default == (m.binding(i) == default_bindings().binding(i))
        },
        ControlDevice::Gamepad => {
            &&& row.binding@ == spec_gamepad_label(m.gamepad[i])
            &&& row.conflict == spec_has_gamepad_conflict(m, i)
            &&& row.is_default == (m.gamepad[i] == default_gamepad(i))
        },
    }
}

impl KeyBindings {
    /// The rows of the controls screen for `device`, one per action of the
    /// controls list, in its order.
    pub fn control_rows_for_device(&self, device: ControlDevice, rebinding_action: Option<Action>) -> (rows: Vec<
        ControlBindingRow,
    >)
        requires
            self@.wf(),
        ensures
            rows@.len() == bindable_actions().len(),
            forall|k: int|
                0 <= k < rows@.len() ==> row_matches(
                    #[trigger] rows@[k],
                    self@,
                    bindable_actions()[k],
                    device,
                    rebinding_action,
                ),
    {
        let defaults = KeyBindings::defaults();
        let all = Action::all_bindable();
        let mut rows: Vec<ControlBindingRow> = Vec::new();
        let mut j: usize = 0;
        while j < all.len()
            invariant
                all@ == bindable_actions(),
                j <= all@.len(),
                rows@.len() == j,
                self@.wf(),
                defaults@ == default_bindings(),
                forall|k: int|
                    0 <= k < j ==> row_matches(#[trigger] rows@[k], self@, bindable_actions()[k], device, rebinding_action),
            decreases all.len() - j,
        {
            let action = all[j];
            let row = match device {
                ControlDevice::KeyboardMouse => ControlBindingRow {
                    action,
                    label_key: action.translation_key(),
                    binding: self.binding_label(action),
                    category_key: action.category_key(),
                    conflict: self.has_conflict(action),
                    listening: rebinding_action == Some(action),
                    is_default: self.binding_for(action) == defaults.binding_for(action),
                },
                ControlDevice::Gamepad => ControlBindingRow {
                    action,
                    label_key: action.translation_key(),
                    binding: self.gamepad_binding_label(action),
                    category_key: action.category_key(),
                    conflict: self.has_gamepad_conflict(action),
                    listening: rebinding_action == Some(action),
                    is_default: self.gamepad_binding_for(action) == defaults.gamepad_binding_for(action),
                },
            };
            rows.push(row);
            j = j + 1;
        }
        rows
    }

    /// The keyboard and mouse rows of the controls screen.
    pub fn control_rows(&self, rebinding_action: Option<Action>) -> (rows: Vec<ControlBindingRow>)
        requires
            self@.wf(),
        ensures
            rows@.len() == bindable_actions().len(),
            forall|k: int|
                0 <= k < rows@.len() ==> row_matches(
                    #[trigger] rows@[k],
                    self@,
                    bindable_actions()[k],
                    ControlDevice::KeyboardMouse,
                    rebinding_action,
                ),
    {
        self.control_rows_for_device(ControlDevice::KeyboardMouse, rebinding_action)
    }
}

} // verus!

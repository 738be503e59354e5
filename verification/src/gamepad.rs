//! Gamepad input turned into actions: which bindings a controller state
//! activates, the actions held, and the actions pressed or released since
//! the previous frame.
use vstd::prelude::*;
use crate::keybind::{
    bindable_actions, spec_action_ord, Action, BindingsModel, GamepadBinding, GamepadButton, KeyBindings,
};

verus! {

/// The number of gamepad buttons.
pub const GAMEPAD_BUTTON_COUNT: usize = 11;

/// The position of each button in declaration order.
pub open spec fn spec_button_ord(b: GamepadButton) -> int {
    match b {
        GamepadButton::South => 0,
        GamepadButton::East => 1,
        GamepadButton::West => 2,
        GamepadButton::North => 3,
        GamepadButton::LeftTrigger => 4,
        GamepadButton::RightTrigger => 5,
        GamepadButton::LeftTrigger2 => 6,
        GamepadButton::RightTrigger2 => 7,
        GamepadButton::LeftThumb => 8,
        GamepadButton::RightThumb => 9,
        GamepadButton::Start => 10,
    }
}

/// The position of `b` in declaration order.
pub fn button_ordinal(b: GamepadButton) -> (r: usize)
    ensures
        r == spec_button_ord(b),
        r < GAMEPAD_BUTTON_COUNT,
{
    match b {
        GamepadButton::South => 0,
        GamepadButton::East => 1,
        GamepadButton::West => 2,
        GamepadButton::North => 3,
        GamepadButton::LeftTrigger => 4,
        GamepadButton::RightTrigger => 5,
        GamepadButton::LeftTrigger2 => 6,
        GamepadButton::RightTrigger2 => 7,
        GamepadButton::LeftThumb => 8,
        GamepadButton::RightThumb => 9,
        GamepadButton::Start => 10,
    }
}

/// A controller's state in one frame: the buttons held (by declaration
/// order) and the directions the left stick leans in, past its dead zone.
#[derive(Clone, Debug)]
pub struct PadState {
    pub buttons: Vec<bool>,
    pub stick_up: bool,
    pub stick_down: bool,
    pub stick_left: bool,
    pub stick_right: bool,
}

impl PadState {
    /// One entry per button.
    pub open spec fn wf(&self) -> bool {
        self.buttons@.len() == GAMEPAD_BUTTON_COUNT
    }
}

/// A binding is active when its button is held or the stick leans its way.
pub open spec fn spec_binding_active(binding: GamepadBinding, state: PadState) -> bool {
    match binding {
        GamepadBinding::Button(b) => state.buttons@[spec_button_ord(b)],
        GamepadBinding::LeftStickUp => state.stick_up,
        GamepadBinding::LeftStickDown => state.stick_down,
        GamepadBinding::LeftStickLeft => state.stick_left,
        GamepadBinding::LeftStickRight => state.stick_right,
    }
}

/// Whether `binding` is active in `state`.
pub fn binding_is_active(binding: GamepadBinding, state: &PadState) -> (r: bool)
    requires
        state.wf(),
    ensures
        r == spec_binding_active(binding, *state),
{
    match binding {
        GamepadBinding::Button(b) => state.buttons[button_ordinal(b)],
        GamepadBinding::LeftStickUp => state.stick_up,
        GamepadBinding::LeftStickDown => state.stick_down,
        GamepadBinding::LeftStickLeft => state.stick_left,
        GamepadBinding::LeftStickRight => state.stick_right,
    }
}

/// The actions among the first `n` of the controls list whose gamepad
/// binding is active, in list order.
pub open spec fn held_prefix(m: BindingsModel, state: PadState, n: int) -> Seq<Action>
    decreases n,
{
    if n <= 0 {
        Seq::empty()
    } else {
        let a = bindable_actions()[n - 1];
        held_prefix(m, state, n - 1) + match m.gamepad[spec_action_ord(a)] {
            Some(g) => if spec_binding_active(g, state) {
                seq![a]
            } else {
                Seq::empty()
            },
            None => Seq::empty(),
        }
    }
}

/// The actions the gamepad holds: those of the controls list whose
/// binding is active, in list order.
pub open spec fn spec_held_actions(m: BindingsModel, state: PadState) -> Seq<Action> {
    held_prefix(m, state, bindable_actions().len() as int)
}

/// The actions `state` holds under `bindings`.
pub fn gamepad_held_actions(bindings: &KeyBindings, state: &PadState) -> (r: Vec<Action>)
    requires
        bindings@.wf(),
        state.wf(),
    ensures
        r@ == spec_held_actions(bindings@, *state),
{
    let all = Action::all_bindable();
    let mut held: Vec<Action> = Vec::new();
    let mut j: usize = 0;
    while j < all.len()
        invariant
            all@ == bindable_actions(),
            j <= all@.len(),
            bindings@.wf(),
            state.wf(),
            held@ == held_prefix(bindings@, *state, j as int),
        decreases all.len() - j,
    {
        let action = all[j];
        if let Some(binding) = bindings.gamepad_binding_for(action) {
            if binding_is_active(binding, state) {
                held.push(action);
            }
        }
        j = j + 1;
        assert(held@ =~= held_prefix(bindings@, *state, j as int));
    }
    held
}

/// The elements of the first `n` of `now` that `before` lacks, in order.
pub open spec fn missing_prefix(now: Seq<Action>, before: Seq<Action>, n: int) -> Seq<Action>
    decreases n,
{
    if n <= 0 {
        Seq::empty()
    } else {
        missing_prefix(now, before, n - 1) + if before.contains(now[n - 1]) {
            Seq::empty()
        } else {
            seq![now[n - 1]]
        }
    }
}

/// The elements of `now` that `before` lacks, in order: the actions
/// pressed since the previous frame (or, swapped, released).
pub open spec fn spec_actions_not_in(now: Seq<Action>, before: Seq<Action>) -> Seq<Action> {
    missing_prefix(now, before, now.len() as int)
}

fn contains_action(v: &[Action], a: Action) -> (r: bool)
    ensures
        r == v@.contains(a),
{
    let mut i: usize = 0;
    while i < v.len()
        invariant
            i <= v@.len(),
            forall|k: int| 0 <= k < i ==> v@[k] != a,
        decreases v.len() - i,
    {
        if v[i] == a {
            assert(v@[i as int] == a);
            return true;
        }
        i = i + 1;
    }
    false
}

/// The actions of `now` missing from `before`.
pub fn actions_not_in(now: &[Action], before: &[Action]) -> (r: Vec<Action>)
    ensures
        r@ == spec_actions_not_in(now@, before@),
{
    let mut out: Vec<Action> = Vec::new();
    let mut i: usize = 0;
    while i < now.len()
        invariant
            i <= now@.len(),
            out@ == missing_prefix(now@, before@, i as int),
        decreases now.len() - i,
    {
        if !contains_action(before, now[i]) {
            out.push(now[i]);
        }
        i = i + 1;
        assert(out@ =~= missing_prefix(now@, before@, i as int));
    }
    out
}

/// An action is newly pressed exactly when it is held now and was not
/// held before.
pub proof fn lemma_pressed_actions(now: Seq<Action>, before: Seq<Action>, a: Action)
    ensures
        spec_actions_not_in(now, before).contains(a) <==> (now.contains(a) && !before.contains(a)),
{
    lemma_missing_prefix(now, before, now.len() as int, a);
    assert(now.take(now.len() as int) =~= now);
}

proof fn lemma_missing_prefix(now: Seq<Action>, before: Seq<Action>, n: int, a: Action)
    requires
        0 <= n <= now.len(),
    ensures
        missing_prefix(now, before, n).contains(a) <==> (now.take(n).contains(a) && !before.contains(a)),
    decreases n,
{
    if n == 0 {
        assert(now.take(0) =~= Seq::<Action>::empty());
    } else {
        lemma_missing_prefix(now, before, n - 1, a);
        let prev = missing_prefix(now, before, n - 1);
        let tail: Seq<Action> = if before.contains(now[n - 1]) {
            Seq::empty()
        } else {
            seq![now[n - 1]]
        };
        assert(now.take(n) =~= now.take(n - 1).push(now[n - 1]));
        assert(missing_prefix(now, before, n) == prev + tail);
        if (prev + tail).contains(a) {
            let k = choose|k: int| 0 <= k < (prev + tail).len() && (prev + tail)[k] == a;
            if k < prev.len() {
                assert(prev[k] == a);
                assert(prev.contains(a));
            } else {
                assert(tail[k - prev.len()] == a);
                assert(now.take(n)[n - 1] == a);
            }
        }
        if now.take(n).contains(a) && !before.contains(a) {
            let k = choose|k: int| 0 <= k < now.take(n).len() && now.take(n)[k] == a;
            if k < n - 1 {
                assert(now.take(n - 1)[k] == a);
                assert(now.take(n - 1).contains(a));
                let j = choose|j: int| 0 <= j < prev.len() && prev[j] == a;
                assert((prev + tail)[j] == a);
            } else {
                assert(now[n - 1] == a);
                assert((prev + tail)[prev.len() as int] == a);
            }
        }
    }
}


/// The button at position `i` of declaration order.
pub open spec fn spec_button_at(i: int) -> GamepadButton {
    if i == 0 {
        GamepadButton::South
    } else if i == 1 {
        GamepadButton::East
    } else if i == 2 {
        GamepadButton::West
    } else if i == 3 {
        GamepadButton::North
    } else if i == 4 {
        GamepadButton::LeftTrigger
    } else if i == 5 {
        GamepadButton::RightTrigger
    } else if i == 6 {
        GamepadButton::LeftTrigger2
    } else if i == 7 {
        GamepadButton::RightTrigger2
    } else if i == 8 {
        GamepadButton::LeftThumb
    } else if i == 9 {
        GamepadButton::RightThumb
    } else {
        GamepadButton::Start
    }
}

fn button_at(i: usize) -> (r: GamepadButton)
    ensures
        r == spec_button_at(i as int),
{
    match i {
        0 => GamepadButton::South,
        1 => GamepadButton::East,
        2 => GamepadButton::West,
        3 => GamepadButton::North,
        4 => GamepadButton::LeftTrigger,
        5 => GamepadButton::RightTrigger,
        6 => GamepadButton::LeftTrigger2,
        7 => GamepadButton::RightTrigger2,
        8 => GamepadButton::LeftThumb,
        9 => GamepadButton::RightThumb,
        _ => GamepadButton::Start,
    }
}

/// The held buttons among the first `n`, in declaration order.
pub open spec fn held_buttons(state: PadState, n: int) -> Seq<GamepadBinding>
    decreases n,
{
    if n <= 0 {
        Seq::empty()
    } else {
        held_buttons(state, n - 1) + if state.buttons@[n - 1] {
            seq![GamepadBinding::Button(spec_button_at(n - 1))]
        } else {
            Seq::empty()
        }
    }
}

/// The physical inputs a controls screen listens to: the held buttons in
/// declaration order, then the stick directions up, down, left, right.
pub open spec fn spec_physical_bindings(state: PadState) -> Seq<GamepadBinding> {
    held_buttons(state, GAMEPAD_BUTTON_COUNT as int) + (if state.stick_up {
        seq![GamepadBinding::LeftStickUp]
    } else {
        Seq::empty()
    }) + (if state.stick_down {
        seq![GamepadBinding::LeftStickDown]
    } else {
        Seq::empty()
    }) + (if state.stick_left {
        seq![GamepadBinding::LeftStickLeft]
    } else {
        Seq::empty()
    }) + (if state.stick_right {
        seq![GamepadBinding::LeftStickRight]
    } else {
        Seq::empty()
    })
}

/// The physical inputs held in `state` (its stick flags taken at the
/// rebinding threshold).
pub fn physical_bindings(state: &PadState) -> (r: Vec<GamepadBinding>)
    requires
        state.wf(),
    ensures
        r@ == spec_physical_bindings(*state),
{
    let mut held: Vec<GamepadBinding> = Vec::new();
    let mut i: usize = 0;
    while i < GAMEPAD_BUTTON_COUNT
        invariant
            i <= GAMEPAD_BUTTON_COUNT,
            state.wf(),
            held@ == held_buttons(*state, i as int),
        decreases GAMEPAD_BUTTON_COUNT - i,
    {
        if state.buttons[i] {
            held.push(GamepadBinding::Button(button_at(i)));
        }
        i = i + 1;
        assert(held@ =~= held_buttons(*state, i as int));
    }
    let ghost buttons = held@;
    if state.stick_up {
        held.push(GamepadBinding::LeftStickUp);
    }
    if state.stick_down {
        held.push(GamepadBinding::LeftStickDown);
    }
    if state.stick_left {
        held.push(GamepadBinding::LeftStickLeft);
    }
    if state.stick_right {
        held.push(GamepadBinding::LeftStickRight);
    }
    assert(held@ =~= spec_physical_bindings(*state));
    held
}

/// The elements of the first `n` of `now` that `before` lacks, in order.
pub open spec fn missing_bindings_prefix(now: Seq<GamepadBinding>, before: Seq<GamepadBinding>, n: int) -> Seq<
    GamepadBinding,
>
    decreases n,
{
    if n <= 0 {
        Seq::empty()
    } else {
        missing_bindings_prefix(now, before, n - 1) + if before.contains(now[n - 1]) {
            Seq::empty()
        } else {
            seq![now[n - 1]]
        }
    }
}

fn contains_binding(v: &[GamepadBinding], b: GamepadBinding) -> (r: bool)
    ensures
        r == v@.contains(b),
{
    let mut i: usize = 0;
    while i < v.len()
        invariant
            i <= v@.len(),
            forall|k: int| 0 <= k < i ==> v@[k] != b,
        decreases v.len() - i,
    {
        if v[i] == b {
            assert(v@[i as int] == b);
            return true;
        }
        i = i + 1;
    }
    false
}

/// The physical inputs of `now` that `before` lacks: those newly actuated,
/// which the controls screen takes as a new binding.
pub fn bindings_not_in(now: &[GamepadBinding], before: &[GamepadBinding]) -> (r: Vec<GamepadBinding>)
    ensures
        r@ == missing_bindings_prefix(now@, before@, now@.len() as int),
{
    let mut out: Vec<GamepadBinding> = Vec::new();
    let mut i: usize = 0;
    while i < now.len()
        invariant
            i <= now@.len(),
            out@ == missing_bindings_prefix(now@, before@, i as int),
        decreases now.len() - i,
    {
        if !contains_binding(before, now[i]) {
            out.push(now[i]);
        }
        i = i + 1;
        assert(out@ =~= missing_bindings_prefix(now@, before@, i as int));
    }
    out
}

} // verus!

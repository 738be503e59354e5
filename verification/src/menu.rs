//! Option menu steps that hold no floating point: frame-rate presets,
//! on/off options and choice options of mod configuration.
use vstd::prelude::*;
use crate::config::UNLIMITED_FRAMERATE;

verus! {

/// The frame-rate preset after `current`: 30, 60, 120, 240, 500, then
/// unlimited.
pub open spec fn spec_next_framerate(current: u32) -> u32 {
    if current < 30 {
        30
    } else if current < 60 {
        60
    } else if current < 120 {
        120
    } else if current < 240 {
        240
    } else if current < 500 {
        500
    } else {
        UNLIMITED_FRAMERATE
    }
}

/// The frame-rate preset before `current`, never below 30.
pub open spec fn spec_previous_framerate(current: u32) -> u32 {
    if current <= 60 {
        30
    } else if current <= 120 {
        60
    } else if current <= 240 {
        120
    } else if current <= 500 {
        240
    } else {
        500
    }
}

/// The next frame-rate preset.
pub fn next_framerate(current: u32) -> (r: u32)
    ensures
        r == spec_next_framerate(current),
{
    if current < 30 {
        30
    } else if current < 60 {
        60
    } else if current < 120 {
        120
    } else if current < 240 {
        240
    } else if current < 500 {
        500
    } else {
        UNLIMITED_FRAMERATE
    }
}

/// The previous frame-rate preset.
pub fn previous_framerate(current: u32) -> (r: u32)
    ensures
        r == spec_previous_framerate(current),
{
    if current <= 60 {
        30
    } else if current <= 120 {
        60
    } else if current <= 240 {
        120
    } else if current <= 500 {
        240
    } else {
        500
    }
}

/// The frame-rate presets.
pub open spec fn is_framerate_preset(v: u32) -> bool {
    v == 30 || v == 60 || v == 120 || v == 240 || v == 500 || v == UNLIMITED_FRAMERATE
}

/// Stepping up lands on a preset above the current value (until
/// unlimited), stepping down on a preset no higher; from a preset, one step
/// up and one down come back, as do one down and one up from any preset
/// but the lowest.
pub proof fn lemma_framerate_steps(current: u32)
    ensures
        is_framerate_preset(spec_next_framerate(current)),
        is_framerate_preset(spec_previous_framerate(current)),
        current < UNLIMITED_FRAMERATE ==> spec_next_framerate(current) > current,
        current >= 30 ==> spec_previous_framerate(current) <= current,
        is_framerate_preset(current) && current != UNLIMITED_FRAMERATE ==> spec_previous_framerate(
            spec_next_framerate(current),
        ) == current,
        is_framerate_preset(current) && current != 30 ==> spec_next_framerate(spec_previous_framerate(current))
            == current,
{
}

/// The label of an on/off option.
pub open spec fn spec_boolean_label(value: bool) -> Seq<char> {
    if value {
        seq!['O', 'n']
    } else {
        seq!['O', 'f', 'f']
    }
}

/// "On" or "Off".
pub fn boolean_label(value: bool) -> (r: &'static str)
    ensures
        r@ == spec_boolean_label(value),
{
    if value {
        proof {
            reveal_strlit("On");
        }
        "On"
    } else {
        proof {
            reveal_strlit("Off");
        }
        "Off"
    }
}

/// One option of a choice setting: the stored value and the label shown.
#[derive(Clone, Debug)]
pub struct ConfigChoice {
    pub value: String,
    pub label: String,
}

/// The stored values of the options.
pub open spec fn choice_values(options: Seq<ConfigChoice>) -> Seq<Seq<char>> {
    options.map_values(|o: ConfigChoice| o.value@)
}

/// The first position where `values` holds `v`, or `values.len()`.
pub open spec fn first_position(values: Seq<Seq<char>>, v: Seq<char>) -> int
    decreases values.len(),
{
    if values.len() == 0 {
        0
    } else if values[0] == v {
        0
    } else {
        1 + first_position(values.drop_first(), v)
    }
}

proof fn lemma_first_position(values: Seq<Seq<char>>, v: Seq<char>, i: int)
    requires
        0 <= i <= values.len(),
        forall|k: int| 0 <= k < i ==> values[k] != v,
    ensures
        (i < values.len() && values[i] == v) ==> first_position(values, v) == i,
        i == values.len() ==> first_position(values, v) == values.len(),
        0 <= first_position(values, v) <= values.len(),
    decreases values.len(),
{
    if values.len() > 0 {
        if values[0] != v {
            assert forall|k: int| 0 <= k < i - 1 implies values.drop_first()[k] != v by {
                assert(values.drop_first()[k] == values[k + 1]);
            }
            if i > 0 {
                lemma_first_position(values.drop_first(), v, i - 1);
            } else {
                lemma_first_position(values.drop_first(), v, 0);
            }
        }
    }
}

/// The label of the first option storing `value`, or `value` itself.
pub open spec fn spec_choice_label(options: Seq<ConfigChoice>, value: Seq<char>) -> Seq<char> {
    let k = first_position(choice_values(options), value);
    if k < options.len() {
        options[k].label@
    } else {
        value
    }
}

fn find_choice(options: &[ConfigChoice], value: &str) -> (r: usize)
    ensures
        r == first_position(choice_values(options@), value@),
        r <= options@.len(),
{
    let mut i: usize = 0;
    while i < options.len()
        invariant
            i <= options@.len(),
            forall|k: int| 0 <= k < i ==> choice_values(options@)[k] != value@,
        decreases options.len() - i,
    {
        if crate::text::str_eq(options[i].value.as_str(), value) {
            proof {
                lemma_first_position(choice_values(options@), value@, i as int);
            }
            return i;
        }
        i = i + 1;
    }
    proof {
        lemma_first_position(choice_values(options@), value@, i as int);
    }
    i
}

/// The label shown for a choice setting holding `value`.
pub fn choice_label(options: &[ConfigChoice], value: &str) -> (r: String)
    ensures
        r@ == spec_choice_label(options@, value@),
{
    let k = find_choice(options, value);
    if k < options.len() {
        options[k].label.clone()
    } else {
        value.to_owned()
    }
}

/// The value a choice setting takes when stepped in `direction` (back when
/// negative, forward otherwise), wrapping around; an unknown value counts
/// as the first option.  `None` when there are no options.
pub open spec fn spec_adjacent_choice(options: Seq<ConfigChoice>, value: Seq<char>, direction: i32) -> Option<Seq<char>> {
    if options.len() == 0 {
        None
    } else {
        let found = first_position(choice_values(options), value);
        let current = if found < options.len() {
            found
        } else {
            0
        };
        let next = if direction < 0 {
            if current == 0 {
                options.len() - 1
            } else {
                current - 1
            }
        } else {
            (current + 1) % (options.len() as int)
        };
        Some(options[next].value@)
    }
}

/// Steps a choice setting one option back or forward.
pub fn adjacent_choice(options: &[ConfigChoice], value: &str, direction: i32) -> (r: Option<String>)
    ensures
        opt_view(r) == spec_adjacent_choice(options@, value@, direction),
{
    if options.len() == 0 {
        return None;
    }
    let found = find_choice(options, value);
    let current = if found < options.len() { found } else { 0 };
    let next = if direction < 0 {
        if current == 0 {
            options.len() - 1
        } else {
            current - 1
        }
    } else {
        (current + 1) % options.len()
    };
    Some(options[next].value.clone())
}

/// An optional string as characters.
pub open spec fn opt_view(s: Option<String>) -> Option<Seq<char>> {
    match s {
        Some(t) => Some(t@),
        None => None,
    }
}

/// Stepping a choice setting forward then back, or back then forward,
/// returns to a value the options hold, given the options store distinct
/// values.
pub proof fn lemma_choice_step_round_trip(options: Seq<ConfigChoice>, k: int)
    requires
        0 <= k < options.len(),
        forall|i: int, j: int| 0 <= i < j < options.len() ==> options[i].value@ != options[j].value@,
    ensures
        spec_adjacent_choice(options, spec_adjacent_choice(options, options[k].value@, 1i32)->0, -1i32) == Some(
            options[k].value@,
        ),
        spec_adjacent_choice(options, spec_adjacent_choice(options, options[k].value@, -1i32)->0, 1i32) == Some(
            options[k].value@,
        ),
{
    let vals = choice_values(options);
    let n = options.len() as int;
    assert forall|i: int| 0 <= i < n implies first_position(vals, #[trigger] vals[i]) == i by {
        assert forall|j: int| 0 <= j < i implies vals[j] != vals[i] by {
            assert(vals[j] == options[j].value@);
        }
        lemma_first_position(vals, vals[i], i);
    }
    assert(vals[k] == options[k].value@);
    let up = (k + 1) % n;
    assert(0 <= up < n);
    assert(vals[up] == options[up].value@);
    let down = if k == 0 {
        n - 1
    } else {
        k - 1
    };
    assert(vals[down] == options[down].value@);
    if k + 1 < n {
        assert(up == k + 1) by (nonlinear_arith)
            requires
                up == (k + 1) % n,
                0 <= k + 1 < n,
        ;
    } else {
        assert(up == 0) by (nonlinear_arith)
            requires
                up == (k + 1) % n,
                k + 1 == n,
                n > 0,
        ;
    }
    if k == 0 {
        assert((n - 1 + 1) % n == 0) by (nonlinear_arith)
            requires
                n > 0,
        ;
    } else {
        assert((k - 1 + 1) % n == k) by (nonlinear_arith)
            requires
                0 < k < n,
        ;
    }
}


/// The kind of a mod configuration entry, for the kinds that hold no
/// number: an on/off switch or a choice among options.
#[derive(Clone, Debug)]
pub enum ConfigEntryKind {
    Boolean,
    Choice { options: Vec<ConfigChoice> },
}

/// A mod configuration value of a kind that holds no number.
#[derive(Clone, Debug, PartialEq, Eq)]
pub enum ConfigValue {
    Boolean(bool),
    Choice(String),
}

/// The characters of a configuration value.
pub enum ConfigValueView {
    Boolean(bool),
    Choice(Seq<char>),
}

/// The contents of a configuration value.
pub open spec fn config_value_view(v: ConfigValue) -> ConfigValueView {
    match v {
        ConfigValue::Boolean(b) => ConfigValueView::Boolean(b),
        ConfigValue::Choice(s) => ConfigValueView::Choice(s@),
    }
}

/// A setting stepped in `direction`: a switch flips; a choice moves to
/// the adjacent option; a value of the wrong kind, or a choice without
/// options, gives `None`.
pub open spec fn spec_adjusted_config_value(kind: ConfigEntryKind, value: ConfigValue, direction: i32) -> Option<ConfigValueView> {
    match (kind, value) {
        (ConfigEntryKind::Boolean, ConfigValue::Boolean(b)) => Some(ConfigValueView::Boolean(!b)),
        (ConfigEntryKind::Choice { options }, ConfigValue::Choice(v)) => match spec_adjacent_choice(
            options@,
            v@,
            direction,
        ) {
            Some(n) => Some(ConfigValueView::Choice(n)),
            None => None,
        },
        _ => None,
    }
}

/// Steps a mod setting back (negative `direction`) or forward.
pub fn adjusted_config_value(kind: &ConfigEntryKind, value: &ConfigValue, direction: i32) -> (r: Option<ConfigValue>)
    ensures
        match r {
            Some(v) => spec_adjusted_config_value(*kind, *value, direction) == Some(config_value_view(v)),
            None => spec_adjusted_config_value(*kind, *value, direction) is None,
        },
{
    match (kind, value) {
        (ConfigEntryKind::Boolean, ConfigValue::Boolean(b)) => Some(ConfigValue::Boolean(!*b)),
        (ConfigEntryKind::Choice { options }, ConfigValue::Choice(v)) => match adjacent_choice(
            options.as_slice(),
            v.as_str(),
            direction,
        ) {
            Some(n) => Some(ConfigValue::Choice(n)),
            None => None,
        },
        _ => None,
    }
}

/// The label of a setting: "On"/"Off", the chosen option's label, or
/// "Invalid value" for a value of the wrong kind.
pub open spec fn spec_config_value_label(kind: ConfigEntryKind, value: ConfigValue) -> Seq<char> {
    match (kind, value) {
        (ConfigEntryKind::Boolean, ConfigValue::Boolean(b)) => spec_boolean_label(b),
        (ConfigEntryKind::Choice { options }, ConfigValue::Choice(v)) => spec_choice_label(options@, v@),
        _ => seq!['I', 'n', 'v', 'a', 'l', 'i', 'd', ' ', 'v', 'a', 'l', 'u', 'e'],
    }
}

/// The label shown for a setting.
pub fn config_value_label(kind: &ConfigEntryKind, value: &ConfigValue) -> (r: String)
    ensures
        r@ == spec_config_value_label(*kind, *value),
{
    match (kind, value) {
        (ConfigEntryKind::Boolean, ConfigValue::Boolean(b)) => boolean_label(*b).to_owned(),
        (ConfigEntryKind::Choice { options }, ConfigValue::Choice(v)) => choice_label(options.as_slice(), v.as_str()),
        _ => {
            proof {
                reveal_strlit("Invalid value");
            }
            "Invalid value".to_owned()
        },
    }
}

/// Whether a setting can step back and forward: a switch always, a choice
/// when it has more than one option, a value of the wrong kind never.
pub fn config_can_step(kind: &ConfigEntryKind, value: &ConfigValue) -> (r: (bool, bool))
    ensures
        r == match (*kind, *value) {
            (ConfigEntryKind::Boolean, ConfigValue::Boolean(_)) => (true, true),
            (ConfigEntryKind::Choice { options }, ConfigValue::Choice(_)) => (options@.len() > 1, options@.len() > 1),
            _ => (false, false),
        },
{
    match (kind, value) {
        (ConfigEntryKind::Boolean, ConfigValue::Boolean(_)) => (true, true),
        (ConfigEntryKind::Choice { options }, ConfigValue::Choice(_)) => (options.len() > 1, options.len() > 1),
        _ => (false, false),
    }
}

} // verus!

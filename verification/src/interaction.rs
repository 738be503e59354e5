//! Decisions of block and item interaction that compare item stacks: when
//! a dig keeps going with the held item and what each dig tick shows, the
//! stack a window click reports, and typing into the creative search box.
use vstd::prelude::*;
use crate::book::{prefix, room, title_chars};
use crate::inventory::{empty_view_model, max_damage, spec_max_damage, ItemStackView, ItemStackViewModel};
use crate::text::{is_control, string_push};

verus! {

/// The held item counts as the one a dig started with: both empty, or
/// the same item with the same NBT and, for items without durability, the
/// same damage value (wear on a damageable tool does not count).
pub open spec fn spec_same_hitting_item(current: ItemStackViewModel, held: ItemStackViewModel) -> bool {
    let current_empty = current.count == 0 || current.item_id == 0;
    let held_empty = held.count == 0 || held.item_id == 0;
    if current_empty || held_empty {
        current_empty && held_empty
    } else {
        current.item_id == held.item_id && current.nbt == held.nbt && (spec_max_damage(current.item_id) > 0
            || current.damage == held.damage)
    }
}

/// Whether switching from `current` to `held` keeps the dig going.
pub fn same_vanilla_hitting_item(current: &ItemStackView, held: &ItemStackView) -> (r: bool)
    ensures
        r == spec_same_hitting_item(current@, held@),
{
    if current.is_empty() || held.is_empty() {
        return current.is_empty() && held.is_empty();
    }
    if current.item_id != held.item_id || !crate::bytes::opt_bytes_equal(&current.nbt, &held.nbt) {
        return false;
    }
    max_damage(current.item_id) > 0 || current.damage == held.damage
}

/// Whether a dig tick at block `hit_pos` with `held` in hand starts a new
/// dig: it goes on only at the block being dug and with the item it began
/// with (in the sense of `spec_same_hitting_item`).
pub open spec fn spec_dig_restarts(
    active_pos: Option<(i32, i32, i32)>,
    active_item: Option<ItemStackViewModel>,
    hit_pos: (i32, i32, i32),
    held: ItemStackViewModel,
) -> bool {
    !(active_pos == Some(hit_pos) && match active_item {
        Some(a) => spec_same_hitting_item(a, held),
        None => false,
    })
}

/// Whether the dig restarts at `hit_pos` (see `spec_dig_restarts`).
pub fn dig_restarts(
    active_pos: Option<(i32, i32, i32)>,
    active_item: Option<&ItemStackView>,
    hit_pos: (i32, i32, i32),
    held: &ItemStackView,
) -> (r: bool)
    ensures
        r == spec_dig_restarts(
            active_pos,
            match active_item {
                Some(a) => Some(a@),
                None => None,
            },
            hit_pos,
            held@,
        ),
{
    let same_position = match active_pos {
        Some(p) => p.0 == hit_pos.0 && p.1 == hit_pos.1 && p.2 == hit_pos.2,
        None => false,
    };
    let same_item = match active_item {
        Some(a) => same_vanilla_hitting_item(a, held),
        None => false,
    };
    !(same_position && same_item)
}

/// One damage tick of a dig that has made `ticks` ticks so far: the tick
/// count goes up by one (saturating), a hit particle shows when the new
/// count is a multiple of four, and the block's step sound plays when it
/// is one more than a multiple of four (so on the first tick).
pub fn dig_tick_feedback(ticks: u32) -> (r: (u32, bool, bool))
    ensures
        r.0 == if ticks < u32::MAX { (ticks + 1) as u32 } else { ticks },
        r.1 == (r.0 % 4 == 0),
        r.2 == (r.0 % 4 == 1),
{
    let t = ticks.saturating_add(1);
    (t, t % 4 == 0, t % 4 == 1)
}

/// The stack a window click packet reports: for a normal click the slot's
/// stack before the click; for a shift click that stack when the click
/// moved something; otherwise the empty stack.
pub open spec fn spec_click_result(mode: u8, before: ItemStackViewModel, after: ItemStackViewModel) -> ItemStackViewModel {
    if mode == 0 || (mode == 1 && before != after) {
        before
    } else {
        empty_view_model()
    }
}

/// The stack to report in a click packet of `mode`, from the clicked
/// slot's stack before and after the click.
pub fn click_window_result_stack(mode: u8, before: ItemStackView, after: ItemStackView) -> (r: ItemStackView)
    ensures
        r@ == spec_click_result(mode, before@, after@),
{
    if mode == 0 {
        before
    } else if mode == 1 && !before.same_as(&after) {
        before
    } else {
        ItemStackView::empty()
    }
}

/// Most characters the creative search box holds.
pub const CREATIVE_SEARCH_CHARS: usize = 15;

/// Types `text` into the creative search box: control characters are
/// dropped and the box stops at 15 characters.
pub fn append_creative_search(search: &mut String, text: &str)
    ensures
        final(search)@ == old(search)@ + prefix(
            title_chars(text@),
            room(old(search)@.len() as int, CREATIVE_SEARCH_CHARS as int),
        ),
{
    let ghost s0 = search@;
    let ghost r = room(s0.len() as int, CREATIVE_SEARCH_CHARS as int);
    let n = text.unicode_len();
    let mut count = search.unicode_len();
    let mut i: usize = 0;
    while i < n
        invariant
            n == text@.len(),
            i <= n,
            count == search@.len(),
            search@ == s0 + prefix(title_chars(text@.take(i as int)), r),
            r == room(s0.len() as int, CREATIVE_SEARCH_CHARS as int),
        decreases n - i,
    {
        let ch = text.get_char(i);
        let ghost acc = title_chars(text@.take(i as int));
        assert(text@.take(i + 1).drop_last() =~= text@.take(i as int));
        if !is_control(ch) {
            assert(title_chars(text@.take(i + 1)) == acc.push(ch));
            if count < CREATIVE_SEARCH_CHARS {
                string_push(search, ch);
                count = count + 1;
                assert(prefix(acc.push(ch), r) =~= prefix(acc, r).push(ch));
            } else {
                assert(prefix(acc.push(ch), r) =~= prefix(acc, r));
            }
        } else {
            assert(title_chars(text@.take(i + 1)) =~= acc);
        }
        i = i + 1;
    }
    assert(text@.take(n as int) =~= text@);
}

} // verus!

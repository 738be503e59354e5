//! Player inventory: hotbar, main inventory, armor, 2x2 crafting grid,
//! cursor and the currently open server window.
//!
//! Layout (protocol 47): hotbar 9 slots, main inventory 27 slots, 36 in
//! total.  `slots[0..9]` is the hotbar and `slots[9..36]` the main part.
use vstd::prelude::*;
use crate::bytes::{copy_opt_bytes, opt_bytes_equal, opt_bytes_view};
use crate::slot::Slot;
use crate::block::Block;
use crate::nbt::{
    enchantment_level, has_enchantments, name_ench, name_stored_enchantments, root_list_nonempty, root_valid,
    spec_enchantment_level,
};
use crate::text::{str_eq_from, str_starts_with};

verus! {

/// Raw NBT attached to an item stack.
#[derive(Clone, Debug, PartialEq, Eq)]
pub struct ItemStackMeta {
    pub nbt: Option<Vec<u8>>,
}

impl View for ItemStackMeta {
    type V = Option<Seq<u8>>;

    open spec fn view(&self) -> Option<Seq<u8>> {
        opt_bytes_view(self.nbt)
    }
}

impl ItemStackMeta {
    /// Metadata without NBT.
    pub fn none() -> (m: ItemStackMeta)
        ensures
            m@ is None,
    {
        ItemStackMeta { nbt: None }
    }

    /// A copy with the same NBT bytes.
    pub fn duplicate(&self) -> (m: ItemStackMeta)
        ensures
            m@ == self@,
    {
        ItemStackMeta { nbt: copy_opt_bytes(&self.nbt) }
    }
}

impl Default for ItemStackMeta {
    fn default() -> (m: ItemStackMeta)
        ensures
            m@ is None,
    {
        ItemStackMeta { nbt: None }
    }
}

/// The GUI name of a window type, without a `minecraft:` namespace.
pub open spec fn container_base_name(window_type: Seq<char>) -> Seq<char> {
    if 10 <= window_type.len() && window_type.take(10) == "minecraft:"@ {
        window_type.skip(10)
    } else {
        window_type
    }
}

/// The slot count of a container window: the advertised count, except
/// for the local special containers (crafting table 10, enchanting table
/// 2, anvil 3), which the server advertises as 0.
pub open spec fn spec_effective_container_slot_count(window_type: Seq<char>, advertised: usize) -> usize {
    if advertised != 0 {
        advertised
    } else {
        let name = container_base_name(window_type);
        if name == "crafting_table"@ || name == "workbench"@ {
            10
        } else if name == "enchanting_table"@ || name == "enchanting"@ {
            2
        } else if name == "anvil"@ {
            3
        } else {
            0
        }
    }
}

/// Slot counts for GUIs whose Open Window packet advertises zero slots
/// because the client builds their containers locally.
pub fn effective_container_slot_count(window_type: &str, advertised: usize) -> (r: usize)
    ensures
        r == spec_effective_container_slot_count(window_type@, advertised),
{
    if advertised != 0 {
        return advertised;
    }
    proof {
        reveal_strlit("minecraft:");
    }
    let offset: usize = if str_starts_with(window_type, "minecraft:") {
        10
    } else {
        0
    };
    assert(window_type@.skip(0) =~= window_type@);
    assert(window_type@.skip(offset as int) == container_base_name(window_type@));
    if str_eq_from(window_type, offset, "crafting_table") || str_eq_from(window_type, offset, "workbench") {
        10
    } else if str_eq_from(window_type, offset, "enchanting_table") || str_eq_from(window_type, offset, "enchanting") {
        2
    } else if str_eq_from(window_type, offset, "anvil") {
        3
    } else {
        0
    }
}


/// The abstract content of an item-stack view: the stack fields and the
/// NBT bytes.
pub struct ItemStackViewModel {
    pub item_id: u16,
    pub count: u8,
    pub damage: u16,
    pub nbt: Option<Seq<u8>>,
}

/// An item stack together with its NBT, as shown to the UI and sent in
/// click packets.
#[derive(Clone, Debug, PartialEq, Eq)]
pub struct ItemStackView {
    pub item_id: u16,
    pub count: u8,
    pub damage: u16,
    pub nbt: Option<Vec<u8>>,
}

impl View for ItemStackView {
    type V = ItemStackViewModel;

    open spec fn view(&self) -> ItemStackViewModel {
        ItemStackViewModel {
            item_id: self.item_id,
            count: self.count,
            damage: self.damage,
            nbt: opt_bytes_view(self.nbt),
        }
    }
}

/// The view of an empty slot.
pub open spec fn empty_view_model() -> ItemStackViewModel {
    ItemStackViewModel { item_id: 0, count: 0, damage: 0, nbt: None }
}

impl Default for ItemStackView {
    fn default() -> (v: ItemStackView)
        ensures
            v@ == empty_view_model(),
    {
        ItemStackView { item_id: 0, count: 0, damage: 0, nbt: None }
    }
}

impl ItemStackView {
    /// The empty view (all fields zero, no NBT).
    pub fn empty() -> (v: ItemStackView)
        ensures
            v@ == empty_view_model(),
    {
        ItemStackView { item_id: 0, count: 0, damage: 0, nbt: None }
    }

    /// Empty: no items or no item id.
    pub open spec fn spec_is_empty(&self) -> bool {
        self.count == 0 || self.item_id == 0
    }

    /// A view is empty when it holds no items or no item id.
    #[verifier::when_used_as_spec(spec_is_empty)]
    pub fn is_empty(&self) -> (r: bool)
        ensures
            r == self.spec_is_empty(),
    {
        self.count == 0 || self.item_id == 0
    }

    /// A copy with the same content.
    pub fn duplicate(&self) -> (v: ItemStackView)
        ensures
            v@ == self@,
    {
        ItemStackView {
            item_id: self.item_id,
            count: self.count,
            damage: self.damage,
            nbt: copy_opt_bytes(&self.nbt),
        }
    }

    /// Whether two views have the same content.
    pub fn same_as(&self, other: &ItemStackView) -> (r: bool)
        ensures
            r == (self@ == other@),
    {
        self.item_id == other.item_id && self.count == other.count && self.damage == other.damage
            && opt_bytes_equal(&self.nbt, &other.nbt)
    }

    /// The wire slot for this view: the empty slot when the view is empty.
    pub fn to_protocol_slot(&self) -> (s: Slot)
        ensures
            self.spec_is_empty() ==> s.item_id == -1 && s.count == 0 && s.damage == 0 && s.nbt is None,
            !self.spec_is_empty() ==> s.item_id == self.item_id as i16 && s.count == self.count
                && s.damage == self.damage as i16 && opt_bytes_view(s.nbt) == opt_bytes_view(self.nbt),
    {
        if self.is_empty() {
            Slot::empty()
        } else {
            Slot {
                item_id: self.item_id as i16,
                count: self.count,
                damage: self.damage as i16,
                nbt: copy_opt_bytes(&self.nbt),
            }
        }
    }
}

/// The durability of each tool, weapon and armor piece (0 for items
/// without durability).
pub open spec fn spec_max_damage(item_id: u16) -> u16 {
    if (268 <= item_id <= 271) || item_id == 290 {
        59
    } else if (272 <= item_id <= 275) || item_id == 291 {
        131
    } else if (256 <= item_id <= 258) || item_id == 267 || item_id == 292 {
        250
    } else if (276 <= item_id <= 279) || item_id == 293 {
        1561
    } else if (283 <= item_id <= 286) || item_id == 294 {
        32
    } else if item_id == 298 {
        55
    } else if item_id == 299 {
        80
    } else if item_id == 300 {
        75
    } else if item_id == 301 {
        65
    } else if item_id == 302 || item_id == 306 {
        165
    } else if item_id == 303 || item_id == 307 {
        240
    } else if item_id == 304 || item_id == 308 {
        225
    } else if item_id == 305 || item_id == 309 {
        195
    } else if item_id == 310 {
        363
    } else if item_id == 311 {
        528
    } else if item_id == 312 {
        495
    } else if item_id == 313 {
        429
    } else if item_id == 314 {
        77
    } else if item_id == 315 {
        112
    } else if item_id == 316 {
        105
    } else if item_id == 317 {
        91
    } else if item_id == 259 {
        64
    } else if item_id == 261 {
        384
    } else if item_id == 346 {
        64
    } else if item_id == 359 {
        238
    } else if item_id == 398 {
        25
    } else {
        0
    }
}

/// `Item.getMaxDamage()` of every damageable 1.8.9 item; 0 for items
/// without durability.  Tools: wood 59, stone 131, iron 250, diamond 1561,
/// gold 32.  Armor: material factor times the per-slot base.
pub fn max_damage(item_id: u16) -> (r: u16)
    ensures
        r == spec_max_damage(item_id),
{
    match item_id {
        268..=271 | 290 => 59,
        272..=275 | 291 => 131,
        256..=258 | 267 | 292 => 250,
        276..=279 | 293 => 1561,
        283..=286 | 294 => 32,
        298 => 55,
        299 => 80,
        300 => 75,
        301 => 65,
        302 | 306 => 165,
        303 | 307 => 240,
        304 | 308 => 225,
        305 | 309 => 195,
        310 => 363,
        311 => 528,
        312 => 495,
        313 => 429,
        314 => 77,
        315 => 112,
        316 => 105,
        317 => 91,
        259 => 64,
        261 => 384,
        346 => 64,
        359 => 238,
        398 => 25,
        _ => 0,
    }
}

/// The largest count a slot holds.
pub const MAX_STACK: u8 = 64;

/// An item stack in the inventory.
#[derive(Clone, Copy, Debug, PartialEq, Eq)]
pub struct ItemStack {
    /// Block or item id.
    pub item_id: u16,
    /// Stack count.
    pub count: u8,
    /// Damage value (tools) or metadata.
    pub damage: u16,
}

/// The empty stack.
pub open spec fn empty_stack() -> ItemStack {
    ItemStack { item_id: 0, count: 0, damage: 0 }
}

/// Number of items a stack stands for: 0 when it is empty.
pub open spec fn amount(s: ItemStack) -> int {
    if s.spec_is_empty() {
        0
    } else {
        s.count as int
    }
}

/// A stack with its count capped to the stack limit, or the empty stack.
pub open spec fn spec_normalized(s: ItemStack) -> ItemStack {
    if s.spec_is_empty() {
        empty_stack()
    } else if s.count > MAX_STACK {
        ItemStack { count: MAX_STACK, ..s }
    } else {
        s
    }
}

/// Two nonempty stacks merge when they hold the same item with the same
/// damage.
pub open spec fn spec_can_stack_with(a: ItemStack, b: ItemStack) -> bool {
    !a.spec_is_empty() && !b.spec_is_empty() && a.item_id == b.item_id && a.damage == b.damage
}

impl ItemStack {
    /// The empty stack.
    pub fn empty() -> (s: ItemStack)
        ensures
            s == empty_stack(),
    {
        ItemStack { item_id: 0, count: 0, damage: 0 }
    }

    /// A stack of `count` items `item_id`, capped at the stack limit;
    /// the empty stack for id 0 or count 0.
    pub fn new(item_id: u16, count: u8) -> (s: ItemStack)
        ensures
            s == spec_normalized(ItemStack { item_id, count, damage: 0 }),
    {
        if item_id == 0 || count == 0 {
            return ItemStack::empty();
        }
        let mut stack = ItemStack { item_id, count, damage: 0 };
        stack.count = if stack.count < stack.max_stack() {
            stack.count
        } else {
            stack.max_stack()
        };
        stack
    }

    /// Stack of a block item.
    pub fn from_block(block: crate::block::Block, count: u8) -> (s: ItemStack)
        ensures
            s == spec_normalized(ItemStack { item_id: block.spec_to_id(), count, damage: 0 }),
    {
        Self::new(block.to_id(), count)
    }

    /// The stack a wire slot holds; negative damage reads as 0.
    pub fn from_protocol_slot(slot: &Slot) -> (s: ItemStack)
        ensures
            slot.spec_is_empty() ==> s == empty_stack(),
            !slot.spec_is_empty() ==> s == (ItemStack {
                item_id: slot.spec_item_id_u16(),
                count: slot.count,
                damage: if slot.damage < 0 { 0 } else { slot.damage as u16 },
            }),
    {
        if slot.is_empty() {
            return ItemStack::empty();
        }
        ItemStack {
            item_id: slot.item_id_u16(),
            count: slot.count,
            damage: if slot.damage < 0 { 0 } else { slot.damage as u16 },
        }
    }

    /// The wire slot of this stack, without NBT.
    pub fn to_protocol_slot(&self) -> (s: Slot)
        ensures
            self.spec_is_empty() ==> s.item_id == -1 && s.count == 0 && s.damage == 0 && s.nbt is None,
            !self.spec_is_empty() ==> s.item_id == self.item_id as i16 && s.count == self.count
                && s.damage == self.damage as i16 && s.nbt is None,
    {
        self.to_protocol_slot_with_meta(None)
    }

    /// The wire slot of this stack with the NBT of `meta`.
    pub fn to_protocol_slot_with_meta(&self, meta: Option<&ItemStackMeta>) -> (s: Slot)
        ensures
            self.spec_is_empty() ==> s.item_id == -1 && s.count == 0 && s.damage == 0 && s.nbt is None,
            !self.spec_is_empty() ==> s.item_id == self.item_id as i16 && s.count == self.count
                && s.damage == self.damage as i16 && opt_bytes_view(s.nbt) == match meta {
                    Some(m) => m@,
                    None => None,
                },
    {
        if self.is_empty() {
            Slot::empty()
        } else {
            Slot {
                item_id: self.item_id as i16,
                count: self.count,
                damage: self.damage as i16,
                nbt: match meta {
                    Some(m) => copy_opt_bytes(&m.nbt),
                    None => None,
                },
            }
        }
    }

    /// The view of this stack with the NBT of `meta`; the empty view for
    /// an empty stack.
    pub fn view_with_meta(&self, meta: Option<&ItemStackMeta>) -> (v: ItemStackView)
        ensures
            self.spec_is_empty() ==> v@ == empty_view_model(),
            !self.spec_is_empty() ==> v@ == (ItemStackViewModel {
                item_id: self.item_id,
                count: self.count,
                damage: self.damage,
                nbt: match meta {
                    Some(m) => m@,
                    None => None,
                },
            }),
    {
        if self.is_empty() {
            ItemStackView::empty()
        } else {
            ItemStackView {
                item_id: self.item_id,
                count: self.count,
                damage: self.damage,
                nbt: match meta {
                    Some(m) => copy_opt_bytes(&m.nbt),
                    None => None,
                },
            }
        }
    }

    /// Empty: no items or no item id.
    pub open spec fn spec_is_empty(&self) -> bool {
        self.count == 0 || self.item_id == 0
    }

    /// A stack is empty when it holds no items or no item id.
    #[verifier::when_used_as_spec(spec_is_empty)]
    pub fn is_empty(&self) -> (r: bool)
        ensures
            r == self.spec_is_empty(),
    {
        self.count == 0 || self.item_id == 0
    }

    /// The stack limit; every item stacks to 64.
    pub fn max_stack(&self) -> (r: u8)
        ensures
            r == MAX_STACK,
    {
        MAX_STACK
    }

    /// Whether two non-empty stacks hold the same item and damage.
    pub fn can_stack_with(&self, other: &ItemStack) -> (r: bool)
        ensures
            r == spec_can_stack_with(*self, *other),
    {
        !self.is_empty() && !other.is_empty() && self.item_id == other.item_id
            && self.damage == other.damage
    }

    /// The stack with its count capped, or the empty stack.
    pub fn normalized(self) -> (s: ItemStack)
        ensures
            s == spec_normalized(self),
    {
        if self.is_empty() {
            ItemStack::empty()
        } else {
            let mut s = self;
            if s.count > s.max_stack() {
                s.count = s.max_stack();
            }
            s
        }
    }
}


/// The cursor and a clicked slot, each stack with its NBT.
pub struct ClickPair {
    pub cursor: ItemStack,
    pub cursor_meta: Option<Seq<u8>>,
    pub target: ItemStack,
    pub target_meta: Option<Seq<u8>>,
}

/// `stack` holding `count` items, or the empty stack (and no NBT) when
/// `count` is zero.
pub open spec fn with_count(stack: ItemStack, count: int) -> ItemStack {
    if count == 0 {
        empty_stack()
    } else {
        ItemStack { count: count as u8, ..stack }
    }
}

/// The metadata a slot keeps: none once it is emptied.
pub open spec fn meta_if_kept(count: int, meta: Option<Seq<u8>>) -> Option<Seq<u8>> {
    if count == 0 {
        None
    } else {
        meta
    }
}

/// What a click on a slot does to the cursor and the slot.
///
/// Right click: with an empty cursor, pick up the larger half of the slot;
/// onto an empty slot, put one item; onto a matching slot with room, add
/// one item.  Left click: with an empty cursor, pick up the slot; onto an
/// empty slot, put the cursor; onto a matching slot, move as many items as
/// fit; otherwise swap cursor and slot.
pub open spec fn spec_click_pair(p: ClickPair, right_click: bool) -> ClickPair {
    let c = p.cursor;
    let t = p.target;
    if right_click {
        if c.spec_is_empty() {
            if t.spec_is_empty() {
                p
            } else {
                let take = (t.count + 1) / 2;
                let rest = t.count - take;
                ClickPair {
                    cursor: ItemStack { count: take as u8, ..t },
                    cursor_meta: p.target_meta,
                    target: with_count(t, rest),
                    target_meta: meta_if_kept(rest, p.target_meta),
                }
            }
        } else if t.spec_is_empty() {
            let rest = c.count - 1;
            ClickPair {
                cursor: with_count(c, rest),
                cursor_meta: meta_if_kept(rest, p.cursor_meta),
                target: ItemStack { count: 1, ..c },
                target_meta: p.cursor_meta,
            }
        } else if spec_can_stack_with(t, c) && t.count < MAX_STACK {
            let rest = c.count - 1;
            ClickPair {
                cursor: with_count(c, rest),
                cursor_meta: meta_if_kept(rest, p.cursor_meta),
                target: ItemStack { count: (t.count + 1) as u8, ..t },
                target_meta: p.target_meta,
            }
        } else {
            p
        }
    } else if c.spec_is_empty() {
        ClickPair { cursor: t, cursor_meta: p.target_meta, target: empty_stack(), target_meta: None }
    } else if t.spec_is_empty() {
        ClickPair { cursor: empty_stack(), cursor_meta: None, target: c, target_meta: p.cursor_meta }
    } else if spec_can_stack_with(t, c) {
        let space = if t.count < MAX_STACK { MAX_STACK - t.count } else { 0 };
        let moved = if space < c.count { space } else { c.count as int };
        let rest = c.count - moved;
        ClickPair {
            cursor: with_count(c, rest),
            cursor_meta: meta_if_kept(rest, p.cursor_meta),
            target: ItemStack { count: (t.count + moved) as u8, ..t },
            target_meta: p.target_meta,
        }
    } else {
        ClickPair { cursor: t, cursor_meta: p.target_meta, target: c, target_meta: p.cursor_meta }
    }
}

/// Applies a click to `cursor` and `target` (with their NBT); see
/// `spec_click_pair`.  A right click that splits a slot needs its count
/// below 255 (the half is computed as `(count + 1) / 2`).
pub fn click_stack_pair(
    cursor: &mut ItemStack,
    cursor_meta: &mut ItemStackMeta,
    target: &mut ItemStack,
    target_meta: &mut ItemStackMeta,
    right_click: bool,
)
    requires
        right_click && old(cursor).spec_is_empty() ==> old(target).count < 255,
    ensures
        (ClickPair {
            cursor: *final(cursor),
            cursor_meta: final(cursor_meta)@,
            target: *final(target),
            target_meta: final(target_meta)@,
        }) == spec_click_pair(
            ClickPair {
                cursor: *old(cursor),
                cursor_meta: old(cursor_meta)@,
                target: *old(target),
                target_meta: old(target_meta)@,
            },
            right_click,
        ),
{
    if right_click {
        if cursor.is_empty() {
            if target.is_empty() {
                return;
            }
            let take = (target.count + 1) / 2;
            *cursor = ItemStack { count: take, ..*target };
            *cursor_meta = target_meta.duplicate();
            target.count = target.count - take;
            if target.count == 0 {
                *target = ItemStack::empty();
                *target_meta = ItemStackMeta::none();
            }
        } else if target.is_empty() {
            *target = ItemStack { count: 1, ..*cursor };
            *target_meta = cursor_meta.duplicate();
            cursor.count = cursor.count - 1;
            if cursor.count == 0 {
                *cursor = ItemStack::empty();
                *cursor_meta = ItemStackMeta::none();
            }
        } else if target.can_stack_with(cursor) && target.count < target.max_stack() {
            target.count = target.count + 1;
            cursor.count = cursor.count - 1;
            if cursor.count == 0 {
                *cursor = ItemStack::empty();
                *cursor_meta = ItemStackMeta::none();
            }
        }
    } else if cursor.is_empty() {
        *cursor = *target;
        let mut taken = ItemStackMeta::none();
        std::mem::swap(&mut taken, target_meta);
        *cursor_meta = taken;
        *target = ItemStack::empty();
    } else if target.is_empty() {
        *target = *cursor;
        let mut taken = ItemStackMeta::none();
        std::mem::swap(&mut taken, cursor_meta);
        *target_meta = taken;
        *cursor = ItemStack::empty();
    } else if target.can_stack_with(cursor) {
        let space = target.max_stack().saturating_sub(target.count);
        let moved = if space < cursor.count { space } else { cursor.count };
        target.count = target.count + moved;
        cursor.count = cursor.count - moved;
        if cursor.count == 0 {
            *cursor = ItemStack::empty();
            *cursor_meta = ItemStackMeta::none();
        }
    } else {
        std::mem::swap(target, cursor);
        std::mem::swap(target_meta, cursor_meta);
    }
}


/// `s` holds `n` items of the kind (item id and damage) of `like`; for
/// no items, `s` is the empty stack.
pub open spec fn holds_items_like(s: ItemStack, like: ItemStack, n: int) -> bool {
    if n == 0 {
        s == empty_stack()
    } else {
        s.item_id == like.item_id && s.damage == like.damage && s.count == n
    }
}

/// A right click with an empty hand on a nonempty slot picks up the
/// larger half (rounded up) with the slot's NBT and leaves the smaller
/// half; a slot left with nothing is emptied and loses its NBT.
pub proof fn lemma_right_click_takes_half(p: ClickPair)
    requires
        p.cursor.spec_is_empty(),
        !p.target.spec_is_empty(),
    ensures
        ({
            let q = spec_click_pair(p, true);
            let n = p.target.count as int;
            &&& holds_items_like(q.cursor, p.target, (n + 1) / 2)
            &&& q.cursor_meta == p.target_meta
            &&& holds_items_like(q.target, p.target, n / 2)
            &&& q.target_meta == if n / 2 == 0 { None } else { p.target_meta }
        }),
{
}

/// A right click with items in hand on an empty slot puts exactly one of
/// them there (with the cursor's NBT); the hand keeps the others.
pub proof fn lemma_right_click_places_one_in_empty_slot(p: ClickPair)
    requires
        !p.cursor.spec_is_empty(),
        p.target.spec_is_empty(),
    ensures
        ({
            let q = spec_click_pair(p, true);
            let n = p.cursor.count as int;
            &&& holds_items_like(q.target, p.cursor, 1)
            &&& q.target_meta == p.cursor_meta
            &&& holds_items_like(q.cursor, p.cursor, n - 1)
            &&& q.cursor_meta == if n == 1 { None } else { p.cursor_meta }
        }),
{
}

/// A right click with items in hand on a slot of the same item and
/// damage that is not full adds exactly one item to the slot and takes
/// exactly one from the hand; the slot keeps its NBT.
pub proof fn lemma_right_click_adds_one(p: ClickPair)
    requires
        !p.cursor.spec_is_empty(),
        !p.target.spec_is_empty(),
        p.target.item_id == p.cursor.item_id,
        p.target.damage == p.cursor.damage,
        p.target.count < 64,
    ensures
        ({
            let q = spec_click_pair(p, true);
            let n = p.cursor.count as int;
            &&& holds_items_like(q.target, p.target, p.target.count + 1)
            &&& q.target_meta == p.target_meta
            &&& holds_items_like(q.cursor, p.cursor, n - 1)
            &&& q.cursor_meta == if n == 1 { None } else { p.cursor_meta }
        }),
{
}

/// A right click that neither splits, places nor adds (both empty, or a
/// full slot or a different item under a nonempty hand) changes nothing.
pub proof fn lemma_right_click_otherwise_changes_nothing(p: ClickPair)
    requires
        p.cursor.spec_is_empty() == p.target.spec_is_empty(),
        !p.cursor.spec_is_empty() ==> (p.target.item_id != p.cursor.item_id || p.target.damage != p.cursor.damage
            || p.target.count >= 64),
    ensures
        spec_click_pair(p, true) == p,
{
}

/// A left click with an empty hand picks the whole slot up, NBT included,
/// and leaves it empty.
pub proof fn lemma_left_click_picks_up(p: ClickPair)
    requires
        p.cursor.spec_is_empty(),
    ensures
        ({
            let q = spec_click_pair(p, false);
            &&& q.cursor == p.target && q.cursor_meta == p.target_meta
            &&& q.target == empty_stack() && q.target_meta is None
        }),
{
}

/// A left click with items in hand on an empty slot puts them all there.
pub proof fn lemma_left_click_places_all(p: ClickPair)
    requires
        !p.cursor.spec_is_empty(),
        p.target.spec_is_empty(),
    ensures
        ({
            let q = spec_click_pair(p, false);
            &&& q.target == p.cursor && q.target_meta == p.cursor_meta
            &&& q.cursor == empty_stack() && q.cursor_meta is None
        }),
{
}

/// A left click with items in hand on a slot of the same item and damage
/// fills the slot up to 64 (a slot already at 64 or more takes nothing);
/// the hand keeps the rest, and the slot its NBT.
pub proof fn lemma_left_click_fills_up_to_a_full_stack(p: ClickPair)
    requires
        !p.cursor.spec_is_empty(),
        !p.target.spec_is_empty(),
        p.target.item_id == p.cursor.item_id,
        p.target.damage == p.cursor.damage,
    ensures
        ({
            let q = spec_click_pair(p, false);
            let t = p.target.count as int;
            let c = p.cursor.count as int;
            let n = if t >= 64 { t } else if t + c <= 64 { t + c } else { 64 };
            &&& holds_items_like(q.target, p.target, n)
            &&& q.target_meta == p.target_meta
            &&& holds_items_like(q.cursor, p.cursor, c + t - n)
            &&& q.cursor_meta == if c + t - n == 0 { None } else { p.cursor_meta }
        }),
{
}

/// A left click with items in hand on a slot of another item or damage
/// swaps hand and slot, NBT included.
pub proof fn lemma_left_click_swaps_different_items(p: ClickPair)
    requires
        !p.cursor.spec_is_empty(),
        !p.target.spec_is_empty(),
        p.target.item_id != p.cursor.item_id || p.target.damage != p.cursor.damage,
    ensures
        ({
            let q = spec_click_pair(p, false);
            &&& q.cursor == p.target && q.cursor_meta == p.target_meta
            &&& q.target == p.cursor && q.target_meta == p.cursor_meta
        }),
{
}

/// A click never creates or destroys items: cursor and slot hold as many
/// items together after the click as before it.
pub proof fn lemma_click_conserves_items(p: ClickPair, right_click: bool)
    requires
        right_click && p.cursor.spec_is_empty() ==> p.target.count < 255,
    ensures
        amount(spec_click_pair(p, right_click).cursor) + amount(spec_click_pair(p, right_click).target)
            == amount(p.cursor) + amount(p.target),
{
}

/// Picking up a stack with an empty hand and clicking the same slot again
/// puts the stack (and its NBT) back where it was.
pub proof fn lemma_pick_up_then_put_back(p: ClickPair)
    requires
        p.cursor == empty_stack(),
        p.cursor_meta is None,
        !p.target.spec_is_empty(),
    ensures
        spec_click_pair(spec_click_pair(p, false), false) == p,
{
}

/// Left-clicking a slot holding a different item swaps cursor and slot;
/// a second left click swaps them back.
pub proof fn lemma_swap_twice_restores(p: ClickPair)
    requires
        !p.cursor.spec_is_empty(),
        !p.target.spec_is_empty(),
        !spec_can_stack_with(p.target, p.cursor),
    ensures
        spec_click_pair(spec_click_pair(p, false), false) == p,
{
}


/// The NBT contents of a sequence of metadata.
pub open spec fn metas_view(s: Seq<ItemStackMeta>) -> Seq<Option<Seq<u8>>> {
    s.map_values(|m: ItemStackMeta| m@)
}

/// The state of a new inventory: every slot empty, the player window open,
/// hotbar slot 0 selected.
pub open spec fn empty_inventory_model() -> InventoryModel {
    InventoryModel {
        slots: Seq::new(36, |i: int| empty_stack()),
        slot_meta: Seq::new(36, |i: int| None),
        armor: Seq::new(4, |i: int| empty_stack()),
        armor_meta: Seq::new(4, |i: int| None),
        crafting: Seq::new(5, |i: int| empty_stack()),
        crafting_meta: Seq::new(5, |i: int| None),
        cursor: empty_stack(),
        cursor_meta: None,
        open_window_id: 0,
        had_server_window: false,
        pending_chest_position: None,
        open_chest_position: None,
        open_window_type: "minecraft:container"@,
        open_window_title: "Inventory"@,
        open_window_slot_count: 0,
        open_window_slots: Seq::empty(),
        open_window_slot_meta: Seq::empty(),
        open_window_properties: Seq::empty(),
        window_just_opened: false,
        selected: 0,
    }
}

/// Player inventory with hotbar.
pub struct Inventory {
    /// All 36 slots: `slots[0..9]` hotbar, `slots[9..36]` main inventory.
    pub slots: [ItemStack; 36],
    pub slot_meta: [ItemStackMeta; 36],
    /// Armor slots (helmet, chestplate, leggings, boots).
    pub armor: [ItemStack; 4],
    pub armor_meta: [ItemStackMeta; 4],
    /// Crafting result and the 2x2 crafting input.
    pub crafting: [ItemStack; 5],
    pub crafting_meta: [ItemStackMeta; 5],
    /// Item carried by the cursor.
    pub cursor: ItemStack,
    pub cursor_meta: ItemStackMeta,
    /// Last opened server window; window 0 is the player inventory.
    pub open_window_id: u8,
    /// Set while a server container (window id != 0) was open.
    pub had_server_window: bool,
    /// Chest targeted by the last block-use packet; it becomes the open chest
    /// only when the server answers with a chest window.
    pub pending_chest_position: Option<(i32, i32, i32)>,
    pub open_chest_position: Option<(i32, i32, i32)>,
    pub open_window_type: String,
    pub open_window_title: String,
    pub open_window_slot_count: usize,
    pub open_window_slots: Vec<ItemStack>,
    pub open_window_slot_meta: Vec<ItemStackMeta>,
    pub open_window_properties: Vec<(i16, i16)>,
    /// Set when the server opens a container; read and cleared by the UI.
    pub window_just_opened: bool,
    /// Selected hotbar slot (0..=8).
    pub selected: usize,
}

impl Inventory {
    /// An empty inventory showing the player window.
    pub fn new() -> (inv: Inventory)
        ensures
            inv@ == empty_inventory_model(),
            inv@.wf(),
    {
        let inv = Inventory {
            slots: [ItemStack { item_id: 0, count: 0, damage: 0 }, ItemStack { item_id: 0, count: 0, damage: 0 }, ItemStack { item_id: 0, count: 0, damage: 0 }, ItemStack { item_id: 0, count: 0, damage: 0 }, ItemStack { item_id: 0, count: 0, damage: 0 }, ItemStack { item_id: 0, count: 0, damage: 0 }, ItemStack { item_id: 0, count: 0, damage: 0 }, ItemStack { item_id: 0, count: 0, damage: 0 }, ItemStack { item_id: 0, count: 0, damage: 0 }, ItemStack { item_id: 0, count: 0, damage: 0 }, ItemStack { item_id: 0, count: 0, damage: 0 }, ItemStack { item_id: 0, count: 0, damage: 0 }, ItemStack { item_id: 0, count: 0, damage: 0 }, ItemStack { item_id: 0, count: 0, damage: 0 }, ItemStack { item_id: 0, count: 0, damage: 0 }, ItemStack { item_id: 0, count: 0, damage: 0 }, ItemStack { item_id: 0, count: 0, damage: 0 }, ItemStack { item_id: 0, count: 0, damage: 0 }, ItemStack { item_id: 0, count: 0, damage: 0 }, ItemStack { item_id: 0, count: 0, damage: 0 }, ItemStack { item_id: 0, count: 0, damage: 0 }, ItemStack { item_id: 0, count: 0, damage: 0 }, ItemStack { item_id: 0, count: 0, damage: 0 }, ItemStack { item_id: 0, count: 0, damage: 0 }, ItemStack { item_id: 0, count: 0, damage: 0 }, ItemStack { item_id: 0, count: 0, damage: 0 }, ItemStack { item_id: 0, count: 0, damage: 0 }, ItemStack { item_id: 0, count: 0, damage: 0 }, ItemStack { item_id: 0, count: 0, damage: 0 }, ItemStack { item_id: 0, count: 0, damage: 0 }, ItemStack { item_id: 0, count: 0, damage: 0 }, ItemStack { item_id: 0, count: 0, damage: 0 }, ItemStack { item_id: 0, count: 0, damage: 0 }, ItemStack { item_id: 0, count: 0, damage: 0 }, ItemStack { item_id: 0, count: 0, damage: 0 }, ItemStack { item_id: 0, count: 0, damage: 0 }],
            slot_meta: [ItemStackMeta { nbt: None }, ItemStackMeta { nbt: None }, ItemStackMeta { nbt: None }, ItemStackMeta { nbt: None }, ItemStackMeta { nbt: None }, ItemStackMeta { nbt: None }, ItemStackMeta { nbt: None }, ItemStackMeta { nbt: None }, ItemStackMeta { nbt: None }, ItemStackMeta { nbt: None }, ItemStackMeta { nbt: None }, ItemStackMeta { nbt: None }, ItemStackMeta { nbt: None }, ItemStackMeta { nbt: None }, ItemStackMeta { nbt: None }, ItemStackMeta { nbt: None }, ItemStackMeta { nbt: None }, ItemStackMeta { nbt: None }, ItemStackMeta { nbt: None }, ItemStackMeta { nbt: None }, ItemStackMeta { nbt: None }, ItemStackMeta { nbt: None }, ItemStackMeta { nbt: None }, ItemStackMeta { nbt: None }, ItemStackMeta { nbt: None }, ItemStackMeta { nbt: None }, ItemStackMeta { nbt: None }, ItemStackMeta { nbt: None }, ItemStackMeta { nbt: None }, ItemStackMeta { nbt: None }, ItemStackMeta { nbt: None }, ItemStackMeta { nbt: None }, ItemStackMeta { nbt: None }, ItemStackMeta { nbt: None }, ItemStackMeta { nbt: None }, ItemStackMeta { nbt: None }],
            armor: [ItemStack { item_id: 0, count: 0, damage: 0 }, ItemStack { item_id: 0, count: 0, damage: 0 }, ItemStack { item_id: 0, count: 0, damage: 0 }, ItemStack { item_id: 0, count: 0, damage: 0 }],
            armor_meta: [ItemStackMeta { nbt: None }, ItemStackMeta { nbt: None }, ItemStackMeta { nbt: None }, ItemStackMeta { nbt: None }],
            crafting: [ItemStack { item_id: 0, count: 0, damage: 0 }, ItemStack { item_id: 0, count: 0, damage: 0 }, ItemStack { item_id: 0, count: 0, damage: 0 }, ItemStack { item_id: 0, count: 0, damage: 0 }, ItemStack { item_id: 0, count: 0, damage: 0 }],
            crafting_meta: [ItemStackMeta { nbt: None }, ItemStackMeta { nbt: None }, ItemStackMeta { nbt: None }, ItemStackMeta { nbt: None }, ItemStackMeta { nbt: None }],
            cursor: ItemStack::empty(),
            cursor_meta: ItemStackMeta::none(),
            open_window_id: 0,
            had_server_window: false,
            pending_chest_position: None,
            open_chest_position: None,
            open_window_type: String::from_str("minecraft:container"),
            open_window_title: String::from_str("Inventory"),
            open_window_slot_count: 0,
            open_window_slots: Vec::new(),
            open_window_slot_meta: Vec::new(),
            open_window_properties: Vec::new(),
            window_just_opened: false,
            selected: 0,
        };
        assert(inv@ =~= empty_inventory_model());
        inv
    }

    /// The selected hotbar stack.
    pub fn selected_item(&self) -> (r: &ItemStack)
        requires
            self@.wf(),
        ensures
            *r == self.slots@[self.selected as int],
    {
        &self.slots[self.selected]
    }

    /// Selects hotbar slot `slot`, clamped to 8.
    pub fn set_selected(&mut self, slot: usize)
        ensures
            final(self)@ == (InventoryModel { selected: if slot < 8 { slot } else { 8 }, ..old(self)@ }),
    {
        self.selected = if slot < 8 { slot } else { 8 };
    }
}



/// A slot of the inventory that a protocol slot number refers to.
#[derive(Clone, Copy, Debug, PartialEq, Eq)]
pub enum SlotRef {
    Cursor,
    /// Slot of the open window.
    Window(usize),
    /// Hotbar or main inventory slot.
    Local(usize),
    Crafting(usize),
    Armor(usize),
    Nowhere,
}

/// The abstract state of an inventory.
#[verifier::ext_equal]
pub struct InventoryModel {
    pub slots: Seq<ItemStack>,
    pub slot_meta: Seq<Option<Seq<u8>>>,
    pub armor: Seq<ItemStack>,
    pub armor_meta: Seq<Option<Seq<u8>>>,
    pub crafting: Seq<ItemStack>,
    pub crafting_meta: Seq<Option<Seq<u8>>>,
    pub cursor: ItemStack,
    pub cursor_meta: Option<Seq<u8>>,
    pub open_window_id: u8,
    pub had_server_window: bool,
    pub pending_chest_position: Option<(i32, i32, i32)>,
    pub open_chest_position: Option<(i32, i32, i32)>,
    pub open_window_type: Seq<char>,
    pub open_window_title: Seq<char>,
    pub open_window_slot_count: usize,
    pub open_window_slots: Seq<ItemStack>,
    pub open_window_slot_meta: Seq<Option<Seq<u8>>>,
    pub open_window_properties: Seq<(i16, i16)>,
    pub window_just_opened: bool,
    pub selected: usize,
}

impl View for Inventory {
    type V = InventoryModel;

    open spec fn view(&self) -> InventoryModel {
        InventoryModel {
            slots: self.slots@,
            slot_meta: metas_view(self.slot_meta@),
            armor: self.armor@,
            armor_meta: metas_view(self.armor_meta@),
            crafting: self.crafting@,
            crafting_meta: metas_view(self.crafting_meta@),
            cursor: self.cursor,
            cursor_meta: self.cursor_meta@,
            open_window_id: self.open_window_id,
            had_server_window: self.had_server_window,
            pending_chest_position: self.pending_chest_position,
            open_chest_position: self.open_chest_position,
            open_window_type: self.open_window_type@,
            open_window_title: self.open_window_title@,
            open_window_slot_count: self.open_window_slot_count,
            open_window_slots: self.open_window_slots@,
            open_window_slot_meta: metas_view(self.open_window_slot_meta@),
            open_window_properties: self.open_window_properties@,
            window_just_opened: self.window_just_opened,
            selected: self.selected,
        }
    }
}

/// Metadata contents after replacing one entry.
pub proof fn lemma_metas_update(s: Seq<ItemStackMeta>, i: int, m: ItemStackMeta)
    requires
        0 <= i < s.len(),
    ensures
        metas_view(s.update(i, m)) == metas_view(s).update(i, m@),
{
    assert(metas_view(s.update(i, m)) =~= metas_view(s).update(i, m@));
}

/// Metadata contents after appending one entry.
pub proof fn lemma_metas_push(s: Seq<ItemStackMeta>, m: ItemStackMeta)
    ensures
        metas_view(s.push(m)) == metas_view(s).push(m@),
{
    assert(metas_view(s.push(m)) =~= metas_view(s).push(m@));
}

/// Protocol slots of the player window: 0..=4 crafting, 5..=8 armor,
/// 9..=35 main inventory, 36..=44 hotbar.
pub open spec fn spec_local_index_for_player_window_slot(slot_index: i16) -> Option<usize> {
    if 9 <= slot_index <= 35 {
        Some(slot_index as usize)
    } else if 36 <= slot_index <= 44 {
        Some((slot_index - 36) as usize)
    } else {
        None
    }
}

/// The slot a player-window protocol slot refers to.
pub open spec fn spec_player_window_ref(slot_index: i16) -> SlotRef {
    if 0 <= slot_index <= 4 {
        SlotRef::Crafting(slot_index as usize)
    } else if 5 <= slot_index <= 8 {
        SlotRef::Armor((slot_index - 5) as usize)
    } else if 9 <= slot_index <= 35 {
        SlotRef::Local(slot_index as usize)
    } else if 36 <= slot_index <= 44 {
        SlotRef::Local((slot_index - 36) as usize)
    } else {
        SlotRef::Nowhere
    }
}

/// Clicking a protocol slot of the player window is clicking the slot it
/// names: slots 9..=35 are main-inventory slots of the same index, 36..=44
/// are hotbar slots 0..=8, 5..=8 are armor slots 0..=3, 0..=4 are the
/// crafting slots, and every other protocol slot changes nothing.
pub proof fn lemma_player_window_click_is_local_click(m: InventoryModel, p: i16, right_click: bool)
    ensures
        9 <= p <= 35 ==> m.click_at(spec_player_window_ref(p), right_click)
            == m.click_at(SlotRef::Local(p as usize), right_click),
        36 <= p <= 44 ==> m.click_at(spec_player_window_ref(p), right_click)
            == m.click_at(SlotRef::Local((p - 36) as usize), right_click),
        5 <= p <= 8 ==> m.click_at(spec_player_window_ref(p), right_click)
            == m.click_at(SlotRef::Armor((p - 5) as usize), right_click),
        0 <= p <= 4 ==> m.click_at(spec_player_window_ref(p), right_click)
            == m.click_at(SlotRef::Crafting(p as usize), right_click),
        (p < 0 || p > 44) ==> m.click_at(spec_player_window_ref(p), right_click) == m,
{
}

/// Whether `slot_index - count + 9` (the player-window slot that follows an
/// open window of `count` slots) fits in an `i16`.
pub open spec fn player_offset_fits(slot_index: i16, count: usize) -> bool {
    &&& i16::MIN <= slot_index - (count as i16) <= i16::MAX
    &&& i16::MIN <= slot_index - (count as i16) + 9 <= i16::MAX
}

/// The stack a slot holds after dropping one item (or the whole stack).
/// A stack with one item taken away: an emptied stack becomes the empty
/// stack, and a stack of count 0 stays as it is.
pub open spec fn spec_remove_one(s: ItemStack) -> ItemStack {
    if s.count == 0 {
        s
    } else if s.count == 1 {
        empty_stack()
    } else {
        ItemStack { count: (s.count - 1) as u8, ..s }
    }
}

/// A stack after dropping one item, or the whole stack.
pub open spec fn spec_drop_from(s: ItemStack, drop_stack: bool) -> ItemStack {
    if s.spec_is_empty() {
        s
    } else if drop_stack || s.count <= 1 {
        empty_stack()
    } else {
        ItemStack { count: (s.count - 1) as u8, ..s }
    }
}

/// The view of `stack` with NBT `meta`.
pub open spec fn view_model_of(stack: ItemStack, meta: Option<Seq<u8>>) -> ItemStackViewModel {
    if stack.spec_is_empty() {
        empty_view_model()
    } else {
        ItemStackViewModel { item_id: stack.item_id, count: stack.count, damage: stack.damage, nbt: meta }
    }
}

impl InventoryModel {
    /// The invariant every operation keeps: fixed section sizes, a hotbar
    /// selection and an open window holding exactly its advertised slots.
    pub open spec fn wf(self) -> bool {
        &&& self.slots.len() == 36
        &&& self.slot_meta.len() == 36
        &&& self.armor.len() == 4
        &&& self.armor_meta.len() == 4
        &&& self.crafting.len() == 5
        &&& self.crafting_meta.len() == 5
        &&& self.selected < 9
        &&& self.open_window_slots.len() == self.open_window_slot_count
        &&& self.open_window_slot_meta.len() == self.open_window_slot_count
        &&& properties_sorted(self.open_window_properties)
    }

    /// Whether `r` names an existing slot.
    pub open spec fn valid_ref(self, r: SlotRef) -> bool {
        match r {
            SlotRef::Cursor => true,
            SlotRef::Window(i) => i < self.open_window_slots.len(),
            SlotRef::Local(i) => i < 36,
            SlotRef::Crafting(i) => i < 5,
            SlotRef::Armor(i) => i < 4,
            SlotRef::Nowhere => true,
        }
    }

    /// The stack in slot `r`.
    pub open spec fn stack_at(self, r: SlotRef) -> ItemStack {
        match r {
            SlotRef::Cursor => self.cursor,
            SlotRef::Window(i) => self.open_window_slots[i as int],
            SlotRef::Local(i) => self.slots[i as int],
            SlotRef::Crafting(i) => self.crafting[i as int],
            SlotRef::Armor(i) => self.armor[i as int],
            SlotRef::Nowhere => empty_stack(),
        }
    }

    /// The NBT of slot `r`.
    pub open spec fn meta_at(self, r: SlotRef) -> Option<Seq<u8>> {
        match r {
            SlotRef::Cursor => self.cursor_meta,
            SlotRef::Window(i) => self.open_window_slot_meta[i as int],
            SlotRef::Local(i) => self.slot_meta[i as int],
            SlotRef::Crafting(i) => self.crafting_meta[i as int],
            SlotRef::Armor(i) => self.armor_meta[i as int],
            SlotRef::Nowhere => None,
        }
    }

    /// The state with slot `r` holding `stack` and NBT `meta`.
    pub open spec fn set_at(self, r: SlotRef, stack: ItemStack, meta: Option<Seq<u8>>) -> InventoryModel {
        match r {
            SlotRef::Cursor => InventoryModel { cursor: stack, cursor_meta: meta, ..self },
            SlotRef::Window(i) => InventoryModel {
                open_window_slots: self.open_window_slots.update(i as int, stack),
                open_window_slot_meta: self.open_window_slot_meta.update(i as int, meta),
                ..self
            },
            SlotRef::Local(i) => InventoryModel {
                slots: self.slots.update(i as int, stack),
                slot_meta: self.slot_meta.update(i as int, meta),
                ..self
            },
            SlotRef::Crafting(i) => InventoryModel {
                crafting: self.crafting.update(i as int, stack),
                crafting_meta: self.crafting_meta.update(i as int, meta),
                ..self
            },
            SlotRef::Armor(i) => InventoryModel {
                armor: self.armor.update(i as int, stack),
                armor_meta: self.armor_meta.update(i as int, meta),
                ..self
            },
            SlotRef::Nowhere => self,
        }
    }

    /// The state with only the stack of slot `r` replaced (NBT kept).
    pub open spec fn set_stack_at(self, r: SlotRef, stack: ItemStack) -> InventoryModel {
        match r {
            SlotRef::Cursor => InventoryModel { cursor: stack, ..self },
            SlotRef::Window(i) => InventoryModel {
                open_window_slots: self.open_window_slots.update(i as int, stack),
                ..self
            },
            SlotRef::Local(i) => InventoryModel { slots: self.slots.update(i as int, stack), ..self },
            SlotRef::Crafting(i) => InventoryModel { crafting: self.crafting.update(i as int, stack), ..self },
            SlotRef::Armor(i) => InventoryModel { armor: self.armor.update(i as int, stack), ..self },
            SlotRef::Nowhere => self,
        }
    }

    /// Whether a click on slot `r` is defined (a right click that splits a
    /// stack needs a count below 255).
    pub open spec fn click_ok(self, r: SlotRef, right_click: bool) -> bool {
        right_click && self.cursor.spec_is_empty() ==> self.stack_at(r).count < 255
    }

    /// The state after clicking slot `r` with the cursor.
    pub open spec fn click_at(self, r: SlotRef, right_click: bool) -> InventoryModel {
        if r is Cursor || r is Nowhere {
            self
        } else {
            let q = spec_click_pair(
                ClickPair {
                    cursor: self.cursor,
                    cursor_meta: self.cursor_meta,
                    target: self.stack_at(r),
                    target_meta: self.meta_at(r),
                },
                right_click,
            );
            self.set_at(SlotRef::Cursor, q.cursor, q.cursor_meta).set_at(r, q.target, q.target_meta)
        }
    }

    /// The state after dropping one item (or the whole stack) from slot
    /// `r`; a slot left empty loses its NBT.
    pub open spec fn drop_at(self, r: SlotRef, drop_stack: bool) -> InventoryModel {
        if r is Nowhere {
            self
        } else {
            let s = spec_drop_from(self.stack_at(r), drop_stack);
            if s.spec_is_empty() {
                self.set_at(r, s, None)
            } else {
                self.set_stack_at(r, s)
            }
        }
    }

    /// The player-inventory slot that protocol slot `p` of the open window
    /// refers to: the slots after the window's own ones map to the player
    /// window starting at slot 9.
    pub open spec fn local_index_for_open_window_slot(self, p: i16) -> Option<usize> {
        if self.open_window_id == 0 {
            spec_local_index_for_player_window_slot(p)
        } else if p < (self.open_window_slot_count as i16) {
            None
        } else {
            spec_local_index_for_player_window_slot((p - (self.open_window_slot_count as i16) + 9) as i16)
        }
    }

    /// Whether protocol slot `p` lies in the open server window's own slots.
    pub open spec fn in_open_window(self, p: i16) -> bool {
        self.open_window_id != 0 && 0 <= p && (p as usize) < self.open_window_slot_count
    }

    /// The slot that reads of protocol slot `p` look at.
    pub open spec fn read_ref(self, p: i16) -> SlotRef {
        if p == -999 {
            SlotRef::Cursor
        } else if self.in_open_window(p) {
            SlotRef::Window(p as usize)
        } else if self.open_window_id != 0 && self.local_index_for_open_window_slot(p) is Some {
            SlotRef::Local(self.local_index_for_open_window_slot(p)->0)
        } else if spec_local_index_for_player_window_slot(p) is Some {
            SlotRef::Local(spec_local_index_for_player_window_slot(p)->0)
        } else if 0 <= p <= 4 {
            SlotRef::Crafting(p as usize)
        } else if 5 <= p <= 8 {
            SlotRef::Armor((p - 5) as usize)
        } else {
            SlotRef::Nowhere
        }
    }

    /// The slot that a drop of protocol slot `p` takes from.
    pub open spec fn drop_ref(self, p: i16) -> SlotRef {
        if p == -999 {
            SlotRef::Cursor
        } else if self.in_open_window(p) {
            SlotRef::Window(p as usize)
        } else if self.open_window_id != 0 {
            match self.local_index_for_open_window_slot(p) {
                Some(l) => SlotRef::Local(l),
                None => SlotRef::Nowhere,
            }
        } else if 0 <= p <= 4 {
            SlotRef::Crafting(p as usize)
        } else if 5 <= p <= 8 {
            SlotRef::Armor((p - 5) as usize)
        } else {
            match spec_local_index_for_player_window_slot(p) {
                Some(l) => SlotRef::Local(l),
                None => SlotRef::Nowhere,
            }
        }
    }

    /// Whether mapping protocol slot `p` past the open window stays in `i16`.
    pub open spec fn open_offset_ok(self, p: i16) -> bool {
        self.open_window_id != 0 && p >= (self.open_window_slot_count as i16) ==> player_offset_fits(
            p,
            self.open_window_slot_count,
        )
    }
}


impl Inventory {
    /// Clicks local slot `slot` (hotbar 0..9, main 9..36) with the cursor;
    /// other indices do nothing.
    pub fn click_local_slot(&mut self, slot: usize, right_click: bool)
        requires
            old(self)@.wf(),
            slot < 36 ==> old(self)@.click_ok(SlotRef::Local(slot), right_click),
        ensures
            final(self)@.wf(),
            final(self)@ == if slot < 36 {
                old(self)@.click_at(SlotRef::Local(slot), right_click)
            } else {
                old(self)@
            },
    {
        if slot >= 36 {
            return;
        }
        let ghost m0 = self.slot_meta@;
        click_stack_pair(
            &mut self.cursor,
            &mut self.cursor_meta,
            &mut self.slots[slot],
            &mut self.slot_meta[slot],
            right_click,
        );
        proof {
            lemma_metas_update(m0, slot as int, self.slot_meta@[slot as int]);
        }
        assert(self@ =~= old(self)@.click_at(SlotRef::Local(slot), right_click));
    }
}


impl Inventory {
    /// Clicks slot `r` with the cursor.
    fn click_ref(&mut self, r: SlotRef, right_click: bool)
        requires
            old(self)@.wf(),
            old(self)@.valid_ref(r),
            old(self)@.click_ok(r, right_click),
        ensures
            final(self)@.wf(),
            final(self)@ == old(self)@.click_at(r, right_click),
    {
        match r {
            SlotRef::Local(i) => {
                let ghost m0 = self.slot_meta@;
                click_stack_pair(
                    &mut self.cursor,
                    &mut self.cursor_meta,
                    &mut self.slots[i],
                    &mut self.slot_meta[i],
                    right_click,
                );
                proof {
                    lemma_metas_update(m0, i as int, self.slot_meta@[i as int]);
                }
            },
            SlotRef::Crafting(i) => {
                let ghost m0 = self.crafting_meta@;
                click_stack_pair(
                    &mut self.cursor,
                    &mut self.cursor_meta,
                    &mut self.crafting[i],
                    &mut self.crafting_meta[i],
                    right_click,
                );
                proof {
                    lemma_metas_update(m0, i as int, self.crafting_meta@[i as int]);
                }
            },
            SlotRef::Armor(i) => {
                let ghost m0 = self.armor_meta@;
                click_stack_pair(
                    &mut self.cursor,
                    &mut self.cursor_meta,
                    &mut self.armor[i],
                    &mut self.armor_meta[i],
                    right_click,
                );
                proof {
                    lemma_metas_update(m0, i as int, self.armor_meta@[i as int]);
                }
            },
            SlotRef::Window(i) => {
                let ghost m0 = self.open_window_slot_meta@;
                let mut target = self.open_window_slots[i];
                let mut target_meta = ItemStackMeta::none();
                std::mem::swap(&mut target_meta, &mut self.open_window_slot_meta[i]);
                let ghost m1 = self.open_window_slot_meta@;
                click_stack_pair(
                    &mut self.cursor,
                    &mut self.cursor_meta,
                    &mut target,
                    &mut target_meta,
                    right_click,
                );
                self.open_window_slots.set(i, target);
                self.open_window_slot_meta.set(i, target_meta);
                proof {
                    lemma_metas_update(m0, i as int, ItemStackMeta { nbt: None });
                    lemma_metas_update(m1, i as int, self.open_window_slot_meta@[i as int]);
                    assert(m1.update(i as int, self.open_window_slot_meta@[i as int]) =~= self.open_window_slot_meta@);
                    assert(metas_view(m0).update(i as int, target_meta@) =~= metas_view(self.open_window_slot_meta@));
                }
            },
            _ => {},
        }
        assert(self@ =~= old(self)@.click_at(r, right_click));
    }

    /// Clicks protocol slot `protocol_slot` of the player window: 0..=4
    /// crafting, 5..=8 armor, 9..=35 main inventory, 36..=44 hotbar.
    pub fn click_player_window_slot(&mut self, protocol_slot: i16, right_click: bool)
        requires
            old(self)@.wf(),
            old(self)@.click_ok(spec_player_window_ref(protocol_slot), right_click),
        ensures
            final(self)@.wf(),
            final(self)@ == old(self)@.click_at(spec_player_window_ref(protocol_slot), right_click),
    {
        let r = match protocol_slot {
            0..=4 => SlotRef::Crafting(protocol_slot as usize),
            5..=8 => SlotRef::Armor((protocol_slot - 5) as usize),
            9..=35 => SlotRef::Local(protocol_slot as usize),
            36..=44 => SlotRef::Local((protocol_slot - 36) as usize),
            _ => SlotRef::Nowhere,
        };
        self.click_ref(r, right_click);
    }

    /// Clicks slot `protocol_slot` of the open window's own slots; indices
    /// outside them do nothing.
    pub fn click_open_window_slot(&mut self, protocol_slot: i16, right_click: bool)
        requires
            old(self)@.wf(),
            0 <= protocol_slot && (protocol_slot as usize) < old(self)@.open_window_slot_count
                ==> old(self)@.click_ok(SlotRef::Window(protocol_slot as usize), right_click),
        ensures
            final(self)@.wf(),
            final(self)@ == if 0 <= protocol_slot && (protocol_slot as usize) < old(self)@.open_window_slot_count {
                old(self)@.click_at(SlotRef::Window(protocol_slot as usize), right_click)
            } else {
                old(self)@
            },
    {
        if protocol_slot < 0 {
            return;
        }
        let idx = protocol_slot as usize;
        if idx >= self.open_window_slot_count {
            return;
        }
        if right_click {
            self.right_click_open_window_slot(idx);
        } else {
            self.left_click_open_window_slot(idx);
        }
    }

    fn left_click_open_window_slot(&mut self, idx: usize)
        requires
            old(self)@.wf(),
        ensures
            final(self)@.wf(),
            final(self)@ == if idx < old(self)@.open_window_slots.len() {
                old(self)@.click_at(SlotRef::Window(idx), false)
            } else {
                old(self)@
            },
    {
        if idx >= self.open_window_slots.len() {
            return;
        }
        self.click_ref(SlotRef::Window(idx), false);
    }

    fn right_click_open_window_slot(&mut self, idx: usize)
        requires
            old(self)@.wf(),
            idx < old(self)@.open_window_slots.len() ==> old(self)@.click_ok(SlotRef::Window(idx), true),
        ensures
            final(self)@.wf(),
            final(self)@ == if idx < old(self)@.open_window_slots.len() {
                old(self)@.click_at(SlotRef::Window(idx), true)
            } else {
                old(self)@
            },
    {
        if idx >= self.open_window_slots.len() {
            return;
        }
        self.click_ref(SlotRef::Window(idx), true);
    }

    fn left_click_local_slot(&mut self, slot: usize)
        requires
            old(self)@.wf(),
            slot < 36,
        ensures
            final(self)@.wf(),
            final(self)@ == old(self)@.click_at(SlotRef::Local(slot), false),
    {
        self.click_ref(SlotRef::Local(slot), false);
    }

    fn right_click_local_slot(&mut self, slot: usize)
        requires
            old(self)@.wf(),
            slot < 36,
            old(self)@.click_ok(SlotRef::Local(slot), true),
        ensures
            final(self)@.wf(),
            final(self)@ == old(self)@.click_at(SlotRef::Local(slot), true),
    {
        self.click_ref(SlotRef::Local(slot), true);
    }
}


/// Drops one item (or, with `drop_stack` or a single item, the whole
/// stack) from `slot`; an empty slot is left alone.
pub fn drop_from_slot(slot: &mut ItemStack, drop_stack: bool)
    ensures
        *final(slot) == spec_drop_from(*old(slot), drop_stack),
{
    if slot.is_empty() {
        return;
    }
    if drop_stack || slot.count <= 1 {
        *slot = ItemStack::empty();
    } else {
        slot.count = slot.count - 1;
    }
}

impl Inventory {
    /// The local slot of player-window protocol slot `slot_index`: 9..=35
    /// are the main inventory, 36..=44 the hotbar.
    pub fn local_index_for_player_window_slot(slot_index: i16) -> (r: Option<usize>)
        ensures
            r == spec_local_index_for_player_window_slot(slot_index),
    {
        match slot_index {
            9..=35 => Some(slot_index as usize),
            36..=44 => Some((slot_index - 36) as usize),
            _ => None,
        }
    }
}

impl Inventory {
    /// Drops from slot `r`; an emptied slot loses its NBT.
    fn drop_ref_slot(&mut self, r: SlotRef, drop_stack: bool)
        requires
            old(self)@.wf(),
            old(self)@.valid_ref(r),
        ensures
            final(self)@.wf(),
            final(self)@ == old(self)@.drop_at(r, drop_stack),
    {
        match r {
            SlotRef::Cursor => {
                drop_from_slot(&mut self.cursor, drop_stack);
                if self.cursor.is_empty() {
                    self.cursor_meta = ItemStackMeta::none();
                }
            },
            SlotRef::Local(i) => {
                let ghost m0 = self.slot_meta@;
                drop_from_slot(&mut self.slots[i], drop_stack);
                if self.slots[i].is_empty() {
                    self.slot_meta[i] = ItemStackMeta::none();
                    proof {
                        lemma_metas_update(m0, i as int, ItemStackMeta { nbt: None });
                    }
                }
            },
            SlotRef::Crafting(i) => {
                let ghost m0 = self.crafting_meta@;
                drop_from_slot(&mut self.crafting[i], drop_stack);
                if self.crafting[i].is_empty() {
                    self.crafting_meta[i] = ItemStackMeta::none();
                    proof {
                        lemma_metas_update(m0, i as int, ItemStackMeta { nbt: None });
                    }
                }
            },
            SlotRef::Armor(i) => {
                let ghost m0 = self.armor_meta@;
                drop_from_slot(&mut self.armor[i], drop_stack);
                if self.armor[i].is_empty() {
                    self.armor_meta[i] = ItemStackMeta::none();
                    proof {
                        lemma_metas_update(m0, i as int, ItemStackMeta { nbt: None });
                    }
                }
            },
            SlotRef::Window(i) => {
                let ghost m0 = self.open_window_slot_meta@;
                let mut stack = self.open_window_slots[i];
                drop_from_slot(&mut stack, drop_stack);
                self.open_window_slots.set(i, stack);
                if stack.is_empty() {
                    self.open_window_slot_meta.set(i, ItemStackMeta::none());
                    proof {
                        lemma_metas_update(m0, i as int, ItemStackMeta { nbt: None });
                    }
                }
            },
            SlotRef::Nowhere => {},
        }
        assert(self@ =~= old(self)@.drop_at(r, drop_stack));
    }

    /// The player-inventory slot that protocol slot `protocol_slot` of the
    /// open window refers to (`None` for the window's own slots).
    pub fn local_index_for_open_window_slot(&self, protocol_slot: i16) -> (r: Option<usize>)
        requires
            self@.open_offset_ok(protocol_slot),
        ensures
            r == self@.local_index_for_open_window_slot(protocol_slot),
    {
        if self.open_window_id == 0 {
            return Inventory::local_index_for_player_window_slot(protocol_slot);
        }
        if protocol_slot < self.open_window_slot_count as i16 {
            return None;
        }
        let player_slot = protocol_slot - self.open_window_slot_count as i16 + 9;
        Inventory::local_index_for_player_window_slot(player_slot)
    }

    fn drop_ref_of(&self, protocol_slot: i16) -> (r: SlotRef)
        requires
            self@.wf(),
            self@.open_offset_ok(protocol_slot),
        ensures
            r == self@.drop_ref(protocol_slot),
            self@.valid_ref(r),
    {
        if protocol_slot == -999 {
            return SlotRef::Cursor;
        }
        if self.open_window_id != 0 && protocol_slot >= 0
            && (protocol_slot as usize) < self.open_window_slot_count {
            return SlotRef::Window(protocol_slot as usize);
        }
        if self.open_window_id != 0 {
            return match self.local_index_for_open_window_slot(protocol_slot) {
                Some(l) => SlotRef::Local(l),
                None => SlotRef::Nowhere,
            };
        }
        match protocol_slot {
            0..=4 => SlotRef::Crafting(protocol_slot as usize),
            5..=8 => SlotRef::Armor((protocol_slot - 5) as usize),
            _ => match Inventory::local_index_for_player_window_slot(protocol_slot) {
                Some(l) => SlotRef::Local(l),
                None => SlotRef::Nowhere,
            },
        }
    }

    /// Drops from the slot that protocol slot `protocol_slot` names (-999 is
    /// the cursor); an emptied slot loses its NBT.
    pub fn drop_protocol_slot(&mut self, protocol_slot: i16, drop_stack: bool)
        requires
            old(self)@.wf(),
            old(self)@.open_offset_ok(protocol_slot),
        ensures
            final(self)@.wf(),
            final(self)@ == old(self)@.drop_at(old(self)@.drop_ref(protocol_slot), drop_stack),
    {
        let r = self.drop_ref_of(protocol_slot);
        self.drop_ref_slot(r, drop_stack);
    }

    /// A click outside the window drops from the cursor: a left click the
    /// whole stack, a right click one item.
    pub fn click_outside(&mut self, right_click: bool)
        requires
            old(self)@.wf(),
        ensures
            final(self)@.wf(),
            final(self)@ == old(self)@.drop_at(SlotRef::Cursor, !right_click),
    {
        self.drop_cursor(!right_click);
    }

    fn drop_cursor(&mut self, drop_stack: bool)
        requires
            old(self)@.wf(),
        ensures
            final(self)@.wf(),
            final(self)@ == old(self)@.drop_at(SlotRef::Cursor, drop_stack),
    {
        self.drop_ref_slot(SlotRef::Cursor, drop_stack);
    }

    /// Removes one item from the selected hotbar slot; the slot becomes the
    /// empty stack when its last item goes (its NBT is kept).
    pub fn remove_selected_one(&mut self)
        requires
            old(self)@.wf(),
        ensures
            final(self)@.wf(),
            final(self)@ == old(self)@.set_stack_at(
                SlotRef::Local(old(self)@.selected),
                spec_remove_one(old(self)@.slots[old(self)@.selected as int]),
            ),
    {
        let sel = self.selected;
        let mut item = self.slots[sel];
        if item.count > 0 {
            item.count = item.count - 1;
            if item.count == 0 {
                item = ItemStack::empty();
            }
        }
        self.slots[sel] = item;
        assert(self.slot_meta@ =~= old(self).slot_meta@);
        assert(self@ =~= old(self)@.set_stack_at(SlotRef::Local(sel), item));
    }

    /// Drops from the selected hotbar slot: the whole stack, or one item.
    pub fn drop_selected(&mut self, drop_stack: bool)
        requires
            old(self)@.wf(),
        ensures
            final(self)@.wf(),
            drop_stack ==> final(self)@ == old(self)@.set_stack_at(SlotRef::Local(old(self)@.selected), empty_stack()),
            !drop_stack ==> final(self)@ == old(self)@.set_stack_at(
                SlotRef::Local(old(self)@.selected),
                spec_remove_one(old(self)@.slots[old(self)@.selected as int]),
            ),
    {
        if drop_stack {
            let sel = self.selected;
            self.slots[sel] = ItemStack::empty();
            assert(self@ =~= old(self)@.set_stack_at(SlotRef::Local(sel), empty_stack()));
        } else {
            self.remove_selected_one();
        }
    }

    /// Moves the hotbar selection by `delta`, wrapping around the 9 slots.
    pub fn scroll(&mut self, delta: i32)
        requires
            old(self)@.wf(),
            old(self).selected + delta <= i32::MAX,
        ensures
            final(self)@.wf(),
            final(self)@ == (InventoryModel { selected: ((old(self).selected + delta) % 9) as usize, ..old(self)@ }),
    {
        let s = self.selected as i32 + delta;
        let r = (s % 9 + 9) % 9;
        assert(r == (self.selected + delta) % 9) by (nonlinear_arith)
            requires
                s == self.selected + delta,
                r == (s % 9 + 9) % 9,
        ;
        self.selected = r as usize;
    }
}


impl Inventory {
    fn read_ref_of(&self, protocol_slot: i16) -> (r: SlotRef)
        requires
            self@.wf(),
            self@.open_offset_ok(protocol_slot),
        ensures
            r == self@.read_ref(protocol_slot),
            self@.valid_ref(r),
    {
        if protocol_slot == -999 {
            return SlotRef::Cursor;
        }
        if self.open_window_id != 0 && protocol_slot >= 0
            && (protocol_slot as usize) < self.open_window_slot_count {
            return SlotRef::Window(protocol_slot as usize);
        }
        if self.open_window_id != 0 {
            if let Some(local) = self.local_index_for_open_window_slot(protocol_slot) {
                return SlotRef::Local(local);
            }
        }
        if let Some(local) = Inventory::local_index_for_player_window_slot(protocol_slot) {
            return SlotRef::Local(local);
        }
        match protocol_slot {
            0..=4 => SlotRef::Crafting(protocol_slot as usize),
            5..=8 => SlotRef::Armor((protocol_slot - 5) as usize),
            _ => SlotRef::Nowhere,
        }
    }

    /// The stack at protocol slot `protocol_slot` (-999 is the cursor); the
    /// empty stack for slots that name nothing.
    pub fn item_for_protocol_slot(&self, protocol_slot: i16) -> (r: ItemStack)
        requires
            self@.wf(),
            self@.open_offset_ok(protocol_slot),
        ensures
            r == self@.stack_at(self@.read_ref(protocol_slot)),
    {
        match self.read_ref_of(protocol_slot) {
            SlotRef::Cursor => self.cursor,
            SlotRef::Window(i) => self.open_window_slots[i],
            SlotRef::Local(i) => self.slots[i],
            SlotRef::Crafting(i) => self.crafting[i],
            SlotRef::Armor(i) => self.armor[i],
            SlotRef::Nowhere => ItemStack::empty(),
        }
    }

    /// The stack and NBT at protocol slot `protocol_slot`.
    pub fn item_view_for_protocol_slot(&self, protocol_slot: i16) -> (r: ItemStackView)
        requires
            self@.wf(),
            self@.open_offset_ok(protocol_slot),
        ensures
            r@ == view_model_of(
                self@.stack_at(self@.read_ref(protocol_slot)),
                self@.meta_at(self@.read_ref(protocol_slot)),
            ),
    {
        match self.read_ref_of(protocol_slot) {
            SlotRef::Cursor => self.cursor.view_with_meta(Some(&self.cursor_meta)),
            SlotRef::Window(i) => self.open_window_slots[i].view_with_meta(Some(&self.open_window_slot_meta[i])),
            SlotRef::Local(i) => self.slots[i].view_with_meta(Some(&self.slot_meta[i])),
            SlotRef::Crafting(i) => self.crafting[i].view_with_meta(Some(&self.crafting_meta[i])),
            SlotRef::Armor(i) => self.armor[i].view_with_meta(Some(&self.armor_meta[i])),
            SlotRef::Nowhere => ItemStackView::empty(),
        }
    }

    /// The wire slot of the selected hotbar stack, with its NBT.
    pub fn protocol_slot_for_selected_item(&self) -> (s: Slot)
        requires
            self@.wf(),
        ensures
            ({
                let st = self@.slots[self@.selected as int];
                &&& st.spec_is_empty() ==> s.item_id == -1 && s.count == 0 && s.damage == 0 && s.nbt is None
                &&& !st.spec_is_empty() ==> s.item_id == st.item_id as i16 && s.count == st.count
                    && s.damage == st.damage as i16 && opt_bytes_view(s.nbt) == self@.slot_meta[self@.selected as int]
            }),
    {
        self.slots[self.selected].to_protocol_slot_with_meta(Some(&self.slot_meta[self.selected]))
    }

    /// Mutable access to the selected hotbar stack.
    pub fn selected_item_mut(&mut self) -> (r: &mut ItemStack)
        requires
            old(self)@.wf(),
        ensures
            *r == old(self)@.slots[old(self)@.selected as int],
            final(self)@ == old(self)@.set_stack_at(SlotRef::Local(old(self)@.selected), *final(r)),
    {
        &mut self.slots[self.selected]
    }
}


/// Total number of items in a sequence of stacks.
pub open spec fn total_amount(s: Seq<ItemStack>) -> int
    decreases s.len(),
{
    if s.len() == 0 {
        0
    } else {
        total_amount(s.drop_last()) + amount(s.last())
    }
}

/// Replacing one stack changes the total by the difference of the two.
pub proof fn lemma_total_amount_update(s: Seq<ItemStack>, i: int, x: ItemStack)
    requires
        0 <= i < s.len(),
    ensures
        total_amount(s.update(i, x)) == total_amount(s) - amount(s[i]) + amount(x),
    decreases s.len(),
{
    if i == s.len() - 1 {
        assert(s.update(i, x).drop_last() =~= s.drop_last());
    } else {
        lemma_total_amount_update(s.drop_last(), i, x);
        assert(s.update(i, x).drop_last() =~= s.drop_last().update(i, x));
    }
}

/// First pass of a merge: top up stacks of the same item in `[i, end)`,
/// in slot order, while items are left.
pub open spec fn stack_pass(s: Seq<ItemStack>, i: int, end: int, st: ItemStack) -> (Seq<ItemStack>, ItemStack)
    decreases end - i,
{
    if st.count == 0 {
        (s, empty_stack())
    } else if i >= end {
        (s, st)
    } else {
        let t = s[i];
        if spec_can_stack_with(t, st) && t.count < MAX_STACK {
            let moved = if MAX_STACK - t.count < st.count { MAX_STACK - t.count } else { st.count as int };
            stack_pass(
                s.update(i, ItemStack { count: (t.count + moved) as u8, ..t }),
                i + 1,
                end,
                ItemStack { count: (st.count - moved) as u8, ..st },
            )
        } else {
            stack_pass(s, i + 1, end, st)
        }
    }
}

/// Second pass of a merge: put the remaining items into empty slots of
/// `[i, end)`, in slot order.
pub open spec fn fill_pass(s: Seq<ItemStack>, i: int, end: int, st: ItemStack) -> (Seq<ItemStack>, ItemStack)
    decreases end - i,
{
    if st.count == 0 {
        (s, empty_stack())
    } else if i >= end {
        (s, st)
    } else if s[i].spec_is_empty() {
        let moved = if MAX_STACK < st.count { MAX_STACK as int } else { st.count as int };
        fill_pass(
            s.update(i, ItemStack { count: moved as u8, ..st }),
            i + 1,
            end,
            ItemStack { count: (st.count - moved) as u8, ..st },
        )
    } else {
        fill_pass(s, i + 1, end, st)
    }
}

/// `x`, at most 36.
pub open spec fn clamp36(x: usize) -> int {
    if x < 36 {
        x as int
    } else {
        36
    }
}

/// A pass over each range of `ranges` (clamped to the 36 slots) in turn.
pub open spec fn ranges_pass(
    s: Seq<ItemStack>,
    ranges: Seq<(usize, usize)>,
    k: int,
    st: ItemStack,
    fill: bool,
) -> (Seq<ItemStack>, ItemStack)
    decreases ranges.len() - k,
{
    if st.count == 0 {
        (s, empty_stack())
    } else if k >= ranges.len() {
        (s, st)
    } else {
        let lo = clamp36(ranges[k].0);
        let hi = clamp36(ranges[k].1);
        let r = if fill {
            fill_pass(s, lo, hi, st)
        } else {
            stack_pass(s, lo, hi, st)
        };
        ranges_pass(r.0, ranges, k + 1, r.1, fill)
    }
}

/// Merging a stack into slot ranges: first top up matching stacks in all
/// ranges, then fill empty slots; yields the new slots and the leftover.
pub open spec fn spec_merge_into_ranges(
    s: Seq<ItemStack>,
    ranges: Seq<(usize, usize)>,
    stack: ItemStack,
) -> (Seq<ItemStack>, ItemStack) {
    let st = spec_normalized(stack);
    if st.spec_is_empty() {
        (s, empty_stack())
    } else {
        let a = ranges_pass(s, ranges, 0, st, false);
        let b = ranges_pass(a.0, ranges, 0, a.1, true);
        (b.0, spec_normalized(b.1))
    }
}

/// Merging a stack into all slots of an open window.
pub open spec fn spec_merge_into_window(w: Seq<ItemStack>, stack: ItemStack) -> (Seq<ItemStack>, ItemStack) {
    let st = spec_normalized(stack);
    if st.spec_is_empty() || w.len() == 0 {
        (w, st)
    } else {
        let a = stack_pass(w, 0, w.len() as int, st);
        let b = fill_pass(a.0, 0, w.len() as int, a.1);
        (b.0, spec_normalized(b.1))
    }
}

/// A stack pass moves items without creating or destroying any.
pub proof fn lemma_stack_pass_conserves(s: Seq<ItemStack>, i: int, end: int, st: ItemStack)
    requires
        0 <= i,
        end <= s.len(),
    ensures
        stack_pass(s, i, end, st).0.len() == s.len(),
        stack_pass(s, i, end, st).1.count <= st.count,
        total_amount(stack_pass(s, i, end, st).0) + amount(stack_pass(s, i, end, st).1)
            == total_amount(s) + amount(st),
    decreases end - i,
{
    if st.count == 0 || i >= end {
    } else {
        let t = s[i];
        if spec_can_stack_with(t, st) && t.count < MAX_STACK {
            let moved = if MAX_STACK - t.count < st.count { MAX_STACK - t.count } else { st.count as int };
            let s2 = s.update(i, ItemStack { count: (t.count + moved) as u8, ..t });
            lemma_total_amount_update(s, i, ItemStack { count: (t.count + moved) as u8, ..t });
            lemma_stack_pass_conserves(s2, i + 1, end, ItemStack { count: (st.count - moved) as u8, ..st });
        } else {
            lemma_stack_pass_conserves(s, i + 1, end, st);
        }
    }
}

/// A fill pass moves items without creating or destroying any.
pub proof fn lemma_fill_pass_conserves(s: Seq<ItemStack>, i: int, end: int, st: ItemStack)
    requires
        0 <= i,
        end <= s.len(),
    ensures
        fill_pass(s, i, end, st).0.len() == s.len(),
        fill_pass(s, i, end, st).1.count <= st.count,
        total_amount(fill_pass(s, i, end, st).0) + amount(fill_pass(s, i, end, st).1)
            == total_amount(s) + amount(st),
    decreases end - i,
{
    if st.count == 0 || i >= end {
    } else if s[i].spec_is_empty() {
        let moved = if MAX_STACK < st.count { MAX_STACK as int } else { st.count as int };
        let s2 = s.update(i, ItemStack { count: moved as u8, ..st });
        lemma_total_amount_update(s, i, ItemStack { count: moved as u8, ..st });
        lemma_fill_pass_conserves(s2, i + 1, end, ItemStack { count: (st.count - moved) as u8, ..st });
    } else {
        lemma_fill_pass_conserves(s, i + 1, end, st);
    }
}

/// A pass over several slot ranges moves items without creating or
/// destroying any.
pub proof fn lemma_ranges_pass_conserves(
    s: Seq<ItemStack>,
    ranges: Seq<(usize, usize)>,
    k: int,
    st: ItemStack,
    fill: bool,
)
    requires
        0 <= k,
        s.len() == 36,
    ensures
        ranges_pass(s, ranges, k, st, fill).0.len() == 36,
        ranges_pass(s, ranges, k, st, fill).1.count <= st.count,
        total_amount(ranges_pass(s, ranges, k, st, fill).0) + amount(ranges_pass(s, ranges, k, st, fill).1)
            == total_amount(s) + amount(st),
    decreases ranges.len() - k,
{
    if st.count == 0 || k >= ranges.len() {
    } else {
        let lo = clamp36(ranges[k].0);
        let hi = clamp36(ranges[k].1);
        if fill {
            lemma_fill_pass_conserves(s, lo, hi, st);
            let r = fill_pass(s, lo, hi, st);
            lemma_ranges_pass_conserves(r.0, ranges, k + 1, r.1, fill);
        } else {
            lemma_stack_pass_conserves(s, lo, hi, st);
            let r = stack_pass(s, lo, hi, st);
            lemma_ranges_pass_conserves(r.0, ranges, k + 1, r.1, fill);
        }
    }
}

/// Two stacks of the same item and damage.
pub open spec fn same_kind(a: ItemStack, b: ItemStack) -> bool {
    a.item_id == b.item_id && a.damage == b.damage
}

/// A stacking pass over `[i, end)` writes only slots in that range, and
/// only stacks of the kind it carries; with nothing to carry it writes
/// nothing, and over empty slots it finds nothing to top up.
proof fn lemma_stack_pass_frame(s: Seq<ItemStack>, i: int, end: int, st: ItemStack)
    requires
        0 <= i,
        end <= s.len(),
    ensures
        ({
            let r = stack_pass(s, i, end, st);
            &&& r.0.len() == s.len()
            &&& forall|j: int| 0 <= j < s.len() && !(i <= j < end) ==> #[trigger] r.0[j] == s[j]
            &&& forall|j: int| 0 <= j < s.len() ==> #[trigger] r.0[j] == s[j] || same_kind(r.0[j], st)
            &&& r.1 == empty_stack() || same_kind(r.1, st)
            &&& st.count == 0 ==> r.0 == s && r.1 == empty_stack()
            &&& (st.count > 0 && forall|j: int| i <= j < end ==> (#[trigger] s[j]).spec_is_empty()) ==> r.0 == s
                && r.1 == st
        }),
    decreases end - i,
{
    if st.count == 0 || i >= end {
    } else {
        let t = s[i];
        if spec_can_stack_with(t, st) && t.count < MAX_STACK {
            let moved = if MAX_STACK - t.count < st.count { MAX_STACK - t.count } else { st.count as int };
            let s2 = s.update(i, ItemStack { count: (t.count + moved) as u8, ..t });
            let st2 = ItemStack { count: (st.count - moved) as u8, ..st };
            lemma_stack_pass_frame(s2, i + 1, end, st2);
        } else {
            lemma_stack_pass_frame(s, i + 1, end, st);
        }
    }
}

/// A filling pass over `[i, end)` writes only slots in that range, and
/// only stacks of the kind it carries; with nothing to carry it writes
/// nothing.
proof fn lemma_fill_pass_frame(s: Seq<ItemStack>, i: int, end: int, st: ItemStack)
    requires
        0 <= i,
        end <= s.len(),
    ensures
        ({
            let r = fill_pass(s, i, end, st);
            &&& r.0.len() == s.len()
            &&& forall|j: int| 0 <= j < s.len() && !(i <= j < end) ==> #[trigger] r.0[j] == s[j]
            &&& forall|j: int| 0 <= j < s.len() ==> #[trigger] r.0[j] == s[j] || same_kind(r.0[j], st)
            &&& r.1 == empty_stack() || same_kind(r.1, st)
            &&& st.count == 0 ==> r.0 == s && r.1 == empty_stack()
            &&& (i < end && s[i].spec_is_empty() && 0 < st.count <= MAX_STACK) ==> r.0 == s.update(i, st)
                && r.1 == empty_stack()
        }),
    decreases end - i,
{
    if st.count == 0 || i >= end {
    } else if s[i].spec_is_empty() {
        let moved = if MAX_STACK < st.count { MAX_STACK as int } else { st.count as int };
        let s2 = s.update(i, ItemStack { count: moved as u8, ..st });
        let st2 = ItemStack { count: (st.count - moved) as u8, ..st };
        lemma_fill_pass_frame(s2, i + 1, end, st2);
        if st.count <= MAX_STACK {
            assert(ItemStack { count: moved as u8, ..st } == st);
        }
    } else {
        lemma_fill_pass_frame(s, i + 1, end, st);
    }
}

/// A pass over the single range `[lo, hi)` behaves as the pass itself.
proof fn lemma_single_range_pass(s: Seq<ItemStack>, lo: usize, hi: usize, st: ItemStack, fill: bool)
    requires
        s.len() == 36,
        lo <= hi <= 36,
    ensures
        ranges_pass(s, seq![(lo, hi)], 0, st, fill) == (if st.count == 0 {
            (s, empty_stack())
        } else {
            let r = if fill {
                fill_pass(s, lo as int, hi as int, st)
            } else {
                stack_pass(s, lo as int, hi as int, st)
            };
            if r.1.count == 0 {
                (r.0, empty_stack())
            } else {
                r
            }
        }),
{
    let rs = seq![(lo, hi)];
    assert(rs.len() == 1 && rs[0] == (lo, hi));
    assert(clamp36(lo) == lo as int && clamp36(hi) == hi as int);
    if st.count != 0 {
        let r = if fill {
            fill_pass(s, lo as int, hi as int, st)
        } else {
            stack_pass(s, lo as int, hi as int, st)
        };
        assert(ranges_pass(s, rs, 0, st, fill) == ranges_pass(r.0, rs, 1, r.1, fill));
        assert(ranges_pass(r.0, rs, 1, r.1, fill) == (if r.1.count == 0 {
            (r.0, empty_stack())
        } else {
            r
        }));
    }
}

/// Shift-moving local slot `local` into the slot range `[lo, hi)` that
/// does not hold it: only the slots change, and the slot loses its NBT;
/// slots outside the range keep their stacks; slots in the range, and the
/// clicked slot, end up unchanged or holding the moved kind of item; no
/// item is created or lost (for a stack of at most 64); and into a range
/// of empty slots the whole stack moves to the range's first slot,
/// leaving the clicked slot empty.
proof fn lemma_move_to_single_range(m: InventoryModel, local: usize, lo: usize, hi: usize)
    requires
        m.wf(),
        local < 36,
        lo <= hi <= 36,
        !(lo <= local < hi),
    ensures
        ({
            let m2 = m.move_player_slot_to_ranges(local, seq![(lo, hi)]);
            let x = m.slots[local as int];
            &&& m2 == (InventoryModel { slots: m2.slots, slot_meta: m.slot_meta.update(local as int, None), ..m })
            &&& m2.slots.len() == 36
            &&& forall|j: int| 0 <= j < 36 && !(lo <= j < hi) && j != local ==> #[trigger] m2.slots[j] == m.slots[j]
            &&& forall|j: int| lo <= j < hi ==> #[trigger] m2.slots[j] == m.slots[j] || same_kind(m2.slots[j], x)
            &&& m2.slots[local as int] == empty_stack() || same_kind(m2.slots[local as int], x)
            &&& x.count <= MAX_STACK ==> total_amount(m2.slots) == total_amount(m.slots)
            &&& (lo < hi && !x.spec_is_empty() && forall|j: int| lo <= j < hi ==> (#[trigger] m.slots[j]).spec_is_empty())
                ==> m2.slots[local as int] == empty_stack() && m2.slots[lo as int] == spec_normalized(x)
        }),
{
    let rs = seq![(lo, hi)];
    let x = m.slots[local as int];
    let s1 = m.slots.update(local as int, empty_stack());
    let st = spec_normalized(x);
    let r = spec_merge_into_ranges(s1, rs, x);
    lemma_merge_into_ranges_conserves(s1, rs, x);
    lemma_total_amount_update(m.slots, local as int, empty_stack());
    if !st.spec_is_empty() {
        lemma_single_range_pass(s1, lo, hi, st, false);
        lemma_stack_pass_frame(s1, lo as int, hi as int, st);
        let a = ranges_pass(s1, rs, 0, st, false);
        lemma_single_range_pass(a.0, lo, hi, a.1, true);
        lemma_fill_pass_frame(a.0, lo as int, hi as int, a.1);
        let b = ranges_pass(a.0, rs, 0, a.1, true);
        assert(r == (b.0, spec_normalized(b.1)));
        if lo < hi && forall|j: int| lo <= j < hi ==> (#[trigger] m.slots[j]).spec_is_empty() {
            assert forall|j: int| lo <= j < hi implies (#[trigger] s1[j]).spec_is_empty() by {
                assert(s1[j] == m.slots[j]);
            }
            assert(a.0 == s1 && a.1 == st);
            assert(b.0 == s1.update(lo as int, st));
            assert(b.1 == empty_stack());
        }
    }
    assert(r.0[local as int] == s1[local as int]);
    lemma_total_amount_update(r.0, local as int, r.1);
    let m2 = m.move_player_slot_to_ranges(local, rs);
    assert(m2 =~= (InventoryModel { slots: m2.slots, slot_meta: m.slot_meta.update(local as int, None), ..m }));
}

/// Shift-clicking a hotbar slot (protocol slots 36..=44) in the player
/// window moves its stack into the main inventory (local slots 9..=35):
/// only the slots change, the other hotbar slots keep their stacks, main
/// slots change only to stacks of the moved item, no item is created or
/// lost (for a stack of at most 64), and with an empty main inventory the
/// whole stack lands in slot 9 and the hotbar slot is left empty.
pub proof fn lemma_shift_click_hotbar_moves_to_main(m: InventoryModel, p: i16)
    requires
        m.wf(),
        36 <= p <= 44,
    ensures
        ({
            let m2 = m.shift_click_player_window_slot(p);
            let local = p - 36;
            let x = m.slots[local];
            &&& m2 == (InventoryModel { slots: m2.slots, slot_meta: m.slot_meta.update(local, None), ..m })
            &&& m2.slots.len() == 36
            &&& forall|j: int| 0 <= j < 9 && j != local ==> #[trigger] m2.slots[j] == m.slots[j]
            &&& forall|j: int| 9 <= j < 36 ==> #[trigger] m2.slots[j] == m.slots[j] || same_kind(m2.slots[j], x)
            &&& m2.slots[local] == empty_stack() || same_kind(m2.slots[local], x)
            &&& x.count <= 64 ==> total_amount(m2.slots) == total_amount(m.slots)
            &&& (!x.spec_is_empty() && forall|j: int| 9 <= j < 36 ==> (#[trigger] m.slots[j]).spec_is_empty())
                ==> m2.slots[local] == empty_stack() && m2.slots[9] == spec_normalized(x)
        }),
{
    lemma_move_to_single_range(m, (p - 36) as usize, 9, 36);
}

/// Shift-clicking a main-inventory slot (protocol slots 9..=35) in the
/// player window moves its stack into the hotbar (local slots 0..=8):
/// only the slots change, the other main slots keep their stacks, hotbar
/// slots change only to stacks of the moved item, no item is created or
/// lost (for a stack of at most 64), and with an empty hotbar the whole
/// stack lands in hotbar slot 0 and the clicked slot is left empty.
pub proof fn lemma_shift_click_main_moves_to_hotbar(m: InventoryModel, p: i16)
    requires
        m.wf(),
        9 <= p <= 35,
    ensures
        ({
            let m2 = m.shift_click_player_window_slot(p);
            let x = m.slots[p as int];
            &&& m2 == (InventoryModel { slots: m2.slots, slot_meta: m.slot_meta.update(p as int, None), ..m })
            &&& m2.slots.len() == 36
            &&& forall|j: int| 9 <= j < 36 && j != p ==> #[trigger] m2.slots[j] == m.slots[j]
            &&& forall|j: int| 0 <= j < 9 ==> #[trigger] m2.slots[j] == m.slots[j] || same_kind(m2.slots[j], x)
            &&& m2.slots[p as int] == empty_stack() || same_kind(m2.slots[p as int], x)
            &&& x.count <= 64 ==> total_amount(m2.slots) == total_amount(m.slots)
            &&& (!x.spec_is_empty() && forall|j: int| 0 <= j < 9 ==> (#[trigger] m.slots[j]).spec_is_empty())
                ==> m2.slots[p as int] == empty_stack() && m2.slots[0] == spec_normalized(x)
        }),
{
    lemma_move_to_single_range(m, p as usize, 0, 9);
}

/// Shift-clicking an armor slot (protocol 5..=8) or a crafting slot
/// (0..=4) in the player window moves its stack into the slots (main
/// inventory, then hotbar): only the slots and that one armor or crafting
/// slot change, it keeps just the leftover and loses its NBT, and no item
/// is created or lost (for a stack of at most 64).
pub proof fn lemma_shift_click_armor_or_crafting_keeps_items(m: InventoryModel, p: i16)
    requires
        m.wf(),
        0 <= p <= 8,
    ensures
        ({
            let m2 = m.shift_click_player_window_slot(p);
            &&& 5 <= p ==> {
                let idx = p - 5;
                &&& m2 == (InventoryModel {
                    slots: m2.slots,
                    armor: m.armor.update(idx, m2.armor[idx]),
                    armor_meta: m.armor_meta.update(idx, None),
                    ..m
                })
                &&& m.armor[idx].count <= 64 ==> total_amount(m2.slots) + amount(m2.armor[idx]) == total_amount(
                    m.slots,
                ) + amount(m.armor[idx])
            }
            &&& p < 5 ==> {
                &&& m2 == (InventoryModel {
                    slots: m2.slots,
                    crafting: m.crafting.update(p as int, m2.crafting[p as int]),
                    crafting_meta: m.crafting_meta.update(p as int, None),
                    ..m
                })
                &&& m.crafting[p as int].count <= 64 ==> total_amount(m2.slots) + amount(m2.crafting[p as int])
                    == total_amount(m.slots) + amount(m.crafting[p as int])
            }
        }),
{
    let m2 = m.shift_click_player_window_slot(p);
    if 5 <= p {
        let idx = p - 5;
        lemma_merge_into_ranges_conserves(m.slots, main_then_hotbar(), m.armor[idx]);
        assert(m2.armor[idx] == spec_merge_into_ranges(m.slots, main_then_hotbar(), m.armor[idx]).1);
        assert(m2 =~= (InventoryModel {
            slots: m2.slots,
            armor: m.armor.update(idx, m2.armor[idx]),
            armor_meta: m.armor_meta.update(idx, None),
            ..m
        }));
    } else {
        lemma_merge_into_ranges_conserves(m.slots, main_then_hotbar(), m.crafting[p as int]);
        assert(m2.crafting[p as int] == spec_merge_into_ranges(m.slots, main_then_hotbar(), m.crafting[p as int]).1);
        assert(m2 =~= (InventoryModel {
            slots: m2.slots,
            crafting: m.crafting.update(p as int, m2.crafting[p as int]),
            crafting_meta: m.crafting_meta.update(p as int, None),
            ..m
        }));
    }
}

/// Merging a stack into the inventory slots keeps every item: the slots
/// gain exactly what the (capped) stack loses.
pub proof fn lemma_merge_into_ranges_conserves(s: Seq<ItemStack>, ranges: Seq<(usize, usize)>, stack: ItemStack)
    requires
        s.len() == 36,
    ensures
        spec_merge_into_ranges(s, ranges, stack).0.len() == 36,
        total_amount(spec_merge_into_ranges(s, ranges, stack).0) + amount(spec_merge_into_ranges(s, ranges, stack).1)
            == total_amount(s) + amount(spec_normalized(stack)),
{
    let st = spec_normalized(stack);
    if !st.spec_is_empty() {
        lemma_ranges_pass_conserves(s, ranges, 0, st, false);
        let a = ranges_pass(s, ranges, 0, st, false);
        lemma_ranges_pass_conserves(a.0, ranges, 0, a.1, true);
    }
}

/// Merging a stack into an open window keeps every item.
pub proof fn lemma_merge_into_window_conserves(w: Seq<ItemStack>, stack: ItemStack)
    ensures
        spec_merge_into_window(w, stack).0.len() == w.len(),
        total_amount(spec_merge_into_window(w, stack).0) + amount(spec_merge_into_window(w, stack).1)
            == total_amount(w) + amount(spec_normalized(stack)),
{
    let st = spec_normalized(stack);
    if !(st.spec_is_empty() || w.len() == 0) {
        lemma_stack_pass_conserves(w, 0, w.len() as int, st);
        let a = stack_pass(w, 0, w.len() as int, st);
        lemma_fill_pass_conserves(a.0, 0, w.len() as int, a.1);
    }
}


fn stack_pass_slots(slots: &mut [ItemStack; 36], start: usize, end: usize, stack: &mut ItemStack)
    requires
        end <= 36,
    ensures
        (final(slots)@, *final(stack)) == stack_pass(old(slots)@, start as int, end as int, *old(stack)),
{
    let mut idx = start;
    while idx < end
        invariant
            end <= 36,
            stack_pass(slots@, idx as int, end as int, *stack) == stack_pass(
                old(slots)@,
                start as int,
                end as int,
                *old(stack),
            ),
        decreases end - idx,
    {
        if stack.count == 0 {
            *stack = ItemStack::empty();
            return;
        }
        let target = slots[idx];
        if target.can_stack_with(stack) && target.count < target.max_stack() {
            let space = target.max_stack() - target.count;
            let moved = if space < stack.count { space } else { stack.count };
            slots[idx] = ItemStack { count: target.count + moved, ..target };
            stack.count = stack.count - moved;
        }
        idx = idx + 1;
    }
    if stack.count == 0 {
        *stack = ItemStack::empty();
    }
}

fn fill_pass_slots(slots: &mut [ItemStack; 36], start: usize, end: usize, stack: &mut ItemStack)
    requires
        end <= 36,
    ensures
        (final(slots)@, *final(stack)) == fill_pass(old(slots)@, start as int, end as int, *old(stack)),
{
    let mut idx = start;
    while idx < end
        invariant
            end <= 36,
            fill_pass(slots@, idx as int, end as int, *stack) == fill_pass(
                old(slots)@,
                start as int,
                end as int,
                *old(stack),
            ),
        decreases end - idx,
    {
        if stack.count == 0 {
            *stack = ItemStack::empty();
            return;
        }
        if slots[idx].is_empty() {
            let moved = if stack.max_stack() < stack.count { stack.max_stack() } else { stack.count };
            slots[idx] = ItemStack { count: moved, ..*stack };
            stack.count = stack.count - moved;
        }
        idx = idx + 1;
    }
    if stack.count == 0 {
        *stack = ItemStack::empty();
    }
}

fn stack_pass_window(slots: &mut Vec<ItemStack>, stack: &mut ItemStack)
    ensures
        (final(slots)@, *final(stack)) == stack_pass(old(slots)@, 0, old(slots)@.len() as int, *old(stack)),
{
    let end = slots.len();
    let mut idx: usize = 0;
    while idx < end
        invariant
            end == slots@.len(),
            end == old(slots)@.len(),
            stack_pass(slots@, idx as int, end as int, *stack) == stack_pass(
                old(slots)@,
                0,
                end as int,
                *old(stack),
            ),
        decreases end - idx,
    {
        if stack.count == 0 {
            *stack = ItemStack::empty();
            return;
        }
        let target = slots[idx];
        if target.can_stack_with(stack) && target.count < target.max_stack() {
            let space = target.max_stack() - target.count;
            let moved = if space < stack.count { space } else { stack.count };
            slots.set(idx, ItemStack { count: target.count + moved, ..target });
            stack.count = stack.count - moved;
        }
        idx = idx + 1;
    }
    if stack.count == 0 {
        *stack = ItemStack::empty();
    }
}

fn fill_pass_window(slots: &mut Vec<ItemStack>, stack: &mut ItemStack)
    ensures
        (final(slots)@, *final(stack)) == fill_pass(old(slots)@, 0, old(slots)@.len() as int, *old(stack)),
{
    let end = slots.len();
    let mut idx: usize = 0;
    while idx < end
        invariant
            end == slots@.len(),
            end == old(slots)@.len(),
            fill_pass(slots@, idx as int, end as int, *stack) == fill_pass(
                old(slots)@,
                0,
                end as int,
                *old(stack),
            ),
        decreases end - idx,
    {
        if stack.count == 0 {
            *stack = ItemStack::empty();
            return;
        }
        if slots[idx].is_empty() {
            let moved = if stack.max_stack() < stack.count { stack.max_stack() } else { stack.count };
            slots.set(idx, ItemStack { count: moved, ..*stack });
            stack.count = stack.count - moved;
        }
        idx = idx + 1;
    }
    if stack.count == 0 {
        *stack = ItemStack::empty();
    }
}

fn ranges_pass_slots(slots: &mut [ItemStack; 36], ranges: &[(usize, usize)], stack: &mut ItemStack, fill: bool)
    ensures
        (final(slots)@, *final(stack)) == ranges_pass(old(slots)@, ranges@, 0, *old(stack), fill),
{
    let mut k: usize = 0;
    while k < ranges.len()
        invariant
            ranges_pass(slots@, ranges@, k as int, *stack, fill) == ranges_pass(
                old(slots)@,
                ranges@,
                0,
                *old(stack),
                fill,
            ),
        decreases ranges.len() - k,
    {
        if stack.count == 0 {
            *stack = ItemStack::empty();
            return;
        }
        let (start, end) = ranges[k];
        let lo = if start < 36 { start } else { 36 };
        let hi = if end < 36 { end } else { 36 };
        if fill {
            fill_pass_slots(slots, lo, hi, stack);
        } else {
            stack_pass_slots(slots, lo, hi, stack);
        }
        k = k + 1;
    }
    if stack.count == 0 {
        *stack = ItemStack::empty();
    }
}

/// Merges `stack` into the slot ranges (see `spec_merge_into_ranges`) and
/// returns what is left.
fn merge_into_slot_ranges(slots: &mut [ItemStack; 36], stack: ItemStack, ranges: &[(usize, usize)]) -> (r: ItemStack)
    ensures
        (final(slots)@, r) == spec_merge_into_ranges(old(slots)@, ranges@, stack),
{
    let mut stack = stack.normalized();
    if stack.is_empty() {
        return ItemStack::empty();
    }
    ranges_pass_slots(slots, ranges, &mut stack, false);
    ranges_pass_slots(slots, ranges, &mut stack, true);
    stack.normalized()
}


/// Hotbar and main-inventory ranges used by shift clicks.
pub open spec fn main_range() -> Seq<(usize, usize)> {
    seq![(9usize, 36usize)]
}

/// The hotbar slots.
pub open spec fn hotbar_range() -> Seq<(usize, usize)> {
    seq![(0usize, 9usize)]
}

/// The main inventory slots, then the hotbar.
pub open spec fn main_then_hotbar() -> Seq<(usize, usize)> {
    seq![(9usize, 36usize), (0usize, 9usize)]
}

/// All 36 slots in order.
pub open spec fn all_slots_range() -> Seq<(usize, usize)> {
    seq![(0usize, 36usize)]
}

impl InventoryModel {
    /// Moving local slot `local` into the slot ranges: the slot is emptied
    /// (and loses its NBT), its stack merged, and the leftover put back.
    pub open spec fn move_player_slot_to_ranges(self, local: usize, ranges: Seq<(usize, usize)>) -> InventoryModel {
        if local >= 36 {
            self
        } else {
            let r = spec_merge_into_ranges(self.slots.update(local as int, empty_stack()), ranges, self.slots[local as int]);
            InventoryModel {
                slots: r.0.update(local as int, r.1),
                slot_meta: self.slot_meta.update(local as int, None),
                ..self
            }
        }
    }

    /// Shift click in the player window: hotbar to main inventory, main
    /// inventory to hotbar, armor and crafting slots to main then hotbar.
    pub open spec fn shift_click_player_window_slot(self, p: i16) -> InventoryModel {
        if 36 <= p <= 44 {
            self.move_player_slot_to_ranges((p - 36) as usize, main_range())
        } else if 9 <= p <= 35 {
            self.move_player_slot_to_ranges(p as usize, hotbar_range())
        } else if 5 <= p <= 8 {
            let idx = (p - 5) as int;
            let r = spec_merge_into_ranges(self.slots, main_then_hotbar(), self.armor[idx]);
            InventoryModel {
                slots: r.0,
                armor: self.armor.update(idx, r.1),
                armor_meta: self.armor_meta.update(idx, None),
                ..self
            }
        } else if 0 <= p <= 4 {
            let idx = p as int;
            let r = spec_merge_into_ranges(self.slots, main_then_hotbar(), self.crafting[idx]);
            InventoryModel {
                slots: r.0,
                crafting: self.crafting.update(idx, r.1),
                crafting_meta: self.crafting_meta.update(idx, None),
                ..self
            }
        } else {
            self
        }
    }

    /// Shift click with a server window open: window slots go to the
    /// player's main inventory then hotbar, player slots into the window.
    pub open spec fn shift_click_open_window_slot(self, p: i16) -> InventoryModel {
        if 0 <= p && (p as usize) < self.open_window_slot_count {
            let idx = p as int;
            let r = spec_merge_into_ranges(self.slots, main_then_hotbar(), self.open_window_slots[idx]);
            InventoryModel {
                slots: r.0,
                open_window_slots: self.open_window_slots.update(idx, r.1),
                open_window_slot_meta: self.open_window_slot_meta.update(idx, None),
                ..self
            }
        } else {
            match self.local_index_for_open_window_slot(p) {
                Some(local) => {
                    let r = spec_merge_into_window(self.open_window_slots, self.slots[local as int]);
                    InventoryModel {
                        slots: self.slots.update(local as int, r.1),
                        slot_meta: self.slot_meta.update(local as int, None),
                        open_window_slots: r.0,
                        ..self
                    }
                },
                None => self,
            }
        }
    }

    /// The inventory after a shift click on protocol slot `p`.
    pub open spec fn shift_click(self, p: i16) -> InventoryModel {
        if self.open_window_id == 0 {
            self.shift_click_player_window_slot(p)
        } else {
            self.shift_click_open_window_slot(p)
        }
    }
}

impl Inventory {
    /// Adds a stack (count capped at 64): tops up matching stacks first,
    /// then fills empty slots.  Returns the count that did not fit.
    pub fn add_item(&mut self, stack: ItemStack) -> (leftover: u8)
        requires
            old(self)@.wf(),
        ensures
            final(self)@.wf(),
            final(self)@ == (InventoryModel {
                slots: spec_merge_into_ranges(old(self)@.slots, all_slots_range(), stack).0,
                ..old(self)@
            }),
            leftover == spec_merge_into_ranges(old(self)@.slots, all_slots_range(), stack).1.count,
    {
        let ranges_arr: [(usize, usize); 1] = [(0, 36)];
        let ranges = ranges_arr.as_slice();
        assert(ranges@ =~= all_slots_range());
        let left = merge_into_slot_ranges(&mut self.slots, stack, ranges);
        left.count
    }

    fn merge_into_player_ranges(&mut self, stack: ItemStack, ranges: &[(usize, usize)]) -> (r: ItemStack)
        requires
            old(self)@.wf(),
        ensures
            final(self)@.wf(),
            final(self)@ == (InventoryModel {
                slots: spec_merge_into_ranges(old(self)@.slots, ranges@, stack).0,
                ..old(self)@
            }),
            r == spec_merge_into_ranges(old(self)@.slots, ranges@, stack).1,
    {
        merge_into_slot_ranges(&mut self.slots, stack, ranges)
    }

    fn merge_into_open_window(&mut self, old_stack: ItemStack) -> (r: ItemStack)
        requires
            old(self)@.wf(),
        ensures
            final(self)@.wf(),
            final(self)@ == (InventoryModel {
                open_window_slots: spec_merge_into_window(old(self)@.open_window_slots, old_stack).0,
                ..old(self)@
            }),
            r == spec_merge_into_window(old(self)@.open_window_slots, old_stack).1,
    {
        let mut stack = old_stack.normalized();
        if stack.is_empty() || self.open_window_slots.len() == 0 {
            return stack;
        }
        let ghost st0 = stack;
        let ghost w0 = self.open_window_slots@;
        stack_pass_window(&mut self.open_window_slots, &mut stack);
        let ghost st1 = stack;
        let ghost w1 = self.open_window_slots@;
        fill_pass_window(&mut self.open_window_slots, &mut stack);
        proof {
            lemma_stack_pass_conserves(w0, 0, w0.len() as int, st0);
            lemma_fill_pass_conserves(w1, 0, w1.len() as int, st1);
        }
        let r = stack.normalized();
        assert(self@ =~= (InventoryModel {
            open_window_slots: spec_merge_into_window(old(self)@.open_window_slots, old_stack).0,
            ..old(self)@
        }));
        r
    }

    fn move_player_slot_to_ranges(&mut self, local: usize, ranges: &[(usize, usize)])
        requires
            old(self)@.wf(),
        ensures
            final(self)@.wf(),
            final(self)@ == old(self)@.move_player_slot_to_ranges(local, ranges@),
    {
        if local >= 36 {
            return;
        }
        let ghost m0 = self.slot_meta@;
        let stack = self.slots[local];
        self.slots[local] = ItemStack::empty();
        self.slot_meta[local] = ItemStackMeta::none();
        proof {
            lemma_metas_update(m0, local as int, ItemStackMeta { nbt: None });
        }
        let left = self.merge_into_player_ranges(stack, ranges);
        proof {
            lemma_merge_into_ranges_conserves(old(self)@.slots.update(local as int, empty_stack()), ranges@, stack);
        }
        self.slots[local] = left;
        assert(self@ =~= old(self)@.move_player_slot_to_ranges(local, ranges@));
    }
}


impl Inventory {
    fn shift_click_player_window_slot(&mut self, protocol_slot: i16)
        requires
            old(self)@.wf(),
        ensures
            final(self)@.wf(),
            final(self)@ == old(self)@.shift_click_player_window_slot(protocol_slot),
    {
        let main_arr: [(usize, usize); 1] = [(9, 36)];
        let hotbar_arr: [(usize, usize); 1] = [(0, 9)];
        let both_arr: [(usize, usize); 2] = [(9, 36), (0, 9)];
        let main = main_arr.as_slice();
        let hotbar = hotbar_arr.as_slice();
        let both = both_arr.as_slice();
        assert(main@ =~= main_range());
        assert(hotbar@ =~= hotbar_range());
        assert(both@ =~= main_then_hotbar());
        match protocol_slot {
            36..=44 => {
                let local = (protocol_slot - 36) as usize;
                self.move_player_slot_to_ranges(local, main);
            },
            9..=35 => {
                let local = protocol_slot as usize;
                self.move_player_slot_to_ranges(local, hotbar);
            },
            5..=8 => {
                let idx = (protocol_slot - 5) as usize;
                let ghost m0 = self.armor_meta@;
                let stack = self.armor[idx];
                self.armor[idx] = ItemStack::empty();
                self.armor_meta[idx] = ItemStackMeta::none();
                proof {
                    lemma_metas_update(m0, idx as int, ItemStackMeta { nbt: None });
                    lemma_merge_into_ranges_conserves(self.slots@, main_then_hotbar(), stack);
                }
                let left = self.merge_into_player_ranges(stack, both);
                self.armor[idx] = left;
                assert(self@ =~= old(self)@.shift_click_player_window_slot(protocol_slot));
            },
            0..=4 => {
                let idx = protocol_slot as usize;
                let ghost m0 = self.crafting_meta@;
                let stack = self.crafting[idx];
                self.crafting[idx] = ItemStack::empty();
                self.crafting_meta[idx] = ItemStackMeta::none();
                proof {
                    lemma_metas_update(m0, idx as int, ItemStackMeta { nbt: None });
                    lemma_merge_into_ranges_conserves(self.slots@, main_then_hotbar(), stack);
                }
                let left = self.merge_into_player_ranges(stack, both);
                self.crafting[idx] = left;
                assert(self@ =~= old(self)@.shift_click_player_window_slot(protocol_slot));
            },
            _ => {},
        }
    }

    fn shift_click_open_window_slot(&mut self, protocol_slot: i16)
        requires
            old(self)@.wf(),
            old(self)@.open_offset_ok(protocol_slot),
        ensures
            final(self)@.wf(),
            final(self)@ == old(self)@.shift_click_open_window_slot(protocol_slot),
    {
        if protocol_slot >= 0 && (protocol_slot as usize) < self.open_window_slot_count {
            let idx = protocol_slot as usize;
            let ghost m0 = self.open_window_slot_meta@;
            let stack = self.open_window_slots[idx];
            self.open_window_slots.set(idx, ItemStack::empty());
            self.open_window_slot_meta.set(idx, ItemStackMeta::none());
            proof {
                lemma_metas_update(m0, idx as int, ItemStackMeta { nbt: None });
            }
            let both_arr: [(usize, usize); 2] = [(9, 36), (0, 9)];
            let both = both_arr.as_slice();
            assert(both@ =~= main_then_hotbar());
            let left = self.merge_into_player_ranges(stack, both);
            self.open_window_slots.set(idx, left);
            assert(self@ =~= old(self)@.shift_click_open_window_slot(protocol_slot));
            return;
        }
        if let Some(local) = self.local_index_for_open_window_slot(protocol_slot) {
            let ghost m0 = self.slot_meta@;
            let stack = self.slots[local];
            self.slots[local] = ItemStack::empty();
            self.slot_meta[local] = ItemStackMeta::none();
            proof {
                lemma_metas_update(m0, local as int, ItemStackMeta { nbt: None });
            }
            let left = self.merge_into_open_window(stack);
            self.slots[local] = left;
            assert(self@ =~= old(self)@.shift_click_open_window_slot(protocol_slot));
        }
    }

    /// Shift click on protocol slot `protocol_slot` of the current window.
    pub fn shift_click_protocol_slot(&mut self, protocol_slot: i16)
        requires
            old(self)@.wf(),
            old(self)@.open_offset_ok(protocol_slot),
        ensures
            final(self)@.wf(),
            final(self)@ == old(self)@.shift_click(protocol_slot),
    {
        if self.open_window_id == 0 {
            self.shift_click_player_window_slot(protocol_slot);
        } else {
            self.shift_click_open_window_slot(protocol_slot);
        }
    }
}


/// Window properties are kept ordered by strictly increasing key.
pub open spec fn properties_sorted(p: Seq<(i16, i16)>) -> bool {
    forall|i: int, j: int| 0 <= i < j < p.len() ==> p[i].0 < p[j].0
}

/// Number of properties whose key is below `key`.
pub open spec fn keys_below(p: Seq<(i16, i16)>, key: i16) -> int
    decreases p.len(),
{
    if p.len() == 0 {
        0
    } else {
        keys_below(p.drop_last(), key) + if p.last().0 < key { 1int } else { 0int }
    }
}

/// Setting window property `key` to `value` in a sorted property list:
/// the entry with that key is updated, or a new one inserted in order.
pub open spec fn spec_set_property(p: Seq<(i16, i16)>, key: i16, value: i16) -> Seq<(i16, i16)> {
    let pos = keys_below(p, key);
    if pos < p.len() && p[pos].0 == key {
        p.update(pos, (key, value))
    } else {
        p.insert(pos, (key, value))
    }
}

/// The stack a wire slot holds.
pub open spec fn spec_stack_from_slot(slot: Slot) -> ItemStack {
    if slot.spec_is_empty() {
        empty_stack()
    } else {
        ItemStack {
            item_id: slot.spec_item_id_u16(),
            count: slot.count,
            damage: if slot.damage < 0 { 0 } else { slot.damage as u16 },
        }
    }
}

impl InventoryModel {
    /// Opening window `id` of type `ty` with `count` advertised slots.
    pub open spec fn set_open_window(self, id: u8, ty: Seq<char>, title: Seq<char>, count: usize) -> InventoryModel {
        let c = spec_effective_container_slot_count(ty, count);
        InventoryModel {
            open_chest_position: if ty == "minecraft:chest"@ { self.pending_chest_position } else { None },
            pending_chest_position: None,
            open_window_id: id,
            open_window_type: ty,
            open_window_title: title,
            open_window_slot_count: c,
            open_window_slots: Seq::new(c as nat, |i: int| empty_stack()),
            open_window_slot_meta: Seq::new(c as nat, |i: int| None),
            open_window_properties: Seq::empty(),
            window_just_opened: id != 0,
            ..self
        }
    }

    /// Closing window `id`: back to the player window when it is the open
    /// one (the open chest position is kept for the closing animation).
    pub open spec fn close_window(self, id: u8) -> InventoryModel {
        if self.open_window_id == id {
            InventoryModel {
                open_window_id: 0,
                open_window_type: "minecraft:container"@,
                open_window_title: "Inventory"@,
                open_window_slot_count: 0,
                open_window_slots: Seq::empty(),
                open_window_slot_meta: Seq::empty(),
                open_window_properties: Seq::empty(),
                window_just_opened: false,
                pending_chest_position: None,
                ..self
            }
        } else {
            self
        }
    }

    /// The inventory after a window property update for window `id`.
    pub open spec fn apply_window_property(self, id: u8, key: i16, value: i16) -> InventoryModel {
        if id != self.open_window_id {
            self
        } else {
            InventoryModel {
                open_window_properties: spec_set_property(self.open_window_properties, key, value),
                ..self
            }
        }
    }

    /// Player-window slot `i` set from a wire slot (stack and NBT).
    pub open spec fn apply_player_window_slot(self, i: i16, slot: Slot) -> InventoryModel {
        self.set_at(spec_player_window_ref(i), spec_stack_from_slot(slot), opt_bytes_view(slot.nbt))
    }

    /// Whether applying slot `idx` of window `wid` stays in `i16` arithmetic.
    pub open spec fn apply_slot_ok(self, wid: i8, idx: i16) -> bool {
        (idx != -1 && wid != 0 && wid >= 0 && wid as u8 == self.open_window_id && !(0 <= idx
            && (idx as usize) < self.open_window_slot_count)) ==> player_offset_fits(
            idx,
            self.open_window_slot_count,
        )
    }

    /// A Set Slot packet: -1 is the cursor; window 0 is the player window;
    /// for the open window, indices past its own slots are player slots.
    pub open spec fn apply_window_slot(self, wid: i8, idx: i16, slot: Slot) -> InventoryModel {
        if idx == -1 {
            InventoryModel { cursor: spec_stack_from_slot(slot), cursor_meta: opt_bytes_view(slot.nbt), ..self }
        } else if wid == 0 {
            self.apply_player_window_slot(idx, slot)
        } else if wid >= 0 && wid as u8 == self.open_window_id {
            if 0 <= idx && (idx as usize) < self.open_window_slot_count {
                self.set_at(SlotRef::Window(idx as usize), spec_stack_from_slot(slot), opt_bytes_view(slot.nbt))
            } else {
                self.apply_player_window_slot((idx - (self.open_window_slot_count as i16) + 9) as i16, slot)
            }
        } else {
            self
        }
    }

    /// Applying the slots `slots[k..]` of a player-window Window Items packet.
    pub open spec fn apply_player_items_from(self, slots: Seq<Slot>, k: int) -> InventoryModel
        decreases slots.len() - k,
    {
        if k < 0 || k >= slots.len() {
            self
        } else {
            self.apply_player_window_slot(k as i16, slots[k]).apply_player_items_from(slots, k + 1)
        }
    }

    /// Applying the slots `slots[k..]` of an open-window Window Items packet.
    pub open spec fn apply_window_items_from(self, wid: i8, slots: Seq<Slot>, k: int) -> InventoryModel
        decreases slots.len() - k,
    {
        if k < 0 || k >= slots.len() {
            self
        } else {
            self.apply_window_slot(wid, k as i16, slots[k]).apply_window_items_from(wid, slots, k + 1)
        }
    }

    /// A Window Items packet.
    pub open spec fn apply_window_items(self, wid: u8, slots: Seq<Slot>) -> InventoryModel {
        if wid == 0 {
            self.apply_player_items_from(slots, 0)
        } else if wid == self.open_window_id {
            self.apply_window_items_from(wid as i8, slots, 0)
        } else {
            self
        }
    }
}


/// Whether some property in `p` has key `key`.
pub open spec fn has_property_key(p: Seq<(i16, i16)>, key: i16) -> bool {
    exists|i: int| 0 <= i < p.len() && #[trigger] p[i].0 == key
}

/// A Window Property packet for another window changes nothing. For the
/// open window it sets one entry of the property map: the keys stay
/// strictly increasing, the keys are the old ones plus `key`, `key` now
/// holds `value`, every other (key, value) entry is kept, and the rest of
/// the inventory is unchanged.
pub proof fn lemma_window_property_update(m: InventoryModel, id: u8, key: i16, value: i16)
    requires
        properties_sorted(m.open_window_properties),
    ensures
        id != m.open_window_id ==> m.apply_window_property(id, key, value) == m,
        id == m.open_window_id ==> ({
            let p = m.open_window_properties;
            let q = m.apply_window_property(id, key, value).open_window_properties;
            &&& m.apply_window_property(id, key, value) == (InventoryModel { open_window_properties: q, ..m })
            &&& properties_sorted(q)
            &&& q.contains((key, value))
            &&& forall|k: i16| has_property_key(q, k) <==> (k == key || has_property_key(p, k))
            &&& forall|e: (i16, i16)| e.0 != key ==> (q.contains(e) <==> p.contains(e))
        }),
{
    if id == m.open_window_id {
        let p = m.open_window_properties;
        let q = spec_set_property(p, key, value);
        lemma_keys_below_split(p, key);
        let pos = keys_below(p, key);
        if pos < p.len() && p[pos].0 == key {
            assert(q == p.update(pos, (key, value)));
            assert(q[pos] == (key, value));
            assert forall|k: i16| has_property_key(q, k) <==> (k == key || has_property_key(p, k)) by {
                if has_property_key(q, k) {
                    let i = choose|i: int| 0 <= i < q.len() && #[trigger] q[i].0 == k;
                    if i != pos {
                        assert(p[i].0 == k);
                    }
                }
                if k == key {
                    assert(q[pos].0 == k);
                } else if has_property_key(p, k) {
                    let i = choose|i: int| 0 <= i < p.len() && #[trigger] p[i].0 == k;
                    assert(q[i].0 == k);
                }
            }
            assert forall|e: (i16, i16)| e.0 != key implies (q.contains(e) <==> p.contains(e)) by {
                if q.contains(e) {
                    let i = choose|i: int| 0 <= i < q.len() && q[i] == e;
                    assert(i != pos);
                    assert(p[i] == e);
                }
                if p.contains(e) {
                    let i = choose|i: int| 0 <= i < p.len() && p[i] == e;
                    assert(i != pos);
                    assert(q[i] == e);
                }
            }
        } else {
            assert(q == p.insert(pos, (key, value)));
            assert(q[pos] == (key, value));
            assert forall|i: int, j: int| 0 <= i < j < q.len() implies q[i].0 < q[j].0 by {
                if j < pos {
                    assert(q[i] == p[i] && q[j] == p[j]);
                } else if j == pos {
                    assert(q[i] == p[i]);
                } else if i < pos {
                    assert(q[i] == p[i] && q[j] == p[j - 1]);
                } else if i == pos {
                    assert(q[j] == p[j - 1]);
                    assert(p[j - 1].0 >= key);
                    if j - 1 == pos {
                        assert(p[pos].0 > key);
                    } else {
                        assert(p[pos].0 < p[j - 1].0);
                    }
                } else {
                    assert(q[i] == p[i - 1] && q[j] == p[j - 1]);
                }
            }
            assert forall|k: i16| has_property_key(q, k) <==> (k == key || has_property_key(p, k)) by {
                if has_property_key(q, k) {
                    let i = choose|i: int| 0 <= i < q.len() && #[trigger] q[i].0 == k;
                    if i < pos {
                        assert(p[i].0 == k);
                    } else if i > pos {
                        assert(p[i - 1].0 == k);
                    }
                }
                if k == key {
                    assert(q[pos].0 == k);
                } else if has_property_key(p, k) {
                    let i = choose|i: int| 0 <= i < p.len() && #[trigger] p[i].0 == k;
                    if i < pos {
                        assert(q[i].0 == k);
                    } else {
                        assert(q[i + 1].0 == k);
                    }
                }
            }
            assert forall|e: (i16, i16)| e.0 != key implies (q.contains(e) <==> p.contains(e)) by {
                if q.contains(e) {
                    let i = choose|i: int| 0 <= i < q.len() && q[i] == e;
                    if i < pos {
                        assert(p[i] == e);
                    } else {
                        assert(i != pos);
                        assert(p[i - 1] == e);
                    }
                }
                if p.contains(e) {
                    let i = choose|i: int| 0 <= i < p.len() && p[i] == e;
                    if i < pos {
                        assert(q[i] == e);
                    } else {
                        assert(q[i + 1] == e);
                    }
                }
            }
        }
        assert(m.apply_window_property(id, key, value) =~= (InventoryModel { open_window_properties: q, ..m }));
    }
}

/// In a sorted property list, the keys below `key` come first.
pub proof fn lemma_keys_below_split(p: Seq<(i16, i16)>, key: i16)
    requires
        properties_sorted(p),
    ensures
        0 <= keys_below(p, key) <= p.len(),
        forall|i: int| 0 <= i < keys_below(p, key) ==> p[i].0 < key,
        forall|i: int| keys_below(p, key) <= i < p.len() ==> p[i].0 >= key,
    decreases p.len(),
{
    if p.len() > 0 {
        let q = p.drop_last();
        assert(properties_sorted(q));
        lemma_keys_below_split(q, key);
        let kq = keys_below(q, key);
        assert(forall|i: int| 0 <= i < q.len() ==> p[i] == q[i]);
        if p.last().0 < key {
            if kq < q.len() {
                assert(q[kq].0 >= key);
                assert(p[kq].0 < p[p.len() - 1].0);
            }
            assert(kq == q.len());
            assert(keys_below(p, key) == p.len());
        } else {
            assert(keys_below(p, key) == kq);
        }
    }
}

impl Inventory {
    /// Opens window `window_id`; special containers that advertise zero
    /// slots get their locally built slot count.  A chest window takes the
    /// pending chest position.
    pub fn set_open_window(&mut self, window_id: u8, window_type: String, title: String, slot_count: usize)
        requires
            old(self)@.wf(),
        ensures
            final(self)@.wf(),
            final(self)@ == old(self)@.set_open_window(window_id, window_type@, title@, slot_count),
    {
        let ghost ty = window_type@;
        let ghost ti = title@;
        let count = effective_container_slot_count(window_type.as_str(), slot_count);
        proof {
            reveal_strlit("minecraft:chest");
        }
        if crate::text::str_eq(window_type.as_str(), "minecraft:chest") {
            self.open_chest_position = self.pending_chest_position.take();
        } else {
            self.pending_chest_position = None;
            self.open_chest_position = None;
        }
        self.open_window_id = window_id;
        self.open_window_type = window_type;
        self.open_window_title = title;
        self.open_window_slot_count = count;
        let mut stacks: Vec<ItemStack> = Vec::new();
        let mut metas: Vec<ItemStackMeta> = Vec::new();
        let mut i: usize = 0;
        while i < count
            invariant
                i <= count,
                stacks@ =~= Seq::new(i as nat, |j: int| empty_stack()),
                metas_view(metas@) =~= Seq::new(i as nat, |j: int| None::<Seq<u8>>),
                metas@.len() == i,
            decreases count - i,
        {
            stacks.push(ItemStack::empty());
            let ghost m0 = metas@;
            metas.push(ItemStackMeta::none());
            proof {
                lemma_metas_push(m0, ItemStackMeta { nbt: None });
            }
            i = i + 1;
        }
        self.open_window_slots = stacks;
        self.open_window_slot_meta = metas;
        self.open_window_properties = Vec::new();
        self.window_just_opened = window_id != 0;
        assert(self@ =~= old(self)@.set_open_window(window_id, ty, ti, slot_count));
    }
}


impl Inventory {
    /// Closes window `window_id` if it is the open one.
    pub fn close_window(&mut self, window_id: u8)
        requires
            old(self)@.wf(),
        ensures
            final(self)@.wf(),
            final(self)@ == old(self)@.close_window(window_id),
    {
        if self.open_window_id == window_id {
            self.open_window_id = 0;
            self.open_window_type = String::from_str("minecraft:container");
            self.open_window_title = String::from_str("Inventory");
            self.open_window_slot_count = 0;
            self.open_window_slots.clear();
            self.open_window_slot_meta.clear();
            self.open_window_properties.clear();
            self.window_just_opened = false;
            self.pending_chest_position = None;
            assert(metas_view(self.open_window_slot_meta@) =~= Seq::empty());
        }
        assert(self@ =~= old(self)@.close_window(window_id));
    }

    /// Window Property packet: sets property `property` of the open window,
    /// keeping the properties ordered by key.
    pub fn apply_window_property(&mut self, window_id: u8, property: i16, value: i16)
        requires
            old(self)@.wf(),
        ensures
            final(self)@.wf(),
            final(self)@ == old(self)@.apply_window_property(window_id, property, value),
    {
        if window_id != self.open_window_id {
            return;
        }
        let ghost p0 = self.open_window_properties@;
        proof {
            lemma_keys_below_split(p0, property);
        }
        let len = self.open_window_properties.len();
        let mut pos: usize = 0;
        while pos < len && self.open_window_properties[pos].0 < property
            invariant
                pos <= len,
                len == self.open_window_properties@.len(),
                self.open_window_properties@ == p0,
                properties_sorted(p0),
                forall|i: int| 0 <= i < pos ==> p0[i].0 < property,
                0 <= keys_below(p0, property) <= p0.len(),
                forall|i: int| 0 <= i < keys_below(p0, property) ==> p0[i].0 < property,
                forall|i: int| keys_below(p0, property) <= i < p0.len() ==> p0[i].0 >= property,
            decreases len - pos,
        {
            pos = pos + 1;
        }
        assert(pos == keys_below(p0, property));
        if pos < len && self.open_window_properties[pos].0 == property {
            self.open_window_properties.set(pos, (property, value));
        } else {
            self.open_window_properties.insert(pos, (property, value));
            let ghost p1 = self.open_window_properties@;
            assert forall|i: int, j: int| 0 <= i < j < p1.len() implies p1[i].0 < p1[j].0 by {
                if j < pos {
                } else if j == pos {
                } else if i < pos {
                    assert(p1[j] == p0[j - 1]);
                } else if i == pos {
                    assert(p1[j] == p0[j - 1]);
                    assert(p0[pos as int].0 >= property);
                    assert(p0[j - 1].0 >= p0[pos as int].0 || j - 1 == pos);
                } else {
                    assert(p1[i] == p0[i - 1]);
                    assert(p1[j] == p0[j - 1]);
                }
            }
        }
        assert(self@ =~= old(self)@.apply_window_property(window_id, property, value));
    }

    fn set_ref_from_slot(&mut self, r: SlotRef, slot: &Slot)
        requires
            old(self)@.wf(),
            old(self)@.valid_ref(r),
        ensures
            final(self)@.wf(),
            final(self)@ == old(self)@.set_at(r, spec_stack_from_slot(*slot), opt_bytes_view(slot.nbt)),
    {
        let stack = ItemStack::from_protocol_slot(slot);
        let meta = ItemStackMeta { nbt: slot.nbt_copy() };
        match r {
            SlotRef::Cursor => {
                self.cursor = stack;
                self.cursor_meta = meta;
            },
            SlotRef::Window(i) => {
                let ghost m0 = self.open_window_slot_meta@;
                self.open_window_slots.set(i, stack);
                self.open_window_slot_meta.set(i, meta);
                proof {
                    lemma_metas_update(m0, i as int, self.open_window_slot_meta@[i as int]);
                }
            },
            SlotRef::Local(i) => {
                let ghost m0 = self.slot_meta@;
                self.slots[i] = stack;
                self.slot_meta[i] = meta;
                proof {
                    lemma_metas_update(m0, i as int, self.slot_meta@[i as int]);
                }
            },
            SlotRef::Crafting(i) => {
                let ghost m0 = self.crafting_meta@;
                self.crafting[i] = stack;
                self.crafting_meta[i] = meta;
                proof {
                    lemma_metas_update(m0, i as int, self.crafting_meta@[i as int]);
                }
            },
            SlotRef::Armor(i) => {
                let ghost m0 = self.armor_meta@;
                self.armor[i] = stack;
                self.armor_meta[i] = meta;
                proof {
                    lemma_metas_update(m0, i as int, self.armor_meta@[i as int]);
                }
            },
            SlotRef::Nowhere => {},
        }
        assert(self@ =~= old(self)@.set_at(r, spec_stack_from_slot(*slot), opt_bytes_view(slot.nbt)));
    }

    fn apply_player_window_slot(&mut self, slot_index: i16, slot: &Slot)
        requires
            old(self)@.wf(),
        ensures
            final(self)@.wf(),
            final(self)@ == old(self)@.apply_player_window_slot(slot_index, *slot),
    {
        let r = match slot_index {
            0..=4 => SlotRef::Crafting(slot_index as usize),
            5..=8 => SlotRef::Armor((slot_index - 5) as usize),
            9..=35 => SlotRef::Local(slot_index as usize),
            36..=44 => SlotRef::Local((slot_index - 36) as usize),
            _ => SlotRef::Nowhere,
        };
        self.set_ref_from_slot(r, slot);
    }

    /// Set Slot packet for window `window_id`, slot `slot_index`.
    pub fn apply_window_slot(&mut self, window_id: i8, slot_index: i16, slot: &Slot)
        requires
            old(self)@.wf(),
            old(self)@.apply_slot_ok(window_id, slot_index),
        ensures
            final(self)@.wf(),
            final(self)@ == old(self)@.apply_window_slot(window_id, slot_index, *slot),
    {
        if slot_index == -1 {
            self.set_ref_from_slot(SlotRef::Cursor, slot);
            return;
        }
        if window_id == 0 {
            self.apply_player_window_slot(slot_index, slot);
        } else if window_id >= 0 && window_id as u8 == self.open_window_id {
            if slot_index >= 0 && (slot_index as usize) < self.open_window_slot_count {
                self.set_ref_from_slot(SlotRef::Window(slot_index as usize), slot);
            } else {
                let player_slot = slot_index - self.open_window_slot_count as i16 + 9;
                self.apply_player_window_slot(player_slot, slot);
            }
        }
    }

    fn apply_player_window_items(&mut self, slots: &[Slot])
        requires
            old(self)@.wf(),
        ensures
            final(self)@.wf(),
            final(self)@ == old(self)@.apply_player_items_from(slots@, 0),
    {
        let mut idx: usize = 0;
        while idx < slots.len()
            invariant
                self@.wf(),
                self@.apply_player_items_from(slots@, idx as int) == old(self)@.apply_player_items_from(slots@, 0),
            decreases slots.len() - idx,
        {
            self.apply_player_window_slot(idx as i16, &slots[idx]);
            idx = idx + 1;
        }
    }

    /// Window Items packet for window `window_id`.
    pub fn apply_window_items(&mut self, window_id: u8, slots: &[Slot])
        requires
            old(self)@.wf(),
            window_id != 0 && window_id == old(self)@.open_window_id ==> forall|k: int|
                0 <= k < slots@.len() ==> #[trigger] old(self)@.apply_slot_ok(window_id as i8, k as i16),
        ensures
            final(self)@.wf(),
            final(self)@ == old(self)@.apply_window_items(window_id, slots@),
    {
        if window_id == 0 {
            self.apply_player_window_items(slots);
        } else if window_id == self.open_window_id {
            let mut idx: usize = 0;
            while idx < slots.len()
                invariant
                    self@.wf(),
                    window_id != 0,
                    self@.open_window_id == old(self)@.open_window_id,
                    self@.open_window_slot_count == old(self)@.open_window_slot_count,
                    window_id == old(self)@.open_window_id,
                    forall|k: int| 0 <= k < slots@.len() ==> #[trigger] old(self)@.apply_slot_ok(window_id as i8, k as i16),
                    self@.apply_window_items_from(window_id as i8, slots@, idx as int)
                        == old(self)@.apply_window_items_from(window_id as i8, slots@, 0),
                decreases slots.len() - idx,
            {
                assert(old(self)@.apply_slot_ok(window_id as i8, idx as i16));
                self.apply_window_slot(window_id as i8, idx as i16, &slots[idx]);
                idx = idx + 1;
            }
        }
    }
}


/// Ids of every item offered in creative mode (tools, armor, food,
/// materials, miscellaneous).
pub open spec fn creative_item_ids() -> Seq<u16> {
    seq![268, 269, 270, 271, 272, 273, 274, 275, 256, 257, 258, 259, 276, 277, 278, 279, 283, 284, 285, 286, 261, 346, 359, 298, 299, 300, 301, 302, 303, 304, 305, 306, 307, 308, 309, 310, 311, 312, 313, 314, 315, 316, 317, 260, 322, 297, 357, 360, 400, 354, 319, 320, 363, 364, 365, 366, 423, 424, 411, 412, 349, 350, 396, 391, 392, 393, 394, 280, 287, 288, 289, 334, 339, 340, 341, 369, 377, 370, 378, 264, 265, 266, 263, 352, 351, 331, 388, 406, 398, 332, 344, 368, 381, 401, 358, 345, 347, 421, 420, 373, 438, 384, 383]
}

/// Blocks offered in creative mode, in menu order.
pub open spec fn creative_blocks() -> Seq<Block> {
    seq![Block::Stone, Block::Cobblestone, Block::Planks, Block::Bricks, Block::StoneBricks, Block::Sandstone, Block::NetherBrick, Block::MossyCobblestone, Block::Obsidian, Block::Glass, Block::Grass, Block::Dirt, Block::Sand, Block::Gravel, Block::Log, Block::Leaves, Block::Clay, Block::SnowBlock, Block::Ice, Block::Mycelium, Block::Netherrack, Block::EndStone, Block::CoalOre, Block::IronOre, Block::GoldOre, Block::DiamondOre, Block::EmeraldOre, Block::RedstoneOre, Block::LapisOre, Block::IronBlock, Block::GoldBlock, Block::DiamondBlock, Block::EmeraldBlock, Block::LapisBlock, Block::Wool, Block::Bookshelf, Block::Tnt, Block::Torch, Block::Sponge, Block::Glowstone, Block::Pumpkin, Block::MelonBlock, Block::Cactus, Block::SugarCane, Block::Vine, Block::OakFence, Block::CobblestoneWall, Block::IronBars, Block::GlassPane, Block::OakDoor, Block::IronDoor, Block::OakFenceGate, Block::Trapdoor, Block::OakStairs, Block::CobblestoneStairs, Block::BrickStairs, Block::StoneBrickStairs, Block::NetherBrickStairs, Block::StoneSlab, Block::DoubleStoneSlab, Block::RedstoneWire, Block::UnlitRedstoneTorch, Block::RedstoneTorch, Block::UnpoweredRepeater, Block::PoweredRepeater, Block::StonePressurePlate, Block::WoodenPressurePlate, Block::StoneButton, Block::Lever, Block::Dandelion, Block::Flower, Block::BrownMushroom, Block::RedMushroom, Block::DeadBush, Block::TallGrass, Block::LilyPad, Block::Cobweb, Block::Bed, Block::Cake, Block::Chest, Block::Furnace, Block::LitFurnace, Block::CraftingTable, Block::EnchantingTable, Block::BrewingStand, Block::Cauldron, Block::Jukebox, Block::NoteBlock, Block::Dispenser, Block::Piston, Block::StickyPiston, Block::MobSpawner, Block::Rail, Block::PoweredRail, Block::DetectorRail, Block::HayBlock, Block::HardenedClay, Block::CoalBlock, Block::PackedIce, Block::FlowerPot, Block::Anvil, Block::TrappedChest, Block::DaylightDetector, Block::Hopper, Block::QuartzBlock, Block::QuartzStairs, Block::Dropper, Block::StainedClay, Block::Sapling, Block::Wheat, Block::Farmland, Block::NetherWart, Block::MelonStem, Block::PumpkinStem, Block::StandingSign, Block::WallSign, Block::GrassSnowy, Block::Ladder, Block::Fire, Block::SnowLayer, Block::Bedrock]
}

/// The stacks of the creative hotbar: sword, pickaxe, shovel, bow, bread,
/// redstone, bucket, water bucket, flint and steel.
pub open spec fn creative_hotbar() -> Seq<ItemStack> {
    seq![spec_normalized(ItemStack { item_id: 276, count: 1, damage: 0 }), spec_normalized(ItemStack { item_id: 278, count: 1, damage: 0 }), spec_normalized(ItemStack { item_id: 277, count: 1, damage: 0 }), spec_normalized(ItemStack { item_id: 261, count: 1, damage: 0 }), spec_normalized(ItemStack { item_id: 297, count: 64, damage: 0 }), spec_normalized(ItemStack { item_id: 331, count: 64, damage: 0 }), spec_normalized(ItemStack { item_id: 325, count: 1, damage: 0 }), spec_normalized(ItemStack { item_id: 326, count: 1, damage: 0 }), spec_normalized(ItemStack { item_id: 259, count: 1, damage: 0 })]
}

impl Inventory {
    /// Every item available in creative mode.
    pub fn all_creative_items() -> (r: Vec<u16>)
        ensures
            r@ == creative_item_ids(),
    {
        let r = vec![268, 269, 270, 271, 272, 273, 274, 275, 256, 257, 258, 259, 276, 277, 278, 279, 283, 284, 285, 286, 261, 346, 359, 298, 299, 300, 301, 302, 303, 304, 305, 306, 307, 308, 309, 310, 311, 312, 313, 314, 315, 316, 317, 260, 322, 297, 357, 360, 400, 354, 319, 320, 363, 364, 365, 366, 423, 424, 411, 412, 349, 350, 396, 391, 392, 393, 394, 280, 287, 288, 289, 334, 339, 340, 341, 369, 377, 370, 378, 264, 265, 266, 263, 352, 351, 331, 388, 406, 398, 332, 344, 368, 381, 401, 358, 345, 347, 421, 420, 373, 438, 384, 383];
        assert(r@ =~= creative_item_ids());
        r
    }

    /// Every block available in creative mode.
    pub fn all_creative_blocks() -> (r: Vec<Block>)
        ensures
            r@ == creative_blocks(),
    {
        let r = vec![Block::Stone, Block::Cobblestone, Block::Planks, Block::Bricks, Block::StoneBricks, Block::Sandstone, Block::NetherBrick, Block::MossyCobblestone, Block::Obsidian, Block::Glass, Block::Grass, Block::Dirt, Block::Sand, Block::Gravel, Block::Log, Block::Leaves, Block::Clay, Block::SnowBlock, Block::Ice, Block::Mycelium, Block::Netherrack, Block::EndStone, Block::CoalOre, Block::IronOre, Block::GoldOre, Block::DiamondOre, Block::EmeraldOre, Block::RedstoneOre, Block::LapisOre, Block::IronBlock, Block::GoldBlock, Block::DiamondBlock, Block::EmeraldBlock, Block::LapisBlock, Block::Wool, Block::Bookshelf, Block::Tnt, Block::Torch, Block::Sponge, Block::Glowstone, Block::Pumpkin, Block::MelonBlock, Block::Cactus, Block::SugarCane, Block::Vine, Block::OakFence, Block::CobblestoneWall, Block::IronBars, Block::GlassPane, Block::OakDoor, Block::IronDoor, Block::OakFenceGate, Block::Trapdoor, Block::OakStairs, Block::CobblestoneStairs, Block::BrickStairs, Block::StoneBrickStairs, Block::NetherBrickStairs, Block::StoneSlab, Block::DoubleStoneSlab, Block::RedstoneWire, Block::UnlitRedstoneTorch, Block::RedstoneTorch, Block::UnpoweredRepeater, Block::PoweredRepeater, Block::StonePressurePlate, Block::WoodenPressurePlate, Block::StoneButton, Block::Lever, Block::Dandelion, Block::Flower, Block::BrownMushroom, Block::RedMushroom, Block::DeadBush, Block::TallGrass, Block::LilyPad, Block::Cobweb, Block::Bed, Block::Cake, Block::Chest, Block::Furnace, Block::LitFurnace, Block::CraftingTable, Block::EnchantingTable, Block::BrewingStand, Block::Cauldron, Block::Jukebox, Block::NoteBlock, Block::Dispenser, Block::Piston, Block::StickyPiston, Block::MobSpawner, Block::Rail, Block::PoweredRail, Block::DetectorRail, Block::HayBlock, Block::HardenedClay, Block::CoalBlock, Block::PackedIce, Block::FlowerPot, Block::Anvil, Block::TrappedChest, Block::DaylightDetector, Block::Hopper, Block::QuartzBlock, Block::QuartzStairs, Block::Dropper, Block::StainedClay, Block::Sapling, Block::Wheat, Block::Farmland, Block::NetherWart, Block::MelonStem, Block::PumpkinStem, Block::StandingSign, Block::WallSign, Block::GrassSnowy, Block::Ladder, Block::Fire, Block::SnowLayer, Block::Bedrock];
        assert(r@ =~= creative_blocks());
        r
    }

    /// A creative inventory: a hotbar of common tools and the first 27
    /// creative blocks (64 each) in the main inventory.
    pub fn creative() -> (inv: Inventory)
        ensures
            inv@.wf(),
            forall|i: int| 0 <= i < 9 ==> inv@.slots[i] == creative_hotbar()[i],
            forall|i: int| 9 <= i < 36 ==> inv@.slots[i] == spec_normalized(
                ItemStack { item_id: creative_blocks()[i - 9].spec_to_id(), count: 64, damage: 0 },
            ),
            inv@ == (InventoryModel { slots: inv@.slots, ..empty_inventory_model() }),
    {
        let mut inv = Self::new();
        inv.slots[0] = ItemStack::new(276, 1);
        inv.slots[1] = ItemStack::new(278, 1);
        inv.slots[2] = ItemStack::new(277, 1);
        inv.slots[3] = ItemStack::new(261, 1);
        inv.slots[4] = ItemStack::new(297, 64);
        inv.slots[5] = ItemStack::new(331, 64);
        inv.slots[6] = ItemStack::new(325, 1);
        inv.slots[7] = ItemStack::new(326, 1);
        inv.slots[8] = ItemStack::new(259, 1);
        let all_blocks = Self::all_creative_blocks();
        let mut i: usize = 0;
        assert(all_blocks@.len() > 27);
        while i < 27 && i < all_blocks.len()
            invariant
                all_blocks@ == creative_blocks(),
                i <= 27,
                27 < all_blocks@.len(),
                inv@.wf(),
                inv@ == (InventoryModel { slots: inv@.slots, ..empty_inventory_model() }),
                forall|k: int| 0 <= k < 9 ==> inv@.slots[k] == creative_hotbar()[k],
                forall|k: int| 9 <= k < 36 && k - 9 < i ==> inv@.slots[k] == spec_normalized(
                    ItemStack { item_id: creative_blocks()[k - 9].spec_to_id(), count: 64, damage: 0 },
                ),
            decreases 27 - i,
        {
            inv.slots[9 + i] = ItemStack::from_block(all_blocks[i], 64);
            i = i + 1;
        }
        inv
    }
}


impl Inventory {
    /// The block of the selected hotbar stack, when the stack is a block
    /// item.
    pub fn selected_block(&self) -> (r: Option<Block>)
        requires
            self@.wf(),
        ensures
            r == ({
                let it = self@.slots[self@.selected as int];
                let b = Block::spec_from_id(it.item_id);
                if it.spec_is_empty() || b == Block::Air || b.spec_to_id() != it.item_id {
                    None
                } else {
                    Some(b)
                }
            }),
    {
        let item = self.selected_item();
        if item.is_empty() {
            return None;
        }
        let block = Block::from_id(item.item_id);
        if block == Block::Air || block.to_id() != item.item_id {
            None
        } else {
            Some(block)
        }
    }
}


/// Enchantment level `id` of optional item NBT; 0 without NBT.
pub open spec fn meta_enchantment_level(m: Option<Seq<u8>>, id: i16) -> int {
    match m {
        Some(b) => spec_enchantment_level(b, id),
        None => 0,
    }
}

/// Whether optional item NBT lists enchantments (or stored ones).
pub open spec fn spec_has_glint(m: Option<Seq<u8>>) -> bool {
    match m {
        Some(b) => root_valid(b) && (root_list_nonempty(b, name_ench()) || root_list_nonempty(
            b,
            name_stored_enchantments(),
        )),
        None => false,
    }
}

/// Highest enchantment level `id` over the non-empty armor slots `0..k`.
pub open spec fn armor_max_level(m: InventoryModel, k: int, id: i16) -> int
    decreases k,
{
    if k <= 0 {
        0
    } else {
        let rest = armor_max_level(m, k - 1, id);
        let here = if m.armor[k - 1].spec_is_empty() {
            0
        } else {
            meta_enchantment_level(m.armor_meta[k - 1], id)
        };
        if here > rest {
            here
        } else {
            rest
        }
    }
}

/// Level of enchantment `enchantment_id` in item NBT (`tag.ench`, a list
/// of `{id: short, lvl: short}` compounds); 0 without NBT, when the
/// enchantment is absent or the NBT is malformed.
pub fn nbt_enchantment_level(nbt: Option<&[u8]>, enchantment_id: i16) -> (r: i16)
    ensures
        r == match nbt {
            Some(b) => spec_enchantment_level(b@, enchantment_id),
            None => 0,
        },
{
    match nbt {
        Some(bytes) => enchantment_level(bytes, enchantment_id),
        None => 0,
    }
}

/// Whether an item shows the enchantment glint: its NBT has a non-empty
/// `ench` or `StoredEnchantments` list.
pub fn has_glint(view: &ItemStackView) -> (r: bool)
    ensures
        r == spec_has_glint(opt_bytes_view(view.nbt)),
{
    match &view.nbt {
        Some(bytes) => has_enchantments(bytes.as_slice()),
        None => false,
    }
}

impl Inventory {
    /// Enchantment level on the held item, from its NBT; 0 for an empty hand.
    pub fn selected_enchantment_level(&self, enchantment_id: i16) -> (r: i16)
        requires
            self@.wf(),
        ensures
            r == if self@.slots[self@.selected as int].spec_is_empty() {
                0
            } else {
                meta_enchantment_level(self@.slot_meta[self@.selected as int], enchantment_id)
            },
    {
        if self.slots[self.selected].is_empty() {
            return 0;
        }
        match &self.slot_meta[self.selected].nbt {
            Some(bytes) => enchantment_level(bytes.as_slice(), enchantment_id),
            None => 0,
        }
    }

    /// Highest level of enchantment `enchantment_id` across the armor slots.
    pub fn max_armor_enchantment_level(&self, enchantment_id: i16) -> (r: i16)
        requires
            self@.wf(),
        ensures
            r == armor_max_level(self@, 4, enchantment_id),
    {
        let mut best: i16 = 0;
        let mut k: usize = 0;
        while k < 4
            invariant
                k <= 4,
                self@.wf(),
                best == armor_max_level(self@, k as int, enchantment_id),
            decreases 4 - k,
        {
            let here: i16 = if self.armor[k].is_empty() {
                0
            } else {
                match &self.armor_meta[k].nbt {
                    Some(bytes) => enchantment_level(bytes.as_slice(), enchantment_id),
                    None => 0,
                }
            };
            if here > best {
                best = here;
            }
            k = k + 1;
        }
        best
    }
}


/// A stack after taking `amount` points of wear: the damage value grows
/// (saturating); once it passes the item's durability the stack loses an
/// item with its damage reset, and an emptied stack becomes the empty
/// stack.  Items without durability, empty stacks and no wear leave it as
/// it is.  The flag tells whether an item broke.
pub open spec fn spec_apply_wear(stack: ItemStack, amount: u16) -> (ItemStack, bool) {
    let max = spec_max_damage(stack.item_id);
    if amount == 0 || stack.spec_is_empty() || max == 0 {
        (stack, false)
    } else {
        let d = if stack.damage + amount > u16::MAX { u16::MAX } else { (stack.damage + amount) as u16 };
        if d > max {
            let c = (stack.count - 1) as u8;
            (if c == 0 { empty_stack() } else { ItemStack { count: c, damage: 0, ..stack } }, true)
        } else {
            (ItemStack { damage: d, ..stack }, false)
        }
    }
}

/// Wears a held item by `amount` points (after any Unbreaking rolls).
pub fn apply_item_wear(stack: ItemStack, amount: u16) -> (r: (ItemStack, bool))
    ensures
        r == spec_apply_wear(stack, amount),
{
    if amount == 0 || stack.is_empty() {
        return (stack, false);
    }
    let max = max_damage(stack.item_id);
    if max == 0 {
        return (stack, false);
    }
    let d = stack.damage.saturating_add(amount);
    if d > max {
        let c = stack.count - 1;
        if c == 0 {
            (ItemStack::empty(), true)
        } else {
            (ItemStack { count: c, damage: 0, ..stack }, true)
        }
    } else {
        (ItemStack { damage: d, ..stack }, false)
    }
}


/// What a Set Slot packet writes is what reads of that slot then give:
/// the cursor (index -1, read as -999), a slot of the player window while
/// no server window is open, a slot of the open server window, and a
/// player slot addressed through the open server window (the 36 slots
/// after the window's own ones).
pub proof fn lemma_set_slot_then_read(m: InventoryModel, wid: i8, p: i16, slot: Slot)
    requires
        m.wf(),
    ensures
        ({
            let w = m.apply_window_slot(wid, -1i16, slot);
            w.stack_at(w.read_ref(-999i16)) == spec_stack_from_slot(slot) && w.meta_at(w.read_ref(-999i16))
                == opt_bytes_view(slot.nbt)
        }),
        (wid == 0 && m.open_window_id == 0 && 0 <= p <= 44) ==> ({
            let w = m.apply_window_slot(wid, p, slot);
            w.stack_at(w.read_ref(p)) == spec_stack_from_slot(slot) && w.meta_at(w.read_ref(p)) == opt_bytes_view(
                slot.nbt,
            )
        }),
        (wid > 0 && wid as u8 == m.open_window_id && 0 <= p && (p as usize) < m.open_window_slot_count) ==> ({
            let w = m.apply_window_slot(wid, p, slot);
            w.stack_at(w.read_ref(p)) == spec_stack_from_slot(slot) && w.meta_at(w.read_ref(p)) == opt_bytes_view(
                slot.nbt,
            )
        }),
        (wid > 0 && wid as u8 == m.open_window_id && m.open_window_slot_count <= p < m.open_window_slot_count
            + 36) ==> ({
            let w = m.apply_window_slot(wid, p, slot);
            w.stack_at(w.read_ref(p)) == spec_stack_from_slot(slot) && w.meta_at(w.read_ref(p)) == opt_bytes_view(
                slot.nbt,
            )
        }),
{
    if wid > 0 && wid as u8 == m.open_window_id && m.open_window_slot_count <= p < m.open_window_slot_count + 36 {
        let c = m.open_window_slot_count;
        assert((c as i16) == c);
        let q = (p - (c as i16) + 9) as i16;
        assert(9 <= q <= 44);
        let w = m.apply_window_slot(wid, p, slot);
        assert(w == m.apply_player_window_slot(q, slot));
        assert(w.open_window_id == m.open_window_id && w.open_window_slot_count == c);
        assert(w.local_index_for_open_window_slot(p) == spec_local_index_for_player_window_slot(q));
    }
}

} // verus!

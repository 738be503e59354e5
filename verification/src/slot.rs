//! Protocol 47 item slot as carried by window packets.
use vstd::prelude::*;
use crate::bytes::{copy_opt_bytes, opt_bytes_view};

verus! {

/// One slot of a window packet: item id (-1 for an empty slot), count,
/// damage and the optional raw NBT compound of the item.
#[derive(Clone, Debug, PartialEq, Eq)]
pub struct Slot {
    pub item_id: i16,
    pub count: u8,
    pub damage: i16,
    pub nbt: Option<Vec<u8>>,
}

impl Slot {
    /// The empty slot as written on the wire.
    pub fn empty() -> (s: Slot)
        ensures
            s.item_id == -1,
            s.count == 0,
            s.damage == 0,
            s.nbt is None,
    {
        Slot { item_id: -1, count: 0, damage: 0, nbt: None }
    }

    /// Empty: a negative item id or no items.
    pub open spec fn spec_is_empty(&self) -> bool {
        self.item_id < 0 || self.count == 0
    }

    /// A slot is empty when it carries no item id or no items.
    #[verifier::when_used_as_spec(spec_is_empty)]
    pub fn is_empty(&self) -> (r: bool)
        ensures
            r == self.spec_is_empty(),
    {
        self.item_id < 0 || self.count == 0
    }

    /// The item id as an unsigned id (0 for negative ids).
    pub open spec fn spec_item_id_u16(&self) -> u16 {
        if self.item_id < 0 {
            0
        } else {
            self.item_id as u16
        }
    }

    /// The item id as an unsigned id, 0 for the empty id.
    #[verifier::when_used_as_spec(spec_item_id_u16)]
    pub fn item_id_u16(&self) -> (r: u16)
        ensures
            r == self.spec_item_id_u16(),
    {
        if self.item_id < 0 {
            0
        } else {
            self.item_id as u16
        }
    }

    /// The NBT bytes of the slot, as a fresh copy.
    pub fn nbt_copy(&self) -> (r: Option<Vec<u8>>)
        ensures
            opt_bytes_view(r) == opt_bytes_view(self.nbt),
    {
        copy_opt_bytes(&self.nbt)
    }
}

} // verus!

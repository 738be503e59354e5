//! Armor pieces: material and slot of each armor item, protection points,
//! durability and layer textures.
use vstd::prelude::*;
use crate::inventory::{Inventory, ItemStack};

verus! {

/// The material of an armor piece.
#[derive(Clone, Copy, Debug, PartialEq, Eq, Structural)]
pub enum ArmorMaterial {
    Leather,
    Chain,
    Iron,
    Diamond,
    Gold,
}

/// Armor items are 298..=317: five materials (leather, chain, iron,
/// diamond, gold) of four pieces each (helmet 0, chestplate 1, leggings 2,
/// boots 3).
pub open spec fn spec_armor_material_and_slot(item_id: u16) -> Option<(ArmorMaterial, usize)> {
    if 298 <= item_id <= 317 {
        let k = (item_id - 298) as int;
        let material = if k / 4 == 0 {
            ArmorMaterial::Leather
        } else if k / 4 == 1 {
            ArmorMaterial::Chain
        } else if k / 4 == 2 {
            ArmorMaterial::Iron
        } else if k / 4 == 3 {
            ArmorMaterial::Diamond
        } else {
            ArmorMaterial::Gold
        };
        Some((material, (k % 4) as usize))
    } else {
        None
    }
}

/// The material and slot of armor item `item_id`, or `None` for other
/// items.
pub fn armor_material_and_slot(item_id: u16) -> (r: Option<(ArmorMaterial, usize)>)
    ensures
        r == spec_armor_material_and_slot(item_id),
{
    if item_id < 298 || item_id > 317 {
        return None;
    }
    let k = item_id - 298;
    let material = if k / 4 == 0 {
        ArmorMaterial::Leather
    } else if k / 4 == 1 {
        ArmorMaterial::Chain
    } else if k / 4 == 2 {
        ArmorMaterial::Iron
    } else if k / 4 == 3 {
        ArmorMaterial::Diamond
    } else {
        ArmorMaterial::Gold
    };
    Some((material, (k % 4) as usize))
}

/// Protection points per material, helmet to boots.
pub open spec fn protection_table(material: ArmorMaterial) -> Seq<u8> {
    match material {
        ArmorMaterial::Leather => seq![1u8, 3, 2, 1],
        ArmorMaterial::Chain => seq![2u8, 5, 4, 1],
        ArmorMaterial::Iron => seq![2u8, 6, 5, 2],
        ArmorMaterial::Diamond => seq![3u8, 8, 6, 3],
        ArmorMaterial::Gold => seq![2u8, 5, 3, 1],
    }
}

/// Base durability per material, helmet to boots.
pub open spec fn durability_table(material: ArmorMaterial) -> Seq<u16> {
    match material {
        ArmorMaterial::Leather => seq![55u16, 80, 75, 65],
        ArmorMaterial::Chain => seq![165u16, 240, 225, 195],
        ArmorMaterial::Iron => seq![165u16, 240, 225, 195],
        ArmorMaterial::Diamond => seq![363u16, 528, 495, 429],
        ArmorMaterial::Gold => seq![77u16, 112, 105, 91],
    }
}

/// A slot index past the boots counts as the boots.
pub open spec fn clamp_slot(slot: usize) -> int {
    if slot < 3 {
        slot as int
    } else {
        3
    }
}

/// Protection points of the `material` piece for `slot`.
pub fn protection_for(material: ArmorMaterial, slot: usize) -> (r: u8)
    ensures
        r == protection_table(material)[clamp_slot(slot)],
        r <= 8,
{
    let s = if slot < 3 { slot } else { 3 };
    let table: [u8; 4] = match material {
        ArmorMaterial::Leather => [1, 3, 2, 1],
        ArmorMaterial::Chain => [2, 5, 4, 1],
        ArmorMaterial::Iron => [2, 6, 5, 2],
        ArmorMaterial::Diamond => [3, 8, 6, 3],
        ArmorMaterial::Gold => [2, 5, 3, 1],
    };
    assert(table@ =~= protection_table(material));
    table[s]
}

/// Base durability of the `material` piece for `slot`.
pub fn durability_for(material: ArmorMaterial, slot: usize) -> (r: u16)
    ensures
        r == durability_table(material)[clamp_slot(slot)],
{
    let s = if slot < 3 { slot } else { 3 };
    let table: [u16; 4] = match material {
        ArmorMaterial::Leather => [55, 80, 75, 65],
        ArmorMaterial::Chain => [165, 240, 225, 195],
        ArmorMaterial::Iron => [165, 240, 225, 195],
        ArmorMaterial::Diamond => [363, 528, 495, 429],
        ArmorMaterial::Gold => [77, 112, 105, 91],
    };
    assert(table@ =~= durability_table(material));
    table[s]
}

/// Protection points of one worn stack: those of its material and slot for
/// a nonempty armor item, 0 otherwise.
pub open spec fn stack_protection(stack: ItemStack) -> int {
    if stack.spec_is_empty() {
        0
    } else {
        match spec_armor_material_and_slot(stack.item_id) {
            Some((m, s)) => protection_table(m)[clamp_slot(s)] as int,
            None => 0,
        }
    }
}

/// Protection points of the first `n` worn stacks.
pub open spec fn armor_points_sum(armor: Seq<ItemStack>, n: int) -> int
    decreases n,
{
    if n <= 0 {
        0
    } else {
        armor_points_sum(armor, n - 1) + stack_protection(armor[n - 1])
    }
}

/// The armor points of the worn pieces: their protection summed, at most
/// 25.
pub open spec fn spec_total_armor_points(armor: Seq<ItemStack>) -> int {
    let t = armor_points_sum(armor, armor.len() as int);
    if t < 25 {
        t
    } else {
        25
    }
}

/// Armor points of the pieces `inventory` wears.
pub fn total_armor_points(inventory: &Inventory) -> (r: u8)
    ensures
        r == spec_total_armor_points(inventory.armor@),
{
    let mut points: u8 = 0;
    let mut i: usize = 0;
    while i < 4
        invariant
            i <= 4,
            inventory.armor@.len() == 4,
            points == armor_points_sum(inventory.armor@, i as int),
            points <= 8 * i,
        decreases 4 - i,
    {
        let item = inventory.armor[i];
        if !item.is_empty() {
            if let Some((material, slot)) = armor_material_and_slot(item.item_id) {
                points = points + protection_for(material, slot);
            }
        }
        i = i + 1;
    }
    if points < 25 {
        points
    } else {
        25
    }
}

/// The texture of `material` armor for a model layer: layer 1 (helmet,
/// chestplate, boots) or any other layer as layer 2 (leggings).
pub open spec fn spec_armor_texture_name(material: ArmorMaterial, layer: u8) -> Seq<char> {
    let base = match material {
        ArmorMaterial::Leather => seq!['l', 'e', 'a', 't', 'h', 'e', 'r'],
        ArmorMaterial::Chain => seq!['c', 'h', 'a', 'i', 'n', 'm', 'a', 'i', 'l'],
        ArmorMaterial::Iron => seq!['i', 'r', 'o', 'n'],
        ArmorMaterial::Diamond => seq!['d', 'i', 'a', 'm', 'o', 'n', 'd'],
        ArmorMaterial::Gold => seq!['g', 'o', 'l', 'd'],
    };
    base + seq!['_', 'l', 'a', 'y', 'e', 'r', '_'] + if layer == 1 {
        seq!['1']
    } else {
        seq!['2']
    }
}
/// The texture name of `material` armor for model layer `layer`.
pub fn armor_texture_name(material: ArmorMaterial, layer: u8) -> (r: &'static str)
    ensures
        r@ == spec_armor_texture_name(material, layer),
{
    match (material, layer) {
        (ArmorMaterial::Leather, 1) => {
            proof {
                reveal_strlit("leather_layer_1");
            }
            assert("leather_layer_1"@ =~= spec_armor_texture_name(material, layer));
            "leather_layer_1"
        },
        (ArmorMaterial::Leather, _) => {
            proof {
                reveal_strlit("leather_layer_2");
            }
            assert("leather_layer_2"@ =~= spec_armor_texture_name(material, layer));
            "leather_layer_2"
        },
        (ArmorMaterial::Chain, 1) => {
            proof {
                reveal_strlit("chainmail_layer_1");
            }
            assert("chainmail_layer_1"@ =~= spec_armor_texture_name(material, layer));
            "chainmail_layer_1"
        },
        (ArmorMaterial::Chain, _) => {
            proof {
                reveal_strlit("chainmail_layer_2");
            }
            assert("chainmail_layer_2"@ =~= spec_armor_texture_name(material, layer));
            "chainmail_layer_2"
        },
        (ArmorMaterial::Iron, 1) => {
            proof {
                reveal_strlit("iron_layer_1");
            }
            assert("iron_layer_1"@ =~= spec_armor_texture_name(material, layer));
            "iron_layer_1"
        },
        (ArmorMaterial::Iron, _) => {
            proof {
                reveal_strlit("iron_layer_2");
            }
            assert("iron_layer_2"@ =~= spec_armor_texture_name(material, layer));
            "iron_layer_2"
        },
        (ArmorMaterial::Diamond, 1) => {
            proof {
                reveal_strlit("diamond_layer_1");
            }
            assert("diamond_layer_1"@ =~= spec_armor_texture_name(material, layer));
            "diamond_layer_1"
        },
        (ArmorMaterial::Diamond, _) => {
            proof {
                reveal_strlit("diamond_layer_2");
            }
            assert("diamond_layer_2"@ =~= spec_armor_texture_name(material, layer));
            "diamond_layer_2"
        },
        (ArmorMaterial::Gold, 1) => {
            proof {
                reveal_strlit("gold_layer_1");
            }
            assert("gold_layer_1"@ =~= spec_armor_texture_name(material, layer));
            "gold_layer_1"
        },
        (ArmorMaterial::Gold, _) => {
            proof {
                reveal_strlit("gold_layer_2");
            }
            assert("gold_layer_2"@ =~= spec_armor_texture_name(material, layer));
            "gold_layer_2"
        },
    }
}

/// The layer 1 and layer 2 texture names of an armor item, or `None` for
/// other items.
pub fn armor_texture_names(item_id: u16) -> (r: Option<(&'static str, &'static str)>)
    ensures
        r is Some <==> spec_armor_material_and_slot(item_id) is Some,
        r matches Some((a, b)) ==> (spec_armor_material_and_slot(item_id) matches Some((m, s)) && a@
            == spec_armor_texture_name(m, 1) && b@ == spec_armor_texture_name(m, 2)),
{
    let (material, _slot) = armor_material_and_slot(item_id)?;
    Some((armor_texture_name(material, 1), armor_texture_name(material, 2)))
}

/// Whether `item_id` is an armor piece (298..=317).
pub fn is_armor(item_id: u16) -> (r: bool)
    ensures
        r == (298 <= item_id <= 317),
        r == (spec_armor_material_and_slot(item_id) is Some),
{
    298 <= item_id && item_id <= 317
}

} // verus!

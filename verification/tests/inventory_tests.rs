use rustcraft::block::Block;
use rustcraft::inventory::{
    effective_container_slot_count, has_glint, max_damage, nbt_enchantment_level, Inventory,
    ItemStack, ItemStackView,
};

#[test]
fn local_special_containers_restore_their_vanilla_slot_counts() {
    assert_eq!(
        effective_container_slot_count("minecraft:crafting_table", 0),
        10
    );
    assert_eq!(
        effective_container_slot_count("minecraft:enchanting_table", 0),
        2
    );
    assert_eq!(effective_container_slot_count("minecraft:anvil", 0), 3);
    assert_eq!(effective_container_slot_count("minecraft:hopper", 5), 5);
    assert_eq!(effective_container_slot_count("custom:menu", 0), 0);
}

#[test]
fn added_items_fill_matching_stacks_then_empty_slots() {
    let mut inv = Inventory::new();
    assert_eq!(inv.add_item(ItemStack::new(1, 40)), 0);
    assert_eq!(inv.add_item(ItemStack::new(1, 40)), 0);
    assert_eq!(inv.slots[0].count, 64);
    assert_eq!(inv.slots[1].count, 16);
    assert_eq!(inv.slots[1].item_id, 1);
    assert_eq!(inv.add_item(ItemStack::new(0, 5)), 0);
    assert!(inv.slots[2].is_empty());
}

#[test]
fn a_full_inventory_hands_back_the_leftover() {
    let mut inv = Inventory::new();
    for _ in 0..36 {
        assert_eq!(inv.add_item(ItemStack::new(4, 64)), 0);
    }
    assert_eq!(inv.add_item(ItemStack::new(4, 10)), 10);
    assert_eq!(inv.add_item(ItemStack::new(5, 3)), 3);
}

#[test]
fn clicking_picks_up_places_and_splits() {
    let mut inv = Inventory::new();
    inv.slots[0] = ItemStack::new(1, 10);
    inv.click_local_slot(0, false);
    assert_eq!(inv.cursor.count, 10);
    assert!(inv.slots[0].is_empty());
    inv.click_local_slot(1, true);
    assert_eq!(inv.slots[1].count, 1);
    assert_eq!(inv.cursor.count, 9);
    inv.click_local_slot(1, false);
    assert_eq!(inv.slots[1].count, 10);
    assert!(inv.cursor.is_empty());
    inv.click_local_slot(1, true);
    assert_eq!(inv.cursor.count, 5);
    assert_eq!(inv.slots[1].count, 5);
}

#[test]
fn different_items_swap_with_the_cursor() {
    let mut inv = Inventory::new();
    inv.slots[0] = ItemStack::new(1, 3);
    inv.cursor = ItemStack::new(2, 7);
    inv.click_local_slot(0, false);
    assert_eq!(inv.slots[0].item_id, 2);
    assert_eq!(inv.slots[0].count, 7);
    assert_eq!(inv.cursor.item_id, 1);
    assert_eq!(inv.cursor.count, 3);
}

#[test]
fn hotbar_selection_wraps_and_clamps() {
    let mut inv = Inventory::new();
    inv.scroll(-1);
    assert_eq!(inv.selected, 8);
    inv.scroll(2);
    assert_eq!(inv.selected, 1);
    inv.scroll(-20);
    assert_eq!(inv.selected, 8);
    inv.set_selected(40);
    assert_eq!(inv.selected, 8);
}

#[test]
fn the_selected_block_is_a_placeable_block() {
    let mut inv = Inventory::new();
    assert_eq!(inv.selected_block(), None);
    inv.slots[0] = ItemStack::new(1, 1);
    assert_eq!(inv.selected_block(), Some(Block::Stone));
    inv.slots[0] = ItemStack::new(276, 1);
    assert_eq!(inv.selected_block(), None);
}

#[test]
fn player_window_slots_map_to_local_slots() {
    assert_eq!(Inventory::local_index_for_player_window_slot(9), Some(9));
    assert_eq!(Inventory::local_index_for_player_window_slot(35), Some(35));
    assert_eq!(Inventory::local_index_for_player_window_slot(36), Some(0));
    assert_eq!(Inventory::local_index_for_player_window_slot(44), Some(8));
    assert_eq!(Inventory::local_index_for_player_window_slot(5), None);
    assert_eq!(Inventory::local_index_for_player_window_slot(45), None);
}

#[test]
fn open_window_slots_after_the_container_are_the_player_inventory() {
    let mut inv = Inventory::new();
    inv.set_open_window(3, "minecraft:chest".to_string(), "Chest".to_string(), 27);
    assert_eq!(inv.local_index_for_open_window_slot(0), None);
    assert_eq!(inv.local_index_for_open_window_slot(27), Some(9));
    assert_eq!(inv.local_index_for_open_window_slot(54), Some(0));
    inv.close_window(3);
    assert_eq!(inv.local_index_for_open_window_slot(36), Some(0));
}

#[test]
fn dropping_takes_one_item_or_the_stack() {
    let mut inv = Inventory::new();
    inv.slots[0] = ItemStack::new(1, 3);
    inv.drop_selected(false);
    assert_eq!(inv.slots[0].count, 2);
    inv.drop_selected(true);
    assert!(inv.slots[0].is_empty());
}

#[test]
fn tools_have_their_vanilla_durability() {
    assert_eq!(max_damage(270), 59);
    assert_eq!(max_damage(278), 1561);
    assert_eq!(max_damage(1), 0);
}

#[test]
fn enchantment_levels_are_read_from_item_nbt() {
    // { "": { ench: [ { id: 32s, lvl: 3s } ] } }
    let nbt: Vec<u8> = vec![
        10, 0, 0, 9, 0, 4, b'e', b'n', b'c', b'h', 10, 0, 0, 0, 1, 2, 0, 2, b'i', b'd', 0, 32, 2,
        0, 3, b'l', b'v', b'l', 0, 3, 0, 0,
    ];
    assert_eq!(nbt_enchantment_level(Some(&nbt), 32), 3);
    assert_eq!(nbt_enchantment_level(Some(&nbt), 34), 0);
    assert_eq!(nbt_enchantment_level(None, 32), 0);
    let view = ItemStackView {
        item_id: 278,
        count: 1,
        damage: 0,
        nbt: Some(nbt),
    };
    assert!(has_glint(&view));
    assert!(!has_glint(&ItemStackView::default()));
}

use rustcraft::inventory::apply_item_wear;

#[test]
fn worn_tools_break_past_their_durability() {
    let pick = ItemStack::new(270, 1);
    let (worn, broke) = apply_item_wear(pick, 58);
    assert_eq!(worn.damage, 58);
    assert!(!broke);
    let (gone, broke) = apply_item_wear(worn, 2);
    assert!(broke);
    assert!(gone.is_empty());
    let (dirt, broke) = apply_item_wear(ItemStack::new(3, 5), 3);
    assert_eq!(dirt.damage, 0);
    assert_eq!(dirt.count, 5);
    assert!(!broke);
}

use rustcraft::slot::Slot;

#[test]
fn a_set_slot_packet_is_what_the_slot_then_reads() {
    let mut inv = Inventory::new();
    let stone = Slot {
        item_id: 1,
        count: 5,
        damage: 0,
        nbt: None,
    };
    inv.apply_window_slot(0, 36, &stone);
    assert_eq!(inv.slots[0].item_id, 1);
    assert_eq!(inv.item_for_protocol_slot(36).count, 5);
    inv.apply_window_slot(0, -1, &stone);
    assert_eq!(inv.item_for_protocol_slot(-999).count, 5);
    inv.set_open_window(2, "minecraft:chest".to_string(), "Chest".to_string(), 27);
    inv.apply_window_slot(2, 3, &stone);
    assert_eq!(inv.item_for_protocol_slot(3).item_id, 1);
    assert_eq!(inv.item_view_for_protocol_slot(3).count, 5);
    assert!(inv.item_for_protocol_slot(4).is_empty());
}

#[test]
fn the_creative_item_list_offers_shears_and_no_item_twice() {
    let items = Inventory::all_creative_items();
    assert!(items.contains(&359));
    assert!(items.contains(&423));
    assert!(items.contains(&424));
    for (i, a) in items.iter().enumerate() {
        for b in items.iter().skip(i + 1) {
            assert_ne!(a, b);
        }
    }
}

#[test]
fn window_properties_act_as_a_sorted_map_of_the_open_window() {
    let mut inv = Inventory::new();
    inv.set_open_window(3, "minecraft:furnace".to_string(), "Furnace".to_string(), 3);
    inv.apply_window_property(3, 2, 50);
    inv.apply_window_property(3, 0, 10);
    inv.apply_window_property(3, 1, 20);
    inv.apply_window_property(3, 0, 11);
    assert_eq!(inv.open_window_properties, vec![(0, 11), (1, 20), (2, 50)]);
    inv.apply_window_property(4, 5, 99);
    assert_eq!(inv.open_window_properties, vec![(0, 11), (1, 20), (2, 50)]);
}

#[test]
fn a_player_slot_set_through_an_open_window_reads_back() {
    let mut inv = Inventory::new();
    inv.set_open_window(2, "minecraft:chest".to_string(), "Chest".to_string(), 27);
    let dirt = Slot {
        item_id: 3,
        count: 7,
        damage: 0,
        nbt: None,
    };
    inv.apply_window_slot(2, 27, &dirt);
    assert_eq!(inv.item_for_protocol_slot(27).item_id, 3);
    assert_eq!(inv.item_for_protocol_slot(27).count, 7);
    assert_eq!(inv.slots[9].count, 7);
    inv.apply_window_slot(2, 62, &dirt);
    assert_eq!(inv.item_for_protocol_slot(62).count, 7);
    assert_eq!(inv.slots[8].count, 7);
}

use rustcraft::armor::{
    armor_material_and_slot, armor_texture_name, armor_texture_names, durability_for, is_armor,
    protection_for, total_armor_points, ArmorMaterial,
};
use rustcraft::inventory::{Inventory, ItemStack};

#[test]
fn every_material_uses_its_real_layer_texture_name() {
    assert_eq!(
        armor_texture_name(ArmorMaterial::Chain, 1),
        "chainmail_layer_1"
    );
    assert_eq!(armor_texture_name(ArmorMaterial::Iron, 2), "iron_layer_2");
    assert_eq!(
        armor_texture_name(ArmorMaterial::Diamond, 1),
        "diamond_layer_1"
    );
    assert_eq!(armor_texture_name(ArmorMaterial::Gold, 2), "gold_layer_2");
}

#[test]
fn armor_ids_map_to_material_and_slot() {
    assert_eq!(armor_material_and_slot(298), Some((ArmorMaterial::Leather, 0)));
    assert_eq!(armor_material_and_slot(305), Some((ArmorMaterial::Chain, 3)));
    assert_eq!(armor_material_and_slot(311), Some((ArmorMaterial::Diamond, 1)));
    assert_eq!(armor_material_and_slot(317), Some((ArmorMaterial::Gold, 3)));
    assert_eq!(armor_material_and_slot(318), None);
    assert!(is_armor(298) && is_armor(317) && !is_armor(297));
    assert_eq!(
        armor_texture_names(308),
        Some(("iron_layer_1", "iron_layer_2"))
    );
    assert_eq!(armor_texture_names(1), None);
}

#[test]
fn protection_and_durability_tables() {
    assert_eq!(protection_for(ArmorMaterial::Diamond, 1), 8);
    assert_eq!(protection_for(ArmorMaterial::Leather, 9), 1);
    assert_eq!(durability_for(ArmorMaterial::Diamond, 0), 363);
    assert_eq!(durability_for(ArmorMaterial::Gold, 7), 91);
}

#[test]
fn worn_armor_points_add_up_and_cap_at_25() {
    let mut inv = Inventory::new();
    assert_eq!(total_armor_points(&inv), 0);
    inv.armor[0] = ItemStack::new(310, 1);
    inv.armor[1] = ItemStack::new(311, 1);
    inv.armor[2] = ItemStack::new(312, 1);
    inv.armor[3] = ItemStack::new(313, 1);
    assert_eq!(total_armor_points(&inv), 20);
    inv.armor[3] = ItemStack::new(1, 1);
    assert_eq!(total_armor_points(&inv), 17);
}

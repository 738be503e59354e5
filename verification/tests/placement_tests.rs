use rustcraft::block::Block;
use rustcraft::entity::EntityType;
use rustcraft::placement::{
    attack_tool_wear, block_break_tool_wear, block_is_replaceable_for_placement,
    block_may_consume_activation, entity_prevents_block_placement, is_drinkable, is_food,
    face_normal, is_splash_potion, is_sword, is_throwable, placement_target, plan_item_use_tick,
    predicts_item_use, stacked_snow_layer_state, BlockFace, ItemUseTickPlan,
};

#[test]
fn vanilla_replaceable_blocks_keep_the_clicked_position() {
    assert!(block_is_replaceable_for_placement(Block::Air, 0));
    assert!(block_is_replaceable_for_placement(Block::TallGrass, 0));
    assert!(block_is_replaceable_for_placement(
        Block::SnowLayer,
        Block::SnowLayer.to_id() << 4,
    ));
    assert!(!block_is_replaceable_for_placement(
        Block::SnowLayer,
        (Block::SnowLayer.to_id() << 4) | 1,
    ));
    assert!(!block_is_replaceable_for_placement(Block::Stone, 0));
}

#[test]
fn snow_layers_stack_in_place_until_the_eighth_layer() {
    let base = Block::SnowLayer.to_id() << 4;
    assert_eq!(
        stacked_snow_layer_state(Block::SnowLayer, base | 6, BlockFace::Top),
        Some(base | 7)
    );
    assert_eq!(
        stacked_snow_layer_state(Block::SnowLayer, base | 7, BlockFace::Top),
        None
    );
    assert_eq!(
        stacked_snow_layer_state(Block::SnowLayer, base, BlockFace::East),
        Some(base | 1)
    );
    assert_eq!(
        stacked_snow_layer_state(Block::SnowLayer, base | 1, BlockFace::East),
        None
    );
}

#[test]
fn snow_on_other_blocks_is_placed_next_to_them() {
    assert_eq!(stacked_snow_layer_state(Block::Stone, 0, BlockFace::Top), None);
    assert_eq!(stacked_snow_layer_state(Block::Grass, 0, BlockFace::East), None);
}

#[test]
fn living_entities_and_vehicles_prevent_block_placement() {
    assert!(entity_prevents_block_placement(EntityType::Player));
    assert!(entity_prevents_block_placement(EntityType::Zombie));
    assert!(entity_prevents_block_placement(EntityType::Boat));
    assert!(!entity_prevents_block_placement(EntityType::Item));
    assert!(!entity_prevents_block_placement(EntityType::Arrow));
}

#[test]
fn containers_and_switches_take_the_right_click() {
    assert!(block_may_consume_activation(Block::Chest));
    assert!(block_may_consume_activation(Block::CraftingTable));
    assert!(block_may_consume_activation(Block::Lever));
    assert!(!block_may_consume_activation(Block::Stone));
    assert!(!block_may_consume_activation(Block::Air));
}

#[test]
fn idle_press_and_release_starts_use_for_one_movement_tick() {
    assert_eq!(
        plan_item_use_tick(false, false, 1, 3, true, false),
        ItemUseTickPlan {
            queued_presses: 1,
            ..ItemUseTickPlan::default()
        }
    );
    assert_eq!(
        plan_item_use_tick(true, false, 0, 2, true, false),
        ItemUseTickPlan {
            release: true,
            discard_attacks: true,
            ..ItemUseTickPlan::default()
        }
    );
}

#[test]
fn active_release_and_repress_keeps_blocking_when_final_state_is_held() {
    assert_eq!(
        plan_item_use_tick(true, true, 1, 0, true, false),
        ItemUseTickPlan {
            discard_attacks: true,
            ..ItemUseTickPlan::default()
        }
    );
}

#[test]
fn queued_presses_bypass_delay_but_held_repeat_waits() {
    assert_eq!(
        plan_item_use_tick(false, false, 3, 4, true, false),
        ItemUseTickPlan {
            queued_presses: 3,
            ..ItemUseTickPlan::default()
        }
    );
    assert_eq!(
        plan_item_use_tick(false, true, 0, 1, true, false),
        ItemUseTickPlan::default()
    );
    assert_eq!(
        plan_item_use_tick(false, true, 0, 0, true, false),
        ItemUseTickPlan {
            held_repeat: true,
            ..ItemUseTickPlan::default()
        }
    );
    assert_eq!(
        plan_item_use_tick(false, true, 0, 0, false, false),
        ItemUseTickPlan::default()
    );
}

#[test]
fn active_dig_consumes_right_clicks_without_using_or_repeating() {
    assert_eq!(
        plan_item_use_tick(false, true, 2, 0, true, true),
        ItemUseTickPlan::default()
    );
}

#[test]
fn potion_metadata_and_milk_match_vanilla_use_actions() {
    assert!(is_drinkable(373, 0));
    assert!(!is_splash_potion(373, 0));
    assert!(is_splash_potion(373, 0x4000));
    assert!(!is_drinkable(373, 0x4000));
    assert!(is_drinkable(335, 0));
}

#[test]
fn item_classes_follow_their_ids() {
    assert!(is_sword(276));
    assert!(!is_sword(278));
    assert!(is_food(297));
    assert!(is_food(354));
    assert!(!is_food(1));
    assert!(is_throwable(332));
    assert!(!is_throwable(261));
}

#[test]
fn tools_wear_by_kind() {
    assert_eq!(block_break_tool_wear(278, Block::Stone, false, false), 1);
    assert_eq!(block_break_tool_wear(278, Block::TallGrass, true, false), 0);
    assert_eq!(block_break_tool_wear(276, Block::Stone, false, false), 2);
    assert_eq!(block_break_tool_wear(359, Block::Wool, false, false), 1);
    assert_eq!(block_break_tool_wear(359, Block::Leaves, false, true), 1);
    assert_eq!(block_break_tool_wear(359, Block::Stone, false, false), 0);
    assert_eq!(block_break_tool_wear(1, Block::Stone, false, false), 0);
    assert_eq!(attack_tool_wear(276), 1);
    assert_eq!(attack_tool_wear(278), 2);
    assert_eq!(attack_tool_wear(359), 0);
    assert_eq!(attack_tool_wear(1), 0);
}

use rustcraft::placement::{placement_selects_upper_half, predicted_item_block_state, HorizontalFacing};

#[test]
fn predicted_logs_follow_the_clicked_axis() {
    let x_axis = predicted_item_block_state(
        Block::Log,
        Block::Log.to_id(),
        2,
        BlockFace::East,
        HorizontalFacing::South,
        0,
        false,
    );
    let z_axis = predicted_item_block_state(
        Block::Log,
        Block::Log.to_id(),
        2,
        BlockFace::North,
        HorizontalFacing::South,
        0,
        false,
    );
    assert_eq!(x_axis & 0x0f, 0x06);
    assert_eq!(z_axis & 0x0f, 0x0a);
}

#[test]
fn predicted_stairs_face_the_placer_like_vanilla() {
    // Yaw 0 faces south, 90 west, 180 and -180 north, -90 east.
    let meta = |facing| {
        predicted_item_block_state(
            Block::OakStairs,
            Block::OakStairs.to_id(),
            0,
            BlockFace::Top,
            facing,
            0,
            false,
        ) & 0x0f
    };
    assert_eq!(meta(HorizontalFacing::South), 2);
    assert_eq!(meta(HorizontalFacing::West), 1);
    assert_eq!(meta(HorizontalFacing::North), 3);
    assert_eq!(meta(HorizontalFacing::East), 0);
}

#[test]
fn predicted_stairs_and_slabs_flip_from_the_hit_height() {
    let stairs = |face, above_middle| {
        predicted_item_block_state(
            Block::OakStairs,
            Block::OakStairs.to_id(),
            0,
            face,
            HorizontalFacing::South,
            0,
            above_middle,
        ) & 0x04
    };
    assert_eq!(stairs(BlockFace::Top, true), 0);
    assert_eq!(stairs(BlockFace::Bottom, false), 0x04);
    assert_eq!(stairs(BlockFace::North, false), 0);
    assert_eq!(stairs(BlockFace::North, true), 0x04);

    let slab = |face, above_middle| {
        predicted_item_block_state(
            Block::StoneSlab,
            Block::StoneSlab.to_id(),
            0,
            face,
            HorizontalFacing::South,
            0,
            above_middle,
        ) & 0x08
    };
    assert_eq!(slab(BlockFace::Top, true), 0);
    assert_eq!(slab(BlockFace::Bottom, false), 0x08);
    assert_eq!(slab(BlockFace::East, true), 0x08);
    assert!(!placement_selects_upper_half(BlockFace::North, false));
    assert!(placement_selects_upper_half(BlockFace::North, true));
}

#[test]
fn predicted_directional_blocks_face_toward_the_placer() {
    let furnace = |facing| {
        predicted_item_block_state(
            Block::Furnace,
            Block::Furnace.to_id(),
            0,
            BlockFace::Top,
            facing,
            0,
            true,
        ) & 0x0f
    };
    assert_eq!(furnace(HorizontalFacing::South), 2);
    assert_eq!(furnace(HorizontalFacing::East), 4);

    let pumpkin = |facing| {
        predicted_item_block_state(
            Block::Pumpkin,
            Block::Pumpkin.to_id(),
            0,
            BlockFace::Top,
            facing,
            0,
            true,
        ) & 0x0f
    };
    assert_eq!(pumpkin(HorizontalFacing::South), 2);
    assert_eq!(pumpkin(HorizontalFacing::West), 3);

    let ladder = predicted_item_block_state(
        Block::Ladder,
        Block::Ladder.to_id(),
        0,
        BlockFace::South,
        HorizontalFacing::South,
        0,
        false,
    ) & 0x0f;
    assert_eq!(ladder, 3);

    let wall_torch = predicted_item_block_state(
        Block::Torch,
        Block::Torch.to_id(),
        0,
        BlockFace::East,
        HorizontalFacing::South,
        0,
        false,
    ) & 0x0f;
    assert_eq!(wall_torch, 1);
    let standing_torch = predicted_item_block_state(
        Block::Torch,
        Block::Torch.to_id(),
        0,
        BlockFace::Top,
        HorizontalFacing::South,
        0,
        true,
    ) & 0x0f;
    assert_eq!(standing_torch, 5);
}

#[test]
fn predicted_states_keep_damage_for_plain_blocks_and_rotate_signs() {
    assert_eq!(
        predicted_item_block_state(Block::Wool, 35, 14, BlockFace::Top, HorizontalFacing::South, 0, false),
        (35 << 4) | 14
    );
    assert_eq!(
        predicted_item_block_state(Block::StandingSign, 323, 0, BlockFace::Top, HorizontalFacing::South, 19, false)
            & 0x0f,
        3
    );
    assert_eq!(
        predicted_item_block_state(Block::UnpoweredRepeater, 356, 9, BlockFace::Top, HorizontalFacing::North, 0, false)
            & 0x0f,
        0 | (3 << 2)
    );
}

#[test]
fn placements_fill_the_neighbour_unless_the_clicked_block_is_replaced() {
    assert_eq!(face_normal(BlockFace::Top), (0, 1, 0));
    assert_eq!(face_normal(BlockFace::West), (-1, 0, 0));
    assert_eq!(
        placement_target((5, 64, 7), BlockFace::Top, Block::Stone, 0),
        Some((5, 65, 7))
    );
    assert_eq!(
        placement_target((5, 64, 7), BlockFace::North, Block::Stone, 0),
        Some((5, 64, 6))
    );
    assert_eq!(
        placement_target((5, 64, 7), BlockFace::East, Block::TallGrass, 1),
        Some((5, 64, 7))
    );
    assert_eq!(
        placement_target((5, 64, 7), BlockFace::Top, Block::SnowLayer, 2),
        Some((5, 64, 7))
    );
    assert_eq!(placement_target((0, 255, 0), BlockFace::Top, Block::Stone, 0), None);
    assert_eq!(placement_target((0, 0, 0), BlockFace::Bottom, Block::Stone, 0), None);
}

#[test]
fn sneaking_turns_a_click_on_a_chest_into_an_item_use() {
    assert!(!predicts_item_use(false, Block::Chest));
    assert!(predicts_item_use(true, Block::Chest));
    assert!(predicts_item_use(false, Block::Stone));
}

#[test]
fn the_third_log_block_follows_the_clicked_axis_too() {
    let id = Block::Log3.to_id();
    assert_eq!(id, Block::Log2.to_id());
    let up = predicted_item_block_state(Block::Log3, id, 1, BlockFace::Top, HorizontalFacing::South, 0, false);
    let x = predicted_item_block_state(Block::Log3, id, 1, BlockFace::West, HorizontalFacing::South, 0, false);
    let z = predicted_item_block_state(Block::Log3, id, 1, BlockFace::South, HorizontalFacing::South, 0, false);
    assert_eq!(up, (id << 4) | 0x01);
    assert_eq!(x, (id << 4) | 0x05);
    assert_eq!(z, (id << 4) | 0x09);
}

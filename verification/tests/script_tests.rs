use rustcraft::entity::{entity_api_name, EntityType};
use rustcraft::script::{
    camera_mode, camera_mode_number, dimension_name, item_use_action,
    script_world_block_bounds, script_world_bounds_contain, script_world_bounds_intersect_chunk,
    CameraMode,
};

#[test]
fn stable_entity_names_are_snake_case() {
    assert_eq!(entity_api_name(EntityType::MinecartTNT), "minecart_tnt");
    assert_eq!(entity_api_name(EntityType::XPOrb), "xp_orb");
    assert_eq!(entity_api_name(EntityType::CaveSpider), "cave_spider");
}

#[test]
fn single_word_entity_names_are_lower_case() {
    assert_eq!(entity_api_name(EntityType::Zombie), "zombie");
    assert_eq!(entity_api_name(EntityType::PigZombie), "pig_zombie");
}

#[test]
fn camera_mode_round_trips() {
    for value in 0..=2 {
        assert_eq!(camera_mode_number(camera_mode(value)), value);
    }
}

#[test]
fn unknown_camera_numbers_mean_first_person() {
    assert_eq!(camera_mode(7), CameraMode::FirstPerson);
}

#[test]
fn script_world_bounds_clamp_to_vanilla_height() {
    assert_eq!(
        script_world_block_bounds((0, 0, 0)),
        ((-15, 0, -15), (15, 15, 15))
    );
    assert_eq!(
        script_world_block_bounds((0, 255, 0)),
        ((-15, 240, -15), (15, 255, 15))
    );
}

#[test]
fn script_world_bounds_saturate_at_the_integer_range() {
    assert_eq!(
        script_world_block_bounds((i32::MAX, 64, i32::MIN)),
        ((i32::MAX - 15, 49, i32::MIN), (i32::MAX, 79, i32::MIN + 15))
    );
}

#[test]
fn one_block_shift_only_adds_one_snapshot_face() {
    let previous = script_world_block_bounds((0, 64, 0));
    let next = script_world_block_bounds((1, 64, 0));
    let mut entering = 0;
    for x in next.0 .0..=next.1 .0 {
        for y in next.0 .1..=next.1 .1 {
            for z in next.0 .2..=next.1 .2 {
                entering += usize::from(!script_world_bounds_contain(previous, (x, y, z)));
            }
        }
    }
    assert_eq!(entering, 31 * 31);
}

#[test]
fn chunks_intersect_the_window_they_overlap() {
    let bounds = script_world_block_bounds((0, 64, 0));
    assert!(script_world_bounds_intersect_chunk(bounds, (0, 0)));
    assert!(script_world_bounds_intersect_chunk(bounds, (-1, -1)));
    assert!(!script_world_bounds_intersect_chunk(bounds, (1, 0)));
    assert!(!script_world_bounds_intersect_chunk(bounds, (0, -2)));
}

#[test]
fn item_use_actions_and_dimension_names() {
    assert_eq!(item_use_action(276), "block");
    assert_eq!(item_use_action(373), "drink");
    assert_eq!(item_use_action(261), "bow");
    assert_eq!(item_use_action(297), "eat");
    assert_eq!(item_use_action(1), "use");
    assert_eq!(dimension_name(-1), "the_nether");
    assert_eq!(dimension_name(0), "overworld");
    assert_eq!(dimension_name(1), "the_end");
    assert_eq!(dimension_name(5), "unknown");
}

use rustcraft::script::{script_light_at, LightLevel};

#[test]
fn script_snapshot_prefers_fresh_server_light_nibbles() {
    let server = LightLevel { sky: 7, block: 11 };
    let stale_local = LightLevel { sky: 0, block: 0 };

    let light = script_light_at(true, server, Some(stale_local));

    assert_eq!(light.sky, 7);
    assert_eq!(light.block, 11);
}

#[test]
fn script_light_falls_back_to_local_light_then_darkness() {
    let server = LightLevel { sky: 7, block: 11 };
    let local = LightLevel { sky: 15, block: 2 };
    assert_eq!(script_light_at(false, server, Some(local)), local);
    assert_eq!(script_light_at(false, server, None), LightLevel { sky: 0, block: 0 });
}

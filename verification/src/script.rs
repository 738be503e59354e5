//! Values handed to client scripts: camera modes, item use actions, the
//! block window around the player, dimension names.
use vstd::prelude::*;
use crate::placement::{is_food, is_potion, is_sword, spec_is_food, spec_is_sword};

verus! {

/// Most blocks a script block query reaches from its center, per axis.
pub const MAX_BLOCK_QUERY_RADIUS: i32 = 15;

/// The camera perspective.
#[derive(Clone, Copy, Debug, PartialEq, Eq, Structural)]
pub enum CameraMode {
    FirstPerson,
    ThirdPersonBack,
    ThirdPersonFront,
}

/// The camera mode numbered `value` (1 back, 2 front, anything else first
/// person).
pub open spec fn spec_camera_mode(value: u8) -> CameraMode {
    if value == 1 {
        CameraMode::ThirdPersonBack
    } else if value == 2 {
        CameraMode::ThirdPersonFront
    } else {
        CameraMode::FirstPerson
    }
}

/// The number of a camera mode.
pub open spec fn spec_camera_mode_number(mode: CameraMode) -> u8 {
    match mode {
        CameraMode::FirstPerson => 0,
        CameraMode::ThirdPersonBack => 1,
        CameraMode::ThirdPersonFront => 2,
    }
}

/// The camera mode with number `value`.
pub fn camera_mode(value: u8) -> (r: CameraMode)
    ensures
        r == spec_camera_mode(value),
{
    match value {
        1 => CameraMode::ThirdPersonBack,
        2 => CameraMode::ThirdPersonFront,
        _ => CameraMode::FirstPerson,
    }
}

/// The number of camera mode `value`.
pub fn camera_mode_number(value: CameraMode) -> (r: u8)
    ensures
        r == spec_camera_mode_number(value),
{
    match value {
        CameraMode::FirstPerson => 0,
        CameraMode::ThirdPersonBack => 1,
        CameraMode::ThirdPersonFront => 2,
    }
}

/// A camera mode's number gives the mode back, and each number up to 2
/// gives a mode whose number it is.
pub proof fn lemma_camera_mode_round_trip(mode: CameraMode, value: u8)
    ensures
        spec_camera_mode(spec_camera_mode_number(mode)) == mode,
        value <= 2 ==> spec_camera_mode_number(spec_camera_mode(value)) == value,
{
}

/// The use action scripts see for a held item.
pub open spec fn spec_item_use_action(item_id: u16) -> Seq<char> {
    if spec_is_sword(item_id) {
        seq!['b', 'l', 'o', 'c', 'k']
    } else if item_id == 373 {
        seq!['d', 'r', 'i', 'n', 'k']
    } else if item_id == 261 {
        seq!['b', 'o', 'w']
    } else if spec_is_food(item_id) {
        seq!['e', 'a', 't']
    } else {
        seq!['u', 's', 'e']
    }
}

/// What using item `item_id` does: `block` for swords, `drink` for
/// potions, `bow`, `eat` for food, `use` otherwise.
pub fn item_use_action(item_id: u16) -> (r: &'static str)
    ensures
        r@ == spec_item_use_action(item_id),
{
    if is_sword(item_id) {
        proof {
            reveal_strlit("block");
        }
        "block"
    } else if is_potion(item_id) {
        proof {
            reveal_strlit("drink");
        }
        "drink"
    } else if item_id == 261 {
        proof {
            reveal_strlit("bow");
        }
        "bow"
    } else if is_food(item_id) {
        proof {
            reveal_strlit("eat");
        }
        "eat"
    } else {
        proof {
            reveal_strlit("use");
        }
        "use"
    }
}

/// `x` clamped to the range of `i32`.
pub open spec fn sat_i32(x: int) -> i32 {
    if x < i32::MIN {
        i32::MIN
    } else if x > i32::MAX {
        i32::MAX
    } else {
        x as i32
    }
}

/// The blocks a script snapshot covers around `center`: 15 blocks each
/// way (saturating), height clamped to 0..=255.
pub open spec fn spec_block_bounds(center: (i32, i32, i32)) -> ((i32, i32, i32), (i32, i32, i32)) {
    let r = MAX_BLOCK_QUERY_RADIUS as int;
    let y0 = sat_i32(center.1 - r);
    let y1 = sat_i32(center.1 + r);
    (
        (sat_i32(center.0 - r), if y0 < 0 { 0 } else { y0 }, sat_i32(center.2 - r)),
        (sat_i32(center.0 + r), if y1 > 255 { 255 } else { y1 }, sat_i32(center.2 + r)),
    )
}

fn saturating_offset(x: i32, d: i64) -> (r: i32)
    requires
        -1000 <= d <= 1000,
    ensures
        r == sat_i32(x + d),
{
    let v = x as i64 + d;
    if v < i32::MIN as i64 {
        i32::MIN
    } else if v > i32::MAX as i64 {
        i32::MAX
    } else {
        v as i32
    }
}

/// The block window of a script snapshot around `center`.
pub fn script_world_block_bounds(center: (i32, i32, i32)) -> (r: ((i32, i32, i32), (i32, i32, i32)))
    ensures
        r == spec_block_bounds(center),
{
    let radius = MAX_BLOCK_QUERY_RADIUS as i64;
    let y0 = saturating_offset(center.1, -radius);
    let y1 = saturating_offset(center.1, radius);
    (
        (saturating_offset(center.0, -radius), if y0 < 0 { 0 } else { y0 }, saturating_offset(center.2, -radius)),
        (saturating_offset(center.0, radius), if y1 > 255 { 255 } else { y1 }, saturating_offset(center.2, radius)),
    )
}

/// `position` lies in the box `bounds` (both corners included).
pub open spec fn spec_bounds_contain(bounds: ((i32, i32, i32), (i32, i32, i32)), position: (i32, i32, i32)) -> bool {
    let (min, max) = bounds;
    min.0 <= position.0 <= max.0 && min.1 <= position.1 <= max.1 && min.2 <= position.2 <= max.2
}

/// Whether `position` lies in `bounds`.
pub fn script_world_bounds_contain(bounds: ((i32, i32, i32), (i32, i32, i32)), position: (i32, i32, i32)) -> (r: bool)
    ensures
        r == spec_bounds_contain(bounds, position),
{
    let (min, max) = bounds;
    position.0 >= min.0 && position.0 <= max.0 && position.1 >= min.1 && position.1 <= max.1
        && position.2 >= min.2 && position.2 <= max.2
}

/// The 16x16 column of chunk `chunk` overlaps `bounds` horizontally.
pub open spec fn spec_bounds_intersect_chunk(bounds: ((i32, i32, i32), (i32, i32, i32)), chunk: (i32, i32)) -> bool {
    let (min, max) = bounds;
    chunk.0 * 16 + 15 >= min.0 && chunk.0 * 16 <= max.0 && chunk.1 * 16 + 15 >= min.2 && chunk.1 * 16 <= max.2
}

/// Whether chunk column `chunk` has blocks inside `bounds`.
pub fn script_world_bounds_intersect_chunk(bounds: ((i32, i32, i32), (i32, i32, i32)), chunk: (i32, i32)) -> (r: bool)
    ensures
        r == spec_bounds_intersect_chunk(bounds, chunk),
{
    let (min, max) = bounds;
    let chunk_min_x = chunk.0 as i64 * 16;
    let chunk_min_z = chunk.1 as i64 * 16;
    let chunk_max_x = chunk_min_x + 15;
    let chunk_max_z = chunk_min_z + 15;
    chunk_max_x >= min.0 as i64 && chunk_min_x <= max.0 as i64 && chunk_max_z >= min.2 as i64
        && chunk_min_z <= max.2 as i64
}

/// Every block inside the window around a center lies within 15 blocks of
/// it on each axis; the center itself is inside when its height is
/// 0..=255.
pub proof fn lemma_block_bounds_around_center(center: (i32, i32, i32), position: (i32, i32, i32))
    ensures
        spec_bounds_contain(spec_block_bounds(center), position) ==> {
            &&& center.0 - 15 <= position.0 <= center.0 + 15
            &&& center.1 - 15 <= position.1 <= center.1 + 15
            &&& center.2 - 15 <= position.2 <= center.2 + 15
            &&& 0 <= position.1 <= 255
        },
        0 <= center.1 <= 255 ==> spec_bounds_contain(spec_block_bounds(center), center),
{
}

/// Moving the window one block east adds exactly its new east face: a
/// block is in the new window and not the old one exactly when it is in
/// the new window at x = center + 16 (away from the ends of the `i32`
/// range).
pub proof fn lemma_one_block_shift_adds_one_face(center: (i32, i32, i32), pos: (i32, i32, i32))
    requires
        i32::MIN + 15 <= center.0 && center.0 + 16 <= i32::MAX,
    ensures
        ({
            let next = spec_block_bounds(((center.0 + 1) as i32, center.1, center.2));
            let prev = spec_block_bounds(center);
            (spec_bounds_contain(next, pos) && !spec_bounds_contain(prev, pos)) <==> (spec_bounds_contain(next, pos)
                && pos.0 == center.0 + 16)
        }),
{
}

/// The name of a dimension id.
pub open spec fn spec_dimension_name(dimension: i8) -> Seq<char> {
    if dimension == -1 {
        seq!['t', 'h', 'e', '_', 'n', 'e', 't', 'h', 'e', 'r']
    } else if dimension == 0 {
        seq!['o', 'v', 'e', 'r', 'w', 'o', 'r', 'l', 'd']
    } else if dimension == 1 {
        seq!['t', 'h', 'e', '_', 'e', 'n', 'd']
    } else {
        seq!['u', 'n', 'k', 'n', 'o', 'w', 'n']
    }
}

/// The name scripts see for dimension `dimension`.
pub fn dimension_name(dimension: i8) -> (r: &'static str)
    ensures
        r@ == spec_dimension_name(dimension),
{
    match dimension {
        -1 => {
            proof {
                reveal_strlit("the_nether");
            }
            "the_nether"
        },
        0 => {
            proof {
                reveal_strlit("overworld");
            }
            "overworld"
        },
        1 => {
            proof {
                reveal_strlit("the_end");
            }
            "the_end"
        },
        _ => {
            proof {
                reveal_strlit("unknown");
            }
            "unknown"
        },
    }
}


/// The sky and block light of a block, each 0..=15.
#[derive(Clone, Copy, Debug, PartialEq, Eq, Structural)]
pub struct LightLevel {
    pub sky: u8,
    pub block: u8,
}

/// The light scripts see at a block: the server's light while the chunk's
/// server light is fresh, else the locally computed light, else darkness.
pub open spec fn spec_script_light(network_light_valid: bool, network_light: LightLevel, local_light: Option<LightLevel>) -> LightLevel {
    if network_light_valid {
        network_light
    } else {
        match local_light {
            Some(l) => l,
            None => LightLevel { sky: 0, block: 0 },
        }
    }
}

/// Chooses the light of a block for a script snapshot, from the chunk's
/// server light at the block and the locally computed light there.
pub fn script_light_at(network_light_valid: bool, network_light: LightLevel, local_light: Option<LightLevel>) -> (r: LightLevel)
    ensures
        r == spec_script_light(network_light_valid, network_light, local_light),
{
    if network_light_valid {
        network_light
    } else {
        match local_light {
            Some(l) => l,
            None => LightLevel { sky: 0, block: 0 },
        }
    }
}

} // verus!

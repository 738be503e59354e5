//! Block placement and item use decisions: which blocks a placement
//! replaces, snow layer stacking, which blocks take a right click, which
//! block a placement fills, which entities block a placement, the
//! per-tick item use plan, and tool wear.
use vstd::prelude::*;
use crate::block::Block;
use crate::entity::{spec_is_mob, EntityType};

verus! {

/// The face of a block that a ray hit.
#[derive(Clone, Copy, Debug, PartialEq, Eq, Structural)]
pub enum BlockFace {
    Bottom,
    Top,
    North,
    South,
    West,
    East,
}

/// Blocks that a placement replaces in place: air, tall grass, dead bush,
/// large flowers, vines, fire, and a snow layer of a single layer.
pub open spec fn spec_replaceable(block: Block, state: u16) -> bool {
    block == Block::Air || block == Block::TallGrass || block == Block::DeadBush || block
        == Block::LargeFlower || block == Block::Vine || block == Block::Fire || (block
        == Block::SnowLayer && state & 0x07 == 0)
}

/// Whether placing against `block` (with block state `state`) replaces it
/// rather than placing next to it.
pub fn block_is_replaceable_for_placement(block: Block, state: u16) -> (r: bool)
    ensures
        r == spec_replaceable(block, state),
{
    match block {
        Block::Air | Block::TallGrass | Block::DeadBush | Block::LargeFlower | Block::Vine
        | Block::Fire => true,
        Block::SnowLayer => state & 0x07 == 0,
        _ => false,
    }
}

/// Snow placed on snow: on the top face, or on a replaceable single layer,
/// the layer count (the low three bits) grows by one while below eight.
pub open spec fn spec_stacked_snow(block: Block, state: u16, face: BlockFace) -> Option<u16> {
    if block != Block::SnowLayer || (face != BlockFace::Top && !spec_replaceable(block, state)) {
        None
    } else if state & 0x07 < 7 {
        Some(((state & !0x07u16) | ((state & 0x07) + 1) as u16) as u16)
    } else {
        None
    }
}

/// The block state a snow layer placed on `block` at `face` stacks into,
/// or `None` when the placement goes next to it instead.
pub fn stacked_snow_layer_state(block: Block, state: u16, face: BlockFace) -> (r: Option<u16>)
    ensures
        r == spec_stacked_snow(block, state, face),
{
    if block != Block::SnowLayer || (face != BlockFace::Top && !block_is_replaceable_for_placement(
        block,
        state,
    )) {
        return None;
    }
    let metadata = state & 0x07;
    assert(metadata <= 7) by (bit_vector)
        requires
            metadata == state & 0x07,
    ;
    if metadata < 7 {
        Some((state & !0x07u16) | (metadata + 1))
    } else {
        None
    }
}

/// Placing snow on the top of a snow layer with fewer than eight layers
/// adds one layer in place (the state's next value, upper bits kept); on a
/// full layer it is placed on top instead.
pub proof fn lemma_snow_layers_stack(state: u16)
    ensures
        state & 0x07 < 7 ==> spec_stacked_snow(Block::SnowLayer, state, BlockFace::Top) == Some((state + 1) as u16),
        state & 0x07 == 7 ==> spec_stacked_snow(Block::SnowLayer, state, BlockFace::Top) is None,
{
    if state & 0x07 < 7 {
        assert(((state & !0x07u16) | ((state & 0x07) + 1) as u16) as u16 == (state + 1) as u16) by (bit_vector)
            requires
                state & 0x07 < 7,
        ;
    }
}

/// Blocks whose right click may open or toggle something, so that a
/// placement against them is sent as an activation.
pub open spec fn spec_may_consume_activation(block: Block) -> bool {
    block == Block::Anvil
        || block == Block::Beacon
        || block == Block::Bed
        || block == Block::BrewingStand
        || block == Block::StoneButton
        || block == Block::WoodenButton
        || block == Block::Cake
        || block == Block::Cauldron
        || block == Block::Chest
        || block == Block::TrappedChest
        || block == Block::CommandBlock
        || block == Block::DaylightDetector
        || block == Block::Dispenser
        || block == Block::Dropper
        || block == Block::OakDoor
        || block == Block::SpruceDoor
        || block == Block::BirchDoor
        || block == Block::JungleDoor
        || block == Block::AcaciaDoor
        || block == Block::DarkOakDoor
        || block == Block::DragonEgg
        || block == Block::EnchantingTable
        || block == Block::EnderChest
        || block == Block::OakFence
        || block == Block::SpruceFence
        || block == Block::BirchFence
        || block == Block::JungleFence
        || block == Block::DarkOakFence
        || block == Block::AcaciaFence
        || block == Block::OakFenceGate
        || block == Block::SpruceFenceGate
        || block == Block::BirchFenceGate
        || block == Block::JungleFenceGate
        || block == Block::DarkOakFenceGate
        || block == Block::AcaciaFenceGate
        || block == Block::FlowerPot
        || block == Block::Furnace
        || block == Block::LitFurnace
        || block == Block::Hopper
        || block == Block::Jukebox
        || block == Block::Lever
        || block == Block::NoteBlock
        || block == Block::UnpoweredComparator
        || block == Block::PoweredComparator
        || block == Block::UnpoweredRepeater
        || block == Block::PoweredRepeater
        || block == Block::StandingSign
        || block == Block::WallSign
        || block == Block::Trapdoor
        || block == Block::IronTrapdoor
        || block == Block::CraftingTable
}

/// Whether a right click on `block` may be consumed by the block itself.
pub fn block_may_consume_activation(block: Block) -> (r: bool)
    ensures
        r == spec_may_consume_activation(block),
{
    match block {
        Block::Anvil
        | Block::Beacon
        | Block::Bed
        | Block::BrewingStand
        | Block::StoneButton
        | Block::WoodenButton
        | Block::Cake
        | Block::Cauldron
        | Block::Chest
        | Block::TrappedChest
        | Block::CommandBlock
        | Block::DaylightDetector
        | Block::Dispenser
        | Block::Dropper
        | Block::OakDoor
        | Block::SpruceDoor
        | Block::BirchDoor
        | Block::JungleDoor
        | Block::AcaciaDoor
        | Block::DarkOakDoor
        | Block::DragonEgg
        | Block::EnchantingTable
        | Block::EnderChest
        | Block::OakFence
        | Block::SpruceFence
        | Block::BirchFence
        | Block::JungleFence
        | Block::DarkOakFence
        | Block::AcaciaFence
        | Block::OakFenceGate
        | Block::SpruceFenceGate
        | Block::BirchFenceGate
        | Block::JungleFenceGate
        | Block::DarkOakFenceGate
        | Block::AcaciaFenceGate
        | Block::FlowerPot
        | Block::Furnace
        | Block::LitFurnace
        | Block::Hopper
        | Block::Jukebox
        | Block::Lever
        | Block::NoteBlock
        | Block::UnpoweredComparator
        | Block::PoweredComparator
        | Block::UnpoweredRepeater
        | Block::PoweredRepeater
        | Block::StandingSign
        | Block::WallSign
        | Block::Trapdoor
        | Block::IronTrapdoor
        | Block::CraftingTable => true,
        _ => false,
    }
}

/// Entities whose box blocks a placement: mobs, players, boats,
/// Number of block layers in a chunk column; placements outside `0..256`
/// in height are not predicted.
pub const CHUNK_HEIGHT: i32 = 256;

/// The unit step out of a block through `face`: down, up, north (-z),
/// south (+z), west (-x), east (+x).
pub open spec fn spec_face_normal(face: BlockFace) -> (i32, i32, i32) {
    match face {
        BlockFace::Bottom => (0, -1i32, 0),
        BlockFace::Top => (0, 1, 0),
        BlockFace::North => (0, 0, -1i32),
        BlockFace::South => (0, 0, 1),
        BlockFace::West => (-1i32, 0, 0),
        BlockFace::East => (1, 0, 0),
    }
}

/// The unit step out of a block through `face`.
pub fn face_normal(face: BlockFace) -> (r: (i32, i32, i32))
    ensures
        r == spec_face_normal(face),
{
    match face {
        BlockFace::Bottom => (0, -1, 0),
        BlockFace::Top => (0, 1, 0),
        BlockFace::North => (0, 0, -1),
        BlockFace::South => (0, 0, 1),
        BlockFace::West => (-1, 0, 0),
        BlockFace::East => (1, 0, 0),
    }
}

/// Whether an item used on a block goes through to the item (a block
/// placement) rather than to the block: always while sneaking, else only
/// when the block does not take the right click itself.
pub open spec fn spec_predicts_item_use(sneaking: bool, clicked: Block) -> bool {
    sneaking || !spec_may_consume_activation(clicked)
}

/// Whether using the held item on `clicked` is an item use (see
/// `spec_predicts_item_use`).
pub fn predicts_item_use(sneaking: bool, clicked: Block) -> (r: bool)
    ensures
        r == spec_predicts_item_use(sneaking, clicked),
{
    sneaking || !block_may_consume_activation(clicked)
}

/// Whether a placement against `clicked` (state `state`) through `face`
/// goes into the clicked block itself: snow stacking onto snow, or a
/// replaceable block.
pub open spec fn spec_places_in_hit_block(clicked: Block, state: u16, face: BlockFace) -> bool {
    spec_stacked_snow(clicked, state, face) is Some || spec_replaceable(clicked, state)
}

/// Whether the block next to `pos` through `face` has `i32` coordinates.
pub open spec fn neighbour_fits(pos: (i32, i32, i32), face: BlockFace) -> bool {
    let n = spec_face_normal(face);
    &&& i32::MIN <= pos.0 + n.0 <= i32::MAX
    &&& i32::MIN <= pos.1 + n.1 <= i32::MAX
    &&& i32::MIN <= pos.2 + n.2 <= i32::MAX
}

/// The block a placement against `hit_pos` through `face` fills: the
/// clicked block where it takes the placement itself, else its neighbour
/// through `face`; `None` where that block lies outside the world's
/// height.
pub open spec fn spec_placement_target(
    hit_pos: (i32, i32, i32),
    face: BlockFace,
    clicked: Block,
    state: u16,
) -> Option<(i32, i32, i32)> {
    let n = spec_face_normal(face);
    let pos = if spec_places_in_hit_block(clicked, state, face) {
        hit_pos
    } else {
        ((hit_pos.0 + n.0) as i32, (hit_pos.1 + n.1) as i32, (hit_pos.2 + n.2) as i32)
    };
    if 0 <= pos.1 < CHUNK_HEIGHT {
        Some(pos)
    } else {
        None
    }
}

/// The block that a placement against `hit_pos` through `face` would fill
/// (see `spec_placement_target`).
pub fn placement_target(hit_pos: (i32, i32, i32), face: BlockFace, clicked: Block, state: u16) -> (r: Option<(i32, i32, i32)>)
    requires
        !spec_places_in_hit_block(clicked, state, face) ==> neighbour_fits(hit_pos, face),
    ensures
        r == spec_placement_target(hit_pos, face, clicked, state),
{
    let in_place = stacked_snow_layer_state(clicked, state, face).is_some()
        || block_is_replaceable_for_placement(clicked, state);
    let pos = if in_place {
        hit_pos
    } else {
        let n = face_normal(face);
        (hit_pos.0 + n.0, hit_pos.1 + n.1, hit_pos.2 + n.2)
    };
    if 0 <= pos.1 && pos.1 < CHUNK_HEIGHT {
        Some(pos)
    } else {
        None
    }
}

/// minecarts, primed TNT and falling blocks.
pub open spec fn spec_prevents_placement(t: EntityType) -> bool {
    spec_is_mob(t) || t == EntityType::Player
        || t == EntityType::Boat
        || t == EntityType::MinecartEmpty
        || t == EntityType::MinecartChest
        || t == EntityType::MinecartFurnace
        || t == EntityType::MinecartTNT
        || t == EntityType::MinecartSpawner
        || t == EntityType::MinecartHopper
        || t == EntityType::MinecartCommand
        || t == EntityType::PrimedTnt
        || t == EntityType::FallingBlock
}

/// Whether an entity of kind `entity_type` keeps a block from being placed
/// where it stands.
pub fn entity_prevents_block_placement(entity_type: EntityType) -> (r: bool)
    ensures
        r == spec_prevents_placement(entity_type),
{
    entity_type.is_mob() || match entity_type {
        EntityType::Player
        | EntityType::Boat
        | EntityType::MinecartEmpty
        | EntityType::MinecartChest
        | EntityType::MinecartFurnace
        | EntityType::MinecartTNT
        | EntityType::MinecartSpawner
        | EntityType::MinecartHopper
        | EntityType::MinecartCommand
        | EntityType::PrimedTnt
        | EntityType::FallingBlock => true,
        _ => false,
    }
}

/// What one game tick does with the use-item input.
#[derive(Clone, Copy, Debug, PartialEq, Eq, Structural)]
pub struct ItemUseTickPlan {
    /// Release the item in use.
    pub release: bool,
    /// Presses to start a use for, ignoring the repeat delay.
    pub queued_presses: u32,
    /// Repeat the use because the key is held and the delay ran out.
    pub held_repeat: bool,
    /// Drop the attacks queued this tick.
    pub discard_attacks: bool,
}

/// The plan that does nothing.
pub open spec fn idle_plan() -> ItemUseTickPlan {
    ItemUseTickPlan { release: false, queued_presses: 0, held_repeat: false, discard_attacks: false }
}

/// The use-item decision of one tick: while an item is in use, release it
/// once the key is up and drop queued attacks; while a block is being hit,
/// nothing; otherwise queued presses start uses, or a held key repeats once
/// the delay is over.
pub open spec fn spec_plan_item_use_tick(
    active: bool,
    held: bool,
    queued_presses: u32,
    repeat_delay: u8,
    repeat_ready: bool,
    hitting_block: bool,
) -> ItemUseTickPlan {
    if active {
        ItemUseTickPlan { release: !held, discard_attacks: true, ..idle_plan() }
    } else if hitting_block {
        idle_plan()
    } else if queued_presses > 0 {
        ItemUseTickPlan { queued_presses, ..idle_plan() }
    } else {
        ItemUseTickPlan { held_repeat: held && repeat_delay == 0 && repeat_ready, ..idle_plan() }
    }
}

impl Default for ItemUseTickPlan {
    fn default() -> (r: ItemUseTickPlan)
        ensures
            r == idle_plan(),
    {
        ItemUseTickPlan::idle()
    }
}

impl ItemUseTickPlan {
    /// The plan that does nothing.
    pub fn idle() -> (r: ItemUseTickPlan)
        ensures
            r == idle_plan(),
    {
        ItemUseTickPlan { release: false, queued_presses: 0, held_repeat: false, discard_attacks: false }
    }
}

/// Plans the use-item input of one game tick.
pub fn plan_item_use_tick(
    active: bool,
    held: bool,
    queued_presses: u32,
    repeat_delay: u8,
    repeat_ready: bool,
    hitting_block: bool,
) -> (r: ItemUseTickPlan)
    ensures
        r == spec_plan_item_use_tick(active, held, queued_presses, repeat_delay, repeat_ready, hitting_block),
{
    if active {
        return ItemUseTickPlan { release: !held, discard_attacks: true, ..ItemUseTickPlan::idle() };
    }
    if hitting_block {
        return ItemUseTickPlan::idle();
    }
    if queued_presses > 0 {
        return ItemUseTickPlan { queued_presses, ..ItemUseTickPlan::idle() };
    }
    ItemUseTickPlan { held_repeat: held && repeat_delay == 0 && repeat_ready, ..ItemUseTickPlan::idle() }
}

/// Swords: wood, stone, iron, diamond and gold.
pub open spec fn spec_is_sword(id: u16) -> bool {
    id == 267 || id == 268 || id == 272 || id == 276 || id == 283
}

/// Whether item `id` is a sword.
pub fn is_sword(id: u16) -> (r: bool)
    ensures
        r == spec_is_sword(id),
{
    id == 267 || id == 268 || id == 272 || id == 276 || id == 283
}

/// Food items.
pub open spec fn spec_is_food(id: u16) -> bool {
    id == 260 || id == 282 || id == 297 || id == 322 || id == 349 || id == 350 || id == 357 || id == 360 || id == 363 || id == 364 || id == 365 || id == 366 || id == 367 || id == 391 || id == 392 || id == 393 || id == 400 || id == 411 || id == 412 || id == 413 || id == 423 || id == 424 || id == 354
}

/// Whether item `id` is eaten.
pub fn is_food(id: u16) -> (r: bool)
    ensures
        r == spec_is_food(id),
{
    match id {
        260 | 282 | 297 | 322 | 349 | 350 | 357 | 360 | 363 | 364 | 365 | 366 | 367 | 391 | 392 | 393 | 400 | 411 | 412 | 413 | 423 | 424 | 354 => true,
        _ => false,
    }
}

/// Whether item `id` is a potion.
pub fn is_potion(id: u16) -> (r: bool)
    ensures
        r == (id == 373),
{
    id == 373
}

/// A splash potion: a potion with damage bit 0x4000 set.
pub open spec fn spec_is_splash_potion(id: u16, damage: u16) -> bool {
    id == 373 && damage & 0x4000 != 0
}

/// Whether the item is a splash potion.
pub fn is_splash_potion(id: u16, damage: u16) -> (r: bool)
    ensures
        r == spec_is_splash_potion(id, damage),
{
    is_potion(id) && damage & 0x4000 != 0
}

/// Drunk items: milk, and potions that are not splash potions.
pub open spec fn spec_is_drinkable(id: u16, damage: u16) -> bool {
    id == 335 || (id == 373 && !spec_is_splash_potion(id, damage))
}

/// Whether the item is drunk.
pub fn is_drinkable(id: u16, damage: u16) -> (r: bool)
    ensures
        r == spec_is_drinkable(id, damage),
{
    id == 335 || (is_potion(id) && !is_splash_potion(id, damage))
}

/// Thrown items: snowball, egg, ender pearl, eye of ender, bottle o'
/// enchanting.
pub open spec fn spec_is_throwable(id: u16) -> bool {
    id == 332 || id == 344 || id == 368 || id == 381 || id == 384
}

/// Whether item `id` is thrown when used.
pub fn is_throwable(id: u16) -> (r: bool)
    ensures
        r == spec_is_throwable(id),
{
    match id {
        332 | 344 | 368 | 381 | 384 => true,
        _ => false,
    }
}

/// The class of a tool item.
#[derive(Clone, Copy, Debug, PartialEq, Eq, Structural)]
pub enum ToolKind {
    Pickaxe,
    Axe,
    Shovel,
    Sword,
    Shears,
    Hand,
}

/// The tool class of each item, with its harvest level (wood and gold 0,
/// stone 1, iron 2, diamond 3).
pub open spec fn spec_held_tool(item_id: u16) -> (ToolKind, i32) {
    if item_id == 268 {
        (ToolKind::Sword, 0)
    } else if item_id == 269 {
        (ToolKind::Shovel, 0)
    } else if item_id == 270 {
        (ToolKind::Pickaxe, 0)
    } else if item_id == 271 {
        (ToolKind::Axe, 0)
    } else if item_id == 272 {
        (ToolKind::Sword, 1)
    } else if item_id == 273 {
        (ToolKind::Shovel, 1)
    } else if item_id == 274 {
        (ToolKind::Pickaxe, 1)
    } else if item_id == 275 {
        (ToolKind::Axe, 1)
    } else if item_id == 256 {
        (ToolKind::Shovel, 2)
    } else if item_id == 257 {
        (ToolKind::Pickaxe, 2)
    } else if item_id == 258 {
        (ToolKind::Axe, 2)
    } else if item_id == 267 {
        (ToolKind::Sword, 2)
    } else if item_id == 276 {
        (ToolKind::Sword, 3)
    } else if item_id == 277 {
        (ToolKind::Shovel, 3)
    } else if item_id == 278 {
        (ToolKind::Pickaxe, 3)
    } else if item_id == 279 {
        (ToolKind::Axe, 3)
    } else if item_id == 283 {
        (ToolKind::Sword, 0)
    } else if item_id == 284 {
        (ToolKind::Shovel, 0)
    } else if item_id == 285 {
        (ToolKind::Pickaxe, 0)
    } else if item_id == 286 {
        (ToolKind::Axe, 0)
    } else if item_id == 359 {
        (ToolKind::Shears, 0)
    } else {
        (ToolKind::Hand, 0)
    }
}

/// The tool class and harvest level of item `item_id`.
pub fn held_tool_kind(item_id: u16) -> (r: (ToolKind, i32))
    ensures
        r == spec_held_tool(item_id),
{
    match item_id {
        268 => (ToolKind::Sword, 0),
        269 => (ToolKind::Shovel, 0),
        270 => (ToolKind::Pickaxe, 0),
        271 => (ToolKind::Axe, 0),
        272 => (ToolKind::Sword, 1),
        273 => (ToolKind::Shovel, 1),
        274 => (ToolKind::Pickaxe, 1),
        275 => (ToolKind::Axe, 1),
        256 => (ToolKind::Shovel, 2),
        257 => (ToolKind::Pickaxe, 2),
        258 => (ToolKind::Axe, 2),
        267 => (ToolKind::Sword, 2),
        276 => (ToolKind::Sword, 3),
        277 => (ToolKind::Shovel, 3),
        278 => (ToolKind::Pickaxe, 3),
        279 => (ToolKind::Axe, 3),
        283 => (ToolKind::Sword, 0),
        284 => (ToolKind::Shovel, 0),
        285 => (ToolKind::Pickaxe, 0),
        286 => (ToolKind::Axe, 0),
        359 => (ToolKind::Shears, 0),
        _ => (ToolKind::Hand, 0),
    }
}

/// Blocks shears wear on besides leaves: cobweb, tall grass, vines,
/// tripwire and wool.
pub open spec fn spec_shearable(block: Block) -> bool {
    block == Block::Cobweb || block == Block::TallGrass || block == Block::Vine || block
        == Block::Tripwire || block == Block::Wool
}

/// Durability a tool loses breaking a block: mining tools 1 and swords 2
/// on blocks that do not break instantly, shears 1 on leaves and their
/// other shearable blocks, anything else nothing.
pub open spec fn spec_block_break_tool_wear(
    item_id: u16,
    block: Block,
    breaks_instantly: bool,
    leaves: bool,
) -> i32 {
    match spec_held_tool(item_id).0 {
        ToolKind::Pickaxe | ToolKind::Axe | ToolKind::Shovel => if breaks_instantly { 0 } else { 1 },
        ToolKind::Sword => if breaks_instantly { 0 } else { 2 },
        ToolKind::Shears => if leaves || spec_shearable(block) { 1 } else { 0 },
        ToolKind::Hand => 0,
    }
}

/// Durability item `item_id` loses breaking `block`; `breaks_instantly` is
/// whether the block's hardness is zero and `leaves` whether its material
/// is leaves.
pub fn block_break_tool_wear(item_id: u16, block: Block, breaks_instantly: bool, leaves: bool) -> (r: i32)
    ensures
        r == spec_block_break_tool_wear(item_id, block, breaks_instantly, leaves),
{
    let (kind, _) = held_tool_kind(item_id);
    match kind {
        ToolKind::Pickaxe | ToolKind::Axe | ToolKind::Shovel => if breaks_instantly { 0 } else { 1 },
        ToolKind::Sword => if breaks_instantly { 0 } else { 2 },
        ToolKind::Shears => {
            if leaves || matches!(block, Block::Cobweb | Block::TallGrass | Block::Vine | Block::Tripwire | Block::Wool) {
                1
            } else {
                0
            }
        },
        ToolKind::Hand => 0,
    }
}

/// Durability a held item loses hitting an entity: swords 1, mining
/// tools 2, anything else nothing.
pub open spec fn spec_attack_tool_wear(item_id: u16) -> i32 {
    match spec_held_tool(item_id).0 {
        ToolKind::Sword => 1,
        ToolKind::Pickaxe | ToolKind::Axe | ToolKind::Shovel => 2,
        _ => 0,
    }
}

/// Durability item `item_id` loses hitting an entity.
pub fn attack_tool_wear(item_id: u16) -> (r: i32)
    ensures
        r == spec_attack_tool_wear(item_id),
{
    let (kind, _) = held_tool_kind(item_id);
    match kind {
        ToolKind::Sword => 1,
        ToolKind::Pickaxe | ToolKind::Axe | ToolKind::Shovel => 2,
        ToolKind::Shears | ToolKind::Hand => 0,
    }
}


/// The horizontal direction a player faces, in the order of the yaw
/// quadrants (south, west, north, east).
#[derive(Clone, Copy, Debug, PartialEq, Eq, Structural)]
pub enum HorizontalFacing {
    South,
    West,
    North,
    East,
}

/// The entry of a four-entry table (south, west, north, east) for a facing.
pub open spec fn by_facing(f: HorizontalFacing, s: u8, w: u8, n: u8, e: u8) -> u8 {
    match f {
        HorizontalFacing::South => s,
        HorizontalFacing::West => w,
        HorizontalFacing::North => n,
        HorizontalFacing::East => e,
    }
}

fn by_facing_exec(f: HorizontalFacing, s: u8, w: u8, n: u8, e: u8) -> (r: u8)
    ensures
        r == by_facing(f, s, w, n, e),
{
    match f {
        HorizontalFacing::South => s,
        HorizontalFacing::West => w,
        HorizontalFacing::North => n,
        HorizontalFacing::East => e,
    }
}

/// Slabs and stairs go to the upper half when the bottom face is clicked,
/// or a side face above its middle.
pub open spec fn spec_upper_half(face: BlockFace, hit_above_middle: bool) -> bool {
    match face {
        BlockFace::Bottom => true,
        BlockFace::Top => false,
        _ => hit_above_middle,
    }
}

/// Whether a slab or stair placed on `face` takes the upper half, given
/// whether the hit lies above the middle of the face.
pub fn placement_selects_upper_half(face: BlockFace, hit_above_middle: bool) -> (r: bool)
    ensures
        r == spec_upper_half(face, hit_above_middle),
{
    match face {
        BlockFace::Bottom => true,
        BlockFace::Top => false,
        _ => hit_above_middle,
    }
}

/// The metadata a placed block gets: logs take their axis from the face,
/// slabs and stairs their half, directional blocks their facing from the
/// player or the face, repeaters and anvils keep part of the damage value,
/// colored blocks their color, signs and banners a sixteenth rotation;
/// other blocks keep the low four bits of the damage value.
pub open spec fn spec_placed_metadata(
    block: Block,
    damage: u16,
    face: BlockFace,
    facing: HorizontalFacing,
    sign_rotation: i32,
    hit_above_middle: bool,
) -> u8 {
    let metadata = (damage & 0x0f) as u8;
    let dmg3 = if damage < 3 { damage as u8 } else { 3u8 };
    if block == Block::Log || block == Block::Log2 || block == Block::Log3 || block == Block::HayBlock {
        ((metadata & 0x03) | match face {
            BlockFace::East | BlockFace::West => 0x04u8,
            BlockFace::North | BlockFace::South => 0x08u8,
            _ => 0u8,
        }) as u8
    } else if block == Block::StoneSlab || block == Block::WoodSlab {
        if spec_upper_half(face, hit_above_middle) {
            ((metadata & 0x07) | 0x08) as u8
        } else {
            (metadata & 0x07) as u8
        }
    } else if block == Block::OakStairs || block == Block::SpruceStairs || block == Block::BirchStairs || block == Block::JungleStairs || block == Block::AcaciaStairs || block == Block::DarkOakStairs || block == Block::CobblestoneStairs || block == Block::BrickStairs || block == Block::StoneBrickStairs || block == Block::NetherBrickStairs || block == Block::SandstoneStairs || block == Block::QuartzStairs || block == Block::RedSandstoneStairs {
        if spec_upper_half(face, hit_above_middle) {
            (by_facing(facing, 2, 1, 3, 0) | 0x04) as u8
        } else {
            by_facing(facing, 2, 1, 3, 0)
        }
    } else if block == Block::Furnace || block == Block::LitFurnace || block == Block::Chest || block == Block::TrappedChest || block == Block::EnderChest {
        by_facing(facing, 2, 5, 3, 4)
    } else if block == Block::Pumpkin || block == Block::JackOLantern {
        by_facing(facing, 2, 3, 0, 1)
    } else if block == Block::Ladder {
        match face {
            BlockFace::North => 2,
            BlockFace::South => 3,
            BlockFace::West => 4,
            BlockFace::East => 5,
            _ => metadata,
        }
    } else if block == Block::Torch || block == Block::RedstoneTorch || block == Block::UnlitRedstoneTorch {
        match face {
            BlockFace::East => 1,
            BlockFace::West => 2,
            BlockFace::South => 3,
            BlockFace::North => 4,
            BlockFace::Top => 5,
            BlockFace::Bottom => metadata,
        }
    } else if block == Block::Lever {
        let along_z = facing == HorizontalFacing::South || facing == HorizontalFacing::North;
        match face {
            BlockFace::East => 1,
            BlockFace::West => 2,
            BlockFace::South => 3,
            BlockFace::North => 4,
            BlockFace::Top => if along_z { 5 } else { 6 },
            BlockFace::Bottom => if along_z { 7 } else { 0 },
        }
    } else if block == Block::StoneButton || block == Block::WoodenButton {
        match face {
            BlockFace::Bottom => 0,
            BlockFace::East => 1,
            BlockFace::West => 2,
            BlockFace::South => 3,
            BlockFace::North => 4,
            BlockFace::Top => 5,
        }
    } else if block == Block::Trapdoor || block == Block::IronTrapdoor {
        let f: u8 = match face {
            BlockFace::North => 0,
            BlockFace::South => 1,
            BlockFace::West => 2,
            BlockFace::East => 3,
            _ => 0,
        };
        if hit_above_middle {
            (f | 0x08) as u8
        } else {
            f
        }
    } else if block == Block::OakFenceGate || block == Block::SpruceFenceGate || block == Block::BirchFenceGate || block == Block::JungleFenceGate || block == Block::AcaciaFenceGate || block == Block::DarkOakFenceGate {
        by_facing(facing, 0, 1, 2, 3)
    } else if block == Block::UnpoweredRepeater || block == Block::PoweredRepeater {
        (by_facing(facing, 2, 3, 0, 1) | ((dmg3 << 2u8) as u8)) as u8
    } else if block == Block::UnpoweredComparator || block == Block::PoweredComparator || block == Block::EndPortalFrame || block == Block::Bed {
        by_facing(facing, 2, 3, 0, 1)
    } else if block == Block::Anvil {
        (by_facing(facing, 2, 3, 0, 1) | (((dmg3 & 0x03) << 2u8) as u8)) as u8
    } else if block == Block::TripwireHook {
        match face {
            BlockFace::South => 0,
            BlockFace::West => 1,
            BlockFace::North => 2,
            BlockFace::East => 3,
            _ => 2,
        }
    } else if block == Block::Cocoa {
        match face {
            BlockFace::South => 2,
            BlockFace::North => 0,
            BlockFace::East => 1,
            BlockFace::West => 3,
            _ => 2,
        }
    } else if block == Block::StandingSign || block == Block::StandingBanner {
        (sign_rotation & 15) as u8
    } else if block == Block::WallSign || block == Block::WallBanner {
        match face {
            BlockFace::North => 2,
            BlockFace::South => 3,
            BlockFace::West => 4,
            BlockFace::East => 5,
            _ => 2,
        }
    } else if block == Block::Skull {
        match face {
            BlockFace::North => 2,
            BlockFace::South => 3,
            BlockFace::West => 4,
            BlockFace::East => 5,
            _ => 1,
        }
    } else {
        metadata
    }
}

/// The block state the client predicts for placing item `item_id` (with
/// damage value `damage`) as `block` on `face`: the item id in the upper
/// bits and the placed metadata in the low four.  `facing` is the
/// player's horizontal facing, `sign_rotation` the yaw in sixteenths of a
/// turn (rounded), and `hit_above_middle` whether the hit lies above the
/// middle of the face.
pub open spec fn spec_predicted_item_block_state(
    block: Block,
    item_id: u16,
    damage: u16,
    face: BlockFace,
    facing: HorizontalFacing,
    sign_rotation: i32,
    hit_above_middle: bool,
) -> u16 {
    ((item_id << 4u16) | (spec_placed_metadata(block, damage, face, facing, sign_rotation, hit_above_middle) as u16)) as u16
}

/// Predicts the block state a placement produces, as the server will.
pub fn predicted_item_block_state(
    block: Block,
    item_id: u16,
    damage: u16,
    face: BlockFace,
    facing: HorizontalFacing,
    sign_rotation: i32,
    hit_above_middle: bool,
) -> (r: u16)
    ensures
        r == spec_predicted_item_block_state(block, item_id, damage, face, facing, sign_rotation, hit_above_middle),
{
    let metadata: u8 = (damage & 0x0f) as u8;
    let dmg3: u8 = if damage < 3 { damage as u8 } else { 3u8 };
    let placed: u8 = match block {
        Block::Log | Block::Log2 | Block::Log3 | Block::HayBlock => (metadata & 0x03) | match face {
            BlockFace::East | BlockFace::West => 0x04u8,
            BlockFace::North | BlockFace::South => 0x08u8,
            _ => 0u8,
        },
        Block::StoneSlab | Block::WoodSlab => {
            if placement_selects_upper_half(face, hit_above_middle) {
                (metadata & 0x07) | 0x08
            } else {
                metadata & 0x07
            }
        },
        Block::OakStairs | Block::SpruceStairs | Block::BirchStairs | Block::JungleStairs | Block::AcaciaStairs | Block::DarkOakStairs | Block::CobblestoneStairs | Block::BrickStairs | Block::StoneBrickStairs | Block::NetherBrickStairs | Block::SandstoneStairs | Block::QuartzStairs | Block::RedSandstoneStairs => {
            let m = by_facing_exec(facing, 2, 1, 3, 0);
            if placement_selects_upper_half(face, hit_above_middle) {
                m | 0x04
            } else {
                m
            }
        },
        Block::Furnace | Block::LitFurnace | Block::Chest | Block::TrappedChest | Block::EnderChest => by_facing_exec(facing, 2, 5, 3, 4),
        Block::Pumpkin | Block::JackOLantern => by_facing_exec(facing, 2, 3, 0, 1),
        Block::Ladder => match face {
            BlockFace::North => 2,
            BlockFace::South => 3,
            BlockFace::West => 4,
            BlockFace::East => 5,
            _ => metadata,
        },
        Block::Torch | Block::RedstoneTorch | Block::UnlitRedstoneTorch => match face {
            BlockFace::East => 1,
            BlockFace::West => 2,
            BlockFace::South => 3,
            BlockFace::North => 4,
            BlockFace::Top => 5,
            BlockFace::Bottom => metadata,
        },
        Block::Lever => {
            let along_z = facing == HorizontalFacing::South || facing == HorizontalFacing::North;
            match face {
                BlockFace::East => 1,
                BlockFace::West => 2,
                BlockFace::South => 3,
                BlockFace::North => 4,
                BlockFace::Top => if along_z { 5 } else { 6 },
                BlockFace::Bottom => if along_z { 7 } else { 0 },
            }
        },
        Block::StoneButton | Block::WoodenButton => match face {
            BlockFace::Bottom => 0,
            BlockFace::East => 1,
            BlockFace::West => 2,
            BlockFace::South => 3,
            BlockFace::North => 4,
            BlockFace::Top => 5,
        },
        Block::Trapdoor | Block::IronTrapdoor => {
            let f: u8 = match face {
                BlockFace::North => 0,
                BlockFace::South => 1,
                BlockFace::West => 2,
                BlockFace::East => 3,
                _ => 0,
            };
            if hit_above_middle {
                f | 0x08
            } else {
                f
            }
        },
        Block::OakFenceGate | Block::SpruceFenceGate | Block::BirchFenceGate | Block::JungleFenceGate | Block::AcaciaFenceGate | Block::DarkOakFenceGate => by_facing_exec(facing, 0, 1, 2, 3),
        Block::UnpoweredRepeater | Block::PoweredRepeater => by_facing_exec(facing, 2, 3, 0, 1) | (dmg3 << 2u8),
        Block::UnpoweredComparator | Block::PoweredComparator | Block::EndPortalFrame | Block::Bed => by_facing_exec(facing, 2, 3, 0, 1),
        Block::Anvil => by_facing_exec(facing, 2, 3, 0, 1) | ((dmg3 & 0x03) << 2u8),
        Block::TripwireHook => match face {
            BlockFace::South => 0,
            BlockFace::West => 1,
            BlockFace::North => 2,
            BlockFace::East => 3,
            _ => 2,
        },
        Block::Cocoa => match face {
            BlockFace::South => 2,
            BlockFace::North => 0,
            BlockFace::East => 1,
            BlockFace::West => 3,
            _ => 2,
        },
        Block::StandingSign | Block::StandingBanner => (sign_rotation & 15) as u8,
        Block::WallSign | Block::WallBanner => match face {
            BlockFace::North => 2,
            BlockFace::South => 3,
            BlockFace::West => 4,
            BlockFace::East => 5,
            _ => 2,
        },
        Block::Skull => match face {
            BlockFace::North => 2,
            BlockFace::South => 3,
            BlockFace::West => 4,
            BlockFace::East => 5,
            _ => 1,
        },
        _ => metadata,
    };
    (item_id << 4u16) | (placed as u16)
}

/// The horizontal facing pointing the other way.
pub open spec fn opposite_facing(f: HorizontalFacing) -> HorizontalFacing {
    match f {
        HorizontalFacing::South => HorizontalFacing::North,
        HorizontalFacing::North => HorizontalFacing::South,
        HorizontalFacing::West => HorizontalFacing::East,
        HorizontalFacing::East => HorizontalFacing::West,
    }
}

/// The direction index of a horizontal facing among all six directions
/// (down 0, up 1, north 2, south 3, west 4, east 5).
pub open spec fn direction_index(f: HorizontalFacing) -> int {
    match f {
        HorizontalFacing::North => 2,
        HorizontalFacing::South => 3,
        HorizontalFacing::West => 4,
        HorizontalFacing::East => 5,
    }
}

/// The direction index of a block face (down 0, up 1, north 2, south 3,
/// west 4, east 5).
pub open spec fn face_direction_index(face: BlockFace) -> int {
    match face {
        BlockFace::Bottom => 0,
        BlockFace::Top => 1,
        BlockFace::North => 2,
        BlockFace::South => 3,
        BlockFace::West => 4,
        BlockFace::East => 5,
    }
}

/// The index of a horizontal facing among the four, turning clockwise
/// from south (south 0, west 1, north 2, east 3).
pub open spec fn horizontal_index(f: HorizontalFacing) -> int {
    match f {
        HorizontalFacing::South => 0,
        HorizontalFacing::West => 1,
        HorizontalFacing::North => 2,
        HorizontalFacing::East => 3,
    }
}

/// The axis a face lies across: 0 for the top and bottom (y), 1 for east
/// and west (x), 2 for north and south (z).
pub open spec fn face_axis(face: BlockFace) -> int {
    match face {
        BlockFace::Bottom | BlockFace::Top => 0,
        BlockFace::East | BlockFace::West => 1,
        BlockFace::North | BlockFace::South => 2,
    }
}

/// Whether a slab or stair takes the upper half: clicking the bottom
/// face, or a side face above its middle.
pub open spec fn clicks_upper_half(face: BlockFace, hit_above_middle: bool) -> bool {
    face == BlockFace::Bottom || (face != BlockFace::Top && hit_above_middle)
}

proof fn lemma_low_bits(d: u16)
    ensures
        (((d & 0x0f) as u8) & 0x03) as int == d % 4,
        (((d & 0x0f) as u8) & 0x07) as int == d % 8,
        ((d & 0x0f) as u8) as int == d % 16,
{
    assert((((d & 0x0f) as u8) & 0x03) == d % 4) by (bit_vector);
    assert((((d & 0x0f) as u8) & 0x07) == d % 8) by (bit_vector);
    assert(((d & 0x0f) as u8) == d % 16) by (bit_vector);
}

proof fn lemma_or_adds(a: u8, b: u8)
    requires
        (a < 4 && (b == 4 || b == 8 || b == 0 || b == 12)) || (a < 8 && (b == 8 || b == 0)),
    ensures
        (a | b) as int == a + b,
{
    assert(((a < 4 && (b == 4 || b == 8 || b == 0 || b == 12)) || (a < 8 && (b == 8 || b == 0))) ==> (a | b)
        == a + b) by (bit_vector);
}

proof fn lemma_shift_two(x: u8)
    requires
        x <= 3,
    ensures
        ((x << 2u8) as u8) as int == 4 * x,
        (((x & 0x03) << 2u8) as u8) as int == 4 * x,
{
    assert(x <= 3 ==> ((x << 2u8) as u8) == 4 * x) by (bit_vector);
    assert(x <= 3 ==> (((x & 0x03) << 2u8) as u8) == 4 * x) by (bit_vector);
}

/// Furnaces, chests and ender chests face the placer: their metadata is
/// the direction index of the facing opposite the placer's.
pub proof fn lemma_containers_face_the_placer(
    block: Block,
    damage: u16,
    face: BlockFace,
    facing: HorizontalFacing,
    sign_rotation: i32,
    hit_above_middle: bool,
)
    requires
        block == Block::Furnace || block == Block::LitFurnace || block == Block::Chest || block
            == Block::TrappedChest || block == Block::EnderChest,
    ensures
        spec_placed_metadata(block, damage, face, facing, sign_rotation, hit_above_middle) as int
            == direction_index(opposite_facing(facing)),
{
}

/// Pumpkins, jack o'lanterns, comparators, end portal frames and beds get
/// the four-way index of the facing opposite the placer's; fence gates
/// the four-way index of the placer's own facing.
pub proof fn lemma_four_way_blocks_follow_the_placer(
    block: Block,
    damage: u16,
    face: BlockFace,
    facing: HorizontalFacing,
    sign_rotation: i32,
    hit_above_middle: bool,
)
    ensures
        (block == Block::Pumpkin || block == Block::JackOLantern || block == Block::UnpoweredComparator || block
            == Block::PoweredComparator || block == Block::EndPortalFrame || block == Block::Bed)
            ==> spec_placed_metadata(block, damage, face, facing, sign_rotation, hit_above_middle) as int
            == horizontal_index(opposite_facing(facing)),
        (block == Block::OakFenceGate || block == Block::SpruceFenceGate || block == Block::BirchFenceGate || block
            == Block::JungleFenceGate || block == Block::AcaciaFenceGate || block == Block::DarkOakFenceGate)
            ==> spec_placed_metadata(block, damage, face, facing, sign_rotation, hit_above_middle) as int
            == horizontal_index(facing),
{
}

/// Repeaters face away from the placer and keep their delay from the
/// damage value (at most 3); anvils likewise keep their damage (at most
/// 3) above the facing.
pub proof fn lemma_repeaters_and_anvils_keep_their_damage(
    block: Block,
    damage: u16,
    face: BlockFace,
    facing: HorizontalFacing,
    sign_rotation: i32,
    hit_above_middle: bool,
)
    requires
        block == Block::UnpoweredRepeater || block == Block::PoweredRepeater || block == Block::Anvil,
    ensures
        spec_placed_metadata(block, damage, face, facing, sign_rotation, hit_above_middle) as int
            == horizontal_index(opposite_facing(facing)) + 4 * (if damage < 3 { damage as int } else { 3 }),
{
    let dmg3: u8 = if damage < 3 { damage as u8 } else { 3u8 };
    lemma_shift_two(dmg3);
    let h = by_facing(facing, 2, 3, 0, 1);
    let b = (dmg3 << 2u8) as u8;
    lemma_or_adds(h, b);
    let b2 = ((dmg3 & 0x03) << 2u8) as u8;
    lemma_or_adds(h, b2);
}

/// Stairs face away from the placer (metadata 5 minus the direction
/// index of the placer's facing) and take the upper half, adding 4, when
/// the bottom face or a side face above its middle is clicked.
pub proof fn lemma_stairs_face_away_from_the_placer(
    block: Block,
    damage: u16,
    face: BlockFace,
    facing: HorizontalFacing,
    sign_rotation: i32,
    hit_above_middle: bool,
)
    requires
        block == Block::OakStairs || block == Block::SpruceStairs || block == Block::BirchStairs || block
            == Block::JungleStairs || block == Block::AcaciaStairs || block == Block::DarkOakStairs || block
            == Block::CobblestoneStairs || block == Block::BrickStairs || block == Block::StoneBrickStairs || block
            == Block::NetherBrickStairs || block == Block::SandstoneStairs || block == Block::QuartzStairs || block
            == Block::RedSandstoneStairs,
    ensures
        spec_placed_metadata(block, damage, face, facing, sign_rotation, hit_above_middle) as int == 5
            - direction_index(facing) + if clicks_upper_half(face, hit_above_middle) { 4int } else { 0 },
{
    lemma_or_adds(by_facing(facing, 2, 1, 3, 0), 4);
}

/// Logs and hay bales keep the wood type (low two bits of the damage) and
/// lie along the axis of the clicked face; slabs keep their type (low
/// three bits) and take the upper half, adding 8, when the bottom face or
/// a side face above its middle is clicked.
pub proof fn lemma_logs_and_slabs(
    block: Block,
    damage: u16,
    face: BlockFace,
    facing: HorizontalFacing,
    sign_rotation: i32,
    hit_above_middle: bool,
)
    ensures
        (block == Block::Log || block == Block::Log2 || block == Block::Log3 || block == Block::HayBlock)
            ==> spec_placed_metadata(block, damage, face, facing, sign_rotation, hit_above_middle) as int == damage
            % 4 + 4 * face_axis(face),
        (block == Block::StoneSlab || block == Block::WoodSlab) ==> spec_placed_metadata(
            block,
            damage,
            face,
            facing,
            sign_rotation,
            hit_above_middle,
        ) as int == damage % 8 + if clicks_upper_half(face, hit_above_middle) { 8int } else { 0 },
{
    lemma_low_bits(damage);
    let m = (damage & 0x0f) as u8;
    lemma_or_adds(m & 0x03, 0);
    lemma_or_adds(m & 0x03, 4);
    lemma_or_adds(m & 0x03, 8);
    lemma_or_adds(m & 0x07, 8);
}

/// Blocks hung on the clicked side face (ladders, wall signs and banners,
/// skulls) take that face's direction index; torches and buttons on a
/// side or the top take 6 minus it, and a button under a block 0.
pub proof fn lemma_attached_blocks_follow_the_clicked_face(
    block: Block,
    damage: u16,
    face: BlockFace,
    facing: HorizontalFacing,
    sign_rotation: i32,
    hit_above_middle: bool,
)
    ensures
        (block == Block::Ladder || block == Block::WallSign || block == Block::WallBanner || block == Block::Skull)
            && face_axis(face) != 0 ==> spec_placed_metadata(
            block,
            damage,
            face,
            facing,
            sign_rotation,
            hit_above_middle,
        ) as int == face_direction_index(face),
        (block == Block::Torch || block == Block::RedstoneTorch || block == Block::UnlitRedstoneTorch || block
            == Block::StoneButton || block == Block::WoodenButton) && face != BlockFace::Bottom
            ==> spec_placed_metadata(block, damage, face, facing, sign_rotation, hit_above_middle) as int == 6
            - face_direction_index(face),
        (block == Block::StoneButton || block == Block::WoodenButton) && face == BlockFace::Bottom
            ==> spec_placed_metadata(block, damage, face, facing, sign_rotation, hit_above_middle) == 0,
{
}

/// Standing signs and banners take the placer's yaw in sixteenths of a
/// turn, modulo 16.
pub proof fn lemma_standing_signs_take_the_rotation(
    block: Block,
    damage: u16,
    face: BlockFace,
    facing: HorizontalFacing,
    sign_rotation: i32,
    hit_above_middle: bool,
)
    requires
        block == Block::StandingSign || block == Block::StandingBanner,
    ensures
        spec_placed_metadata(block, damage, face, facing, sign_rotation, hit_above_middle) as int == sign_rotation
            % 16,
{
    assert(((sign_rotation & 15) as u8) == sign_rotation % 16) by (bit_vector);
}

/// The predicted block state packs the item id above the placed
/// metadata: its low four bits are the metadata (always below 16) and
/// the rest is the item id, kept to the sixteen bits of a state.
pub proof fn lemma_predicted_state_packs_id_and_metadata(
    block: Block,
    item_id: u16,
    damage: u16,
    face: BlockFace,
    facing: HorizontalFacing,
    sign_rotation: i32,
    hit_above_middle: bool,
)
    ensures
        spec_placed_metadata(block, damage, face, facing, sign_rotation, hit_above_middle) < 16,
        spec_predicted_item_block_state(block, item_id, damage, face, facing, sign_rotation, hit_above_middle) as int
            == (item_id as int * 16 + spec_placed_metadata(
            block,
            damage,
            face,
            facing,
            sign_rotation,
            hit_above_middle,
        ) as int) % 65536,
{
    lemma_low_bits(damage);
    lemma_logs_and_slabs(block, damage, face, facing, sign_rotation, hit_above_middle);
    if block == Block::UnpoweredRepeater || block == Block::PoweredRepeater || block == Block::Anvil {
        lemma_repeaters_and_anvils_keep_their_damage(block, damage, face, facing, sign_rotation, hit_above_middle);
    }
    if block == Block::OakStairs || block == Block::SpruceStairs || block == Block::BirchStairs || block
        == Block::JungleStairs || block == Block::AcaciaStairs || block == Block::DarkOakStairs || block
        == Block::CobblestoneStairs || block == Block::BrickStairs || block == Block::StoneBrickStairs || block
        == Block::NetherBrickStairs || block == Block::SandstoneStairs || block == Block::QuartzStairs || block
        == Block::RedSandstoneStairs {
        lemma_stairs_face_away_from_the_placer(block, damage, face, facing, sign_rotation, hit_above_middle);
    }
    if block == Block::StandingSign || block == Block::StandingBanner {
        lemma_standing_signs_take_the_rotation(block, damage, face, facing, sign_rotation, hit_above_middle);
    }
    let f: u8 = match face {
        BlockFace::North => 0,
        BlockFace::South => 1,
        BlockFace::West => 2,
        BlockFace::East => 3,
        _ => 0,
    };
    lemma_or_adds(f, 8);
    let m = spec_placed_metadata(block, damage, face, facing, sign_rotation, hit_above_middle);
    assert(m < 16);
    assert(m < 16 ==> ((item_id << 4u16) | (m as u16)) as u16 == (item_id * 16 + m) % 65536) by (bit_vector);
}

/// Whether a face points toward growing coordinates (up, south, east).
pub open spec fn face_points_up_the_axis(face: BlockFace) -> bool {
    face == BlockFace::Top || face == BlockFace::South || face == BlockFace::East
}

/// A placement fills either the clicked block (when it takes the
/// placement itself) or the block touching the clicked face: one step
/// along the face's axis, toward growing coordinates for the top, south
/// and east faces and away from them otherwise; and never a block outside
/// the world's height.
pub proof fn lemma_placement_target_touches_the_clicked_face(
    hit_pos: (i32, i32, i32),
    face: BlockFace,
    clicked: Block,
    state: u16,
)
    requires
        !spec_places_in_hit_block(clicked, state, face) ==> neighbour_fits(hit_pos, face),
    ensures
        spec_placement_target(hit_pos, face, clicked, state) matches Some(pos) ==> 0 <= pos.1 < CHUNK_HEIGHT,
        spec_places_in_hit_block(clicked, state, face) && 0 <= hit_pos.1 < CHUNK_HEIGHT ==> spec_placement_target(
            hit_pos,
            face,
            clicked,
            state,
        ) == Some(hit_pos),
        !spec_places_in_hit_block(clicked, state, face) ==> ({
            let step: int = if face_points_up_the_axis(face) { 1 } else { -1 };
            spec_placement_target(hit_pos, face, clicked, state) matches Some(pos) ==> {
                &&& pos.0 - hit_pos.0 == if face_axis(face) == 1 { step } else { 0 }
                &&& pos.1 - hit_pos.1 == if face_axis(face) == 0 { step } else { 0 }
                &&& pos.2 - hit_pos.2 == if face_axis(face) == 2 { step } else { 0 }
            }
        }),
{
}

} // verus!

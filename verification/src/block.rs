//! Block identities used by inventory and placement logic, with their
//! 1.8.9 numeric ids.
use vstd::prelude::*;

verus! {

/// A block.  Each block has the numeric id of 1.8.9; snow-covered grass
/// shares the id of grass, and the third log block that of the second.
#[derive(Clone, Copy, Debug, PartialEq, Eq, Structural)]
pub enum Block {
    Air,
    Stone,
    Grass,
    Dirt,
    Cobblestone,
    Planks,
    Sapling,
    Bedrock,
    Sand,
    Gravel,
    GoldOre,
    IronOre,
    CoalOre,
    Log,
    Leaves,
    Sponge,
    Glass,
    LapisOre,
    LapisBlock,
    Dispenser,
    Sandstone,
    NoteBlock,
    Bed,
    PoweredRail,
    DetectorRail,
    StickyPiston,
    Cobweb,
    TallGrass,
    DeadBush,
    Piston,
    Wool,
    Dandelion,
    Flower,
    BrownMushroom,
    RedMushroom,
    GoldBlock,
    IronBlock,
    DoubleStoneSlab,
    StoneSlab,
    Bricks,
    Tnt,
    Bookshelf,
    MossyCobblestone,
    Obsidian,
    Torch,
    Fire,
    MobSpawner,
    OakStairs,
    Chest,
    RedstoneWire,
    DiamondOre,
    DiamondBlock,
    CraftingTable,
    Wheat,
    Farmland,
    Furnace,
    LitFurnace,
    StandingSign,
    OakDoor,
    Ladder,
    Rail,
    CobblestoneStairs,
    WallSign,
    Lever,
    StonePressurePlate,
    IronDoor,
    WoodenPressurePlate,
    RedstoneOre,
    LitRedstoneOre,
    UnlitRedstoneTorch,
    RedstoneTorch,
    StoneButton,
    SnowLayer,
    Ice,
    SnowBlock,
    Cactus,
    Clay,
    SugarCane,
    Jukebox,
    OakFence,
    Pumpkin,
    Netherrack,
    SoulSand,
    Glowstone,
    JackOLantern,
    Cake,
    UnpoweredRepeater,
    PoweredRepeater,
    Trapdoor,
    StoneBricks,
    IronBars,
    GlassPane,
    MelonBlock,
    PumpkinStem,
    MelonStem,
    Vine,
    OakFenceGate,
    BrickStairs,
    StoneBrickStairs,
    Mycelium,
    LilyPad,
    NetherBrick,
    NetherBrickFence,
    NetherBrickStairs,
    NetherWart,
    EnchantingTable,
    BrewingStand,
    Cauldron,
    EndStone,
    DragonEgg,
    EmeraldOre,
    EnderChest,
    Tripwire,
    EmeraldBlock,
    CommandBlock,
    Beacon,
    CobblestoneWall,
    FlowerPot,
    WoodenButton,
    Anvil,
    TrappedChest,
    UnpoweredComparator,
    PoweredComparator,
    DaylightDetector,
    Hopper,
    QuartzBlock,
    QuartzStairs,
    ActivatorRail,
    Dropper,
    StainedClay,
    IronTrapdoor,
    HayBlock,
    HardenedClay,
    CoalBlock,
    PackedIce,
    LargeFlower,
    SpruceFenceGate,
    BirchFenceGate,
    JungleFenceGate,
    DarkOakFenceGate,
    AcaciaFenceGate,
    SpruceFence,
    BirchFence,
    JungleFence,
    DarkOakFence,
    AcaciaFence,
    SpruceDoor,
    BirchDoor,
    JungleDoor,
    AcaciaDoor,
    DarkOakDoor,
    GrassSnowy,
    FlowingWater,
    Water,
    FlowingLava,
    Lava,
    PistonHead,
    PistonExtension,
    Portal,
    StainedGlass,
    MonsterEgg,
    BrownMushroomBlock,
    RedMushroomBlock,
    EndPortal,
    EndPortalFrame,
    RedstoneLamp,
    LitRedstoneLamp,
    DoubleWoodSlab,
    WoodSlab,
    Cocoa,
    SandstoneStairs,
    TripwireHook,
    SpruceStairs,
    BirchStairs,
    JungleStairs,
    Carrots,
    Potatoes,
    Skull,
    LightWeightedPressurePlate,
    HeavyWeightedPressurePlate,
    RedstoneBlock,
    QuartzOre,
    StainedGlassPane,
    Leaves2,
    Log2,
    /// A third log block; it has no numeric id of its own in 1.8.9 and
    /// shares the id of `Log2`.
    Log3,
    AcaciaStairs,
    DarkOakStairs,
    SlimeBlock,
    Barrier,
    Prismarine,
    SeaLantern,
    Carpet,
    StandingBanner,
    WallBanner,
    DaylightDetectorInverted,
    RedSandstone,
    RedSandstoneStairs,
    DoubleStoneSlab2,
    StoneSlab2,
}

impl Block {
    /// The numeric id of the block.
    pub open spec fn spec_to_id(self) -> u16 {
        match self {
            Block::Air => 0,
            Block::Stone => 1,
            Block::Grass => 2,
            Block::Dirt => 3,
            Block::Cobblestone => 4,
            Block::Planks => 5,
            Block::Sapling => 6,
            Block::Bedrock => 7,
            Block::Sand => 12,
            Block::Gravel => 13,
            Block::GoldOre => 14,
            Block::IronOre => 15,
            Block::CoalOre => 16,
            Block::Log => 17,
            Block::Leaves => 18,
            Block::Sponge => 19,
            Block::Glass => 20,
            Block::LapisOre => 21,
            Block::LapisBlock => 22,
            Block::Dispenser => 23,
            Block::Sandstone => 24,
            Block::NoteBlock => 25,
            Block::Bed => 26,
            Block::PoweredRail => 27,
            Block::DetectorRail => 28,
            Block::StickyPiston => 29,
            Block::Cobweb => 30,
            Block::TallGrass => 31,
            Block::DeadBush => 32,
            Block::Piston => 33,
            Block::Wool => 35,
            Block::Dandelion => 37,
            Block::Flower => 38,
            Block::BrownMushroom => 39,
            Block::RedMushroom => 40,
            Block::GoldBlock => 41,
            Block::IronBlock => 42,
            Block::DoubleStoneSlab => 43,
            Block::StoneSlab => 44,
            Block::Bricks => 45,
            Block::Tnt => 46,
            Block::Bookshelf => 47,
            Block::MossyCobblestone => 48,
            Block::Obsidian => 49,
            Block::Torch => 50,
            Block::Fire => 51,
            Block::MobSpawner => 52,
            Block::OakStairs => 53,
            Block::Chest => 54,
            Block::RedstoneWire => 55,
            Block::DiamondOre => 56,
            Block::DiamondBlock => 57,
            Block::CraftingTable => 58,
            Block::Wheat => 59,
            Block::Farmland => 60,
            Block::Furnace => 61,
            Block::LitFurnace => 62,
            Block::StandingSign => 63,
            Block::OakDoor => 64,
            Block::Ladder => 65,
            Block::Rail => 66,
            Block::CobblestoneStairs => 67,
            Block::WallSign => 68,
            Block::Lever => 69,
            Block::StonePressurePlate => 70,
            Block::IronDoor => 71,
            Block::WoodenPressurePlate => 72,
            Block::RedstoneOre => 73,
            Block::LitRedstoneOre => 74,
            Block::UnlitRedstoneTorch => 75,
            Block::RedstoneTorch => 76,
            Block::StoneButton => 77,
            Block::SnowLayer => 78,
            Block::Ice => 79,
            Block::SnowBlock => 80,
            Block::Cactus => 81,
            Block::Clay => 82,
            Block::SugarCane => 83,
            Block::Jukebox => 84,
            Block::OakFence => 85,
            Block::Pumpkin => 86,
            Block::Netherrack => 87,
            Block::SoulSand => 88,
            Block::Glowstone => 89,
            Block::JackOLantern => 91,
            Block::Cake => 92,
            Block::UnpoweredRepeater => 93,
            Block::PoweredRepeater => 94,
            Block::Trapdoor => 96,
            Block::StoneBricks => 98,
            Block::IronBars => 101,
            Block::GlassPane => 102,
            Block::MelonBlock => 103,
            Block::PumpkinStem => 104,
            Block::MelonStem => 105,
            Block::Vine => 106,
            Block::OakFenceGate => 107,
            Block::BrickStairs => 108,
            Block::StoneBrickStairs => 109,
            Block::Mycelium => 110,
            Block::LilyPad => 111,
            Block::NetherBrick => 112,
            Block::NetherBrickFence => 113,
            Block::NetherBrickStairs => 114,
            Block::NetherWart => 115,
            Block::EnchantingTable => 116,
            Block::BrewingStand => 117,
            Block::Cauldron => 118,
            Block::EndStone => 121,
            Block::DragonEgg => 122,
            Block::EmeraldOre => 129,
            Block::EnderChest => 130,
            Block::Tripwire => 132,
            Block::EmeraldBlock => 133,
            Block::CommandBlock => 137,
            Block::Beacon => 138,
            Block::CobblestoneWall => 139,
            Block::FlowerPot => 140,
            Block::WoodenButton => 143,
            Block::Anvil => 145,
            Block::TrappedChest => 146,
            Block::UnpoweredComparator => 149,
            Block::PoweredComparator => 150,
            Block::DaylightDetector => 151,
            Block::Hopper => 154,
            Block::QuartzBlock => 155,
            Block::QuartzStairs => 156,
            Block::ActivatorRail => 157,
            Block::Dropper => 158,
            Block::StainedClay => 159,
            Block::IronTrapdoor => 167,
            Block::HayBlock => 170,
            Block::HardenedClay => 172,
            Block::CoalBlock => 173,
            Block::PackedIce => 174,
            Block::LargeFlower => 175,
            Block::SpruceFenceGate => 183,
            Block::BirchFenceGate => 184,
            Block::JungleFenceGate => 185,
            Block::DarkOakFenceGate => 186,
            Block::AcaciaFenceGate => 187,
            Block::SpruceFence => 188,
            Block::BirchFence => 189,
            Block::JungleFence => 190,
            Block::DarkOakFence => 191,
            Block::AcaciaFence => 192,
            Block::SpruceDoor => 193,
            Block::BirchDoor => 194,
            Block::JungleDoor => 195,
            Block::AcaciaDoor => 196,
            Block::DarkOakDoor => 197,
            Block::GrassSnowy => 2,
            Block::FlowingWater => 8,
            Block::Water => 9,
            Block::FlowingLava => 10,
            Block::Lava => 11,
            Block::PistonHead => 34,
            Block::PistonExtension => 36,
            Block::Portal => 90,
            Block::StainedGlass => 95,
            Block::MonsterEgg => 97,
            Block::BrownMushroomBlock => 99,
            Block::RedMushroomBlock => 100,
            Block::EndPortal => 119,
            Block::EndPortalFrame => 120,
            Block::RedstoneLamp => 123,
            Block::LitRedstoneLamp => 124,
            Block::DoubleWoodSlab => 125,
            Block::WoodSlab => 126,
            Block::Cocoa => 127,
            Block::SandstoneStairs => 128,
            Block::TripwireHook => 131,
            Block::SpruceStairs => 134,
            Block::BirchStairs => 135,
            Block::JungleStairs => 136,
            Block::Carrots => 141,
            Block::Potatoes => 142,
            Block::Skull => 144,
            Block::LightWeightedPressurePlate => 147,
            Block::HeavyWeightedPressurePlate => 148,
            Block::RedstoneBlock => 152,
            Block::QuartzOre => 153,
            Block::StainedGlassPane => 160,
            Block::Leaves2 => 161,
            Block::Log2 => 162,
            Block::Log3 => 162,
            Block::AcaciaStairs => 163,
            Block::DarkOakStairs => 164,
            Block::SlimeBlock => 165,
            Block::Barrier => 166,
            Block::Prismarine => 168,
            Block::SeaLantern => 169,
            Block::Carpet => 171,
            Block::StandingBanner => 176,
            Block::WallBanner => 177,
            Block::DaylightDetectorInverted => 178,
            Block::RedSandstone => 179,
            Block::RedSandstoneStairs => 180,
            Block::DoubleStoneSlab2 => 181,
            Block::StoneSlab2 => 182,
        }
    }

    /// The numeric id of the block.
    #[verifier::when_used_as_spec(spec_to_id)]
    pub fn to_id(self) -> (r: u16)
        ensures
            r == self.spec_to_id(),
    {
        match self {
            Block::Air => 0,
            Block::Stone => 1,
            Block::Grass => 2,
            Block::Dirt => 3,
            Block::Cobblestone => 4,
            Block::Planks => 5,
            Block::Sapling => 6,
            Block::Bedrock => 7,
            Block::Sand => 12,
            Block::Gravel => 13,
            Block::GoldOre => 14,
            Block::IronOre => 15,
            Block::CoalOre => 16,
            Block::Log => 17,
            Block::Leaves => 18,
            Block::Sponge => 19,
            Block::Glass => 20,
            Block::LapisOre => 21,
            Block::LapisBlock => 22,
            Block::Dispenser => 23,
            Block::Sandstone => 24,
            Block::NoteBlock => 25,
            Block::Bed => 26,
            Block::PoweredRail => 27,
            Block::DetectorRail => 28,
            Block::StickyPiston => 29,
            Block::Cobweb => 30,
            Block::TallGrass => 31,
            Block::DeadBush => 32,
            Block::Piston => 33,
            Block::Wool => 35,
            Block::Dandelion => 37,
            Block::Flower => 38,
            Block::BrownMushroom => 39,
            Block::RedMushroom => 40,
            Block::GoldBlock => 41,
            Block::IronBlock => 42,
            Block::DoubleStoneSlab => 43,
            Block::StoneSlab => 44,
            Block::Bricks => 45,
            Block::Tnt => 46,
            Block::Bookshelf => 47,
            Block::MossyCobblestone => 48,
            Block::Obsidian => 49,
            Block::Torch => 50,
            Block::Fire => 51,
            Block::MobSpawner => 52,
            Block::OakStairs => 53,
            Block::Chest => 54,
            Block::RedstoneWire => 55,
            Block::DiamondOre => 56,
            Block::DiamondBlock => 57,
            Block::CraftingTable => 58,
            Block::Wheat => 59,
            Block::Farmland => 60,
            Block::Furnace => 61,
            Block::LitFurnace => 62,
            Block::StandingSign => 63,
            Block::OakDoor => 64,
            Block::Ladder => 65,
            Block::Rail => 66,
            Block::CobblestoneStairs => 67,
            Block::WallSign => 68,
            Block::Lever => 69,
            Block::StonePressurePlate => 70,
            Block::IronDoor => 71,
            Block::WoodenPressurePlate => 72,
            Block::RedstoneOre => 73,
            Block::LitRedstoneOre => 74,
            Block::UnlitRedstoneTorch => 75,
            Block::RedstoneTorch => 76,
            Block::StoneButton => 77,
            Block::SnowLayer => 78,
            Block::Ice => 79,
            Block::SnowBlock => 80,
            Block::Cactus => 81,
            Block::Clay => 82,
            Block::SugarCane => 83,
            Block::Jukebox => 84,
            Block::OakFence => 85,
            Block::Pumpkin => 86,
            Block::Netherrack => 87,
            Block::SoulSand => 88,
            Block::Glowstone => 89,
            Block::JackOLantern => 91,
            Block::Cake => 92,
            Block::UnpoweredRepeater => 93,
            Block::PoweredRepeater => 94,
            Block::Trapdoor => 96,
            Block::StoneBricks => 98,
            Block::IronBars => 101,
            Block::GlassPane => 102,
            Block::MelonBlock => 103,
            Block::PumpkinStem => 104,
            Block::MelonStem => 105,
            Block::Vine => 106,
            Block::OakFenceGate => 107,
            Block::BrickStairs => 108,
            Block::StoneBrickStairs => 109,
            Block::Mycelium => 110,
            Block::LilyPad => 111,
            Block::NetherBrick => 112,
            Block::NetherBrickFence => 113,
            Block::NetherBrickStairs => 114,
            Block::NetherWart => 115,
            Block::EnchantingTable => 116,
            Block::BrewingStand => 117,
            Block::Cauldron => 118,
            Block::EndStone => 121,
            Block::DragonEgg => 122,
            Block::EmeraldOre => 129,
            Block::EnderChest => 130,
            Block::Tripwire => 132,
            Block::EmeraldBlock => 133,
            Block::CommandBlock => 137,
            Block::Beacon => 138,
            Block::CobblestoneWall => 139,
            Block::FlowerPot => 140,
            Block::WoodenButton => 143,
            Block::Anvil => 145,
            Block::TrappedChest => 146,
            Block::UnpoweredComparator => 149,
            Block::PoweredComparator => 150,
            Block::DaylightDetector => 151,
            Block::Hopper => 154,
            Block::QuartzBlock => 155,
            Block::QuartzStairs => 156,
            Block::ActivatorRail => 157,
            Block::Dropper => 158,
            Block::StainedClay => 159,
            Block::IronTrapdoor => 167,
            Block::HayBlock => 170,
            Block::HardenedClay => 172,
            Block::CoalBlock => 173,
            Block::PackedIce => 174,
            Block::LargeFlower => 175,
            Block::SpruceFenceGate => 183,
            Block::BirchFenceGate => 184,
            Block::JungleFenceGate => 185,
            Block::DarkOakFenceGate => 186,
            Block::AcaciaFenceGate => 187,
            Block::SpruceFence => 188,
            Block::BirchFence => 189,
            Block::JungleFence => 190,
            Block::DarkOakFence => 191,
            Block::AcaciaFence => 192,
            Block::SpruceDoor => 193,
            Block::BirchDoor => 194,
            Block::JungleDoor => 195,
            Block::AcaciaDoor => 196,
            Block::DarkOakDoor => 197,
            Block::GrassSnowy => 2,
            Block::FlowingWater => 8,
            Block::Water => 9,
            Block::FlowingLava => 10,
            Block::Lava => 11,
            Block::PistonHead => 34,
            Block::PistonExtension => 36,
            Block::Portal => 90,
            Block::StainedGlass => 95,
            Block::MonsterEgg => 97,
            Block::BrownMushroomBlock => 99,
            Block::RedMushroomBlock => 100,
            Block::EndPortal => 119,
            Block::EndPortalFrame => 120,
            Block::RedstoneLamp => 123,
            Block::LitRedstoneLamp => 124,
            Block::DoubleWoodSlab => 125,
            Block::WoodSlab => 126,
            Block::Cocoa => 127,
            Block::SandstoneStairs => 128,
            Block::TripwireHook => 131,
            Block::SpruceStairs => 134,
            Block::BirchStairs => 135,
            Block::JungleStairs => 136,
            Block::Carrots => 141,
            Block::Potatoes => 142,
            Block::Skull => 144,
            Block::LightWeightedPressurePlate => 147,
            Block::HeavyWeightedPressurePlate => 148,
            Block::RedstoneBlock => 152,
            Block::QuartzOre => 153,
            Block::StainedGlassPane => 160,
            Block::Leaves2 => 161,
            Block::Log2 => 162,
            Block::Log3 => 162,
            Block::AcaciaStairs => 163,
            Block::DarkOakStairs => 164,
            Block::SlimeBlock => 165,
            Block::Barrier => 166,
            Block::Prismarine => 168,
            Block::SeaLantern => 169,
            Block::Carpet => 171,
            Block::StandingBanner => 176,
            Block::WallBanner => 177,
            Block::DaylightDetectorInverted => 178,
            Block::RedSandstone => 179,
            Block::RedSandstoneStairs => 180,
            Block::DoubleStoneSlab2 => 181,
            Block::StoneSlab2 => 182,
        }
    }

    /// The block with numeric id `id`; `Air` for ids that are not blocks.
    pub open spec fn spec_from_id(id: u16) -> Block {
        if id == 1 {
            Block::Stone
        } else if id == 2 {
            Block::Grass
        } else if id == 3 {
            Block::Dirt
        } else if id == 4 {
            Block::Cobblestone
        } else if id == 5 {
            Block::Planks
        } else if id == 6 {
            Block::Sapling
        } else if id == 7 {
            Block::Bedrock
        } else if id == 12 {
            Block::Sand
        } else if id == 13 {
            Block::Gravel
        } else if id == 14 {
            Block::GoldOre
        } else if id == 15 {
            Block::IronOre
        } else if id == 16 {
            Block::CoalOre
        } else if id == 17 {
            Block::Log
        } else if id == 18 {
            Block::Leaves
        } else if id == 19 {
            Block::Sponge
        } else if id == 20 {
            Block::Glass
        } else if id == 21 {
            Block::LapisOre
        } else if id == 22 {
            Block::LapisBlock
        } else if id == 23 {
            Block::Dispenser
        } else if id == 24 {
            Block::Sandstone
        } else if id == 25 {
            Block::NoteBlock
        } else if id == 26 {
            Block::Bed
        } else if id == 27 {
            Block::PoweredRail
        } else if id == 28 {
            Block::DetectorRail
        } else if id == 29 {
            Block::StickyPiston
        } else if id == 30 {
            Block::Cobweb
        } else if id == 31 {
            Block::TallGrass
        } else if id == 32 {
            Block::DeadBush
        } else if id == 33 {
            Block::Piston
        } else if id == 35 {
            Block::Wool
        } else if id == 37 {
            Block::Dandelion
        } else if id == 38 {
            Block::Flower
        } else if id == 39 {
            Block::BrownMushroom
        } else if id == 40 {
            Block::RedMushroom
        } else if id == 41 {
            Block::GoldBlock
        } else if id == 42 {
            Block::IronBlock
        } else if id == 43 {
            Block::DoubleStoneSlab
        } else if id == 44 {
            Block::StoneSlab
        } else if id == 45 {
            Block::Bricks
        } else if id == 46 {
            Block::Tnt
        } else if id == 47 {
            Block::Bookshelf
        } else if id == 48 {
            Block::MossyCobblestone
        } else if id == 49 {
            Block::Obsidian
        } else if id == 50 {
            Block::Torch
        } else if id == 51 {
            Block::Fire
        } else if id == 52 {
            Block::MobSpawner
        } else if id == 53 {
            Block::OakStairs
        } else if id == 54 {
            Block::Chest
        } else if id == 55 {
            Block::RedstoneWire
        } else if id == 56 {
            Block::DiamondOre
        } else if id == 57 {
            Block::DiamondBlock
        } else if id == 58 {
            Block::CraftingTable
        } else if id == 59 {
            Block::Wheat
        } else if id == 60 {
            Block::Farmland
        } else if id == 61 {
            Block::Furnace
        } else if id == 62 {
            Block::LitFurnace
        } else if id == 63 {
            Block::StandingSign
        } else if id == 64 {
            Block::OakDoor
        } else if id == 65 {
            Block::Ladder
        } else if id == 66 {
            Block::Rail
        } else if id == 67 {
            Block::CobblestoneStairs
        } else if id == 68 {
            Block::WallSign
        } else if id == 69 {
            Block::Lever
        } else if id == 70 {
            Block::StonePressurePlate
        } else if id == 71 {
            Block::IronDoor
        } else if id == 72 {
            Block::WoodenPressurePlate
        } else if id == 73 {
            Block::RedstoneOre
        } else if id == 74 {
            Block::LitRedstoneOre
        } else if id == 75 {
            Block::UnlitRedstoneTorch
        } else if id == 76 {
            Block::RedstoneTorch
        } else if id == 77 {
            Block::StoneButton
        } else if id == 78 {
            Block::SnowLayer
        } else if id == 79 {
            Block::Ice
        } else if id == 80 {
            Block::SnowBlock
        } else if id == 81 {
            Block::Cactus
        } else if id == 82 {
            Block::Clay
        } else if id == 83 {
            Block::SugarCane
        } else if id == 84 {
            Block::Jukebox
        } else if id == 85 {
            Block::OakFence
        } else if id == 86 {
            Block::Pumpkin
        } else if id == 87 {
            Block::Netherrack
        } else if id == 88 {
            Block::SoulSand
        } else if id == 89 {
            Block::Glowstone
        } else if id == 91 {
            Block::JackOLantern
        } else if id == 92 {
            Block::Cake
        } else if id == 93 {
            Block::UnpoweredRepeater
        } else if id == 94 {
            Block::PoweredRepeater
        } else if id == 96 {
            Block::Trapdoor
        } else if id == 98 {
            Block::StoneBricks
        } else if id == 101 {
            Block::IronBars
        } else if id == 102 {
            Block::GlassPane
        } else if id == 103 {
            Block::MelonBlock
        } else if id == 104 {
            Block::PumpkinStem
        } else if id == 105 {
            Block::MelonStem
        } else if id == 106 {
            Block::Vine
        } else if id == 107 {
            Block::OakFenceGate
        } else if id == 108 {
            Block::BrickStairs
        } else if id == 109 {
            Block::StoneBrickStairs
        } else if id == 110 {
            Block::Mycelium
        } else if id == 111 {
            Block::LilyPad
        } else if id == 112 {
            Block::NetherBrick
        } else if id == 113 {
            Block::NetherBrickFence
        } else if id == 114 {
            Block::NetherBrickStairs
        } else if id == 115 {
            Block::NetherWart
        } else if id == 116 {
            Block::EnchantingTable
        } else if id == 117 {
            Block::BrewingStand
        } else if id == 118 {
            Block::Cauldron
        } else if id == 121 {
            Block::EndStone
        } else if id == 122 {
            Block::DragonEgg
        } else if id == 129 {
            Block::EmeraldOre
        } else if id == 130 {
            Block::EnderChest
        } else if id == 132 {
            Block::Tripwire
        } else if id == 133 {
            Block::EmeraldBlock
        } else if id == 137 {
            Block::CommandBlock
        } else if id == 138 {
            Block::Beacon
        } else if id == 139 {
            Block::CobblestoneWall
        } else if id == 140 {
            Block::FlowerPot
        } else if id == 143 {
            Block::WoodenButton
        } else if id == 145 {
            Block::Anvil
        } else if id == 146 {
            Block::TrappedChest
        } else if id == 149 {
            Block::UnpoweredComparator
        } else if id == 150 {
            Block::PoweredComparator
        } else if id == 151 {
            Block::DaylightDetector
        } else if id == 154 {
            Block::Hopper
        } else if id == 155 {
            Block::QuartzBlock
        } else if id == 156 {
            Block::QuartzStairs
        } else if id == 157 {
            Block::ActivatorRail
        } else if id == 158 {
            Block::Dropper
        } else if id == 159 {
            Block::StainedClay
        } else if id == 167 {
            Block::IronTrapdoor
        } else if id == 170 {
            Block::HayBlock
        } else if id == 172 {
            Block::HardenedClay
        } else if id == 173 {
            Block::CoalBlock
        } else if id == 174 {
            Block::PackedIce
        } else if id == 175 {
            Block::LargeFlower
        } else if id == 183 {
            Block::SpruceFenceGate
        } else if id == 184 {
            Block::BirchFenceGate
        } else if id == 185 {
            Block::JungleFenceGate
        } else if id == 186 {
            Block::DarkOakFenceGate
        } else if id == 187 {
            Block::AcaciaFenceGate
        } else if id == 188 {
            Block::SpruceFence
        } else if id == 189 {
            Block::BirchFence
        } else if id == 190 {
            Block::JungleFence
        } else if id == 191 {
            Block::DarkOakFence
        } else if id == 192 {
            Block::AcaciaFence
        } else if id == 193 {
            Block::SpruceDoor
        } else if id == 194 {
            Block::BirchDoor
        } else if id == 195 {
            Block::JungleDoor
        } else if id == 196 {
            Block::AcaciaDoor
        } else if id == 197 {
            Block::DarkOakDoor
        } else if id == 8 {
            Block::FlowingWater
        } else if id == 9 {
            Block::Water
        } else if id == 10 {
            Block::FlowingLava
        } else if id == 11 {
            Block::Lava
        } else if id == 34 {
            Block::PistonHead
        } else if id == 36 {
            Block::PistonExtension
        } else if id == 90 {
            Block::Portal
        } else if id == 95 {
            Block::StainedGlass
        } else if id == 97 {
            Block::MonsterEgg
        } else if id == 99 {
            Block::BrownMushroomBlock
        } else if id == 100 {
            Block::RedMushroomBlock
        } else if id == 119 {
            Block::EndPortal
        } else if id == 120 {
            Block::EndPortalFrame
        } else if id == 123 {
            Block::RedstoneLamp
        } else if id == 124 {
            Block::LitRedstoneLamp
        } else if id == 125 {
            Block::DoubleWoodSlab
        } else if id == 126 {
            Block::WoodSlab
        } else if id == 127 {
            Block::Cocoa
        } else if id == 128 {
            Block::SandstoneStairs
        } else if id == 131 {
            Block::TripwireHook
        } else if id == 134 {
            Block::SpruceStairs
        } else if id == 135 {
            Block::BirchStairs
        } else if id == 136 {
            Block::JungleStairs
        } else if id == 141 {
            Block::Carrots
        } else if id == 142 {
            Block::Potatoes
        } else if id == 144 {
            Block::Skull
        } else if id == 147 {
            Block::LightWeightedPressurePlate
        } else if id == 148 {
            Block::HeavyWeightedPressurePlate
        } else if id == 152 {
            Block::RedstoneBlock
        } else if id == 153 {
            Block::QuartzOre
        } else if id == 160 {
            Block::StainedGlassPane
        } else if id == 161 {
            Block::Leaves2
        } else if id == 162 {
            Block::Log2
        } else if id == 163 {
            Block::AcaciaStairs
        } else if id == 164 {
            Block::DarkOakStairs
        } else if id == 165 {
            Block::SlimeBlock
        } else if id == 166 {
            Block::Barrier
        } else if id == 168 {
            Block::Prismarine
        } else if id == 169 {
            Block::SeaLantern
        } else if id == 171 {
            Block::Carpet
        } else if id == 176 {
            Block::StandingBanner
        } else if id == 177 {
            Block::WallBanner
        } else if id == 178 {
            Block::DaylightDetectorInverted
        } else if id == 179 {
            Block::RedSandstone
        } else if id == 180 {
            Block::RedSandstoneStairs
        } else if id == 181 {
            Block::DoubleStoneSlab2
        } else if id == 182 {
            Block::StoneSlab2
        } else {
            Block::Air
        }
    }

    /// The block with numeric id `id`; `Air` for ids that are not blocks.
    #[verifier::when_used_as_spec(spec_from_id)]
    pub fn from_id(id: u16) -> (b: Block)
        ensures
            b == Block::spec_from_id(id),
    {
        match id {
            1 => Block::Stone,
            2 => Block::Grass,
            3 => Block::Dirt,
            4 => Block::Cobblestone,
            5 => Block::Planks,
            6 => Block::Sapling,
            7 => Block::Bedrock,
            12 => Block::Sand,
            13 => Block::Gravel,
            14 => Block::GoldOre,
            15 => Block::IronOre,
            16 => Block::CoalOre,
            17 => Block::Log,
            18 => Block::Leaves,
            19 => Block::Sponge,
            20 => Block::Glass,
            21 => Block::LapisOre,
            22 => Block::LapisBlock,
            23 => Block::Dispenser,
            24 => Block::Sandstone,
            25 => Block::NoteBlock,
            26 => Block::Bed,
            27 => Block::PoweredRail,
            28 => Block::DetectorRail,
            29 => Block::StickyPiston,
            30 => Block::Cobweb,
            31 => Block::TallGrass,
            32 => Block::DeadBush,
            33 => Block::Piston,
            35 => Block::Wool,
            37 => Block::Dandelion,
            38 => Block::Flower,
            39 => Block::BrownMushroom,
            40 => Block::RedMushroom,
            41 => Block::GoldBlock,
            42 => Block::IronBlock,
            43 => Block::DoubleStoneSlab,
            44 => Block::StoneSlab,
            45 => Block::Bricks,
            46 => Block::Tnt,
            47 => Block::Bookshelf,
            48 => Block::MossyCobblestone,
            49 => Block::Obsidian,
            50 => Block::Torch,
            51 => Block::Fire,
            52 => Block::MobSpawner,
            53 => Block::OakStairs,
            54 => Block::Chest,
            55 => Block::RedstoneWire,
            56 => Block::DiamondOre,
            57 => Block::DiamondBlock,
            58 => Block::CraftingTable,
            59 => Block::Wheat,
            60 => Block::Farmland,
            61 => Block::Furnace,
            62 => Block::LitFurnace,
            63 => Block::StandingSign,
            64 => Block::OakDoor,
            65 => Block::Ladder,
            66 => Block::Rail,
            67 => Block::CobblestoneStairs,
            68 => Block::WallSign,
            69 => Block::Lever,
            70 => Block::StonePressurePlate,
            71 => Block::IronDoor,
            72 => Block::WoodenPressurePlate,
            73 => Block::RedstoneOre,
            74 => Block::LitRedstoneOre,
            75 => Block::UnlitRedstoneTorch,
            76 => Block::RedstoneTorch,
            77 => Block::StoneButton,
            78 => Block::SnowLayer,
            79 => Block::Ice,
            80 => Block::SnowBlock,
            81 => Block::Cactus,
            82 => Block::Clay,
            83 => Block::SugarCane,
            84 => Block::Jukebox,
            85 => Block::OakFence,
            86 => Block::Pumpkin,
            87 => Block::Netherrack,
            88 => Block::SoulSand,
            89 => Block::Glowstone,
            91 => Block::JackOLantern,
            92 => Block::Cake,
            93 => Block::UnpoweredRepeater,
            94 => Block::PoweredRepeater,
            96 => Block::Trapdoor,
            98 => Block::StoneBricks,
            101 => Block::IronBars,
            102 => Block::GlassPane,
            103 => Block::MelonBlock,
            104 => Block::PumpkinStem,
            105 => Block::MelonStem,
            106 => Block::Vine,
            107 => Block::OakFenceGate,
            108 => Block::BrickStairs,
            109 => Block::StoneBrickStairs,
            110 => Block::Mycelium,
            111 => Block::LilyPad,
            112 => Block::NetherBrick,
            113 => Block::NetherBrickFence,
            114 => Block::NetherBrickStairs,
            115 => Block::NetherWart,
            116 => Block::EnchantingTable,
            117 => Block::BrewingStand,
            118 => Block::Cauldron,
            121 => Block::EndStone,
            122 => Block::DragonEgg,
            129 => Block::EmeraldOre,
            130 => Block::EnderChest,
            132 => Block::Tripwire,
            133 => Block::EmeraldBlock,
            137 => Block::CommandBlock,
            138 => Block::Beacon,
            139 => Block::CobblestoneWall,
            140 => Block::FlowerPot,
            143 => Block::WoodenButton,
            145 => Block::Anvil,
            146 => Block::TrappedChest,
            149 => Block::UnpoweredComparator,
            150 => Block::PoweredComparator,
            151 => Block::DaylightDetector,
            154 => Block::Hopper,
            155 => Block::QuartzBlock,
            156 => Block::QuartzStairs,
            157 => Block::ActivatorRail,
            158 => Block::Dropper,
            159 => Block::StainedClay,
            167 => Block::IronTrapdoor,
            170 => Block::HayBlock,
            172 => Block::HardenedClay,
            173 => Block::CoalBlock,
            174 => Block::PackedIce,
            175 => Block::LargeFlower,
            183 => Block::SpruceFenceGate,
            184 => Block::BirchFenceGate,
            185 => Block::JungleFenceGate,
            186 => Block::DarkOakFenceGate,
            187 => Block::AcaciaFenceGate,
            188 => Block::SpruceFence,
            189 => Block::BirchFence,
            190 => Block::JungleFence,
            191 => Block::DarkOakFence,
            192 => Block::AcaciaFence,
            193 => Block::SpruceDoor,
            194 => Block::BirchDoor,
            195 => Block::JungleDoor,
            196 => Block::AcaciaDoor,
            197 => Block::DarkOakDoor,
            8 => Block::FlowingWater,
            9 => Block::Water,
            10 => Block::FlowingLava,
            11 => Block::Lava,
            34 => Block::PistonHead,
            36 => Block::PistonExtension,
            90 => Block::Portal,
            95 => Block::StainedGlass,
            97 => Block::MonsterEgg,
            99 => Block::BrownMushroomBlock,
            100 => Block::RedMushroomBlock,
            119 => Block::EndPortal,
            120 => Block::EndPortalFrame,
            123 => Block::RedstoneLamp,
            124 => Block::LitRedstoneLamp,
            125 => Block::DoubleWoodSlab,
            126 => Block::WoodSlab,
            127 => Block::Cocoa,
            128 => Block::SandstoneStairs,
            131 => Block::TripwireHook,
            134 => Block::SpruceStairs,
            135 => Block::BirchStairs,
            136 => Block::JungleStairs,
            141 => Block::Carrots,
            142 => Block::Potatoes,
            144 => Block::Skull,
            147 => Block::LightWeightedPressurePlate,
            148 => Block::HeavyWeightedPressurePlate,
            152 => Block::RedstoneBlock,
            153 => Block::QuartzOre,
            160 => Block::StainedGlassPane,
            161 => Block::Leaves2,
            162 => Block::Log2,
            163 => Block::AcaciaStairs,
            164 => Block::DarkOakStairs,
            165 => Block::SlimeBlock,
            166 => Block::Barrier,
            168 => Block::Prismarine,
            169 => Block::SeaLantern,
            171 => Block::Carpet,
            176 => Block::StandingBanner,
            177 => Block::WallBanner,
            178 => Block::DaylightDetectorInverted,
            179 => Block::RedSandstone,
            180 => Block::RedSandstoneStairs,
            181 => Block::DoubleStoneSlab2,
            182 => Block::StoneSlab2,
            _ => Block::Air,
        }
    }
}

} // verus!

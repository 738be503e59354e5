//! Entity kinds of protocol 47 and their stable names.
use vstd::prelude::*;

verus! {

/// The kind of an entity: the objects and mobs of protocol 47 and players.
#[derive(Clone, Copy, Debug, PartialEq, Eq, Structural)]
pub enum EntityType {
    Item,
    XPOrb,
    Painting,
    ItemFrame,
    LeashKnot,
    Arrow,
    Snowball,
    Fireball,
    SmallFireball,
    EnderPearl,
    EnderEye,
    ThrownPotion,
    ThrownExpBottle,
    ThrownEgg,
    WitherSkull,
    FireworkRocket,
    PrimedTnt,
    FallingBlock,
    ArmorStand,
    Boat,
    MinecartEmpty,
    MinecartChest,
    MinecartFurnace,
    MinecartTNT,
    MinecartHopper,
    MinecartSpawner,
    MinecartCommand,
    EnderCrystal,
    FishingHook,
    LightningBolt,
    Player,
    Creeper,
    Skeleton,
    Spider,
    Giant,
    Zombie,
    Slime,
    Ghast,
    PigZombie,
    Enderman,
    CaveSpider,
    Silverfish,
    Blaze,
    MagmaCube,
    EnderDragon,
    Wither,
    Bat,
    Witch,
    Endermite,
    Guardian,
    Pig,
    Sheep,
    Cow,
    Chicken,
    Squid,
    Wolf,
    Mooshroom,
    SnowGolem,
    Ocelot,
    IronGolem,
    Horse,
    Rabbit,
    Villager,
}

/// Whether `t` is a mob (a living entity spawned as a mob, not a player).
pub open spec fn spec_is_mob(t: EntityType) -> bool {
    t == EntityType::Creeper
        || t == EntityType::Skeleton
        || t == EntityType::Spider
        || t == EntityType::Giant
        || t == EntityType::Zombie
        || t == EntityType::Slime
        || t == EntityType::Ghast
        || t == EntityType::PigZombie
        || t == EntityType::Enderman
        || t == EntityType::CaveSpider
        || t == EntityType::Silverfish
        || t == EntityType::Blaze
        || t == EntityType::MagmaCube
        || t == EntityType::EnderDragon
        || t == EntityType::Wither
        || t == EntityType::Bat
        || t == EntityType::Witch
        || t == EntityType::Endermite
        || t == EntityType::Guardian
        || t == EntityType::Pig
        || t == EntityType::Sheep
        || t == EntityType::Cow
        || t == EntityType::Chicken
        || t == EntityType::Squid
        || t == EntityType::Wolf
        || t == EntityType::Mooshroom
        || t == EntityType::SnowGolem
        || t == EntityType::Ocelot
        || t == EntityType::IronGolem
        || t == EntityType::Horse
        || t == EntityType::Rabbit
        || t == EntityType::Villager
}

/// Whether `t` is a passive mob (animals, golems, villagers and bats).
pub open spec fn spec_is_passive(t: EntityType) -> bool {
    t == EntityType::Bat
        || t == EntityType::Pig
        || t == EntityType::Sheep
        || t == EntityType::Cow
        || t == EntityType::Chicken
        || t == EntityType::Squid
        || t == EntityType::Wolf
        || t == EntityType::Mooshroom
        || t == EntityType::SnowGolem
        || t == EntityType::Ocelot
        || t == EntityType::IronGolem
        || t == EntityType::Horse
        || t == EntityType::Rabbit
        || t == EntityType::Villager
}

/// The variant name of each entity kind, as `Debug` prints it.
pub open spec fn spec_debug_name(t: EntityType) -> Seq<char> {
    match t {
        EntityType::Item => seq!['I', 't', 'e', 'm'],
        EntityType::XPOrb => seq!['X', 'P', 'O', 'r', 'b'],
        EntityType::Painting => seq!['P', 'a', 'i', 'n', 't', 'i', 'n', 'g'],
        EntityType::ItemFrame => seq!['I', 't', 'e', 'm', 'F', 'r', 'a', 'm', 'e'],
        EntityType::LeashKnot => seq!['L', 'e', 'a', 's', 'h', 'K', 'n', 'o', 't'],
        EntityType::Arrow => seq!['A', 'r', 'r', 'o', 'w'],
        EntityType::Snowball => seq!['S', 'n', 'o', 'w', 'b', 'a', 'l', 'l'],
        EntityType::Fireball => seq!['F', 'i', 'r', 'e', 'b', 'a', 'l', 'l'],
        EntityType::SmallFireball => seq!['S', 'm', 'a', 'l', 'l', 'F', 'i', 'r', 'e', 'b', 'a', 'l', 'l'],
        EntityType::EnderPearl => seq!['E', 'n', 'd', 'e', 'r', 'P', 'e', 'a', 'r', 'l'],
        EntityType::EnderEye => seq!['E', 'n', 'd', 'e', 'r', 'E', 'y', 'e'],
        EntityType::ThrownPotion => seq!['T', 'h', 'r', 'o', 'w', 'n', 'P', 'o', 't', 'i', 'o', 'n'],
        EntityType::ThrownExpBottle => seq!['T', 'h', 'r', 'o', 'w', 'n', 'E', 'x', 'p', 'B', 'o', 't', 't', 'l', 'e'],
        EntityType::ThrownEgg => seq!['T', 'h', 'r', 'o', 'w', 'n', 'E', 'g', 'g'],
        EntityType::WitherSkull => seq!['W', 'i', 't', 'h', 'e', 'r', 'S', 'k', 'u', 'l', 'l'],
        EntityType::FireworkRocket => seq!['F', 'i', 'r', 'e', 'w', 'o', 'r', 'k', 'R', 'o', 'c', 'k', 'e', 't'],
        EntityType::PrimedTnt => seq!['P', 'r', 'i', 'm', 'e', 'd', 'T', 'n', 't'],
        EntityType::FallingBlock => seq!['F', 'a', 'l', 'l', 'i', 'n', 'g', 'B', 'l', 'o', 'c', 'k'],
        EntityType::ArmorStand => seq!['A', 'r', 'm', 'o', 'r', 'S', 't', 'a', 'n', 'd'],
        EntityType::Boat => seq!['B', 'o', 'a', 't'],
        EntityType::MinecartEmpty => seq!['M', 'i', 'n', 'e', 'c', 'a', 'r', 't', 'E', 'm', 'p', 't', 'y'],
        EntityType::MinecartChest => seq!['M', 'i', 'n', 'e', 'c', 'a', 'r', 't', 'C', 'h', 'e', 's', 't'],
        EntityType::MinecartFurnace => seq!['M', 'i', 'n', 'e', 'c', 'a', 'r', 't', 'F', 'u', 'r', 'n', 'a', 'c', 'e'],
        EntityType::MinecartTNT => seq!['M', 'i', 'n', 'e', 'c', 'a', 'r', 't', 'T', 'N', 'T'],
        EntityType::MinecartHopper => seq!['M', 'i', 'n', 'e', 'c', 'a', 'r', 't', 'H', 'o', 'p', 'p', 'e', 'r'],
        EntityType::MinecartSpawner => seq!['M', 'i', 'n', 'e', 'c', 'a', 'r', 't', 'S', 'p', 'a', 'w', 'n', 'e', 'r'],
        EntityType::MinecartCommand => seq!['M', 'i', 'n', 'e', 'c', 'a', 'r', 't', 'C', 'o', 'm', 'm', 'a', 'n', 'd'],
        EntityType::EnderCrystal => seq!['E', 'n', 'd', 'e', 'r', 'C', 'r', 'y', 's', 't', 'a', 'l'],
        EntityType::FishingHook => seq!['F', 'i', 's', 'h', 'i', 'n', 'g', 'H', 'o', 'o', 'k'],
        EntityType::LightningBolt => seq!['L', 'i', 'g', 'h', 't', 'n', 'i', 'n', 'g', 'B', 'o', 'l', 't'],
        EntityType::Player => seq!['P', 'l', 'a', 'y', 'e', 'r'],
        EntityType::Creeper => seq!['C', 'r', 'e', 'e', 'p', 'e', 'r'],
        EntityType::Skeleton => seq!['S', 'k', 'e', 'l', 'e', 't', 'o', 'n'],
        EntityType::Spider => seq!['S', 'p', 'i', 'd', 'e', 'r'],
        EntityType::Giant => seq!['G', 'i', 'a', 'n', 't'],
        EntityType::Zombie => seq!['Z', 'o', 'm', 'b', 'i', 'e'],
        EntityType::Slime => seq!['S', 'l', 'i', 'm', 'e'],
        EntityType::Ghast => seq!['G', 'h', 'a', 's', 't'],
        EntityType::PigZombie => seq!['P', 'i', 'g', 'Z', 'o', 'm', 'b', 'i', 'e'],
        EntityType::Enderman => seq!['E', 'n', 'd', 'e', 'r', 'm', 'a', 'n'],
        EntityType::CaveSpider => seq!['C', 'a', 'v', 'e', 'S', 'p', 'i', 'd', 'e', 'r'],
        EntityType::Silverfish => seq!['S', 'i', 'l', 'v', 'e', 'r', 'f', 'i', 's', 'h'],
        EntityType::Blaze => seq!['B', 'l', 'a', 'z', 'e'],
        EntityType::MagmaCube => seq!['M', 'a', 'g', 'm', 'a', 'C', 'u', 'b', 'e'],
        EntityType::EnderDragon => seq!['E', 'n', 'd', 'e', 'r', 'D', 'r', 'a', 'g', 'o', 'n'],
        EntityType::Wither => seq!['W', 'i', 't', 'h', 'e', 'r'],
        EntityType::Bat => seq!['B', 'a', 't'],
        EntityType::Witch => seq!['W', 'i', 't', 'c', 'h'],
        EntityType::Endermite => seq!['E', 'n', 'd', 'e', 'r', 'm', 'i', 't', 'e'],
        EntityType::Guardian => seq!['G', 'u', 'a', 'r', 'd', 'i', 'a', 'n'],
        EntityType::Pig => seq!['P', 'i', 'g'],
        EntityType::Sheep => seq!['S', 'h', 'e', 'e', 'p'],
        EntityType::Cow => seq!['C', 'o', 'w'],
        EntityType::Chicken => seq!['C', 'h', 'i', 'c', 'k', 'e', 'n'],
        EntityType::Squid => seq!['S', 'q', 'u', 'i', 'd'],
        EntityType::Wolf => seq!['W', 'o', 'l', 'f'],
        EntityType::Mooshroom => seq!['M', 'o', 'o', 's', 'h', 'r', 'o', 'o', 'm'],
        EntityType::SnowGolem => seq!['S', 'n', 'o', 'w', 'G', 'o', 'l', 'e', 'm'],
        EntityType::Ocelot => seq!['O', 'c', 'e', 'l', 'o', 't'],
        EntityType::IronGolem => seq!['I', 'r', 'o', 'n', 'G', 'o', 'l', 'e', 'm'],
        EntityType::Horse => seq!['H', 'o', 'r', 's', 'e'],
        EntityType::Rabbit => seq!['R', 'a', 'b', 'b', 'i', 't'],
        EntityType::Villager => seq!['V', 'i', 'l', 'l', 'a', 'g', 'e', 'r'],
    }
}

impl EntityType {
    /// Whether this is a mob.
    pub fn is_mob(self) -> (r: bool)
        ensures
            r == spec_is_mob(self),
    {
        match self {
            EntityType::Creeper
            | EntityType::Skeleton
            | EntityType::Spider
            | EntityType::Giant
            | EntityType::Zombie
            | EntityType::Slime
            | EntityType::Ghast
            | EntityType::PigZombie
            | EntityType::Enderman
            | EntityType::CaveSpider
            | EntityType::Silverfish
            | EntityType::Blaze
            | EntityType::MagmaCube
            | EntityType::EnderDragon
            | EntityType::Wither
            | EntityType::Bat
            | EntityType::Witch
            | EntityType::Endermite
            | EntityType::Guardian
            | EntityType::Pig
            | EntityType::Sheep
            | EntityType::Cow
            | EntityType::Chicken
            | EntityType::Squid
            | EntityType::Wolf
            | EntityType::Mooshroom
            | EntityType::SnowGolem
            | EntityType::Ocelot
            | EntityType::IronGolem
            | EntityType::Horse
            | EntityType::Rabbit
            | EntityType::Villager => true,
            _ => false,
        }
    }

    /// Whether this is a passive mob.
    pub fn is_passive(self) -> (r: bool)
        ensures
            r == spec_is_passive(self),
    {
        match self {
            EntityType::Bat
            | EntityType::Pig
            | EntityType::Sheep
            | EntityType::Cow
            | EntityType::Chicken
            | EntityType::Squid
            | EntityType::Wolf
            | EntityType::Mooshroom
            | EntityType::SnowGolem
            | EntityType::Ocelot
            | EntityType::IronGolem
            | EntityType::Horse
            | EntityType::Rabbit
            | EntityType::Villager => true,
            _ => false,
        }
    }

    /// The variant name of this kind.
    pub fn debug_name(self) -> (r: &'static str)
        ensures
            r@ == spec_debug_name(self),
    {
        match self {
            EntityType::Item => {
                proof {
                    reveal_strlit("Item");
                }
                "Item"
            },
            EntityType::XPOrb => {
                proof {
                    reveal_strlit("XPOrb");
                }
                "XPOrb"
            },
            EntityType::Painting => {
                proof {
                    reveal_strlit("Painting");
                }
                "Painting"
            },
            EntityType::ItemFrame => {
                proof {
                    reveal_strlit("ItemFrame");
                }
                "ItemFrame"
            },
            EntityType::LeashKnot => {
                proof {
                    reveal_strlit("LeashKnot");
                }
                "LeashKnot"
            },
            EntityType::Arrow => {
                proof {
                    reveal_strlit("Arrow");
                }
                "Arrow"
            },
            EntityType::Snowball => {
                proof {
                    reveal_strlit("Snowball");
                }
                "Snowball"
            },
            EntityType::Fireball => {
                proof {
                    reveal_strlit("Fireball");
                }
                "Fireball"
            },
            EntityType::SmallFireball => {
                proof {
                    reveal_strlit("SmallFireball");
                }
                "SmallFireball"
            },
            EntityType::EnderPearl => {
                proof {
                    reveal_strlit("EnderPearl");
                }
                "EnderPearl"
            },
            EntityType::EnderEye => {
                proof {
                    reveal_strlit("EnderEye");
                }
                "EnderEye"
            },
            EntityType::ThrownPotion => {
                proof {
                    reveal_strlit("ThrownPotion");
                }
                "ThrownPotion"
            },
            EntityType::ThrownExpBottle => {
                proof {
                    reveal_strlit("ThrownExpBottle");
                }
                "ThrownExpBottle"
            },
            EntityType::ThrownEgg => {
                proof {
                    reveal_strlit("ThrownEgg");
                }
                "ThrownEgg"
            },
            EntityType::WitherSkull => {
                proof {
                    reveal_strlit("WitherSkull");
                }
                "WitherSkull"
            },
            EntityType::FireworkRocket => {
                proof {
                    reveal_strlit("FireworkRocket");
                }
                "FireworkRocket"
            },
            EntityType::PrimedTnt => {
                proof {
                    reveal_strlit("PrimedTnt");
                }
                "PrimedTnt"
            },
            EntityType::FallingBlock => {
                proof {
                    reveal_strlit("FallingBlock");
                }
                "FallingBlock"
            },
            EntityType::ArmorStand => {
                proof {
                    reveal_strlit("ArmorStand");
                }
                "ArmorStand"
            },
            EntityType::Boat => {
                proof {
                    reveal_strlit("Boat");
                }
                "Boat"
            },
            EntityType::MinecartEmpty => {
                proof {
                    reveal_strlit("MinecartEmpty");
                }
                "MinecartEmpty"
            },
            EntityType::MinecartChest => {
                proof {
                    reveal_strlit("MinecartChest");
                }
                "MinecartChest"
            },
            EntityType::MinecartFurnace => {
                proof {
                    reveal_strlit("MinecartFurnace");
                }
                "MinecartFurnace"
            },
            EntityType::MinecartTNT => {
                proof {
                    reveal_strlit("MinecartTNT");
                }
                "MinecartTNT"
            },
            EntityType::MinecartHopper => {
                proof {
                    reveal_strlit("MinecartHopper");
                }
                "MinecartHopper"
            },
            EntityType::MinecartSpawner => {
                proof {
                    reveal_strlit("MinecartSpawner");
                }
                "MinecartSpawner"
            },
            EntityType::MinecartCommand => {
                proof {
                    reveal_strlit("MinecartCommand");
                }
                "MinecartCommand"
            },
            EntityType::EnderCrystal => {
                proof {
                    reveal_strlit("EnderCrystal");
                }
                "EnderCrystal"
            },
            EntityType::FishingHook => {
                proof {
                    reveal_strlit("FishingHook");
                }
                "FishingHook"
            },
            EntityType::LightningBolt => {
                proof {
                    reveal_strlit("LightningBolt");
                }
                "LightningBolt"
            },
            EntityType::Player => {
                proof {
                    reveal_strlit("Player");
                }
                "Player"
            },
            EntityType::Creeper => {
                proof {
                    reveal_strlit("Creeper");
                }
                "Creeper"
            },
            EntityType::Skeleton => {
                proof {
                    reveal_strlit("Skeleton");
                }
                "Skeleton"
            },
            EntityType::Spider => {
                proof {
                    reveal_strlit("Spider");
                }
                "Spider"
            },
            EntityType::Giant => {
                proof {
                    reveal_strlit("Giant");
                }
                "Giant"
            },
            EntityType::Zombie => {
                proof {
                    reveal_strlit("Zombie");
                }
                "Zombie"
            },
            EntityType::Slime => {
                proof {
                    reveal_strlit("Slime");
                }
                "Slime"
            },
            EntityType::Ghast => {
                proof {
                    reveal_strlit("Ghast");
                }
                "Ghast"
            },
            EntityType::PigZombie => {
                proof {
                    reveal_strlit("PigZombie");
                }
                "PigZombie"
            },
            EntityType::Enderman => {
                proof {
                    reveal_strlit("Enderman");
                }
                "Enderman"
            },
            EntityType::CaveSpider => {
                proof {
                    reveal_strlit("CaveSpider");
                }
                "CaveSpider"
            },
            EntityType::Silverfish => {
                proof {
                    reveal_strlit("Silverfish");
                }
                "Silverfish"
            },
            EntityType::Blaze => {
                proof {
                    reveal_strlit("Blaze");
                }
                "Blaze"
            },
            EntityType::MagmaCube => {
                proof {
                    reveal_strlit("MagmaCube");
                }
                "MagmaCube"
            },
            EntityType::EnderDragon => {
                proof {
                    reveal_strlit("EnderDragon");
                }
                "EnderDragon"
            },
            EntityType::Wither => {
                proof {
                    reveal_strlit("Wither");
                }
                "Wither"
            },
            EntityType::Bat => {
                proof {
                    reveal_strlit("Bat");
                }
                "Bat"
            },
            EntityType::Witch => {
                proof {
                    reveal_strlit("Witch");
                }
                "Witch"
            },
            EntityType::Endermite => {
                proof {
                    reveal_strlit("Endermite");
                }
                "Endermite"
            },
            EntityType::Guardian => {
                proof {
                    reveal_strlit("Guardian");
                }
                "Guardian"
            },
            EntityType::Pig => {
                proof {
                    reveal_strlit("Pig");
                }
                "Pig"
            },
            EntityType::Sheep => {
                proof {
                    reveal_strlit("Sheep");
                }
                "Sheep"
            },
            EntityType::Cow => {
                proof {
                    reveal_strlit("Cow");
                }
                "Cow"
            },
            EntityType::Chicken => {
                proof {
                    reveal_strlit("Chicken");
                }
                "Chicken"
            },
            EntityType::Squid => {
                proof {
                    reveal_strlit("Squid");
                }
                "Squid"
            },
            EntityType::Wolf => {
                proof {
                    reveal_strlit("Wolf");
                }
                "Wolf"
            },
            EntityType::Mooshroom => {
                proof {
                    reveal_strlit("Mooshroom");
                }
                "Mooshroom"
            },
            EntityType::SnowGolem => {
                proof {
                    reveal_strlit("SnowGolem");
                }
                "SnowGolem"
            },
            EntityType::Ocelot => {
                proof {
                    reveal_strlit("Ocelot");
                }
                "Ocelot"
            },
            EntityType::IronGolem => {
                proof {
                    reveal_strlit("IronGolem");
                }
                "IronGolem"
            },
            EntityType::Horse => {
                proof {
                    reveal_strlit("Horse");
                }
                "Horse"
            },
            EntityType::Rabbit => {
                proof {
                    reveal_strlit("Rabbit");
                }
                "Rabbit"
            },
            EntityType::Villager => {
                proof {
                    reveal_strlit("Villager");
                }
                "Villager"
            },
        }
    }
}
/// The stable snake_case name scripts see for an entity kind.
pub open spec fn spec_entity_api_name(t: EntityType) -> Seq<char> {
    crate::text::spec_snake_case(spec_debug_name(t))
}

/// The stable snake_case name of an entity kind (`MinecartTNT` is
/// `minecart_tnt`, `XPOrb` is `xp_orb`).
pub fn entity_api_name(entity_type: EntityType) -> (r: String)
    ensures
        r@ == spec_entity_api_name(entity_type),
{
    crate::text::snake_case(entity_type.debug_name())
}

} // verus!

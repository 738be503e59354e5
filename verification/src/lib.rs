//! The game logic of a Minecraft 1.8.9 client (protocol 47): inventory and
//! window handling, item NBT, book editing, inbound packet scheduling,
//! input bindings, block placement and the option values, each stated in
//! contracts and proved.
use vstd::prelude::*;

pub mod armor;
pub mod block;
pub mod book;
pub mod bytes;
pub mod config;
pub mod entity;
pub mod gamepad;
pub mod interaction;
pub mod inventory;
pub mod keybind;
pub mod menu;
pub mod nbt;
pub mod network;
pub mod placement;
pub mod resource_pack;
pub mod script;
pub mod skin;
pub mod slot;
pub mod text;

verus! {

} // verus!

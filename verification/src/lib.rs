//! Item data components, mob effects and potions of a Minecraft server,
//! with their network codecs, registries and item-use rules.

pub mod codec;
pub mod identifier;
pub mod key_index;
pub mod mob_effect;
pub mod item;
pub mod potion;
pub mod components;
pub mod packets;
pub mod behavior;
pub mod build_data;
pub mod nbt;

//! Item data components and their wire forms.

pub mod consume_effect;
pub mod consumable;
pub mod food_properties;
pub mod use_cooldown;
pub mod use_effects;
pub mod potion_contents;
pub mod use_remainder;

//! What happens when a player starts using a consumable, food or potion item.
use vstd::prelude::*;
use crate::components::food_properties::FoodProperties;

verus! {

/// The outcome of an item interaction.
#[derive(Debug, Clone, Copy, PartialEq, Eq, Structural)]
pub enum InteractionResult {
    /// The item was used.
    Success,
    /// The item could not be used.
    Fail,
    /// The interaction does not apply.
    Pass,
}

/// The flag handed to the player's hunger check: the food's own
/// `can_always_eat`, or `default` when the stack carries no food component.
pub open spec fn can_always_eat_flag(food: Option<FoodProperties>, default: bool) -> bool {
    match food {
        Some(f) => f.can_always_eat,
        None => default,
    }
}

/// Calls the player's hunger check with the stack's `can_always_eat` flag.
fn hunger_check<F: Fn(bool) -> bool>(can_eat: &F, food: Option<&FoodProperties>, default: bool) -> (b:
    bool)
    requires
        forall|x: bool| can_eat.requires((x,)),
    ensures
        can_eat.ensures(
            (can_always_eat_flag(
                match food {
                    Some(f) => Some(*f),
                    None => None,
                },
                default,
            ),),
            b,
        ),
{
    let mut can_always_eat = default;
    if let Some(food_properties) = food {
        can_always_eat = food_properties.can_always_eat;
    }
    can_eat(can_always_eat)
}

/// The behavior shared by consumable items.
#[derive(Clone)]
pub struct ConsumableImpl;

impl ConsumableImpl {
    /// The behavior.
    pub fn new() -> (c: Self) {
        ConsumableImpl {  }
    }

    /// Whether the player may consume the stack: its food's `can_always_eat`
    /// (true when it has no food component) goes to the player's hunger check.
    pub fn can_consume<F: Fn(bool) -> bool>(can_eat: &F, food: Option<&FoodProperties>) -> (b: bool)
        requires
            forall|x: bool| can_eat.requires((x,)),
        ensures
            can_eat.ensures(
                (can_always_eat_flag(
                    match food {
                        Some(f) => Some(*f),
                        None => None,
                    },
                    true,
                ),),
                b,
            ),
    {
        hunger_check(can_eat, food, true)
    }

    /// Starts consuming: a user that is not a player passes; a busy
    /// inventory or a failed hunger check fails; otherwise the player starts
    /// using the item and the interaction succeeds. The hunger check is
    /// only made for a player whose inventory is free.
    pub fn start_consuming<F: Fn(bool) -> bool>(
        &self,
        user_is_player: bool,
        inventory_locked: bool,
        can_eat: &F,
        food: Option<&FoodProperties>,
    ) -> (r: InteractionResult)
        requires
            forall|x: bool| can_eat.requires((x,)),
        ensures
            !user_is_player ==> r == InteractionResult::Pass,
            user_is_player && inventory_locked ==> r == InteractionResult::Fail,
            user_is_player && !inventory_locked ==> (r == InteractionResult::Success
                || r == InteractionResult::Fail),
            user_is_player && !inventory_locked ==> can_eat.ensures(
                (can_always_eat_flag(
                    match food {
                        Some(f) => Some(*f),
                        None => None,
                    },
                    true,
                ),),
                r == InteractionResult::Success,
            ),
    {
        if !user_is_player {
            return InteractionResult::Pass;
        }
        if inventory_locked {
            return InteractionResult::Fail;
        }
        if !Self::can_consume(can_eat, food) {
            return InteractionResult::Fail;
        }
        InteractionResult::Success
    }
}

/// The behavior of food items.
pub struct FoodItem;

impl FoodItem {
    /// Whether the player may eat the stack: its food's `can_always_eat`
    /// (false when it has no food component) goes to the player's hunger check.
    pub fn can_consume<F: Fn(bool) -> bool>(can_eat: &F, food: Option<&FoodProperties>) -> (b: bool)
        requires
            forall|x: bool| can_eat.requires((x,)),
        ensures
            can_eat.ensures(
                (can_always_eat_flag(
                    match food {
                        Some(f) => Some(*f),
                        None => None,
                    },
                    false,
                ),),
                b,
            ),
    {
        hunger_check(can_eat, food, false)
    }

    /// Using food: a busy inventory or a failed hunger check fails;
    /// otherwise the player starts using the item and the use succeeds.
    pub fn use_item<F: Fn(bool) -> bool>(
        &self,
        inventory_locked: bool,
        can_eat: &F,
        food: Option<&FoodProperties>,
    ) -> (r: InteractionResult)
        requires
            forall|x: bool| can_eat.requires((x,)),
        ensures
            inventory_locked ==> r == InteractionResult::Fail,
            !inventory_locked ==> (r == InteractionResult::Success || r == InteractionResult::Fail),
            !inventory_locked ==> can_eat.ensures(
                (can_always_eat_flag(
                    match food {
                        Some(f) => Some(*f),
                        None => None,
                    },
                    false,
                ),),
                r == InteractionResult::Success,
            ),
    {
        if inventory_locked {
            return InteractionResult::Fail;
        }
        if !Self::can_consume(can_eat, food) {
            return InteractionResult::Fail;
        }
        InteractionResult::Success
    }
}

/// The behavior of ominous potions.
pub struct OminousPotionItem;

impl OminousPotionItem {
    /// Using it on a block always succeeds.
    pub fn use_on(&self) -> (r: InteractionResult)
        ensures
            r == InteractionResult::Success,
    {
        InteractionResult::Success
    }
}

/// The behavior of potions.
pub struct PotionItem;

impl PotionItem {
    /// Using it on a block always succeeds.
    pub fn use_on(&self) -> (r: InteractionResult)
        ensures
            r == InteractionResult::Success,
    {
        InteractionResult::Success
    }
}

} // verus!

use steel_registry::behavior::{ConsumableImpl, FoodItem, InteractionResult, OminousPotionItem, PotionItem};
use steel_registry::build_data::{
    list_or_single, removed_effect_keys, tool_rule_block_texts, DataValue, RemovedEffectsError,
    ambient_default, block_const_name, builder_call, builder_calls, component_key, consumable_from_json,
    consume_effect_from_json, consume_effect_kind, equippable_slot, food_properties_from_json,
    get_component_ident, get_craft_remainder, hidden_effect_default, item_construction,
    mob_effect_instance_from_json, parse_block_or_tag, parse_identifier, potion_const_name,
    potion_const_name_from, strip_vanilla_prefix, tool_can_destroy_in_creative,
    tool_damage_per_block, tool_rule_blocks, use_cooldown_from_json, use_effects_from_json,
    visible_default, BuilderCall, ComponentKey, ComponentValue, ConsumeEffectKind, Effect,
    EquippableSlot, ItemConstruction, PotionJson, DEFAULT_SPEED_MULTIPLIER_BITS,
};
use steel_registry::components::consumable::{ConsumeEffect, DEFAULT_CONSUME_SECONDS_BITS};
use steel_registry::components::food_properties::FoodProperties;
use steel_registry::item::ItemUseAnimation;
use steel_registry::mob_effect::{LazyMobEffect, MobEffectInstance};

#[test]
fn data_file_effect_defaults() {
    assert!(!ambient_default());
    assert!(visible_default());
    assert!(hidden_effect_default().is_none());
}

#[test]
fn potion_constant_names() {
    assert_eq!(potion_const_name("strong_healing"), "STRONG_HEALING");
    assert_eq!(potion_const_name("water"), "WATER");
    assert_eq!(potion_const_name("2x_speed"), "POTION_2X_SPEED");
    assert_eq!(potion_const_name_from("9lives", String::from("NINE")), "POTION_NINE");
    assert_eq!(potion_const_name_from("lives", String::from("NINE")), "NINE");
}

#[test]
fn component_idents() {
    assert_eq!(get_component_ident("minecraft:max_stack_size"), "MAX_STACK_SIZE");
    assert_eq!(get_component_ident("use_cooldown"), "USE_COOLDOWN");
    assert_eq!(strip_vanilla_prefix("minecraft:food"), "food");
    assert_eq!(strip_vanilla_prefix("steel:food"), "steel:food");
    assert_eq!(strip_vanilla_prefix("mine"), "mine");
}

#[test]
fn craft_remainders() {
    assert_eq!(get_craft_remainder("water_bucket"), Some("bucket"));
    assert_eq!(get_craft_remainder("tadpole_bucket"), Some("bucket"));
    assert_eq!(get_craft_remainder("honey_bottle"), Some("glass_bottle"));
    assert_eq!(get_craft_remainder("potion"), Some("glass_bottle"));
    assert_eq!(get_craft_remainder("bucket"), None);
    assert_eq!(get_craft_remainder("splash_potion"), None);
}

#[test]
fn identifiers_and_tags_from_data_files() {
    let a = parse_identifier("steel:thing");
    assert_eq!((a.namespace.as_str(), a.path.as_str()), ("steel", "thing"));
    let b = parse_identifier("thing");
    assert_eq!((b.namespace.as_str(), b.path.as_str()), ("minecraft", "thing"));
    let t = parse_block_or_tag("#minecraft:mineable/pickaxe");
    assert_eq!((t.namespace.as_str(), t.path.as_str()), ("#minecraft", "mineable/pickaxe"));
    let s = parse_block_or_tag("minecraft:stone");
    assert_eq!((s.namespace.as_str(), s.path.as_str()), ("minecraft", "stone"));
    let u = parse_block_or_tag("#logs");
    assert_eq!((u.namespace.as_str(), u.path.as_str()), ("#minecraft", "logs"));
}

#[test]
fn mob_effect_instance_from_data_file() {
    let i = mob_effect_instance_from_json("minecraft:regeneration", Some(1), Some(900), None, None, Some(false), None);
    assert_eq!(i.amplifier(), 1);
    assert_eq!(i.duration(), Some(900));
    assert!(!i.ambient && i.visible && !i.show_icon);
    assert_eq!(i.key().path, "regeneration");
    let infinite = mob_effect_instance_from_json("speed", None, Some(-1), Some(true), Some(false), None, Some(i.clone()));
    assert_eq!(infinite.duration(), None);
    let cut = mob_effect_instance_from_json("speed", None, Some(u32::MAX as i64), None, None, None, None);
    assert_eq!(cut.duration(), None);
    let absent = mob_effect_instance_from_json("speed", None, None, None, None, None, None);
    assert_eq!(absent.duration(), Some(0));
    let speed = mob_effect_instance_from_json("minecraft:speed", None, Some(600), None, None, None, None);
    assert_eq!(speed.duration(), Some(600));
    assert_eq!(infinite.amplifier(), 0);
    assert!(infinite.ambient && !infinite.visible && infinite.show_icon);
    assert!(infinite.hidden_effect.is_some());
}

#[test]
fn consume_effect_kinds_and_values() {
    assert_eq!(consume_effect_kind("minecraft:play_sound"), Some(ConsumeEffectKind::PlaySound));
    assert_eq!(consume_effect_kind("minecraft:clear_all_effects"), Some(ConsumeEffectKind::ClearAllEffects));
    assert_eq!(consume_effect_kind("play_sound"), None);
    let tp = consume_effect_from_json(ConsumeEffectKind::TeleportRandomly, vec![], vec![], None, None);
    assert!(matches!(tp, ConsumeEffect::TeleportRandomly { diameter_bits: 0 }));
    let removed = consume_effect_from_json(
        ConsumeEffectKind::RemoveEffects,
        vec![],
        vec![String::from("minecraft:poison"), String::from("steel:rust")],
        None,
        None,
    );
    match removed {
        ConsumeEffect::RemoveEffects { effects } => {
            assert_eq!(effects.len(), 2);
            assert_eq!(effects[0].key().to_string(), "minecraft:poison");
            assert_eq!(effects[1].key().to_string(), "steel:rust");
        },
        _ => panic!("expected removed effects"),
    }
    let sound = consume_effect_from_json(ConsumeEffectKind::PlaySound, vec![], vec![], None, Some(String::from("entity.burp")));
    match sound {
        ConsumeEffect::PlaySound { sound_event } => assert_eq!(sound_event.to_string(), "minecraft:entity.burp"),
        _ => panic!("expected a sound"),
    }
    let apply = consume_effect_from_json(
        ConsumeEffectKind::ApplyEffects,
        vec![MobEffectInstance::new(LazyMobEffect::Raw(parse_identifier("poison")), 0)],
        vec![],
        None,
        None,
    );
    assert!(matches!(&apply, ConsumeEffect::ApplyEffects { effects } if effects.len() == 1));
}

#[test]
fn component_defaults_from_data_files() {
    assert_eq!(
        food_properties_from_json(0x1_0000_0006, 7, None),
        FoodProperties { nutrition: 6, saturation_bits: 7, can_always_eat: false }
    );
    let u = use_effects_from_json(None, None, None);
    assert!(!u.can_sprint && u.interaction_vibrations);
    assert_eq!(u.speed_multiplier_bits, DEFAULT_SPEED_MULTIPLIER_BITS);
    assert_eq!(f32::from_bits(DEFAULT_SPEED_MULTIPLIER_BITS), 0.2f32);
    let c = use_cooldown_from_json(3, Some("ender_pearl"));
    assert_eq!(c.cooldown_group.unwrap().to_string(), "minecraft:ender_pearl");
    let d = use_cooldown_from_json(3, None);
    assert!(d.cooldown_group.is_none());
    let cons = consumable_from_json(None, None, None, vec![]);
    assert_eq!(cons.consume_seconds_bits, DEFAULT_CONSUME_SECONDS_BITS);
    assert_eq!(cons.animation, ItemUseAnimation::Eat);
    assert!(!cons.has_consume_particles);
    let drink = consumable_from_json(Some(5), Some("drink"), Some(true), vec![ConsumeEffect::ClearAllEffects]);
    assert_eq!(drink.animation, ItemUseAnimation::Drink);
    assert_eq!(drink.consume_seconds_bits, 5);
    assert_eq!(drink.on_consume_effects.len(), 1);
}

#[test]
fn builder_calls_of_components() {
    assert_eq!(component_key("minecraft:max_stack_size"), Some(ComponentKey::MaxStackSize));
    assert_eq!(component_key("minecraft:rarity"), None);
    assert_eq!(equippable_slot("offhand"), Some(EquippableSlot::Offhand));
    assert_eq!(equippable_slot("tail"), None);
    let int = |v: i64| ComponentValue { int_value: Some(v), bool_value: None, slot: None };
    let none = ComponentValue { int_value: None, bool_value: None, slot: None };
    assert_eq!(builder_call(ComponentKey::MaxStackSize, &int(64)), None);
    assert_eq!(builder_call(ComponentKey::MaxStackSize, &int(16)), Some(BuilderCall::MaxStackSize(16)));
    assert_eq!(builder_call(ComponentKey::RepairCost, &int(0)), None);
    assert_eq!(builder_call(ComponentKey::RepairCost, &int(3)), Some(BuilderCall::RepairCost(3)));
    assert_eq!(builder_call(ComponentKey::Damage, &int(0)), Some(BuilderCall::Damage(0)));
    assert_eq!(builder_call(ComponentKey::MaxDamage, &int(0x1_0000_0010)), Some(BuilderCall::MaxDamage(16)));
    assert_eq!(builder_call(ComponentKey::Glider, &none), Some(BuilderCall::Glider));
    let slot = |s: &str| ComponentValue { int_value: None, bool_value: None, slot: Some(String::from(s)) };
    assert_eq!(builder_call(ComponentKey::Equippable, &slot("head")), Some(BuilderCall::Equippable(EquippableSlot::Head)));
    assert_eq!(builder_call(ComponentKey::Equippable, &slot("wing")), None);
    assert_eq!(builder_call(ComponentKey::Equippable, &none), None);
    let glint = ComponentValue { int_value: None, bool_value: Some(false), slot: None };
    assert_eq!(builder_call(ComponentKey::EnchantmentGlintOverride, &glint), Some(BuilderCall::EnchantmentGlintOverride(false)));
}

#[test]
fn builder_calls_keep_component_order() {
    let comps = vec![
        (String::from("minecraft:consumable"), ComponentValue { int_value: None, bool_value: None, slot: None }),
        (String::from("minecraft:lore"), ComponentValue { int_value: None, bool_value: None, slot: None }),
        (String::from("minecraft:max_stack_size"), ComponentValue { int_value: Some(64), bool_value: None, slot: None }),
        (String::from("minecraft:max_damage"), ComponentValue { int_value: Some(250), bool_value: None, slot: None }),
        (String::from("minecraft:unbreakable"), ComponentValue { int_value: None, bool_value: None, slot: None }),
    ];
    let calls = builder_calls(&comps);
    assert_eq!(calls, vec![(0, BuilderCall::Consumable), (3, BuilderCall::MaxDamage(250)), (4, BuilderCall::Unbreakable)]);
}

#[test]
fn item_constructions() {
    assert_eq!(item_construction("stone", Some("stone")), ItemConstruction::FromBlock { custom_name: false });
    assert_eq!(item_construction("redstone", Some("redstone_wire")), ItemConstruction::FromBlock { custom_name: true });
    assert_eq!(item_construction("milk_bucket", None), ItemConstruction::Plain { craft_remainder: Some("bucket") });
    assert_eq!(item_construction("apple", None), ItemConstruction::Plain { craft_remainder: None });
}

#[test]
fn tool_fields_from_data_files() {
    assert_eq!(tool_damage_per_block(None), 1);
    assert_eq!(tool_damage_per_block(Some(2)), 2);
    assert!(tool_can_destroy_in_creative(None));
    assert!(!tool_can_destroy_in_creative(Some(false)));
    let blocks = tool_rule_blocks(&vec![String::from("#minecraft:mineable/axe"), String::from("cobweb")]);
    assert_eq!(blocks.len(), 2);
    assert_eq!(blocks[0].namespace, "#minecraft");
    assert_eq!(blocks[1].to_string(), "minecraft:cobweb");
}

#[test]
fn potion_json_to_potion() {
    let hidden = Effect {
        name: String::from("slowness"),
        duration: Some(10),
        amplifier: 0,
        ambient: false,
        visible: true,
        show_icon: true,
        hidden_effect: None,
    };
    let e = Effect {
        name: String::from("speed"),
        duration: None,
        amplifier: 1,
        ambient: true,
        visible: false,
        show_icon: false,
        hidden_effect: Some(Box::new(hidden)),
    };
    let i = e.to_instance();
    assert_eq!(i.key().to_string(), "minecraft:speed");
    assert_eq!(i.amplifier(), 1);
    assert_eq!(i.duration(), None);
    assert!(i.ambient && !i.visible && !i.show_icon);
    assert_eq!(i.hidden_effect.as_ref().unwrap().duration(), Some(10));
    let pj = PotionJson { id: 3, name: String::from("swiftness"), effects: vec![e] };
    assert_eq!(pj.effect_instances().len(), 1);
    let p = pj.to_potion();
    assert_eq!(p.id, 3);
    assert_eq!(p.key.to_string(), "minecraft:swiftness");
    assert_eq!(p.effects.resolve().len(), 1);
}

#[test]
fn consumable_start_consuming() {
    let behavior = ConsumableImpl::new();
    let hungry = |always: bool| always;
    let food = FoodProperties { nutrition: 1, saturation_bits: 0, can_always_eat: false };
    assert_eq!(behavior.start_consuming(false, false, &hungry, None), InteractionResult::Pass);
    assert_eq!(behavior.start_consuming(true, true, &hungry, None), InteractionResult::Fail);
    assert_eq!(behavior.start_consuming(true, false, &hungry, None), InteractionResult::Success);
    assert_eq!(behavior.start_consuming(true, false, &hungry, Some(&food)), InteractionResult::Fail);
    assert!(ConsumableImpl::can_consume(&hungry, None));
    assert!(!ConsumableImpl::can_consume(&hungry, Some(&food)));
}

#[test]
fn food_item_use() {
    let behavior = FoodItem;
    let not_hungry = |always: bool| always;
    let always = FoodProperties { nutrition: 1, saturation_bits: 0, can_always_eat: true };
    assert!(!FoodItem::can_consume(&not_hungry, None));
    assert!(FoodItem::can_consume(&not_hungry, Some(&always)));
    assert_eq!(behavior.use_item(true, &not_hungry, Some(&always)), InteractionResult::Fail);
    assert_eq!(behavior.use_item(false, &not_hungry, Some(&always)), InteractionResult::Success);
    assert_eq!(behavior.use_item(false, &not_hungry, None), InteractionResult::Fail);
    let hungry = |_always: bool| true;
    assert_eq!(behavior.use_item(false, &hungry, None), InteractionResult::Success);
}

#[test]
fn potions_used_on_blocks_succeed() {
    assert_eq!(PotionItem.use_on(), InteractionResult::Success);
    assert_eq!(OminousPotionItem.use_on(), InteractionResult::Success);
}

#[test]
fn block_constant_names() {
    assert_eq!(block_const_name("oak_log"), "OAK_LOG");
    assert_eq!(block_const_name("stone"), "STONE");
}

#[test]
fn unhandled_components_add_no_call() {
    let value = |v: Option<i64>| ComponentValue { int_value: v, bool_value: None, slot: None };
    let without = vec![
        (String::from("minecraft:damage"), value(Some(3))),
        (String::from("minecraft:food"), value(None)),
    ];
    let with = vec![
        (String::from("minecraft:damage"), value(Some(3))),
        (String::from("minecraft:rarity"), value(Some(9))),
        (String::from("minecraft:food"), value(None)),
    ];
    let a: Vec<BuilderCall> = builder_calls(&without).into_iter().map(|p| p.1).collect();
    let b: Vec<BuilderCall> = builder_calls(&with).into_iter().map(|p| p.1).collect();
    assert_eq!(a, b);
    assert_eq!(a, vec![BuilderCall::Damage(3), BuilderCall::Food]);
}

#[test]
fn data_value_shapes() {
    let text = |t: &str| DataValue::<u8>::Text(String::from(t));
    let list = DataValue::<u8>::List(vec![text("a"), DataValue::Other(7), text("b")]);
    assert_eq!(tool_rule_block_texts(Some(&list)), vec![String::from("a"), String::from("b")]);
    assert_eq!(tool_rule_block_texts(Some(&text("stone"))), vec![String::from("stone")]);
    assert!(tool_rule_block_texts(Some(&DataValue::<u8>::Other(1))).is_empty());
    assert!(tool_rule_block_texts::<u8>(None).is_empty());
    assert_eq!(removed_effect_keys(&text("speed")), Ok(vec![String::from("speed")]));
    let keys = DataValue::<u8>::List(vec![text("speed"), text("poison")]);
    assert_eq!(removed_effect_keys(&keys), Ok(vec![String::from("speed"), String::from("poison")]));
    assert_eq!(removed_effect_keys(&list), Err(RemovedEffectsError::EntryNotText));
    assert_eq!(removed_effect_keys(&DataValue::<u8>::Other(3)), Err(RemovedEffectsError::NeitherTextNorList));
    let single = list_or_single(DataValue::<u8>::Other(5));
    assert!(matches!(single.as_slice(), [DataValue::Other(5)]));
    let many = list_or_single(DataValue::<u8>::List(vec![DataValue::Other(1), DataValue::Other(2)]));
    assert_eq!(many.len(), 2);
    assert!(list_or_single(DataValue::<u8>::List(vec![])).is_empty());
}

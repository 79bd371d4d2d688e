use steel_registry::codec::{write_string, write_varint, ByteReader, DecodeError};
use steel_registry::components::consumable::{
    read_consumable, ConsumeEffect, Consumable, DEFAULT_CONSUME_SECONDS_BITS, GENERIC_EAT_SOUND_ID,
};
use steel_registry::components::consume_effect;
use steel_registry::components::food_properties::{read_food_properties, FoodProperties};
use steel_registry::components::potion_contents::{read_potion_contents, PotionContents};
use steel_registry::components::use_cooldown::{read_use_cooldown, UseCooldown};
use steel_registry::components::use_effects::{read_use_effects, UseEffects};
use steel_registry::components::use_remainder::{RemainderOutcome, UseRemainder};
use steel_registry::identifier::Identifier;
use steel_registry::item::{read_animation, read_item_potion, ItemUseAnimation, Potion as ItemPotion};
use steel_registry::mob_effect::{
    LazyMobEffect, MobEffect, MobEffectCategory, MobEffectInstance, MobEffectRef, MobEffectRegistry,
};
use steel_registry::nbt::{NbtCompound, NbtList, NbtTag};
use steel_registry::potion::{LazyEffects, Potion, PotionRef, PotionRegistry};

fn leak_effect(path: &str) -> MobEffectRef {
    Box::leak(Box::new(MobEffect {
        key: Identifier::vanilla(String::from(path)),
        category: MobEffectCategory::Harmful,
        color: 0,
    }))
}

fn effects() -> MobEffectRegistry {
    let mut reg = MobEffectRegistry::new();
    reg.register(leak_effect("speed"));
    reg.register(leak_effect("poison"));
    reg
}

fn leak_potion(id: i32, name: &str) -> PotionRef {
    Box::leak(Box::new(Potion {
        id,
        key: Identifier::vanilla(String::from(name)),
        effects: LazyEffects::with_baked(Vec::new()),
    }))
}

fn potions() -> PotionRegistry {
    let mut reg = PotionRegistry::new();
    reg.register(leak_potion(0, "water"));
    reg.register(leak_potion(1, "mundane"));
    reg.register(leak_potion(2, "thick"));
    reg
}

#[test]
fn animation_ids_names_and_arm_transform() {
    assert_eq!(ItemUseAnimation::NoAnimation.id(), 0);
    assert_eq!(ItemUseAnimation::Spear.id(), 11);
    assert_eq!(ItemUseAnimation::TootHorn.as_str(), "toot_horn");
    assert_eq!(ItemUseAnimation::NoAnimation.as_str(), "none");
    assert_eq!(ItemUseAnimation::from_id(2), Some(ItemUseAnimation::Drink));
    assert_eq!(ItemUseAnimation::from_id(12), None);
    assert_eq!(ItemUseAnimation::from_id(-1), None);
    assert_eq!(ItemUseAnimation::from_str("bundle"), Ok(ItemUseAnimation::Bundle));
    assert_eq!(ItemUseAnimation::from_str("Eat"), Err(String::from("Unknown item use animation: 'Eat'")));
    assert_eq!(ItemUseAnimation::from_str(""), Err(String::from("Unknown item use animation: ''")));
    assert!(ItemUseAnimation::Eat.custom_arm_transform());
    assert!(ItemUseAnimation::Drink.custom_arm_transform());
    assert!(ItemUseAnimation::Spear.custom_arm_transform());
    assert!(!ItemUseAnimation::Bow.custom_arm_transform());
}

#[test]
fn every_animation_survives_its_id_and_name() {
    for id in 0..12 {
        let a = ItemUseAnimation::from_id(id).unwrap();
        assert_eq!(a.id(), id);
        assert_eq!(ItemUseAnimation::from_str(a.as_str()), Ok(a));
        let mut out = Vec::new();
        a.write(&mut out);
        let mut r = ByteReader::new(&out);
        assert_eq!(read_animation(&mut r), Ok(a));
    }
}

#[test]
fn unknown_animation_id_is_refused() {
    let bytes = [40u8];
    let mut r = ByteReader::new(&bytes);
    assert_eq!(read_animation(&mut r), Err(DecodeError::UnknownAnimation(40)));
}

#[test]
fn food_properties_wire_and_nbt() {
    let f = FoodProperties { nutrition: 4, saturation_bits: 0x3F19_999A, can_always_eat: true };
    let mut out = Vec::new();
    f.write(&mut out);
    assert_eq!(out, vec![4, 0x3F, 0x19, 0x99, 0x9A, 1]);
    let mut r = ByteReader::new(&out);
    assert_eq!(read_food_properties(&mut r), Ok(f.clone()));
    let t = f.clone().to_nbt_tag();
    assert_eq!(FoodProperties::from_nbt_tag(&t), Some(f));
    assert_eq!(FoodProperties::from_nbt_tag(&NbtTag::Int(1)), None);
}

#[test]
fn use_effects_wire_and_nbt() {
    let u = UseEffects { can_sprint: true, interaction_vibrations: false, speed_multiplier_bits: 0x3E4C_CCCD };
    let mut out = Vec::new();
    u.write(&mut out);
    let mut r = ByteReader::new(&out);
    assert_eq!(read_use_effects(&mut r), Ok(u.clone()));
    let t = u.clone().to_nbt_tag();
    assert_eq!(UseEffects::from_nbt_tag(&t), Some(u));
}

#[test]
fn use_cooldown_wire_and_nbt() {
    let u = UseCooldown {
        seconds_bits: 0x3F80_0000,
        cooldown_group: Some(Identifier::new(String::from("steel"), String::from("ender_pearl"))),
    };
    let mut out = Vec::new();
    u.write(&mut out);
    assert_eq!(&out[..5], &[0x3F, 0x80, 0x00, 0x00, 1]);
    let mut r = ByteReader::new(&out);
    assert_eq!(read_use_cooldown(&mut r), Ok(UseCooldown {
        seconds_bits: 0x3F80_0000,
        cooldown_group: Some(Identifier::new(String::from("steel"), String::from("ender_pearl"))),
    }));
    let t = u.to_nbt_tag();
    let back = UseCooldown::from_nbt_tag(&t).unwrap();
    assert_eq!(back.seconds_bits, 0x3F80_0000);
    assert_eq!(back.cooldown_group.unwrap().to_string(), "steel:ender_pearl");
}

#[test]
fn use_cooldown_without_group_does_not_read_from_nbt() {
    let u = UseCooldown { seconds_bits: 0, cooldown_group: None };
    let t = u.to_nbt_tag();
    assert!(UseCooldown::from_nbt_tag(&t).is_none());
    let mut c = NbtCompound::new();
    c.insert("seconds", NbtTag::Float(5));
    c.insert("cooldown_group", NbtTag::Int(3));
    let read = UseCooldown::from_nbt_tag(&NbtTag::Compound(c)).unwrap();
    assert_eq!(read.seconds_bits, 5);
    assert!(read.cooldown_group.is_none());
}

#[test]
fn use_remainder_conversion() {
    let r = UseRemainder::new(Identifier::vanilla(String::from("bowl")));
    assert_eq!(r.identifier().path, "bowl");
    assert_eq!(r.convert_into_remainder(1, 1, false, false), RemainderOutcome::KeepUsedStack);
    assert_eq!(r.convert_into_remainder(0, 1, true, false), RemainderOutcome::KeepUsedStack);
    assert_eq!(r.convert_into_remainder(0, 1, false, false), RemainderOutcome::Remainder { announce: true });
    assert_eq!(r.convert_into_remainder(0, 1, false, true), RemainderOutcome::Remainder { announce: false });
}

#[test]
fn consumable_default_values() {
    let c = Consumable::default();
    assert_eq!(c.consume_seconds_bits, DEFAULT_CONSUME_SECONDS_BITS);
    assert_eq!(f32::from_bits(c.consume_seconds_bits), 1.6f32);
    assert_eq!(c.animation, ItemUseAnimation::Eat);
    assert!(c.has_consume_particles);
    assert!(c.on_consume_effects.is_empty());
}

#[test]
fn consumable_wire_roundtrip_of_stable_effects() {
    let reg = effects();
    let c = Consumable {
        consume_seconds_bits: 0x4000_0000,
        animation: ItemUseAnimation::Drink,
        has_consume_particles: false,
        on_consume_effects: vec![
            ConsumeEffect::ClearAllEffects,
            ConsumeEffect::TeleportRandomly { diameter_bits: 0x4180_0000 },
            ConsumeEffect::ApplyEffects { effects: vec![] },
        ],
    };
    let mut out = Vec::new();
    c.write(&mut out, &reg);
    assert_eq!(&out[..8], &[0x40, 0, 0, 0, 2, 0xB9, 0x05, 0]);
    assert_eq!(out[8], 3);
    let mut r = ByteReader::new(&out);
    let back = read_consumable(&mut r, &reg).unwrap();
    assert_eq!(back.consume_seconds_bits, 0x4000_0000);
    assert_eq!(back.animation, ItemUseAnimation::Drink);
    assert!(!back.has_consume_particles);
    assert_eq!(back.on_consume_effects.len(), 3);
    assert!(matches!(back.on_consume_effects[0], ConsumeEffect::ClearAllEffects));
    assert!(matches!(back.on_consume_effects[1], ConsumeEffect::TeleportRandomly { diameter_bits: 0x4180_0000 }));
    assert!(matches!(&back.on_consume_effects[2], ConsumeEffect::ApplyEffects { effects } if effects.is_empty()));
    assert_eq!(r.remaining(), 0);
    assert_eq!(GENERIC_EAT_SOUND_ID, 697);
}

#[test]
fn consumable_removed_effects_go_as_ids_and_come_back_as_keys() {
    let reg = effects();
    let e = ConsumeEffect::RemoveEffects {
        effects: vec![LazyMobEffect::Raw(Identifier::vanilla(String::from("poison")))],
    };
    let mut out = Vec::new();
    e.write(&mut out, &reg);
    assert_eq!(out, vec![1, 1, 1]);
    let mut bytes = vec![1u8, 1];
    write_string(&mut bytes, "speed");
    let mut r = ByteReader::new(&bytes);
    let read = steel_registry::components::consumable::read_consume_effect(&mut r, &reg).unwrap();
    match read {
        ConsumeEffect::RemoveEffects { effects } => {
            assert_eq!(effects.len(), 1);
            assert_eq!(effects[0].key().path, "speed");
        },
        _ => panic!("expected removed effects"),
    }
}

#[test]
fn consume_effect_unknown_type_and_unknown_effect() {
    let reg = effects();
    let bytes = [9u8];
    let mut r = ByteReader::new(&bytes);
    assert_eq!(
        steel_registry::components::consumable::read_consume_effect(&mut r, &reg).unwrap_err(),
        DecodeError::UnknownConsumeEffect(9)
    );
    let mut bytes = vec![1u8, 1];
    write_string(&mut bytes, "luck");
    let mut r = ByteReader::new(&bytes);
    assert_eq!(consume_effect::read_consume_effect(&mut r, &reg).unwrap_err(), DecodeError::UnknownMobEffect);
}

#[test]
fn consumable_sound_key_is_read_as_a_vanilla_path() {
    let reg = effects();
    let e = ConsumeEffect::PlaySound { sound_event: Identifier::vanilla(String::from("entity.burp")) };
    let mut out = Vec::new();
    e.write(&mut out, &reg);
    let mut r = ByteReader::new(&out);
    match steel_registry::components::consumable::read_consume_effect(&mut r, &reg).unwrap() {
        ConsumeEffect::PlaySound { sound_event } => {
            assert_eq!(sound_event.namespace, "minecraft");
            assert_eq!(sound_event.path, "minecraft:entity.burp");
        },
        _ => panic!("expected a sound"),
    }
}

#[test]
fn consumable_nbt_roundtrip() {
    let reg = effects();
    let c = Consumable {
        consume_seconds_bits: 0x3FCC_CCCD,
        animation: ItemUseAnimation::Block,
        has_consume_particles: true,
        on_consume_effects: vec![
            ConsumeEffect::TeleportRandomly { diameter_bits: 0x4180_0000 },
            ConsumeEffect::ClearAllEffects,
        ],
    };
    let t = c.to_nbt_tag();
    let back = Consumable::from_nbt_tag(&t, &reg).unwrap();
    assert_eq!(back.consume_seconds_bits, 0x3FCC_CCCD);
    assert_eq!(back.animation, ItemUseAnimation::Block);
    assert!(back.has_consume_particles);
    assert_eq!(back.on_consume_effects.len(), 2);
    assert!(matches!(back.on_consume_effects[1], ConsumeEffect::ClearAllEffects));
}

#[test]
fn consumable_nbt_unknown_animation_reads_as_eating() {
    let reg = effects();
    let mut c = NbtCompound::new();
    c.insert("consume_seconds", NbtTag::Float(1));
    c.insert("animation", NbtTag::String(String::from("dance")));
    c.insert("has_consume_particles", NbtTag::Byte(0));
    c.insert("on_consume_effects", NbtTag::List(NbtList::Empty));
    let back = Consumable::from_nbt_tag(&NbtTag::Compound(c), &reg).unwrap();
    assert_eq!(back.animation, ItemUseAnimation::Eat);
    assert!(!back.has_consume_particles);
}

#[test]
fn exported_consume_effect_wire_and_nbt() {
    let reg = effects();
    let e = consume_effect::ConsumeEffect::PlaySound { sound_event: String::from("entity.generic.drink") };
    let mut out = Vec::new();
    e.write(&mut out, &reg);
    let mut r = ByteReader::new(&out);
    match consume_effect::read_consume_effect(&mut r, &reg).unwrap() {
        consume_effect::ConsumeEffect::PlaySound { sound_event } => assert_eq!(sound_event, "entity.generic.drink"),
        _ => panic!("expected a sound"),
    }
    let removed = consume_effect::ConsumeEffect::RemoveEffects {
        effects: vec![LazyMobEffect::Raw(Identifier::vanilla(String::from("speed")))],
    };
    let c = removed.to_nbt_compound();
    assert_eq!(c.get_string("type").map(|s| s.as_str()), Some("minecraft:remove_effects"));
    let tp = consume_effect::ConsumeEffect::TeleportRandomly { diameter_bits: 7 };
    let back = consume_effect::ConsumeEffect::from_nbt_compound(&tp.to_nbt_compound(), &reg).unwrap();
    assert!(matches!(back, consume_effect::ConsumeEffect::TeleportRandomly { diameter_bits: 7 }));
}

#[test]
fn potion_contents_wire_roundtrip() {
    let reg = effects();
    let pots = potions();
    let pc = PotionContents {
        potion: Some(pots.potion_by_id(2)),
        custom_color: Some(-16777216),
        custom_effects: vec![],
        custom_name: Some(String::from("brew")),
    };
    let mut out = Vec::new();
    pc.write(&mut out, &reg);
    assert_eq!(&out[..7], &[1, 2, 1, 0xFF, 0, 0, 0]);
    let mut r = ByteReader::new(&out);
    let back = read_potion_contents(&mut r, &pots).unwrap();
    assert_eq!(back.potion.unwrap().key.path, "thick");
    assert_eq!(back.custom_color, Some(-16777216));
    assert!(back.custom_effects.is_empty());
    assert_eq!(back.custom_name, Some(String::from("brew")));
}

#[test]
fn potion_contents_unknown_index_is_refused() {
    let pots = potions();
    let mut bytes = vec![1u8];
    write_varint(&mut bytes, 9);
    let mut r = ByteReader::new(&bytes);
    assert_eq!(read_potion_contents(&mut r, &pots).unwrap_err(), DecodeError::UnknownPotion(9));
}

#[test]
fn potion_contents_nbt_strips_vanilla_prefix() {
    let reg = effects();
    let pots = potions();
    let mut c = NbtCompound::new();
    c.insert("potion", NbtTag::String(String::from("minecraft:mundane")));
    c.insert("custom_color", NbtTag::Int(5));
    c.insert("custom_name", NbtTag::String(String::from("lost")));
    let back = PotionContents::from_nbt_tag(&NbtTag::Compound(c), &pots, &reg).unwrap();
    assert_eq!(back.potion.unwrap().key.path, "mundane");
    assert_eq!(back.custom_color, Some(5));
    assert!(back.custom_effects.is_empty());
    assert_eq!(back.custom_name, Some(String::from("lost")));
    let mut c = NbtCompound::new();
    c.insert("potion", NbtTag::String(String::from("thick")));
    let back = PotionContents::from_nbt_tag(&NbtTag::Compound(c), &pots, &reg).unwrap();
    assert_eq!(back.potion.unwrap().id, 2);
    let mut c = NbtCompound::new();
    c.insert("potion", NbtTag::String(String::from("minecraft:luck")));
    assert!(PotionContents::from_nbt_tag(&NbtTag::Compound(c), &pots, &reg).is_none());
}

#[test]
fn potion_contents_nbt_form_and_empty_effect_list() {
    let reg = effects();
    let pots = potions();
    let pc = PotionContents {
        potion: Some(pots.potion_by_id(1)),
        custom_color: None,
        custom_effects: vec![],
        custom_name: Some(String::from("lost")),
    };
    let t = pc.to_nbt_tag();
    let c = t.as_compound().unwrap();
    assert_eq!(c.values.len(), 2);
    assert_eq!(c.get_string("potion").map(|s| s.as_str()), Some("minecraft:mundane"));
    assert!(matches!(c.get("custom_effects"), Some(NbtTag::List(NbtList::Empty))));
    assert!(c.get("custom_name").is_none());
    assert!(PotionContents::from_nbt_tag(&t, &pots, &reg).is_none());
}

#[test]
fn item_potion_wire_and_instant_effects() {
    let reg = effects();
    let p = ItemPotion::new(String::from("awkward"), vec![]);
    assert!(!p.has_instant_effects());
    let mut out = Vec::new();
    p.write(&mut out, &reg);
    assert_eq!(out, vec![7, b'a', b'w', b'k', b'w', b'a', b'r', b'd', 0]);
    let mut r = ByteReader::new(&out);
    let back = read_item_potion(&mut r).unwrap();
    assert_eq!(back.name, "awkward");
    assert!(back.effects.is_empty());
    let harm = ItemPotion::new(
        String::from("harming"),
        vec![MobEffectInstance::new(LazyMobEffect::Raw(Identifier::vanilla(String::from("poison"))), 0)
            .with_duration(Some(0))],
    );
    assert!(harm.has_instant_effects());
}

#[test]
fn mob_effect_instance_from_nbt_looks_up_the_key() {
    let reg = effects();
    let mut c = NbtCompound::new();
    c.insert("key", NbtTag::String(String::from("poison")));
    c.insert("amplifier", NbtTag::Int(2));
    c.insert("ambient", NbtTag::Byte(1));
    c.insert("visible", NbtTag::Byte(0));
    c.insert("show_icon", NbtTag::Byte(1));
    c.insert("hidden_effect", NbtTag::Byte(0));
    let i = MobEffectInstance::from_nbt_compound(&c, &reg).unwrap();
    assert_eq!(i.amplifier(), 2);
    assert_eq!(i.duration(), None);
    assert!(i.ambient && !i.visible && i.show_icon);
    assert_eq!(i.key().path, "poison");
    let mut d = NbtCompound::new();
    d.insert("key", NbtTag::String(String::from("luck")));
    assert!(MobEffectInstance::from_nbt_compound(&d, &reg).is_none());
}

#[test]
fn nbt_compound_finds_the_first_entry() {
    let mut c = NbtCompound::new();
    c.insert("a", NbtTag::Int(1));
    c.insert("a", NbtTag::Int(2));
    c.insert("b", NbtTag::Byte(3));
    assert_eq!(c.get_int("a"), Some(1));
    assert_eq!(c.get_byte("b"), Some(3));
    assert_eq!(c.get_int("b"), None);
    assert!(c.get("c").is_none());
    assert_eq!(NbtTag::Float(9).as_float(), Some(9));
    assert!(NbtTag::Other.as_compound().is_none());
}

#[test]
fn writability_checks() {
    let reg = effects();
    let ok = Consumable {
        consume_seconds_bits: 0,
        animation: ItemUseAnimation::Eat,
        has_consume_particles: false,
        on_consume_effects: vec![ConsumeEffect::RemoveEffects {
            effects: vec![LazyMobEffect::Raw(Identifier::vanilla(String::from("speed")))],
        }],
    };
    assert!(ok.is_writable(&reg));
    let bad = ConsumeEffect::RemoveEffects {
        effects: vec![LazyMobEffect::Raw(Identifier::vanilla(String::from("luck")))],
    };
    assert!(!bad.is_writable(&reg));
    assert!(ConsumeEffect::ClearAllEffects.is_writable(&reg));
    let apply = consume_effect::ConsumeEffect::ApplyEffects {
        effects: vec![MobEffectInstance::new(LazyMobEffect::Raw(Identifier::vanilla(String::from("luck"))), 0)],
    };
    assert!(!apply.is_resolvable(&reg));
}

use steel_registry::codec::{ByteReader, DecodeError};
use steel_registry::identifier::Identifier;
use steel_registry::mob_effect::{
    instances_equal, instances_resolvable, mob_effect_eq, read_mob_effect_instance, LazyMobEffect, MobEffect,
    MobEffectCategory, MobEffectInstance, MobEffectRef, MobEffectRegistry,
};
use steel_registry::packets::{CRemoveMobEffect, CUpdateMobEffect};
use steel_registry::potion::{read_potion, LazyEffects, Potion, PotionRef, PotionRegistry};

fn leak_effect(path: &str, category: MobEffectCategory, color: i32) -> MobEffectRef {
    Box::leak(Box::new(MobEffect {
        key: Identifier::vanilla(String::from(path)),
        category,
        color,
    }))
}

fn leak_potion(id: i32, name: &str, effects: Vec<MobEffectInstance>) -> PotionRef {
    Box::leak(Box::new(Potion {
        id,
        key: Identifier::vanilla(String::from(name)),
        effects: LazyEffects::with_baked(effects),
    }))
}

fn speed_registry() -> MobEffectRegistry {
    let mut reg = MobEffectRegistry::new();
    reg.register(leak_effect("speed", MobEffectCategory::Beneficial, 0x33EBFF));
    reg.register(leak_effect("slowness", MobEffectCategory::Harmful, 0x8BAFE0));
    reg.register(leak_effect("poison", MobEffectCategory::Harmful, 0x87A363));
    reg
}

#[test]
fn registry_ids_follow_registration_order() {
    let reg = speed_registry();
    let all = reg.iter();
    assert_eq!(all.len(), 3);
    assert_eq!(all[0].0, 0);
    assert_eq!(all[2].0, 2);
    assert_eq!(all[1].1.key.path, "slowness");
    let poison = Identifier::vanilla(String::from("poison"));
    assert_eq!(*reg.effect_id_by_key(&poison), 2);
    assert_eq!(reg.effect_by_key(&poison).color, 0x87A363);
    assert!(reg.find(&Identifier::vanilla(String::from("haste"))).is_none());
    for (i, e) in all.iter() {
        assert_eq!(*reg.effect_id_by_key(&e.key), *i);
        assert!(mob_effect_eq(reg.effect_by_key(&e.key), e));
    }
}

#[test]
fn registering_a_key_again_makes_it_lead_to_the_latest() {
    let mut reg = speed_registry();
    reg.register(leak_effect("speed", MobEffectCategory::Neutral, 7));
    let speed = Identifier::vanilla(String::from("speed"));
    assert_eq!(*reg.effect_id_by_key(&speed), 3);
    assert_eq!(reg.effect_by_key(&speed).color, 7);
    assert_eq!(reg.iter().len(), 4);
}

#[test]
fn default_registry_is_empty() {
    let reg = MobEffectRegistry::default();
    assert!(reg.iter().is_empty());
    let potions = PotionRegistry::default();
    assert!(potions.iter().is_empty());
}

#[test]
fn lazy_effects_resolve_and_compare_by_key() {
    let reg = speed_registry();
    let raw = LazyMobEffect::Raw(Identifier::vanilla(String::from("slowness")));
    let resolved = raw.resolve(&reg);
    assert_eq!(resolved.key.path, "slowness");
    assert_eq!(resolved.category, MobEffectCategory::Harmful);
    let other = LazyMobEffect::Resolved(resolved);
    assert!(raw == other);
    assert_eq!(raw.key().path, "slowness");
    let poison = LazyMobEffect::Raw(Identifier::vanilla(String::from("poison")));
    assert!(raw != poison);
}

#[test]
fn mob_effect_equality() {
    let a = MobEffect { key: Identifier::vanilla(String::from("speed")), category: MobEffectCategory::Beneficial, color: 1 };
    let b = MobEffect { key: Identifier::vanilla(String::from("speed")), category: MobEffectCategory::Beneficial, color: 1 };
    let c = MobEffect { key: Identifier::vanilla(String::from("speed")), category: MobEffectCategory::Harmful, color: 1 };
    assert!(mob_effect_eq(&a, &b));
    assert!(!mob_effect_eq(&a, &c));
    let mut out = Vec::new();
    a.write(&mut out);
    assert_eq!(out[0], 15);
    assert_eq!(&out[1..], b"minecraft:speed");
}

#[test]
fn instance_builders_and_getters() {
    let i = MobEffectInstance::new(LazyMobEffect::Raw(Identifier::vanilla(String::from("speed"))), 2);
    assert_eq!(i.amplifier(), 2);
    assert_eq!(i.duration(), None);
    assert!(i.is_infinite_duration());
    assert!(!i.is_instantaneous());
    assert!(i.ambient && i.visible && i.show_icon);
    assert!(i.hidden_effect.is_none());
    let j = i.clone().with_duration(Some(0)).with_ambient(false).with_visible(false).with_show_icon(false);
    assert!(j.is_instantaneous());
    assert!(!j.is_infinite_duration());
    assert!(!j.ambient && !j.visible && !j.show_icon);
    assert_eq!(j.key().path, "speed");
    assert!(!instances_equal(&i, &j));
    assert!(instances_equal(&i, &i.clone()));
    let k = j.with_hidden_effect(Some(Box::new(i.clone())));
    assert!(k.hidden_effect.is_some());
    let reg = speed_registry();
    assert_eq!(k.effect(&reg).color, 0x33EBFF);
}

#[test]
fn instance_wire_form() {
    let reg = speed_registry();
    let i = MobEffectInstance::new(LazyMobEffect::Raw(Identifier::vanilla(String::from("speed"))), 1)
        .with_duration(Some(200))
        .with_ambient(false);
    let mut out = Vec::new();
    i.write(&mut out, &reg);
    let mut expected = vec![15u8];
    expected.extend_from_slice(b"minecraft:speed");
    expected.extend_from_slice(&[0, 0, 0, 1, 0, 0, 0, 200, 0, 1, 1, 0]);
    assert_eq!(out, expected);
}

#[test]
fn instance_read_takes_varints_and_a_vanilla_path() {
    let mut bytes = vec![5u8];
    bytes.extend_from_slice(b"speed");
    bytes.extend_from_slice(&[3, 0xFF, 0xFF, 0xFF, 0xFF, 0x0F, 1, 0, 1, 0]);
    let mut r = ByteReader::new(&bytes);
    let i = read_mob_effect_instance(&mut r).unwrap();
    assert_eq!(i.key().namespace, "minecraft");
    assert_eq!(i.key().path, "speed");
    assert_eq!(i.amplifier(), 3);
    assert_eq!(i.duration(), None);
    assert!(i.ambient && !i.visible && i.show_icon);
    assert!(i.hidden_effect.is_none());
    assert_eq!(r.remaining(), 0);
}

#[test]
fn instance_nbt_form() {
    let reg = speed_registry();
    let i = MobEffectInstance::new(LazyMobEffect::Raw(Identifier::vanilla(String::from("poison"))), 4)
        .with_duration(Some(60))
        .with_visible(false);
    let c = i.to_nbt_compound();
    assert_eq!(c.get_int("amplifier"), Some(4));
    assert_eq!(c.get_int("duration"), Some(60));
    assert_eq!(c.get_string("effect").map(|s| s.as_str()), Some("minecraft:poison"));
}

#[test]
fn potion_registry_by_key_and_index() {
    let mut potions = PotionRegistry::new();
    let swift = MobEffectInstance::new(LazyMobEffect::Raw(Identifier::vanilla(String::from("speed"))), 0)
        .with_duration(Some(3600));
    potions.register(leak_potion(0, "water", vec![]));
    potions.register(leak_potion(1, "swiftness", vec![swift]));
    let key = Identifier::vanilla(String::from("swiftness"));
    assert!(potions.has_key(&key));
    assert_eq!(potions.potion_by_key(&key).id, 1);
    assert_eq!(potions.potion_by_id(0).key.path, "water");
    assert!(potions.find_by_id(2).is_none());
    assert!(potions.find_by_id(-1).is_none());
    assert_eq!(potions.iter().len(), 2);
    assert!(!potions.has_key(&Identifier::vanilla(String::from("luck"))));
}

#[test]
fn potion_made_from_a_function_and_its_instant_effects() {
    let p = Potion::new(7, "healing", || {
        vec![MobEffectInstance::new(LazyMobEffect::Raw(Identifier::vanilla(String::from("instant_health"))), 0)
            .with_duration(Some(0))]
    });
    assert_eq!(p.id, 7);
    assert_eq!(p.key.to_string(), "minecraft:healing");
    assert!(p.has_instant_effects());
    let q = Potion::new(8, "long_swiftness", Vec::new);
    assert!(!q.has_instant_effects());
    assert_eq!(q.effects.resolve().len(), 0);
}

#[test]
fn potion_wire_roundtrip_without_effects() {
    let reg = speed_registry();
    let p = Potion::new(5, "water", Vec::new);
    let mut out = Vec::new();
    p.write(&mut out, &reg);
    let mut r = ByteReader::new(&out);
    let q = read_potion(&mut r).unwrap();
    assert_eq!(q.id, 5);
    assert_eq!(q.key.namespace, "minecraft");
    assert_eq!(q.key.path, "minecraft:water");
    assert!(q.effects.resolve().is_empty());
}

#[test]
fn potion_read_of_short_input() {
    let bytes = [5u8];
    let mut r = ByteReader::new(&bytes);
    assert_eq!(read_potion(&mut r).unwrap_err(), DecodeError::UnexpectedEnd);
}

#[test]
fn update_packet_flags_and_duration() {
    assert_eq!(CUpdateMobEffect::make_flags(false, false, false, false), 0);
    assert_eq!(CUpdateMobEffect::make_flags(true, false, false, false), 1);
    assert_eq!(CUpdateMobEffect::make_flags(false, true, true, false), 6);
    assert_eq!(CUpdateMobEffect::make_flags(true, true, true, true), 15);
    let p = CUpdateMobEffect::new(42, 3, 1, None, 6);
    assert_eq!(p.duration, -1);
    assert_eq!(p.amplfier, 1);
    let mut out = Vec::new();
    p.write(&mut out);
    assert_eq!(out, vec![42, 3, 1, 0xFF, 0xFF, 0xFF, 0xFF, 0x0F, 6]);
    let q = CUpdateMobEffect::new(1, 2, 3, Some(400), 0);
    assert_eq!(q.duration, 400);
}

#[test]
fn remove_packet_body() {
    let p = CRemoveMobEffect::new(300, Identifier::vanilla(String::from("speed")));
    let mut out = Vec::new();
    p.write(&mut out);
    let mut expected = vec![0xACu8, 0x02, 15];
    expected.extend_from_slice(b"minecraft:speed");
    assert_eq!(out, expected);
}

#[test]
fn update_packet_flag_bits_read_back() {
    for bits in 0..16u8 {
        let (a, v, s, b) = (bits & 1 != 0, bits & 2 != 0, bits & 4 != 0, bits & 8 != 0);
        let flags = CUpdateMobEffect::make_flags(a, v, s, b);
        assert_eq!(flags as u8, bits);
        assert_eq!((flags & 1 != 0, flags & 2 != 0, flags & 4 != 0, flags & 8 != 0), (a, v, s, b));
    }
}

#[test]
fn resolvability_checks() {
    let reg = speed_registry();
    let known = MobEffectInstance::new(LazyMobEffect::Raw(Identifier::vanilla(String::from("speed"))), 0);
    let unknown = MobEffectInstance::new(LazyMobEffect::Raw(Identifier::vanilla(String::from("luck"))), 0);
    assert!(reg.has_key(&Identifier::vanilla(String::from("speed"))));
    assert!(!reg.has_key(&Identifier::vanilla(String::from("luck"))));
    assert!(known.is_resolvable(&reg));
    assert!(!unknown.is_resolvable(&reg));
    let hiding = known.clone().with_hidden_effect(Some(Box::new(unknown.clone())));
    assert!(!hiding.is_resolvable(&reg));
    assert!(instances_resolvable(&vec![known.clone()], &reg));
    assert!(!instances_resolvable(&vec![known, unknown], &reg));
    let resolved = LazyMobEffect::Resolved(reg.effect_by_key(&Identifier::vanilla(String::from("poison"))));
    assert!(resolved.is_resolvable(&MobEffectRegistry::new()));
}

#[test]
fn equality_through_a_key_between_two_effects() {
    let a: MobEffectRef = leak_effect("speed", MobEffectCategory::Beneficial, 1);
    let c: MobEffectRef = leak_effect("speed", MobEffectCategory::Beneficial, 2);
    let left = LazyMobEffect::Resolved(a);
    let middle = LazyMobEffect::Raw(Identifier::vanilla(String::from("speed")));
    let right = LazyMobEffect::Resolved(c);
    assert!(left == middle);
    assert!(middle == right);
    assert!(left != right);
    let raw_again = LazyMobEffect::Raw(Identifier::vanilla(String::from("speed")));
    assert!(left == raw_again && raw_again == middle);
}

#[test]
fn frozen_registries_keep_their_contents() {
    let mut reg = speed_registry();
    assert!(reg.allows_registering());
    reg.freeze();
    assert!(!reg.allows_registering());
    assert_eq!(reg.iter().len(), 3);
    assert_eq!(*reg.effect_id_by_key(&Identifier::vanilla(String::from("slowness"))), 1);
    let mut potions = PotionRegistry::new();
    potions.register(leak_potion(0, "water", vec![]));
    assert!(potions.allows_registering());
    potions.freeze();
    assert!(!potions.allows_registering());
    assert!(potions.has_key(&Identifier::vanilla(String::from("water"))));
}

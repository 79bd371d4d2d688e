//! The consumable component: how long an item takes to consume, how it
//! animates, and what consuming it does.
use vstd::prelude::*;
use crate::codec::{
    bool_byte, parse_bool, parse_count, parse_string, parse_u32_be,
    parse_varint, reads_as, string_bytes, u32_be_bytes, varint_encode, write_bool, write_string,
    write_u32_be, write_varint, ByteReader, DecodeError, Parsed,
};
use crate::components::consume_effect::{
    apply_effects_name, clear_all_effects_name, effects_entry, effects_from_nbt_list,
    effects_of_nbt_list, key_list_nbt, keys_to_nbt_list, parse_removed_effects,
    play_sound_name, read_removed_effects, remove_effects_name, teleport_randomly_name,
};
use crate::nbt::{
    bool_nbt_byte, entry_byte, entry_float, entry_string, find_entry, tag_string, NbtCompound,
    NbtList, NbtTag,
};
use crate::identifier::str_eq;
use crate::identifier::{identifier_text, vanilla_namespace, Identifier, IdentifierModel};
use crate::item::{animation_from_name, animation_name, parse_animation, read_animation, ItemUseAnimation};
use crate::mob_effect::{instance_list_nbt, instances_from_nbt_list, instances_of_nbt_list};
use crate::mob_effect::{
    all_resolvable, instance_list_bytes, instances_resolvable, lazy_key, parse_instance_list, read_instance_list,
    write_instance_list, LazyMobEffect, LazyMobEffectModel, MobEffectInstance,
    MobEffectInstanceModel, MobEffectRegistry,
};

verus! {

/// The sound id written for every consumable (the generic eating sound).
pub const GENERIC_EAT_SOUND_ID: i32 = 697;

/// The bit pattern of the `f32` 1.6, the default consume time in seconds.
pub const DEFAULT_CONSUME_SECONDS_BITS: u32 = 0x3FCC_CCCD;

/// One effect of consuming an item, as the consumable component holds it.
#[derive(Debug)]
pub enum ConsumeEffect {
    /// Applies the effect instances.
    ApplyEffects { effects: Vec<MobEffectInstance> },
    /// Removes the listed effects.
    RemoveEffects { effects: Vec<LazyMobEffect> },
    /// Removes every effect.
    ClearAllEffects,
    /// Teleports within a cube of the given diameter (the bit pattern of an `f32`).
    TeleportRandomly { diameter_bits: u32 },
    /// Plays the sound with the given key.
    PlaySound { sound_event: Identifier },
}

/// A consume effect of the consumable component as the contracts see it.
pub enum ConsumeEffectModel {
    ApplyEffects(Seq<MobEffectInstanceModel>),
    RemoveEffects(Seq<LazyMobEffectModel>),
    ClearAllEffects,
    TeleportRandomly(u32),
    PlaySound(IdentifierModel),
}

impl View for ConsumeEffect {
    type V = ConsumeEffectModel;

    open spec fn view(&self) -> ConsumeEffectModel {
        match self {
            ConsumeEffect::ApplyEffects { effects } => ConsumeEffectModel::ApplyEffects(
                effects@.map_values(|e: MobEffectInstance| e@),
            ),
            ConsumeEffect::RemoveEffects { effects } => ConsumeEffectModel::RemoveEffects(
                effects@.map_values(|e: LazyMobEffect| e@),
            ),
            ConsumeEffect::ClearAllEffects => ConsumeEffectModel::ClearAllEffects,
            ConsumeEffect::TeleportRandomly { diameter_bits } => ConsumeEffectModel::TeleportRandomly(
                *diameter_bits,
            ),
            ConsumeEffect::PlaySound { sound_event } => ConsumeEffectModel::PlaySound(sound_event@),
        }
    }
}

/// The registry ids of the effects' keys as VarInts, one after another.
pub open spec fn effect_ids_bytes(v: Seq<LazyMobEffectModel>, reg: &MobEffectRegistry) -> Seq<u8>
    decreases v.len(),
{
    if v.len() == 0 {
        Seq::empty()
    } else {
        effect_ids_bytes(v.drop_last(), reg) + varint_encode(reg.keys()[lazy_key(v.last())] as i32)
    }
}

/// The wire form: a VarInt type id (0 to 4) and the payload of the variant;
/// removed effects go as their registry ids, a sound as its key text.
#[verifier::opaque]
pub open spec fn consume_effect_bytes(e: ConsumeEffectModel, reg: &MobEffectRegistry) -> Seq<u8> {
    match e {
        ConsumeEffectModel::ApplyEffects(v) => varint_encode(0) + varint_encode(v.len() as i32)
            + instance_list_bytes(v),
        ConsumeEffectModel::RemoveEffects(v) => varint_encode(1) + varint_encode(v.len() as i32)
            + effect_ids_bytes(v, reg),
        ConsumeEffectModel::ClearAllEffects => varint_encode(2),
        ConsumeEffectModel::TeleportRandomly(d) => varint_encode(3) + u32_be_bytes(d),
        ConsumeEffectModel::PlaySound(k) => varint_encode(4) + string_bytes(identifier_text(k)),
    }
}

/// Whether the key of every effect in the list is registered.
pub open spec fn all_keys_registered(v: Seq<LazyMobEffectModel>, reg: &MobEffectRegistry) -> bool {
    forall|i: int| 0 <= i < v.len() ==> reg.registered(lazy_key(#[trigger] v[i]))
}

/// Whether the effect can be written: effects to apply can be looked up,
/// and every removed effect's key is registered.
pub open spec fn consume_effect_writable(e: ConsumeEffectModel, reg: &MobEffectRegistry) -> bool {
    match e {
        ConsumeEffectModel::ApplyEffects(v) => all_resolvable(v, reg),
        ConsumeEffectModel::RemoveEffects(v) => all_keys_registered(v, reg),
        _ => true,
    }
}

/// A consume effect read from the wire: removed effects are keys looked up
/// in the registry, a sound is a key text taken as a path in the vanilla namespace.
#[verifier::opaque]
pub open spec fn parse_consume_effect(s: Seq<u8>, reg: &MobEffectRegistry) -> Parsed<ConsumeEffectModel> {
    match parse_varint(s) {
        Err(e) => Err(e),
        Ok((t, r1)) => if t == 0 {
            match parse_count(r1) {
                Err(e) => Err(e),
                Ok((n, r2)) => match parse_instance_list(r2, n) {
                    Err(e) => Err(e),
                    Ok((v, r3)) => Ok((ConsumeEffectModel::ApplyEffects(v), r3)),
                },
            }
        } else if t == 1 {
            match parse_count(r1) {
                Err(e) => Err(e),
                Ok((n, r2)) => match parse_removed_effects(r2, n, reg) {
                    Err(e) => Err(e),
                    Ok((v, r3)) => Ok((ConsumeEffectModel::RemoveEffects(v), r3)),
                },
            }
        } else if t == 2 {
            Ok((ConsumeEffectModel::ClearAllEffects, r1))
        } else if t == 3 {
            match parse_u32_be(r1) {
                Err(e) => Err(e),
                Ok((d, r2)) => Ok((ConsumeEffectModel::TeleportRandomly(d), r2)),
            }
        } else if t == 4 {
            match parse_string(r1) {
                Err(e) => Err(e),
                Ok((text, r2)) => Ok(
                    (
                        ConsumeEffectModel::PlaySound(
                            IdentifierModel { namespace: vanilla_namespace(), path: text },
                        ),
                        r2,
                    ),
                ),
            }
        } else {
            Err(DecodeError::UnknownConsumeEffect(t))
        },
    }
}

/// Appends the registry id of each effect's key as a VarInt.
pub fn write_effect_ids(out: &mut Vec<u8>, v: &Vec<LazyMobEffect>, registry: &MobEffectRegistry)
    requires
        registry.wf(),
        all_keys_registered(v@.map_values(|e: LazyMobEffect| e@), registry),
    ensures
        final(out)@ == old(out)@ + effect_ids_bytes(v@.map_values(|e: LazyMobEffect| e@), registry),
{
    let n = v.len();
    let mut k: usize = 0;
    while k < n
        invariant
            n == v@.len(),
            k <= n,
            registry.wf(),
            all_keys_registered(v@.map_values(|e: LazyMobEffect| e@), registry),
            out@ == old(out)@ + effect_ids_bytes(
                v@.map_values(|e: LazyMobEffect| e@).take(k as int),
                registry,
            ),
        decreases n - k,
    {
        assert(v@.map_values(|e: LazyMobEffect| e@)[k as int] == v@[k as int]@);
        let effect = v[k].resolve(registry);
        let id = *registry.effect_id_by_key(&effect.key);
        write_varint(out, id as i32);
        proof {
            let m = v@.map_values(|e: LazyMobEffect| e@);
            assert(m.take(k + 1).drop_last() =~= m.take(k as int));
            assert(m.take(k + 1).last() == v@[k as int]@);
        }
        k = k + 1;
    }
    proof {
        let m = v@.map_values(|e: LazyMobEffect| e@);
        assert(m.take(n as int) =~= m);
    }
}

impl ConsumeEffect {
    /// Appends the wire form; effects to apply that are named only by key,
    /// and every removed effect, must be registered.
    pub fn write(&self, out: &mut Vec<u8>, registry: &MobEffectRegistry)
        requires
            registry.wf(),
            consume_effect_writable(self@, registry),
        ensures
            final(out)@ == old(out)@ + consume_effect_bytes(self@, registry),
    {
        reveal(consume_effect_bytes);
        match self {
            ConsumeEffect::ApplyEffects { effects } => {
                write_varint(out, 0);
                write_varint(out, effects.len() as i32);
                write_instance_list(out, effects, registry);
            },
            ConsumeEffect::RemoveEffects { effects } => {
                write_varint(out, 1);
                write_varint(out, effects.len() as i32);
                write_effect_ids(out, effects, registry);
            },
            ConsumeEffect::ClearAllEffects => {
                write_varint(out, 2);
            },
            ConsumeEffect::TeleportRandomly { diameter_bits } => {
                write_varint(out, 3);
                write_u32_be(out, *diameter_bits);
            },
            ConsumeEffect::PlaySound { sound_event } => {
                write_varint(out, 4);
                let text = sound_event.to_string();
                write_string(out, text.as_str());
            },
        }
        assert(out@ =~= old(out)@ + consume_effect_bytes(self@, registry));
    }
}

impl ConsumeEffect {
    /// Whether the effect can be written (see `consume_effect_writable`).
    pub fn is_writable(&self, registry: &MobEffectRegistry) -> (b: bool)
        ensures
            b == consume_effect_writable(self@, registry),
    {
        match self {
            ConsumeEffect::ApplyEffects { effects } => instances_resolvable(effects, registry),
            ConsumeEffect::RemoveEffects { effects } => {
                let ghost m = effects@.map_values(|e: LazyMobEffect| e@);
                let n = effects.len();
                let mut k: usize = 0;
                while k < n
                    invariant
                        n == effects@.len(),
                        m == effects@.map_values(|e: LazyMobEffect| e@),
                        self@ == ConsumeEffectModel::RemoveEffects(m),
                        k <= n,
                        forall|j: int| 0 <= j < k ==> registry.registered(lazy_key(#[trigger] m[j])),
                    decreases n - k,
                {
                    assert(m[k as int] == effects@[k as int]@);
                    if !registry.has_key(effects[k].key()) {
                        assert(!registry.registered(lazy_key(m[k as int])));
                        return false;
                    }
                    k = k + 1;
                }
                true
            },
            _ => true,
        }
    }
}

/// Reads a consume effect of the consumable component.
pub fn read_consume_effect(r: &mut ByteReader, registry: &MobEffectRegistry) -> (res: Result<
    ConsumeEffect,
    DecodeError,
>)
    requires
        old(r).wf(),
        registry.wf(),
    ensures
        final(r).wf(),
        final(r).input() == old(r).input(),
        reads_as(res, final(r).rest(), parse_consume_effect(old(r).rest(), registry)),
{
    reveal(parse_consume_effect);
    let t = r.read_varint()?;
    if t == 0 {
        let n = r.read_count()?;
        let effects = read_instance_list(r, n)?;
        Ok(ConsumeEffect::ApplyEffects { effects })
    } else if t == 1 {
        let n = r.read_count()?;
        let effects = read_removed_effects(r, n, registry)?;
        Ok(ConsumeEffect::RemoveEffects { effects })
    } else if t == 2 {
        Ok(ConsumeEffect::ClearAllEffects)
    } else if t == 3 {
        let diameter_bits = r.read_u32_be()?;
        Ok(ConsumeEffect::TeleportRandomly { diameter_bits })
    } else if t == 4 {
        let text = r.read_string()?;
        Ok(ConsumeEffect::PlaySound { sound_event: Identifier::vanilla(text) })
    } else {
        Err(DecodeError::UnknownConsumeEffect(t))
    }
}

/// `count` consume effects in a row.
pub open spec fn parse_consume_effect_list(s: Seq<u8>, count: nat, reg: &MobEffectRegistry) -> Parsed<
    Seq<ConsumeEffectModel>,
>
    decreases count,
{
    if count == 0 {
        Ok((Seq::empty(), s))
    } else {
        match parse_consume_effect(s, reg) {
            Err(e) => Err(e),
            Ok((first, r1)) => match parse_consume_effect_list(r1, (count - 1) as nat, reg) {
                Err(e) => Err(e),
                Ok((others, r2)) => Ok((seq![first] + others, r2)),
            },
        }
    }
}

/// Reads `count` consume effects in a row.
pub fn read_consume_effect_list(r: &mut ByteReader, count: usize, registry: &MobEffectRegistry) -> (res:
    Result<Vec<ConsumeEffect>, DecodeError>)
    requires
        old(r).wf(),
        registry.wf(),
    ensures
        final(r).wf(),
        final(r).input() == old(r).input(),
        match parse_consume_effect_list(old(r).rest(), count as nat, registry) {
            Ok((v, rest)) => res is Ok && res->Ok_0@.map_values(|e: ConsumeEffect| e@) == v
                && final(r).rest() == rest,
            Err(e) => res == Err::<Vec<ConsumeEffect>, DecodeError>(e),
        },
{
    let ghost s = r.rest();
    let mut out: Vec<ConsumeEffect> = Vec::new();
    let mut k: usize = 0;
    while k < count
        invariant
            r.wf(),
            r.input() == old(r).input(),
            registry.wf(),
            k <= count,
            s == old(r).rest(),
            parse_consume_effect_list(s, count as nat, registry) == match parse_consume_effect_list(
                r.rest(),
                (count - k) as nat,
                registry,
            ) {
                Err(e) => Err(e),
                Ok((others, r2)) => Ok((out@.map_values(|e: ConsumeEffect| e@) + others, r2)),
            },
        decreases count - k,
    {
        let ghost done = out@.map_values(|e: ConsumeEffect| e@);
        let item = match read_consume_effect(r, registry) {
            Ok(item) => item,
            Err(e) => {
                return Err(e);
            },
        };
        out.push(item);
        proof {
            assert(out@.map_values(|e: ConsumeEffect| e@) =~= done.push(item@));
            let tail = parse_consume_effect_list(r.rest(), (count - k - 1) as nat, registry);
            match tail {
                Ok((others, r2)) => {
                    assert(done + (seq![item@] + others) =~= done.push(item@) + others);
                },
                Err(_) => {},
            }
        }
        k = k + 1;
    }
    proof {
        assert(out@.map_values(|e: ConsumeEffect| e@) + Seq::<ConsumeEffectModel>::empty()
            =~= out@.map_values(|e: ConsumeEffect| e@));
    }
    Ok(out)
}

/// The wire forms of a list of consume effects, one after another.
pub open spec fn consume_effect_list_bytes(v: Seq<ConsumeEffectModel>, reg: &MobEffectRegistry) -> Seq<u8>
    decreases v.len(),
{
    if v.len() == 0 {
        Seq::empty()
    } else {
        consume_effect_list_bytes(v.drop_last(), reg) + consume_effect_bytes(v.last(), reg)
    }
}

/// The consumable component.
#[derive(Debug)]
pub struct Consumable {
    /// The time to consume in seconds (the bit pattern of an `f32`).
    pub consume_seconds_bits: u32,
    pub animation: ItemUseAnimation,
    pub has_consume_particles: bool,
    pub on_consume_effects: Vec<ConsumeEffect>,
}

/// A consumable as the contracts see it.
pub struct ConsumableModel {
    pub consume_seconds_bits: u32,
    pub animation: ItemUseAnimation,
    pub has_consume_particles: bool,
    pub on_consume_effects: Seq<ConsumeEffectModel>,
}

impl View for Consumable {
    type V = ConsumableModel;

    open spec fn view(&self) -> ConsumableModel {
        ConsumableModel {
            consume_seconds_bits: self.consume_seconds_bits,
            animation: self.animation,
            has_consume_particles: self.has_consume_particles,
            on_consume_effects: self.on_consume_effects@.map_values(|e: ConsumeEffect| e@),
        }
    }
}

impl Default for Consumable {
    /// 1.6 seconds, the eating animation, with particles, and no effects.
    fn default() -> (c: Self)
        ensures
            c@ == (ConsumableModel {
                consume_seconds_bits: DEFAULT_CONSUME_SECONDS_BITS,
                animation: ItemUseAnimation::Eat,
                has_consume_particles: true,
                on_consume_effects: Seq::empty(),
            }),
    {
        let c = Consumable {
            consume_seconds_bits: DEFAULT_CONSUME_SECONDS_BITS,
            animation: ItemUseAnimation::Eat,
            has_consume_particles: true,
            on_consume_effects: Vec::new(),
        };
        assert(c@.on_consume_effects =~= Seq::<ConsumeEffectModel>::empty());
        c
    }
}

/// The wire form: the consume time's four bytes, the animation id, the
/// generic eating sound id, the particle flag, the effect count and the effects.
pub open spec fn consumable_bytes(c: ConsumableModel, reg: &MobEffectRegistry) -> Seq<u8> {
    u32_be_bytes(c.consume_seconds_bits) + varint_encode(crate::item::animation_id(c.animation))
        + varint_encode(GENERIC_EAT_SOUND_ID) + seq![bool_byte(c.has_consume_particles)]
        + varint_encode(c.on_consume_effects.len() as i32) + consume_effect_list_bytes(
        c.on_consume_effects,
        reg,
    )
}

/// A consumable read from the wire; the sound id is read and dropped.
pub open spec fn parse_consumable(s: Seq<u8>, reg: &MobEffectRegistry) -> Parsed<ConsumableModel> {
    match parse_u32_be(s) {
        Err(e) => Err(e),
        Ok((bits, r1)) => match parse_animation(r1) {
            Err(e) => Err(e),
            Ok((animation, r2)) => match parse_varint(r2) {
                Err(e) => Err(e),
                Ok((_sound, r3)) => match parse_bool(r3) {
                    Err(e) => Err(e),
                    Ok((particles, r4)) => match parse_count(r4) {
                        Err(e) => Err(e),
                        Ok((n, r5)) => match parse_consume_effect_list(r5, n, reg) {
                            Err(e) => Err(e),
                            Ok((effects, r6)) => Ok(
                                (
                                    ConsumableModel {
                                        consume_seconds_bits: bits,
                                        animation,
                                        has_consume_particles: particles,
                                        on_consume_effects: effects,
                                    },
                                    r6,
                                ),
                            ),
                        },
                    },
                },
            },
        },
    }
}

impl Consumable {
    /// Appends the wire form; every effect must be writable (see `consume_effect_writable`).
    pub fn write(&self, out: &mut Vec<u8>, registry: &MobEffectRegistry)
        requires
            registry.wf(),
            forall|i: int| 0 <= i < self@.on_consume_effects.len() ==> consume_effect_writable(
                #[trigger] self@.on_consume_effects[i],
                registry,
            ),
        ensures
            final(out)@ == old(out)@ + consumable_bytes(self@, registry),
    {
        write_u32_be(out, self.consume_seconds_bits);
        self.animation.write(out);
        write_varint(out, GENERIC_EAT_SOUND_ID);
        write_bool(out, self.has_consume_particles);
        let n = self.on_consume_effects.len();
        write_varint(out, n as i32);
        let ghost start = out@;
        let ghost m = self@.on_consume_effects;
        let mut k: usize = 0;
        while k < n
            invariant
                n == self.on_consume_effects@.len(),
                m == self@.on_consume_effects,
                k <= n,
                registry.wf(),
                forall|i: int| 0 <= i < m.len() ==> consume_effect_writable(#[trigger] m[i], registry),
                out@ == start + consume_effect_list_bytes(m.take(k as int), registry),
            decreases n - k,
        {
            assert(m[k as int] == self.on_consume_effects@[k as int]@);
            self.on_consume_effects[k].write(out, registry);
            proof {
                assert(m.take(k + 1).drop_last() =~= m.take(k as int));
                assert(m.take(k + 1).last() == m[k as int]);
            }
            k = k + 1;
        }
        assert(m.take(n as int) =~= m);
        assert(out@ =~= old(out)@ + consumable_bytes(self@, registry));
    }
}

impl Consumable {
    /// Whether every effect can be written (see `consume_effect_writable`).
    pub fn is_writable(&self, registry: &MobEffectRegistry) -> (b: bool)
        ensures
            b == forall|i: int| 0 <= i < self@.on_consume_effects.len() ==> consume_effect_writable(
                #[trigger] self@.on_consume_effects[i],
                registry,
            ),
    {
        let ghost m = self@.on_consume_effects;
        let n = self.on_consume_effects.len();
        let mut k: usize = 0;
        while k < n
            invariant
                n == self.on_consume_effects@.len(),
                m == self@.on_consume_effects,
                k <= n,
                forall|j: int| 0 <= j < k ==> consume_effect_writable(#[trigger] m[j], registry),
            decreases n - k,
        {
            if !self.on_consume_effects[k].is_writable(registry) {
                assert(m[k as int] == self.on_consume_effects@[k as int]@);
                return false;
            }
            k = k + 1;
        }
        true
    }
}

/// Reads a consumable; removed effects are looked up in the registry.
pub fn read_consumable(r: &mut ByteReader, registry: &MobEffectRegistry) -> (res: Result<
    Consumable,
    DecodeError,
>)
    requires
        old(r).wf(),
        registry.wf(),
    ensures
        final(r).wf(),
        final(r).input() == old(r).input(),
        reads_as(res, final(r).rest(), parse_consumable(old(r).rest(), registry)),
{
    let consume_seconds_bits = r.read_u32_be()?;
    let animation = read_animation(r)?;
    let _sound = r.read_varint()?;
    let has_consume_particles = r.read_bool()?;
    let n = r.read_count()?;
    let on_consume_effects = read_consume_effect_list(r, n, registry)?;
    Ok(Consumable { consume_seconds_bits, animation, has_consume_particles, on_consume_effects })
}

/// The NBT form of a consume effect of the consumable component: as for
/// the exported consume effect, with a sound given as its key text.
pub open spec fn consume_effect_nbt(c: NbtCompound, e: ConsumeEffectModel) -> bool {
    let v = c.values@;
    &&& v.len() >= 1 && v[0].0@ == "type"@
    &&& match e {
        ConsumeEffectModel::ApplyEffects(es) => {
            &&& tag_string(v[0].1) == Some(apply_effects_name())
            &&& v.len() == 2 && v[1].0@ == "effects"@
            &&& v[1].1 matches NbtTag::List(l) && instance_list_nbt(l, es)
        },
        ConsumeEffectModel::RemoveEffects(es) => {
            &&& tag_string(v[0].1) == Some(remove_effects_name())
            &&& v.len() == 2 && v[1].0@ == "effects"@
            &&& v[1].1 matches NbtTag::List(l) && key_list_nbt(l, es)
        },
        ConsumeEffectModel::ClearAllEffects => tag_string(v[0].1) == Some(clear_all_effects_name())
            && v.len() == 1,
        ConsumeEffectModel::TeleportRandomly(d) => tag_string(v[0].1) == Some(teleport_randomly_name())
            && v.len() == 2 && v[1].0@ == "diameter"@ && v[1].1 == NbtTag::Float(d),
        ConsumeEffectModel::PlaySound(k) => tag_string(v[0].1) == Some(play_sound_name()) && v.len()
            == 2 && v[1].0@ == "sound_event"@ && tag_string(v[1].1) == Some(identifier_text(k)),
    }
}

/// A consume effect of the consumable component read from NBT; a sound's
/// text becomes a path in the vanilla namespace.
pub open spec fn consume_effect_from_nbt(c: NbtCompound, reg: &MobEffectRegistry) -> Option<ConsumeEffectModel> {
    match entry_string(c, "type"@) {
        None => None,
        Some(t) => if t == apply_effects_name() {
            match effects_entry(c) {
                Some(l) => match instances_of_nbt_list(l, reg) {
                    Some(es) => Some(ConsumeEffectModel::ApplyEffects(es)),
                    None => None,
                },
                None => None,
            }
        } else if t == remove_effects_name() {
            match effects_entry(c) {
                Some(l) => match effects_of_nbt_list(l, reg) {
                    Some(es) => Some(ConsumeEffectModel::RemoveEffects(es)),
                    None => None,
                },
                None => None,
            }
        } else if t == clear_all_effects_name() {
            Some(ConsumeEffectModel::ClearAllEffects)
        } else if t == teleport_randomly_name() {
            match entry_float(c, "diameter"@) {
                Some(d) => Some(ConsumeEffectModel::TeleportRandomly(d)),
                None => None,
            }
        } else if t == play_sound_name() {
            match entry_string(c, "sound_event"@) {
                Some(s) => Some(
                    ConsumeEffectModel::PlaySound(
                        IdentifierModel { namespace: vanilla_namespace(), path: s },
                    ),
                ),
                None => None,
            }
        } else {
            None
        },
    }
}

/// The list under `effects`, when it is a list tag.
fn get_effects_list(c: &NbtCompound) -> (r: Option<&NbtList>)
    ensures
        r is Some <==> effects_entry(*c) is Some,
        r matches Some(l) ==> *l == effects_entry(*c)->Some_0,
{
    match c.get("effects") {
        Some(t) => t.as_list(),
        None => None,
    }
}

impl ConsumeEffect {
    /// The NBT form (see `consume_effect_nbt`).
    pub fn to_nbt_compound(&self) -> (c: NbtCompound)
        ensures
            consume_effect_nbt(c, self@),
    {
        let mut c = NbtCompound::new();
        match self {
            ConsumeEffect::ApplyEffects { effects } => {
                c.insert("type", NbtTag::String(String::from_str("minecraft:apply_effects")));
                c.insert("effects", NbtTag::List(crate::mob_effect::instances_to_nbt_list(effects)));
            },
            ConsumeEffect::RemoveEffects { effects } => {
                c.insert("type", NbtTag::String(String::from_str("minecraft:remove_effects")));
                c.insert("effects", NbtTag::List(keys_to_nbt_list(effects)));
            },
            ConsumeEffect::ClearAllEffects => {
                c.insert("type", NbtTag::String(String::from_str("minecraft:clear_all_effects")));
            },
            ConsumeEffect::TeleportRandomly { diameter_bits } => {
                c.insert("type", NbtTag::String(String::from_str("minecraft:teleport_randomly")));
                c.insert("diameter", NbtTag::Float(*diameter_bits));
            },
            ConsumeEffect::PlaySound { sound_event } => {
                c.insert("type", NbtTag::String(String::from_str("minecraft:play_sound")));
                c.insert("sound_event", NbtTag::String(sound_event.to_string()));
            },
        }
        c
    }

    /// Reads a consume effect from NBT (see `consume_effect_from_nbt`).
    pub fn from_nbt_compound(c: &NbtCompound, registry: &MobEffectRegistry) -> (r: Option<ConsumeEffect>)
        requires
            registry.wf(),
        ensures
            r is Some <==> consume_effect_from_nbt(*c, registry) is Some,
            r matches Some(e) ==> e@ == consume_effect_from_nbt(*c, registry)->Some_0,
    {
        let t = c.get_string("type")?;
        if str_eq(t.as_str(), "minecraft:apply_effects") {
            let l = get_effects_list(c)?;
            let effects = instances_from_nbt_list(l, registry)?;
            Some(ConsumeEffect::ApplyEffects { effects })
        } else if str_eq(t.as_str(), "minecraft:remove_effects") {
            let l = get_effects_list(c)?;
            let effects = effects_from_nbt_list(l, registry)?;
            Some(ConsumeEffect::RemoveEffects { effects })
        } else if str_eq(t.as_str(), "minecraft:clear_all_effects") {
            Some(ConsumeEffect::ClearAllEffects)
        } else if str_eq(t.as_str(), "minecraft:teleport_randomly") {
            let diameter_bits = c.get_float("diameter")?;
            Some(ConsumeEffect::TeleportRandomly { diameter_bits })
        } else if str_eq(t.as_str(), "minecraft:play_sound") {
            let text = c.get_string("sound_event")?.clone();
            Some(ConsumeEffect::PlaySound { sound_event: Identifier::vanilla(text) })
        } else {
            None
        }
    }
}

/// The NBT form of a consumable: `consume_seconds` (float), `animation`
/// (its name), `has_consume_particles` (byte) and `on_consume_effects` (a
/// list of the effects' compounds, empty when there are none).
pub open spec fn consumable_nbt(t: NbtTag, c: ConsumableModel) -> bool {
    &&& t matches NbtTag::Compound(cc)
    &&& cc.values@.len() == 4
    &&& cc.values@[0].0@ == "consume_seconds"@ && cc.values@[0].1 == NbtTag::Float(c.consume_seconds_bits)
    &&& cc.values@[1].0@ == "animation"@ && tag_string(cc.values@[1].1) == Some(animation_name(c.animation))
    &&& cc.values@[2].0@ == "has_consume_particles"@ && cc.values@[2].1 == NbtTag::Byte(
        bool_nbt_byte(c.has_consume_particles),
    )
    &&& cc.values@[3].0@ == "on_consume_effects"@
    &&& cc.values@[3].1 matches NbtTag::List(l)
    &&& if c.on_consume_effects.len() == 0 {
        l == NbtList::Empty
    } else {
        l matches NbtList::Compounds(cs) && cs@.len() == c.on_consume_effects.len() && forall|i: int|
            0 <= i < cs@.len() ==> consume_effect_nbt(#[trigger] cs@[i], c.on_consume_effects[i])
    }
}

/// The consume effects of the compounds that read, in order; those that do
/// not read are left out.
pub open spec fn readable_effects(cs: Seq<NbtCompound>, reg: &MobEffectRegistry) -> Seq<ConsumeEffectModel>
    decreases cs.len(),
{
    if cs.len() == 0 {
        Seq::empty()
    } else {
        let before = readable_effects(cs.drop_last(), reg);
        match consume_effect_from_nbt(cs.last(), reg) {
            Some(e) => before.push(e),
            None => before,
        }
    }
}

/// A consumable read from NBT: `on_consume_effects` must be a list, whose
/// compounds that read give the effects; then a float `consume_seconds`, an
/// `animation` string (an unknown name reads as eating) and a
/// `has_consume_particles` byte (true unless zero).
pub open spec fn consumable_from_nbt(t: NbtTag, reg: &MobEffectRegistry) -> Option<ConsumableModel> {
    match t {
        NbtTag::Compound(cc) => match find_entry(cc.values@, "on_consume_effects"@) {
            Some(NbtTag::List(l)) => {
                let effects = match l {
                    NbtList::Compounds(cs) => readable_effects(cs@, reg),
                    _ => Seq::empty(),
                };
                match (
                    entry_float(cc, "consume_seconds"@),
                    entry_string(cc, "animation"@),
                    entry_byte(cc, "has_consume_particles"@),
                ) {
                    (Some(bits), Some(name), Some(p)) => Some(
                        ConsumableModel {
                            consume_seconds_bits: bits,
                            animation: match animation_from_name(name) {
                                Some(a) => a,
                                None => ItemUseAnimation::Eat,
                            },
                            has_consume_particles: p != 0,
                            on_consume_effects: effects,
                        },
                    ),
                    _ => None,
                }
            },
            _ => None,
        },
        _ => None,
    }
}

impl Consumable {
    /// The NBT form (see `consumable_nbt`).
    pub fn to_nbt_tag(self) -> (t: NbtTag)
        ensures
            consumable_nbt(t, self@),
    {
        let mut c = NbtCompound::new();
        c.insert("consume_seconds", NbtTag::Float(self.consume_seconds_bits));
        c.insert("animation", NbtTag::String(String::from_str(self.animation.as_str())));
        c.insert("has_consume_particles", NbtTag::Byte(if self.has_consume_particles { 1 } else { 0 }));
        let n = self.on_consume_effects.len();
        let list = if n == 0 {
            NbtList::Empty
        } else {
            let mut cs: Vec<NbtCompound> = Vec::new();
            let mut k: usize = 0;
            while k < n
                invariant
                    n == self.on_consume_effects@.len(),
                    k <= n,
                    cs@.len() == k,
                    forall|i: int| 0 <= i < k ==> consume_effect_nbt(#[trigger] cs@[i], self.on_consume_effects@[i]@),
                decreases n - k,
            {
                cs.push(self.on_consume_effects[k].to_nbt_compound());
                k = k + 1;
            }
            NbtList::Compounds(cs)
        };
        c.insert("on_consume_effects", NbtTag::List(list));
        NbtTag::Compound(c)
    }

    /// Reads a consumable from NBT (see `consumable_from_nbt`); removed
    /// effects are looked up in the registry.
    pub fn from_nbt_tag(tag: &NbtTag, registry: &MobEffectRegistry) -> (r: Option<Consumable>)
        requires
            registry.wf(),
        ensures
            r is Some <==> consumable_from_nbt(*tag, registry) is Some,
            r matches Some(c) ==> c@ == consumable_from_nbt(*tag, registry)->Some_0,
    {
        let cc = tag.as_compound()?;
        let l = cc.get("on_consume_effects")?.as_list()?;
        let mut effects: Vec<ConsumeEffect> = Vec::new();
        if let NbtList::Compounds(cs) = l {
            let n = cs.len();
            let mut k: usize = 0;
            while k < n
                invariant
                    n == cs@.len(),
                    k <= n,
                    registry.wf(),
                    effects@.map_values(|e: ConsumeEffect| e@) == readable_effects(cs@.take(k as int), registry),
                decreases n - k,
            {
                proof {
                    assert(cs@.take(k + 1).drop_last() =~= cs@.take(k as int));
                    assert(cs@.take(k + 1).last() == cs@[k as int]);
                }
                let ghost done = effects@.map_values(|e: ConsumeEffect| e@);
                if let Some(e) = ConsumeEffect::from_nbt_compound(&cs[k], registry) {
                    effects.push(e);
                    assert(effects@.map_values(|e: ConsumeEffect| e@) =~= done.push(e@));
                }
                k = k + 1;
            }
            assert(cs@.take(n as int) =~= cs@);
        } else {
            assert(effects@.map_values(|e: ConsumeEffect| e@) =~= Seq::<ConsumeEffectModel>::empty());
        }
        let consume_seconds_bits = cc.get_float("consume_seconds")?;
        let name = cc.get_string("animation")?;
        let animation = match ItemUseAnimation::from_str(name.as_str()) {
            Ok(a) => a,
            Err(_) => ItemUseAnimation::Eat,
        };
        let p = cc.get_byte("has_consume_particles")?;
        Some(
            Consumable {
                consume_seconds_bits,
                animation,
                has_consume_particles: p != 0,
                on_consume_effects: effects,
            },
        )
    }
}


/// Whether a consume effect of the consumable component reads back as
/// written: clearing, teleporting, and applying or removing no effect.
/// (Effects to apply are written with fixed-width numbers but read as
/// VarInts, removed effects are written as registry ids but read as key
/// texts, and a sound's full key text is read back as a vanilla path.)
pub open spec fn effect_wire_stable(e: ConsumeEffectModel) -> bool {
    match e {
        ConsumeEffectModel::ApplyEffects(v) => v.len() == 0,
        ConsumeEffectModel::RemoveEffects(v) => v.len() == 0,
        ConsumeEffectModel::ClearAllEffects => true,
        ConsumeEffectModel::TeleportRandomly(_) => true,
        ConsumeEffectModel::PlaySound(_) => false,
    }
}

/// A written consume effect that clears, teleports, or applies or removes
/// nothing reads back as itself, whatever follows.
pub proof fn lemma_consume_effect_roundtrip(e: ConsumeEffectModel, reg: &MobEffectRegistry, rest: Seq<u8>)
    requires
        effect_wire_stable(e),
    ensures
        parse_consume_effect(consume_effect_bytes(e, reg) + rest, reg) == Ok::<
            (ConsumeEffectModel, Seq<u8>),
            DecodeError,
        >((e, rest)),
{
    reveal(parse_consume_effect);
    reveal(consume_effect_bytes);
    match e {
        ConsumeEffectModel::ApplyEffects(v) => {
            assert(v =~= Seq::<MobEffectInstanceModel>::empty());
            let r1 = varint_encode(0) + rest;
            assert(consume_effect_bytes(e, reg) + rest =~= varint_encode(0) + r1);
            crate::codec::lemma_varint_roundtrip(0, r1);
            crate::codec::lemma_varint_roundtrip(0, rest);
        },
        ConsumeEffectModel::RemoveEffects(v) => {
            assert(v =~= Seq::<LazyMobEffectModel>::empty());
            let r1 = varint_encode(0) + rest;
            assert(consume_effect_bytes(e, reg) + rest =~= varint_encode(1) + r1);
            crate::codec::lemma_varint_roundtrip(1, r1);
            crate::codec::lemma_varint_roundtrip(0, rest);
        },
        ConsumeEffectModel::ClearAllEffects => {
            crate::codec::lemma_varint_roundtrip(2, rest);
        },
        ConsumeEffectModel::TeleportRandomly(d) => {
            let r1 = u32_be_bytes(d) + rest;
            assert(consume_effect_bytes(e, reg) + rest =~= varint_encode(3) + r1);
            crate::codec::lemma_varint_roundtrip(3, r1);
            crate::codec::lemma_u32_be_roundtrip(d, rest);
        },
        ConsumeEffectModel::PlaySound(_) => {},
    }
}

/// The wire forms of a list are those of its first effect followed by
/// those of the others.
proof fn lemma_list_bytes_first(v: Seq<ConsumeEffectModel>, reg: &MobEffectRegistry)
    requires
        v.len() > 0,
    ensures
        consume_effect_list_bytes(v, reg) == consume_effect_bytes(v[0], reg)
            + consume_effect_list_bytes(v.drop_first(), reg),
    decreases v.len(),
{
    if v.len() == 1 {
        assert(v.drop_last() =~= Seq::<ConsumeEffectModel>::empty());
        assert(v.drop_first() =~= Seq::<ConsumeEffectModel>::empty());
        assert(consume_effect_list_bytes(v.drop_last(), reg) =~= Seq::<u8>::empty());
        assert(consume_effect_list_bytes(v.drop_first(), reg) =~= Seq::<u8>::empty());
        assert(v.last() == v[0]);
        assert(consume_effect_list_bytes(v, reg) =~= consume_effect_bytes(v[0], reg));
    } else {
        lemma_list_bytes_first(v.drop_last(), reg);
        assert(v.drop_last().drop_first() =~= v.drop_first().drop_last());
        assert(v.drop_first().last() == v.last());
        assert(consume_effect_list_bytes(v, reg) =~= consume_effect_bytes(v[0], reg)
            + consume_effect_list_bytes(v.drop_first(), reg));
    }
}

/// A written list of consume effects that all read back as written reads
/// back as itself, whatever follows.
pub proof fn lemma_consume_effect_list_roundtrip(v: Seq<ConsumeEffectModel>, reg: &MobEffectRegistry, rest: Seq<u8>)
    requires
        forall|i: int| 0 <= i < v.len() ==> effect_wire_stable(#[trigger] v[i]),
    ensures
        parse_consume_effect_list(consume_effect_list_bytes(v, reg) + rest, v.len(), reg) == Ok::<
            (Seq<ConsumeEffectModel>, Seq<u8>),
            DecodeError,
        >((v, rest)),
    decreases v.len(),
{
    if v.len() == 0 {
        assert(consume_effect_list_bytes(v, reg) + rest =~= rest);
        assert(v =~= Seq::<ConsumeEffectModel>::empty());
    } else {
        let tail = v.drop_first();
        lemma_list_bytes_first(v, reg);
        assert forall|i: int| 0 <= i < tail.len() implies effect_wire_stable(#[trigger] tail[i]) by {
            assert(tail[i] == v[i + 1]);
        }
        let r1 = consume_effect_list_bytes(tail, reg) + rest;
        assert(consume_effect_list_bytes(v, reg) + rest =~= consume_effect_bytes(v[0], reg) + r1);
        lemma_consume_effect_roundtrip(v[0], reg, r1);
        lemma_consume_effect_list_roundtrip(tail, reg, rest);
        assert(seq![v[0]] + tail =~= v);
    }
}

/// A written consumable whose effects all clear, teleport, or apply or
/// remove nothing reads back as itself, whatever follows; the effect count
/// must fit an `i32`.
#[verifier::rlimit(40)]
pub proof fn lemma_consumable_roundtrip(c: ConsumableModel, reg: &MobEffectRegistry, rest: Seq<u8>)
    requires
        c.on_consume_effects.len() <= i32::MAX,
        forall|i: int| 0 <= i < c.on_consume_effects.len() ==> effect_wire_stable(
            #[trigger] c.on_consume_effects[i],
        ),
    ensures
        parse_consumable(consumable_bytes(c, reg) + rest, reg) == Ok::<
            (ConsumableModel, Seq<u8>),
            DecodeError,
        >((c, rest)),
{
    let n = c.on_consume_effects.len();
    let r5 = consume_effect_list_bytes(c.on_consume_effects, reg) + rest;
    let r4 = varint_encode(n as i32) + r5;
    let r3 = seq![bool_byte(c.has_consume_particles)] + r4;
    let r2 = varint_encode(GENERIC_EAT_SOUND_ID) + r3;
    let r1 = varint_encode(crate::item::animation_id(c.animation)) + r2;
    assert(consumable_bytes(c, reg) + rest =~= u32_be_bytes(c.consume_seconds_bits) + r1);
    crate::codec::lemma_u32_be_roundtrip(c.consume_seconds_bits, r1);
    crate::item::lemma_animation_wire_roundtrip(c.animation, r2);
    crate::codec::lemma_varint_roundtrip(GENERIC_EAT_SOUND_ID, r3);
    crate::codec::lemma_bool_roundtrip(c.has_consume_particles, r4);
    crate::codec::lemma_varint_roundtrip(n as i32, r5);
    lemma_consume_effect_list_roundtrip(c.on_consume_effects, reg, rest);
}

/// Whether a consume effect's NBT form reads back as itself: clearing,
/// teleporting, and applying or removing no effect (a sound's full key text
/// reads back as a vanilla path).
pub open spec fn effect_nbt_stable(e: ConsumeEffectModel) -> bool {
    match e {
        ConsumeEffectModel::ApplyEffects(v) => v.len() == 0,
        ConsumeEffectModel::RemoveEffects(v) => v.len() == 0,
        ConsumeEffectModel::ClearAllEffects => true,
        ConsumeEffectModel::TeleportRandomly(_) => true,
        ConsumeEffectModel::PlaySound(_) => false,
    }
}

/// The NBT form of a consume effect that clears, teleports, or applies or
/// removes nothing reads back as that effect.
pub proof fn lemma_consume_effect_nbt_roundtrip(e: ConsumeEffectModel, c: NbtCompound, reg: &MobEffectRegistry)
    requires
        consume_effect_nbt(c, e),
        effect_nbt_stable(e),
    ensures
        consume_effect_from_nbt(c, reg) == Some(e),
{
    crate::components::consume_effect::lemma_type_names_distinct();
    reveal_strlit("type");
    reveal_strlit("effects");
    reveal_strlit("diameter");
    assert("type"@.len() == 4);
    assert("effects"@.len() == 7);
    assert("diameter"@.len() == 8);
    let v = c.values@;
    crate::nbt::lemma_find_entry_at(v, 0);
    if v.len() == 2 {
        crate::nbt::lemma_find_entry_at(v, 1);
    }
    match e {
        ConsumeEffectModel::ApplyEffects(es) => {
            assert(es =~= Seq::<MobEffectInstanceModel>::empty());
        },
        ConsumeEffectModel::RemoveEffects(es) => {
            assert(es =~= Seq::<LazyMobEffectModel>::empty());
        },
        _ => {},
    }
}

/// When every compound reads as the effect at its place, the readable
/// effects are exactly those effects.
proof fn lemma_readable_effects_all(cs: Seq<NbtCompound>, v: Seq<ConsumeEffectModel>, reg: &MobEffectRegistry)
    requires
        cs.len() == v.len(),
        forall|i: int| 0 <= i < cs.len() ==> consume_effect_from_nbt(#[trigger] cs[i], reg) == Some(v[i]),
    ensures
        readable_effects(cs, reg) == v,
    decreases cs.len(),
{
    if cs.len() == 0 {
        assert(v =~= Seq::<ConsumeEffectModel>::empty());
    } else {
        let n = cs.len() - 1;
        assert forall|i: int| 0 <= i < n implies consume_effect_from_nbt(
            #[trigger] cs.drop_last()[i],
            reg,
        ) == Some(v.drop_last()[i]) by {
            assert(cs.drop_last()[i] == cs[i]);
        }
        lemma_readable_effects_all(cs.drop_last(), v.drop_last(), reg);
        assert(consume_effect_from_nbt(cs[n], reg) == Some(v[n]));
        assert(v.drop_last().push(v.last()) =~= v);
    }
}

/// The NBT form of a consumable whose effects all clear, teleport, or apply
/// or remove nothing reads back as that consumable.
pub proof fn lemma_consumable_nbt_roundtrip(c: ConsumableModel, t: NbtTag, reg: &MobEffectRegistry)
    requires
        consumable_nbt(t, c),
        forall|i: int| 0 <= i < c.on_consume_effects.len() ==> effect_nbt_stable(
            #[trigger] c.on_consume_effects[i],
        ),
    ensures
        consumable_from_nbt(t, reg) == Some(c),
{
    reveal_strlit("consume_seconds");
    reveal_strlit("animation");
    reveal_strlit("has_consume_particles");
    reveal_strlit("on_consume_effects");
    assert("consume_seconds"@.len() == 15);
    assert("animation"@.len() == 9);
    assert("has_consume_particles"@.len() == 21);
    assert("on_consume_effects"@.len() == 18);
    let cc = t->Compound_0;
    let v = cc.values@;
    assert(v[0].0@ != v[1].0@);
    assert(v[0].0@[0] != v[2].0@[0]);
    assert(v[1].0@ != v[2].0@);
    assert(v[0].0@ != v[3].0@);
    assert(v[1].0@ != v[3].0@);
    assert(v[2].0@ != v[3].0@);
    crate::nbt::lemma_find_entry_at(v, 0);
    crate::nbt::lemma_find_entry_at(v, 1);
    crate::nbt::lemma_find_entry_at(v, 2);
    crate::nbt::lemma_find_entry_at(v, 3);
    crate::item::lemma_name_roundtrip(c.animation);
    let l = v[3].1->List_0;
    let effects = c.on_consume_effects;
    if effects.len() == 0 {
        assert(effects =~= Seq::<ConsumeEffectModel>::empty());
    } else {
        let cs = l->Compounds_0@;
        assert forall|i: int| 0 <= i < cs.len() implies consume_effect_from_nbt(#[trigger] cs[i], reg)
            == Some(effects[i]) by {
            lemma_consume_effect_nbt_roundtrip(effects[i], cs[i], reg);
        }
        lemma_readable_effects_all(cs, effects, reg);
    }
}

/// The type ids of the wire form: 0 applies effects, 1 removes effects,
/// 2 clears all effects, 3 teleports by the diameter in the next four
/// bytes, and 4 plays the sound whose text follows, taken as a vanilla path; any other id is refused.
pub proof fn lemma_consume_effect_type_ids(d: u32, text: Seq<char>, id: i32, reg: &MobEffectRegistry, rest: Seq<u8>)
    requires
        vstd::utf8::encode_utf8(text).len() <= i32::MAX,
    ensures
        parse_consume_effect(varint_encode(0) + varint_encode(0) + rest, reg) == Ok::<
            (ConsumeEffectModel, Seq<u8>),
            DecodeError,
        >((ConsumeEffectModel::ApplyEffects(Seq::empty()), rest)),
        parse_consume_effect(varint_encode(1) + varint_encode(0) + rest, reg) == Ok::<
            (ConsumeEffectModel, Seq<u8>),
            DecodeError,
        >((ConsumeEffectModel::RemoveEffects(Seq::empty()), rest)),
        parse_consume_effect(varint_encode(2) + rest, reg) == Ok::<
            (ConsumeEffectModel, Seq<u8>),
            DecodeError,
        >((ConsumeEffectModel::ClearAllEffects, rest)),
        parse_consume_effect(varint_encode(3) + u32_be_bytes(d) + rest, reg) == Ok::<
            (ConsumeEffectModel, Seq<u8>),
            DecodeError,
        >((ConsumeEffectModel::TeleportRandomly(d), rest)),
        parse_consume_effect(varint_encode(4) + string_bytes(text) + rest, reg) == Ok::<
            (ConsumeEffectModel, Seq<u8>),
            DecodeError,
        >((ConsumeEffectModel::PlaySound(IdentifierModel { namespace: vanilla_namespace(), path: text }), rest)),
        (id < 0 || id > 4) ==> parse_consume_effect(varint_encode(id) + rest, reg) == Err::<
            (ConsumeEffectModel, Seq<u8>),
            DecodeError,
        >(DecodeError::UnknownConsumeEffect(id)),
{
    reveal(parse_consume_effect);
    let z = varint_encode(0) + rest;
    assert(varint_encode(0) + varint_encode(0) + rest =~= varint_encode(0) + z);
    assert(varint_encode(1) + varint_encode(0) + rest =~= varint_encode(1) + z);
    crate::codec::lemma_varint_roundtrip(0, z);
    crate::codec::lemma_varint_roundtrip(1, z);
    crate::codec::lemma_varint_roundtrip(0, rest);
    assert(parse_instance_list(rest, 0) == Ok::<(Seq<MobEffectInstanceModel>, Seq<u8>), DecodeError>(
        (Seq::empty(), rest),
    ));
    crate::codec::lemma_varint_roundtrip(2, rest);
    let t = u32_be_bytes(d) + rest;
    assert(varint_encode(3) + u32_be_bytes(d) + rest =~= varint_encode(3) + t);
    crate::codec::lemma_varint_roundtrip(3, t);
    crate::codec::lemma_u32_be_roundtrip(d, rest);
    let st = string_bytes(text) + rest;
    assert(varint_encode(4) + string_bytes(text) + rest =~= varint_encode(4) + st);
    crate::codec::lemma_varint_roundtrip(4, st);
    crate::codec::lemma_string_roundtrip(text, rest);
    crate::codec::lemma_varint_roundtrip(id, rest);
}

/// A consume effect read from NBT is chosen by the text under `type`:
/// `minecraft:clear_all_effects` clears all effects,
/// `minecraft:teleport_randomly` teleports by the float under `diameter`,
/// `minecraft:play_sound` plays the sound whose text, taken as a vanilla path, is under `sound_event`; a text that
/// names no kind reads as nothing.
pub proof fn lemma_consume_effect_nbt_type_names(c: NbtCompound, reg: &MobEffectRegistry)
    ensures
        entry_string(c, "type"@) == Some("minecraft:clear_all_effects"@) ==> consume_effect_from_nbt(c, reg)
            == Some(ConsumeEffectModel::ClearAllEffects),
        entry_string(c, "type"@) == Some("minecraft:teleport_randomly"@) ==> consume_effect_from_nbt(
            c,
            reg,
        ) == (match entry_float(c, "diameter"@) {
            Some(d) => Some(ConsumeEffectModel::TeleportRandomly(d)),
            None => None,
        }),
        entry_string(c, "type"@) == Some("minecraft:play_sound"@) ==> consume_effect_from_nbt(c, reg)
            == (match entry_string(c, "sound_event"@) {
            Some(s) => Some(ConsumeEffectModel::PlaySound(IdentifierModel { namespace: vanilla_namespace(), path: s })),
            None => None,
        }),
        (entry_string(c, "type"@) matches Some(t) && t != "minecraft:apply_effects"@ && t
            != "minecraft:remove_effects"@ && t != "minecraft:clear_all_effects"@ && t
            != "minecraft:teleport_randomly"@ && t != "minecraft:play_sound"@) ==> consume_effect_from_nbt(
            c,
            reg,
        ) is None,
{
    crate::components::consume_effect::lemma_type_names_distinct();
}

/// Reading four bytes, an animation id, a sound id, a flag byte and a zero
/// count, in that order, gives a consumable taking those seconds, with that
/// animation and that particle flag and no effects, leaving what follows.
pub proof fn lemma_read_consumable_fields(
    seconds_bits: u32,
    animation: ItemUseAnimation,
    sound: i32,
    particles: bool,
    reg: &MobEffectRegistry,
    rest: Seq<u8>,
)
    ensures
        parse_consumable(
            u32_be_bytes(seconds_bits) + varint_encode(crate::item::animation_id(animation)) + varint_encode(
                sound,
            ) + seq![bool_byte(particles)] + varint_encode(0) + rest,
            reg,
        ) == Ok::<(ConsumableModel, Seq<u8>), DecodeError>(
            (
                ConsumableModel {
                    consume_seconds_bits: seconds_bits,
                    animation,
                    has_consume_particles: particles,
                    on_consume_effects: Seq::empty(),
                },
                rest,
            ),
        ),
{
    let r4 = varint_encode(0) + rest;
    let r3 = seq![bool_byte(particles)] + r4;
    let r2 = varint_encode(sound) + r3;
    let r1 = varint_encode(crate::item::animation_id(animation)) + r2;
    assert(u32_be_bytes(seconds_bits) + varint_encode(crate::item::animation_id(animation))
        + varint_encode(sound) + seq![bool_byte(particles)] + varint_encode(0) + rest =~= u32_be_bytes(
        seconds_bits,
    ) + r1);
    crate::codec::lemma_u32_be_roundtrip(seconds_bits, r1);
    crate::item::lemma_animation_wire_roundtrip(animation, r2);
    crate::codec::lemma_varint_roundtrip(sound, r3);
    crate::codec::lemma_bool_roundtrip(particles, r4);
    crate::codec::lemma_varint_roundtrip(0, rest);
    assert(parse_consume_effect_list(rest, 0, reg) == Ok::<(Seq<ConsumeEffectModel>, Seq<u8>), DecodeError>(
        (Seq::empty(), rest),
    ));
}

/// A consumable read from NBT takes each field from the entry of its own
/// name: the seconds from the float under `consume_seconds`, the animation
/// named by the text under `animation` (eating for an unknown name), and the
/// particle flag set exactly when the byte under `has_consume_particles` is
/// not zero.
pub proof fn lemma_consumable_from_nbt_fields(c: NbtCompound, reg: &MobEffectRegistry)
    ensures
        consumable_from_nbt(NbtTag::Compound(c), reg) matches Some(m) ==> {
            &&& entry_float(c, "consume_seconds"@) == Some(m.consume_seconds_bits)
            &&& entry_string(c, "animation"@) matches Some(n) && m.animation == (match animation_from_name(n) {
                Some(a) => a,
                None => ItemUseAnimation::Eat,
            })
            &&& entry_byte(c, "has_consume_particles"@) matches Some(b) && m.has_consume_particles == (b
                != 0)
        },
{
}

} // verus!

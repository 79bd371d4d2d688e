//! What consuming an item does, with its wire form.
use vstd::prelude::*;
use crate::codec::{
    parse_count, parse_string, parse_u32_be, parse_varint, reads_as, string_bytes,
    u32_be_bytes, varint_encode, write_string, write_u32_be, write_varint, ByteReader,
    DecodeError, Parsed,
};
use crate::identifier::{str_eq, identifier_text, vanilla_namespace, Identifier, IdentifierModel};
use crate::nbt::{entry_float, entry_string, find_entry, tag_string, NbtCompound, NbtList, NbtTag};
use crate::mob_effect::{
    instance_list_nbt, instances_from_nbt_list, instances_of_nbt_list, instances_resolvable, MobEffectRef,
};
use crate::mob_effect::{
    all_resolvable, instance_list_bytes, lazy_key, parse_instance_list, read_instance_list,
    write_instance_list, LazyMobEffect, LazyMobEffectModel, MobEffectInstance,
    MobEffectInstanceModel, MobEffectRegistry,
};

verus! {

/// One effect of consuming an item.
#[derive(Debug)]
pub enum ConsumeEffect {
    /// Applies the effect instances.
    ApplyEffects { effects: Vec<MobEffectInstance> },
    /// Removes the listed effects.
    RemoveEffects { effects: Vec<LazyMobEffect> },
    /// Removes every effect.
    ClearAllEffects,
    /// Teleports within a cube of the given diameter (the bit pattern of an `f32`).
    TeleportRandomly { diameter_bits: u32 },
    /// Plays the named sound.
    PlaySound { sound_event: String },
}

/// A consume effect as the contracts see it.
pub enum ConsumeEffectModel {
    ApplyEffects(Seq<MobEffectInstanceModel>),
    RemoveEffects(Seq<LazyMobEffectModel>),
    ClearAllEffects,
    TeleportRandomly(u32),
    PlaySound(Seq<char>),
}

impl View for ConsumeEffect {
    type V = ConsumeEffectModel;

    open spec fn view(&self) -> ConsumeEffectModel {
        match self {
            ConsumeEffect::ApplyEffects { effects } => ConsumeEffectModel::ApplyEffects(
                effects@.map_values(|e: MobEffectInstance| e@),
            ),
            ConsumeEffect::RemoveEffects { effects } => ConsumeEffectModel::RemoveEffects(
                effects@.map_values(|e: LazyMobEffect| e@),
            ),
            ConsumeEffect::ClearAllEffects => ConsumeEffectModel::ClearAllEffects,
            ConsumeEffect::TeleportRandomly { diameter_bits } => ConsumeEffectModel::TeleportRandomly(
                *diameter_bits,
            ),
            ConsumeEffect::PlaySound { sound_event } => ConsumeEffectModel::PlaySound(sound_event@),
        }
    }
}

/// The key texts of the effects, each length-prefixed, one after another.
pub open spec fn key_texts_bytes(v: Seq<LazyMobEffectModel>) -> Seq<u8>
    decreases v.len(),
{
    if v.len() == 0 {
        Seq::empty()
    } else {
        key_texts_bytes(v.drop_last()) + string_bytes(identifier_text(lazy_key(v.last())))
    }
}

/// The wire form: a VarInt type id (0 to 4) and the payload of the variant.
#[verifier::opaque]
pub open spec fn consume_effect_bytes(e: ConsumeEffectModel) -> Seq<u8> {
    match e {
        ConsumeEffectModel::ApplyEffects(v) => varint_encode(0) + varint_encode(v.len() as i32)
            + instance_list_bytes(v),
        ConsumeEffectModel::RemoveEffects(v) => varint_encode(1) + varint_encode(v.len() as i32)
            + key_texts_bytes(v),
        ConsumeEffectModel::ClearAllEffects => varint_encode(2),
        ConsumeEffectModel::TeleportRandomly(d) => varint_encode(3) + u32_be_bytes(d),
        ConsumeEffectModel::PlaySound(s) => varint_encode(4) + string_bytes(s),
    }
}

/// Whether every effect to apply can be looked up for writing.
pub open spec fn consume_effect_resolvable(e: ConsumeEffectModel, reg: &MobEffectRegistry) -> bool {
    e matches ConsumeEffectModel::ApplyEffects(v) ==> all_resolvable(v, reg)
}

/// `count` effect keys read as texts, each a path in the vanilla namespace
/// that the registry must hold; each becomes the registered effect.
pub open spec fn parse_removed_effects(s: Seq<u8>, count: nat, reg: &MobEffectRegistry) -> Parsed<
    Seq<LazyMobEffectModel>,
>
    decreases count,
{
    if count == 0 {
        Ok((Seq::empty(), s))
    } else {
        match parse_string(s) {
            Err(e) => Err(e),
            Ok((name, r1)) => {
                let k = IdentifierModel { namespace: vanilla_namespace(), path: name };
                if reg.registered(k) {
                    match parse_removed_effects(r1, (count - 1) as nat, reg) {
                        Err(e) => Err(e),
                        Ok((others, r2)) => Ok(
                            (seq![LazyMobEffectModel::Resolved(reg.effect_for(k))] + others, r2),
                        ),
                    }
                } else {
                    Err(DecodeError::UnknownMobEffect)
                }
            },
        }
    }
}

/// Reads `count` effect keys and looks each up in the registry.
pub fn read_removed_effects(r: &mut ByteReader, count: usize, registry: &MobEffectRegistry) -> (res:
    Result<Vec<LazyMobEffect>, DecodeError>)
    requires
        old(r).wf(),
        registry.wf(),
    ensures
        final(r).wf(),
        final(r).input() == old(r).input(),
        match parse_removed_effects(old(r).rest(), count as nat, registry) {
            Ok((v, rest)) => res is Ok && res->Ok_0@.map_values(|e: LazyMobEffect| e@) == v
                && final(r).rest() == rest,
            Err(e) => res == Err::<Vec<LazyMobEffect>, DecodeError>(e),
        },
{
    let ghost s = r.rest();
    let mut out: Vec<LazyMobEffect> = Vec::new();
    let mut k: usize = 0;
    while k < count
        invariant
            r.wf(),
            r.input() == old(r).input(),
            registry.wf(),
            k <= count,
            s == old(r).rest(),
            parse_removed_effects(s, count as nat, registry) == match parse_removed_effects(
                r.rest(),
                (count - k) as nat,
                registry,
            ) {
                Err(e) => Err(e),
                Ok((others, r2)) => Ok((out@.map_values(|e: LazyMobEffect| e@) + others, r2)),
            },
        decreases count - k,
    {
        let ghost before = r.rest();
        let ghost done = out@.map_values(|e: LazyMobEffect| e@);
        let name = match r.read_string() {
            Ok(name) => name,
            Err(e) => {
                return Err(e);
            },
        };
        let key = Identifier::vanilla(name);
        let effect = match registry.find(&key) {
            Some(effect) => effect,
            None => {
                return Err(DecodeError::UnknownMobEffect);
            },
        };
        out.push(LazyMobEffect::Resolved(effect));
        proof {
            assert(out@.map_values(|e: LazyMobEffect| e@) =~= done.push(
                LazyMobEffectModel::Resolved(effect@),
            ));
            let tail = parse_removed_effects(r.rest(), (count - k - 1) as nat, registry);
            match tail {
                Ok((others, r2)) => {
                    assert(done + (seq![LazyMobEffectModel::Resolved(effect@)] + others)
                        =~= done.push(LazyMobEffectModel::Resolved(effect@)) + others);
                },
                Err(_) => {},
            }
        }
        k = k + 1;
    }
    proof {
        assert(out@.map_values(|e: LazyMobEffect| e@) + Seq::<LazyMobEffectModel>::empty()
            =~= out@.map_values(|e: LazyMobEffect| e@));
    }
    Ok(out)
}

/// Appends the key text of each effect, length-prefixed.
pub fn write_key_texts(out: &mut Vec<u8>, v: &Vec<LazyMobEffect>)
    ensures
        final(out)@ == old(out)@ + key_texts_bytes(v@.map_values(|e: LazyMobEffect| e@)),
{
    let n = v.len();
    let mut k: usize = 0;
    while k < n
        invariant
            n == v@.len(),
            k <= n,
            out@ == old(out)@ + key_texts_bytes(v@.map_values(|e: LazyMobEffect| e@).take(k as int)),
        decreases n - k,
    {
        let text = v[k].key().to_string();
        write_string(out, text.as_str());
        proof {
            let m = v@.map_values(|e: LazyMobEffect| e@);
            assert(m.take(k + 1).drop_last() =~= m.take(k as int));
            assert(m.take(k + 1).last() == v@[k as int]@);
        }
        k = k + 1;
    }
    proof {
        let m = v@.map_values(|e: LazyMobEffect| e@);
        assert(m.take(n as int) =~= m);
    }
}

impl ConsumeEffect {
    /// Whether every effect to apply can be looked up for writing.
    pub fn is_resolvable(&self, registry: &MobEffectRegistry) -> (b: bool)
        ensures
            b == consume_effect_resolvable(self@, registry),
    {
        match self {
            ConsumeEffect::ApplyEffects { effects } => instances_resolvable(effects, registry),
            _ => true,
        }
    }
}

/// A consume effect read from the wire. Removed effects are looked up in
/// the registry; a sound is any UTF-8 text.
#[verifier::opaque]
pub open spec fn parse_consume_effect(s: Seq<u8>, reg: &MobEffectRegistry) -> Parsed<ConsumeEffectModel> {
    match parse_varint(s) {
        Err(e) => Err(e),
        Ok((t, r1)) => if t == 0 {
            match parse_count(r1) {
                Err(e) => Err(e),
                Ok((n, r2)) => match parse_instance_list(r2, n) {
                    Err(e) => Err(e),
                    Ok((v, r3)) => Ok((ConsumeEffectModel::ApplyEffects(v), r3)),
                },
            }
        } else if t == 1 {
            match parse_count(r1) {
                Err(e) => Err(e),
                Ok((n, r2)) => match parse_removed_effects(r2, n, reg) {
                    Err(e) => Err(e),
                    Ok((v, r3)) => Ok((ConsumeEffectModel::RemoveEffects(v), r3)),
                },
            }
        } else if t == 2 {
            Ok((ConsumeEffectModel::ClearAllEffects, r1))
        } else if t == 3 {
            match parse_u32_be(r1) {
                Err(e) => Err(e),
                Ok((d, r2)) => Ok((ConsumeEffectModel::TeleportRandomly(d), r2)),
            }
        } else if t == 4 {
            match parse_string(r1) {
                Err(e) => Err(e),
                Ok((text, r2)) => Ok((ConsumeEffectModel::PlaySound(text), r2)),
            }
        } else {
            Err(DecodeError::UnknownConsumeEffect(t))
        },
    }
}

impl ConsumeEffect {
    /// Appends the wire form; effects to apply that are named only by key
    /// must be registered.
    pub fn write(&self, out: &mut Vec<u8>, registry: &MobEffectRegistry)
        requires
            registry.wf(),
            consume_effect_resolvable(self@, registry),
        ensures
            final(out)@ == old(out)@ + consume_effect_bytes(self@),
    {
        reveal(consume_effect_bytes);
        match self {
            ConsumeEffect::ApplyEffects { effects } => {
                write_varint(out, 0);
                write_varint(out, effects.len() as i32);
                write_instance_list(out, effects, registry);
            },
            ConsumeEffect::RemoveEffects { effects } => {
                write_varint(out, 1);
                write_varint(out, effects.len() as i32);
                write_key_texts(out, effects);
            },
            ConsumeEffect::ClearAllEffects => {
                write_varint(out, 2);
            },
            ConsumeEffect::TeleportRandomly { diameter_bits } => {
                write_varint(out, 3);
                write_u32_be(out, *diameter_bits);
            },
            ConsumeEffect::PlaySound { sound_event } => {
                write_varint(out, 4);
                write_string(out, sound_event.as_str());
            },
        }
        assert(out@ =~= old(out)@ + consume_effect_bytes(self@));
    }
}

/// Reads a consume effect; removed effects are looked up in the registry.
pub fn read_consume_effect(r: &mut ByteReader, registry: &MobEffectRegistry) -> (res: Result<
    ConsumeEffect,
    DecodeError,
>)
    requires
        old(r).wf(),
        registry.wf(),
    ensures
        final(r).wf(),
        final(r).input() == old(r).input(),
        reads_as(res, final(r).rest(), parse_consume_effect(old(r).rest(), registry)),
{
    reveal(parse_consume_effect);
    let t = r.read_varint()?;
    if t == 0 {
        let n = r.read_count()?;
        let effects = read_instance_list(r, n)?;
        Ok(ConsumeEffect::ApplyEffects { effects })
    } else if t == 1 {
        let n = r.read_count()?;
        let effects = read_removed_effects(r, n, registry)?;
        Ok(ConsumeEffect::RemoveEffects { effects })
    } else if t == 2 {
        Ok(ConsumeEffect::ClearAllEffects)
    } else if t == 3 {
        let diameter_bits = r.read_u32_be()?;
        Ok(ConsumeEffect::TeleportRandomly { diameter_bits })
    } else if t == 4 {
        let sound_event = r.read_string()?;
        Ok(ConsumeEffect::PlaySound { sound_event })
    } else {
        Err(DecodeError::UnknownConsumeEffect(t))
    }
}

/// The type name of each kind of consume effect in NBT.
pub open spec fn apply_effects_name() -> Seq<char> {
    "minecraft:apply_effects"@
}

/// The type name of removing effects.
pub open spec fn remove_effects_name() -> Seq<char> {
    "minecraft:remove_effects"@
}

/// The type name of clearing all effects.
pub open spec fn clear_all_effects_name() -> Seq<char> {
    "minecraft:clear_all_effects"@
}

/// The type name of random teleports.
pub open spec fn teleport_randomly_name() -> Seq<char> {
    "minecraft:teleport_randomly"@
}

/// The type name of playing a sound.
pub open spec fn play_sound_name() -> Seq<char> {
    "minecraft:play_sound"@
}

/// The NBT list of the effects' key texts: empty, or their strings in order.
pub open spec fn key_list_nbt(l: NbtList, v: Seq<LazyMobEffectModel>) -> bool {
    if v.len() == 0 {
        l == NbtList::Empty
    } else {
        l matches NbtList::Strings(ss) && ss@.len() == v.len() && forall|i: int|
            0 <= i < v.len() ==> (#[trigger] ss@[i])@ == identifier_text(lazy_key(v[i]))
    }
}

/// The NBT list of the effects' key texts.
pub fn keys_to_nbt_list(v: &Vec<LazyMobEffect>) -> (l: NbtList)
    ensures
        key_list_nbt(l, v@.map_values(|e: LazyMobEffect| e@)),
{
    let n = v.len();
    if n == 0 {
        return NbtList::Empty;
    }
    let mut ss: Vec<String> = Vec::new();
    let mut k: usize = 0;
    while k < n
        invariant
            n == v@.len(),
            k <= n,
            ss@.len() == k,
            forall|i: int| 0 <= i < k ==> (#[trigger] ss@[i])@ == identifier_text(lazy_key(v@[i]@)),
        decreases n - k,
    {
        ss.push(v[k].key().to_string());
        k = k + 1;
    }
    assert forall|i: int| 0 <= i < n implies (#[trigger] ss@[i])@ == identifier_text(
        lazy_key(v@.map_values(|e: LazyMobEffect| e@)[i]),
    ) by {
        assert(v@.map_values(|e: LazyMobEffect| e@)[i] == v@[i]@);
    }
    NbtList::Strings(ss)
}

/// The effects named by key texts, as vanilla paths, each looked up in the
/// registry; every one must be registered.
pub open spec fn effects_from_texts(ts: Seq<Seq<char>>, reg: &MobEffectRegistry) -> Option<
    Seq<LazyMobEffectModel>,
>
    decreases ts.len(),
{
    if ts.len() == 0 {
        Some(Seq::empty())
    } else {
        let k = IdentifierModel { namespace: vanilla_namespace(), path: ts.last() };
        match effects_from_texts(ts.drop_last(), reg) {
            Some(v) => if reg.registered(k) {
                Some(v.push(LazyMobEffectModel::Resolved(reg.effect_for(k))))
            } else {
                None
            },
            None => None,
        }
    }
}

/// The effects an NBT list names: those of its strings; a list of anything
/// but strings names none.
pub open spec fn effects_of_nbt_list(l: NbtList, reg: &MobEffectRegistry) -> Option<Seq<LazyMobEffectModel>> {
    match l {
        NbtList::Strings(ss) => effects_from_texts(ss@.map_values(|s: String| s@), reg),
        _ => Some(Seq::empty()),
    }
}

/// Once a prefix of the texts fails to name registered effects, so does every longer one.
proof fn lemma_effects_from_texts_prefix_fails(ts: Seq<Seq<char>>, k: int, reg: &MobEffectRegistry)
    requires
        0 <= k <= ts.len(),
        effects_from_texts(ts.take(k), reg) is None,
    ensures
        effects_from_texts(ts, reg) is None,
    decreases ts.len() - k,
{
    if k < ts.len() {
        assert(ts.take(k + 1).drop_last() =~= ts.take(k));
        lemma_effects_from_texts_prefix_fails(ts, k + 1, reg);
    } else {
        assert(ts.take(k) =~= ts);
    }
}

/// Reads the effects an NBT list names (see `effects_of_nbt_list`).
pub fn effects_from_nbt_list(l: &NbtList, registry: &MobEffectRegistry) -> (r: Option<Vec<LazyMobEffect>>)
    requires
        registry.wf(),
    ensures
        r is Some <==> effects_of_nbt_list(*l, registry) is Some,
        r matches Some(v) ==> v@.map_values(|e: LazyMobEffect| e@) == effects_of_nbt_list(*l, registry)->Some_0,
{
    let mut out: Vec<LazyMobEffect> = Vec::new();
    if let NbtList::Strings(ss) = l {
        let ghost ts = ss@.map_values(|s: String| s@);
        let n = ss.len();
        let mut k: usize = 0;
        while k < n
            invariant
                n == ss@.len(),
                k <= n,
                registry.wf(),
                *l == NbtList::Strings(*ss),
                ts == ss@.map_values(|s: String| s@),
                effects_from_texts(ts.take(k as int), registry) == Some(
                    out@.map_values(|e: LazyMobEffect| e@),
                ),
            decreases n - k,
        {
            proof {
                assert(ts.take(k + 1).drop_last() =~= ts.take(k as int));
                assert(ts.take(k + 1).last() == ss@[k as int]@);
            }
            let key = Identifier::vanilla(ss[k].clone());
            let effect: MobEffectRef = match registry.find(&key) {
                Some(e) => e,
                None => {
                    proof {
                        lemma_effects_from_texts_prefix_fails(ts, (k + 1) as int, registry);
                        assert(ts.take(n as int) =~= ts);
                    }
                    return None;
                },
            };
            let ghost done = out@.map_values(|e: LazyMobEffect| e@);
            out.push(LazyMobEffect::Resolved(effect));
            assert(out@.map_values(|e: LazyMobEffect| e@) =~= done.push(LazyMobEffectModel::Resolved(effect@)));
            k = k + 1;
        }
        assert(ts.take(n as int) =~= ts);
    } else {
        assert(out@.map_values(|e: LazyMobEffect| e@) =~= Seq::<LazyMobEffectModel>::empty());
    }
    Some(out)
}

/// The NBT form: a `type` string, then `effects` (a list), `diameter`
/// (float) or `sound_event` (string) as the kind requires.
pub open spec fn consume_effect_nbt(c: NbtCompound, e: ConsumeEffectModel) -> bool {
    let v = c.values@;
    &&& v.len() >= 1 && v[0].0@ == "type"@
    &&& match e {
        ConsumeEffectModel::ApplyEffects(es) => {
            &&& tag_string(v[0].1) == Some(apply_effects_name())
            &&& v.len() == 2 && v[1].0@ == "effects"@
            &&& v[1].1 matches NbtTag::List(l) && instance_list_nbt(l, es)
        },
        ConsumeEffectModel::RemoveEffects(es) => {
            &&& tag_string(v[0].1) == Some(remove_effects_name())
            &&& v.len() == 2 && v[1].0@ == "effects"@
            &&& v[1].1 matches NbtTag::List(l) && key_list_nbt(l, es)
        },
        ConsumeEffectModel::ClearAllEffects => tag_string(v[0].1) == Some(clear_all_effects_name())
            && v.len() == 1,
        ConsumeEffectModel::TeleportRandomly(d) => tag_string(v[0].1) == Some(teleport_randomly_name())
            && v.len() == 2 && v[1].0@ == "diameter"@ && v[1].1 == NbtTag::Float(d),
        ConsumeEffectModel::PlaySound(t) => tag_string(v[0].1) == Some(play_sound_name()) && v.len()
            == 2 && v[1].0@ == "sound_event"@ && tag_string(v[1].1) == Some(t),
    }
}

/// The list under `effects`, when it is a list tag.
pub open spec fn effects_entry(c: NbtCompound) -> Option<NbtList> {
    match find_entry(c.values@, "effects"@) {
        Some(NbtTag::List(l)) => Some(l),
        _ => None,
    }
}

/// A consume effect read from NBT: the `type` string picks the kind, whose
/// field must be there; removed effects are looked up in the registry.
pub open spec fn consume_effect_from_nbt(c: NbtCompound, reg: &MobEffectRegistry) -> Option<ConsumeEffectModel> {
    match entry_string(c, "type"@) {
        None => None,
        Some(t) => if t == apply_effects_name() {
            match effects_entry(c) {
                Some(l) => match instances_of_nbt_list(l, reg) {
                    Some(es) => Some(ConsumeEffectModel::ApplyEffects(es)),
                    None => None,
                },
                None => None,
            }
        } else if t == remove_effects_name() {
            match effects_entry(c) {
                Some(l) => match effects_of_nbt_list(l, reg) {
                    Some(es) => Some(ConsumeEffectModel::RemoveEffects(es)),
                    None => None,
                },
                None => None,
            }
        } else if t == clear_all_effects_name() {
            Some(ConsumeEffectModel::ClearAllEffects)
        } else if t == teleport_randomly_name() {
            match entry_float(c, "diameter"@) {
                Some(d) => Some(ConsumeEffectModel::TeleportRandomly(d)),
                None => None,
            }
        } else if t == play_sound_name() {
            match entry_string(c, "sound_event"@) {
                Some(s) => Some(ConsumeEffectModel::PlaySound(s)),
                None => None,
            }
        } else {
            None
        },
    }
}

/// The list under `effects`, when it is a list tag.
fn get_effects_list(c: &NbtCompound) -> (r: Option<&NbtList>)
    ensures
        r is Some <==> effects_entry(*c) is Some,
        r matches Some(l) ==> *l == effects_entry(*c)->Some_0,
{
    match c.get("effects") {
        Some(t) => t.as_list(),
        None => None,
    }
}

impl ConsumeEffect {
    /// The NBT form (see `consume_effect_nbt`).
    pub fn to_nbt_compound(&self) -> (c: NbtCompound)
        ensures
            consume_effect_nbt(c, self@),
    {
        let mut c = NbtCompound::new();
        match self {
            ConsumeEffect::ApplyEffects { effects } => {
                c.insert("type", NbtTag::String(String::from_str("minecraft:apply_effects")));
                c.insert("effects", NbtTag::List(crate::mob_effect::instances_to_nbt_list(effects)));
            },
            ConsumeEffect::RemoveEffects { effects } => {
                c.insert("type", NbtTag::String(String::from_str("minecraft:remove_effects")));
                c.insert("effects", NbtTag::List(keys_to_nbt_list(effects)));
            },
            ConsumeEffect::ClearAllEffects => {
                c.insert("type", NbtTag::String(String::from_str("minecraft:clear_all_effects")));
            },
            ConsumeEffect::TeleportRandomly { diameter_bits } => {
                c.insert("type", NbtTag::String(String::from_str("minecraft:teleport_randomly")));
                c.insert("diameter", NbtTag::Float(*diameter_bits));
            },
            ConsumeEffect::PlaySound { sound_event } => {
                c.insert("type", NbtTag::String(String::from_str("minecraft:play_sound")));
                c.insert("sound_event", NbtTag::String(sound_event.clone()));
            },
        }
        c
    }

    /// Reads a consume effect from NBT (see `consume_effect_from_nbt`).
    pub fn from_nbt_compound(c: &NbtCompound, registry: &MobEffectRegistry) -> (r: Option<ConsumeEffect>)
        requires
            registry.wf(),
        ensures
            r is Some <==> consume_effect_from_nbt(*c, registry) is Some,
            r matches Some(e) ==> e@ == consume_effect_from_nbt(*c, registry)->Some_0,
    {
        let t = c.get_string("type")?;
        if str_eq(t.as_str(), "minecraft:apply_effects") {
            let l = get_effects_list(c)?;
            let effects = instances_from_nbt_list(l, registry)?;
            Some(ConsumeEffect::ApplyEffects { effects })
        } else if str_eq(t.as_str(), "minecraft:remove_effects") {
            let l = get_effects_list(c)?;
            let effects = effects_from_nbt_list(l, registry)?;
            Some(ConsumeEffect::RemoveEffects { effects })
        } else if str_eq(t.as_str(), "minecraft:clear_all_effects") {
            Some(ConsumeEffect::ClearAllEffects)
        } else if str_eq(t.as_str(), "minecraft:teleport_randomly") {
            let diameter_bits = c.get_float("diameter")?;
            Some(ConsumeEffect::TeleportRandomly { diameter_bits })
        } else if str_eq(t.as_str(), "minecraft:play_sound") {
            let sound_event = c.get_string("sound_event")?.clone();
            Some(ConsumeEffect::PlaySound { sound_event })
        } else {
            None
        }
    }
}

/// Whether a consume effect reads back as written: clearing, teleporting,
/// playing a sound whose text fits an `i32` length, and applying or
/// removing no effect. (Effects to apply are written with fixed-width
/// numbers but read as VarInts, and removed effects are written as key
/// texts but read back as vanilla paths of those texts, so no other effect
/// reads back.)
pub open spec fn wire_stable(e: ConsumeEffectModel) -> bool {
    match e {
        ConsumeEffectModel::ApplyEffects(v) => v.len() == 0,
        ConsumeEffectModel::RemoveEffects(v) => v.len() == 0,
        ConsumeEffectModel::ClearAllEffects => true,
        ConsumeEffectModel::TeleportRandomly(_) => true,
        ConsumeEffectModel::PlaySound(t) => vstd::utf8::encode_utf8(t).len() <= i32::MAX,
    }
}

/// A written consume effect that reads back as written (see `wire_stable`)
/// does so whatever follows.
pub proof fn lemma_consume_effect_wire_roundtrip(e: ConsumeEffectModel, reg: &MobEffectRegistry, rest: Seq<u8>)
    requires
        wire_stable(e),
    ensures
        parse_consume_effect(consume_effect_bytes(e) + rest, reg) == Ok::<
            (ConsumeEffectModel, Seq<u8>),
            DecodeError,
        >((e, rest)),
{
    reveal(parse_consume_effect);
    reveal(consume_effect_bytes);
    match e {
        ConsumeEffectModel::ApplyEffects(v) => {
            assert(v =~= Seq::<MobEffectInstanceModel>::empty());
            let r1 = varint_encode(0) + rest;
            assert(consume_effect_bytes(e) + rest =~= varint_encode(0) + r1);
            crate::codec::lemma_varint_roundtrip(0, r1);
            crate::codec::lemma_varint_roundtrip(0, rest);
        },
        ConsumeEffectModel::RemoveEffects(v) => {
            assert(v =~= Seq::<LazyMobEffectModel>::empty());
            let r1 = varint_encode(0) + rest;
            assert(consume_effect_bytes(e) + rest =~= varint_encode(1) + r1);
            crate::codec::lemma_varint_roundtrip(1, r1);
            crate::codec::lemma_varint_roundtrip(0, rest);
        },
        ConsumeEffectModel::ClearAllEffects => {
            crate::codec::lemma_varint_roundtrip(2, rest);
        },
        ConsumeEffectModel::TeleportRandomly(d) => {
            let r1 = u32_be_bytes(d) + rest;
            assert(consume_effect_bytes(e) + rest =~= varint_encode(3) + r1);
            crate::codec::lemma_varint_roundtrip(3, r1);
            crate::codec::lemma_u32_be_roundtrip(d, rest);
        },
        ConsumeEffectModel::PlaySound(t) => {
            let r1 = string_bytes(t) + rest;
            assert(consume_effect_bytes(e) + rest =~= varint_encode(4) + r1);
            crate::codec::lemma_varint_roundtrip(4, r1);
            crate::codec::lemma_string_roundtrip(t, rest);
        },
    }
}

/// The type names of the kinds of consume effect are all different.
pub proof fn lemma_type_names_distinct()
    ensures
        apply_effects_name() != remove_effects_name(),
        apply_effects_name() != clear_all_effects_name(),
        apply_effects_name() != teleport_randomly_name(),
        apply_effects_name() != play_sound_name(),
        remove_effects_name() != clear_all_effects_name(),
        remove_effects_name() != teleport_randomly_name(),
        remove_effects_name() != play_sound_name(),
        clear_all_effects_name() != teleport_randomly_name(),
        clear_all_effects_name() != play_sound_name(),
        teleport_randomly_name() != play_sound_name(),
{
    reveal_strlit("minecraft:apply_effects");
    reveal_strlit("minecraft:remove_effects");
    reveal_strlit("minecraft:clear_all_effects");
    reveal_strlit("minecraft:teleport_randomly");
    reveal_strlit("minecraft:play_sound");
    assert(apply_effects_name().len() == 23);
    assert(remove_effects_name().len() == 24);
    assert(clear_all_effects_name().len() == 27);
    assert(teleport_randomly_name().len() == 27);
    assert(play_sound_name().len() == 20);
    assert(clear_all_effects_name()[10] != teleport_randomly_name()[10]);
}

/// Whether a consume effect's NBT form reads back as itself: clearing,
/// teleporting, playing a sound, and applying or removing no effect.
pub open spec fn nbt_stable(e: ConsumeEffectModel) -> bool {
    match e {
        ConsumeEffectModel::ApplyEffects(v) => v.len() == 0,
        ConsumeEffectModel::RemoveEffects(v) => v.len() == 0,
        _ => true,
    }
}

/// The NBT form of a consume effect that clears, teleports, plays a sound,
/// or applies or removes nothing reads back as that effect.
pub proof fn lemma_consume_effect_nbt_roundtrip(e: ConsumeEffectModel, c: NbtCompound, reg: &MobEffectRegistry)
    requires
        consume_effect_nbt(c, e),
        nbt_stable(e),
    ensures
        consume_effect_from_nbt(c, reg) == Some(e),
{
    lemma_type_names_distinct();
    reveal_strlit("type");
    reveal_strlit("effects");
    reveal_strlit("diameter");
    reveal_strlit("sound_event");
    assert("type"@.len() == 4);
    assert("effects"@.len() == 7);
    assert("diameter"@.len() == 8);
    assert("sound_event"@.len() == 11);
    let v = c.values@;
    crate::nbt::lemma_find_entry_at(v, 0);
    if v.len() == 2 {
        crate::nbt::lemma_find_entry_at(v, 1);
    }
    match e {
        ConsumeEffectModel::ApplyEffects(es) => {
            assert(es =~= Seq::<MobEffectInstanceModel>::empty());
        },
        ConsumeEffectModel::RemoveEffects(es) => {
            assert(es =~= Seq::<LazyMobEffectModel>::empty());
        },
        _ => {},
    }
}

/// The type ids of the wire form: 0 applies effects, 1 removes effects,
/// 2 clears all effects, 3 teleports by the diameter in the next four
/// bytes, and 4 plays the sound whose text follows; any other id is refused.
pub proof fn lemma_consume_effect_type_ids(d: u32, text: Seq<char>, id: i32, reg: &MobEffectRegistry, rest: Seq<u8>)
    requires
        vstd::utf8::encode_utf8(text).len() <= i32::MAX,
    ensures
        parse_consume_effect(varint_encode(0) + varint_encode(0) + rest, reg) == Ok::<
            (ConsumeEffectModel, Seq<u8>),
            DecodeError,
        >((ConsumeEffectModel::ApplyEffects(Seq::empty()), rest)),
        parse_consume_effect(varint_encode(1) + varint_encode(0) + rest, reg) == Ok::<
            (ConsumeEffectModel, Seq<u8>),
            DecodeError,
        >((ConsumeEffectModel::RemoveEffects(Seq::empty()), rest)),
        parse_consume_effect(varint_encode(2) + rest, reg) == Ok::<
            (ConsumeEffectModel, Seq<u8>),
            DecodeError,
        >((ConsumeEffectModel::ClearAllEffects, rest)),
        parse_consume_effect(varint_encode(3) + u32_be_bytes(d) + rest, reg) == Ok::<
            (ConsumeEffectModel, Seq<u8>),
            DecodeError,
        >((ConsumeEffectModel::TeleportRandomly(d), rest)),
        parse_consume_effect(varint_encode(4) + string_bytes(text) + rest, reg) == Ok::<
            (ConsumeEffectModel, Seq<u8>),
            DecodeError,
        >((ConsumeEffectModel::PlaySound(text), rest)),
        (id < 0 || id > 4) ==> parse_consume_effect(varint_encode(id) + rest, reg) == Err::<
            (ConsumeEffectModel, Seq<u8>),
            DecodeError,
        >(DecodeError::UnknownConsumeEffect(id)),
{
    reveal(parse_consume_effect);
    let z = varint_encode(0) + rest;
    assert(varint_encode(0) + varint_encode(0) + rest =~= varint_encode(0) + z);
    assert(varint_encode(1) + varint_encode(0) + rest =~= varint_encode(1) + z);
    crate::codec::lemma_varint_roundtrip(0, z);
    crate::codec::lemma_varint_roundtrip(1, z);
    crate::codec::lemma_varint_roundtrip(0, rest);
    assert(parse_instance_list(rest, 0) == Ok::<(Seq<MobEffectInstanceModel>, Seq<u8>), DecodeError>(
        (Seq::empty(), rest),
    ));
    crate::codec::lemma_varint_roundtrip(2, rest);
    let t = u32_be_bytes(d) + rest;
    assert(varint_encode(3) + u32_be_bytes(d) + rest =~= varint_encode(3) + t);
    crate::codec::lemma_varint_roundtrip(3, t);
    crate::codec::lemma_u32_be_roundtrip(d, rest);
    let st = string_bytes(text) + rest;
    assert(varint_encode(4) + string_bytes(text) + rest =~= varint_encode(4) + st);
    crate::codec::lemma_varint_roundtrip(4, st);
    crate::codec::lemma_string_roundtrip(text, rest);
    crate::codec::lemma_varint_roundtrip(id, rest);
}

/// A consume effect read from NBT is chosen by the text under `type`:
/// `minecraft:clear_all_effects` clears all effects,
/// `minecraft:teleport_randomly` teleports by the float under `diameter`,
/// `minecraft:play_sound` plays the sound under `sound_event`; a text that
/// names no kind reads as nothing.
pub proof fn lemma_consume_effect_nbt_type_names(c: NbtCompound, reg: &MobEffectRegistry)
    ensures
        entry_string(c, "type"@) == Some("minecraft:clear_all_effects"@) ==> consume_effect_from_nbt(c, reg)
            == Some(ConsumeEffectModel::ClearAllEffects),
        entry_string(c, "type"@) == Some("minecraft:teleport_randomly"@) ==> consume_effect_from_nbt(
            c,
            reg,
        ) == (match entry_float(c, "diameter"@) {
            Some(d) => Some(ConsumeEffectModel::TeleportRandomly(d)),
            None => None,
        }),
        entry_string(c, "type"@) == Some("minecraft:play_sound"@) ==> consume_effect_from_nbt(c, reg)
            == (match entry_string(c, "sound_event"@) {
            Some(s) => Some(ConsumeEffectModel::PlaySound(s)),
            None => None,
        }),
        (entry_string(c, "type"@) matches Some(t) && t != "minecraft:apply_effects"@ && t
            != "minecraft:remove_effects"@ && t != "minecraft:clear_all_effects"@ && t
            != "minecraft:teleport_randomly"@ && t != "minecraft:play_sound"@) ==> consume_effect_from_nbt(
            c,
            reg,
        ) is None,
{
    crate::components::consume_effect::lemma_type_names_distinct();
}

} // verus!

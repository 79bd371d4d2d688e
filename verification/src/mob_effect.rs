//! Mob effects, their registry, and effect instances with their wire codec.
use vstd::prelude::*;
use crate::codec::{
    bool_byte, i32_be_bytes, lemma_string_shrinks, lemma_varint_shrinks, parse_bool,
    parse_string, parse_varint, reads_as, string_bytes, varint_encode, write_bool, write_i32_be,
    write_string,
    ByteReader, DecodeError, Parsed,
};
use crate::identifier::{
    identifier_eq, identifier_text, vanilla_namespace, Identifier, IdentifierModel,
};
use crate::nbt::{
    entry_byte, entry_int, entry_string, find_entry, lemma_find_entry_member, tag_int, tag_string,
    bool_nbt_byte, NbtCompound, NbtList, NbtTag,
};
use crate::key_index::{key_index, key_index_get, key_index_insert, key_index_new, KeyIndex};

verus! {

/// Whether an effect helps, harms, or neither.
#[derive(Debug, Clone, Copy, PartialEq, Eq, Hash, Structural)]
pub enum MobEffectCategory {
    Beneficial,
    Harmful,
    Neutral,
}

/// A kind of effect, such as speed or poison.
#[derive(Debug, PartialEq, Eq, Hash)]
pub struct MobEffect {
    pub key: Identifier,
    pub category: MobEffectCategory,
    pub color: i32,
}

/// A mob effect as the contracts see it.
pub struct MobEffectModel {
    pub key: IdentifierModel,
    pub category: MobEffectCategory,
    pub color: i32,
}

impl View for MobEffect {
    type V = MobEffectModel;

    open spec fn view(&self) -> MobEffectModel {
        MobEffectModel { key: self.key@, category: self.category, color: self.color }
    }
}

impl MobEffect {
    /// Appends the effect's key as its text.
    pub fn write(&self, out: &mut Vec<u8>)
        ensures
            final(out)@ == old(out)@ + string_bytes(identifier_text(self.key@)),
    {
        self.key.write(out);
    }
}

/// Two mob effects with the same key, category and color.
pub fn mob_effect_eq(a: &MobEffect, b: &MobEffect) -> (r: bool)
    ensures
        r == (a@ == b@),
{
    let same_category = match (a.category, b.category) {
        (MobEffectCategory::Beneficial, MobEffectCategory::Beneficial) => true,
        (MobEffectCategory::Harmful, MobEffectCategory::Harmful) => true,
        (MobEffectCategory::Neutral, MobEffectCategory::Neutral) => true,
        _ => false,
    };
    identifier_eq(&a.key, &b.key) && same_category && a.color == b.color
}

/// A registered mob effect, shared for the whole run.
pub type MobEffectRef = &'static MobEffect;

/// All mob effects, by numeric id (their registration order) and by key.
pub struct MobEffectRegistry {
    effects_by_id: Vec<MobEffectRef>,
    effects_by_key: KeyIndex,
    allows_registering: bool,
}

impl MobEffectRegistry {
    /// The effects in id order.
    pub closed spec fn effects(&self) -> Seq<MobEffectModel> {
        self.effects_by_id@.map_values(|e: MobEffectRef| e@)
    }

    /// The id under which each key is found.
    pub closed spec fn keys(&self) -> Map<IdentifierModel, usize> {
        key_index(self.effects_by_key)
    }

    /// Whether new effects may still be registered.
    pub closed spec fn accepts_registration(&self) -> bool {
        self.allows_registering
    }

    /// Each key leads to an effect with that key, and to the last one
    /// registered under it.
    pub open spec fn wf(&self) -> bool {
        &&& forall|k: IdentifierModel| #[trigger]
            self.keys().dom().contains(k) ==> self.keys()[k] < self.effects().len()
                && self.effects()[self.keys()[k] as int].key == k
        &&& forall|i: int|
            0 <= i < self.effects().len() ==> self.keys().dom().contains(
                #[trigger] self.effects()[i].key,
            ) && i <= self.keys()[self.effects()[i].key]
    }

    /// Whether an effect is registered under `k`.
    pub open spec fn registered(&self, k: IdentifierModel) -> bool {
        self.keys().dom().contains(k)
    }

    /// The effect registered last under `k`.
    pub open spec fn effect_for(&self, k: IdentifierModel) -> MobEffectModel {
        self.effects()[self.keys()[k] as int]
    }

    /// An empty registry that accepts registrations.
    pub fn new() -> (r: Self)
        ensures
            r.wf(),
            r.effects() == Seq::<MobEffectModel>::empty(),
            r.keys() == Map::<IdentifierModel, usize>::empty(),
            r.accepts_registration(),
    {
        let r = MobEffectRegistry {
            effects_by_id: Vec::new(),
            effects_by_key: key_index_new(),
            allows_registering: true,
        };
        assert(r.effects() =~= Seq::<MobEffectModel>::empty());
        r
    }

    /// Adds an effect under the next id; its key now leads to it.
    pub fn register(&mut self, effect: MobEffectRef)
        requires
            old(self).wf(),
            old(self).accepts_registration(),
            old(self).effects().len() < usize::MAX,
        ensures
            final(self).wf(),
            final(self).accepts_registration(),
            final(self).effects() == old(self).effects().push(effect@),
            final(self).keys() == old(self).keys().insert(effect.key@, old(self).effects().len() as usize),
    {
        let idx = self.effects_by_id.len();
        proof {
            assert(self.effects().len() == idx);
        }
        key_index_insert(&mut self.effects_by_key, effect.key.clone(), idx);
        self.effects_by_id.push(effect);
        proof {
            assert(self.effects() =~= old(self).effects().push(effect@));
            let k0 = effect.key@;
            assert forall|k: IdentifierModel| #[trigger]
                self.keys().dom().contains(k) implies self.keys()[k] < self.effects().len()
                && self.effects()[self.keys()[k] as int].key == k by {
                if k != k0 {
                    assert(old(self).keys().dom().contains(k));
                }
            }
            assert forall|i: int| 0 <= i < self.effects().len() implies self.keys().dom().contains(
                #[trigger] self.effects()[i].key,
            ) && i <= self.keys()[self.effects()[i].key] by {
                if i < idx {
                    assert(self.effects()[i] == old(self).effects()[i]);
                    assert(old(self).keys().dom().contains(old(self).effects()[i].key));
                }
            }
        }
    }

    /// Whether new entries may still be registered.
    pub fn allows_registering(&self) -> (b: bool)
        ensures
            b == self.accepts_registration(),
    {
        self.allows_registering
    }

    /// Stops registration: afterwards the registry accepts no new effects,
    /// and what it holds stays as it was.
    pub fn freeze(&mut self)
        ensures
            !final(self).accepts_registration(),
            final(self).effects() == old(self).effects(),
            final(self).keys() == old(self).keys(),
    {
        self.allows_registering = false;
    }

    /// Every effect with its id, in id order.
    pub fn iter(&self) -> (v: Vec<(usize, MobEffectRef)>)
        ensures
            v@.len() == self.effects().len(),
            forall|i: int| 0 <= i < v@.len() ==> v@[i].0 == i && (#[trigger] v@[i]).1@ == self.effects()[i],
    {
        let mut v: Vec<(usize, MobEffectRef)> = Vec::new();
        let n = self.effects_by_id.len();
        let mut i: usize = 0;
        while i < n
            invariant
                n == self.effects_by_id@.len(),
                n == self.effects().len(),
                i <= n,
                v@.len() == i,
                forall|j: int| 0 <= j < i ==> v@[j].0 == j && (#[trigger] v@[j]).1@ == self.effects()[j],
            decreases n - i,
        {
            v.push((i, self.effects_by_id[i]));
            i = i + 1;
        }
        v
    }

    /// The effect registered under `identifier`; the key must be registered.
    pub fn effect_by_key(&self, identifier: &Identifier) -> (e: MobEffectRef)
        requires
            self.wf(),
            self.registered(identifier@),
        ensures
            e@ == self.effect_for(identifier@),
            e.key@ == identifier@,
    {
        let idx = *key_index_get(&self.effects_by_key, identifier).unwrap();
        self.effects_by_id[idx]
    }

    /// The id under which `identifier` is registered; the key must be registered.
    pub fn effect_id_by_key(&self, identifier: &Identifier) -> (id: &usize)
        requires
            self.registered(identifier@),
        ensures
            *id == self.keys()[identifier@],
    {
        key_index_get(&self.effects_by_key, identifier).unwrap()
    }

    /// Whether an effect is registered under `identifier`.
    pub fn has_key(&self, identifier: &Identifier) -> (b: bool)
        ensures
            b == self.registered(identifier@),
    {
        key_index_get(&self.effects_by_key, identifier).is_some()
    }

    /// The effect registered under `identifier`, if any.
    pub fn find(&self, identifier: &Identifier) -> (e: Option<MobEffectRef>)
        requires
            self.wf(),
        ensures
            e is Some <==> self.registered(identifier@),
            e matches Some(e) ==> e@ == self.effect_for(identifier@),
    {
        match key_index_get(&self.effects_by_key, identifier) {
            Some(idx) => Some(self.effects_by_id[*idx]),
            None => None,
        }
    }
}

impl Default for MobEffectRegistry {
    fn default() -> (r: Self)
        ensures
            r.wf(),
            r.effects() == Seq::<MobEffectModel>::empty(),
            r.accepts_registration(),
    {
        Self::new()
    }
}

/// In a well-formed registry the id found under a key is the last id whose
/// effect has that key.
pub proof fn lemma_key_leads_to_latest(reg: &MobEffectRegistry, k: IdentifierModel, j: int)
    requires
        reg.wf(),
        reg.registered(k),
        reg.keys()[k] < j < reg.effects().len(),
    ensures
        reg.effects()[j].key != k,
{
    if reg.effects()[j].key == k {
        assert(reg.keys().dom().contains(reg.effects()[j].key));
    }
}

/// What `register` leaves at each step of a run of registrations: the
/// entry pushed, its key inserted under the index it was given.
pub open spec fn registration_steps(steps: Seq<MobEffectRegistry>, es: Seq<MobEffectModel>) -> bool {
    &&& steps.len() == es.len() + 1
    &&& forall|k: int|
        0 <= k < es.len() ==> (#[trigger] steps[k + 1]).effects() == steps[k].effects().push(es[k])
            && steps[k + 1].keys() == steps[k].keys().insert(
            es[k].key,
            steps[k].effects().len() as usize,
        )
}

/// Whether no two of the entries share a key.
pub open spec fn distinct_keys(es: Seq<MobEffectModel>) -> bool {
    forall|i: int, j: int| 0 <= i < j < es.len() ==> (#[trigger] es[i]).key != (#[trigger] es[j]).key
}

/// After `k` registrations into an empty registry, it holds the first `k`
/// entries, and each of their keys leads to its own index.
proof fn lemma_registration_prefix(steps: Seq<MobEffectRegistry>, es: Seq<MobEffectModel>, k: int)
    requires
        registration_steps(steps, es),
        steps[0].effects() == Seq::<MobEffectModel>::empty(),
        steps[0].keys() == Map::<IdentifierModel, usize>::empty(),
        distinct_keys(es),
        es.len() < usize::MAX,
        0 <= k <= es.len(),
    ensures
        steps[k].effects() == es.take(k),
        forall|i: int| 0 <= i < k ==> steps[k].keys().dom().contains(#[trigger] es[i].key)
            && steps[k].keys()[es[i].key] == i,
        forall|key: IdentifierModel| #[trigger] steps[k].keys().dom().contains(key) ==> exists|i: int|
            0 <= i < k && es[i].key == key,
    decreases k,
{
    if k == 0 {
        assert(es.take(0) =~= Seq::<MobEffectModel>::empty());
    } else {
        lemma_registration_prefix(steps, es, k - 1);
        let prev = steps[k - 1];
        let cur = steps[k];
        assert(cur == steps[(k - 1) + 1]);
        assert(es.take(k - 1).push(es[k - 1]) =~= es.take(k));
        assert(prev.effects().len() == k - 1);
        assert(cur.keys() == prev.keys().insert(es[k - 1].key, (k - 1) as usize));
        assert forall|i: int| 0 <= i < k implies cur.keys().dom().contains(#[trigger] es[i].key)
            && cur.keys()[es[i].key] == i by {
            if i < k - 1 {
                assert(es[i].key != es[k - 1].key);
                assert(prev.keys().dom().contains(es[i].key) && prev.keys()[es[i].key] == i);
            }
        }
        assert forall|key: IdentifierModel| #[trigger] cur.keys().dom().contains(key) implies exists|i: int|
            0 <= i < k && es[i].key == key by {
            if key != es[k - 1].key {
                assert(prev.keys().dom().contains(key));
                let i = choose|i: int| 0 <= i < k - 1 && es[i].key == key;
                assert(0 <= i < k && es[i].key == key);
            } else {
                assert(es[k - 1].key == key);
            }
        }
    }
}

/// Registering effects with distinct keys one after another into a new
/// registry leaves them in registration order, each under its index, each
/// key leading to its own entry, and no other key registered. (As
/// `register` asks, there are fewer than `usize::MAX` of them.)
pub proof fn lemma_registration_sequence(steps: Seq<MobEffectRegistry>, es: Seq<MobEffectModel>)
    requires
        registration_steps(steps, es),
        steps[0].effects() == Seq::<MobEffectModel>::empty(),
        steps[0].keys() == Map::<IdentifierModel, usize>::empty(),
        distinct_keys(es),
        es.len() < usize::MAX,
    ensures
        steps.last().effects() == es,
        forall|i: int| 0 <= i < es.len() ==> steps.last().registered(#[trigger] es[i].key)
            && steps.last().keys()[es[i].key] == i && steps.last().effect_for(es[i].key) == es[i],
        forall|key: IdentifierModel| steps.last().registered(key) ==> exists|i: int|
            0 <= i < es.len() && #[trigger] es[i].key == key,
{
    let n = es.len() as int;
    lemma_registration_prefix(steps, es, n);
    assert(es.take(n) =~= es);
    assert(steps.last() == steps[n]);
    assert forall|key: IdentifierModel| steps.last().registered(key) implies exists|i: int|
        0 <= i < es.len() && #[trigger] es[i].key == key by {
        assert(steps[n].keys().dom().contains(key));
    }
}

/// Registering an effect makes its key find it, under the id it was given,
/// and leaves the other keys as they were.
pub proof fn lemma_register_then_lookup(
    before: &MobEffectRegistry,
    after: &MobEffectRegistry,
    effect: MobEffectModel,
    k: IdentifierModel,
)
    requires
        before.wf(),
        after.wf(),
        after.effects() == before.effects().push(effect),
        after.keys() == before.keys().insert(effect.key, before.effects().len() as usize),
        before.effects().len() < usize::MAX,
    ensures
        after.registered(effect.key),
        after.keys()[effect.key] == before.effects().len(),
        after.effect_for(effect.key) == effect,
        k != effect.key ==> (after.registered(k) == before.registered(k)),
        k != effect.key && before.registered(k) ==> after.effect_for(k) == before.effect_for(k),
{
    if k != effect.key && before.registered(k) {
        assert(before.keys()[k] < before.effects().len());
    }
}

/// A mob effect named by its key, or already looked up.
#[derive(Debug)]
pub enum LazyMobEffect {
    Raw(Identifier),
    Resolved(MobEffectRef),
}

/// A lazily named effect as the contracts see it.
pub enum LazyMobEffectModel {
    Raw(IdentifierModel),
    Resolved(MobEffectModel),
}

impl View for LazyMobEffect {
    type V = LazyMobEffectModel;

    open spec fn view(&self) -> LazyMobEffectModel {
        match self {
            LazyMobEffect::Raw(k) => LazyMobEffectModel::Raw(k@),
            LazyMobEffect::Resolved(e) => LazyMobEffectModel::Resolved(e@),
        }
    }
}

/// The key a lazily named effect stands for.
pub open spec fn lazy_key(e: LazyMobEffectModel) -> IdentifierModel {
    match e {
        LazyMobEffectModel::Raw(k) => k,
        LazyMobEffectModel::Resolved(m) => m.key,
    }
}

/// Two resolved effects are equal when the effects are; otherwise the keys decide.
pub open spec fn lazy_eq(a: LazyMobEffectModel, b: LazyMobEffectModel) -> bool {
    match (a, b) {
        (LazyMobEffectModel::Resolved(x), LazyMobEffectModel::Resolved(y)) => x == y,
        _ => lazy_key(a) == lazy_key(b),
    }
}

/// Whether the effect can be looked up: it is resolved, or its key is registered.
pub open spec fn lazy_resolvable(e: LazyMobEffectModel, reg: &MobEffectRegistry) -> bool {
    e matches LazyMobEffectModel::Raw(k) ==> reg.registered(k)
}

impl Clone for LazyMobEffect {
    fn clone(&self) -> (r: Self)
        ensures
            r@ == self@,
    {
        match self {
            LazyMobEffect::Raw(k) => LazyMobEffect::Raw(k.clone()),
            LazyMobEffect::Resolved(e) => LazyMobEffect::Resolved(*e),
        }
    }
}

impl PartialEq for LazyMobEffect {
    fn eq(&self, other: &Self) -> (r: bool) {
        match (self, other) {
            (LazyMobEffect::Resolved(a), LazyMobEffect::Resolved(b)) => mob_effect_eq(a, b),
            (a, b) => identifier_eq(a.key(), b.key()),
        }
    }
}

impl vstd::std_specs::cmp::PartialEqSpecImpl for LazyMobEffect {
    open spec fn obeys_eq_spec() -> bool {
        true
    }

    open spec fn eq_spec(&self, other: &Self) -> bool {
        lazy_eq(self@, other@)
    }
}

impl LazyMobEffect {
    /// The key of the effect.
    pub fn key(&self) -> (k: &Identifier)
        ensures
            k@ == lazy_key(self@),
    {
        match self {
            LazyMobEffect::Raw(key) => key,
            LazyMobEffect::Resolved(effect) => &effect.key,
        }
    }

    /// Whether the effect can be looked up: it is already resolved, or its
    /// key is registered.
    pub fn is_resolvable(&self, registry: &MobEffectRegistry) -> (b: bool)
        ensures
            b == lazy_resolvable(self@, registry),
    {
        match self {
            LazyMobEffect::Resolved(_) => true,
            LazyMobEffect::Raw(key) => registry.has_key(key),
        }
    }

    /// The effect itself, looked up in the registry when only its key is known.
    pub fn resolve(&self, registry: &MobEffectRegistry) -> (e: MobEffectRef)
        requires
            registry.wf(),
            lazy_resolvable(self@, registry),
        ensures
            e.key@ == lazy_key(self@),
            self@ matches LazyMobEffectModel::Resolved(m) ==> e@ == m,
            self@ matches LazyMobEffectModel::Raw(k) ==> e@ == registry.effect_for(k),
    {
        match self {
            LazyMobEffect::Resolved(effect) => effect,
            LazyMobEffect::Raw(key) => registry.effect_by_key(key),
        }
    }
}

/// Equality of lazily named effects is reflexive and symmetric.
pub proof fn lemma_lazy_eq_reflexive_symmetric(a: LazyMobEffectModel, b: LazyMobEffectModel)
    ensures
        lazy_eq(a, a),
        lazy_eq(a, b) == lazy_eq(b, a),
{
}

/// Whether `b` is named only by key between two looked-up effects `a` and
/// `c`: the one case where equality does not carry over, as two different
/// effects may share a key.
pub open spec fn raw_between_resolved(a: LazyMobEffectModel, b: LazyMobEffectModel, c: LazyMobEffectModel) -> bool {
    a is Resolved && b is Raw && c is Resolved
}

/// Equality of lazily named effects carries over from `a` to `c` through
/// `b`, unless `b` is named only by key between two looked-up effects.
pub proof fn lemma_lazy_eq_transitive(a: LazyMobEffectModel, b: LazyMobEffectModel, c: LazyMobEffectModel)
    requires
        lazy_eq(a, b),
        lazy_eq(b, c),
        !raw_between_resolved(a, b, c),
    ensures
        lazy_eq(a, c),
{
}

/// An effect applied to an entity: which effect, how strong, for how long,
/// and how it shows.
#[derive(Debug)]
pub struct MobEffectInstance {
    effect: LazyMobEffect,
    amplifier: i32,
    duration: Option<i32>,
    pub ambient: bool,
    pub visible: bool,
    pub show_icon: bool,
    pub hidden_effect: Option<Box<MobEffectInstance>>,
}

/// An effect instance as the contracts see it.
pub struct MobEffectInstanceModel {
    pub effect: LazyMobEffectModel,
    pub amplifier: i32,
    pub duration: Option<i32>,
    pub ambient: bool,
    pub visible: bool,
    pub show_icon: bool,
    pub hidden_effect: Option<Box<MobEffectInstanceModel>>,
}

/// The model of an instance, with the model of its hidden effect.
pub closed spec fn instance_model(i: &MobEffectInstance) -> MobEffectInstanceModel
    decreases i,
{
    MobEffectInstanceModel {
        effect: i.effect@,
        amplifier: i.amplifier,
        duration: i.duration,
        ambient: i.ambient,
        visible: i.visible,
        show_icon: i.show_icon,
        hidden_effect: match &i.hidden_effect {
            Some(h) => Some(Box::new(instance_model(&**h))),
            None => None,
        },
    }
}

impl View for MobEffectInstance {
    type V = MobEffectInstanceModel;

    open spec fn view(&self) -> MobEffectInstanceModel {
        instance_model(self)
    }
}

/// Whether every effect in the instance, its hidden effects included, can be looked up.
pub open spec fn instance_resolvable(m: MobEffectInstanceModel, reg: &MobEffectRegistry) -> bool
    decreases m,
{
    &&& lazy_resolvable(m.effect, reg)
    &&& match m.hidden_effect {
        Some(h) => instance_resolvable(*h, reg),
        None => true,
    }
}

/// The wire form of an instance: the effect key as text, the amplifier and
/// the duration (-1 for none) as four big-endian bytes each, three flag
/// bytes, then a presence byte and the hidden effect.
#[verifier::opaque]
pub open spec fn instance_bytes(m: MobEffectInstanceModel) -> Seq<u8>
    decreases m,
{
    string_bytes(identifier_text(lazy_key(m.effect))) + i32_be_bytes(m.amplifier) + i32_be_bytes(
        match m.duration {
            Some(d) => d,
            None => -1i32,
        },
    ) + seq![bool_byte(m.ambient), bool_byte(m.visible), bool_byte(m.show_icon)] + match m.hidden_effect {
        Some(h) => seq![1u8] + instance_bytes(*h),
        None => seq![0u8],
    }
}

/// An instance as read from the wire: the key text as a path in the
/// vanilla namespace, the amplifier and the duration as VarInts (-1 for
/// none), three flag bytes, a presence byte and the hidden effect.
#[verifier::opaque]
pub open spec fn parse_mob_effect_instance(s: Seq<u8>) -> Parsed<MobEffectInstanceModel>
    decreases s.len(),
{
    match parse_string(s) {
        Err(e) => Err(e),
        Ok((name, r1)) => match parse_varint(r1) {
            Err(e) => Err(e),
            Ok((amplifier, r2)) => match parse_varint(r2) {
                Err(e) => Err(e),
                Ok((d, r3)) => match parse_bool(r3) {
                    Err(e) => Err(e),
                    Ok((ambient, r4)) => match parse_bool(r4) {
                        Err(e) => Err(e),
                        Ok((visible, r5)) => match parse_bool(r5) {
                            Err(e) => Err(e),
                            Ok((show_icon, r6)) => match parse_bool(r6) {
                                Err(e) => Err(e),
                                Ok((has_hidden, r7)) => {
                                    let base = MobEffectInstanceModel {
                                        effect: LazyMobEffectModel::Raw(
                                            IdentifierModel { namespace: vanilla_namespace(), path: name },
                                        ),
                                        amplifier,
                                        duration: if d == -1 {
                                            None
                                        } else {
                                            Some(d)
                                        },
                                        ambient,
                                        visible,
                                        show_icon,
                                        hidden_effect: None,
                                    };
                                    if has_hidden {
                                        proof {
                                            lemma_string_shrinks(s);
                                            lemma_varint_shrinks(r1);
                                            lemma_varint_shrinks(r2);
                                        }
                                        match parse_mob_effect_instance(r7) {
                                            Err(e) => Err(e),
                                            Ok((h, r8)) => Ok(
                                                (
                                                    MobEffectInstanceModel {
                                                        hidden_effect: Some(Box::new(h)),
                                                        ..base
                                                    },
                                                    r8,
                                                ),
                                            ),
                                        }
                                    } else {
                                        Ok((base, r7))
                                    }
                                },
                            },
                        },
                    },
                },
            },
        },
    }
}

impl Clone for MobEffectInstance {
    fn clone(&self) -> (r: Self)
        ensures
            r@ == self@,
        decreases self,
    {
        let hidden_effect = match &self.hidden_effect {
            Some(h) => {
                let c: MobEffectInstance = (&**h).clone();
                Some(Box::new(c))
            },
            None => None,
        };
        MobEffectInstance {
            effect: self.effect.clone(),
            amplifier: self.amplifier,
            duration: self.duration,
            ambient: self.ambient,
            visible: self.visible,
            show_icon: self.show_icon,
            hidden_effect,
        }
    }
}

impl MobEffectInstance {
    /// An instance of infinite duration, ambient, visible, with its icon
    /// shown and no hidden effect.
    pub fn new(effect: LazyMobEffect, amplifier: i32) -> (r: Self)
        ensures
            r@ == (MobEffectInstanceModel {
                effect: effect@,
                amplifier,
                duration: None,
                ambient: true,
                visible: true,
                show_icon: true,
                hidden_effect: None,
            }),
    {
        MobEffectInstance {
            effect,
            amplifier,
            duration: None,
            ambient: true,
            visible: true,
            show_icon: true,
            hidden_effect: None,
        }
    }

    /// The same instance with the given duration.
    pub fn with_duration(self, duration: Option<i32>) -> (r: Self)
        ensures
            r@ == (MobEffectInstanceModel { duration, ..self@ }),
    {
        let mut s = self;
        s.duration = duration;
        s
    }

    /// The same instance with the given ambient flag.
    pub fn with_ambient(self, ambient: bool) -> (r: Self)
        ensures
            r@ == (MobEffectInstanceModel { ambient, ..self@ }),
    {
        let mut s = self;
        s.ambient = ambient;
        s
    }

    /// The same instance with the given visibility.
    pub fn with_visible(self, visible: bool) -> (r: Self)
        ensures
            r@ == (MobEffectInstanceModel { visible, ..self@ }),
    {
        let mut s = self;
        s.visible = visible;
        s
    }

    /// The same instance with the given icon flag.
    pub fn with_show_icon(self, show_icon: bool) -> (r: Self)
        ensures
            r@ == (MobEffectInstanceModel { show_icon, ..self@ }),
    {
        let mut s = self;
        s.show_icon = show_icon;
        s
    }

    /// The same instance with the given hidden effect.
    pub fn with_hidden_effect(self, hidden_effect: Option<Box<MobEffectInstance>>) -> (r: Self)
        ensures
            r@ == (MobEffectInstanceModel {
                hidden_effect: match hidden_effect {
                    Some(h) => Some(Box::new(h@)),
                    None => None,
                },
                ..self@
            }),
    {
        let mut s = self;
        s.hidden_effect = hidden_effect;
        s
    }

    /// Whether the effect, and that of every hidden effect, can be looked up.
    pub fn is_resolvable(&self, registry: &MobEffectRegistry) -> (b: bool)
        ensures
            b == instance_resolvable(self@, registry),
        decreases self,
    {
        if !self.effect.is_resolvable(registry) {
            return false;
        }
        match &self.hidden_effect {
            Some(h) => (&**h).is_resolvable(registry),
            None => true,
        }
    }

    /// Whether the instance lasts zero ticks.
    pub fn is_instantaneous(&self) -> (b: bool)
        ensures
            b == (self@.duration == Some(0i32)),
    {
        if let Some(duration) = self.duration {
            duration == 0
        } else {
            false
        }
    }

    /// Whether the instance has no duration.
    pub fn is_infinite_duration(&self) -> (b: bool)
        ensures
            b == (self@.duration is None),
    {
        self.duration.is_none()
    }

    /// The effect itself, looked up in the registry when only its key is known.
    pub fn effect(&self, registry: &MobEffectRegistry) -> (e: MobEffectRef)
        requires
            registry.wf(),
            lazy_resolvable(self@.effect, registry),
        ensures
            e.key@ == lazy_key(self@.effect),
            self@.effect matches LazyMobEffectModel::Resolved(m) ==> e@ == m,
            self@.effect matches LazyMobEffectModel::Raw(k) ==> e@ == registry.effect_for(k),
    {
        self.effect.resolve(registry)
    }

    /// The key of the effect.
    pub fn key(&self) -> (k: &Identifier)
        ensures
            k@ == lazy_key(self@.effect),
    {
        self.effect.key()
    }

    /// The amplifier.
    pub fn amplifier(&self) -> (a: i32)
        ensures
            a == self@.amplifier,
    {
        self.amplifier
    }

    /// The duration, if any.
    pub fn duration(&self) -> (d: Option<i32>)
        ensures
            d == self@.duration,
    {
        self.duration
    }

    /// Appends the wire form; every effect named only by key must be registered.
    pub fn write(&self, out: &mut Vec<u8>, registry: &MobEffectRegistry)
        requires
            registry.wf(),
            instance_resolvable(self@, registry),
        ensures
            final(out)@ == old(out)@ + instance_bytes(self@),
        decreases self,
    {
        reveal(instance_bytes);
        let effect = self.effect(registry);
        let text = effect.key.to_string();
        write_string(out, text.as_str());
        write_i32_be(out, self.amplifier);
        if let Some(duration) = self.duration {
            write_i32_be(out, duration);
        } else {
            write_i32_be(out, -1);
        }
        write_bool(out, self.ambient);
        write_bool(out, self.visible);
        write_bool(out, self.show_icon);
        let ghost mid = out@;
        assert(mid =~= old(out)@ + string_bytes(identifier_text(lazy_key(self@.effect)))
            + i32_be_bytes(self@.amplifier) + i32_be_bytes(
            match self@.duration {
                Some(d) => d,
                None => -1i32,
            },
        ) + seq![bool_byte(self@.ambient), bool_byte(self@.visible), bool_byte(self@.show_icon)]);
        if let Some(effect) = &self.hidden_effect {
            write_bool(out, true);
            (&**effect).write(out, registry);
        } else {
            write_bool(out, false);
        }
        assert(out@ =~= old(out)@ + instance_bytes(self@));
    }
}

/// Instance equality: the effects compare as lazily named effects, every
/// other field by value, hidden effects alike.
pub open spec fn instance_eq(a: MobEffectInstanceModel, b: MobEffectInstanceModel) -> bool
    decreases a,
{
    &&& lazy_eq(a.effect, b.effect)
    &&& a.amplifier == b.amplifier
    &&& a.duration == b.duration
    &&& a.ambient == b.ambient
    &&& a.visible == b.visible
    &&& a.show_icon == b.show_icon
    &&& match (a.hidden_effect, b.hidden_effect) {
        (Some(x), Some(y)) => instance_eq(*x, *y),
        (None, None) => true,
        _ => false,
    }
}

/// Compares two instances as `instance_eq` does.
pub fn instances_equal(a: &MobEffectInstance, b: &MobEffectInstance) -> (r: bool)
    ensures
        r == instance_eq(a@, b@),
    decreases a,
{
    let same_hidden = match (&a.hidden_effect, &b.hidden_effect) {
        (Some(x), Some(y)) => instances_equal(&**x, &**y),
        (None, None) => true,
        _ => false,
    };
    a.effect == b.effect && a.amplifier == b.amplifier && a.duration == b.duration && a.ambient
        == b.ambient && a.visible == b.visible && a.show_icon == b.show_icon && same_hidden
}

impl PartialEq for MobEffectInstance {
    fn eq(&self, other: &Self) -> (r: bool) {
        instances_equal(self, other)
    }
}

impl vstd::std_specs::cmp::PartialEqSpecImpl for MobEffectInstance {
    open spec fn obeys_eq_spec() -> bool {
        true
    }

    open spec fn eq_spec(&self, other: &Self) -> bool {
        instance_eq(self@, other@)
    }
}

/// Instance equality is reflexive and symmetric.
pub proof fn lemma_instance_eq_reflexive_symmetric(a: MobEffectInstanceModel, b: MobEffectInstanceModel)
    ensures
        instance_eq(a, a),
        instance_eq(a, b) == instance_eq(b, a),
    decreases a,
{
    match (a.hidden_effect, b.hidden_effect) {
        (Some(x), Some(y)) => lemma_instance_eq_reflexive_symmetric(*x, *y),
        (Some(x), None) => lemma_instance_eq_reflexive_symmetric(*x, *x),
        _ => {},
    }
}

/// Whether, at some depth of hidden effects, the effect of `b` is named
/// only by key between two looked-up effects of `a` and `c`.
pub open spec fn instances_raw_between_resolved(
    a: MobEffectInstanceModel,
    b: MobEffectInstanceModel,
    c: MobEffectInstanceModel,
) -> bool
    decreases a,
{
    ||| raw_between_resolved(a.effect, b.effect, c.effect)
    ||| match (a.hidden_effect, b.hidden_effect, c.hidden_effect) {
        (Some(x), Some(y), Some(z)) => instances_raw_between_resolved(*x, *y, *z),
        _ => false,
    }
}

/// Instance equality carries over from `a` to `c` through `b`, unless at
/// some depth the effect of `b` is named only by key between two looked-up
/// effects.
pub proof fn lemma_instance_eq_transitive(
    a: MobEffectInstanceModel,
    b: MobEffectInstanceModel,
    c: MobEffectInstanceModel,
)
    requires
        instance_eq(a, b),
        instance_eq(b, c),
        !instances_raw_between_resolved(a, b, c),
    ensures
        instance_eq(a, c),
    decreases a,
{
    lemma_lazy_eq_transitive(a.effect, b.effect, c.effect);
    match (a.hidden_effect, b.hidden_effect, c.hidden_effect) {
        (Some(x), Some(y), Some(z)) => lemma_instance_eq_transitive(*x, *y, *z),
        _ => {},
    }
}

/// Element-wise instance equality of two lists.
pub open spec fn instance_lists_eq(a: Seq<MobEffectInstanceModel>, b: Seq<MobEffectInstanceModel>) -> bool {
    a.len() == b.len() && forall|i: int| 0 <= i < a.len() ==> instance_eq(#[trigger] a[i], b[i])
}

/// Compares two lists of instances element by element.
pub fn instance_vecs_equal(a: &Vec<MobEffectInstance>, b: &Vec<MobEffectInstance>) -> (r: bool)
    ensures
        r == instance_lists_eq(
            a@.map_values(|e: MobEffectInstance| e@),
            b@.map_values(|e: MobEffectInstance| e@),
        ),
{
    let ghost ma = a@.map_values(|e: MobEffectInstance| e@);
    let ghost mb = b@.map_values(|e: MobEffectInstance| e@);
    if a.len() != b.len() {
        return false;
    }
    let n = a.len();
    let mut k: usize = 0;
    while k < n
        invariant
            n == a@.len(),
            n == b@.len(),
            ma == a@.map_values(|e: MobEffectInstance| e@),
            mb == b@.map_values(|e: MobEffectInstance| e@),
            k <= n,
            forall|i: int| 0 <= i < k ==> instance_eq(#[trigger] ma[i], mb[i]),
        decreases n - k,
    {
        if !instances_equal(&a[k], &b[k]) {
            assert(!instance_eq(ma[k as int], mb[k as int]));
            return false;
        }
        k = k + 1;
    }
    true
}

/// The NBT form of an instance: `effect` (the key text), `amplifier`,
/// `duration` when there is one, the three flags as bytes, and the hidden
/// effect's compound when there is one, in that order.
pub open spec fn instance_nbt(c: NbtCompound, m: MobEffectInstanceModel) -> bool
    decreases m,
{
    let v = c.values@;
    let d: int = if m.duration is Some {
        1
    } else {
        0
    };
    &&& v.len() >= 5 + d
    &&& v[0].0@ == "effect"@ && tag_string(v[0].1) == Some(identifier_text(lazy_key(m.effect)))
    &&& v[1].0@ == "amplifier"@ && v[1].1 == NbtTag::Int(m.amplifier)
    &&& (m.duration matches Some(x) ==> v[2].0@ == "duration"@ && v[2].1 == NbtTag::Int(x))
    &&& v[2 + d].0@ == "ambient"@ && v[2 + d].1 == NbtTag::Byte(bool_nbt_byte(m.ambient))
    &&& v[3 + d].0@ == "visible"@ && v[3 + d].1 == NbtTag::Byte(bool_nbt_byte(m.visible))
    &&& v[4 + d].0@ == "show_icon"@ && v[4 + d].1 == NbtTag::Byte(bool_nbt_byte(m.show_icon))
    &&& match m.hidden_effect {
        Some(h) => v.len() == 6 + d && v[5 + d].0@ == "hidden_effect"@ && match v[5 + d].1 {
            NbtTag::Compound(hc) => instance_nbt(hc, *h),
            _ => false,
        },
        None => v.len() == 5 + d,
    }
}

/// An instance read from NBT: the effect is the registered effect whose
/// key is the `key` text as a vanilla path; an int `amplifier`; a
/// `duration` that, when there, must be an int; three flag bytes (true when
/// 1); and a `hidden_effect` entry that must be there and, when it is a
/// compound, is read likewise.
pub open spec fn instance_from_nbt(c: NbtCompound, reg: &MobEffectRegistry) -> Option<MobEffectInstanceModel>
    decreases c,
{
    match entry_string(c, "key"@) {
        None => None,
        Some(text) => {
            let k = IdentifierModel { namespace: vanilla_namespace(), path: text };
            if !reg.registered(k) {
                None
            } else {
                match (
                    entry_int(c, "amplifier"@),
                    find_entry(c.values@, "duration"@),
                    entry_byte(c, "ambient"@),
                    entry_byte(c, "visible"@),
                    entry_byte(c, "show_icon"@),
                    find_entry(c.values@, "hidden_effect"@),
                ) {
                    (Some(amplifier), d, Some(a), Some(vis), Some(icon), Some(h)) => {
                        let duration_ok = match d {
                            Some(t) => tag_int(t) is Some,
                            None => true,
                        };
                        if !duration_ok {
                            None
                        } else {
                            let base = MobEffectInstanceModel {
                                effect: LazyMobEffectModel::Resolved(reg.effect_for(k)),
                                amplifier,
                                duration: match d {
                                    Some(t) => tag_int(t),
                                    None => None,
                                },
                                ambient: a == 1,
                                visible: vis == 1,
                                show_icon: icon == 1,
                                hidden_effect: None,
                            };
                            match h {
                                NbtTag::Compound(hc) => {
                                    proof {
                                        lemma_find_entry_member(c.values@, "hidden_effect"@);
                                        let i = choose|i: int|
                                            0 <= i < c.values@.len() && (#[trigger] c.values@[i]).1 == h;
                                        assert(decreases_to!(c => c.values));
                                        assert(decreases_to!(c.values => c.values@));
                                        assert(decreases_to!(c.values@ => c.values@[i]));
                                        assert(decreases_to!(c.values@[i] => c.values@[i].1));
                                        assert(decreases_to!(h => hc));
                                    }
                                    match instance_from_nbt(hc, reg) {
                                        Some(hm) => Some(
                                            MobEffectInstanceModel {
                                                hidden_effect: Some(Box::new(hm)),
                                                ..base
                                            },
                                        ),
                                        None => None,
                                    }
                                },
                                _ => Some(base),
                            }
                        }
                    },
                    _ => None,
                }
            }
        },
    }
}

impl MobEffectInstance {
    /// The NBT form (see `instance_nbt`).
    pub fn to_nbt_compound(&self) -> (c: NbtCompound)
        ensures
            instance_nbt(c, self@),
        decreases self,
    {
        let mut c = NbtCompound::new();
        c.insert("effect", NbtTag::String(self.effect.key().to_string()));
        c.insert("amplifier", NbtTag::Int(self.amplifier));
        if let Some(d) = self.duration {
            c.insert("duration", NbtTag::Int(d));
        }
        c.insert("ambient", NbtTag::Byte(if self.ambient { 1 } else { 0 }));
        c.insert("visible", NbtTag::Byte(if self.visible { 1 } else { 0 }));
        c.insert("show_icon", NbtTag::Byte(if self.show_icon { 1 } else { 0 }));
        if let Some(h) = &self.hidden_effect {
            let hc = (&**h).to_nbt_compound();
            c.insert("hidden_effect", NbtTag::Compound(hc));
        }
        c
    }

    /// Reads an instance from NBT (see `instance_from_nbt`); the effect is
    /// looked up in the registry.
    pub fn from_nbt_compound(c: &NbtCompound, registry: &MobEffectRegistry) -> (r: Option<MobEffectInstance>)
        requires
            registry.wf(),
        ensures
            r is Some <==> instance_from_nbt(*c, registry) is Some,
            r matches Some(i) ==> i@ == instance_from_nbt(*c, registry)->Some_0,
        decreases c,
    {
        let text = c.get_string("key")?;
        let key = Identifier::vanilla(text.clone());
        let effect = registry.find(&key)?;
        let amplifier = c.get_int("amplifier")?;
        let duration = match c.get("duration") {
            Some(t) => Some(t.as_int()?),
            None => None,
        };
        let ambient = c.get_byte("ambient")? == 1;
        let visible = c.get_byte("visible")? == 1;
        let show_icon = c.get_byte("show_icon")? == 1;
        let h = c.get("hidden_effect")?;
        let hidden_effect = match h.as_compound() {
            Some(hc) => {
                proof {
                    lemma_find_entry_member(c.values@, "hidden_effect"@);
                    let i = choose|i: int| 0 <= i < c.values@.len() && (#[trigger] c.values@[i]).1 == *h;
                    assert(decreases_to!(*c => c.values));
                    assert(decreases_to!(c.values => c.values@));
                    assert(decreases_to!(c.values@ => c.values@[i]));
                    assert(decreases_to!(c.values@[i] => c.values@[i].1));
                    assert(decreases_to!(*h => *hc));
                }
                let inner = MobEffectInstance::from_nbt_compound(hc, registry)?;
                Some(Box::new(inner))
            },
            None => None,
        };
        Some(
            MobEffectInstance {
                effect: LazyMobEffect::Resolved(effect),
                amplifier,
                duration,
                ambient,
                visible,
                show_icon,
                hidden_effect,
            },
        )
    }
}

/// The NBT list of instances: empty, or their compounds in order.
pub open spec fn instance_list_nbt(l: NbtList, v: Seq<MobEffectInstanceModel>) -> bool {
    if v.len() == 0 {
        l == NbtList::Empty
    } else {
        l matches NbtList::Compounds(cs) && cs@.len() == v.len() && forall|i: int|
            0 <= i < v.len() ==> instance_nbt(#[trigger] cs@[i], v[i])
    }
}

/// The instances of the compounds in order, if every one reads.
pub open spec fn instances_from_compounds(cs: Seq<NbtCompound>, reg: &MobEffectRegistry) -> Option<
    Seq<MobEffectInstanceModel>,
>
    decreases cs.len(),
{
    if cs.len() == 0 {
        Some(Seq::empty())
    } else {
        match (instances_from_compounds(cs.drop_last(), reg), instance_from_nbt(cs.last(), reg)) {
            (Some(v), Some(m)) => Some(v.push(m)),
            _ => None,
        }
    }
}

/// The instances of an NBT list: those of its compounds, every one of
/// which must read; a list of anything but compounds gives none.
pub open spec fn instances_of_nbt_list(l: NbtList, reg: &MobEffectRegistry) -> Option<
    Seq<MobEffectInstanceModel>,
> {
    match l {
        NbtList::Compounds(cs) => instances_from_compounds(cs@, reg),
        _ => Some(Seq::empty()),
    }
}

/// The NBT list of the instances (see `instance_list_nbt`).
pub fn instances_to_nbt_list(v: &Vec<MobEffectInstance>) -> (l: NbtList)
    ensures
        instance_list_nbt(l, v@.map_values(|e: MobEffectInstance| e@)),
{
    let n = v.len();
    if n == 0 {
        return NbtList::Empty;
    }
    let mut cs: Vec<NbtCompound> = Vec::new();
    let mut k: usize = 0;
    while k < n
        invariant
            n == v@.len(),
            k <= n,
            cs@.len() == k,
            forall|i: int| 0 <= i < k ==> instance_nbt(#[trigger] cs@[i], v@[i]@),
        decreases n - k,
    {
        cs.push(v[k].to_nbt_compound());
        k = k + 1;
    }
    let l = NbtList::Compounds(cs);
    assert forall|i: int| 0 <= i < n implies instance_nbt(#[trigger] cs@[i], v@.map_values(|e: MobEffectInstance| e@)[i]) by {
        assert(v@.map_values(|e: MobEffectInstance| e@)[i] == v@[i]@);
    }
    l
}

/// Reads the instances of an NBT list (see `instances_of_nbt_list`).
pub fn instances_from_nbt_list(l: &NbtList, registry: &MobEffectRegistry) -> (r: Option<Vec<MobEffectInstance>>)
    requires
        registry.wf(),
    ensures
        r is Some <==> instances_of_nbt_list(*l, registry) is Some,
        r matches Some(v) ==> v@.map_values(|e: MobEffectInstance| e@) == instances_of_nbt_list(
            *l,
            registry,
        )->Some_0,
{
    let mut out: Vec<MobEffectInstance> = Vec::new();
    if let NbtList::Compounds(cs) = l {
        let n = cs.len();
        let mut k: usize = 0;
        while k < n
            invariant
                n == cs@.len(),
                k <= n,
                registry.wf(),
                *l == NbtList::Compounds(*cs),
                instances_from_compounds(cs@.take(k as int), registry) == Some(
                    out@.map_values(|e: MobEffectInstance| e@),
                ),
            decreases n - k,
        {
            proof {
                assert(cs@.take(k + 1).drop_last() =~= cs@.take(k as int));
                assert(cs@.take(k + 1).last() == cs@[k as int]);
            }
            let item = match MobEffectInstance::from_nbt_compound(&cs[k], registry) {
                Some(item) => item,
                None => {
                    proof {
                        lemma_instances_from_compounds_prefix_fails(cs@, (k + 1) as int, registry);
                        assert(cs@.take(n as int) =~= cs@);
                    }
                    return None;
                },
            };
            let ghost done = out@.map_values(|e: MobEffectInstance| e@);
            out.push(item);
            assert(out@.map_values(|e: MobEffectInstance| e@) =~= done.push(item@));
            k = k + 1;
        }
        assert(cs@.take(n as int) =~= cs@);
    } else {
        assert(out@.map_values(|e: MobEffectInstance| e@) =~= Seq::<MobEffectInstanceModel>::empty());
    }
    Some(out)
}

/// Once a prefix of the compounds fails to read, so does every longer one.
proof fn lemma_instances_from_compounds_prefix_fails(cs: Seq<NbtCompound>, k: int, reg: &MobEffectRegistry)
    requires
        0 <= k <= cs.len(),
        instances_from_compounds(cs.take(k), reg) is None,
    ensures
        instances_from_compounds(cs, reg) is None,
    decreases cs.len() - k,
{
    if k < cs.len() {
        assert(cs.take(k + 1).drop_last() =~= cs.take(k));
        lemma_instances_from_compounds_prefix_fails(cs, k + 1, reg);
    } else {
        assert(cs.take(k) =~= cs);
    }
}

/// Reads an effect instance; its effect is named by key, as a path in the
/// vanilla namespace.
pub fn read_mob_effect_instance(r: &mut ByteReader) -> (res: Result<MobEffectInstance, DecodeError>)
    requires
        old(r).wf(),
    ensures
        final(r).wf(),
        final(r).input() == old(r).input(),
        reads_as(res, final(r).rest(), parse_mob_effect_instance(old(r).rest())),
    decreases old(r).rest().len(),
{
    reveal(parse_mob_effect_instance);
    let ghost s = r.rest();
    let name = r.read_string()?;
    let ghost r1 = r.rest();
    let amplifier = r.read_varint()?;
    let ghost r2 = r.rest();
    let d = r.read_varint()?;
    let ambient = r.read_bool()?;
    let visible = r.read_bool()?;
    let show_icon = r.read_bool()?;
    let has_hidden = r.read_bool()?;
    let duration = if d == -1 { None } else { Some(d) };
    let hidden_effect = if has_hidden {
        proof {
            lemma_string_shrinks(s);
            lemma_varint_shrinks(r1);
            lemma_varint_shrinks(r2);
        }
        let h = read_mob_effect_instance(r)?;
        Some(Box::new(h))
    } else {
        None
    };
    Ok(
        MobEffectInstance {
            effect: LazyMobEffect::Raw(Identifier::vanilla(name)),
            amplifier,
            duration,
            ambient,
            visible,
            show_icon,
            hidden_effect,
        },
    )
}

/// Reads `count` effect instances in a row.
pub open spec fn parse_instance_list(s: Seq<u8>, count: nat) -> Parsed<Seq<MobEffectInstanceModel>>
    decreases count,
{
    if count == 0 {
        Ok((Seq::empty(), s))
    } else {
        match parse_mob_effect_instance(s) {
            Err(e) => Err(e),
            Ok((first, r1)) => match parse_instance_list(r1, (count - 1) as nat) {
                Err(e) => Err(e),
                Ok((others, r2)) => Ok((seq![first] + others, r2)),
            },
        }
    }
}

/// Reads `count` effect instances in a row.
pub fn read_instance_list(r: &mut ByteReader, count: usize) -> (res: Result<Vec<MobEffectInstance>, DecodeError>)
    requires
        old(r).wf(),
    ensures
        final(r).wf(),
        final(r).input() == old(r).input(),
        match parse_instance_list(old(r).rest(), count as nat) {
            Ok((v, rest)) => res is Ok && res->Ok_0@.map_values(|i: MobEffectInstance| i@) == v
                && final(r).rest() == rest,
            Err(e) => res == Err::<Vec<MobEffectInstance>, DecodeError>(e),
        },
{
    let ghost s = r.rest();
    assert(s == old(r).rest());
    let mut out: Vec<MobEffectInstance> = Vec::new();
    let mut k: usize = 0;
    while k < count
        invariant
            r.wf(),
            r.input() == old(r).input(),
            k <= count,
            s == old(r).rest(),
            parse_instance_list(s, count as nat) == match parse_instance_list(r.rest(), (count - k) as nat) {
                Err(e) => Err(e),
                Ok((others, r2)) => Ok((out@.map_values(|i: MobEffectInstance| i@) + others, r2)),
            },
        decreases count - k,
    {
        let ghost before = r.rest();
        let ghost done = out@.map_values(|i: MobEffectInstance| i@);
        let item = match read_mob_effect_instance(r) {
            Ok(item) => item,
            Err(e) => {
                assert(parse_instance_list(before, (count - k) as nat) == Err::<
                    (Seq<MobEffectInstanceModel>, Seq<u8>),
                    DecodeError,
                >(e));
                assert(parse_instance_list(s, count as nat) == Err::<
                    (Seq<MobEffectInstanceModel>, Seq<u8>),
                    DecodeError,
                >(e));
                assert(parse_instance_list(old(r).rest(), count as nat) == Err::<
                    (Seq<MobEffectInstanceModel>, Seq<u8>),
                    DecodeError,
                >(e));
                return Err(e);
            },
        };
        out.push(item);
        proof {
            assert(out@.map_values(|i: MobEffectInstance| i@) =~= done.push(item@));
            let tail = parse_instance_list(r.rest(), (count - k - 1) as nat);
            match tail {
                Ok((others, r2)) => {
                    assert(done + (seq![item@] + others) =~= done.push(item@) + others);
                },
                Err(_) => {},
            }
        }
        k = k + 1;
    }
    proof {
        assert(out@.map_values(|i: MobEffectInstance| i@) + Seq::<MobEffectInstanceModel>::empty() =~= out@.map_values(|i: MobEffectInstance| i@));
    }
    Ok(out)
}

/// Whether every instance in the list can be looked up for writing.
pub open spec fn all_resolvable(v: Seq<MobEffectInstanceModel>, reg: &MobEffectRegistry) -> bool {
    forall|i: int| 0 <= i < v.len() ==> instance_resolvable(#[trigger] v[i], reg)
}

/// Whether every instance in the list can be looked up for writing.
pub fn instances_resolvable(v: &Vec<MobEffectInstance>, registry: &MobEffectRegistry) -> (b: bool)
    ensures
        b == all_resolvable(v@.map_values(|e: MobEffectInstance| e@), registry),
{
    let ghost m = v@.map_values(|e: MobEffectInstance| e@);
    let n = v.len();
    let mut k: usize = 0;
    while k < n
        invariant
            n == v@.len(),
            m == v@.map_values(|e: MobEffectInstance| e@),
            k <= n,
            forall|j: int| 0 <= j < k ==> instance_resolvable(#[trigger] m[j], registry),
        decreases n - k,
    {
        if !v[k].is_resolvable(registry) {
            assert(!instance_resolvable(m[k as int], registry));
            return false;
        }
        k = k + 1;
    }
    true
}

/// The wire forms of a list of instances, one after another.
pub open spec fn instance_list_bytes(v: Seq<MobEffectInstanceModel>) -> Seq<u8>
    decreases v.len(),
{
    if v.len() == 0 {
        Seq::empty()
    } else {
        instance_list_bytes(v.drop_last()) + instance_bytes(v.last())
    }
}

/// Appends the wire forms of the instances, one after another.
pub fn write_instance_list(out: &mut Vec<u8>, v: &Vec<MobEffectInstance>, registry: &MobEffectRegistry)
    requires
        registry.wf(),
        all_resolvable(v@.map_values(|i: MobEffectInstance| i@), registry),
    ensures
        final(out)@ == old(out)@ + instance_list_bytes(v@.map_values(|i: MobEffectInstance| i@)),
{
    let n = v.len();
    let mut k: usize = 0;
    while k < n
        invariant
            n == v@.len(),
            k <= n,
            registry.wf(),
            all_resolvable(v@.map_values(|i: MobEffectInstance| i@), registry),
            out@ == old(out)@ + instance_list_bytes(v@.map_values(|i: MobEffectInstance| i@).take(k as int)),
        decreases n - k,
    {
        assert(v@.map_values(|i: MobEffectInstance| i@)[k as int] == v@[k as int]@);
        v[k].write(out, registry);
        proof {
            let m = v@.map_values(|i: MobEffectInstance| i@);
            assert(m.take(k + 1).drop_last() =~= m.take(k as int));
            assert(m.take(k + 1).last() == v@[k as int]@);
        }
        k = k + 1;
    }
    proof {
        let m = v@.map_values(|i: MobEffectInstance| i@);
        assert(m.take(n as int) =~= m);
    }
}

/// The four bytes of the duration mark -1 (an infinite effect) are all 0xFF.
proof fn lemma_minus_one_bytes()
    ensures
        i32_be_bytes(-1i32) == seq![0xFFu8, 0xFFu8, 0xFFu8, 0xFFu8],
{
    assert(((-1i32) as u32) == 0xFFFF_FFFFu32) by (bit_vector);
    assert(i32_be_bytes(-1i32) =~= seq![0xFFu8, 0xFFu8, 0xFFu8, 0xFFu8]);
}

/// Where each field stands in an instance's wire form: after the key text
/// come the amplifier's four bytes, then the duration's four bytes (FF FF
/// FF FF for an instance without duration, which is infinite), then the
/// ambient, visible and show-icon flag bytes in that order, then the byte
/// saying whether a hidden effect follows.
pub proof fn lemma_instance_wire_layout(m: MobEffectInstanceModel)
    ensures
        ({
            let k = string_bytes(identifier_text(lazy_key(m.effect))).len() as int;
            let b = instance_bytes(m);
            &&& b.len() >= k + 12
            &&& b.subrange(0, k) == string_bytes(identifier_text(lazy_key(m.effect)))
            &&& b.subrange(k, k + 4) == i32_be_bytes(m.amplifier)
            &&& (m.duration is None ==> b.subrange(k + 4, k + 8) == seq![0xFFu8, 0xFFu8, 0xFFu8, 0xFFu8])
            &&& (m.duration matches Some(d) ==> b.subrange(k + 4, k + 8) == i32_be_bytes(d))
            &&& b[k + 8] == bool_byte(m.ambient)
            &&& b[k + 9] == bool_byte(m.visible)
            &&& b[k + 10] == bool_byte(m.show_icon)
            &&& b[k + 11] == (if m.hidden_effect is Some {
                1u8
            } else {
                0u8
            })
        }),
{
    reveal(instance_bytes);
    lemma_minus_one_bytes();
    let t = string_bytes(identifier_text(lazy_key(m.effect)));
    let k = t.len() as int;
    let dur = i32_be_bytes(
        match m.duration {
            Some(d) => d,
            None => -1i32,
        },
    );
    let flags = seq![bool_byte(m.ambient), bool_byte(m.visible), bool_byte(m.show_icon)];
    let tail = match m.hidden_effect {
        Some(h) => seq![1u8] + instance_bytes(*h),
        None => seq![0u8],
    };
    let b = instance_bytes(m);
    assert(b == t + i32_be_bytes(m.amplifier) + dur + flags + tail);
    assert(b.subrange(0, k) =~= t);
    assert(b.subrange(k, k + 4) =~= i32_be_bytes(m.amplifier));
    assert(b.subrange(k + 4, k + 8) =~= dur);
    assert(b[k + 8] == flags[0]);
    assert(b[k + 9] == flags[1]);
    assert(b[k + 10] == flags[2]);
    assert(b[k + 11] == tail[0]);
}

/// Reading a key text, an amplifier and a duration as VarInts, then the
/// ambient, visible and show-icon flag bytes in that order and a zero byte
/// gives the instance of the vanilla key with that amplifier, that duration
/// (none for -1), those flags and no hidden effect, leaving what follows.
#[verifier::spinoff_prover]
#[verifier::rlimit(50)]
pub proof fn lemma_read_instance_fields(
    text: Seq<char>,
    amplifier: i32,
    duration: i32,
    ambient: bool,
    visible: bool,
    show_icon: bool,
    rest: Seq<u8>,
)
    requires
        vstd::utf8::encode_utf8(text).len() <= i32::MAX,
    ensures
        parse_mob_effect_instance(
            string_bytes(text) + varint_encode(amplifier) + varint_encode(duration) + seq![
                bool_byte(ambient),
                bool_byte(visible),
                bool_byte(show_icon),
                0u8,
            ] + rest,
        ) == Ok::<(MobEffectInstanceModel, Seq<u8>), DecodeError>(
            (
                MobEffectInstanceModel {
                    effect: LazyMobEffectModel::Raw(
                        IdentifierModel { namespace: vanilla_namespace(), path: text },
                    ),
                    amplifier,
                    duration: if duration == -1 {
                        None
                    } else {
                        Some(duration)
                    },
                    ambient,
                    visible,
                    show_icon,
                    hidden_effect: None,
                },
                rest,
            ),
        ),
{
    reveal(parse_mob_effect_instance);
    let r6 = seq![0u8] + rest;
    let r5 = seq![bool_byte(show_icon)] + r6;
    let r4 = seq![bool_byte(visible)] + r5;
    let r3 = seq![bool_byte(ambient)] + r4;
    let r2 = varint_encode(duration) + r3;
    let r1 = varint_encode(amplifier) + r2;
    let s = string_bytes(text) + varint_encode(amplifier) + varint_encode(duration) + seq![
        bool_byte(ambient),
        bool_byte(visible),
        bool_byte(show_icon),
        0u8,
    ] + rest;
    assert(s =~= string_bytes(text) + r1);
    crate::codec::lemma_string_roundtrip(text, r1);
    crate::codec::lemma_varint_roundtrip(amplifier, r2);
    crate::codec::lemma_varint_roundtrip(duration, r3);
    crate::codec::lemma_bool_roundtrip(ambient, r4);
    crate::codec::lemma_bool_roundtrip(visible, r5);
    crate::codec::lemma_bool_roundtrip(show_icon, r6);
    crate::codec::lemma_bool_roundtrip(false, rest);
    assert(parse_string(s) == Ok::<(Seq<char>, Seq<u8>), DecodeError>((text, r1)));
    assert(parse_varint(r1) == Ok::<(i32, Seq<u8>), DecodeError>((amplifier, r2)));
    assert(parse_varint(r2) == Ok::<(i32, Seq<u8>), DecodeError>((duration, r3)));
    assert(parse_bool(r6) == Ok::<(bool, Seq<u8>), DecodeError>((false, rest)));
}

/// An instance read from NBT takes each field from the entry of its own
/// name: the amplifier from the int under `amplifier`, the duration from
/// the int under `duration` (none when there is no such entry), and each
/// flag from the byte under its name, set exactly when that byte is 1; its
/// effect is registered under the text under `key`, taken as a vanilla path.
pub proof fn lemma_instance_from_nbt_fields(c: NbtCompound, reg: &MobEffectRegistry)
    ensures
        instance_from_nbt(c, reg) matches Some(m) ==> {
            &&& entry_int(c, "amplifier"@) == Some(m.amplifier)
            &&& m.duration == (match find_entry(c.values@, "duration"@) {
                Some(t) => tag_int(t),
                None => None,
            })
            &&& m.ambient == (entry_byte(c, "ambient"@) == Some(1i8))
            &&& m.visible == (entry_byte(c, "visible"@) == Some(1i8))
            &&& m.show_icon == (entry_byte(c, "show_icon"@) == Some(1i8))
            &&& entry_string(c, "key"@) matches Some(text) && m.effect == LazyMobEffectModel::Resolved(
                reg.effect_for(IdentifierModel { namespace: vanilla_namespace(), path: text }),
            )
        },
{
}

/// The NBT form of an instance holds each field under its own name: the
/// key text under `effect`, the amplifier under `amplifier`, the duration
/// under `duration` exactly when there is one, and each flag as the byte 1
/// or 0 under its name.
pub proof fn lemma_instance_nbt_fields(c: NbtCompound, m: MobEffectInstanceModel)
    requires
        instance_nbt(c, m),
    ensures
        entry_string(c, "effect"@) == Some(identifier_text(lazy_key(m.effect))),
        entry_int(c, "amplifier"@) == Some(m.amplifier),
        entry_int(c, "duration"@) == m.duration,
        find_entry(c.values@, "duration"@) is Some <==> m.duration is Some,
        entry_byte(c, "ambient"@) == Some(bool_nbt_byte(m.ambient)),
        entry_byte(c, "visible"@) == Some(bool_nbt_byte(m.visible)),
        entry_byte(c, "show_icon"@) == Some(bool_nbt_byte(m.show_icon)),
{
    reveal_strlit("effect");
    reveal_strlit("amplifier");
    reveal_strlit("duration");
    reveal_strlit("ambient");
    reveal_strlit("visible");
    reveal_strlit("show_icon");
    reveal_strlit("hidden_effect");
    let v = c.values@;
    let d: int = if m.duration is Some {
        1
    } else {
        0
    };
    assert(v[0].0@[0] == 'e' && v[0].0@.len() == 6);
    assert(v[1].0@[0] == 'a' && v[1].0@[1] == 'm' && v[1].0@[2] == 'p' && v[1].0@.len() == 9);
    if d == 1 {
        assert(v[2].0@[0] == 'd' && v[2].0@.len() == 8);
    }
    assert(v[2 + d].0@[0] == 'a' && v[2 + d].0@[1] == 'm' && v[2 + d].0@[2] == 'b' && v[2 + d].0@.len() == 7);
    assert(v[3 + d].0@[0] == 'v' && v[3 + d].0@.len() == 7);
    assert(v[4 + d].0@[0] == 's' && v[4 + d].0@.len() == 9);
    if m.hidden_effect is Some {
        assert(v[5 + d].0@[0] == 'h' && v[5 + d].0@.len() == 13);
    }
    crate::nbt::lemma_find_entry_at(v, 0);
    crate::nbt::lemma_find_entry_at(v, 1);
    if d == 1 {
        crate::nbt::lemma_find_entry_at(v, 2);
    } else {
        assert forall|j: int| 0 <= j < v.len() implies (#[trigger] v[j]).0@ != "duration"@ by {
            assert(v[j].0@[0] != 'd' || v[j].0@.len() != 8);
        }
        crate::nbt::lemma_find_entry_absent(v, "duration"@);
    }
    crate::nbt::lemma_find_entry_at(v, 2 + d);
    crate::nbt::lemma_find_entry_at(v, 3 + d);
    crate::nbt::lemma_find_entry_at(v, 4 + d);
}

} // verus!

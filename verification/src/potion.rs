//! Registered potions, their effect lists, and the potion registry.
use vstd::prelude::*;
use crate::codec::{
    parse_count, parse_string, parse_varint, reads_as, string_bytes, varint_encode, write_string,
    write_varint, ByteReader, DecodeError, Parsed,
};
use crate::identifier::{identifier_text, vanilla_namespace, Identifier, IdentifierModel};
use crate::item::has_instant;
use crate::item::any_instantaneous;
use crate::key_index::{key_index, key_index_get, key_index_insert, key_index_new, KeyIndex};
use crate::mob_effect::{
    all_resolvable, instance_list_bytes, instance_lists_eq, instance_vecs_equal,
    parse_instance_list, read_instance_list, write_instance_list, MobEffectInstance,
    MobEffectInstanceModel, MobEffectRegistry,
};

verus! {

/// The effects of a potion, computed once from the function it was made with.
#[derive(Debug)]
pub struct LazyEffects {
    effects: Vec<MobEffectInstance>,
}

impl LazyEffects {
    /// The effects as the contracts see them.
    pub closed spec fn models(&self) -> Seq<MobEffectInstanceModel> {
        self.effects@.map_values(|e: MobEffectInstance| e@)
    }

    /// Effects given by `init`, which is called once, here.
    pub fn new<F: Fn() -> Vec<MobEffectInstance>>(init: F) -> (r: Self)
        requires
            init.requires(()),
        ensures
            exists|v: Vec<MobEffectInstance>|
                init.ensures((), v) && r.models() == v@.map_values(|e: MobEffectInstance| e@),
    {
        let effects = init();
        let r = LazyEffects { effects };
        assert(init.ensures((), r.effects) && r.models() == r.effects@.map_values(|e: MobEffectInstance| e@));
        r
    }

    /// Effects given as they are.
    pub fn with_baked(effects: Vec<MobEffectInstance>) -> (r: Self)
        ensures
            r.models() == effects@.map_values(|e: MobEffectInstance| e@),
    {
        LazyEffects { effects }
    }

    /// The effects.
    pub fn resolve(&self) -> (v: &Vec<MobEffectInstance>)
        ensures
            v@.map_values(|e: MobEffectInstance| e@) == self.models(),
    {
        &self.effects
    }
}

impl PartialEq for LazyEffects {
    fn eq(&self, other: &Self) -> (r: bool) {
        instance_vecs_equal(self.resolve(), other.resolve())
    }
}

impl vstd::std_specs::cmp::PartialEqSpecImpl for LazyEffects {
    open spec fn obeys_eq_spec() -> bool {
        true
    }

    open spec fn eq_spec(&self, other: &Self) -> bool {
        instance_lists_eq(self.models(), other.models())
    }
}

/// A registered potion: its id, its key and its effects.
#[derive(Debug)]
pub struct Potion {
    pub id: i32,
    pub key: Identifier,
    pub effects: LazyEffects,
}

/// A registered potion as the contracts see it.
pub struct PotionModel {
    pub id: i32,
    pub key: IdentifierModel,
    pub effects: Seq<MobEffectInstanceModel>,
}

impl View for Potion {
    type V = PotionModel;

    open spec fn view(&self) -> PotionModel {
        PotionModel { id: self.id, key: self.key@, effects: self.effects.models() }
    }
}

/// The wire form: the id as a VarInt, the key as text, the effect count and the effects.
pub open spec fn potion_bytes(p: PotionModel) -> Seq<u8> {
    varint_encode(p.id) + string_bytes(identifier_text(p.key)) + varint_encode(
        p.effects.len() as i32,
    ) + instance_list_bytes(p.effects)
}

/// A potion read from the wire; its key text becomes a path in the vanilla namespace.
pub open spec fn parse_potion(s: Seq<u8>) -> Parsed<PotionModel> {
    match parse_varint(s) {
        Err(e) => Err(e),
        Ok((id, r1)) => match parse_string(r1) {
            Err(e) => Err(e),
            Ok((name, r2)) => match parse_count(r2) {
                Err(e) => Err(e),
                Ok((n, r3)) => match parse_instance_list(r3, n) {
                    Err(e) => Err(e),
                    Ok((effects, r4)) => Ok(
                        (
                            PotionModel {
                                id,
                                key: IdentifierModel { namespace: vanilla_namespace(), path: name },
                                effects,
                            },
                            r4,
                        ),
                    ),
                },
            },
        },
    }
}

impl Potion {
    /// A potion in the vanilla namespace with effects given by `effects`.
    pub fn new<F: Fn() -> Vec<MobEffectInstance>>(id: i32, name: &str, effects: F) -> (p: Self)
        requires
            effects.requires(()),
        ensures
            p@.id == id,
            p@.key == (IdentifierModel { namespace: vanilla_namespace(), path: name@ }),
            exists|v: Vec<MobEffectInstance>|
                effects.ensures((), v) && p@.effects == v@.map_values(|e: MobEffectInstance| e@),
    {
        Potion {
            id,
            key: Identifier::vanilla(String::from_str(name)),
            effects: LazyEffects::new(effects),
        }
    }

    /// Whether one of the effects lasts zero ticks.
    pub fn has_instant_effects(&self) -> (b: bool)
        ensures
            b == has_instant(self@.effects),
    {
        any_instantaneous(self.effects.resolve())
    }

    /// Appends the wire form; every effect named only by key must be registered.
    pub fn write(&self, out: &mut Vec<u8>, registry: &MobEffectRegistry)
        requires
            registry.wf(),
            all_resolvable(self@.effects, registry),
        ensures
            final(out)@ == old(out)@ + potion_bytes(self@),
    {
        write_varint(out, self.id);
        let text = self.key.to_string();
        write_string(out, text.as_str());
        let effects = self.effects.resolve();
        write_varint(out, effects.len() as i32);
        write_instance_list(out, effects, registry);
        assert(out@ =~= old(out)@ + potion_bytes(self@));
    }
}

/// Reads a potion; its effects are taken as they were read.
pub fn read_potion(r: &mut ByteReader) -> (res: Result<Potion, DecodeError>)
    requires
        old(r).wf(),
    ensures
        final(r).wf(),
        final(r).input() == old(r).input(),
        reads_as(res, final(r).rest(), parse_potion(old(r).rest())),
{
    let id = r.read_varint()?;
    let name = r.read_string()?;
    let n = r.read_count()?;
    let effects = read_instance_list(r, n)?;
    Ok(Potion { id, key: Identifier::vanilla(name), effects: LazyEffects::with_baked(effects) })
}

/// A registered potion, shared for the whole run.
pub type PotionRef = &'static Potion;

/// All potions, by index (their registration order) and by key.
pub struct PotionRegistry {
    potions_by_id: Vec<PotionRef>,
    potions_by_key: KeyIndex,
    allows_registering: bool,
}

impl PotionRegistry {
    /// The potions in registration order.
    pub closed spec fn potions(&self) -> Seq<PotionModel> {
        self.potions_by_id@.map_values(|p: PotionRef| p@)
    }

    /// The index under which each key is found.
    pub closed spec fn keys(&self) -> Map<IdentifierModel, usize> {
        key_index(self.potions_by_key)
    }

    /// Whether new potions may still be registered.
    pub closed spec fn accepts_registration(&self) -> bool {
        self.allows_registering
    }

    /// Each key leads to a potion with that key, and to the last one
    /// registered under it.
    pub open spec fn wf(&self) -> bool {
        &&& forall|k: IdentifierModel| #[trigger]
            self.keys().dom().contains(k) ==> self.keys()[k] < self.potions().len()
                && self.potions()[self.keys()[k] as int].key == k
        &&& forall|i: int|
            0 <= i < self.potions().len() ==> self.keys().dom().contains(
                #[trigger] self.potions()[i].key,
            ) && i <= self.keys()[self.potions()[i].key]
    }

    /// Whether a potion is registered under `k`.
    pub open spec fn registered(&self, k: IdentifierModel) -> bool {
        self.keys().dom().contains(k)
    }

    /// The potion registered last under `k`.
    pub open spec fn potion_for(&self, k: IdentifierModel) -> PotionModel {
        self.potions()[self.keys()[k] as int]
    }

    /// An empty registry that accepts registrations.
    pub fn new() -> (r: Self)
        ensures
            r.wf(),
            r.potions() == Seq::<PotionModel>::empty(),
            r.keys() == Map::<IdentifierModel, usize>::empty(),
            r.accepts_registration(),
    {
        let r = PotionRegistry {
            potions_by_id: Vec::new(),
            potions_by_key: key_index_new(),
            allows_registering: true,
        };
        assert(r.potions() =~= Seq::<PotionModel>::empty());
        r
    }

    /// Adds a potion under the next index; its key now leads to it.
    pub fn register(&mut self, potion: PotionRef)
        requires
            old(self).wf(),
            old(self).accepts_registration(),
            old(self).potions().len() < usize::MAX,
        ensures
            final(self).wf(),
            final(self).accepts_registration(),
            final(self).potions() == old(self).potions().push(potion@),
            final(self).keys() == old(self).keys().insert(potion.key@, old(self).potions().len() as usize),
    {
        let idx = self.potions_by_id.len();
        proof {
            assert(self.potions().len() == idx);
        }
        key_index_insert(&mut self.potions_by_key, potion.key.clone(), idx);
        self.potions_by_id.push(potion);
        proof {
            assert(self.potions() =~= old(self).potions().push(potion@));
            let k0 = potion.key@;
            assert forall|k: IdentifierModel| #[trigger]
                self.keys().dom().contains(k) implies self.keys()[k] < self.potions().len()
                && self.potions()[self.keys()[k] as int].key == k by {
                if k != k0 {
                    assert(old(self).keys().dom().contains(k));
                }
            }
            assert forall|i: int| 0 <= i < self.potions().len() implies self.keys().dom().contains(
                #[trigger] self.potions()[i].key,
            ) && i <= self.keys()[self.potions()[i].key] by {
                if i < idx {
                    assert(self.potions()[i] == old(self).potions()[i]);
                    assert(old(self).keys().dom().contains(old(self).potions()[i].key));
                }
            }
        }
    }

    /// Whether new entries may still be registered.
    pub fn allows_registering(&self) -> (b: bool)
        ensures
            b == self.accepts_registration(),
    {
        self.allows_registering
    }

    /// Stops registration: afterwards the registry accepts no new potions,
    /// and what it holds stays as it was.
    pub fn freeze(&mut self)
        ensures
            !final(self).accepts_registration(),
            final(self).potions() == old(self).potions(),
            final(self).keys() == old(self).keys(),
    {
        self.allows_registering = false;
    }

    /// Every potion with its index, in registration order.
    pub fn iter(&self) -> (v: Vec<(usize, PotionRef)>)
        ensures
            v@.len() == self.potions().len(),
            forall|i: int| 0 <= i < v@.len() ==> v@[i].0 == i && (#[trigger] v@[i]).1@ == self.potions()[i],
    {
        let mut v: Vec<(usize, PotionRef)> = Vec::new();
        let n = self.potions_by_id.len();
        let mut i: usize = 0;
        while i < n
            invariant
                n == self.potions_by_id@.len(),
                n == self.potions().len(),
                i <= n,
                v@.len() == i,
                forall|j: int| 0 <= j < i ==> v@[j].0 == j && (#[trigger] v@[j]).1@ == self.potions()[j],
            decreases n - i,
        {
            v.push((i, self.potions_by_id[i]));
            i = i + 1;
        }
        v
    }

    /// The potion registered under `identifier`; the key must be registered.
    pub fn potion_by_key(&self, identifier: &Identifier) -> (p: PotionRef)
        requires
            self.wf(),
            self.registered(identifier@),
        ensures
            p@ == self.potion_for(identifier@),
            p.key@ == identifier@,
    {
        let idx = *key_index_get(&self.potions_by_key, identifier).unwrap();
        self.potions_by_id[idx]
    }

    /// Whether a potion is registered under `identifier`.
    pub fn has_key(&self, identifier: &Identifier) -> (b: bool)
        ensures
            b == self.registered(identifier@),
    {
        key_index_get(&self.potions_by_key, identifier).is_some()
    }

    /// The potion at index `id`; the index must be in range.
    pub fn potion_by_id(&self, id: i32) -> (p: PotionRef)
        requires
            0 <= id < self.potions().len(),
        ensures
            p@ == self.potions()[id as int],
    {
        self.potions_by_id[id as usize]
    }

    /// The potion at index `id`, if the index is in range.
    pub fn find_by_id(&self, id: i32) -> (p: Option<PotionRef>)
        ensures
            p is Some <==> 0 <= id < self.potions().len(),
            p matches Some(p) ==> p@ == self.potions()[id as int],
    {
        if 0 <= id && (id as usize) < self.potions_by_id.len() {
            Some(self.potions_by_id[id as usize])
        } else {
            None
        }
    }
}

impl Default for PotionRegistry {
    fn default() -> (r: Self)
        ensures
            r.wf(),
            r.potions() == Seq::<PotionModel>::empty(),
            r.accepts_registration(),
    {
        Self::new()
    }
}

/// In a well-formed registry the index found under a key is the last index
/// whose potion has that key.
pub proof fn lemma_key_leads_to_latest(reg: &PotionRegistry, k: IdentifierModel, j: int)
    requires
        reg.wf(),
        reg.registered(k),
        reg.keys()[k] < j < reg.potions().len(),
    ensures
        reg.potions()[j].key != k,
{
    if reg.potions()[j].key == k {
        assert(reg.keys().dom().contains(reg.potions()[j].key));
    }
}

/// What `register` leaves at each step of a run of registrations: the
/// entry pushed, its key inserted under the index it was given.
pub open spec fn registration_steps(steps: Seq<PotionRegistry>, es: Seq<PotionModel>) -> bool {
    &&& steps.len() == es.len() + 1
    &&& forall|k: int|
        0 <= k < es.len() ==> (#[trigger] steps[k + 1]).potions() == steps[k].potions().push(es[k])
            && steps[k + 1].keys() == steps[k].keys().insert(
            es[k].key,
            steps[k].potions().len() as usize,
        )
}

/// Whether no two of the entries share a key.
pub open spec fn distinct_keys(es: Seq<PotionModel>) -> bool {
    forall|i: int, j: int| 0 <= i < j < es.len() ==> (#[trigger] es[i]).key != (#[trigger] es[j]).key
}

/// After `k` registrations into an empty registry, it holds the first `k`
/// entries, and each of their keys leads to its own index.
proof fn lemma_registration_prefix(steps: Seq<PotionRegistry>, es: Seq<PotionModel>, k: int)
    requires
        registration_steps(steps, es),
        steps[0].potions() == Seq::<PotionModel>::empty(),
        steps[0].keys() == Map::<IdentifierModel, usize>::empty(),
        distinct_keys(es),
        es.len() < usize::MAX,
        0 <= k <= es.len(),
    ensures
        steps[k].potions() == es.take(k),
        forall|i: int| 0 <= i < k ==> steps[k].keys().dom().contains(#[trigger] es[i].key)
            && steps[k].keys()[es[i].key] == i,
        forall|key: IdentifierModel| #[trigger] steps[k].keys().dom().contains(key) ==> exists|i: int|
            0 <= i < k && es[i].key == key,
    decreases k,
{
    if k == 0 {
        assert(es.take(0) =~= Seq::<PotionModel>::empty());
    } else {
        lemma_registration_prefix(steps, es, k - 1);
        let prev = steps[k - 1];
        let cur = steps[k];
        assert(cur == steps[(k - 1) + 1]);
        assert(es.take(k - 1).push(es[k - 1]) =~= es.take(k));
        assert(prev.potions().len() == k - 1);
        assert(cur.keys() == prev.keys().insert(es[k - 1].key, (k - 1) as usize));
        assert forall|i: int| 0 <= i < k implies cur.keys().dom().contains(#[trigger] es[i].key)
            && cur.keys()[es[i].key] == i by {
            if i < k - 1 {
                assert(es[i].key != es[k - 1].key);
                assert(prev.keys().dom().contains(es[i].key) && prev.keys()[es[i].key] == i);
            }
        }
        assert forall|key: IdentifierModel| #[trigger] cur.keys().dom().contains(key) implies exists|i: int|
            0 <= i < k && es[i].key == key by {
            if key != es[k - 1].key {
                assert(prev.keys().dom().contains(key));
                let i = choose|i: int| 0 <= i < k - 1 && es[i].key == key;
                assert(0 <= i < k && es[i].key == key);
            } else {
                assert(es[k - 1].key == key);
            }
        }
    }
}

/// Registering potions with distinct keys one after another into a new
/// registry leaves them in registration order, each under its index, each
/// key leading to its own entry, and no other key registered. (As
/// `register` asks, there are fewer than `usize::MAX` of them.)
pub proof fn lemma_registration_sequence(steps: Seq<PotionRegistry>, es: Seq<PotionModel>)
    requires
        registration_steps(steps, es),
        steps[0].potions() == Seq::<PotionModel>::empty(),
        steps[0].keys() == Map::<IdentifierModel, usize>::empty(),
        distinct_keys(es),
        es.len() < usize::MAX,
    ensures
        steps.last().potions() == es,
        forall|i: int| 0 <= i < es.len() ==> steps.last().registered(#[trigger] es[i].key)
            && steps.last().keys()[es[i].key] == i && steps.last().potion_for(es[i].key) == es[i],
        forall|key: IdentifierModel| steps.last().registered(key) ==> exists|i: int|
            0 <= i < es.len() && #[trigger] es[i].key == key,
{
    let n = es.len() as int;
    lemma_registration_prefix(steps, es, n);
    assert(es.take(n) =~= es);
    assert(steps.last() == steps[n]);
    assert forall|key: IdentifierModel| steps.last().registered(key) implies exists|i: int|
        0 <= i < es.len() && #[trigger] es[i].key == key by {
        assert(steps[n].keys().dom().contains(key));
    }
}

/// Registering a potion makes its key find it, under the index it was
/// given, and leaves the other keys as they were.
pub proof fn lemma_register_then_lookup(
    before: &PotionRegistry,
    after: &PotionRegistry,
    potion: PotionModel,
    k: IdentifierModel,
)
    requires
        before.wf(),
        after.wf(),
        after.potions() == before.potions().push(potion),
        after.keys() == before.keys().insert(potion.key, before.potions().len() as usize),
        before.potions().len() < usize::MAX,
    ensures
        after.registered(potion.key),
        after.keys()[potion.key] == before.potions().len(),
        after.potion_for(potion.key) == potion,
        k != potion.key ==> (after.registered(k) == before.registered(k)),
        k != potion.key && before.registered(k) ==> after.potion_for(k) == before.potion_for(k),
{
    if k != potion.key && before.registered(k) {
        assert(before.keys()[k] < before.potions().len());
    }
}

/// Reading a VarInt, a text and a zero count gives the potion with that id,
/// the vanilla key whose path is that text, and no effects, leaving what follows.
pub proof fn lemma_read_potion_fields(id: i32, text: Seq<char>, rest: Seq<u8>)
    requires
        vstd::utf8::encode_utf8(text).len() <= i32::MAX,
    ensures
        parse_potion(varint_encode(id) + string_bytes(text) + varint_encode(0) + rest) == Ok::<
            (PotionModel, Seq<u8>),
            DecodeError,
        >(
            (
                PotionModel {
                    id,
                    key: IdentifierModel { namespace: vanilla_namespace(), path: text },
                    effects: Seq::empty(),
                },
                rest,
            ),
        ),
{
    let r2 = varint_encode(0) + rest;
    let r1 = string_bytes(text) + r2;
    assert(varint_encode(id) + string_bytes(text) + varint_encode(0) + rest =~= varint_encode(id) + r1);
    crate::codec::lemma_varint_roundtrip(id, r1);
    crate::codec::lemma_string_roundtrip(text, r2);
    crate::codec::lemma_varint_roundtrip(0, rest);
}

} // verus!

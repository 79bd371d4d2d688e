//! The potion-contents component: a registered potion, a custom color,
//! extra effects and a custom name.
use vstd::prelude::*;
use crate::codec::{
    bool_byte, i32_be_bytes, parse_bool, parse_count, parse_i32_be, parse_string, parse_varint,
    reads_as, string_bytes, varint_encode, write_bool, write_i32_be, write_string, write_varint,
    ByteReader, DecodeError, Parsed,
};
use crate::mob_effect::{
    all_resolvable, instance_list_bytes, parse_instance_list, read_instance_list,
    write_instance_list, MobEffectInstance, MobEffectInstanceModel, MobEffectRegistry,
};
use crate::potion::{PotionModel, PotionRef, PotionRegistry};
use crate::nbt::{entry_int, entry_string, find_entry, tag_int, tag_string, NbtCompound, NbtList, NbtTag};
use crate::mob_effect::{instance_list_nbt, instances_from_compounds, instances_to_nbt_list};
use crate::identifier::{
    identifier_text, remove_all, remove_all_occurrences, str_eq, vanilla_namespace, Identifier,
    IdentifierModel,
};

verus! {

/// What a potion item holds.
#[derive(Debug)]
pub struct PotionContents {
    pub potion: Option<PotionRef>,
    pub custom_color: Option<i32>,
    pub custom_effects: Vec<MobEffectInstance>,
    pub custom_name: Option<String>,
}

/// Potion contents as the contracts see them.
pub struct PotionContentsModel {
    pub potion: Option<PotionModel>,
    pub custom_color: Option<i32>,
    pub custom_effects: Seq<MobEffectInstanceModel>,
    pub custom_name: Option<Seq<char>>,
}

impl View for PotionContents {
    type V = PotionContentsModel;

    open spec fn view(&self) -> PotionContentsModel {
        PotionContentsModel {
            potion: match self.potion {
                Some(p) => Some(p@),
                None => None,
            },
            custom_color: self.custom_color,
            custom_effects: self.custom_effects@.map_values(|e: MobEffectInstance| e@),
            custom_name: match &self.custom_name {
                Some(n) => Some(n@),
                None => None,
            },
        }
    }
}

/// The optional potion's wire form: a presence byte, then its id as a VarInt.
pub open spec fn potion_field_bytes(p: Option<PotionModel>) -> Seq<u8> {
    match p {
        Some(p) => seq![bool_byte(true)] + varint_encode(p.id),
        None => seq![bool_byte(false)],
    }
}

/// The optional color's wire form: a presence byte, then its four bytes.
pub open spec fn color_field_bytes(c: Option<i32>) -> Seq<u8> {
    match c {
        Some(color) => seq![bool_byte(true)] + i32_be_bytes(color),
        None => seq![bool_byte(false)],
    }
}

/// The optional name's wire form: a presence byte, then the string.
pub open spec fn name_field_bytes(n: Option<Seq<char>>) -> Seq<u8> {
    match n {
        Some(n) => seq![bool_byte(true)] + string_bytes(n),
        None => seq![bool_byte(false)],
    }
}

/// The wire form: the potion's id behind a presence byte, the color's four
/// bytes behind a presence byte, the effect count and effects, and the name
/// behind a presence byte.
pub open spec fn potion_contents_bytes(c: PotionContentsModel) -> Seq<u8> {
    potion_field_bytes(c.potion) + color_field_bytes(c.custom_color) + varint_encode(
        c.custom_effects.len() as i32,
    ) + instance_list_bytes(c.custom_effects) + name_field_bytes(c.custom_name)
}

/// The optional potion: a presence byte, then a VarInt index that the registry must hold.
pub open spec fn parse_potion_field(s: Seq<u8>, reg: &PotionRegistry) -> Parsed<Option<PotionModel>> {
    match parse_bool(s) {
        Err(e) => Err(e),
        Ok((present, r1)) => if present {
            match parse_varint(r1) {
                Err(e) => Err(e),
                Ok((id, r2)) => if 0 <= id < reg.potions().len() {
                    Ok((Some(reg.potions()[id as int]), r2))
                } else {
                    Err(DecodeError::UnknownPotion(id))
                },
            }
        } else {
            Ok((None, r1))
        },
    }
}

/// Potion contents read from the wire; the potion is looked up by index.
pub open spec fn parse_potion_contents(s: Seq<u8>, reg: &PotionRegistry) -> Parsed<PotionContentsModel> {
    match parse_potion_field(s, reg) {
        Err(e) => Err(e),
        Ok((potion, r1)) => match parse_bool(r1) {
            Err(e) => Err(e),
            Ok((has_color, r2)) => match (if has_color {
                match parse_i32_be(r2) {
                    Err(e) => Err(e),
                    Ok((c, r)) => Ok((Some(c), r)),
                }
            } else {
                Ok((None, r2))
            }) {
                Err(e) => Err(e),
                Ok((custom_color, r3)) => match parse_count(r3) {
                    Err(e) => Err(e),
                    Ok((n, r4)) => match parse_instance_list(r4, n) {
                        Err(e) => Err(e),
                        Ok((custom_effects, r5)) => match parse_bool(r5) {
                            Err(e) => Err(e),
                            Ok((has_name, r6)) => if has_name {
                                match parse_string(r6) {
                                    Err(e) => Err(e),
                                    Ok((name, r7)) => Ok(
                                        (
                                            PotionContentsModel {
                                                potion,
                                                custom_color,
                                                custom_effects,
                                                custom_name: Some(name),
                                            },
                                            r7,
                                        ),
                                    ),
                                }
                            } else {
                                Ok(
                                    (
                                        PotionContentsModel {
                                            potion,
                                            custom_color,
                                            custom_effects,
                                            custom_name: None,
                                        },
                                        r6,
                                    ),
                                )
                            },
                        },
                    },
                },
            },
        },
    }
}

impl PotionContents {
    /// Appends the wire form; extra effects named only by key must be registered.
    pub fn write(&self, out: &mut Vec<u8>, registry: &MobEffectRegistry)
        requires
            registry.wf(),
            all_resolvable(self@.custom_effects, registry),
        ensures
            final(out)@ == old(out)@ + potion_contents_bytes(self@),
    {
        match self.potion {
            Some(p) => {
                write_bool(out, true);
                write_varint(out, p.id);
            },
            None => {
                write_bool(out, false);
            },
        }
        let ghost a = out@;
        match self.custom_color {
            Some(color) => {
                write_bool(out, true);
                write_i32_be(out, color);
            },
            None => {
                write_bool(out, false);
            },
        }
        let ghost b = out@;
        write_varint(out, self.custom_effects.len() as i32);
        write_instance_list(out, &self.custom_effects, registry);
        let ghost c = out@;
        match &self.custom_name {
            Some(name) => {
                write_bool(out, true);
                write_string(out, name.as_str());
            },
            None => {
                write_bool(out, false);
            },
        }
        assert(out@ =~= old(out)@ + potion_contents_bytes(self@));
    }
}

/// Reads the optional potion, looked up by index.
fn read_potion_field(r: &mut ByteReader, registry: &PotionRegistry) -> (res: Result<
    Option<PotionRef>,
    DecodeError,
>)
    requires
        old(r).wf(),
    ensures
        final(r).wf(),
        final(r).input() == old(r).input(),
        match parse_potion_field(old(r).rest(), registry) {
            Ok((v, rest)) => res is Ok && final(r).rest() == rest && match (res->Ok_0, v) {
                (Some(p), Some(m)) => p@ == m,
                (None, None) => true,
                _ => false,
            },
            Err(e) => res == Err::<Option<PotionRef>, DecodeError>(e),
        },
{
    let present = r.read_bool()?;
    if present {
        let id = r.read_varint()?;
        match registry.find_by_id(id) {
            Some(p) => Ok(Some(p)),
            None => Err(DecodeError::UnknownPotion(id)),
        }
    } else {
        Ok(None)
    }
}

/// Reads potion contents; the potion is looked up by index in the registry.
pub fn read_potion_contents(r: &mut ByteReader, registry: &PotionRegistry) -> (res: Result<
    PotionContents,
    DecodeError,
>)
    requires
        old(r).wf(),
    ensures
        final(r).wf(),
        final(r).input() == old(r).input(),
        reads_as(res, final(r).rest(), parse_potion_contents(old(r).rest(), registry)),
{
    let potion = read_potion_field(r, registry)?;
    let has_color = r.read_bool()?;
    let custom_color = if has_color {
        Some(r.read_i32_be()?)
    } else {
        None
    };
    let n = r.read_count()?;
    let custom_effects = read_instance_list(r, n)?;
    let has_name = r.read_bool()?;
    let custom_name = if has_name {
        Some(r.read_string()?)
    } else {
        None
    };
    Ok(PotionContents { potion, custom_color, custom_effects, custom_name })
}

/// The NBT form: `potion` (the potion's key text) when there is a potion,
/// `custom_color` (int) when there is one, and `custom_effects` (a list of
/// the effects' compounds, empty when there are none). The custom name is
/// not stored.
pub open spec fn potion_contents_nbt(t: NbtTag, c: PotionContentsModel) -> bool {
    let p: int = if c.potion is Some {
        1
    } else {
        0
    };
    let k: int = if c.custom_color is Some {
        1
    } else {
        0
    };
    &&& t matches NbtTag::Compound(cc)
    &&& cc.values@.len() == p + k + 1
    &&& (c.potion matches Some(pm) ==> cc.values@[0].0@ == "potion"@ && tag_string(cc.values@[0].1)
        == Some(identifier_text(pm.key)))
    &&& (c.custom_color matches Some(color) ==> cc.values@[p].0@ == "custom_color"@ && cc.values@[p].1
        == NbtTag::Int(color))
    &&& cc.values@[p + k].0@ == "custom_effects"@
    &&& cc.values@[p + k].1 matches NbtTag::List(l) && instance_list_nbt(l, c.custom_effects)
}

/// The prefix `minecraft:`.
pub open spec fn vanilla_prefix_text() -> Seq<char> {
    "minecraft:"@
}

/// The key under which a stored potion text is looked up: a vanilla path,
/// with every `minecraft:` taken out when the text starts with it.
pub open spec fn stored_potion_key(text: Seq<char>) -> IdentifierModel {
    let path = if text.len() >= vanilla_prefix_text().len() && text.take(vanilla_prefix_text().len() as int)
        == vanilla_prefix_text() {
        remove_all(text, vanilla_prefix_text())
    } else {
        text
    };
    IdentifierModel { namespace: vanilla_namespace(), path }
}

/// Potion contents read from NBT. Each entry is optional, but one that is
/// there must have its kind: `potion` a string naming a registered potion,
/// `custom_color` an int, `custom_effects` a list of compounds that all
/// read (an empty list does not), `custom_name` a string.
pub open spec fn potion_contents_from_nbt(
    t: NbtTag,
    potions: &PotionRegistry,
    effects: &MobEffectRegistry,
) -> Option<PotionContentsModel> {
    match t {
        NbtTag::Compound(cc) => {
            let v = cc.values@;
            let potion: Option<Option<PotionModel>> = match find_entry(v, "potion"@) {
                Some(pt) => match tag_string(pt) {
                    Some(text) => if potions.registered(stored_potion_key(text)) {
                        Some(Some(potions.potion_for(stored_potion_key(text))))
                    } else {
                        None
                    },
                    None => None,
                },
                None => Some(None),
            };
            let color: Option<Option<i32>> = match find_entry(v, "custom_color"@) {
                Some(ct) => match tag_int(ct) {
                    Some(x) => Some(Some(x)),
                    None => None,
                },
                None => Some(None),
            };
            let custom: Option<Seq<MobEffectInstanceModel>> = match find_entry(v, "custom_effects"@) {
                Some(NbtTag::List(NbtList::Compounds(cs))) => instances_from_compounds(cs@, effects),
                Some(_) => None,
                None => Some(Seq::empty()),
            };
            let name: Option<Option<Seq<char>>> = match find_entry(v, "custom_name"@) {
                Some(nt) => match tag_string(nt) {
                    Some(x) => Some(Some(x)),
                    None => None,
                },
                None => Some(None),
            };
            match (potion, color, custom, name) {
                (Some(potion), Some(custom_color), Some(custom_effects), Some(custom_name)) => Some(
                    PotionContentsModel { potion, custom_color, custom_effects, custom_name },
                ),
                _ => None,
            }
        },
        _ => None,
    }
}

impl PotionContents {
    /// The NBT form (see `potion_contents_nbt`).
    pub fn to_nbt_tag(self) -> (t: NbtTag)
        ensures
            potion_contents_nbt(t, self@),
    {
        let mut c = NbtCompound::new();
        if let Some(potion) = self.potion {
            c.insert("potion", NbtTag::String(potion.key.to_string()));
        }
        if let Some(custom_color) = self.custom_color {
            c.insert("custom_color", NbtTag::Int(custom_color));
        }
        c.insert("custom_effects", NbtTag::List(instances_to_nbt_list(&self.custom_effects)));
        NbtTag::Compound(c)
    }

    /// Reads potion contents from NBT (see `potion_contents_from_nbt`); the
    /// potion and the effects are looked up in their registries.
    pub fn from_nbt_tag(tag: &NbtTag, potions: &PotionRegistry, effects: &MobEffectRegistry) -> (r: Option<
        PotionContents,
    >)
        requires
            potions.wf(),
            effects.wf(),
        ensures
            r is Some <==> potion_contents_from_nbt(*tag, potions, effects) is Some,
            r matches Some(c) ==> c@ == potion_contents_from_nbt(*tag, potions, effects)->Some_0,
    {
        let cc = tag.as_compound()?;
        let potion = match cc.get("potion") {
            Some(pt) => {
                let text = pt.as_string()?;
                let prefix = "minecraft:";
                let n = text.as_str().unicode_len();
                let starts = n >= 10 && str_eq(text.as_str().substring_char(0, 10), prefix);
                proof {
                    reveal_strlit("minecraft:");
                    if n >= 10 {
                        assert(text@.take(10) =~= text@.subrange(0, 10));
                    }
                }
                let path = if starts {
                    remove_all_occurrences(text.as_str(), prefix)
                } else {
                    text.clone()
                };
                let key = Identifier::vanilla(path);
                match find_potion(potions, &key) {
                    Some(p) => Some(p),
                    None => {
                        return None;
                    },
                }
            },
            None => None,
        };
        let custom_color = match cc.get("custom_color") {
            Some(ct) => Some(ct.as_int()?),
            None => None,
        };
        let custom_effects = match cc.get("custom_effects") {
            Some(et) => {
                let l = et.as_list()?;
                match l {
                    NbtList::Compounds(_) => crate::mob_effect::instances_from_nbt_list(l, effects)?,
                    _ => {
                        return None;
                    },
                }
            },
            None => Vec::new(),
        };
        let custom_name = match cc.get("custom_name") {
            Some(nt) => Some(nt.as_string()?.clone()),
            None => None,
        };
        let r = PotionContents { potion, custom_color, custom_effects, custom_name };
        proof {
            if find_entry(cc.values@, "custom_effects"@) is None {
                assert(r@.custom_effects =~= Seq::<MobEffectInstanceModel>::empty());
            }
        }
        Some(r)
    }
}

/// The potion registered under `key`, if any.
fn find_potion(potions: &PotionRegistry, key: &Identifier) -> (r: Option<PotionRef>)
    requires
        potions.wf(),
    ensures
        r is Some <==> potions.registered(key@),
        r matches Some(p) ==> p@ == potions.potion_for(key@),
{
    if potions.has_key(key) {
        Some(potions.potion_by_key(key))
    } else {
        None
    }
}

/// A written optional potion reads back as itself when it stands in the
/// registry at its own id.
proof fn lemma_potion_field_roundtrip(p: Option<PotionModel>, reg: &PotionRegistry, rest: Seq<u8>)
    requires
        p matches Some(p) ==> 0 <= p.id < reg.potions().len() && reg.potions()[p.id as int] == p,
    ensures
        parse_potion_field(potion_field_bytes(p) + rest, reg) == Ok::<
            (Option<PotionModel>, Seq<u8>),
            DecodeError,
        >((p, rest)),
{
    match p {
        Some(q) => {
            crate::codec::lemma_bool_roundtrip(true, varint_encode(q.id) + rest);
            assert(potion_field_bytes(p) + rest =~= seq![bool_byte(true)] + (varint_encode(q.id)
                + rest));
            crate::codec::lemma_varint_roundtrip(q.id, rest);
        },
        None => {
            crate::codec::lemma_bool_roundtrip(false, rest);
        },
    }
}

/// A written optional color reads back as its presence and then itself.
proof fn lemma_color_field_roundtrip(c: Option<i32>, rest: Seq<u8>)
    ensures
        parse_bool(color_field_bytes(c) + rest) == Ok::<(bool, Seq<u8>), DecodeError>(
            (
                c is Some,
                match c {
                    Some(x) => i32_be_bytes(x) + rest,
                    None => rest,
                },
            ),
        ),
        c matches Some(x) ==> parse_i32_be(i32_be_bytes(x) + rest) == Ok::<(i32, Seq<u8>), DecodeError>(
            (x, rest),
        ),
{
    match c {
        Some(x) => {
            crate::codec::lemma_bool_roundtrip(true, i32_be_bytes(x) + rest);
            assert(color_field_bytes(c) + rest =~= seq![bool_byte(true)] + (i32_be_bytes(x) + rest));
            crate::codec::lemma_i32_be_roundtrip(x, rest);
        },
        None => {
            crate::codec::lemma_bool_roundtrip(false, rest);
        },
    }
}

/// A written optional name reads back as its presence and then itself,
/// when its UTF-8 length fits an `i32`.
proof fn lemma_name_field_roundtrip(n: Option<Seq<char>>, rest: Seq<u8>)
    requires
        n matches Some(n) ==> vstd::utf8::encode_utf8(n).len() <= i32::MAX,
    ensures
        parse_bool(name_field_bytes(n) + rest) == Ok::<(bool, Seq<u8>), DecodeError>(
            (
                n is Some,
                match n {
                    Some(x) => string_bytes(x) + rest,
                    None => rest,
                },
            ),
        ),
        n matches Some(x) ==> parse_string(string_bytes(x) + rest) == Ok::<
            (Seq<char>, Seq<u8>),
            DecodeError,
        >((x, rest)),
{
    match n {
        Some(x) => {
            crate::codec::lemma_bool_roundtrip(true, string_bytes(x) + rest);
            assert(name_field_bytes(n) + rest =~= seq![bool_byte(true)] + (string_bytes(x) + rest));
            crate::codec::lemma_string_roundtrip(x, rest);
        },
        None => {
            crate::codec::lemma_bool_roundtrip(false, rest);
        },
    }
}

/// Written potion contents read back as themselves, whatever follows, when
/// the potion stands in the registry at its own id, there are no extra
/// effects (they are written with fixed-width numbers but read as VarInts)
/// and the name's UTF-8 length fits an `i32`.
#[verifier::rlimit(60)]
pub proof fn lemma_potion_contents_roundtrip(c: PotionContentsModel, reg: &PotionRegistry, rest: Seq<u8>)
    requires
        c.potion matches Some(p) ==> 0 <= p.id < reg.potions().len() && reg.potions()[p.id as int] == p,
        c.custom_effects.len() == 0,
        c.custom_name matches Some(n) ==> vstd::utf8::encode_utf8(n).len() <= i32::MAX,
    ensures
        parse_potion_contents(potion_contents_bytes(c) + rest, reg) == Ok::<
            (PotionContentsModel, Seq<u8>),
            DecodeError,
        >((c, rest)),
{
    assert(c.custom_effects =~= Seq::<MobEffectInstanceModel>::empty());
    let r5 = name_field_bytes(c.custom_name) + rest;
    let r3 = varint_encode(0) + r5;
    let r1 = color_field_bytes(c.custom_color) + r3;
    assert(potion_contents_bytes(c) + rest =~= potion_field_bytes(c.potion) + r1);
    lemma_potion_field_roundtrip(c.potion, reg, r1);
    lemma_color_field_roundtrip(c.custom_color, r3);
    crate::codec::lemma_varint_roundtrip(0, r5);
    assert(parse_count(r3) == Ok::<(nat, Seq<u8>), DecodeError>((0, r5)));
    assert(parse_instance_list(r5, 0) == Ok::<(Seq<MobEffectInstanceModel>, Seq<u8>), DecodeError>(
        (Seq::empty(), r5),
    ));
    lemma_name_field_roundtrip(c.custom_name, rest);
}

/// The NBT form of potion contents holds the potion's key text under
/// `potion` exactly when there is a potion, the color as an int under
/// `custom_color` exactly when there is one, and the effect list under
/// `custom_effects`; it holds no name.
pub proof fn lemma_potion_contents_nbt_fields(t: NbtTag, c: PotionContentsModel)
    requires
        potion_contents_nbt(t, c),
    ensures
        ({
            let v = t->Compound_0.values@;
            &&& find_entry(v, "potion"@) is Some <==> c.potion is Some
            &&& (c.potion matches Some(p) ==> entry_string(t->Compound_0, "potion"@) == Some(
                identifier_text(p.key),
            ))
            &&& entry_int(t->Compound_0, "custom_color"@) == c.custom_color
            &&& find_entry(v, "custom_color"@) is Some <==> c.custom_color is Some
            &&& find_entry(v, "custom_effects"@) matches Some(NbtTag::List(l)) && instance_list_nbt(
                l,
                c.custom_effects,
            )
            &&& find_entry(v, "custom_name"@) is None
        }),
{
    reveal_strlit("potion");
    reveal_strlit("custom_color");
    reveal_strlit("custom_effects");
    reveal_strlit("custom_name");
    let v = t->Compound_0.values@;
    let p: int = if c.potion is Some {
        1
    } else {
        0
    };
    let k: int = if c.custom_color is Some {
        1
    } else {
        0
    };
    assert("potion"@.len() == 6);
    assert("custom_color"@.len() == 12);
    assert("custom_effects"@.len() == 14);
    assert("custom_name"@.len() == 11);
    assert("custom_color"@[7] == 'c' && "custom_effects"@[7] == 'e' && "custom_name"@[7] == 'n');
    if p == 1 {
        assert(v[0].0@.len() == 6);
        crate::nbt::lemma_find_entry_at(v, 0);
    } else {
        assert forall|j: int| 0 <= j < v.len() implies (#[trigger] v[j]).0@ != "potion"@ by {
            assert(v[j].0@.len() != 6);
        }
        crate::nbt::lemma_find_entry_absent(v, "potion"@);
    }
    if k == 1 {
        assert(v[p].0@ == "custom_color"@);
        crate::nbt::lemma_find_entry_at(v, p);
    } else {
        assert forall|j: int| 0 <= j < v.len() implies (#[trigger] v[j]).0@ != "custom_color"@ by {
            assert(v[j].0@.len() != 12);
        }
        crate::nbt::lemma_find_entry_absent(v, "custom_color"@);
    }
    assert(v[p + k].0@ == "custom_effects"@);
    crate::nbt::lemma_find_entry_at(v, p + k);
    assert forall|j: int| 0 <= j < v.len() implies (#[trigger] v[j]).0@ != "custom_name"@ by {
        assert(v[j].0@.len() != 11);
    }
    crate::nbt::lemma_find_entry_absent(v, "custom_name"@);
}

/// Reading a presence byte and a potion index, a presence byte and four
/// color bytes, a zero effect count and a presence byte and a name gives
/// the potion at that index, that color, no extra effects and that name;
/// reading three zero presence bytes around a zero count gives none of them.
#[verifier::rlimit(60)]
pub proof fn lemma_read_potion_contents_fields(
    id: i32,
    color: i32,
    name: Seq<char>,
    reg: &PotionRegistry,
    rest: Seq<u8>,
)
    requires
        0 <= id < reg.potions().len(),
        vstd::utf8::encode_utf8(name).len() <= i32::MAX,
    ensures
        parse_potion_contents(
            seq![1u8] + varint_encode(id) + seq![1u8] + i32_be_bytes(color) + varint_encode(0) + seq![1u8]
                + string_bytes(name) + rest,
            reg,
        ) == Ok::<(PotionContentsModel, Seq<u8>), DecodeError>(
            (
                PotionContentsModel {
                    potion: Some(reg.potions()[id as int]),
                    custom_color: Some(color),
                    custom_effects: Seq::empty(),
                    custom_name: Some(name),
                },
                rest,
            ),
        ),
        parse_potion_contents(seq![0u8, 0u8] + varint_encode(0) + seq![0u8] + rest, reg) == Ok::<
            (PotionContentsModel, Seq<u8>),
            DecodeError,
        >(
            (
                PotionContentsModel {
                    potion: None,
                    custom_color: None,
                    custom_effects: Seq::empty(),
                    custom_name: None,
                },
                rest,
            ),
        ),
{
    let r5 = seq![1u8] + string_bytes(name) + rest;
    let r3 = varint_encode(0) + r5;
    let r1 = seq![1u8] + i32_be_bytes(color) + r3;
    assert(seq![1u8] + varint_encode(id) + seq![1u8] + i32_be_bytes(color) + varint_encode(0) + seq![1u8]
        + string_bytes(name) + rest =~= seq![1u8] + (varint_encode(id) + r1));
    crate::codec::lemma_bool_roundtrip(true, varint_encode(id) + r1);
    crate::codec::lemma_varint_roundtrip(id, r1);
    assert(parse_potion_field(seq![1u8] + (varint_encode(id) + r1), reg) == Ok::<
        (Option<PotionModel>, Seq<u8>),
        DecodeError,
    >((Some(reg.potions()[id as int]), r1)));
    assert(r1 =~= color_field_bytes(Some(color)) + r3);
    lemma_color_field_roundtrip(Some(color), r3);
    crate::codec::lemma_varint_roundtrip(0, r5);
    assert(parse_count(r3) == Ok::<(nat, Seq<u8>), DecodeError>((0, r5)));
    assert(parse_instance_list(r5, 0) == Ok::<(Seq<MobEffectInstanceModel>, Seq<u8>), DecodeError>(
        (Seq::empty(), r5),
    ));
    assert(r5 =~= name_field_bytes(Some(name)) + rest);
    lemma_name_field_roundtrip(Some(name), rest);
    let none = PotionContentsModel {
        potion: None,
        custom_color: None,
        custom_effects: Seq::empty(),
        custom_name: None,
    };
    assert(potion_contents_bytes(none) + rest =~= seq![0u8, 0u8] + varint_encode(0) + seq![0u8] + rest);
    lemma_potion_contents_roundtrip(none, reg, rest);
}

} // verus!

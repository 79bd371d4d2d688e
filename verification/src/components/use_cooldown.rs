//! The use-cooldown component.
use vstd::prelude::*;
use crate::nbt::{entry_float, find_entry, lemma_find_entry_at, tag_string, NbtCompound, NbtTag};
use crate::identifier::parse_identifier_text;
use crate::codec::{
    bool_byte, lemma_bool_roundtrip, lemma_string_roundtrip, lemma_u32_be_roundtrip, parse_bool,
    parse_u32_be, reads_as, string_bytes, u32_be_bytes, write_bool, write_u32_be, ByteReader,
    DecodeError, Parsed,
};
use crate::identifier::{
    identifier_text, lemma_identifier_text_roundtrip, no_colon, parse_identifier, read_identifier,
    Identifier, IdentifierModel,
};

verus! {

/// How long an item cannot be used again after use, and the group that
/// shares the cooldown.
#[derive(Debug, PartialEq)]
pub struct UseCooldown {
    /// The cooldown in seconds (the bit pattern of an `f32`).
    pub seconds_bits: u32,
    pub cooldown_group: Option<Identifier>,
}

/// A use cooldown as the contracts see it.
pub struct UseCooldownModel {
    pub seconds_bits: u32,
    pub cooldown_group: Option<IdentifierModel>,
}

impl View for UseCooldown {
    type V = UseCooldownModel;

    open spec fn view(&self) -> UseCooldownModel {
        UseCooldownModel {
            seconds_bits: self.seconds_bits,
            cooldown_group: match &self.cooldown_group {
                Some(g) => Some(g@),
                None => None,
            },
        }
    }
}

impl Clone for UseCooldown {
    fn clone(&self) -> (r: Self)
        ensures
            r@ == self@,
    {
        let cooldown_group = match &self.cooldown_group {
            Some(g) => Some(g.clone()),
            None => None,
        };
        UseCooldown { seconds_bits: self.seconds_bits, cooldown_group }
    }
}

/// The wire form: the seconds' four bytes, then a presence byte and the
/// group's key text.
pub open spec fn use_cooldown_bytes(u: UseCooldownModel) -> Seq<u8> {
    u32_be_bytes(u.seconds_bits) + match u.cooldown_group {
        Some(g) => seq![bool_byte(true)] + string_bytes(identifier_text(g)),
        None => seq![bool_byte(false)],
    }
}

/// A use cooldown read from the wire.
pub open spec fn parse_use_cooldown(s: Seq<u8>) -> Parsed<UseCooldownModel> {
    match parse_u32_be(s) {
        Err(e) => Err(e),
        Ok((seconds_bits, r1)) => match parse_bool(r1) {
            Err(e) => Err(e),
            Ok((present, r2)) => if present {
                match parse_identifier(r2) {
                    Err(e) => Err(e),
                    Ok((g, r3)) => Ok((UseCooldownModel { seconds_bits, cooldown_group: Some(g) }, r3)),
                }
            } else {
                Ok((UseCooldownModel { seconds_bits, cooldown_group: None }, r2))
            },
        },
    }
}

impl UseCooldown {
    /// Appends the wire form.
    pub fn write(&self, out: &mut Vec<u8>)
        ensures
            final(out)@ == old(out)@ + use_cooldown_bytes(self@),
    {
        write_u32_be(out, self.seconds_bits);
        match &self.cooldown_group {
            Some(g) => {
                write_bool(out, true);
                g.write(out);
            },
            None => {
                write_bool(out, false);
            },
        }
        assert(out@ =~= old(out)@ + use_cooldown_bytes(self@));
    }
}

/// Reads a use cooldown.
pub fn read_use_cooldown(r: &mut ByteReader) -> (res: Result<UseCooldown, DecodeError>)
    requires
        old(r).wf(),
    ensures
        final(r).wf(),
        final(r).input() == old(r).input(),
        reads_as(res, final(r).rest(), parse_use_cooldown(old(r).rest())),
{
    let seconds_bits = r.read_u32_be()?;
    let present = r.read_bool()?;
    let cooldown_group = if present {
        Some(read_identifier(r)?)
    } else {
        None
    };
    Ok(UseCooldown { seconds_bits, cooldown_group })
}

/// Reading a written use cooldown gives it back, whatever follows, when the
/// group's namespace has no colon and its text fits in an `i32` length.
pub proof fn lemma_use_cooldown_roundtrip(u: UseCooldownModel, rest: Seq<u8>)
    requires
        u.cooldown_group matches Some(g) ==> no_colon(g.namespace) && vstd::utf8::encode_utf8(
            identifier_text(g),
        ).len() <= i32::MAX,
    ensures
        parse_use_cooldown(use_cooldown_bytes(u) + rest) == Ok::<
            (UseCooldownModel, Seq<u8>),
            DecodeError,
        >((u, rest)),
{
    match u.cooldown_group {
        Some(g) => {
            let r2 = string_bytes(identifier_text(g)) + rest;
            let r1 = seq![bool_byte(true)] + r2;
            assert(use_cooldown_bytes(u) + rest =~= u32_be_bytes(u.seconds_bits) + r1);
            lemma_u32_be_roundtrip(u.seconds_bits, r1);
            lemma_bool_roundtrip(true, r2);
            lemma_string_roundtrip(identifier_text(g), rest);
            lemma_identifier_text_roundtrip(g);
        },
        None => {
            let r1 = seq![bool_byte(false)] + rest;
            assert(use_cooldown_bytes(u) + rest =~= u32_be_bytes(u.seconds_bits) + r1);
            lemma_u32_be_roundtrip(u.seconds_bits, r1);
            lemma_bool_roundtrip(false, rest);
        },
    }
}

/// The NBT form: a compound of `seconds` (float) and, when there is a
/// group, `cooldown_group` (the group's key text).
pub open spec fn use_cooldown_nbt(t: NbtTag, u: UseCooldownModel) -> bool {
    &&& t matches NbtTag::Compound(c)
    &&& c.values@[0].0@ == "seconds"@ && c.values@[0].1 == NbtTag::Float(u.seconds_bits)
    &&& match u.cooldown_group {
        Some(g) => c.values@.len() == 2 && c.values@[1].0@ == "cooldown_group"@ && tag_string(
            c.values@[1].1,
        ) == Some(identifier_text(g)),
        None => c.values@.len() == 1,
    }
}

/// A use cooldown read from NBT: a float `seconds` and a `cooldown_group`
/// entry that must be there; a group that is not a string tag reads as no
/// group.
pub open spec fn use_cooldown_from_nbt(t: NbtTag) -> Option<UseCooldownModel> {
    match t {
        NbtTag::Compound(c) => match (entry_float(c, "seconds"@), find_entry(c.values@, "cooldown_group"@)) {
            (Some(seconds_bits), Some(g)) => Some(
                UseCooldownModel {
                    seconds_bits,
                    cooldown_group: match tag_string(g) {
                        Some(text) => Some(parse_identifier_text(text)),
                        None => None,
                    },
                },
            ),
            _ => None,
        },
        _ => None,
    }
}

impl UseCooldown {
    /// The NBT form.
    pub fn to_nbt_tag(self) -> (t: NbtTag)
        ensures
            use_cooldown_nbt(t, self@),
    {
        let mut c = NbtCompound::new();
        c.insert("seconds", NbtTag::Float(self.seconds_bits));
        if let Some(g) = self.cooldown_group {
            c.insert("cooldown_group", NbtTag::String(g.to_string()));
        }
        NbtTag::Compound(c)
    }

    /// Reads a use cooldown from NBT.
    pub fn from_nbt_tag(tag: &NbtTag) -> (r: Option<UseCooldown>)
        ensures
            r is Some <==> use_cooldown_from_nbt(*tag) is Some,
            r matches Some(u) ==> u@ == use_cooldown_from_nbt(*tag)->Some_0,
    {
        let c = tag.as_compound()?;
        let seconds_bits = c.get_float("seconds")?;
        let g = c.get("cooldown_group")?;
        let cooldown_group = match g.as_string() {
            Some(text) => Some(Identifier::parse(text.as_str())),
            None => None,
        };
        Some(UseCooldown { seconds_bits, cooldown_group })
    }
}

/// Reading the NBT form of a use cooldown with a group gives it back, when
/// the group's namespace has no colon. (Without a group the form has no
/// `cooldown_group` entry, and reading it fails.)
pub proof fn lemma_use_cooldown_nbt_roundtrip(u: UseCooldownModel, t: NbtTag)
    requires
        use_cooldown_nbt(t, u),
        u.cooldown_group matches Some(g) && no_colon(g.namespace),
    ensures
        use_cooldown_from_nbt(t) == Some(u),
{
    reveal_strlit("seconds");
    reveal_strlit("cooldown_group");
    assert("seconds"@.len() == 7);
    assert("cooldown_group"@.len() == 14);
    let v = t->Compound_0.values@;
    lemma_find_entry_at(v, 0);
    lemma_find_entry_at(v, 1);
    lemma_identifier_text_roundtrip(u.cooldown_group->Some_0);
}

/// Reading four bytes, a zero byte gives a cooldown of those seconds and no
/// group; four bytes, a one byte and a text give those seconds and the group
/// that the text names.
pub proof fn lemma_read_use_cooldown_fields(seconds_bits: u32, group: Option<Seq<char>>, rest: Seq<u8>)
    requires
        group matches Some(t) ==> vstd::utf8::encode_utf8(t).len() <= i32::MAX,
    ensures
        parse_use_cooldown(
            u32_be_bytes(seconds_bits) + match group {
                Some(t) => seq![1u8] + string_bytes(t),
                None => seq![0u8],
            } + rest,
        ) == Ok::<(UseCooldownModel, Seq<u8>), DecodeError>(
            (
                UseCooldownModel {
                    seconds_bits,
                    cooldown_group: match group {
                        Some(t) => Some(parse_identifier_text(t)),
                        None => None,
                    },
                },
                rest,
            ),
        ),
{
    match group {
        Some(t) => {
            let r1 = seq![1u8] + (string_bytes(t) + rest);
            assert(u32_be_bytes(seconds_bits) + (seq![1u8] + string_bytes(t)) + rest =~= u32_be_bytes(
                seconds_bits,
            ) + r1);
            lemma_u32_be_roundtrip(seconds_bits, r1);
            lemma_bool_roundtrip(true, string_bytes(t) + rest);
            lemma_string_roundtrip(t, rest);
        },
        None => {
            let r1 = seq![0u8] + rest;
            assert(u32_be_bytes(seconds_bits) + seq![0u8] + rest =~= u32_be_bytes(seconds_bits) + r1);
            lemma_u32_be_roundtrip(seconds_bits, r1);
            lemma_bool_roundtrip(false, rest);
        },
    }
}

/// A use cooldown read from NBT takes its seconds from the float under
/// `seconds` and its group from the text under `cooldown_group`.
pub proof fn lemma_use_cooldown_from_nbt_fields(c: NbtCompound)
    ensures
        use_cooldown_from_nbt(NbtTag::Compound(c)) matches Some(u) ==> {
            &&& entry_float(c, "seconds"@) == Some(u.seconds_bits)
            &&& find_entry(c.values@, "cooldown_group"@) matches Some(g) && u.cooldown_group == (match tag_string(g) {
                Some(text) => Some(parse_identifier_text(text)),
                None => None,
            })
        },
{
}

} // verus!

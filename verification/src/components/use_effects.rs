//! The use-effects component: what holding an item in use changes.
use vstd::prelude::*;
use crate::nbt::{
    bool_nbt_byte, entry_byte, entry_float, lemma_find_entry_at, NbtCompound, NbtTag,
};
use crate::codec::{
    bool_byte, lemma_bool_roundtrip, lemma_u32_be_roundtrip, parse_bool, parse_u32_be, reads_as,
    u32_be_bytes, write_bool, write_u32_be, ByteReader, DecodeError, Parsed,
};

verus! {

/// Whether the user may sprint and makes vibrations while using the item,
/// and how fast it moves.
#[derive(Debug, Clone, PartialEq, Eq, Structural)]
pub struct UseEffects {
    pub can_sprint: bool,
    pub interaction_vibrations: bool,
    /// The speed multiplier (the bit pattern of an `f32`).
    pub speed_multiplier_bits: u32,
}

impl View for UseEffects {
    type V = UseEffects;

    open spec fn view(&self) -> UseEffects {
        *self
    }
}

/// The wire form: two flag bytes and the multiplier's four bytes.
pub open spec fn use_effects_bytes(u: UseEffects) -> Seq<u8> {
    seq![bool_byte(u.can_sprint), bool_byte(u.interaction_vibrations)] + u32_be_bytes(
        u.speed_multiplier_bits,
    )
}

/// Use effects read from the wire.
pub open spec fn parse_use_effects(s: Seq<u8>) -> Parsed<UseEffects> {
    match parse_bool(s) {
        Err(e) => Err(e),
        Ok((can_sprint, r1)) => match parse_bool(r1) {
            Err(e) => Err(e),
            Ok((interaction_vibrations, r2)) => match parse_u32_be(r2) {
                Err(e) => Err(e),
                Ok((speed_multiplier_bits, r3)) => Ok(
                    (UseEffects { can_sprint, interaction_vibrations, speed_multiplier_bits }, r3),
                ),
            },
        },
    }
}

impl UseEffects {
    /// Appends the wire form.
    pub fn write(&self, out: &mut Vec<u8>)
        ensures
            final(out)@ == old(out)@ + use_effects_bytes(*self),
    {
        write_bool(out, self.can_sprint);
        write_bool(out, self.interaction_vibrations);
        write_u32_be(out, self.speed_multiplier_bits);
        assert(out@ =~= old(out)@ + use_effects_bytes(*self));
    }
}

/// Reads use effects.
pub fn read_use_effects(r: &mut ByteReader) -> (res: Result<UseEffects, DecodeError>)
    requires
        old(r).wf(),
    ensures
        final(r).wf(),
        final(r).input() == old(r).input(),
        reads_as(res, final(r).rest(), parse_use_effects(old(r).rest())),
{
    let can_sprint = r.read_bool()?;
    let interaction_vibrations = r.read_bool()?;
    let speed_multiplier_bits = r.read_u32_be()?;
    Ok(UseEffects { can_sprint, interaction_vibrations, speed_multiplier_bits })
}

/// Reading written use effects gives them back, whatever follows.
pub proof fn lemma_use_effects_roundtrip(u: UseEffects, rest: Seq<u8>)
    ensures
        parse_use_effects(use_effects_bytes(u) + rest) == Ok::<(UseEffects, Seq<u8>), DecodeError>(
            (u, rest),
        ),
{
    let r2 = u32_be_bytes(u.speed_multiplier_bits) + rest;
    let r1 = seq![bool_byte(u.interaction_vibrations)] + r2;
    assert(use_effects_bytes(u) + rest =~= seq![bool_byte(u.can_sprint)] + r1);
    lemma_bool_roundtrip(u.can_sprint, r1);
    lemma_bool_roundtrip(u.interaction_vibrations, r2);
    lemma_u32_be_roundtrip(u.speed_multiplier_bits, rest);
}

/// The NBT form: a compound of `can_sprint` (byte), `interaction_vibrations`
/// (byte) and `speed_multiplier` (float), in that order.
pub open spec fn use_effects_nbt(t: NbtTag, u: UseEffects) -> bool {
    &&& t matches NbtTag::Compound(c)
    &&& c.values@.len() == 3
    &&& c.values@[0].0@ == "can_sprint"@ && c.values@[0].1 == NbtTag::Byte(bool_nbt_byte(u.can_sprint))
    &&& c.values@[1].0@ == "interaction_vibrations"@ && c.values@[1].1 == NbtTag::Byte(
        bool_nbt_byte(u.interaction_vibrations),
    )
    &&& c.values@[2].0@ == "speed_multiplier"@ && c.values@[2].1 == NbtTag::Float(
        u.speed_multiplier_bits,
    )
}

/// Use effects read from NBT: two bytes (true unless zero) and a float.
pub open spec fn use_effects_from_nbt(t: NbtTag) -> Option<UseEffects> {
    match t {
        NbtTag::Compound(c) => match (
            entry_byte(c, "can_sprint"@),
            entry_byte(c, "interaction_vibrations"@),
            entry_float(c, "speed_multiplier"@),
        ) {
            (Some(a), Some(b), Some(speed_multiplier_bits)) => Some(
                UseEffects {
                    can_sprint: a != 0,
                    interaction_vibrations: b != 0,
                    speed_multiplier_bits,
                },
            ),
            _ => None,
        },
        _ => None,
    }
}

impl UseEffects {
    /// The NBT form.
    pub fn to_nbt_tag(self) -> (t: NbtTag)
        ensures
            use_effects_nbt(t, self),
    {
        let mut c = NbtCompound::new();
        c.insert("can_sprint", NbtTag::Byte(if self.can_sprint { 1 } else { 0 }));
        c.insert(
            "interaction_vibrations",
            NbtTag::Byte(if self.interaction_vibrations { 1 } else { 0 }),
        );
        c.insert("speed_multiplier", NbtTag::Float(self.speed_multiplier_bits));
        NbtTag::Compound(c)
    }

    /// Reads use effects from NBT.
    pub fn from_nbt_tag(tag: &NbtTag) -> (r: Option<UseEffects>)
        ensures
            r == use_effects_from_nbt(*tag),
    {
        let c = tag.as_compound()?;
        let a = c.get_byte("can_sprint")?;
        let b = c.get_byte("interaction_vibrations")?;
        let speed_multiplier_bits = c.get_float("speed_multiplier")?;
        Some(UseEffects { can_sprint: a != 0, interaction_vibrations: b != 0, speed_multiplier_bits })
    }
}

/// Reading the NBT form of use effects gives them back.
pub proof fn lemma_use_effects_nbt_roundtrip(u: UseEffects, t: NbtTag)
    requires
        use_effects_nbt(t, u),
    ensures
        use_effects_from_nbt(t) == Some(u),
{
    reveal_strlit("can_sprint");
    reveal_strlit("interaction_vibrations");
    reveal_strlit("speed_multiplier");
    assert("can_sprint"@.len() == 10);
    assert("interaction_vibrations"@.len() == 22);
    assert("speed_multiplier"@.len() == 16);
    let v = t->Compound_0.values@;
    lemma_find_entry_at(v, 0);
    lemma_find_entry_at(v, 1);
    lemma_find_entry_at(v, 2);
}

/// Reading two flag bytes and four bytes, in that order, gives use effects
/// whose first flag is `can_sprint`, whose second is
/// `interaction_vibrations`, and whose multiplier is those four bytes.
pub proof fn lemma_read_use_effects_fields(
    can_sprint: bool,
    interaction_vibrations: bool,
    speed_multiplier_bits: u32,
    rest: Seq<u8>,
)
    ensures
        parse_use_effects(
            seq![bool_byte(can_sprint), bool_byte(interaction_vibrations)] + u32_be_bytes(
                speed_multiplier_bits,
            ) + rest,
        ) == Ok::<(UseEffects, Seq<u8>), DecodeError>(
            (UseEffects { can_sprint, interaction_vibrations, speed_multiplier_bits }, rest),
        ),
{
    let r2 = u32_be_bytes(speed_multiplier_bits) + rest;
    let r1 = seq![bool_byte(interaction_vibrations)] + r2;
    assert(seq![bool_byte(can_sprint), bool_byte(interaction_vibrations)] + u32_be_bytes(
        speed_multiplier_bits,
    ) + rest =~= seq![bool_byte(can_sprint)] + r1);
    lemma_bool_roundtrip(can_sprint, r1);
    lemma_bool_roundtrip(interaction_vibrations, r2);
    lemma_u32_be_roundtrip(speed_multiplier_bits, rest);
}

/// Use effects read from NBT take each field from the entry of its own
/// name: each flag is set exactly when the byte under its name is not
/// zero, and the multiplier is the float under `speed_multiplier`.
pub proof fn lemma_use_effects_from_nbt_fields(c: NbtCompound)
    ensures
        use_effects_from_nbt(NbtTag::Compound(c)) matches Some(u) ==> {
            &&& entry_byte(c, "can_sprint"@) matches Some(b) && u.can_sprint == (b != 0)
            &&& entry_byte(c, "interaction_vibrations"@) matches Some(b) && u.interaction_vibrations
                == (b != 0)
            &&& entry_float(c, "speed_multiplier"@) == Some(u.speed_multiplier_bits)
        },
{
}

} // verus!

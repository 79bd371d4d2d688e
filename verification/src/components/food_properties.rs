//! The food component.
use vstd::prelude::*;
use crate::nbt::{bool_nbt_byte, find_entry, entry_byte, entry_float, entry_int, NbtCompound, NbtTag};
use crate::codec::{
    bool_byte, lemma_bool_roundtrip, lemma_u32_be_roundtrip, lemma_varint_roundtrip, parse_bool,
    parse_u32_be, parse_varint, reads_as, u32_be_bytes, varint_encode, write_bool, write_u32_be,
    write_varint, ByteReader, DecodeError, Parsed,
};

verus! {

/// How much a food restores, and whether it can be eaten when not hungry.
#[derive(Debug, Clone, PartialEq, Eq, Structural)]
pub struct FoodProperties {
    pub nutrition: i32,
    /// The saturation (the bit pattern of an `f32`).
    pub saturation_bits: u32,
    pub can_always_eat: bool,
}

impl View for FoodProperties {
    type V = FoodProperties;

    open spec fn view(&self) -> FoodProperties {
        *self
    }
}

/// The wire form: nutrition as a VarInt, the saturation's four bytes, and a flag byte.
pub open spec fn food_properties_bytes(f: FoodProperties) -> Seq<u8> {
    varint_encode(f.nutrition) + u32_be_bytes(f.saturation_bits) + seq![bool_byte(f.can_always_eat)]
}

/// Food properties read from the wire.
pub open spec fn parse_food_properties(s: Seq<u8>) -> Parsed<FoodProperties> {
    match parse_varint(s) {
        Err(e) => Err(e),
        Ok((nutrition, r1)) => match parse_u32_be(r1) {
            Err(e) => Err(e),
            Ok((saturation_bits, r2)) => match parse_bool(r2) {
                Err(e) => Err(e),
                Ok((can_always_eat, r3)) => Ok(
                    (FoodProperties { nutrition, saturation_bits, can_always_eat }, r3),
                ),
            },
        },
    }
}

impl FoodProperties {
    /// Appends the wire form.
    pub fn write(&self, out: &mut Vec<u8>)
        ensures
            final(out)@ == old(out)@ + food_properties_bytes(*self),
    {
        write_varint(out, self.nutrition);
        write_u32_be(out, self.saturation_bits);
        write_bool(out, self.can_always_eat);
        assert(out@ =~= old(out)@ + food_properties_bytes(*self));
    }
}

/// Reads food properties.
pub fn read_food_properties(r: &mut ByteReader) -> (res: Result<FoodProperties, DecodeError>)
    requires
        old(r).wf(),
    ensures
        final(r).wf(),
        final(r).input() == old(r).input(),
        reads_as(res, final(r).rest(), parse_food_properties(old(r).rest())),
{
    let nutrition = r.read_varint()?;
    let saturation_bits = r.read_u32_be()?;
    let can_always_eat = r.read_bool()?;
    Ok(FoodProperties { nutrition, saturation_bits, can_always_eat })
}

/// Reading written food properties gives them back, whatever follows.
pub proof fn lemma_food_properties_roundtrip(f: FoodProperties, rest: Seq<u8>)
    ensures
        parse_food_properties(food_properties_bytes(f) + rest) == Ok::<
            (FoodProperties, Seq<u8>),
            DecodeError,
        >((f, rest)),
{
    let b = seq![bool_byte(f.can_always_eat)];
    let r2 = b + rest;
    let r1 = u32_be_bytes(f.saturation_bits) + r2;
    assert(food_properties_bytes(f) + rest =~= varint_encode(f.nutrition) + r1);
    lemma_varint_roundtrip(f.nutrition, r1);
    lemma_u32_be_roundtrip(f.saturation_bits, r2);
    lemma_bool_roundtrip(f.can_always_eat, rest);
}

/// The NBT form: a compound of `nutrition` (int), `saturation` (float) and
/// `can_always_eat` (byte), in that order.
pub open spec fn food_properties_nbt(t: NbtTag, f: FoodProperties) -> bool {
    &&& t matches NbtTag::Compound(c)
    &&& c.values@.len() == 3
    &&& c.values@[0].0@ == "nutrition"@ && c.values@[0].1 == NbtTag::Int(f.nutrition)
    &&& c.values@[1].0@ == "saturation"@ && c.values@[1].1 == NbtTag::Float(f.saturation_bits)
    &&& c.values@[2].0@ == "can_always_eat"@ && c.values@[2].1 == NbtTag::Byte(
        bool_nbt_byte(f.can_always_eat),
    )
}

/// Food properties read from NBT: a compound with an int `nutrition`, a
/// float `saturation` and a byte `can_always_eat` (true unless zero).
pub open spec fn food_properties_from_nbt(t: NbtTag) -> Option<FoodProperties> {
    match t {
        NbtTag::Compound(c) => match (
            entry_int(c, "nutrition"@),
            entry_float(c, "saturation"@),
            entry_byte(c, "can_always_eat"@),
        ) {
            (Some(nutrition), Some(saturation_bits), Some(b)) => Some(
                FoodProperties { nutrition, saturation_bits, can_always_eat: b != 0 },
            ),
            _ => None,
        },
        _ => None,
    }
}

impl FoodProperties {
    /// The NBT form.
    pub fn to_nbt_tag(self) -> (t: NbtTag)
        ensures
            food_properties_nbt(t, self),
    {
        let mut c = NbtCompound::new();
        c.insert("nutrition", NbtTag::Int(self.nutrition));
        c.insert("saturation", NbtTag::Float(self.saturation_bits));
        c.insert("can_always_eat", NbtTag::Byte(if self.can_always_eat { 1 } else { 0 }));
        NbtTag::Compound(c)
    }

    /// Reads food properties from NBT.
    pub fn from_nbt_tag(tag: &NbtTag) -> (r: Option<FoodProperties>)
        ensures
            r == food_properties_from_nbt(*tag),
    {
        let c = tag.as_compound()?;
        let nutrition = c.get_int("nutrition")?;
        let saturation_bits = c.get_float("saturation")?;
        let b = c.get_byte("can_always_eat")?;
        Some(FoodProperties { nutrition, saturation_bits, can_always_eat: b != 0 })
    }
}

/// Reading the NBT form of food properties gives them back.
pub proof fn lemma_food_properties_nbt_roundtrip(f: FoodProperties, t: NbtTag)
    requires
        food_properties_nbt(t, f),
    ensures
        food_properties_from_nbt(t) == Some(f),
{
    reveal_strlit("nutrition");
    reveal_strlit("saturation");
    reveal_strlit("can_always_eat");
    reveal_with_fuel(find_entry, 4);
    assert("nutrition"@.len() == 9);
    assert("saturation"@.len() == 10);
    assert("can_always_eat"@.len() == 14);
    let c = t->Compound_0;
    let v = c.values@;
    assert(v.skip(1)[0] == v[1]);
    assert(v.skip(1).skip(1)[0] == v[2]);
    assert(v[1].0@ != "nutrition"@);
    assert(v[0].0@ != "saturation"@);
    assert(v[0].0@ != "can_always_eat"@);
    assert(v[1].0@ != "can_always_eat"@);
}

/// Reading a VarInt, four bytes and a flag byte, in that order, gives food
/// with that nutrition, that saturation and that `can_always_eat` flag.
pub proof fn lemma_read_food_fields(nutrition: i32, saturation_bits: u32, can_always_eat: bool, rest: Seq<u8>)
    ensures
        parse_food_properties(
            varint_encode(nutrition) + u32_be_bytes(saturation_bits) + seq![bool_byte(can_always_eat)]
                + rest,
        ) == Ok::<(FoodProperties, Seq<u8>), DecodeError>(
            (FoodProperties { nutrition, saturation_bits, can_always_eat }, rest),
        ),
{
    let r2 = seq![bool_byte(can_always_eat)] + rest;
    let r1 = u32_be_bytes(saturation_bits) + r2;
    assert(varint_encode(nutrition) + u32_be_bytes(saturation_bits) + seq![bool_byte(can_always_eat)]
        + rest =~= varint_encode(nutrition) + r1);
    lemma_varint_roundtrip(nutrition, r1);
    lemma_u32_be_roundtrip(saturation_bits, r2);
    lemma_bool_roundtrip(can_always_eat, rest);
}

/// Food read from NBT takes each field from the entry of its own name:
/// the int under `nutrition`, the float under `saturation`, and the flag
/// set exactly when the byte under `can_always_eat` is not zero.
pub proof fn lemma_food_from_nbt_fields(c: NbtCompound)
    ensures
        food_properties_from_nbt(NbtTag::Compound(c)) matches Some(f) ==> {
            &&& entry_int(c, "nutrition"@) == Some(f.nutrition)
            &&& entry_float(c, "saturation"@) == Some(f.saturation_bits)
            &&& entry_byte(c, "can_always_eat"@) matches Some(b) && f.can_always_eat == (b != 0)
        },
{
}

} // verus!

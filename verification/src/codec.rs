//! Wire primitives of the game protocol: VarInt, big-endian integers,
//! booleans and length-prefixed UTF-8 strings.
//!
//! Decoding is described by spec parsers from a byte sequence to either an
//! error or a value together with the bytes that remain; encoding by spec
//! functions from a value to its bytes.
use vstd::prelude::*;
use vstd::utf8::*;

verus! {

/// Why a byte sequence could not be decoded.
#[derive(Debug, Clone, Copy, PartialEq, Eq, Structural)]
pub enum DecodeError {
    /// The input ended before the value was complete.
    UnexpectedEnd,
    /// A VarInt whose fifth byte still has its continuation bit set.
    VarIntTooBig,
    /// A length prefix below zero.
    NegativeLength,
    /// String bytes that are not valid UTF-8.
    InvalidUtf8,
    /// An item use animation id outside the known range.
    UnknownAnimation(i32),
    /// A consume effect type id outside the known range.
    UnknownConsumeEffect(i32),
    /// A mob effect key that the registry does not hold.
    UnknownMobEffect,
    /// A potion id that the registry does not hold.
    UnknownPotion(i32),
}

/// The outcome of a spec parser: the value and the bytes after it.
pub type Parsed<T> = Result<(T, Seq<u8>), DecodeError>;

// ---------------------------------------------------------------------------
// Spec side
// ---------------------------------------------------------------------------

/// The bytes of a VarInt: seven bits per byte, least significant group
/// first, the high bit set on every byte but the last.
pub open spec fn varint_encode_u32(v: u32) -> Seq<u8>
    decreases v,
{
    if v < 128 {
        seq![v as u8]
    } else {
        seq![((v % 128) + 128) as u8] + varint_encode_u32(v / 128)
    }
}

/// The bytes of a VarInt holding `v` (its two's complement bits).
pub open spec fn varint_encode(v: i32) -> Seq<u8> {
    varint_encode_u32(v as u32)
}

/// Decoding a VarInt from byte `i` on, with `acc` the value of the bytes
/// before it and `p` the weight of byte `i`. A fifth byte contributes only
/// the bits that fit in 32; a fifth byte with its high bit set is refused.
pub open spec fn varint_decode_from(s: Seq<u8>, i: nat, acc: nat, p: nat) -> Parsed<u32>
    decreases 5 - i,
{
    if i >= 5 {
        Err(DecodeError::VarIntTooBig)
    } else if i >= s.len() {
        Err(DecodeError::UnexpectedEnd)
    } else {
        let b = s[i as int];
        let acc2 = acc + (b % 128) as nat * p;
        if b < 128 {
            Ok(((acc2 % 0x1_0000_0000) as u32, s.skip(i as int + 1)))
        } else if i == 4 {
            Err(DecodeError::VarIntTooBig)
        } else {
            varint_decode_from(s, i + 1, acc2, p * 128)
        }
    }
}

/// Decoding a VarInt at the start of `s`.
pub open spec fn parse_varint(s: Seq<u8>) -> Parsed<i32> {
    match varint_decode_from(s, 0, 0, 1) {
        Ok((v, rest)) => Ok((v as i32, rest)),
        Err(e) => Err(e),
    }
}

/// One byte.
pub open spec fn parse_u8(s: Seq<u8>) -> Parsed<u8> {
    if s.len() >= 1 {
        Ok((s[0], s.skip(1)))
    } else {
        Err(DecodeError::UnexpectedEnd)
    }
}

/// A boolean byte: any byte other than zero is true.
pub open spec fn parse_bool(s: Seq<u8>) -> Parsed<bool> {
    match parse_u8(s) {
        Ok((b, rest)) => Ok((b != 0, rest)),
        Err(e) => Err(e),
    }
}

/// The byte of a boolean.
pub open spec fn bool_byte(b: bool) -> u8 {
    if b {
        1
    } else {
        0
    }
}

/// The unsigned value of four big-endian bytes.
pub open spec fn be_u32_value(b0: u8, b1: u8, b2: u8, b3: u8) -> u32 {
    (b0 as nat * 0x100_0000 + b1 as nat * 0x1_0000 + b2 as nat * 0x100 + b3 as nat) as u32
}

/// Four big-endian bytes as an unsigned integer (also the bit pattern of a float).
pub open spec fn parse_u32_be(s: Seq<u8>) -> Parsed<u32> {
    if s.len() >= 4 {
        Ok((be_u32_value(s[0], s[1], s[2], s[3]), s.skip(4)))
    } else {
        Err(DecodeError::UnexpectedEnd)
    }
}

/// Four big-endian bytes as a two's complement integer.
pub open spec fn parse_i32_be(s: Seq<u8>) -> Parsed<i32> {
    match parse_u32_be(s) {
        Ok((v, rest)) => Ok((v as i32, rest)),
        Err(e) => Err(e),
    }
}

/// The four big-endian bytes of `v`.
pub open spec fn u32_be_bytes(v: u32) -> Seq<u8> {
    seq![
        (v / 0x100_0000) as u8,
        ((v / 0x1_0000) % 0x100) as u8,
        ((v / 0x100) % 0x100) as u8,
        (v % 0x100) as u8,
    ]
}

/// The four big-endian bytes of the two's complement of `v`.
pub open spec fn i32_be_bytes(v: i32) -> Seq<u8> {
    u32_be_bytes(v as u32)
}

/// A VarInt count of items; a count below zero is refused.
pub open spec fn parse_count(s: Seq<u8>) -> Parsed<nat> {
    match parse_varint(s) {
        Ok((n, rest)) => if n < 0 {
            Err(DecodeError::NegativeLength)
        } else {
            Ok((n as nat, rest))
        },
        Err(e) => Err(e),
    }
}

/// Bytes preceded by their VarInt length.
pub open spec fn parse_prefixed_bytes(s: Seq<u8>) -> Parsed<Seq<u8>> {
    match parse_varint(s) {
        Ok((n, rest)) => if n < 0 {
            Err(DecodeError::NegativeLength)
        } else if n > rest.len() {
            Err(DecodeError::UnexpectedEnd)
        } else {
            Ok((rest.take(n as int), rest.skip(n as int)))
        },
        Err(e) => Err(e),
    }
}

/// A UTF-8 string preceded by its VarInt byte length.
pub open spec fn parse_string(s: Seq<u8>) -> Parsed<Seq<char>> {
    match parse_prefixed_bytes(s) {
        Ok((b, rest)) => if valid_utf8(b) {
            Ok((decode_utf8(b), rest))
        } else {
            Err(DecodeError::InvalidUtf8)
        },
        Err(e) => Err(e),
    }
}

/// Bytes preceded by their length as a VarInt (the length taken as `i32`).
pub open spec fn prefixed_bytes(b: Seq<u8>) -> Seq<u8> {
    varint_encode(b.len() as i32) + b
}

/// The UTF-8 bytes of `c` preceded by their length.
pub open spec fn string_bytes(c: Seq<char>) -> Seq<u8> {
    prefixed_bytes(encode_utf8(c))
}

// ---------------------------------------------------------------------------
// Laws
// ---------------------------------------------------------------------------

/// `128` to the power `i`: the weight of the `i`-th VarInt byte.
pub open spec fn pow128(i: nat) -> nat
    decreases i,
{
    if i == 0 {
        1
    } else {
        128 * pow128((i - 1) as nat)
    }
}

/// Decoding from byte `i` on, where the bytes from `i` are the encoding of
/// `u` followed by `rest`, adds `u` at weight `p` to `acc`.
proof fn lemma_varint_decode_encoded(s: Seq<u8>, i: nat, acc: nat, p: nat, u: u32, rest: Seq<u8>)
    requires
        i <= 4,
        i <= s.len(),
        p == pow128(i),
        acc < p,
        acc + u as nat * p < 0x1_0000_0000,
        s.skip(i as int) == varint_encode_u32(u) + rest,
    ensures
        varint_decode_from(s, i, acc, p) == Ok::<(u32, Seq<u8>), DecodeError>(
            ((acc + u as nat * p) as u32, rest),
        ),
    decreases u,
{
    reveal_with_fuel(pow128, 5);
    assert(varint_encode_u32(u).len() >= 1);
    assert(s.skip(i as int).len() == s.len() - i);
    assert(s.skip(i as int)[0] == s[i as int]);
    if u < 128 {
        assert(s[i as int] == u as u8);
        assert(s.skip(i as int + 1) =~= s.skip(i as int).skip(1));
        assert(s.skip(i as int).skip(1) =~= rest);
    } else {
        if i == 4 {
            assert(u as nat * p >= 128 * 0x1000_0000) by (nonlinear_arith)
                requires
                    u >= 128,
                    p == 0x1000_0000,
            ;
        }
        let b = s[i as int];
        assert(b == ((u % 128) + 128) as u8);
        assert(b % 128 == u % 128);
        let acc2 = acc + (b % 128) as nat * p;
        let u2 = u / 128;
        assert(acc2 < p * 128) by (nonlinear_arith)
            requires
                acc2 == acc + (b % 128) as nat * p,
                acc < p,
                b % 128 <= 127,
        ;
        assert(acc2 + u2 as nat * (p * 128) == acc + u as nat * p) by (nonlinear_arith)
            requires
                acc2 == acc + (u % 128) as nat * p,
                u2 == u / 128,
        ;
        assert(s.skip(i as int + 1) =~= s.skip(i as int).skip(1));
        assert(s.skip(i as int).skip(1) =~= varint_encode_u32(u2) + rest);
        lemma_varint_decode_encoded(s, i + 1, acc2, p * 128, u2, rest);
    }
}

/// A VarInt decodes to the value it was encoded from, whatever follows it.
pub proof fn lemma_varint_roundtrip(v: i32, rest: Seq<u8>)
    ensures
        parse_varint(varint_encode(v) + rest) == Ok::<(i32, Seq<u8>), DecodeError>((v, rest)),
{
    let u = v as u32;
    let s = varint_encode(v) + rest;
    assert(s.skip(0) =~= s);
    lemma_varint_decode_encoded(s, 0, 0, 1, u, rest);
    assert(((v as u32) as i32) == v) by (bit_vector);
}

/// Decoding a VarInt from byte `i` on leaves fewer than `len - i` bytes.
proof fn lemma_varint_decode_shrinks(s: Seq<u8>, i: nat, acc: nat, p: nat)
    requires
        i <= s.len(),
    ensures
        varint_decode_from(s, i, acc, p) matches Ok((_, r)) ==> r.len() < s.len() - i,
    decreases 5 - i,
{
    if i < 5 && i < s.len() {
        let b = s[i as int];
        if b >= 128 && i < 4 {
            lemma_varint_decode_shrinks(s, i + 1, acc + (b % 128) as nat * p, p * 128);
        }
    }
}

/// A VarInt takes at least one byte.
pub proof fn lemma_varint_shrinks(s: Seq<u8>)
    ensures
        parse_varint(s) matches Ok((_, r)) ==> r.len() < s.len(),
{
    lemma_varint_decode_shrinks(s, 0, 0, 1);
}

/// A length-prefixed string takes at least one byte.
pub proof fn lemma_string_shrinks(s: Seq<u8>)
    ensures
        parse_string(s) matches Ok((_, r)) ==> r.len() < s.len(),
{
    lemma_varint_shrinks(s);
}

/// Every VarInt encoding takes one to five bytes.
pub proof fn lemma_varint_len(v: i32)
    ensures
        1 <= varint_encode(v).len() <= 5,
{
    reveal_with_fuel(varint_encode_u32, 6);
}

/// Four big-endian bytes decode to the integer they were encoded from.
pub proof fn lemma_u32_be_roundtrip(v: u32, rest: Seq<u8>)
    ensures
        parse_u32_be(u32_be_bytes(v) + rest) == Ok::<(u32, Seq<u8>), DecodeError>((v, rest)),
{
    let s = u32_be_bytes(v) + rest;
    assert(s.skip(4) =~= rest);
    assert(s[0] == (v / 0x100_0000) as u8);
    assert(s[3] == (v % 0x100) as u8);
}

/// Four big-endian bytes decode to the signed integer they were encoded from.
pub proof fn lemma_i32_be_roundtrip(v: i32, rest: Seq<u8>)
    ensures
        parse_i32_be(i32_be_bytes(v) + rest) == Ok::<(i32, Seq<u8>), DecodeError>((v, rest)),
{
    lemma_u32_be_roundtrip(v as u32, rest);
    assert(((v as u32) as i32) == v) by (bit_vector);
}

/// A boolean byte decodes to the boolean it was written from.
pub proof fn lemma_bool_roundtrip(b: bool, rest: Seq<u8>)
    ensures
        parse_bool(seq![bool_byte(b)] + rest) == Ok::<(bool, Seq<u8>), DecodeError>((b, rest)),
{
    assert((seq![bool_byte(b)] + rest).skip(1) =~= rest);
}

/// Length-prefixed bytes decode to themselves when their length fits in `i32`.
pub proof fn lemma_prefixed_bytes_roundtrip(b: Seq<u8>, rest: Seq<u8>)
    requires
        b.len() <= i32::MAX,
    ensures
        parse_prefixed_bytes(prefixed_bytes(b) + rest) == Ok::<(Seq<u8>, Seq<u8>), DecodeError>(
            (b, rest),
        ),
{
    let n = b.len() as i32;
    assert(n as int == b.len());
    lemma_varint_roundtrip(n, b + rest);
    assert(prefixed_bytes(b) + rest =~= varint_encode(n) + (b + rest));
    assert((b + rest).take(n as int) =~= b);
    assert((b + rest).skip(n as int) =~= rest);
}

/// A length-prefixed string decodes to itself when its UTF-8 length fits in `i32`.
pub proof fn lemma_string_roundtrip(c: Seq<char>, rest: Seq<u8>)
    requires
        encode_utf8(c).len() <= i32::MAX,
    ensures
        parse_string(string_bytes(c) + rest) == Ok::<(Seq<char>, Seq<u8>), DecodeError>((c, rest)),
{
    lemma_prefixed_bytes_roundtrip(encode_utf8(c), rest);
    encode_utf8_valid_utf8(c);
    encode_utf8_decode_utf8(c);
}

// ---------------------------------------------------------------------------
// Exec side
// ---------------------------------------------------------------------------

/// A read position in a byte slice.
pub struct ByteReader<'a> {
    data: &'a [u8],
    pos: usize,
}

impl<'a> ByteReader<'a> {
    /// The bytes not yet read.
    pub closed spec fn rest(&self) -> Seq<u8> {
        self.data@.subrange(self.pos as int, self.data@.len() as int)
    }

    /// The whole slice being read.
    pub closed spec fn input(&self) -> Seq<u8> {
        self.data@
    }

    /// The reader's position stays within its slice.
    pub closed spec fn wf(&self) -> bool {
        self.pos <= self.data@.len()
    }

    /// A reader at the start of `data`.
    pub fn new(data: &'a [u8]) -> (r: Self)
        ensures
            r.wf(),
            r.rest() == data@,
            r.input() == data@,
    {
        let r = ByteReader { data, pos: 0 };
        assert(r.rest() =~= data@);
        r
    }

    /// How many bytes have been read.
    pub fn position(&self) -> (p: usize)
        requires
            self.wf(),
        ensures
            p + self.rest().len() == self.input().len(),
    {
        self.pos
    }

    /// How many bytes are left.
    pub fn remaining(&self) -> (n: usize)
        requires
            self.wf(),
        ensures
            n == self.rest().len(),
    {
        self.data.len() - self.pos
    }

    /// Reads one byte.
    pub fn read_u8(&mut self) -> (res: Result<u8, DecodeError>)
        requires
            old(self).wf(),
        ensures
            final(self).wf(),
            final(self).input() == old(self).input(),
            reads_as(res, final(self).rest(), parse_u8(old(self).rest())),
    {
        if self.pos < self.data.len() {
            let b = self.data[self.pos];
            self.pos = self.pos + 1;
            assert(self.rest() =~= old(self).rest().skip(1));
            Ok(b)
        } else {
            Err(DecodeError::UnexpectedEnd)
        }
    }

    /// Reads a boolean byte (any byte other than zero is true).
    pub fn read_bool(&mut self) -> (res: Result<bool, DecodeError>)
        requires
            old(self).wf(),
        ensures
            final(self).wf(),
            final(self).input() == old(self).input(),
            reads_as(res, final(self).rest(), parse_bool(old(self).rest())),
    {
        let b = self.read_u8()?;
        Ok(b != 0)
    }

    /// Reads four big-endian bytes as an unsigned integer.
    pub fn read_u32_be(&mut self) -> (res: Result<u32, DecodeError>)
        requires
            old(self).wf(),
        ensures
            final(self).wf(),
            final(self).input() == old(self).input(),
            reads_as(res, final(self).rest(), parse_u32_be(old(self).rest())),
    {
        if self.data.len() - self.pos >= 4 {
            let b0 = self.data[self.pos] as u32;
            let b1 = self.data[self.pos + 1] as u32;
            let b2 = self.data[self.pos + 2] as u32;
            let b3 = self.data[self.pos + 3] as u32;
            self.pos = self.pos + 4;
            assert(self.rest() =~= old(self).rest().skip(4));
            Ok(b0 * 0x100_0000 + b1 * 0x1_0000 + b2 * 0x100 + b3)
        } else {
            Err(DecodeError::UnexpectedEnd)
        }
    }

    /// Reads four big-endian bytes as a two's complement integer.
    pub fn read_i32_be(&mut self) -> (res: Result<i32, DecodeError>)
        requires
            old(self).wf(),
        ensures
            final(self).wf(),
            final(self).input() == old(self).input(),
            reads_as(res, final(self).rest(), parse_i32_be(old(self).rest())),
    {
        let v = self.read_u32_be()?;
        Ok(v as i32)
    }

    /// Reads a VarInt.
    pub fn read_varint(&mut self) -> (res: Result<i32, DecodeError>)
        requires
            old(self).wf(),
        ensures
            final(self).wf(),
            final(self).input() == old(self).input(),
            reads_as(res, final(self).rest(), parse_varint(old(self).rest())),
    {
        let ghost s = old(self).rest();
        let start = self.pos;
        let mut i: usize = 0;
        let mut acc: u64 = 0;
        let mut p: u64 = 1;
        loop
            invariant
                self.wf(),
                self.data == old(self).data,
                start == old(self).pos,
                self.pos == start,
                s == old(self).rest(),
                i <= 4,
                p <= 0x1000_0000,
                acc < p,
                p as nat == pow128(i as nat),
                varint_decode_from(s, 0, 0, 1) == varint_decode_from(s, i as nat, acc as nat, p as nat),
            decreases 5 - i,
        {
            if self.data.len() - start <= i {
                return Err(DecodeError::UnexpectedEnd);
            }
            let b = self.data[start + i];
            assert(b == s[i as int]);
            assert(((b % 128) as u64) * p <= 127 * 0x1000_0000) by (nonlinear_arith)
                requires
                    b % 128 <= 127,
                    p <= 0x1000_0000,
            ;
            let acc2 = acc + ((b % 128) as u64) * p;
            if b < 128 {
                self.pos = start + i + 1;
                assert(self.rest() =~= s.skip(i + 1));
                let v = (acc2 % 0x1_0000_0000) as u32;
                return Ok(v as i32);
            }
            if i == 4 {
                return Err(DecodeError::VarIntTooBig);
            }
            assert(acc2 < p * 128) by (nonlinear_arith)
                requires
                    acc2 == acc + ((b % 128) as u64) * p,
                    acc < p,
                    b % 128 <= 127,
            ;
            proof {
                reveal_with_fuel(pow128, 5);
            }
            acc = acc2;
            p = p * 128;
            i = i + 1;
        }
    }

    /// Reads `n` bytes.
    pub fn read_bytes(&mut self, n: usize) -> (res: Result<Vec<u8>, DecodeError>)
        requires
            old(self).wf(),
        ensures
            final(self).wf(),
            final(self).input() == old(self).input(),
            n <= old(self).rest().len() ==> res is Ok && res->Ok_0@ == old(self).rest().take(
                n as int,
            ) && final(self).rest() == old(self).rest().skip(n as int),
            n > old(self).rest().len() ==> res == Err::<Vec<u8>, DecodeError>(
                DecodeError::UnexpectedEnd,
            ),
    {
        if self.data.len() - self.pos < n {
            return Err(DecodeError::UnexpectedEnd);
        }
        let data = self.data;
        let pos = self.pos;
        let mut out: Vec<u8> = Vec::new();
        let mut k: usize = 0;
        while k < n
            invariant
                data == old(self).data,
                pos == old(self).pos,
                pos <= data@.len(),
                k <= n,
                n <= data@.len() - pos,
                out@ =~= old(self).rest().take(k as int),
            decreases n - k,
        {
            out.push(data[pos + k]);
            k = k + 1;
        }
        self.pos = self.pos + n;
        assert(self.rest() =~= old(self).rest().skip(n as int));
        Ok(out)
    }

    /// Reads a VarInt count of items; a count below zero is refused.
    pub fn read_count(&mut self) -> (res: Result<usize, DecodeError>)
        requires
            old(self).wf(),
        ensures
            final(self).wf(),
            final(self).input() == old(self).input(),
            match parse_count(old(self).rest()) {
                Ok((n, rest)) => res == Ok::<usize, DecodeError>(n as usize) && n <= i32::MAX
                    && final(self).rest() == rest,
                Err(e) => res == Err::<usize, DecodeError>(e),
            },
    {
        let n = self.read_varint()?;
        if n < 0 {
            return Err(DecodeError::NegativeLength);
        }
        Ok(n as usize)
    }

    /// Reads bytes preceded by their VarInt length.
    pub fn read_prefixed_bytes(&mut self) -> (res: Result<Vec<u8>, DecodeError>)
        requires
            old(self).wf(),
        ensures
            final(self).wf(),
            final(self).input() == old(self).input(),
            reads_as(res, final(self).rest(), parse_prefixed_bytes(old(self).rest())),
    {
        let n = self.read_varint()?;
        if n < 0 {
            return Err(DecodeError::NegativeLength);
        }
        let n = n as usize;
        self.read_bytes(n)
    }

    /// Reads a UTF-8 string preceded by its VarInt byte length.
    pub fn read_string(&mut self) -> (res: Result<String, DecodeError>)
        requires
            old(self).wf(),
        ensures
            final(self).wf(),
            final(self).input() == old(self).input(),
            reads_as(res, final(self).rest(), parse_string(old(self).rest())),
    {
        let bytes = self.read_prefixed_bytes()?;
        let ghost b = bytes@;
        match utf8_to_string(bytes) {
            Some(s) => {
                proof {
                    decode_utf8_encode_utf8(b);
                    encode_utf8_decode_utf8(s@);
                }
                Ok(s)
            },
            None => Err(DecodeError::InvalidUtf8),
        }
    }
}

/// `res` is what the parser outcome `expected` says, taken by view, and
/// `after` holds the bytes that the parser leaves.
pub open spec fn reads_as<T: View>(
    res: Result<T, DecodeError>,
    after: Seq<u8>,
    expected: Parsed<T::V>,
) -> bool {
    match expected {
        Ok((v, rest)) => res is Ok && res->Ok_0@ == v && after == rest,
        Err(e) => res == Err::<T, DecodeError>(e),
    }
}

/// `String::from_utf8`: `Some` exactly when the bytes are valid UTF-8, and
/// then a string whose UTF-8 bytes are exactly the input.
#[verifier::external_body]
fn utf8_to_string(bytes: Vec<u8>) -> (res: Option<String>)
    ensures
        res is Some <==> valid_utf8(bytes@),
        res matches Some(s) ==> encode_utf8(s@) == bytes@,
{
    String::from_utf8(bytes).ok()
}

/// Appends a byte.
pub fn write_u8(out: &mut Vec<u8>, b: u8)
    ensures
        final(out)@ == old(out)@ + seq![b],
{
    out.push(b);
    assert(out@ =~= old(out)@ + seq![b]);
}

/// Appends a boolean byte (1 for true, 0 for false).
pub fn write_bool(out: &mut Vec<u8>, b: bool)
    ensures
        final(out)@ == old(out)@ + seq![bool_byte(b)],
{
    write_u8(out, if b { 1 } else { 0 });
}

/// Appends four big-endian bytes.
pub fn write_u32_be(out: &mut Vec<u8>, v: u32)
    ensures
        final(out)@ == old(out)@ + u32_be_bytes(v),
{
    out.push((v / 0x100_0000) as u8);
    out.push(((v / 0x1_0000) % 0x100) as u8);
    out.push(((v / 0x100) % 0x100) as u8);
    out.push((v % 0x100) as u8);
    assert(out@ =~= old(out)@ + u32_be_bytes(v));
}

/// Appends the four big-endian bytes of a two's complement integer.
pub fn write_i32_be(out: &mut Vec<u8>, v: i32)
    ensures
        final(out)@ == old(out)@ + i32_be_bytes(v),
{
    write_u32_be(out, v as u32);
}

/// Appends a VarInt.
pub fn write_varint(out: &mut Vec<u8>, value: i32)
    ensures
        final(out)@ == old(out)@ + varint_encode(value),
{
    let mut v: u32 = value as u32;
    while v >= 128
        invariant
            out@ + varint_encode_u32(v) == old(out)@ + varint_encode(value),
        decreases v,
    {
        let ghost before = out@;
        out.push(((v % 128) + 128) as u8);
        assert(before + varint_encode_u32(v) =~= out@ + varint_encode_u32(v / 128));
        v = v / 128;
    }
    let ghost before = out@;
    out.push(v as u8);
    assert(out@ =~= before + varint_encode_u32(v));
}

/// Appends bytes.
pub fn write_bytes(out: &mut Vec<u8>, bytes: &[u8])
    ensures
        final(out)@ == old(out)@ + bytes@,
{
    let mut k: usize = 0;
    while k < bytes.len()
        invariant
            k <= bytes@.len(),
            out@ =~= old(out)@ + bytes@.take(k as int),
        decreases bytes@.len() - k,
    {
        out.push(bytes[k]);
        k = k + 1;
    }
    assert(bytes@.take(bytes@.len() as int) =~= bytes@);
}

/// Appends bytes preceded by their length as a VarInt.
pub fn write_prefixed_bytes(out: &mut Vec<u8>, bytes: &[u8])
    ensures
        final(out)@ == old(out)@ + prefixed_bytes(bytes@),
{
    write_varint(out, bytes.len() as i32);
    write_bytes(out, bytes);
    assert(out@ =~= old(out)@ + prefixed_bytes(bytes@));
}

/// Appends a string as its UTF-8 bytes preceded by their length.
pub fn write_string(out: &mut Vec<u8>, s: &str)
    ensures
        final(out)@ == old(out)@ + string_bytes(s@),
{
    write_prefixed_bytes(out, s.as_bytes());
}

} // verus!

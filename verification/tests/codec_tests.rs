use steel_registry::codec::{
    write_bool, write_i32_be, write_prefixed_bytes, write_string, write_u32_be, write_varint,
    ByteReader, DecodeError,
};
use steel_registry::identifier::{read_identifier, remove_all_occurrences, str_eq, Identifier};

fn varint_bytes(v: i32) -> Vec<u8> {
    let mut out = Vec::new();
    write_varint(&mut out, v);
    out
}

#[test]
fn varint_known_encodings() {
    assert_eq!(varint_bytes(0), vec![0x00]);
    assert_eq!(varint_bytes(1), vec![0x01]);
    assert_eq!(varint_bytes(127), vec![0x7F]);
    assert_eq!(varint_bytes(128), vec![0x80, 0x01]);
    assert_eq!(varint_bytes(300), vec![0xAC, 0x02]);
    assert_eq!(varint_bytes(697), vec![0xB9, 0x05]);
    assert_eq!(varint_bytes(i32::MAX), vec![0xFF, 0xFF, 0xFF, 0xFF, 0x07]);
    assert_eq!(varint_bytes(-1), vec![0xFF, 0xFF, 0xFF, 0xFF, 0x0F]);
    assert_eq!(varint_bytes(i32::MIN), vec![0x80, 0x80, 0x80, 0x80, 0x08]);
}

#[test]
fn varint_reads_back() {
    for v in [0, 1, -1, 63, 64, 127, 128, 255, 300, 2097151, i32::MAX, i32::MIN, -300] {
        let mut bytes = varint_bytes(v);
        bytes.push(0x55);
        let mut r = ByteReader::new(&bytes);
        assert_eq!(r.read_varint(), Ok(v));
        assert_eq!(r.remaining(), 1);
        assert_eq!(r.read_u8(), Ok(0x55));
    }
}

#[test]
fn varint_too_big_is_refused() {
    let bytes = [0xFF, 0xFF, 0xFF, 0xFF, 0xFF, 0x01];
    let mut r = ByteReader::new(&bytes);
    assert_eq!(r.read_varint(), Err(DecodeError::VarIntTooBig));
}

#[test]
fn varint_cut_short_is_unexpected_end() {
    let bytes = [0x80, 0x80];
    let mut r = ByteReader::new(&bytes);
    assert_eq!(r.read_varint(), Err(DecodeError::UnexpectedEnd));
    let empty: [u8; 0] = [];
    let mut r = ByteReader::new(&empty);
    assert_eq!(r.read_varint(), Err(DecodeError::UnexpectedEnd));
}

#[test]
fn big_endian_integers() {
    let mut out = Vec::new();
    write_u32_be(&mut out, 0x3FCC_CCCD);
    write_i32_be(&mut out, -2);
    assert_eq!(out, vec![0x3F, 0xCC, 0xCC, 0xCD, 0xFF, 0xFF, 0xFF, 0xFE]);
    let mut r = ByteReader::new(&out);
    assert_eq!(r.read_u32_be(), Ok(0x3FCC_CCCD));
    assert_eq!(r.read_i32_be(), Ok(-2));
    assert_eq!(r.read_i32_be(), Err(DecodeError::UnexpectedEnd));
}

#[test]
fn booleans_are_one_byte() {
    let mut out = Vec::new();
    write_bool(&mut out, true);
    write_bool(&mut out, false);
    assert_eq!(out, vec![1, 0]);
    let bytes = [1u8, 0, 7];
    let mut r = ByteReader::new(&bytes);
    assert_eq!(r.read_bool(), Ok(true));
    assert_eq!(r.read_bool(), Ok(false));
    assert_eq!(r.read_bool(), Ok(true));
    assert_eq!(r.position(), 3);
}

#[test]
fn strings_are_length_prefixed_utf8() {
    let mut out = Vec::new();
    write_string(&mut out, "héllo");
    assert_eq!(out, vec![6, b'h', 0xC3, 0xA9, b'l', b'l', b'o']);
    let mut r = ByteReader::new(&out);
    assert_eq!(r.read_string(), Ok(String::from("héllo")));
}

#[test]
fn invalid_utf8_is_refused() {
    let bytes = [2u8, 0xC3, 0x28];
    let mut r = ByteReader::new(&bytes);
    assert_eq!(r.read_string(), Err(DecodeError::InvalidUtf8));
}

#[test]
fn negative_length_is_refused() {
    let mut bytes = varint_bytes(-1);
    bytes.push(0);
    let mut r = ByteReader::new(&bytes);
    assert_eq!(r.read_string(), Err(DecodeError::NegativeLength));
    let mut r = ByteReader::new(&bytes);
    assert_eq!(r.read_count(), Err(DecodeError::NegativeLength));
}

#[test]
fn prefixed_bytes_too_long_for_the_input() {
    let bytes = [5u8, 1, 2];
    let mut r = ByteReader::new(&bytes);
    assert_eq!(r.read_prefixed_bytes(), Err(DecodeError::UnexpectedEnd));
    let mut out = Vec::new();
    write_prefixed_bytes(&mut out, &[9, 8, 7]);
    assert_eq!(out, vec![3, 9, 8, 7]);
    let mut r = ByteReader::new(&out);
    assert_eq!(r.read_prefixed_bytes(), Ok(vec![9, 8, 7]));
}

#[test]
fn read_bytes_takes_exactly_n() {
    let bytes = [1u8, 2, 3, 4];
    let mut r = ByteReader::new(&bytes);
    assert_eq!(r.read_bytes(3), Ok(vec![1, 2, 3]));
    assert_eq!(r.remaining(), 1);
    assert_eq!(r.read_bytes(2), Err(DecodeError::UnexpectedEnd));
}

#[test]
fn identifier_text_form() {
    let id = Identifier::new(String::from("steel"), String::from("rust"));
    assert_eq!(id.to_string(), "steel:rust");
    let v = Identifier::vanilla(String::from("speed"));
    assert_eq!(v.namespace, "minecraft");
    assert_eq!(v.to_string(), "minecraft:speed");
}

#[test]
fn identifier_parse_splits_at_first_colon() {
    let a = Identifier::parse("foo:bar:baz");
    assert_eq!(a.namespace, "foo");
    assert_eq!(a.path, "bar:baz");
    let b = Identifier::parse("stone");
    assert_eq!(b.namespace, "minecraft");
    assert_eq!(b.path, "stone");
    let c = Identifier::parse(":x");
    assert_eq!(c.namespace, "");
    assert_eq!(c.path, "x");
}

#[test]
fn identifier_wire_roundtrip() {
    let id = Identifier::new(String::from("steel"), String::from("a/b"));
    let mut out = Vec::new();
    id.write(&mut out);
    assert_eq!(out[0], 9);
    let mut r = ByteReader::new(&out);
    assert_eq!(read_identifier(&mut r), Ok(id.clone()));
}

#[test]
fn string_helpers() {
    assert!(str_eq("abc", "abc"));
    assert!(!str_eq("abc", "abd"));
    assert_eq!(remove_all_occurrences("minecraft:minecraft:x", "minecraft:"), "x");
    assert_eq!(remove_all_occurrences("aaa", "aa"), "a");
    assert_eq!(remove_all_occurrences("abc", ""), "abc");
}

#[test]
fn reader_position_counts_what_was_read() {
    let bytes = [0xAC, 0x02, 1, 2];
    let mut r = ByteReader::new(&bytes);
    assert_eq!(r.position(), 0);
    assert_eq!(r.read_varint(), Ok(300));
    assert_eq!(r.position(), 2);
    assert_eq!(r.read_u8(), Ok(1));
    assert_eq!(r.position(), 3);
    assert_eq!(r.remaining(), 1);
}

use minecraft_server::cursor::Cursor;
use minecraft_server::error::FormatError;
use minecraft_server::types::numbers::{read_bool, read_u128, write_bool, write_u128, I64, I8, U16,
    U8};
use minecraft_server::types::position::Position;
use minecraft_server::types::string::MCString;
use minecraft_server::types::varint::{decode_varint, encode_varint, VarInt};
use minecraft_server::types::vector::{read_string_seq, write_string_seq};
use minecraft_server::types::nbt::NBTString;
use minecraft_server::types::position::sign_extend;

fn mcs(s: &str) -> MCString {
    MCString(String::from(s))
}

#[test]
fn varint_round_trip_values() {
    let samples: Vec<i32> = vec![
        0,
        1,
        2,
        127,
        128,
        255,
        300,
        16383,
        16384,
        2097151,
        2097152,
        268435455,
        268435456,
        2147483647,
        -1,
        -2147483648,
    ];
    for &v in &samples {
        let mut out: Vec<u8> = Vec::new();
        encode_varint(v, &mut out);
        assert_eq!(out.len(), VarInt::sizeof(v));
        let mut cur = Cursor::new(out);
        assert_eq!(decode_varint(&mut cur), Ok(v));
        assert_eq!(cur.remaining(), 0);
    }
}

#[test]
fn varint_known_bytes() {
    let mut out: Vec<u8> = Vec::new();
    encode_varint(0, &mut out);
    assert_eq!(out, vec![0x00]);

    let mut out: Vec<u8> = Vec::new();
    encode_varint(300, &mut out);
    assert_eq!(out, vec![0xAC, 0x02]);

    let mut out: Vec<u8> = Vec::new();
    encode_varint(-1, &mut out);
    assert_eq!(out, vec![0xFF, 0xFF, 0xFF, 0xFF, 0x0F]);
}

#[test]
fn varint_size_formula() {
    assert_eq!(VarInt::sizeof(0), 1);
    assert_eq!(VarInt::sizeof(127), 1);
    assert_eq!(VarInt::sizeof(128), 2);
    assert_eq!(VarInt::sizeof(16383), 2);
    assert_eq!(VarInt::sizeof(16384), 3);
    assert_eq!(VarInt::sizeof(2097152), 4);
    assert_eq!(VarInt::sizeof(268435456), 5);
    assert_eq!(VarInt::sizeof(-1), 5);
    assert_eq!(VarInt::new(300).size(), 2);
}

#[test]
fn varint_six_continuation_bytes_fail_too_long() {
    let mut cur = Cursor::new(vec![0x80, 0x80, 0x80, 0x80, 0x80, 0x80]);
    assert_eq!(decode_varint(&mut cur), Err(FormatError::TooLong));
}

#[test]
fn varint_truncated_input_fails_underrun() {
    let mut cur = Cursor::new(vec![0x80, 0x80]);
    assert_eq!(decode_varint(&mut cur), Err(FormatError::Underrun));
}

#[test]
fn string_round_trip() {
    for text in ["", "hello", "caf\u{e9} na\u{ef}ve", "\u{1F642} snowman \u{2603}"] {
        let m = mcs(text);
        let mut out: Vec<u8> = Vec::new();
        m.write(&mut out).unwrap();
        let mut cur = Cursor::new(out);
        let back = MCString::read(&mut cur).unwrap();
        assert_eq!(back, m);
        assert_eq!(cur.remaining(), 0);
    }
}

#[test]
fn string_known_bytes() {
    let m = mcs("hello");
    let mut out: Vec<u8> = Vec::new();
    m.write(&mut out).unwrap();
    assert_eq!(out, vec![5, b'h', b'e', b'l', b'l', b'o']);
}

#[test]
fn string_over_limit_fails() {
    let m = MCString("x".repeat(32768));
    let mut out: Vec<u8> = Vec::new();
    assert_eq!(m.write(&mut out), Err(FormatError::StringTooLong));
    assert!(out.is_empty());

    let ok = MCString("x".repeat(32767));
    let mut out: Vec<u8> = Vec::new();
    assert!(ok.write(&mut out).is_ok());
}

#[test]
fn string_invalid_utf8_rejected() {
    let mut cur = Cursor::new(vec![2, 0xFF, 0xFE]);
    assert_eq!(MCString::read(&mut cur), Err(FormatError::InvalidUtf8));
}

#[test]
fn string_declared_length_over_limit_rejected() {
    let mut bytes: Vec<u8> = Vec::new();
    encode_varint(40000, &mut bytes);
    bytes.resize(bytes.len() + 40000, b'a');
    let mut cur = Cursor::new(bytes);
    assert_eq!(MCString::read(&mut cur), Err(FormatError::StringTooLong));
}

#[test]
fn string_truncated_body_fails_underrun() {
    let mut cur = Cursor::new(vec![5, b'h', b'i']);
    assert_eq!(MCString::read(&mut cur), Err(FormatError::Underrun));
}

#[test]
fn bool_codec() {
    let mut cur = Cursor::new(vec![0x00, 0x01, 0x02]);
    assert_eq!(read_bool(&mut cur), Ok(false));
    assert_eq!(read_bool(&mut cur), Ok(true));
    assert_eq!(read_bool(&mut cur), Err(FormatError::InvalidBool));
    assert_eq!(read_bool(&mut cur), Err(FormatError::Underrun));

    let mut out: Vec<u8> = Vec::new();
    write_bool(true, &mut out);
    write_bool(false, &mut out);
    assert_eq!(out, vec![1, 0]);
}

#[test]
fn fixed_width_numbers() {
    let mut out: Vec<u8> = Vec::new();
    U16::write(0xABCD, &mut out);
    assert_eq!(out, vec![0xAB, 0xCD]);
    let mut cur = Cursor::new(out);
    assert_eq!(U16::read(&mut cur), Ok(0xABCD));

    let mut out: Vec<u8> = Vec::new();
    I64::write(-2, &mut out);
    assert_eq!(out, vec![0xFF, 0xFF, 0xFF, 0xFF, 0xFF, 0xFF, 0xFF, 0xFE]);
    let mut cur = Cursor::new(out);
    assert_eq!(I64::read(&mut cur), Ok(-2));

    let mut cur = Cursor::new(vec![0x80, 0x7F]);
    assert_eq!(I8::read(&mut cur), Ok(-128));
    assert_eq!(U8::read(&mut cur), Ok(0x7F));

    let mut cur = Cursor::new(vec![0xAB]);
    assert_eq!(U16::read(&mut cur), Err(FormatError::Underrun));
}

#[test]
fn uuid_round_trip() {
    let id: u128 = 0x0011_2233_4455_6677_8899_AABB_CCDD_EEFF;
    let mut out: Vec<u8> = Vec::new();
    write_u128(id, &mut out);
    assert_eq!(
        out,
        vec![
            0x00, 0x11, 0x22, 0x33, 0x44, 0x55, 0x66, 0x77, 0x88, 0x99, 0xAA, 0xBB, 0xCC, 0xDD,
            0xEE, 0xFF
        ]
    );
    let mut cur = Cursor::new(out);
    assert_eq!(read_u128(&mut cur), Ok(id));
}

#[test]
fn position_test_read_write_correctness() {
    let mut buf: Vec<u8> = Vec::new();
    let expected = Position(-33554432, 33554431, -2048);

    expected.clone().write(&mut buf);
    let actual = Position::read(&mut Cursor::new(buf)).unwrap();

    assert_eq!(expected, actual)
}

#[test]
fn position_round_trip_mid_range_and_zero() {
    for p in [Position(0, 0, 0), Position(12345, -6789, 1023), Position(-1, 1, -1)] {
        let mut buf: Vec<u8> = Vec::new();
        p.write(&mut buf);
        assert_eq!(buf.len(), 8);
        let back = Position::read(&mut Cursor::new(buf)).unwrap();
        assert_eq!(back, p);
    }
}

#[test]
fn vector_test_read_write_correctness() {
    let mut buf: Vec<u8> = Vec::new();
    let expected: Vec<MCString> = vec![mcs("hello"), mcs("test"), mcs("world")];

    write_string_seq(&expected, &mut buf).unwrap();
    let actual = read_string_seq(&mut Cursor::new(buf)).unwrap();

    assert_eq!(expected, actual)
}

#[test]
fn vector_known_bytes() {
    let items: Vec<MCString> = vec![mcs("ab"), mcs("c")];
    let mut buf: Vec<u8> = Vec::new();
    write_string_seq(&items, &mut buf).unwrap();
    assert_eq!(buf, vec![2, 2, b'a', b'b', 1, b'c']);
}

#[test]
fn nbt_ascii_bytes() {
    let tag = NBTString(String::from("abc"));
    let mut out: Vec<u8> = Vec::new();
    tag.write(&mut out).unwrap();
    assert_eq!(out, vec![8, 0, 3, b'a', b'b', b'c']);
}

#[test]
fn nbt_supplementary_char_uses_cesu8() {
    let tag = NBTString(String::from("\u{1F600}"));
    let mut out: Vec<u8> = Vec::new();
    tag.write(&mut out).unwrap();
    assert_eq!(out, vec![8, 0, 6, 0xED, 0xA0, 0xBD, 0xED, 0xB8, 0x80]);
}

#[test]
fn sign_extend_replicates_the_top_bit() {
    assert_eq!(sign_extend(0x200_0000, 26), -33554432);
    assert_eq!(sign_extend(0x1FF_FFFF, 26), 33554431);
    assert_eq!(sign_extend(0x800, 12), -2048);
    assert_eq!(sign_extend(0x7FF, 12), 2047);
    assert_eq!(sign_extend(0, 26), 0);
    assert_eq!(sign_extend(0xFF, 8), -1);
}

//! Fixed-width wire primitives: big-endian integers of 1, 2, 8 and 16
//! bytes, and the single-byte boolean.

use vstd::prelude::*;

use crate::cursor::Cursor;
use crate::error::FormatError;

verus! {

/// The two big-endian bytes of a 16-bit value.
pub open spec fn be16(v: u16) -> Seq<u8> {
    seq![(v >> 8) as u8, v as u8]
}

/// The 16-bit value held by the first two bytes of `s`.
pub open spec fn be16_val(s: Seq<u8>) -> u16 {
    (((s[0] as u16) << 8) | (s[1] as u16)) as u16
}

/// The eight big-endian bytes of a 64-bit value.
pub open spec fn be64(v: u64) -> Seq<u8> {
    seq![
        (v >> 56) as u8,
        (v >> 48) as u8,
        (v >> 40) as u8,
        (v >> 32) as u8,
        (v >> 24) as u8,
        (v >> 16) as u8,
        (v >> 8) as u8,
        v as u8,
    ]
}

/// The 64-bit value held by the first eight bytes of `s`.
pub open spec fn be64_val(s: Seq<u8>) -> u64 {
    (((s[0] as u64) << 56) | ((s[1] as u64) << 48) | ((s[2] as u64) << 40) | ((s[3] as u64) << 32)
        | ((s[4] as u64) << 24) | ((s[5] as u64) << 16) | ((s[6] as u64) << 8) | (s[7]
        as u64)) as u64
}

/// The sixteen big-endian bytes of a 128-bit value.
pub open spec fn be128(v: u128) -> Seq<u8> {
    be64((v >> 64) as u64) + be64(v as u64)
}

/// The 128-bit value held by the first sixteen bytes of `s`.
pub open spec fn be128_val(s: Seq<u8>) -> u128 {
    (((be64_val(s) as u128) << 64) | (be64_val(s.skip(8)) as u128)) as u128
}

/// The single wire byte of a boolean: 0x00 or 0x01.
pub open spec fn bool_enc(v: bool) -> Seq<u8> {
    seq![if v { 1u8 } else { 0u8 }]
}

/// The signed byte at the front of `s`, when one is there.
pub open spec fn i8_dec(s: Seq<u8>) -> Option<(i8, int)> {
    if s.len() >= 1 {
        Some((s[0] as i8, 1))
    } else {
        None
    }
}

/// The unsigned byte at the front of `s`, when one is there.
pub open spec fn u8_dec(s: Seq<u8>) -> Option<(u8, int)> {
    if s.len() >= 1 {
        Some((s[0], 1))
    } else {
        None
    }
}

/// The boolean at the front of `s`: one byte, 0x00 or 0x01 only.
pub open spec fn bool_dec(s: Seq<u8>) -> Option<(bool, int)> {
    if s.len() >= 1 && s[0] <= 1 {
        Some((s[0] == 1, 1))
    } else {
        None
    }
}

/// The big-endian 16-bit value at the front of `s`, when two bytes are there.
pub open spec fn u16_dec(s: Seq<u8>) -> Option<(u16, int)> {
    if s.len() >= 2 {
        Some((be16_val(s), 2))
    } else {
        None
    }
}

/// The big-endian signed 64-bit value at the front of `s`.
pub open spec fn i64_dec(s: Seq<u8>) -> Option<(i64, int)> {
    if s.len() >= 8 {
        Some((be64_val(s) as i64, 8))
    } else {
        None
    }
}

/// The big-endian 128-bit value at the front of `s`.
pub open spec fn u128_dec(s: Seq<u8>) -> Option<(u128, int)> {
    if s.len() >= 16 {
        Some((be128_val(s), 16))
    } else {
        None
    }
}

/// Reads eight bytes as one big-endian 64-bit value.
pub fn read_u64(cur: &mut Cursor) -> (r: Result<u64, FormatError>)
    ensures
        r matches Ok(v) ==> old(cur)@.len() >= 8 && v == be64_val(old(cur)@) && be64(v) == old(
            cur,
        )@.subrange(0, 8) && final(cur)@ == old(cur)@.subrange(8, old(cur)@.len() as int),
        r is Ok <==> old(cur)@.len() >= 8,
        r is Err ==> r == Err::<u64, FormatError>(FormatError::Underrun) && final(cur)@ == old(
            cur,
        )@,
{
    match cur.take(8) {
        None => Err(FormatError::Underrun),
        Some(bytes) => {
            let b0 = bytes[0];
            let b1 = bytes[1];
            let b2 = bytes[2];
            let b3 = bytes[3];
            let b4 = bytes[4];
            let b5 = bytes[5];
            let b6 = bytes[6];
            let b7 = bytes[7];
            let v: u64 = ((b0 as u64) << 56) | ((b1 as u64) << 48) | ((b2 as u64) << 40) | ((b3
                as u64) << 32) | ((b4 as u64) << 24) | ((b5 as u64) << 16) | ((b6 as u64) << 8) | (
            b7 as u64);
            proof {
                assert((v >> 56) as u8 == b0 && (v >> 48) as u8 == b1 && (v >> 40) as u8 == b2 && (
                v >> 32) as u8 == b3 && (v >> 24) as u8 == b4 && (v >> 16) as u8 == b5 && (v >> 8)
                    as u8 == b6 && v as u8 == b7) by (bit_vector)
                    requires
                        v == ((b0 as u64) << 56) | ((b1 as u64) << 48) | ((b2 as u64) << 40) | ((b3
                            as u64) << 32) | ((b4 as u64) << 24) | ((b5 as u64) << 16) | ((b6
                            as u64) << 8) | (b7 as u64),
                ;
                assert(be64(v) =~= old(cur)@.subrange(0, 8));
            }
            Ok(v)
        },
    }
}

/// Appends the eight big-endian bytes of `value`.
pub fn write_u64(value: u64, out: &mut Vec<u8>)
    ensures
        final(out)@ == old(out)@ + be64(value),
{
    out.push((value >> 56) as u8);
    out.push((value >> 48) as u8);
    out.push((value >> 40) as u8);
    out.push((value >> 32) as u8);
    out.push((value >> 24) as u8);
    out.push((value >> 16) as u8);
    out.push((value >> 8) as u8);
    out.push(value as u8);
    proof {
        assert(out@ =~= old(out)@ + be64(value));
    }
}

/// Reads sixteen bytes as one big-endian 128-bit value.
pub fn read_u128(cur: &mut Cursor) -> (r: Result<u128, FormatError>)
    ensures
        r matches Ok(v) ==> old(cur)@.len() >= 16 && v == be128_val(old(cur)@) && be128(v) == old(
            cur,
        )@.subrange(0, 16) && final(cur)@ == old(cur)@.subrange(16, old(cur)@.len() as int),
        r is Ok <==> old(cur)@.len() >= 16,
        r is Err ==> r == Err::<u128, FormatError>(FormatError::Underrun) && final(cur)@ == old(
            cur,
        )@,
{
    if cur.remaining() < 16 {
        return Err(FormatError::Underrun);
    }
    let ghost s = cur@;
    let hi = match read_u64(cur) {
        Ok(v) => v,
        Err(_) => {
            return Err(FormatError::Underrun);
        },
    };
    let lo = match read_u64(cur) {
        Ok(v) => v,
        Err(_) => {
            return Err(FormatError::Underrun);
        },
    };
    let v: u128 = ((hi as u128) << 64) | (lo as u128);
    proof {
        assert((v >> 64) as u64 == hi && v as u64 == lo) by (bit_vector)
            requires
                v == ((hi as u128) << 64) | (lo as u128),
        ;
        assert(s.subrange(8, s.len() as int).subrange(0, 8) =~= s.subrange(8, 16));
        assert(s.skip(8) =~= s.subrange(8, s.len() as int));
        assert(be128(v) =~= s.subrange(0, 8) + s.subrange(8, 16));
        assert(be128(v) =~= s.subrange(0, 16));
        assert(cur@ =~= s.subrange(8, s.len() as int).subrange(8, s.len() - 8));
        assert(cur@ =~= s.subrange(16, s.len() as int));
    }
    Ok(v)
}

/// Appends the sixteen big-endian bytes of `value`.
pub fn write_u128(value: u128, out: &mut Vec<u8>)
    ensures
        final(out)@ == old(out)@ + be128(value),
{
    write_u64((value >> 64) as u64, out);
    write_u64(value as u64, out);
    proof {
        assert(out@ =~= old(out)@ + be128(value));
    }
}

/// Reads one byte as a boolean. Only 0x00 and 0x01 are valid; any other
/// byte is a format error.
pub fn read_bool(cur: &mut Cursor) -> (r: Result<bool, FormatError>)
    ensures
        r matches Ok(v) ==> old(cur)@.len() >= 1 && bool_enc(v) == old(cur)@.subrange(0, 1)
            && final(cur)@ == old(cur)@.subrange(1, old(cur)@.len() as int),
        r is Ok <==> (old(cur)@.len() >= 1 && old(cur)@[0] <= 1),
        r == Err::<bool, FormatError>(FormatError::InvalidBool) <==> (old(cur)@.len() >= 1 && old(
            cur,
        )@[0] > 1),
        r == Err::<bool, FormatError>(FormatError::Underrun) <==> old(cur)@.len() == 0,
{
    match cur.next() {
        None => Err(FormatError::Underrun),
        Some(b) => {
            if b == 0 {
                proof {
                    assert(bool_enc(false) =~= old(cur)@.subrange(0, 1));
                }
                Ok(false)
            } else if b == 1 {
                proof {
                    assert(bool_enc(true) =~= old(cur)@.subrange(0, 1));
                }
                Ok(true)
            } else {
                Err(FormatError::InvalidBool)
            }
        },
    }
}

/// Appends the single wire byte of `value`.
pub fn write_bool(value: bool, out: &mut Vec<u8>)
    ensures
        final(out)@ == old(out)@ + bool_enc(value),
{
    out.push(if value { 1u8 } else { 0u8 });
    proof {
        assert(out@ =~= old(out)@ + bool_enc(value));
    }
}

/// A signed single-byte field.
pub struct I8;

impl I8 {
    /// Reads one byte as a signed 8-bit value.
    pub fn read(cur: &mut Cursor) -> (r: Result<i8, FormatError>)
        ensures
            r matches Ok(v) ==> old(cur)@.len() >= 1 && v == old(cur)@[0] as i8 && v as u8 == old(
                cur,
            )@[0] && final(cur)@ == old(cur)@.subrange(1, old(cur)@.len() as int),
            r is Ok <==> old(cur)@.len() >= 1,
            r is Err ==> r == Err::<i8, FormatError>(FormatError::Underrun) && final(cur)@ == old(
                cur,
            )@,
    {
        match cur.next() {
            None => Err(FormatError::Underrun),
            Some(b) => {
                proof {
                    assert((b as i8) as u8 == b) by (bit_vector);
                }
                Ok(b as i8)
            },
        }
    }
}

/// An unsigned single-byte field.
pub struct U8;

impl U8 {
    /// Reads one byte.
    pub fn read(cur: &mut Cursor) -> (r: Result<u8, FormatError>)
        ensures
            r matches Ok(v) ==> old(cur)@.len() >= 1 && v == old(cur)@[0] && final(cur)@ == old(
                cur,
            )@.subrange(1, old(cur)@.len() as int),
            r is Ok <==> old(cur)@.len() >= 1,
            r is Err ==> r == Err::<u8, FormatError>(FormatError::Underrun) && final(cur)@ == old(
                cur,
            )@,
    {
        match cur.next() {
            None => Err(FormatError::Underrun),
            Some(b) => Ok(b),
        }
    }
}

/// An unsigned big-endian two-byte field.
pub struct U16;

impl U16 {
    /// Reads two big-endian bytes as a 16-bit value.
    pub fn read(cur: &mut Cursor) -> (r: Result<u16, FormatError>)
        ensures
            r matches Ok(v) ==> old(cur)@.len() >= 2 && v == be16_val(old(cur)@) && be16(v) == old(
                cur,
            )@.subrange(0, 2) && final(cur)@ == old(cur)@.subrange(2, old(cur)@.len() as int),
            r is Ok <==> old(cur)@.len() >= 2,
            r is Err ==> r == Err::<u16, FormatError>(FormatError::Underrun) && final(cur)@ == old(
                cur,
            )@,
    {
        match cur.take(2) {
            None => Err(FormatError::Underrun),
            Some(bytes) => {
                let b0 = bytes[0];
                let b1 = bytes[1];
                let v: u16 = ((b0 as u16) << 8) | (b1 as u16);
                proof {
                    assert((v >> 8) as u8 == b0 && v as u8 == b1) by (bit_vector)
                        requires
                            v == ((b0 as u16) << 8) | (b1 as u16),
                    ;
                    assert(be16(v) =~= old(cur)@.subrange(0, 2));
                }
                Ok(v)
            },
        }
    }

    /// Appends the two big-endian bytes of `value`.
    pub fn write(value: u16, out: &mut Vec<u8>)
        ensures
            final(out)@ == old(out)@ + be16(value),
    {
        out.push((value >> 8) as u8);
        out.push(value as u8);
        proof {
            assert(out@ =~= old(out)@ + be16(value));
        }
    }
}

/// A signed big-endian eight-byte field.
pub struct I64;

impl I64 {
    /// Reads eight big-endian bytes as a signed 64-bit value.
    pub fn read(cur: &mut Cursor) -> (r: Result<i64, FormatError>)
        ensures
            r matches Ok(v) ==> old(cur)@.len() >= 8 && v == be64_val(old(cur)@) as i64 && be64(
                v as u64,
            ) == old(cur)@.subrange(0, 8) && final(cur)@ == old(cur)@.subrange(
                8,
                old(cur)@.len() as int,
            ),
            r is Ok <==> old(cur)@.len() >= 8,
            r is Err ==> r == Err::<i64, FormatError>(FormatError::Underrun) && final(cur)@ == old(
                cur,
            )@,
    {
        match read_u64(cur) {
            Ok(v) => {
                proof {
                    assert(((v as i64) as u64) == v) by (bit_vector);
                }
                Ok(v as i64)
            },
            Err(e) => Err(e),
        }
    }

    /// Appends the eight big-endian bytes of `value`.
    pub fn write(value: i64, out: &mut Vec<u8>)
        ensures
            final(out)@ == old(out)@ + be64(value as u64),
    {
        write_u64(value as u64, out);
    }
}

} // verus!

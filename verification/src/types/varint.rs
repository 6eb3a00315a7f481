//! The VarInt wire primitive: a signed 32-bit integer carried in one to five
//! bytes, seven data bits per byte, least-significant group first, with the
//! top bit of each byte marking a continuation.

use vstd::prelude::*;

use crate::cursor::Cursor;
use crate::error::FormatError;

verus! {

/// True of a wire byte whose continuation bit is set.
pub open spec fn has_cont(b: u8) -> bool {
    b & 0x80 != 0
}

/// The wire bytes of a value: low seven bits first, a continuation bit on
/// every byte but the last.
pub open spec fn varint_enc(v: u32) -> Seq<u8>
    decreases v,
{
    if v < 0x80 {
        seq![v as u8]
    } else {
        proof {
            assert(v >= 0x80 ==> (v >> 7) < v) by (bit_vector);
        }
        seq![((v & 0x7f) | 0x80) as u8] + varint_enc(v >> 7)
    }
}

/// How many bytes the encoding of `v` occupies.
pub open spec fn varint_size(v: u32) -> int {
    varint_enc(v).len() as int
}

/// The value and consumed length read from the front of `s`, with at most
/// `fuel` bytes still allowed; `None` when the bytes run out or every
/// allowed byte continues.
pub open spec fn varint_dec_fuel(s: Seq<u8>, fuel: int) -> Option<(u32, int)>
    decreases fuel,
{
    if fuel <= 0 || s.len() == 0 {
        None
    } else if !has_cont(s[0]) {
        Some(((s[0] & 0x7f) as u32, 1))
    } else {
        match varint_dec_fuel(s.subrange(1, s.len() as int), fuel - 1) {
            Some(p) => Some((((s[0] & 0x7f) as u32) | (p.0 << 7), p.1 + 1)),
            None => None,
        }
    }
}

/// The value and consumed length at the front of `s`, up to the five-byte
/// limit of the format.
pub open spec fn varint_dec(s: Seq<u8>) -> Option<(u32, int)> {
    varint_dec_fuel(s, 5)
}

/// A successful decode consumes at least one byte and never more than the
/// input or the byte allowance holds.
pub proof fn lemma_varint_dec_fuel_len(s: Seq<u8>, fuel: int)
    ensures
        varint_dec_fuel(s, fuel) matches Some(p) ==> 1 <= p.1 <= s.len() && p.1 <= fuel,
    decreases fuel,
{
    if fuel > 0 && s.len() > 0 && has_cont(s[0]) {
        lemma_varint_dec_fuel_len(s.subrange(1, s.len() as int), fuel - 1);
    }
}

/// An encoding never exceeds five bytes.
pub proof fn lemma_varint_size_bounds(v: u32)
    ensures
        1 <= varint_size(v) <= 5,
{
    let v1 = v >> 7;
    let v2 = v1 >> 7;
    let v3 = v2 >> 7;
    let v4 = v3 >> 7;
    assert(((((v >> 7) >> 7) >> 7) >> 7) < 0x80) by (bit_vector);
    assert(varint_size(v4) == 1);
    assert(varint_size(v3) <= 2);
    assert(varint_size(v2) <= 3);
    assert(varint_size(v1) <= 4);
    assert(varint_size(v) <= 5);
}

/// The byte count of an encoding grows by one for every seven significant
/// bits: one byte up to 0x7F, two up to 0x3FFF, and so on.
pub proof fn lemma_varint_size_formula(v: u32)
    ensures
        varint_size(v) == if v < 0x80 {
            1int
        } else if v < 0x4000 {
            2int
        } else if v < 0x20_0000 {
            3int
        } else if v < 0x1000_0000 {
            4int
        } else {
            5int
        },
    decreases v,
{
    if v >= 0x80 {
        assert(v >= 0x80 ==> (v >> 7) < v) by (bit_vector);
        lemma_varint_size_formula(v >> 7);
        assert(varint_size(v) == 1 + varint_size(v >> 7));
        assert((v >> 7) < 0x200_0000) by (bit_vector);
        assert(v < 0x4000 ==> (v >> 7) < 0x80) by (bit_vector);
        assert(v < 0x20_0000 ==> (v >> 7) < 0x4000) by (bit_vector);
        assert(v < 0x1000_0000 ==> (v >> 7) < 0x20_0000) by (bit_vector);
        assert(v >= 0x4000 ==> (v >> 7) >= 0x80) by (bit_vector);
        assert(v >= 0x20_0000 ==> (v >> 7) >= 0x4000) by (bit_vector);
        assert(v >= 0x1000_0000 ==> (v >> 7) >= 0x20_0000) by (bit_vector);
    }
}

proof fn lemma_varint_enc_dec_fuel(v: u32, rest: Seq<u8>, fuel: int)
    requires
        varint_size(v) <= fuel <= 5,
    ensures
        varint_dec_fuel(varint_enc(v) + rest, fuel) == Some((v, varint_size(v))),
    decreases v,
{
    let s = varint_enc(v) + rest;
    if v < 0x80 {
        assert(s[0] == v as u8);
        assert(v < 0x80 ==> (v as u8) & 0x80 == 0 && ((v as u8) & 0x7f) as u32 == v)
            by (bit_vector);
    } else {
        let b0: u8 = ((v & 0x7f) | 0x80) as u8;
        assert((((v & 0x7f) | 0x80) as u8) & 0x80 != 0) by (bit_vector);
        assert(v >= 0x80 ==> (v >> 7) < v) by (bit_vector);
        lemma_varint_size_bounds(v >> 7);
        lemma_varint_enc_dec_fuel(v >> 7, rest, fuel - 1);
        assert(s.subrange(1, s.len() as int) =~= varint_enc(v >> 7) + rest);
        assert(v >= 0x80 ==> ((((v & 0x7f) | 0x80) as u8) & 0x7f) as u32 | ((v >> 7) << 7) == v)
            by (bit_vector);
    }
}

/// Round trip: decoding the encoding of any value, whatever follows it,
/// yields that value back and consumes exactly its encoded length.
pub proof fn lemma_varint_round_trip(v: i32, rest: Seq<u8>)
    ensures
        varint_dec(varint_enc(v as u32) + rest) == Some((v as u32, varint_size(v as u32))),
        (v as u32) as i32 == v,
{
    lemma_varint_size_bounds(v as u32);
    lemma_varint_enc_dec_fuel(v as u32, rest, 5);
    assert((v as u32) as i32 == v) by (bit_vector);
}

/// A VarInt-valued field: a plain 32-bit integer together with its one-to-
/// five-byte wire form.
#[derive(Debug, Clone, Copy, PartialEq, Eq, Structural)]
pub struct VarInt(pub i32);

impl VarInt {
    /// The wire format never needs more than this many bytes.
    pub const MAX_LEN: usize = 5;

    pub fn new(value: i32) -> (r: Self)
        ensures
            r.0 == value,
    {
        VarInt(value)
    }

    /// The wrapped integer.
    pub fn value(self) -> (r: i32)
        ensures
            r == self.0,
    {
        self.0
    }

    /// The byte count of this value's encoding.
    pub fn size(&self) -> (r: usize)
        ensures
            r == varint_size(self.0 as u32),
    {
        Self::sizeof(self.0)
    }

    /// The byte count of the encoding of `value`.
    pub fn sizeof(value: i32) -> (r: usize)
        ensures
            r == varint_size(value as u32),
    {
        proof {
            lemma_varint_size_formula(value as u32);
        }
        let u: u32 = value as u32;
        if u < 0x80 {
            1
        } else if u < 0x4000 {
            2
        } else if u < 0x20_0000 {
            3
        } else if u < 0x1000_0000 {
            4
        } else {
            5
        }
    }
}

impl Default for VarInt {
    /// The zero VarInt, the value a fresh reader reports before any packet.
    fn default() -> (r: Self)
        ensures
            r.0 == 0,
    {
        VarInt(0)
    }
}

/// Appends the encoding of `value` to `out`; every 32-bit value encodes.
pub fn encode_varint(value: i32, out: &mut Vec<u8>)
    ensures
        final(out)@ == old(out)@ + varint_enc(value as u32),
{
    let mut v: u32 = value as u32;
    while v >= 0x80
        invariant
            old(out)@ + varint_enc(value as u32) == out@ + varint_enc(v),
        decreases v,
    {
        let b: u8 = ((v & 0x7f) | 0x80) as u8;
        out.push(b);
        proof {
            assert(v >= 0x80 ==> (v >> 7) < v) by (bit_vector);
            assert(varint_enc(v) =~= seq![b] + varint_enc(v >> 7));
            assert(old(out)@ + varint_enc(value as u32) =~= out@ + varint_enc(v >> 7));
        }
        v = v >> 7;
    }
    out.push(v as u8);
    proof {
        assert(varint_enc(v) =~= seq![v as u8]);
        assert(out@ =~= old(out)@ + varint_enc(value as u32));
    }
}

fn decode_varint_u32(cur: &mut Cursor, fuel: u32) -> (r: Result<u32, FormatError>)
    requires
        1 <= fuel <= 5,
    ensures
        r matches Ok(v) ==> (varint_dec_fuel(old(cur)@, fuel as int) matches Some(p) && p.0 == v
            && final(cur)@ == old(cur)@.subrange(p.1, old(cur)@.len() as int)),
        r is Ok <==> varint_dec_fuel(old(cur)@, fuel as int) is Some,
        r == Err::<u32, FormatError>(FormatError::TooLong) <==> (old(cur)@.len() >= fuel && (
        forall|j: int| 0 <= j < fuel ==> has_cont(#[trigger] old(cur)@[j]))),
        r == Err::<u32, FormatError>(FormatError::Underrun) <==> (old(cur)@.len() < fuel && (
        forall|j: int| 0 <= j < old(cur)@.len() ==> has_cont(#[trigger] old(cur)@[j]))),
        r matches Err(e) ==> (e == FormatError::TooLong || e == FormatError::Underrun),
    decreases fuel,
{
    match cur.next() {
        None => Err(FormatError::Underrun),
        Some(b) => {
            if b & 0x80 == 0 {
                Ok((b & 0x7f) as u32)
            } else if fuel == 1 {
                Err(FormatError::TooLong)
            } else {
                let ghost mid = cur@;
                let inner = decode_varint_u32(cur, fuel - 1);
                proof {
                    assert(mid =~= old(cur)@.subrange(1, old(cur)@.len() as int));
                    lemma_varint_dec_fuel_len(mid, fuel as int - 1);
                    assert(varint_dec_fuel(old(cur)@, fuel as int) == match varint_dec_fuel(
                        mid,
                        fuel as int - 1,
                    ) {
                        Some(p) => Some((((old(cur)@[0] & 0x7f) as u32) | (p.0 << 7), p.1 + 1)),
                        None => None,
                    });
                    assert(forall|j: int|
                        1 <= j < old(cur)@.len() ==> #[trigger] old(cur)@[j] == mid[j - 1]);
                    assert forall|k: int| 0 <= k <= mid.len() implies mid.subrange(
                        k,
                        mid.len() as int,
                    ) =~= old(cur)@.subrange(k + 1, old(cur)@.len() as int) by {}
                }
                match inner {
                    Ok(v) => Ok(((b & 0x7f) as u32) | (v << 7)),
                    Err(e) => Err(e),
                }
            }
        },
    }
}

/// Reads one VarInt from the front of the cursor. Succeeds exactly when a
/// byte without the continuation bit appears within the first five bytes;
/// five continuing bytes are the `TooLong` fault and running out of bytes
/// first is `Underrun`.
pub fn decode_varint(cur: &mut Cursor) -> (r: Result<i32, FormatError>)
    ensures
        r matches Ok(v) ==> (varint_dec(old(cur)@) matches Some(p) && p.0 as i32 == v
            && final(cur)@ == old(cur)@.subrange(p.1, old(cur)@.len() as int)),
        r is Ok <==> varint_dec(old(cur)@) is Some,
        r == Err::<i32, FormatError>(FormatError::TooLong) <==> (old(cur)@.len() >= 5 && (forall|
        j: int| 0 <= j < 5 ==> has_cont(#[trigger] old(cur)@[j]))),
        r == Err::<i32, FormatError>(FormatError::Underrun) <==> (old(cur)@.len() < 5 && (forall|
        j: int| 0 <= j < old(cur)@.len() ==> has_cont(#[trigger] old(cur)@[j]))),
        r matches Err(e) ==> (e == FormatError::TooLong || e == FormatError::Underrun),
{
    match decode_varint_u32(cur, 5) {
        Ok(v) => Ok(v as i32),
        Err(e) => Err(e),
    }
}

} // verus!

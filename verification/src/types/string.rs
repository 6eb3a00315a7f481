//! The string wire primitive: a VarInt byte-length prefix followed by that
//! many bytes of UTF-8 text, at most 32767 encoded bytes.
//!
//! Text from an untrusted peer is rejected when it is not valid UTF-8 (a
//! format error), never silently repaired; a declared byte count above the
//! limit is refused the same way an over-long string is refused on encode.

use vstd::prelude::*;

use vstd::utf8::{decode_utf8, encode_utf8, encode_utf8_decode_utf8, encode_utf8_valid_utf8,
    valid_utf8};

use crate::cursor::Cursor;
use crate::error::FormatError;
use crate::types::varint::{decode_varint, encode_varint, lemma_varint_round_trip, varint_dec,
    varint_enc};

verus! {

/// Whether a string fits the wire limit of 32767 encoded bytes.
pub open spec fn string_fits(s: Seq<char>) -> bool {
    encode_utf8(s).len() <= 32767
}

/// The wire bytes of a string: its UTF-8 byte count as a VarInt, then the
/// UTF-8 bytes themselves.
pub open spec fn string_enc(s: Seq<char>) -> Seq<u8> {
    varint_enc(encode_utf8(s).len() as u32) + encode_utf8(s)
}

/// The text and consumed length read from the front of `b`: a byte count
/// within the limit, that many available bytes, and valid UTF-8 in them.
pub open spec fn string_dec(b: Seq<u8>) -> Option<(Seq<char>, int)> {
    match varint_dec(b) {
        Some(p) => if p.0 <= 32767 && p.1 + p.0 <= b.len() && valid_utf8(
            b.subrange(p.1, p.1 + p.0 as int),
        ) {
            Some((decode_utf8(b.subrange(p.1, p.1 + p.0 as int)), p.1 + p.0 as int))
        } else {
            None
        },
        None => None,
    }
}

/// A successful string decode consumes at least one byte and never more
/// than the input holds.
pub proof fn lemma_string_dec_len(b: Seq<u8>)
    ensures
        string_dec(b) matches Some(q) ==> 1 <= q.1 <= b.len(),
{
    crate::types::varint::lemma_varint_dec_fuel_len(b, 5);
}

/// Round trip: a string within the wire limit, encoded and then decoded
/// with anything at all appended, is returned exactly.
pub proof fn lemma_string_round_trip(s: Seq<char>, rest: Seq<u8>)
    requires
        string_fits(s),
    ensures
        string_dec(string_enc(s) + rest) == Some((s, string_enc(s).len() as int)),
{
    let bytes = encode_utf8(s);
    let n: u32 = bytes.len() as u32;
    let whole = string_enc(s) + rest;
    assert(whole =~= varint_enc(n) + (bytes + rest));
    lemma_varint_round_trip(n as i32, bytes + rest);
    assert((n as i32) as u32 == n) by (bit_vector)
        requires
            n <= 32767,
    ;
    let p = varint_dec(whole)->Some_0;
    assert(whole.subrange(p.1, p.1 + p.0 as int) =~= bytes);
    encode_utf8_valid_utf8(s);
    encode_utf8_decode_utf8(s);
}

/// Relies on `String::from_utf8`: it returns the string holding exactly
/// the given bytes when they are valid UTF-8, and refuses them otherwise.
#[verifier::external_body]
fn string_from_utf8(bytes: Vec<u8>) -> (r: Option<String>)
    ensures
        r matches Some(s) ==> encode_utf8(s@) == bytes@,
        r is Some <==> valid_utf8(bytes@),
{
    match String::from_utf8(bytes) {
        Ok(s) => Some(s),
        Err(_) => None,
    }
}

/// A text field, held as an owned string.
#[derive(Debug, Clone, PartialEq, Eq)]
pub struct MCString(pub String);

impl View for MCString {
    type V = Seq<char>;

    open spec fn view(&self) -> Seq<char> {
        self.0@
    }
}

impl MCString {
    /// The largest encoded byte count a string field may carry.
    pub const MAX_LENGTH: usize = 32767;

    pub fn new(value: String) -> (r: MCString)
        ensures
            r@ == value@,
    {
        MCString(value)
    }

    /// Reads a VarInt byte count, then that many bytes as UTF-8 text.
    pub fn read(cur: &mut Cursor) -> (r: Result<MCString, FormatError>)
        ensures
            r matches Ok(v) ==> (string_dec(old(cur)@) matches Some(q) && q.0 == v@ && string_fits(
                v@,
            ) && final(cur)@ == old(cur)@.subrange(q.1, old(cur)@.len() as int)),
            r is Ok <==> string_dec(old(cur)@) is Some,
            r == Err::<MCString, FormatError>(FormatError::StringTooLong) <==> (varint_dec(
                old(cur)@,
            ) matches Some(p) && p.0 > 32767),
            r == Err::<MCString, FormatError>(FormatError::InvalidUtf8) <==> (varint_dec(
                old(cur)@,
            ) matches Some(p) && p.0 <= 32767 && p.1 + p.0 <= old(cur)@.len() && !valid_utf8(
                old(cur)@.subrange(p.1, p.1 + p.0 as int),
            )),
            r == Err::<MCString, FormatError>(FormatError::TooLong) <==> (old(cur)@.len() >= 5 && (
            forall|j: int| 0 <= j < 5 ==> #[trigger] old(cur)@[j] & 0x80 != 0)),
            r == Err::<MCString, FormatError>(FormatError::Underrun) <==> ((old(cur)@.len() < 5
                && (forall|j: int|
                0 <= j < old(cur)@.len() ==> #[trigger] old(cur)@[j] & 0x80 != 0)) || (varint_dec(
                old(cur)@,
            ) matches Some(p) && p.0 <= 32767 && p.1 + p.0 > old(cur)@.len())),
    {
        let ghost s0 = cur@;
        let n: i32 = match decode_varint(cur) {
            Ok(n) => n,
            Err(e) => {
                return Err(e);
            },
        };
        proof {
            let u: u32 = varint_dec(s0)->Some_0.0;
            assert(u > 32767 <==> ((u as i32) < 0 || (u as i32) > 32767)) by (bit_vector);
        }
        if n < 0 || n > 32767 {
            return Err(FormatError::StringTooLong);
        }
        let ghost s1 = cur@;
        let bytes = match cur.take(n as usize) {
            Some(b) => b,
            None => {
                proof {
                    crate::types::varint::lemma_varint_dec_fuel_len(s0, 5);
                    let p = varint_dec(s0)->Some_0;
                    assert(p.0 == n as u32);
                    assert(p.1 + p.0 > s0.len());
                }
                return Err(FormatError::Underrun);
            },
        };
        proof {
            crate::types::varint::lemma_varint_dec_fuel_len(s0, 5);
            let p = varint_dec(s0)->Some_0;
            assert(p.0 == n as u32);
            assert(bytes@ =~= s0.subrange(p.1, p.1 + p.0 as int));
            assert(cur@ =~= s0.subrange(p.1 + p.0 as int, s0.len() as int));
        }
        match string_from_utf8(bytes) {
            Some(s) => {
                proof {
                    encode_utf8_decode_utf8(s@);
                }
                Ok(MCString(s))
            },
            None => Err(FormatError::InvalidUtf8),
        }
    }

    /// Appends the byte-count prefix and the UTF-8 bytes of this string;
    /// refuses a string whose encoding exceeds the limit, appending nothing.
    pub fn write(&self, out: &mut Vec<u8>) -> (r: Result<(), FormatError>)
        ensures
            string_fits(self@) ==> r is Ok && final(out)@ == old(out)@ + string_enc(self@),
            !string_fits(self@) ==> r == Err::<(), FormatError>(FormatError::StringTooLong)
                && final(out)@ == old(out)@,
    {
        let bytes: &[u8] = self.0.as_str().as_bytes();
        let n: usize = bytes.len();
        if n > Self::MAX_LENGTH {
            return Err(FormatError::StringTooLong);
        }
        encode_varint(n as i32, out);
        let mut i: usize = 0;
        while i < bytes.len()
            invariant
                i <= bytes.len(),
                bytes@ == encode_utf8(self@),
                n == bytes@.len(),
                n <= 32767,
                out@ == old(out)@ + varint_enc(n as u32) + bytes@.subrange(0, i as int),
            decreases bytes.len() - i,
        {
            out.push(bytes[i]);
            proof {
                assert(out@ =~= old(out)@ + varint_enc(n as u32) + bytes@.subrange(0, i + 1));
            }
            i = i + 1;
        }
        proof {
            assert((n as i32) as u32 == n as u32) by (bit_vector)
                requires
                    n <= 32767,
            ;
            assert(bytes@.subrange(0, i as int) =~= bytes@);
            assert(out@ =~= old(out)@ + string_enc(self@));
        }
        Ok(())
    }
}

} // verus!

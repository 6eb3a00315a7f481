//! The one NBT shape this protocol sends: a lone string tag, used only to
//! carry a disconnect reason. Tag byte 8, a two-byte big-endian length,
//! then the text re-encoded in Java CESU-8 rather than plain UTF-8.

use vstd::prelude::*;

use crate::error::FormatError;
use crate::types::numbers::{be16, U16};

verus! {

/// The Java CESU-8 encoding of a text, a function of its characters alone.
pub uninterp spec fn cesu8_of(s: Seq<char>) -> Seq<u8>;

/// Relies on `cesu8::to_java_cesu8`: the Java-flavoured CESU-8 encoding of
/// the text, which depends on the characters alone; an empty text encodes
/// to no bytes.
#[verifier::external_body]
fn java_cesu8(s: &str) -> (r: Vec<u8>)
    ensures
        r@ == cesu8_of(s@),
        s@.len() == 0 ==> r@.len() == 0,
{
    cesu8::to_java_cesu8(s).into_owned()
}

/// Whether the CESU-8 form of a text fits the two-byte length field.
pub open spec fn nbt_fits(s: Seq<char>) -> bool {
    cesu8_of(s).len() <= 0xffff
}

/// The wire bytes of a string tag: tag byte 8, the CESU-8 byte count as
/// two big-endian bytes, then the CESU-8 bytes.
pub open spec fn nbt_enc(s: Seq<char>) -> Seq<u8> {
    seq![8u8] + be16(cesu8_of(s).len() as u16) + cesu8_of(s)
}

/// A single NBT string tag, held as an owned string.
#[derive(Debug, Clone, PartialEq, Eq)]
pub struct NBTString(pub String);

impl View for NBTString {
    type V = Seq<char>;

    open spec fn view(&self) -> Seq<char> {
        self.0@
    }
}

impl NBTString {
    /// The tag-type byte of a string tag.
    pub const ID: u8 = 8;

    pub fn new(value: String) -> (r: NBTString)
        ensures
            r@ == value@,
    {
        NBTString(value)
    }

    /// Appends the tag byte, the byte count and the CESU-8 bytes; text
    /// whose CESU-8 form overflows the two-byte length field is refused,
    /// with nothing appended.
    pub fn write(&self, out: &mut Vec<u8>) -> (r: Result<(), FormatError>)
        ensures
            nbt_fits(self@) ==> r is Ok && final(out)@ == old(out)@ + nbt_enc(self@),
            !nbt_fits(self@) ==> r == Err::<(), FormatError>(FormatError::StringTooLong)
                && final(out)@ == old(out)@,
    {
        let bytes = java_cesu8(self.0.as_str());
        let n: usize = bytes.len();
        if n > 0xffff {
            return Err(FormatError::StringTooLong);
        }
        out.push(Self::ID);
        U16::write(n as u16, out);
        let mut i: usize = 0;
        while i < bytes.len()
            invariant
                i <= bytes.len(),
                bytes@ == cesu8_of(self@),
                n == bytes@.len(),
                n <= 0xffff,
                out@ == old(out)@ + seq![8u8] + be16(n as u16) + bytes@.subrange(0, i as int),
            decreases bytes.len() - i,
        {
            out.push(bytes[i]);
            proof {
                assert(out@ =~= old(out)@ + seq![8u8] + be16(n as u16) + bytes@.subrange(
                    0,
                    i + 1,
                ));
            }
            i = i + 1;
        }
        proof {
            assert(bytes@.subrange(0, i as int) =~= bytes@);
            assert(out@ =~= old(out)@ + nbt_enc(self@));
        }
        Ok(())
    }
}

} // verus!

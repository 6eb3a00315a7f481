//! The per-connection outbound cursor: encode operations accumulate field
//! bytes in a staging buffer, and sending frames the buffer under one id
//! and empties it, so a partly-written packet is never observable.

use vstd::prelude::*;

use crate::error::FormatError;
use crate::packet::frame_bytes;
use crate::types::nbt::{nbt_enc, nbt_fits, NBTString};
use crate::types::numbers::{be16, be64, be128, bool_enc, write_bool, write_u128, I64, U16};
use crate::types::position::{position_enc, Position};
use crate::types::string::{string_enc, string_fits, MCString};
use crate::types::varint::{encode_varint, lemma_varint_size_bounds, varint_enc, varint_size,
    VarInt};

verus! {

/// The staging half of a connection: already-encoded field bytes waiting
/// to be framed into one packet.
pub struct ProtocolWriter {
    buf: Vec<u8>,
}

impl ProtocolWriter {
    /// The field bytes staged so far.
    pub closed spec fn buffered(&self) -> Seq<u8> {
        self.buf@
    }

    /// A fresh writer with nothing staged.
    pub fn new() -> (r: ProtocolWriter)
        ensures
            r.buffered() == Seq::<u8>::empty(),
    {
        let r = ProtocolWriter { buf: Vec::new() };
        proof {
            assert(r.buffered() =~= Seq::<u8>::empty());
        }
        r
    }

    /// Stages one VarInt field.
    pub fn write_varint(&mut self, value: VarInt)
        ensures
            final(self).buffered() == old(self).buffered() + varint_enc(value.0 as u32),
    {
        encode_varint(value.0, &mut self.buf);
    }

    /// Stages one signed single-byte field.
    pub fn write_i8(&mut self, value: i8)
        ensures
            final(self).buffered() == old(self).buffered() + seq![value as u8],
    {
        self.buf.push(value as u8);
        proof {
            assert(self.buffered() =~= old(self).buffered() + seq![value as u8]);
        }
    }

    /// Stages one unsigned single-byte field.
    pub fn write_u8(&mut self, value: u8)
        ensures
            final(self).buffered() == old(self).buffered() + seq![value],
    {
        self.buf.push(value);
        proof {
            assert(self.buffered() =~= old(self).buffered() + seq![value]);
        }
    }

    /// Stages one boolean field.
    pub fn write_bool(&mut self, value: bool)
        ensures
            final(self).buffered() == old(self).buffered() + bool_enc(value),
    {
        write_bool(value, &mut self.buf);
    }

    /// Stages one big-endian 16-bit field.
    pub fn write_u16(&mut self, value: u16)
        ensures
            final(self).buffered() == old(self).buffered() + be16(value),
    {
        U16::write(value, &mut self.buf);
    }

    /// Stages one big-endian 64-bit field.
    pub fn write_i64(&mut self, value: i64)
        ensures
            final(self).buffered() == old(self).buffered() + be64(value as u64),
    {
        I64::write(value, &mut self.buf);
    }

    /// Stages one UUID field: sixteen big-endian bytes.
    pub fn write_uuid(&mut self, value: u128)
        ensures
            final(self).buffered() == old(self).buffered() + be128(value),
    {
        write_u128(value, &mut self.buf);
    }

    /// Stages one position field.
    pub fn write_position(&mut self, value: Position)
        ensures
            final(self).buffered() == old(self).buffered() + position_enc(value),
    {
        value.write(&mut self.buf);
    }

    /// Stages one string field; an over-long string is refused and the
    /// buffer is left as it was.
    pub fn write_string(&mut self, value: &MCString) -> (r: Result<(), FormatError>)
        ensures
            string_fits(value@) ==> r is Ok && final(self).buffered() == old(self).buffered()
                + string_enc(value@),
            !string_fits(value@) ==> r == Err::<(), FormatError>(FormatError::StringTooLong)
                && final(self).buffered() == old(self).buffered(),
    {
        value.write(&mut self.buf)
    }

    /// Stages one NBT string tag; text too long for its two-byte length
    /// field is refused and the buffer is left as it was.
    pub fn write_nbt(&mut self, value: &NBTString) -> (r: Result<(), FormatError>)
        ensures
            nbt_fits(value@) ==> r is Ok && final(self).buffered() == old(self).buffered()
                + nbt_enc(value@),
            !nbt_fits(value@) ==> r == Err::<(), FormatError>(FormatError::StringTooLong)
                && final(self).buffered() == old(self).buffered(),
    {
        value.write(&mut self.buf)
    }

    /// How many field bytes are staged and not yet framed.
    pub fn buffered_len(&self) -> (n: usize)
        ensures
            n == self.buffered().len(),
    {
        self.buf.len()
    }

    /// Discards everything staged, for a packet that will not be sent.
    pub fn clear(&mut self)
        ensures
            final(self).buffered() == Seq::<u8>::empty(),
    {
        self.buf.clear();
        proof {
            assert(self.buffered() =~= Seq::<u8>::empty());
        }
    }

    /// Frames the staged bytes under `id` and empties the buffer: the
    /// returned bytes are the whole packet, to reach the peer as one unit.
    pub fn send_packet(&mut self, id: VarInt) -> (r: Vec<u8>)
        requires
            old(self).buffered().len() + 5 <= 0x7fff_ffff,
        ensures
            r@ == frame_bytes(id.0, old(self).buffered()),
            final(self).buffered() == Seq::<u8>::empty(),
    {
        proof {
            lemma_varint_size_bounds(id.0 as u32);
        }
        let total: usize = VarInt::sizeof(id.0) + self.buf.len();
        let mut out: Vec<u8> = Vec::new();
        encode_varint(total as i32, &mut out);
        encode_varint(id.0, &mut out);
        proof {
            assert((total as i32) as u32 == total as u32) by (bit_vector)
                requires
                    total <= 0x7fff_ffff,
            ;
        }
        let mut i: usize = 0;
        while i < self.buf.len()
            invariant
                i <= self.buf@.len(),
                self.buf@ == old(self).buffered(),
                total == varint_size(id.0 as u32) + self.buf@.len(),
                total <= 0x7fff_ffff,
                out@ == varint_enc(total as u32) + varint_enc(id.0 as u32) + self.buf@.subrange(
                    0,
                    i as int,
                ),
            decreases self.buf@.len() - i,
        {
            out.push(self.buf[i]);
            proof {
                assert(out@ =~= varint_enc(total as u32) + varint_enc(id.0 as u32)
                    + self.buf@.subrange(0, i + 1));
            }
            i = i + 1;
        }
        self.buf.clear();
        proof {
            assert(old(self).buffered().subrange(0, old(self).buffered().len() as int) =~= old(self).buffered());
            assert(out@ =~= frame_bytes(id.0, old(self).buffered()));
            assert(self.buffered() =~= Seq::<u8>::empty());
        }
        out
    }
}

} // verus!

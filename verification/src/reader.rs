//! The per-connection inbound cursor: it holds the most recently framed
//! packet's id and length and the payload bytes not yet decoded, and
//! exposes one decode operation per wire primitive. When the payload is
//! spent, the caller loads the next packet before reading on.

use vstd::prelude::*;

use crate::cursor::Cursor;
use crate::error::FormatError;
use crate::packet::Packet;
use crate::types::numbers::{be16, be16_val, be64, be64_val, be128, be128_val, bool_enc, read_bool,
    read_u128, I64, I8, U16, U8};
use crate::types::string::{string_dec, string_fits, MCString};
use crate::types::varint::{decode_varint, varint_dec, varint_size, VarInt};

verus! {

/// The decoding half of a connection: the current packet's id and length,
/// and its remaining payload.
pub struct ProtocolReader {
    packet_id: VarInt,
    packet_length: usize,
    cursor: Cursor,
}

impl ProtocolReader {
    /// The id of the packet currently loaded.
    pub closed spec fn id_spec(&self) -> i32 {
        self.packet_id.0
    }

    /// The declared length of the packet currently loaded.
    pub closed spec fn len_spec(&self) -> usize {
        self.packet_length
    }

    /// The payload bytes not yet decoded.
    pub closed spec fn payload(&self) -> Seq<u8> {
        self.cursor@
    }

    /// A fresh reader with no packet loaded.
    pub fn new() -> (r: ProtocolReader)
        ensures
            r.id_spec() == 0,
            r.len_spec() == 0,
            r.payload() == Seq::<u8>::empty(),
    {
        let r = ProtocolReader {
            packet_id: VarInt(0),
            packet_length: 0,
            cursor: Cursor::new(Vec::new()),
        };
        proof {
            assert(r.payload() =~= Seq::<u8>::empty());
        }
        r
    }

    /// True when the current payload is spent and the next field read
    /// needs a fresh packet first.
    pub fn needs_packet(&self) -> (b: bool)
        ensures
            b == (self.payload().len() == 0),
    {
        self.cursor.is_empty()
    }

    /// Makes `p` the current packet: its id and derived length are
    /// remembered and its payload becomes the bytes to decode.
    pub fn load_packet(&mut self, p: Packet)
        requires
            p.data@.len() + 5 <= usize::MAX,
        ensures
            final(self).id_spec() == p.id.0,
            final(self).len_spec() == varint_size(p.id.0 as u32) + p.data@.len(),
            final(self).payload() == p.data@,
    {
        self.packet_id = p.id;
        self.packet_length = p.length();
        self.cursor = Cursor::new(p.data);
    }

    /// The id of the currently loaded packet.
    pub fn packet_id(&self) -> (r: VarInt)
        ensures
            r.0 == self.id_spec(),
    {
        self.packet_id
    }

    /// The declared length of the currently loaded packet.
    pub fn packet_length(&self) -> (r: usize)
        ensures
            r == self.len_spec(),
    {
        self.packet_length
    }

    /// Decodes one VarInt field from the payload.
    pub fn read_varint(&mut self) -> (r: Result<VarInt, FormatError>)
        ensures
            final(self).id_spec() == old(self).id_spec(),
            final(self).len_spec() == old(self).len_spec(),
            r matches Ok(v) ==> (varint_dec(old(self).payload()) matches Some(p) && p.0 as i32
                == v.0 && final(self).payload() == old(self).payload().subrange(
                p.1,
                old(self).payload().len() as int,
            )),
            r is Ok <==> varint_dec(old(self).payload()) is Some,
            r matches Err(e) ==> (e == FormatError::TooLong || e == FormatError::Underrun),
    {
        match decode_varint(&mut self.cursor) {
            Ok(v) => Ok(VarInt(v)),
            Err(e) => Err(e),
        }
    }

    /// Decodes one signed byte from the payload.
    pub fn read_i8(&mut self) -> (r: Result<i8, FormatError>)
        ensures
            final(self).id_spec() == old(self).id_spec(),
            final(self).len_spec() == old(self).len_spec(),
            r matches Ok(v) ==> old(self).payload().len() >= 1 && v == old(self).payload()[0] as i8
                && final(self).payload() == old(self).payload().subrange(
                1,
                old(self).payload().len() as int,
            ),
            r is Ok <==> old(self).payload().len() >= 1,
            r is Err ==> r == Err::<i8, FormatError>(FormatError::Underrun),
    {
        I8::read(&mut self.cursor)
    }

    /// Decodes one unsigned byte from the payload.
    pub fn read_u8(&mut self) -> (r: Result<u8, FormatError>)
        ensures
            final(self).id_spec() == old(self).id_spec(),
            final(self).len_spec() == old(self).len_spec(),
            r matches Ok(v) ==> old(self).payload().len() >= 1 && v == old(self).payload()[0]
                && final(self).payload() == old(self).payload().subrange(
                1,
                old(self).payload().len() as int,
            ),
            r is Ok <==> old(self).payload().len() >= 1,
            r is Err ==> r == Err::<u8, FormatError>(FormatError::Underrun),
    {
        U8::read(&mut self.cursor)
    }

    /// Decodes one boolean from the payload; only 0x00 and 0x01 are valid.
    pub fn read_bool(&mut self) -> (r: Result<bool, FormatError>)
        ensures
            final(self).id_spec() == old(self).id_spec(),
            final(self).len_spec() == old(self).len_spec(),
            r matches Ok(v) ==> old(self).payload().len() >= 1 && bool_enc(v) == old(self).payload().subrange(0, 1) && final(self).payload() == old(self).payload().subrange(
                1,
                old(self).payload().len() as int,
            ),
            r is Ok <==> (old(self).payload().len() >= 1 && old(self).payload()[0] <= 1),
            r == Err::<bool, FormatError>(FormatError::InvalidBool) <==> (old(self).payload().len() >= 1 && old(self).payload()[0] > 1),
            r == Err::<bool, FormatError>(FormatError::Underrun) <==> old(self).payload().len()
                == 0,
    {
        read_bool(&mut self.cursor)
    }

    /// Decodes one big-endian 16-bit field from the payload.
    pub fn read_u16(&mut self) -> (r: Result<u16, FormatError>)
        ensures
            final(self).id_spec() == old(self).id_spec(),
            final(self).len_spec() == old(self).len_spec(),
            r matches Ok(v) ==> old(self).payload().len() >= 2 && v == be16_val(
                old(self).payload(),
            ) && be16(v) == old(self).payload().subrange(0, 2) && final(self).payload() == old(self).payload().subrange(2, old(self).payload().len() as int),
            r is Ok <==> old(self).payload().len() >= 2,
            r is Err ==> r == Err::<u16, FormatError>(FormatError::Underrun),
    {
        U16::read(&mut self.cursor)
    }

    /// Decodes one big-endian 64-bit field from the payload.
    pub fn read_i64(&mut self) -> (r: Result<i64, FormatError>)
        ensures
            final(self).id_spec() == old(self).id_spec(),
            final(self).len_spec() == old(self).len_spec(),
            r matches Ok(v) ==> old(self).payload().len() >= 8 && v == be64_val(
                old(self).payload(),
            ) as i64 && be64(v as u64) == old(self).payload().subrange(0, 8) && final(self).payload() == old(self).payload().subrange(8, old(self).payload().len() as int),
            r is Ok <==> old(self).payload().len() >= 8,
            r is Err ==> r == Err::<i64, FormatError>(FormatError::Underrun),
    {
        I64::read(&mut self.cursor)
    }

    /// Decodes one string field from the payload.
    pub fn read_string(&mut self) -> (r: Result<MCString, FormatError>)
        ensures
            final(self).id_spec() == old(self).id_spec(),
            final(self).len_spec() == old(self).len_spec(),
            r matches Ok(v) ==> (string_dec(old(self).payload()) matches Some(q) && q.0 == v@
                && string_fits(v@) && final(self).payload() == old(self).payload().subrange(
                q.1,
                old(self).payload().len() as int,
            )),
            r is Ok <==> string_dec(old(self).payload()) is Some,
    {
        MCString::read(&mut self.cursor)
    }

    /// Decodes one UUID, sixteen big-endian bytes, from the payload.
    pub fn read_uuid(&mut self) -> (r: Result<u128, FormatError>)
        ensures
            final(self).id_spec() == old(self).id_spec(),
            final(self).len_spec() == old(self).len_spec(),
            r matches Ok(v) ==> old(self).payload().len() >= 16 && v == be128_val(
                old(self).payload(),
            ) && be128(v) == old(self).payload().subrange(0, 16) && final(self).payload() == old(self).payload().subrange(16, old(self).payload().len() as int),
            r is Ok <==> old(self).payload().len() >= 16,
            r is Err ==> r == Err::<u128, FormatError>(FormatError::Underrun),
    {
        read_u128(&mut self.cursor)
    }
}

} // verus!

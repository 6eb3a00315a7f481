//! The packet envelope: a VarInt length prefix over a VarInt id and a raw
//! payload. The length is always derived from the parts, never trusted on
//! its own.

use vstd::prelude::*;

use crate::cursor::Cursor;
use crate::error::FormatError;
use crate::types::varint::{decode_varint, encode_varint, lemma_varint_size_bounds, varint_dec,
    varint_enc, varint_size, VarInt};

verus! {

/// The framed bytes of a packet: the byte count of id and payload as a
/// VarInt, then the id as a VarInt, then the payload.
pub open spec fn frame_bytes(id: i32, payload: Seq<u8>) -> Seq<u8> {
    varint_enc((varint_size(id as u32) + payload.len()) as u32) + varint_enc(id as u32) + payload
}

/// One protocol message: its id and the payload bytes after the id.
pub struct Packet {
    pub id: VarInt,
    pub data: Vec<u8>,
}

impl Packet {
    pub fn new(id: VarInt, data: Vec<u8>) -> (r: Packet)
        ensures
            r.id == id,
            r.data@ == data@,
    {
        Packet { id, data }
    }

    /// The byte count of the id encoding plus the payload: the value the
    /// length prefix carries.
    pub fn length(&self) -> (r: usize)
        requires
            self.data@.len() + 5 <= usize::MAX,
        ensures
            r == varint_size(self.id.0 as u32) + self.data@.len(),
    {
        proof {
            lemma_varint_size_bounds(self.id.0 as u32);
        }
        self.id.size() + self.data.len()
    }

    /// The complete framed form, ready to cross the wire as one unit.
    pub fn frame(&self) -> (r: Vec<u8>)
        requires
            self.data@.len() + 5 <= 0x7fff_ffff,
        ensures
            r@ == frame_bytes(self.id.0, self.data@),
    {
        proof {
            lemma_varint_size_bounds(self.id.0 as u32);
        }
        let total: usize = self.length();
        let mut out: Vec<u8> = Vec::new();
        encode_varint(total as i32, &mut out);
        encode_varint(self.id.0, &mut out);
        proof {
            assert((total as i32) as u32 == total as u32) by (bit_vector)
                requires
                    total <= 0x7fff_ffff,
            ;
        }
        let mut i: usize = 0;
        while i < self.data.len()
            invariant
                i <= self.data@.len(),
                total == varint_size(self.id.0 as u32) + self.data@.len(),
                total <= 0x7fff_ffff,
                out@ == varint_enc(total as u32) + varint_enc(self.id.0 as u32)
                    + self.data@.subrange(0, i as int),
            decreases self.data@.len() - i,
        {
            out.push(self.data[i]);
            proof {
                assert(out@ =~= varint_enc(total as u32) + varint_enc(self.id.0 as u32)
                    + self.data@.subrange(0, i + 1));
            }
            i = i + 1;
        }
        proof {
            assert(self.data@.subrange(0, self.data@.len() as int) =~= self.data@);
            assert(out@ =~= frame_bytes(self.id.0, self.data@));
        }
        out
    }

    /// Splits one frame body, the bytes after the length prefix, into the
    /// packet id and the payload that follows it.
    pub fn parse(body: Vec<u8>) -> (r: Result<Packet, FormatError>)
        ensures
            r matches Ok(p) ==> (varint_dec(body@) matches Some(q) && p.id.0 == q.0 as i32
                && p.data@ == body@.subrange(q.1, body@.len() as int)),
            r is Ok <==> varint_dec(body@) is Some,
            r matches Err(e) ==> (e == FormatError::TooLong || e == FormatError::Underrun),
    {
        let mut cur = Cursor::new(body);
        let id: i32 = match decode_varint(&mut cur) {
            Ok(v) => v,
            Err(e) => {
                return Err(e);
            },
        };
        let rem: usize = cur.remaining();
        match cur.take(rem) {
            Some(data) => Ok(Packet { id: VarInt(id), data }),
            None => {
                proof {
                    assert(false);
                }
                Err(FormatError::Underrun)
            },
        }
    }
}

} // verus!

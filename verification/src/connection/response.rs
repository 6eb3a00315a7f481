//! The outbound response shapes, each under its fixed packet id, and the
//! encoding that stages a response's fields and frames them as one packet.

use vstd::prelude::*;

use crate::connection::ClientConnection;
use crate::error::{Error, FormatError};
use crate::packet::frame_bytes;
use crate::types::nbt::{nbt_enc, nbt_fits, NBTString};
use crate::types::numbers::{be64, be128};
use crate::types::string::{string_dec, string_enc, string_fits, MCString};
use crate::types::varint::{lemma_varint_round_trip, lemma_varint_size_bounds, varint_dec,
    varint_enc, varint_size, VarInt};

verus! {

/// One outbound reply, under the table of fixed response ids.
#[derive(Debug, PartialEq)]
pub enum Response {
    Status { cluster_info: MCString },
    LoginPong { timestamp: i64 },
    LoginSuccess { uuid: u128, username: MCString },
    LoginDisconnect { message: MCString },
    ConfigurationDisconnect { message: NBTString },
    ConfigurationFinish,
}

/// The fixed packet id each response is sent under.
pub open spec fn response_id(response: &Response) -> i32 {
    match *response {
        Response::Status { .. } => 0,
        Response::LoginPong { .. } => 1,
        Response::LoginSuccess { .. } => 2,
        Response::LoginDisconnect { .. } => 0,
        Response::ConfigurationDisconnect { .. } => 2,
        Response::ConfigurationFinish => 3,
    }
}

/// Whether every text field of the response fits its wire limit.
pub open spec fn response_ok(response: &Response) -> bool {
    match *response {
        Response::Status { ref cluster_info } => string_fits(cluster_info@),
        Response::LoginPong { .. } => true,
        Response::LoginSuccess { ref username, .. } => string_fits(username@),
        Response::LoginDisconnect { ref message } => string_fits(message@),
        Response::ConfigurationDisconnect { ref message } => nbt_fits(message@),
        Response::ConfigurationFinish => true,
    }
}

/// The payload bytes of a response: its fields encoded in order.
pub open spec fn response_payload(response: &Response) -> Seq<u8> {
    match *response {
        Response::Status { ref cluster_info } => string_enc(cluster_info@),
        Response::LoginPong { timestamp } => be64(timestamp as u64),
        Response::LoginSuccess { uuid, ref username } => be128(uuid) + string_enc(username@)
            + varint_enc(0),
        Response::LoginDisconnect { ref message } => string_enc(message@),
        Response::ConfigurationDisconnect { ref message } => nbt_enc(message@),
        Response::ConfigurationFinish => Seq::empty(),
    }
}

/// The encoding of a string within the limit is itself bounded: the count
/// prefix takes at most five bytes.
proof fn lemma_string_enc_bound(s: Seq<char>)
    requires
        string_fits(s),
    ensures
        string_enc(s).len() <= 32772,
{
    lemma_varint_size_bounds(vstd::utf8::encode_utf8(s).len() as u32);
}

impl ClientConnection {
    /// Stages the response's fields and frames them under its fixed id;
    /// the returned bytes are one whole packet for the transport to send.
    /// A response whose text cannot fit is refused, and the staging
    /// buffer is left empty either way.
    pub fn send_response(&mut self, response: &Response) -> (r: Result<Vec<u8>, Error>)
        requires
            old(self).writer.buffered().len() == 0,
        ensures
            final(self).state == old(self).state,
            final(self).reader == old(self).reader,
            final(self).writer.buffered() == Seq::<u8>::empty(),
            response_ok(response) ==> (r matches Ok(b) && b@ == frame_bytes(
                response_id(response),
                response_payload(response),
            )),
            !response_ok(response) ==> r == Err::<Vec<u8>, Error>(
                Error::Format(FormatError::StringTooLong),
            ),
    {
        proof {
            assert(old(self).writer.buffered() =~= Seq::<u8>::empty());
        }
        match response {
            Response::Status { cluster_info } => {
                match self.writer.write_string(cluster_info) {
                    Ok(_) => {},
                    Err(e) => {
                        self.writer.clear();
                        return Err(Error::Format(e));
                    },
                }
                proof {
                    lemma_string_enc_bound(cluster_info@);
                }
                Ok(self.writer.send_packet(VarInt(0)))
            },
            Response::LoginPong { timestamp } => {
                self.writer.write_i64(*timestamp);
                Ok(self.writer.send_packet(VarInt(1)))
            },
            Response::LoginSuccess { uuid, username } => {
                self.writer.write_uuid(*uuid);
                match self.writer.write_string(username) {
                    Ok(_) => {},
                    Err(e) => {
                        self.writer.clear();
                        return Err(Error::Format(e));
                    },
                }
                self.writer.write_varint(VarInt(0));
                proof {
                    lemma_string_enc_bound(username@);
                    assert(varint_enc(0) =~= seq![0u8]);
                }
                Ok(self.writer.send_packet(VarInt(2)))
            },
            Response::LoginDisconnect { message } => {
                match self.writer.write_string(message) {
                    Ok(_) => {},
                    Err(e) => {
                        self.writer.clear();
                        return Err(Error::Format(e));
                    },
                }
                proof {
                    lemma_string_enc_bound(message@);
                }
                Ok(self.writer.send_packet(VarInt(0)))
            },
            Response::ConfigurationDisconnect { message } => {
                match self.writer.write_nbt(message) {
                    Ok(_) => {},
                    Err(e) => {
                        self.writer.clear();
                        return Err(Error::Format(e));
                    },
                }
                Ok(self.writer.send_packet(VarInt(2)))
            },
            Response::ConfigurationFinish => {
                Ok(self.writer.send_packet(VarInt(3)))
            },
        }
    }
}

/// The frame of a status response laid out byte by byte: the total length
/// as a VarInt, the id zero as one VarInt byte, the body's byte count as a
/// VarInt, then the body bytes; and reading the frame body back yields id
/// zero and the same string.
pub proof fn lemma_status_frame(body: Seq<char>)
    requires
        string_fits(body),
    ensures
        frame_bytes(0, string_enc(body)) == varint_enc((1 + string_enc(body).len()) as u32)
            + seq![0u8] + varint_enc(vstd::utf8::encode_utf8(body).len() as u32)
            + vstd::utf8::encode_utf8(body),
        varint_dec(varint_enc(0) + string_enc(body)) == Some((0u32, 1int)),
        string_dec(string_enc(body)) matches Some(q) && q.0 == body,
{
    lemma_varint_round_trip(0, string_enc(body));
    assert(varint_enc(0) =~= seq![0u8]);
    assert(varint_size(0) == 1);
    assert(frame_bytes(0, string_enc(body)) =~= varint_enc((1 + string_enc(body).len()) as u32)
        + seq![0u8] + varint_enc(vstd::utf8::encode_utf8(body).len() as u32)
        + vstd::utf8::encode_utf8(body));
    crate::types::string::lemma_string_round_trip(body, Seq::empty());
    assert(string_enc(body) + Seq::<u8>::empty() =~= string_enc(body));
}

} // verus!

//! The inbound request shapes, keyed by phase and packet id, and the
//! dispatch that decodes the loaded packet into one of them.

use vstd::prelude::*;

use crate::connection::ClientConnection;
use crate::error::{Error, ProtocolError};
use crate::types::enums::ClientState;
use crate::types::numbers::{bool_dec, i8_dec, i64_dec, u8_dec, u128_dec};
use crate::types::string::{string_dec, MCString};
use crate::types::varint::{varint_dec, VarInt};

verus! {

/// One decoded inbound packet, with the id it arrived under.
#[derive(Debug, PartialEq)]
pub enum Request {
    Status { packet_id: VarInt },
    Ping { packet_id: VarInt, timestamp: i64 },
    LoginStart { packet_id: VarInt, username: MCString, uuid: u128 },
    LoginAcknowledged { packet_id: VarInt },
    ClientConfiguration {
        packet_id: VarInt,
        locale: MCString,
        view_distance: i8,
        chat_mode: VarInt,
        enable_chat_colors: bool,
        displayed_skin_parts: u8,
        main_hand: VarInt,
        enable_text_filtering: bool,
        allow_server_listings: bool,
        particle_status: VarInt,
    },
    PluginMessage { packet_id: VarInt, id: MCString, data: MCString },
    AcknowledgeFinishConfiguration { packet_id: VarInt },
}

/// The mathematical shape of a request: its fields as plain values.
pub enum RequestView {
    Status,
    Ping { timestamp: i64 },
    LoginStart { username: Seq<char>, uuid: u128 },
    LoginAcknowledged,
    ClientConfiguration {
        locale: Seq<char>,
        view_distance: i8,
        chat_mode: i32,
        enable_chat_colors: bool,
        displayed_skin_parts: u8,
        main_hand: i32,
        enable_text_filtering: bool,
        allow_server_listings: bool,
        particle_status: i32,
    },
    PluginMessage { id: Seq<char>, data: Seq<char> },
    AcknowledgeFinishConfiguration,
}

impl View for Request {
    type V = RequestView;

    open spec fn view(&self) -> RequestView {
        match *self {
            Request::Status { .. } => RequestView::Status,
            Request::Ping { timestamp, .. } => RequestView::Ping { timestamp },
            Request::LoginStart { ref username, uuid, .. } => RequestView::LoginStart {
                username: username@,
                uuid,
            },
            Request::LoginAcknowledged { .. } => RequestView::LoginAcknowledged,
            Request::ClientConfiguration {
                ref locale,
                view_distance,
                chat_mode,
                enable_chat_colors,
                displayed_skin_parts,
                main_hand,
                enable_text_filtering,
                allow_server_listings,
                particle_status,
                ..
            } => RequestView::ClientConfiguration {
                locale: locale@,
                view_distance,
                chat_mode: chat_mode.0,
                enable_chat_colors,
                displayed_skin_parts,
                main_hand: main_hand.0,
                enable_text_filtering,
                allow_server_listings,
                particle_status: particle_status.0,
            },
            Request::PluginMessage { ref id, ref data, .. } => RequestView::PluginMessage {
                id: id@,
                data: data@,
            },
            Request::AcknowledgeFinishConfiguration { .. } =>
                RequestView::AcknowledgeFinishConfiguration,
        }
    }
}

/// The packet id a request arrived under.
pub open spec fn request_id(request: &Request) -> i32 {
    match *request {
        Request::Status { packet_id } => packet_id.0,
        Request::Ping { packet_id, .. } => packet_id.0,
        Request::LoginStart { packet_id, .. } => packet_id.0,
        Request::LoginAcknowledged { packet_id } => packet_id.0,
        Request::ClientConfiguration { packet_id, .. } => packet_id.0,
        Request::PluginMessage { packet_id, .. } => packet_id.0,
        Request::AcknowledgeFinishConfiguration { packet_id } => packet_id.0,
    }
}

/// Whether a packet id belongs to a phase's inbound table.
pub open spec fn legal_packet(state: ClientState, id: i32) -> bool {
    match state {
        ClientState::Status => id == 0 || id == 1,
        ClientState::Login => id == 0 || id == 3,
        ClientState::Configuration => id == 0 || id == 2 || id == 3,
        ClientState::Play => false,
    }
}

/// The request and consumed length a phase's table assigns to a legal
/// packet id over the payload bytes `b`.
pub open spec fn request_dec(state: ClientState, id: i32, b: Seq<u8>) -> Option<
    (RequestView, int),
> {
    match state {
        ClientState::Status => {
            if id == 0 {
                Some((RequestView::Status, 0))
            } else {
                match i64_dec(b) {
                    None => None,
                    Some(q) => Some((RequestView::Ping { timestamp: q.0 }, q.1)),
                }
            }
        },
        ClientState::Login => {
            if id == 3 {
                Some((RequestView::LoginAcknowledged, 0))
            } else {
                match string_dec(b) {
                    None => None,
                    Some(q1) => {
                        let b1 = b.subrange(q1.1, b.len() as int);
                        match u128_dec(b1) {
                            None => None,
                            Some(q2) => Some(
                                (
                                    RequestView::LoginStart { username: q1.0, uuid: q2.0 },
                                    q1.1 + 16,
                                ),
                            ),
                        }
                    },
                }
            }
        },
        ClientState::Configuration => {
            if id == 3 {
                Some((RequestView::AcknowledgeFinishConfiguration, 0))
            } else if id == 2 {
                match string_dec(b) {
                    None => None,
                    Some(q1) => {
                        let b1 = b.subrange(q1.1, b.len() as int);
                        match string_dec(b1) {
                            None => None,
                            Some(q2) => Some(
                                (RequestView::PluginMessage { id: q1.0, data: q2.0 }, q1.1 + q2.1),
                            ),
                        }
                    },
                }
            } else {
                match string_dec(b) {
                    None => None,
                    Some(q1) => {
                        let b1 = b.subrange(q1.1, b.len() as int);
                        match i8_dec(b1) {
                            None => None,
                            Some(q2) => {
                                let b2 = b1.subrange(q2.1, b1.len() as int);
                                match varint_dec(b2) {
                                    None => None,
                                    Some(q3) => {
                                        let b3 = b2.subrange(q3.1, b2.len() as int);
                                        match bool_dec(b3) {
                                            None => None,
                                            Some(q4) => {
                                                let b4 = b3.subrange(q4.1, b3.len() as int);
                                                match u8_dec(b4) {
                                                    None => None,
                                                    Some(q5) => {
                                                        let b5 = b4.subrange(q5.1, b4.len() as int);
                                                        match varint_dec(b5) {
                                                            None => None,
                                                            Some(q6) => {
                                                                let b6 = b5.subrange(
                                                                    q6.1,
                                                                    b5.len() as int,
                                                                );
                                                                match bool_dec(b6) {
                                                                    None => None,
                                                                    Some(q7) => {
                                                                        let b7 = b6.subrange(
                                                                            q7.1,
                                                                            b6.len() as int,
                                                                        );
                                                                        match bool_dec(b7) {
                                                                            None => None,
                                                                            Some(q8) => {
                                                                                let b8 =
                                                                                    b7.subrange(
                                                                                    q8.1,
                                                                                    b7.len() as int,
                                                                                );
                                                                                match varint_dec(
                                                                                    b8,
                                                                                ) {
                                                                                    None => None,
                                                                                    Some(q9) =>
                                                                                        Some(
                                                                                        (
                                                                                            RequestView::ClientConfiguration {
                                                                                                locale: q1.0,
                                                                                                view_distance: q2.0,
                                                                                                chat_mode: q3.0 as i32,
                                                                                                enable_chat_colors: q4.0,
                                                                                                displayed_skin_parts: q5.0,
                                                                                                main_hand: q6.0 as i32,
                                                                                                enable_text_filtering: q7.0,
                                                                                                allow_server_listings: q8.0,
                                                                                                particle_status: q9.0 as i32,
                                                                                            },
                                                                                            q1.1
                                                                                                + q2.1
                                                                                                + q3.1
                                                                                                + q4.1
                                                                                                + q5.1
                                                                                                + q6.1
                                                                                                + q7.1
                                                                                                + q8.1
                                                                                                + q9.1,
                                                                                        ),
                                                                                    ),
                                                                                }
                                                                            },
                                                                        }
                                                                    },
                                                                }
                                                            },
                                                        }
                                                    },
                                                }
                                            },
                                        }
                                    },
                                }
                            },
                        }
                    },
                }
            }
        },
        ClientState::Play => None,
    }
}

impl ClientConnection {
    /// Decodes the loaded packet under the current phase's table. An id
    /// outside the table is refused, naming the id and the phase, and no
    /// payload is consumed for it.
    pub fn read_request(&mut self) -> (r: Result<Request, Error>)
        ensures
            final(self).state == old(self).state,
            final(self).writer == old(self).writer,
            final(self).reader.id_spec() == old(self).reader.id_spec(),
            final(self).reader.len_spec() == old(self).reader.len_spec(),
            !legal_packet(old(self).state, old(self).reader.id_spec()) ==> r == Err::<
                Request,
                Error,
            >(
                Error::Protocol(
                    ProtocolError::UnexpectedPacket {
                        id: old(self).reader.id_spec(),
                        state: old(self).state,
                    },
                ),
            ) && *final(self) == *old(self),
            r matches Ok(q) ==> legal_packet(old(self).state, old(self).reader.id_spec()) && (
            request_dec(
                old(self).state,
                old(self).reader.id_spec(),
                old(self).reader.payload(),
            ) matches Some(t) && q@ == t.0 && request_id(&q) == old(self).reader.id_spec()
                && final(self).reader.payload() == old(self).reader.payload().subrange(
                t.1,
                old(self).reader.payload().len() as int,
            )),
            r is Ok <==> (legal_packet(old(self).state, old(self).reader.id_spec())
                && request_dec(
                old(self).state,
                old(self).reader.id_spec(),
                old(self).reader.payload(),
            ) is Some),
            (legal_packet(old(self).state, old(self).reader.id_spec()) && request_dec(
                old(self).state,
                old(self).reader.id_spec(),
                old(self).reader.payload(),
            ) is None) ==> (r matches Err(e) && e is Format),
    {
        let packet_id = self.reader.packet_id();
        let id: i32 = packet_id.value();
        let ghost st = self.state;
        let ghost g0 = self.reader.payload();
        match (self.state, id) {
            (ClientState::Status, 0) => Ok(Request::Status { packet_id }),
            (ClientState::Status, 1) => {
                let timestamp = match self.reader.read_i64() {
                    Ok(v) => v,
                    Err(e) => {
                        return Err(Error::Format(e));
                    },
                };
                Ok(Request::Ping { packet_id, timestamp })
            },
            (ClientState::Login, 0) => {
                let username = match self.reader.read_string() {
                    Ok(v) => v,
                    Err(e) => {
                        return Err(Error::Format(e));
                    },
                };
                let ghost q1 = string_dec(g0)->Some_0;
                let ghost g1 = self.reader.payload();
                proof {
                    crate::types::string::lemma_string_dec_len(g0);
                    assert(g1 =~= g0.subrange(q1.1, g0.len() as int));
                }
                let uuid = match self.reader.read_uuid() {
                    Ok(v) => v,
                    Err(e) => {
                        return Err(Error::Format(e));
                    },
                };
                proof {
                    assert(self.reader.payload() =~= g0.subrange(q1.1 + 16, g0.len() as int));
                }
                Ok(Request::LoginStart { packet_id, username, uuid })
            },
            (ClientState::Login, 3) => Ok(Request::LoginAcknowledged { packet_id }),
            (ClientState::Configuration, 0) => self.read_client_configuration(packet_id),
            (ClientState::Configuration, 2) => {
                let channel = match self.reader.read_string() {
                    Ok(v) => v,
                    Err(e) => {
                        return Err(Error::Format(e));
                    },
                };
                let ghost q1 = string_dec(g0)->Some_0;
                let ghost g1 = self.reader.payload();
                proof {
                    crate::types::string::lemma_string_dec_len(g0);
                    assert(g1 =~= g0.subrange(q1.1, g0.len() as int));
                }
                let data = match self.reader.read_string() {
                    Ok(v) => v,
                    Err(e) => {
                        return Err(Error::Format(e));
                    },
                };
                let ghost q2 = string_dec(g1)->Some_0;
                proof {
                    crate::types::string::lemma_string_dec_len(g1);
                    assert(self.reader.payload() =~= g0.subrange(q1.1 + q2.1, g0.len() as int));
                }
                Ok(Request::PluginMessage { packet_id, id: channel, data })
            },
            (ClientState::Configuration, 3) => Ok(
                Request::AcknowledgeFinishConfiguration { packet_id },
            ),
            (_, _) => Err(
                Error::Protocol(ProtocolError::UnexpectedPacket { id, state: self.state }),
            ),
        }
    }

    /// Decodes the nine client-option fields of the configuration packet.
    #[verifier::rlimit(80)]
    fn read_client_configuration(&mut self, packet_id: VarInt) -> (r: Result<Request, Error>)
        requires
            packet_id.0 == old(self).reader.id_spec(),
        ensures
            final(self).state == old(self).state,
            final(self).writer == old(self).writer,
            final(self).reader.id_spec() == old(self).reader.id_spec(),
            final(self).reader.len_spec() == old(self).reader.len_spec(),
            r matches Ok(q) ==> (request_dec(
                ClientState::Configuration,
                0,
                old(self).reader.payload(),
            ) matches Some(t) && q@ == t.0 && request_id(&q) == packet_id.0 && final(self).reader.payload() == old(self).reader.payload().subrange(
                t.1,
                old(self).reader.payload().len() as int,
            )),
            r is Ok <==> request_dec(ClientState::Configuration, 0, old(self).reader.payload())
                is Some,
            r matches Err(e) ==> e is Format,
    {
        let ghost g0 = self.reader.payload();
        let locale = match self.reader.read_string() {
            Ok(v) => v,
            Err(e) => {
                return Err(Error::Format(e));
            },
        };
        let ghost q1 = string_dec(g0)->Some_0;
        let ghost g1 = self.reader.payload();
        proof {
            crate::types::string::lemma_string_dec_len(g0);
            assert(g1 =~= g0.subrange(q1.1, g0.len() as int));
        }
        let view_distance = match self.reader.read_i8() {
            Ok(v) => v,
            Err(e) => {
                return Err(Error::Format(e));
            },
        };
        let ghost g2 = self.reader.payload();
        proof {
            assert(g2 =~= g1.subrange(1, g1.len() as int));
            assert(g2 =~= g0.subrange(q1.1 + 1, g0.len() as int));
        }
        let chat_mode = match self.reader.read_varint() {
            Ok(v) => v,
            Err(e) => {
                return Err(Error::Format(e));
            },
        };
        let ghost q3 = varint_dec(g2)->Some_0;
        let ghost g3 = self.reader.payload();
        proof {
            crate::types::varint::lemma_varint_dec_fuel_len(g2, 5);
            assert(g3 =~= g2.subrange(q3.1, g2.len() as int));
            assert(g3 =~= g0.subrange(q1.1 + 1 + q3.1, g0.len() as int));
        }
        let enable_chat_colors = match self.reader.read_bool() {
            Ok(v) => v,
            Err(e) => {
                return Err(Error::Format(e));
            },
        };
        let ghost g4 = self.reader.payload();
        proof {
            assert(g3[0] == crate::types::numbers::bool_enc(enable_chat_colors)[0]);
            assert(enable_chat_colors == (g3[0] == 1));
            assert(g4 =~= g3.subrange(1, g3.len() as int));
            assert(g4 =~= g0.subrange(q1.1 + 1 + q3.1 + 1, g0.len() as int));
        }
        let displayed_skin_parts = match self.reader.read_u8() {
            Ok(v) => v,
            Err(e) => {
                return Err(Error::Format(e));
            },
        };
        let ghost g5 = self.reader.payload();
        proof {
            assert(g5 =~= g4.subrange(1, g4.len() as int));
            assert(g5 =~= g0.subrange(q1.1 + 1 + q3.1 + 2, g0.len() as int));
        }
        let main_hand = match self.reader.read_varint() {
            Ok(v) => v,
            Err(e) => {
                return Err(Error::Format(e));
            },
        };
        let ghost q6 = varint_dec(g5)->Some_0;
        let ghost g6 = self.reader.payload();
        proof {
            crate::types::varint::lemma_varint_dec_fuel_len(g5, 5);
            assert(g6 =~= g5.subrange(q6.1, g5.len() as int));
            assert(g6 =~= g0.subrange(q1.1 + 1 + q3.1 + 2 + q6.1, g0.len() as int));
        }
        let enable_text_filtering = match self.reader.read_bool() {
            Ok(v) => v,
            Err(e) => {
                return Err(Error::Format(e));
            },
        };
        let ghost g7 = self.reader.payload();
        proof {
            assert(g6[0] == crate::types::numbers::bool_enc(enable_text_filtering)[0]);
            assert(enable_text_filtering == (g6[0] == 1));
            assert(g7 =~= g6.subrange(1, g6.len() as int));
            assert(g7 =~= g0.subrange(q1.1 + 1 + q3.1 + 2 + q6.1 + 1, g0.len() as int));
        }
        let allow_server_listings = match self.reader.read_bool() {
            Ok(v) => v,
            Err(e) => {
                return Err(Error::Format(e));
            },
        };
        let ghost g8 = self.reader.payload();
        proof {
            assert(g7[0] == crate::types::numbers::bool_enc(allow_server_listings)[0]);
            assert(allow_server_listings == (g7[0] == 1));
            assert(g8 =~= g7.subrange(1, g7.len() as int));
            assert(g8 =~= g0.subrange(q1.1 + 1 + q3.1 + 2 + q6.1 + 2, g0.len() as int));
        }
        let particle_status = match self.reader.read_varint() {
            Ok(v) => v,
            Err(e) => {
                return Err(Error::Format(e));
            },
        };
        let ghost q9 = varint_dec(g8)->Some_0;
        proof {
            crate::types::varint::lemma_varint_dec_fuel_len(g8, 5);
            assert(self.reader.payload() =~= g8.subrange(q9.1, g8.len() as int));
            assert(self.reader.payload() =~= g0.subrange(
                q1.1 + 1 + q3.1 + 2 + q6.1 + 2 + q9.1,
                g0.len() as int,
            ));
        }
        Ok(
            Request::ClientConfiguration {
                packet_id,
                locale,
                view_distance,
                chat_mode,
                enable_chat_colors,
                displayed_skin_parts,
                main_hand,
                enable_text_filtering,
                allow_server_listings,
                particle_status,
            },
        )
    }
}

} // verus!

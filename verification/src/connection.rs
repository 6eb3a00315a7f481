//! The per-connection state machine: the handshake that selects the phase,
//! and the transition rules that map each legal request to its reply and
//! the next phase.

use vstd::prelude::*;

pub mod request;
pub mod response;

use crate::error::{Error, ProtocolError};
use crate::reader::ProtocolReader;
use crate::types::enums::ClientState;
use crate::types::numbers::u16_dec;
use crate::types::string::{string_dec, MCString};
use crate::types::varint::{varint_dec, VarInt};
use crate::writer::ProtocolWriter;

use request::{request_id, Request};
use response::Response;

verus! {

/// The fields of the mandatory first packet of a connection.
#[derive(Debug, PartialEq)]
pub struct Handshake {
    pub id: VarInt,
    pub protocol_ver: VarInt,
    pub host: MCString,
    pub port: u16,
    pub state: ClientState,
}

/// The handshake fields and consumed length read from the front of `b`:
/// protocol version, server address, server port, requested next state.
pub open spec fn handshake_dec(b: Seq<u8>) -> Option<(i32, Seq<char>, u16, i32, int)> {
    match varint_dec(b) {
        None => None,
        Some(pv) => {
            let b1 = b.subrange(pv.1, b.len() as int);
            match string_dec(b1) {
                None => None,
                Some(h) => {
                    let b2 = b1.subrange(h.1, b1.len() as int);
                    match u16_dec(b2) {
                        None => None,
                        Some(pt) => {
                            let b3 = b2.subrange(2, b2.len() as int);
                            match varint_dec(b3) {
                                None => None,
                                Some(ns) => Some(
                                    (pv.0 as i32, h.0, pt.0, ns.0 as i32, pv.1 + h.1 + 2 + ns.1),
                                ),
                            }
                        },
                    }
                },
            }
        },
    }
}

/// The phase a handshake's next-state number selects, if any.
pub open spec fn client_state_of(num: i32) -> Option<ClientState> {
    match num {
        1 => Some(ClientState::Status),
        2 => Some(ClientState::Login),
        3 => Some(ClientState::Play),
        _ => None,
    }
}

/// The process-wide configuration the state machine answers with: the
/// status document served to pings, and the reason sent to a rejected
/// login.
pub struct ServerConfig {
    pub status_json: MCString,
    pub reject_reason: MCString,
}

/// What the state machine decides for one request: the reply to send, if
/// any, the phase to move to, and whether the exchange is over.
pub struct Transition {
    pub response: Option<Response>,
    pub next_state: ClientState,
    pub close: bool,
}

/// One connection's protocol state: its phase and its two wire cursors.
pub struct ClientConnection {
    pub state: ClientState,
    pub reader: ProtocolReader,
    pub writer: ProtocolWriter,
}

impl ClientConnection {
    /// A fresh connection, before its handshake: the phase placeholder is
    /// Status until the handshake selects the real one.
    pub fn new() -> (r: ClientConnection)
        ensures
            r.state == ClientState::Status,
            r.reader.payload() == Seq::<u8>::empty(),
            r.reader.id_spec() == 0,
            r.writer.buffered() == Seq::<u8>::empty(),
    {
        ClientConnection { state: ClientState::Status, reader: ProtocolReader::new(), writer: ProtocolWriter::new() }
    }

    /// Consumes the loaded packet as the handshake: its id must be zero,
    /// its fields select the connection's phase.
    pub fn handshake(&mut self) -> (r: Result<Handshake, Error>)
        ensures
            final(self).writer == old(self).writer,
            old(self).reader.id_spec() != 0 ==> r == Err::<Handshake, Error>(
                Error::Protocol(
                    ProtocolError::UnexpectedHandshake { id: old(self).reader.id_spec() },
                ),
            ) && *final(self) == *old(self),
            r matches Ok(h) ==> old(self).reader.id_spec() == 0 && (handshake_dec(
                old(self).reader.payload(),
            ) matches Some(t) && h.id.0 == 0 && h.protocol_ver.0 == t.0 && h.host@ == t.1 && h.port
                == t.2 && client_state_of(t.3) == Some(h.state) && final(self).state == h.state
                && final(self).reader.payload() == old(self).reader.payload().subrange(
                t.4,
                old(self).reader.payload().len() as int,
            )),
            r is Ok <==> (old(self).reader.id_spec() == 0 && (handshake_dec(
                old(self).reader.payload(),
            ) matches Some(t) && client_state_of(t.3) is Some)),
            old(self).reader.id_spec() == 0 ==> (handshake_dec(
                old(self).reader.payload(),
            ) matches Some(t) ==> (client_state_of(t.3) is None ==> r == Err::<Handshake, Error>(
                Error::Protocol(ProtocolError::UnknownNextState { value: t.3 }),
            ))),
            (old(self).reader.id_spec() == 0 && handshake_dec(old(self).reader.payload()) is None)
                ==> (r matches Err(e) && e is Format),
    {
        let packet_id = self.reader.packet_id();
        if packet_id.value() != 0 {
            return Err(
                Error::Protocol(ProtocolError::UnexpectedHandshake { id: packet_id.value() }),
            );
        }
        let ghost g0 = self.reader.payload();
        let protocol_ver = match self.reader.read_varint() {
            Ok(v) => v,
            Err(e) => {
                return Err(Error::Format(e));
            },
        };
        let ghost pv = varint_dec(g0)->Some_0;
        let ghost g1 = self.reader.payload();
        proof {
            crate::types::varint::lemma_varint_dec_fuel_len(g0, 5);
            assert(g1 =~= g0.subrange(pv.1, g0.len() as int));
        }
        let host = match self.reader.read_string() {
            Ok(v) => v,
            Err(e) => {
                return Err(Error::Format(e));
            },
        };
        let ghost h = string_dec(g1)->Some_0;
        let ghost g2 = self.reader.payload();
        proof {
            crate::types::string::lemma_string_dec_len(g1);
            assert(g2 =~= g1.subrange(h.1, g1.len() as int));
            assert(g2 =~= g0.subrange(pv.1 + h.1, g0.len() as int));
        }
        let port = match self.reader.read_u16() {
            Ok(v) => v,
            Err(e) => {
                return Err(Error::Format(e));
            },
        };
        let ghost g3 = self.reader.payload();
        proof {
            assert(g3 =~= g2.subrange(2, g2.len() as int));
            assert(g3 =~= g0.subrange(pv.1 + h.1 + 2, g0.len() as int));
        }
        let next = match self.reader.read_varint() {
            Ok(v) => v,
            Err(e) => {
                return Err(Error::Format(e));
            },
        };
        let ghost ns = varint_dec(g3)->Some_0;
        proof {
            crate::types::varint::lemma_varint_dec_fuel_len(g3, 5);
            assert(self.reader.payload() =~= g0.subrange(
                pv.1 + h.1 + 2 + ns.1,
                g0.len() as int,
            ));
        }
        let state = match ClientState::from(next.value()) {
            Ok(s) => s,
            Err(e) => {
                return Err(Error::Protocol(e));
            },
        };
        self.state = state;
        Ok(Handshake { id: packet_id, protocol_ver, host, port, state })
    }
}

/// Whether a request's shape belongs to a phase's inbound table.
pub open spec fn req_matches_state(state: ClientState, request: &Request) -> bool {
    match (state, request) {
        (ClientState::Status, Request::Status { .. }) => true,
        (ClientState::Status, Request::Ping { .. }) => true,
        (ClientState::Login, Request::LoginStart { .. }) => true,
        (ClientState::Login, Request::LoginAcknowledged { .. }) => true,
        (ClientState::Configuration, Request::ClientConfiguration { .. }) => true,
        (ClientState::Configuration, Request::PluginMessage { .. }) => true,
        (ClientState::Configuration, Request::AcknowledgeFinishConfiguration { .. }) => true,
        _ => false,
    }
}

/// Decides one request: which reply to send, which phase comes next, and
/// whether the connection then closes. A request outside the current
/// phase's table is refused, naming the id and the phase, and nothing is
/// sent for it. `authorized` is the external authorization predicate's
/// verdict on the login name.
pub fn step(state: ClientState, request: &Request, authorized: bool, config: &ServerConfig) -> (r:
    Result<Transition, Error>)
    ensures
        r is Ok <==> req_matches_state(state, request),
        !req_matches_state(state, request) ==> r == Err::<Transition, Error>(
            Error::Protocol(ProtocolError::UnexpectedPacket { id: request_id(request), state }),
        ),
        r matches Ok(t) ==> match *request {
            Request::Status { .. } => (t.response matches Some(resp) && resp matches
                Response::Status { cluster_info } && cluster_info@ == config.status_json@)
                && t.next_state == state && !t.close,
            Request::Ping { timestamp, .. } => (t.response matches Some(resp) && resp matches
                Response::LoginPong { timestamp: ts } && ts == timestamp) && t.next_state == state
                && t.close,
            Request::LoginStart { ref username, uuid, .. } => t.next_state == state && (
            if authorized {
                (t.response matches Some(resp) && resp matches Response::LoginSuccess {
                    uuid: u,
                    username: ref n,
                } && u == uuid && n@ == username@) && !t.close
            } else {
                (t.response matches Some(resp) && resp matches Response::LoginDisconnect {
                    ref message,
                } && message@ == config.reject_reason@) && t.close
            }),
            Request::LoginAcknowledged { .. } => t.response is None && t.next_state
                == ClientState::Configuration && !t.close,
            Request::ClientConfiguration { .. } => (t.response matches Some(resp) && resp matches
                Response::ConfigurationFinish) && t.next_state == state && !t.close,
            Request::PluginMessage { .. } => t.response is None && t.next_state == state
                && !t.close,
            Request::AcknowledgeFinishConfiguration { .. } => t.response is None && t.next_state
                == ClientState::Play && !t.close,
        },
{
    if !matches_state_exec(state, request) {
        return Err(
            Error::Protocol(
                ProtocolError::UnexpectedPacket { id: request_id_exec(request), state },
            ),
        );
    }
    match request {
        Request::Status { .. } => Ok(
            Transition {
                response: Some(
                    Response::Status { cluster_info: MCString(config.status_json.0.clone()) },
                ),
                next_state: state,
                close: false,
            },
        ),
        Request::Ping { timestamp, .. } => Ok(
            Transition {
                response: Some(Response::LoginPong { timestamp: *timestamp }),
                next_state: state,
                close: true,
            },
        ),
        Request::LoginStart { username, uuid, .. } => {
            if authorized {
                Ok(
                    Transition {
                        response: Some(
                            Response::LoginSuccess {
                                uuid: *uuid,
                                username: MCString(username.0.clone()),
                            },
                        ),
                        next_state: state,
                        close: false,
                    },
                )
            } else {
                Ok(
                    Transition {
                        response: Some(
                            Response::LoginDisconnect {
                                message: MCString(config.reject_reason.0.clone()),
                            },
                        ),
                        next_state: state,
                        close: true,
                    },
                )
            }
        },
        Request::LoginAcknowledged { .. } => Ok(
            Transition { response: None, next_state: ClientState::Configuration, close: false },
        ),
        Request::ClientConfiguration { .. } => Ok(
            Transition {
                response: Some(Response::ConfigurationFinish),
                next_state: state,
                close: false,
            },
        ),
        Request::PluginMessage { .. } => Ok(
            Transition { response: None, next_state: state, close: false },
        ),
        Request::AcknowledgeFinishConfiguration { .. } => Ok(
            Transition { response: None, next_state: ClientState::Play, close: false },
        ),
    }
}

/// The runtime check of `req_matches_state`.
fn matches_state_exec(state: ClientState, request: &Request) -> (b: bool)
    ensures
        b == req_matches_state(state, request),
{
    match (state, request) {
        (ClientState::Status, Request::Status { .. }) => true,
        (ClientState::Status, Request::Ping { .. }) => true,
        (ClientState::Login, Request::LoginStart { .. }) => true,
        (ClientState::Login, Request::LoginAcknowledged { .. }) => true,
        (ClientState::Configuration, Request::ClientConfiguration { .. }) => true,
        (ClientState::Configuration, Request::PluginMessage { .. }) => true,
        (ClientState::Configuration, Request::AcknowledgeFinishConfiguration { .. }) => true,
        _ => false,
    }
}

/// The runtime read of a request's stored packet id.
fn request_id_exec(request: &Request) -> (r: i32)
    ensures
        r == request_id(request),
{
    match request {
        Request::Status { packet_id } => packet_id.value(),
        Request::Ping { packet_id, .. } => packet_id.value(),
        Request::LoginStart { packet_id, .. } => packet_id.value(),
        Request::LoginAcknowledged { packet_id } => packet_id.value(),
        Request::ClientConfiguration { packet_id, .. } => packet_id.value(),
        Request::PluginMessage { packet_id, .. } => packet_id.value(),
        Request::AcknowledgeFinishConfiguration { packet_id } => packet_id.value(),
    }
}

} // verus!

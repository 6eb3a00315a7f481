//! Enumerated wire values: the connection phase and the small client-option
//! enums carried by the configuration packet.

use vstd::prelude::*;

use crate::cursor::Cursor;
use crate::error::{Error, ProtocolError};
use crate::types::varint::{decode_varint, varint_dec};

verus! {

/// The protocol phase of a connection, selected by the handshake and advanced
/// only by specific transitions (login completes, configuration finishes).
#[derive(PartialEq, Eq, Structural, Debug, Copy, Clone)]
pub enum ClientState {
    Status,
    Login,
    Configuration,
    Play,
}

impl ClientState {
    /// Maps the handshake's declared next-state number to a phase.
    /// Any number outside the wire table is an unknown-state error.
    pub fn from(num: i32) -> (r: Result<ClientState, ProtocolError>)
        ensures
            num == 1 ==> r == Ok::<ClientState, ProtocolError>(ClientState::Status),
            num == 2 ==> r == Ok::<ClientState, ProtocolError>(ClientState::Login),
            num == 3 ==> r == Ok::<ClientState, ProtocolError>(ClientState::Play),
            !(num == 1 || num == 2 || num == 3) ==> r == Err::<ClientState, ProtocolError>(
                ProtocolError::UnknownNextState { value: num },
            ),
    {
        match num {
            1 => Ok(ClientState::Status),
            2 => Ok(ClientState::Login),
            3 => Ok(ClientState::Play),
            _ => Err(ProtocolError::UnknownNextState { value: num }),
        }
    }
}

/// The client's chat visibility choice, carried as a VarInt.
#[derive(PartialEq, Eq, Structural, Debug, Copy, Clone)]
pub enum ChatMode {
    Enabled,
    CommandsOnly,
    Hidden,
}

impl ChatMode {
    /// Maps the wire number to a mode; anything else is no mode.
    pub fn from(num: i32) -> (r: Option<ChatMode>)
        ensures
            r == match num {
                0 => Some(ChatMode::Enabled),
                1 => Some(ChatMode::CommandsOnly),
                2 => Some(ChatMode::Hidden),
                _ => None::<ChatMode>,
            },
    {
        match num {
            0 => Some(ChatMode::Enabled),
            1 => Some(ChatMode::CommandsOnly),
            2 => Some(ChatMode::Hidden),
            _ => None,
        }
    }
}

/// The client's main hand, carried as a VarInt.
#[derive(PartialEq, Eq, Structural, Debug, Copy, Clone)]
pub enum Hand {
    Left,
    Right,
}

impl Hand {
    /// Maps the wire number to a hand; anything else is no hand.
    pub fn from(num: i32) -> (r: Option<Hand>)
        ensures
            r == match num {
                0 => Some(Hand::Left),
                1 => Some(Hand::Right),
                _ => None::<Hand>,
            },
    {
        match num {
            0 => Some(Hand::Left),
            1 => Some(Hand::Right),
            _ => None,
        }
    }
}

/// The client's particle detail choice, carried as a VarInt.
#[derive(PartialEq, Eq, Structural, Debug, Copy, Clone)]
pub enum ParticleStatus {
    All,
    Decreased,
    Minimal,
}

impl ParticleStatus {
    /// Maps the wire number to a status; anything else is no status.
    pub fn from(num: i32) -> (r: Option<ParticleStatus>)
        ensures
            r == match num {
                0 => Some(ParticleStatus::All),
                1 => Some(ParticleStatus::Decreased),
                2 => Some(ParticleStatus::Minimal),
                _ => None::<ParticleStatus>,
            },
    {
        match num {
            0 => Some(ParticleStatus::All),
            1 => Some(ParticleStatus::Decreased),
            2 => Some(ParticleStatus::Minimal),
            _ => None,
        }
    }
}

/// A game mode, carried as a VarInt; undefined is its own wire value.
#[derive(PartialEq, Eq, Structural, Debug, Copy, Clone)]
pub enum GameMode {
    Undefined,
    Survival,
    Creative,
    Adventure,
    Spectator,
}

impl GameMode {
    /// Maps the wire number to a mode; anything else is no mode.
    pub fn from(num: i32) -> (r: Option<GameMode>)
        ensures
            r == match num {
                -1 => Some(GameMode::Undefined),
                0 => Some(GameMode::Survival),
                1 => Some(GameMode::Creative),
                2 => Some(GameMode::Adventure),
                3 => Some(GameMode::Spectator),
                _ => None::<GameMode>,
            },
    {
        match num {
            -1 => Some(GameMode::Undefined),
            0 => Some(GameMode::Survival),
            1 => Some(GameMode::Creative),
            2 => Some(GameMode::Adventure),
            3 => Some(GameMode::Spectator),
            _ => None,
        }
    }

    /// The wire number of this mode, the inverse of `from`.
    pub fn to_i32(self) -> (r: i32)
        ensures
            GameMode::from_spec(r) == Some(self),
    {
        match self {
            GameMode::Undefined => -1,
            GameMode::Survival => 0,
            GameMode::Creative => 1,
            GameMode::Adventure => 2,
            GameMode::Spectator => 3,
        }
    }

    /// The mode a wire number names, if any.
    pub open spec fn from_spec(num: i32) -> Option<GameMode> {
        match num {
            -1 => Some(GameMode::Undefined),
            0 => Some(GameMode::Survival),
            1 => Some(GameMode::Creative),
            2 => Some(GameMode::Adventure),
            3 => Some(GameMode::Spectator),
            _ => None,
        }
    }
}

/// The next state a handshake may name, under its wire numbers.
#[derive(PartialEq, Eq, Structural, Debug, Copy, Clone)]
pub enum HandshakeState {
    Status,
    Login,
    Transfer,
}

impl HandshakeState {
    /// Maps the handshake's declared number to a state; any other number
    /// is an unknown-state error.
    pub fn from(num: i32) -> (r: Result<HandshakeState, ProtocolError>)
        ensures
            num == 1 ==> r == Ok::<HandshakeState, ProtocolError>(HandshakeState::Status),
            num == 2 ==> r == Ok::<HandshakeState, ProtocolError>(HandshakeState::Login),
            num == 3 ==> r == Ok::<HandshakeState, ProtocolError>(HandshakeState::Transfer),
            !(num == 1 || num == 2 || num == 3) ==> r == Err::<HandshakeState, ProtocolError>(
                ProtocolError::UnknownNextState { value: num },
            ),
    {
        match num {
            1 => Ok(HandshakeState::Status),
            2 => Ok(HandshakeState::Login),
            3 => Ok(HandshakeState::Transfer),
            _ => Err(ProtocolError::UnknownNextState { value: num }),
        }
    }

    /// Reads one VarInt and maps it to a state.
    pub fn read(cur: &mut Cursor) -> (r: Result<HandshakeState, Error>)
        ensures
            r matches Ok(v) ==> (varint_dec(old(cur)@) matches Some(p) && HandshakeState::from_spec(
                p.0 as i32,
            ) == Some(v) && final(cur)@ == old(cur)@.subrange(p.1, old(cur)@.len() as int)),
            r is Ok <==> (varint_dec(old(cur)@) matches Some(p) && HandshakeState::from_spec(
                p.0 as i32,
            ) is Some),
            varint_dec(old(cur)@) is None ==> (r matches Err(e) && e is Format),
            varint_dec(old(cur)@) matches Some(p) ==> (HandshakeState::from_spec(p.0 as i32)
                is None ==> r == Err::<HandshakeState, Error>(
                Error::Protocol(ProtocolError::UnknownNextState { value: p.0 as i32 }),
            )),
    {
        let n: i32 = match decode_varint(cur) {
            Ok(n) => n,
            Err(e) => {
                return Err(Error::Format(e));
            },
        };
        match HandshakeState::from(n) {
            Ok(v) => Ok(v),
            Err(e) => Err(Error::Protocol(e)),
        }
    }

    /// The state a wire number names, if any.
    pub open spec fn from_spec(num: i32) -> Option<HandshakeState> {
        match num {
            1 => Some(HandshakeState::Status),
            2 => Some(HandshakeState::Login),
            3 => Some(HandshakeState::Transfer),
            _ => None,
        }
    }
}

} // verus!

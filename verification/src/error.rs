//! Error taxonomy of the protocol layer.
//!
//! Every fault here is fatal to the current connection and never retried:
//! format faults are detected locally while decoding, protocol faults carry
//! the offending packet id and phase for diagnostics. Transport faults stay
//! with the caller that owns the socket.

use vstd::prelude::*;

use crate::types::enums::ClientState;

verus! {

/// A malformed wire field: always locally detected, recoverable to the
/// caller as a connection-level failure.
#[derive(PartialEq, Eq, Structural, Debug, Copy, Clone)]
pub enum FormatError {
    /// A VarInt whose fifth byte still has its continuation bit set.
    TooLong,
    /// A string whose encoded byte length exceeds the wire limit.
    StringTooLong,
    /// Declared text bytes that are not valid UTF-8.
    InvalidUtf8,
    /// A boolean byte other than 0x00 or 0x01.
    InvalidBool,
    /// Fewer bytes available than the format declares.
    Underrun,
}

/// A packet that is legal in form but not in the current phase, or a
/// handshake naming an unknown next state.
#[derive(PartialEq, Eq, Structural, Debug, Copy, Clone)]
pub enum ProtocolError {
    UnexpectedPacket { id: i32, state: ClientState },
    UnexpectedHandshake { id: i32 },
    UnknownNextState { value: i32 },
}

/// Any fault of this layer: either a malformed field or a packet that the
/// state machine refuses.
#[derive(PartialEq, Eq, Structural, Debug, Copy, Clone)]
pub enum Error {
    Format(FormatError),
    Protocol(ProtocolError),
}

} // verus!

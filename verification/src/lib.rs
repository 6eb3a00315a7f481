//! Wire-protocol layer of a small game server: the binary codec for each
//! wire primitive, packet framing over a byte stream, and the per-connection
//! state machine that maps protocol phases to legal packets.

pub mod connection;
pub mod cursor;
pub mod error;
pub mod packet;
pub mod reader;
pub mod types;
pub mod writer;

pub use connection::{ClientConnection, Handshake};
pub use cursor::Cursor;
pub use error::{Error, FormatError, ProtocolError};
pub use packet::Packet;
pub use reader::ProtocolReader;
pub use types::enums::ClientState;
pub use writer::ProtocolWriter;

use minecraft_server::error::ProtocolError;
use minecraft_server::types::enums::{ChatMode, ClientState, GameMode, Hand, HandshakeState,
    ParticleStatus};
use minecraft_server::types::varint::encode_varint;
use minecraft_server::Cursor;

#[test]
fn client_state_from_wire_numbers() {
    assert_eq!(ClientState::from(1), Ok(ClientState::Status));
    assert_eq!(ClientState::from(2), Ok(ClientState::Login));
    assert_eq!(ClientState::from(3), Ok(ClientState::Play));
    assert_eq!(ClientState::from(0), Err(ProtocolError::UnknownNextState { value: 0 }));
    assert_eq!(ClientState::from(4), Err(ProtocolError::UnknownNextState { value: 4 }));
}

#[test]
fn chat_mode_from_wire_numbers() {
    assert_eq!(ChatMode::from(0), Some(ChatMode::Enabled));
    assert_eq!(ChatMode::from(1), Some(ChatMode::CommandsOnly));
    assert_eq!(ChatMode::from(2), Some(ChatMode::Hidden));
    assert_eq!(ChatMode::from(3), None);
}

#[test]
fn hand_from_wire_numbers() {
    assert_eq!(Hand::from(0), Some(Hand::Left));
    assert_eq!(Hand::from(1), Some(Hand::Right));
    assert_eq!(Hand::from(2), None);
}

#[test]
fn particle_status_from_wire_numbers() {
    assert_eq!(ParticleStatus::from(0), Some(ParticleStatus::All));
    assert_eq!(ParticleStatus::from(1), Some(ParticleStatus::Decreased));
    assert_eq!(ParticleStatus::from(2), Some(ParticleStatus::Minimal));
    assert_eq!(ParticleStatus::from(-1), None);
}

#[test]
fn game_mode_round_trips_through_wire_numbers() {
    for mode in [
        GameMode::Undefined,
        GameMode::Survival,
        GameMode::Creative,
        GameMode::Adventure,
        GameMode::Spectator,
    ] {
        assert_eq!(GameMode::from(mode.to_i32()), Some(mode));
    }
    assert_eq!(GameMode::from(4), None);
}

#[test]
fn handshake_state_from_wire_numbers() {
    assert_eq!(HandshakeState::from(1), Ok(HandshakeState::Status));
    assert_eq!(HandshakeState::from(2), Ok(HandshakeState::Login));
    assert_eq!(HandshakeState::from(3), Ok(HandshakeState::Transfer));
    assert_eq!(HandshakeState::from(9), Err(ProtocolError::UnknownNextState { value: 9 }));
}

#[test]
fn handshake_state_read_decodes_a_varint() {
    let mut bytes: Vec<u8> = Vec::new();
    encode_varint(2, &mut bytes);
    let mut cur = Cursor::new(bytes);
    assert_eq!(HandshakeState::read(&mut cur), Ok(HandshakeState::Login));
    assert_eq!(cur.remaining(), 0);
}

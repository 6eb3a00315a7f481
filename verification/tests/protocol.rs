use minecraft_server::connection::request::Request;
use minecraft_server::connection::response::Response;
use minecraft_server::connection::{step, ClientConnection, ServerConfig};
use minecraft_server::cursor::Cursor;
use minecraft_server::error::{Error, ProtocolError};
use minecraft_server::packet::Packet;
use minecraft_server::types::numbers::I64;
use minecraft_server::types::string::MCString;
use minecraft_server::types::varint::{encode_varint, VarInt};
use minecraft_server::types::position::Position;
use minecraft_server::ClientState;
use minecraft_server::ProtocolWriter;

fn mcs(s: &str) -> MCString {
    MCString(String::from(s))
}

fn test_config() -> ServerConfig {
    ServerConfig {
        status_json: mcs(r#"{"version":{"name":"1.21.5","protocol":770}}"#),
        reject_reason: mcs(r#"{"text":"unknown player","color":"red"}"#),
    }
}

fn handshake_payload(protocol: i32, addr: &str, port: u16, next: i32) -> Vec<u8> {
    let mut payload: Vec<u8> = Vec::new();
    encode_varint(protocol, &mut payload);
    mcs(addr).write(&mut payload).unwrap();
    minecraft_server::types::numbers::U16::write(port, &mut payload);
    encode_varint(next, &mut payload);
    payload
}

fn connection_in(state: ClientState) -> ClientConnection {
    let mut conn = ClientConnection::new();
    conn.state = state;
    conn
}

#[test]
fn status_response_framing() {
    let body = r#"{"version":{"name":"1.21.5","protocol":770}}"#;
    let mut conn = connection_in(ClientState::Status);
    let framed = conn
        .send_response(&Response::Status { cluster_info: mcs(body) })
        .unwrap();

    // VarInt(total length) ++ VarInt(0x00) ++ VarInt(body length) ++ body bytes
    let mut expected: Vec<u8> = Vec::new();
    let body_len = body.len() as i32;
    encode_varint(1 + VarInt::sizeof(body_len) as i32 + body_len, &mut expected);
    encode_varint(0, &mut expected);
    encode_varint(body_len, &mut expected);
    expected.extend_from_slice(body.as_bytes());
    assert_eq!(framed, expected);

    // Decoding the frame body reproduces id 0 and the same string.
    let frame_body: Vec<u8> = expected[1..].to_vec();
    let packet = Packet::parse(frame_body).unwrap();
    assert_eq!(packet.id, VarInt(0));
    let back = MCString::read(&mut Cursor::new(packet.data)).unwrap();
    assert_eq!(back, mcs(body));
}

#[test]
fn handshake_selects_status() {
    let mut conn = ClientConnection::new();
    let payload = handshake_payload(770, "localhost", 25565, 1);
    conn.reader.load_packet(Packet::new(VarInt(0), payload));
    let h = conn.handshake().unwrap();
    assert_eq!(h.protocol_ver, VarInt(770));
    assert_eq!(h.host, mcs("localhost"));
    assert_eq!(h.port, 25565);
    assert_eq!(h.state, ClientState::Status);
    assert_eq!(conn.state, ClientState::Status);
}

#[test]
fn handshake_wrong_id_is_refused() {
    let mut conn = ClientConnection::new();
    let payload = handshake_payload(770, "localhost", 25565, 1);
    conn.reader.load_packet(Packet::new(VarInt(1), payload));
    assert_eq!(
        conn.handshake(),
        Err(Error::Protocol(ProtocolError::UnexpectedHandshake { id: 1 }))
    );
}

#[test]
fn handshake_unknown_next_state_is_refused() {
    let mut conn = ClientConnection::new();
    let payload = handshake_payload(770, "localhost", 25565, 4);
    conn.reader.load_packet(Packet::new(VarInt(0), payload));
    assert_eq!(
        conn.handshake(),
        Err(Error::Protocol(ProtocolError::UnknownNextState { value: 4 }))
    );
}

#[test]
fn status_exchange_end_to_end() {
    let config = test_config();
    let mut conn = ClientConnection::new();
    let payload = handshake_payload(770, "localhost", 25565, 1);
    conn.reader.load_packet(Packet::new(VarInt(0), payload));
    let h = conn.handshake().unwrap();
    assert_eq!(h.state, ClientState::Status);

    // Status request: id 0x00, no fields.
    conn.reader.load_packet(Packet::new(VarInt(0), Vec::new()));
    let req = conn.read_request().unwrap();
    assert!(matches!(req, Request::Status { .. }));
    let t = step(conn.state, &req, false, &config).unwrap();
    assert_eq!(t.next_state, ClientState::Status);
    assert!(!t.close);
    let resp = t.response.unwrap();
    match &resp {
        Response::Status { cluster_info } => assert_eq!(*cluster_info, config.status_json),
        other => panic!("unexpected response {:?}", other),
    }
    conn.send_response(&resp).unwrap();

    // Ping: id 0x01 with an i64 timestamp; the reply echoes it and ends
    // the exchange.
    let mut payload: Vec<u8> = Vec::new();
    I64::write(123456, &mut payload);
    conn.reader.load_packet(Packet::new(VarInt(1), payload));
    let req = conn.read_request().unwrap();
    match &req {
        Request::Ping { timestamp, .. } => assert_eq!(*timestamp, 123456),
        other => panic!("unexpected request {:?}", other),
    }
    let t = step(conn.state, &req, false, &config).unwrap();
    assert!(t.close);
    let resp = t.response.unwrap();
    assert!(matches!(resp, Response::LoginPong { timestamp: 123456 }));
    let framed = conn.send_response(&resp).unwrap();
    assert_eq!(framed, vec![9, 1, 0, 0, 0, 0, 0, 1, 0xE2, 0x40]);
}

#[test]
fn login_rejected_end_to_end() {
    let config = test_config();
    let mut conn = ClientConnection::new();
    conn.reader.load_packet(Packet::new(VarInt(0), handshake_payload(770, "localhost", 25565, 2)));
    let h = conn.handshake().unwrap();
    assert_eq!(h.state, ClientState::Login);

    let uuid: u128 = 0x1234_5678_9ABC_DEF0_1122_3344_5566_7788;
    let mut payload: Vec<u8> = Vec::new();
    mcs("intruder").write(&mut payload).unwrap();
    minecraft_server::types::numbers::write_u128(uuid, &mut payload);
    conn.reader.load_packet(Packet::new(VarInt(0), payload));
    let req = conn.read_request().unwrap();
    match &req {
        Request::LoginStart { username, uuid: u, .. } => {
            assert_eq!(*username, mcs("intruder"));
            assert_eq!(*u, uuid);
        },
        other => panic!("unexpected request {:?}", other),
    }
    let t = step(conn.state, &req, false, &config).unwrap();
    assert!(t.close);
    let resp = t.response.unwrap();
    match &resp {
        Response::LoginDisconnect { message } => assert_eq!(*message, config.reject_reason),
        other => panic!("unexpected response {:?}", other),
    }
    conn.send_response(&resp).unwrap();
}

#[test]
fn login_and_configuration_end_to_end() {
    let config = test_config();
    let mut conn = ClientConnection::new();
    conn.reader.load_packet(Packet::new(VarInt(0), handshake_payload(770, "localhost", 25565, 2)));
    let h = conn.handshake().unwrap();
    assert_eq!(h.state, ClientState::Login);

    // LoginStart from an authorized player.
    let uuid: u128 = 42;
    let mut payload: Vec<u8> = Vec::new();
    mcs("wristylotus").write(&mut payload).unwrap();
    minecraft_server::types::numbers::write_u128(uuid, &mut payload);
    conn.reader.load_packet(Packet::new(VarInt(0), payload));
    let req = conn.read_request().unwrap();
    let t = step(conn.state, &req, true, &config).unwrap();
    assert!(!t.close);
    let resp = t.response.unwrap();
    match &resp {
        Response::LoginSuccess { uuid: u, username } => {
            assert_eq!(*u, uuid);
            assert_eq!(*username, mcs("wristylotus"));
        },
        other => panic!("unexpected response {:?}", other),
    }
    conn.send_response(&resp).unwrap();
    conn.state = t.next_state;
    assert_eq!(conn.state, ClientState::Login);

    // LoginAcknowledged moves the connection to Configuration.
    conn.reader.load_packet(Packet::new(VarInt(3), Vec::new()));
    let req = conn.read_request().unwrap();
    assert!(matches!(req, Request::LoginAcknowledged { .. }));
    let t = step(conn.state, &req, true, &config).unwrap();
    assert!(t.response.is_none());
    conn.state = t.next_state;
    assert_eq!(conn.state, ClientState::Configuration);

    // ClientConfiguration triggers the configuration-finish reply.
    let mut payload: Vec<u8> = Vec::new();
    mcs("en_US").write(&mut payload).unwrap();
    payload.push(10); // view distance
    encode_varint(0, &mut payload); // chat mode
    payload.push(1); // chat colors
    payload.push(0x7F); // skin parts
    encode_varint(0, &mut payload); // main hand
    payload.push(0); // text filtering
    payload.push(1); // server listings
    encode_varint(2, &mut payload); // particle status
    conn.reader.load_packet(Packet::new(VarInt(0), payload));
    let req = conn.read_request().unwrap();
    match &req {
        Request::ClientConfiguration {
            locale,
            view_distance,
            chat_mode,
            enable_chat_colors,
            displayed_skin_parts,
            main_hand,
            enable_text_filtering,
            allow_server_listings,
            particle_status,
            ..
        } => {
            assert_eq!(*locale, mcs("en_US"));
            assert_eq!(*view_distance, 10);
            assert_eq!(*chat_mode, VarInt(0));
            assert!(*enable_chat_colors);
            assert_eq!(*displayed_skin_parts, 0x7F);
            assert_eq!(*main_hand, VarInt(0));
            assert!(!*enable_text_filtering);
            assert!(*allow_server_listings);
            assert_eq!(*particle_status, VarInt(2));
        },
        other => panic!("unexpected request {:?}", other),
    }
    let t = step(conn.state, &req, true, &config).unwrap();
    assert!(matches!(t.response, Some(Response::ConfigurationFinish)));
    conn.state = t.next_state;
    assert_eq!(conn.state, ClientState::Configuration);
    let framed = conn.send_response(&Response::ConfigurationFinish).unwrap();
    assert_eq!(framed, vec![1, 3]);

    // AcknowledgeFinishConfiguration moves the connection to Play.
    conn.reader.load_packet(Packet::new(VarInt(3), Vec::new()));
    let req = conn.read_request().unwrap();
    assert!(matches!(req, Request::AcknowledgeFinishConfiguration { .. }));
    let t = step(conn.state, &req, true, &config).unwrap();
    assert!(t.response.is_none());
    conn.state = t.next_state;
    assert_eq!(conn.state, ClientState::Play);
}

#[test]
fn unknown_packet_id_names_id_and_state() {
    let mut conn = connection_in(ClientState::Status);
    conn.reader.load_packet(Packet::new(VarInt(5), Vec::new()));
    assert_eq!(
        conn.read_request(),
        Err(
            Error::Protocol(
                ProtocolError::UnexpectedPacket { id: 5, state: ClientState::Status },
            ),
        )
    );
    assert_eq!(conn.writer.buffered_len(), 0);
}

#[test]
fn play_phase_accepts_nothing() {
    let mut conn = connection_in(ClientState::Play);
    conn.reader.load_packet(Packet::new(VarInt(0), Vec::new()));
    assert!(matches!(
        conn.read_request(),
        Err(Error::Protocol(ProtocolError::UnexpectedPacket { id: 0, state: ClientState::Play }))
    ));
}

#[test]
fn configuration_disconnect_uses_nbt() {
    let mut conn = connection_in(ClientState::Configuration);
    let framed = conn
        .send_response(
            &Response::ConfigurationDisconnect {
                message: minecraft_server::types::nbt::NBTString(String::from("bye")),
            },
        )
        .unwrap();
    assert_eq!(framed, vec![7, 2, 8, 0, 3, b'b', b'y', b'e']);
}

#[test]
fn reader_reports_id_and_length() {
    let mut conn = ClientConnection::new();
    conn.reader.load_packet(Packet::new(VarInt(1), vec![0xAA, 0xBB]));
    assert_eq!(conn.reader.packet_id(), VarInt(1));
    assert_eq!(conn.reader.packet_length(), 3);
    assert!(!conn.reader.needs_packet());
}

#[test]
fn request_outside_phase_is_refused_by_step() {
    let config = test_config();
    let req = Request::Ping { packet_id: VarInt(1), timestamp: 7 };
    let r = step(ClientState::Login, &req, true, &config);
    assert_eq!(
        match r {
            Err(e) => e,
            Ok(_) => panic!("step accepted a request outside the phase"),
        },
        Error::Protocol(ProtocolError::UnexpectedPacket { id: 1, state: ClientState::Login })
    );
}

#[test]
fn packet_frame_and_parse_round_trip() {
    let packet = Packet::new(VarInt(0x2B), vec![1, 2, 3]);
    assert_eq!(packet.length(), 4);
    let framed = packet.frame();
    assert_eq!(framed, vec![4, 0x2B, 1, 2, 3]);

    let back = Packet::parse(framed[1..].to_vec()).unwrap();
    assert_eq!(back.id, VarInt(0x2B));
    assert_eq!(back.data, vec![1, 2, 3]);
}

#[test]
fn writer_stages_fields_and_frames_them_once() {
    let mut writer = ProtocolWriter::new();
    writer.write_varint(VarInt(300));
    writer.write_i8(-1);
    writer.write_u8(0xAB);
    writer.write_bool(true);
    writer.write_u16(0x0102);
    writer.write_i64(3);
    writer.write_uuid(1);
    writer.write_position(Position(0, 0, 1));
    writer.write_string(&mcs("ok")).unwrap();
    let staged = writer.buffered_len();
    assert_eq!(staged, 2 + 1 + 1 + 1 + 2 + 8 + 16 + 8 + 3);
    let framed = writer.send_packet(VarInt(7));
    assert_eq!(framed.len(), 2 + staged);
    assert_eq!(framed[0] as usize, 1 + staged);
    assert_eq!(framed[1], 7);
    assert_eq!(writer.buffered_len(), 0);
}

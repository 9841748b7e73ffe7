use rcon_client::error::RconError;
use rcon_client::executor::{ExecPhase, Executor, QuirkMode};
use rcon_client::frame_reader::FrameReader;
use rcon_client::handshake::{AuthResult, Handshake};
use rcon_client::packet::{Packet, PacketType};
use rcon_client::player_name::{check_player_name, NameError};
use rcon_client::session::{Action, Options, Session, SessionPhase, COMMAND_ID, LOGIN_ID, SENTINEL_ID};

fn frame(id: i32, t: PacketType, payload: &[u8]) -> Vec<u8> {
    Packet::new(id, t, payload.to_vec()).encode()
}

/// Plays a fake server: after each write of the client it delivers the next
/// chunk, and closes once the chunks run out. Returns the call's result and
/// the bytes the client wrote.
fn drive(s: &mut Session, chunks: &[Vec<u8>]) -> (Result<String, RconError>, Vec<Vec<u8>>) {
    let mut sent: Vec<Vec<u8>> = Vec::new();
    let mut next = 0;
    let mut action = s.connected();
    loop {
        action = match action {
            Action::Send(b) => {
                sent.push(b);
                s.poll()
            }
            Action::Continue => s.poll(),
            Action::Receive => {
                if next < chunks.len() {
                    s.received(&chunks[next]);
                    next += 1;
                    s.poll()
                } else {
                    s.closed()
                }
            }
            Action::Finish(r) => return (r, sent),
        };
    }
}

#[test]
fn encode_writes_little_endian_header_payload_and_terminators() {
    let b = frame(7, PacketType::Auth, b"pw");
    assert_eq!(b, vec![12, 0, 0, 0, 7, 0, 0, 0, 3, 0, 0, 0, b'p', b'w', 0, 0]);
    let neg = frame(-1, PacketType::ResponseValue, b"");
    assert_eq!(neg, vec![10, 0, 0, 0, 255, 255, 255, 255, 0, 0, 0, 0, 0, 0]);
    let cmd = frame(2, PacketType::ExecCommand, b"");
    assert_eq!(&cmd[8..12], &[2, 0, 0, 0]);
}

#[test]
fn decode_inverts_encode() {
    let b = frame(-5, PacketType::ResponseValue, b"hello\xff");
    let p = Packet::decode(&b).unwrap();
    assert_eq!(p.request_id, -5);
    assert_eq!(p.packet_type, PacketType::ResponseValue);
    assert_eq!(p.payload, b"hello\xff".to_vec());
    let q = Packet::decode(&frame(9, PacketType::Unknown(42), b"x")).unwrap();
    assert_eq!(q.packet_type, PacketType::Unknown(42));
    let a = Packet::decode(&frame(1, PacketType::AuthResponse, b"")).unwrap();
    assert_eq!(a.packet_type, PacketType::AuthResponse);
}

#[test]
fn command_tag_reads_back_as_auth_response() {
    let p = Packet::decode(&frame(4, PacketType::ExecCommand, b"list")).unwrap();
    assert_eq!(p.packet_type, PacketType::AuthResponse);
}

#[test]
fn decode_rejects_every_short_prefix() {
    let b = frame(3, PacketType::ResponseValue, b"some reply");
    for n in 0..b.len() {
        assert_eq!(Packet::decode(&b[..n]).unwrap_err(), RconError::MalformedFrame);
    }
}

#[test]
fn decode_rejects_bad_terminators_and_lengths() {
    let mut b = frame(3, PacketType::ResponseValue, b"abc");
    let n = b.len();
    b[n - 1] = 1;
    assert_eq!(Packet::decode(&b).unwrap_err(), RconError::MalformedFrame);
    let mut long = frame(3, PacketType::ResponseValue, b"abc");
    long.push(0);
    assert_eq!(Packet::decode(&long).unwrap_err(), RconError::MalformedFrame);
    let tiny = vec![9, 0, 0, 0, 1, 0, 0, 0, 0, 0, 0, 0, 0];
    assert_eq!(Packet::decode(&tiny).unwrap_err(), RconError::MalformedFrame);
}

#[test]
fn reader_waits_for_split_frames_and_splits_joined_ones() {
    let a = frame(1, PacketType::ResponseValue, b"first");
    let b = frame(2, PacketType::ResponseValue, b"second");
    let mut r = FrameReader::new();
    r.push(&a[..3]);
    assert!(r.next_packet().unwrap().is_none());
    r.push(&a[3..9]);
    assert!(r.next_packet().unwrap().is_none());
    let mut rest = a[9..].to_vec();
    rest.extend_from_slice(&b);
    r.push(&rest);
    let p = r.next_packet().unwrap().unwrap();
    assert_eq!(p.payload, b"first".to_vec());
    let q = r.next_packet().unwrap().unwrap();
    assert_eq!((q.request_id, q.payload), (2, b"second".to_vec()));
    assert!(r.is_empty());
    assert!(r.next_packet().unwrap().is_none());
}

#[test]
fn reader_refuses_absurd_declared_length() {
    let mut r = FrameReader::new();
    r.push(&[0xff, 0xff, 0x01, 0x00]);
    assert_eq!(r.next_packet().unwrap_err(), RconError::MalformedFrame);
    let mut neg = FrameReader::new();
    neg.push(&[0xff, 0xff, 0xff, 0xff]);
    assert_eq!(neg.next_packet().unwrap_err(), RconError::MalformedFrame);
}

#[test]
fn handshake_classifies_answers() {
    let mut ok = Handshake::new(5);
    let login = ok.login_packet(b"secret");
    assert_eq!(login.packet_type, PacketType::Auth);
    assert_eq!(login.payload, b"secret".to_vec());
    assert_eq!(ok.on_packet(&Packet::new(5, PacketType::AuthResponse, vec![])), Some(AuthResult::Authenticated));
    let mut bad = Handshake::new(5);
    assert_eq!(bad.on_packet(&Packet::new(-1, PacketType::AuthResponse, vec![])), Some(AuthResult::Rejected));
    let mut odd = Handshake::new(5);
    assert_eq!(odd.on_packet(&Packet::new(8, PacketType::AuthResponse, vec![])), Some(AuthResult::ProtocolError));
}

#[test]
fn handshake_skips_an_empty_response_value_first() {
    let mut h = Handshake::new(1);
    assert_eq!(h.on_packet(&Packet::new(1, PacketType::ResponseValue, vec![])), None);
    assert_eq!(h.on_packet(&Packet::new(1, PacketType::AuthResponse, vec![])), Some(AuthResult::Authenticated));
}

#[test]
fn handshake_gives_up_after_three_packets() {
    let mut h = Handshake::new(1);
    assert_eq!(h.on_packet(&Packet::new(1, PacketType::ResponseValue, vec![])), None);
    assert_eq!(h.on_packet(&Packet::new(1, PacketType::ResponseValue, vec![])), None);
    assert_eq!(h.on_packet(&Packet::new(1, PacketType::ResponseValue, vec![])), Some(AuthResult::ProtocolError));
}

#[test]
fn authenticate_against_rejecting_accepting_and_closing_servers() {
    let mut rejected = Session::new("wrong", "list", QuirkMode::LenientSentinel);
    let (r, sent) = drive(&mut rejected, &[frame(-1, PacketType::AuthResponse, b"")]);
    assert_eq!(r, Err(RconError::AuthFailed));
    assert_eq!(sent.len(), 1);

    let mut accepted = Session::new("secret", "list", QuirkMode::LenientSentinel);
    accepted.connected();
    accepted.received(&frame(LOGIN_ID, PacketType::AuthResponse, b""));
    match accepted.poll() {
        Action::Send(b) => {
            let mut cmd = frame(COMMAND_ID, PacketType::ExecCommand, b"list");
            cmd.extend_from_slice(&frame(SENTINEL_ID, PacketType::ExecCommand, b""));
            assert_eq!(b, cmd);
        }
        other => panic!("expected the command to be sent, got {:?}", other),
    }
    assert_eq!(accepted.phase(), SessionPhase::Executing);

    let mut closing = Session::new("secret", "list", QuirkMode::LenientSentinel);
    let (r, _) = drive(&mut closing, &[]);
    assert_eq!(r, Err(RconError::AuthFailed));
    assert_eq!(closing.phase(), SessionPhase::Finished);
}

#[test]
fn lenient_sentinel_reassembles_a_split_reply() {
    let body: Vec<u8> = (0..5000u32).map(|i| b'a' + (i % 26) as u8).collect();
    let mut e = Executor::new(QuirkMode::LenientSentinel, 2, 3);
    let reqs = e.request_packets(b"big");
    assert_eq!(reqs.len(), 2);
    assert_eq!((reqs[1].request_id, reqs[1].payload.len()), (3, 0));
    assert_eq!(e.on_packet(Packet::new(2, PacketType::ResponseValue, body[..2000].to_vec())), Ok(false));
    assert_eq!(e.on_packet(Packet::new(2, PacketType::ResponseValue, body[2000..4000].to_vec())), Ok(false));
    assert_eq!(e.on_packet(Packet::new(2, PacketType::ResponseValue, body[4000..].to_vec())), Ok(false));
    assert_eq!(e.on_packet(Packet::new(3, PacketType::ResponseValue, b"Unknown request 0".to_vec())), Ok(true));
    assert_eq!(e.phase(), ExecPhase::BoundarySeen);
    assert_eq!(e.reply_bytes(), &body[..]);
}

#[test]
fn lenient_sentinel_session_stops_at_the_boundary() {
    let body: Vec<u8> = (0..5000u32).map(|i| b'0' + (i % 10) as u8).collect();
    let mut server = frame(COMMAND_ID, PacketType::ResponseValue, &body[..1700]);
    server.extend_from_slice(&frame(COMMAND_ID, PacketType::ResponseValue, &body[1700..3400]));
    server.extend_from_slice(&frame(COMMAND_ID, PacketType::ResponseValue, &body[3400..]));
    server.extend_from_slice(&frame(SENTINEL_ID, PacketType::ResponseValue, b""));
    server.extend_from_slice(&frame(99, PacketType::ResponseValue, b"after the boundary"));
    let mut s = Session::new("secret", "dump", QuirkMode::LenientSentinel);
    let (r, _) = drive(&mut s, &[frame(LOGIN_ID, PacketType::AuthResponse, b""), server]);
    let text = r.unwrap();
    assert_eq!(text.len(), 5000);
    assert_eq!(text.as_bytes(), &body[..]);
}

#[test]
fn strict_mode_reads_one_packet() {
    let mut e = Executor::new(QuirkMode::Strict, 2, 3);
    assert_eq!(e.request_packets(b"list").len(), 1);
    assert_eq!(e.on_packet(Packet::new(2, PacketType::ResponseValue, b"one".to_vec())), Ok(true));
    assert_eq!(e.reply_bytes(), b"one");
    let mut f = Executor::new(QuirkMode::Strict, 2, 3);
    assert_eq!(f.on_packet(Packet::new(3, PacketType::ResponseValue, vec![])), Err(RconError::UnexpectedRequestId));
}

#[test]
fn unknown_request_id_fails_the_call() {
    let mut s = Session::new("secret", "list", QuirkMode::LenientSentinel);
    let (r, _) = drive(
        &mut s,
        &[frame(LOGIN_ID, PacketType::AuthResponse, b""), frame(42, PacketType::ResponseValue, b"?")],
    );
    assert_eq!(r, Err(RconError::UnexpectedRequestId));
}

#[test]
fn wrong_password_fails_the_same_way_twice() {
    for _ in 0..2 {
        let mut s = Session::new("wrong", "whitelist add Steve", Options::standard().quirk_mode);
        let (r, sent) = drive(
            &mut s,
            &[frame(LOGIN_ID, PacketType::ResponseValue, b""), frame(-1, PacketType::AuthResponse, b"")],
        );
        assert_eq!(r, Err(RconError::AuthFailed));
        assert_eq!(sent.len(), 1);
        assert_eq!(s.phase(), SessionPhase::Finished);
    }
}

#[test]
fn whitelist_end_to_end() {
    let mut s = Session::new("secret", "whitelist add Steve", QuirkMode::LenientSentinel);
    let mut reply = frame(COMMAND_ID, PacketType::ResponseValue, b"Added Steve to the whitelist");
    reply.extend_from_slice(&frame(SENTINEL_ID, PacketType::ResponseValue, b""));
    let (r, sent) = drive(&mut s, &[frame(LOGIN_ID, PacketType::AuthResponse, b""), reply]);
    assert_eq!(r, Ok("Added Steve to the whitelist".to_string()));
    assert_eq!(sent[0], frame(LOGIN_ID, PacketType::Auth, b"secret"));
    let cmd = Packet::decode(&sent[1][..sent[1].len() - 14]).unwrap();
    assert_eq!(cmd.payload, b"whitelist add Steve".to_vec());
}

#[test]
fn close_after_command_is_connection_closed() {
    let mut s = Session::new("secret", "whitelist add Steve", QuirkMode::LenientSentinel);
    let (r, sent) = drive(&mut s, &[frame(LOGIN_ID, PacketType::AuthResponse, b"")]);
    assert_eq!(r, Err(RconError::ConnectionClosed));
    assert_eq!(sent.len(), 2);
}

#[test]
fn close_mid_frame_is_connection_closed() {
    let mut s = Session::new("secret", "list", QuirkMode::Strict);
    let reply = frame(COMMAND_ID, PacketType::ResponseValue, b"partial");
    let (r, _) = drive(&mut s, &[frame(LOGIN_ID, PacketType::AuthResponse, b""), reply[..8].to_vec()]);
    assert_eq!(r, Err(RconError::ConnectionClosed));
}

#[test]
fn garbage_from_server_is_malformed() {
    let mut s = Session::new("secret", "list", QuirkMode::Strict);
    let (r, _) = drive(&mut s, &[vec![0xde, 0xad, 0xbe, 0xef, 1, 2, 3]]);
    assert_eq!(r, Err(RconError::MalformedFrame));
}

#[test]
fn connect_failure_is_connect_error() {
    let mut s = Session::new("secret", "list", QuirkMode::Strict);
    match s.connect_failed() {
        Action::Finish(r) => assert_eq!(r, Err(RconError::ConnectError)),
        other => panic!("expected the call to end, got {:?}", other),
    }
}

#[test]
fn reply_text_replaces_invalid_utf8() {
    let mut s = Session::new("secret", "list", QuirkMode::Strict);
    let (r, _) = drive(
        &mut s,
        &[frame(LOGIN_ID, PacketType::AuthResponse, b""), frame(COMMAND_ID, PacketType::ResponseValue, b"ok\xff")],
    );
    assert_eq!(r, Ok("ok\u{fffd}".to_string()));
}

#[test]
fn standard_options() {
    let o = Options::standard();
    assert_eq!(o.connect_timeout_ms, 5000);
    assert_eq!(o.quirk_mode, QuirkMode::LenientSentinel);
}

#[test]
fn player_names() {
    assert_eq!(check_player_name(""), Err(NameError::Empty));
    assert_eq!(check_player_name("Steve_2"), Ok(()));
    assert_eq!(check_player_name("Ünal"), Ok(()));
    assert_eq!(check_player_name("a-b"), Err(NameError::InvalidCharacter));
    assert_eq!(check_player_name("x y"), Err(NameError::InvalidCharacter));
    assert_eq!(NameError::Empty.message(), "Player name is required");
}

#[test]
fn error_messages_keep_secrets_out() {
    for e in [
        RconError::ConnectError,
        RconError::AuthFailed,
        RconError::MalformedFrame,
        RconError::ConnectionClosed,
        RconError::UnexpectedRequestId,
        RconError::ProtocolError,
    ] {
        let m = e.message();
        assert!(!m.is_empty());
        assert!(!m.contains("secret"));
    }
    assert_eq!(RconError::ProtocolError.message(), "handshake did not complete");
}

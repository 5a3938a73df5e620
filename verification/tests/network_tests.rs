use nearbyshare::network::{classify_frame, FrameAction};
use nearbyshare::network::handshake_frame_length;
use nearbyshare::network::{delivery_accepted, prepare_delivery};
use nearbyshare::auth::{hash_token, set_token};
use nearbyshare::network::{
    admit_client, authenticate_client, complete_connection, connect_to_peer, disconnect_from_peer,
    encode_frame, frame_length, get_connected_peers, handle_peer_message, length_header,
    peer_address, server_started, start_server, stop_server, within_message_limit, Message,
    PeerEvent, MAX_MESSAGE_SIZE_BYTES,
};
use nearbyshare::state::{AppState, Peer, TransferStatus};
use nearbyshare::text::decimal_string;

fn state() -> AppState {
    AppState::with_identity("dev".to_string(), "host".to_string())
}

fn peer(id: &str) -> Peer {
    Peer {
        id: id.to_string(),
        name: "laptop".to_string(),
        ip: "192.168.1.7".to_string(),
        port: 51234,
        connected: false,
        authenticated: false,
    }
}

#[test]
fn header_is_big_endian() {
    assert_eq!(length_header(0), [0, 0, 0, 0]);
    assert_eq!(length_header(258), [0, 0, 1, 2]);
    assert_eq!(length_header(0x01020304), [1, 2, 3, 4]);
    assert_eq!(frame_length([1, 2, 3, 4]), 0x01020304);
    assert_eq!(frame_length([0xff, 0xff, 0xff, 0xff]), 0xffff_ffff);
}

#[test]
fn header_round_trip() {
    for n in [0usize, 1, 255, 256, 65535, 65536, 10 * 1024 * 1024, 0xffff_ffff] {
        assert_eq!(frame_length(length_header(n)), n);
    }
}

#[test]
fn header_truncates_like_u32_cast() {
    let n: usize = 0x1_0000_0005;
    assert_eq!(length_header(n), (n as u32).to_be_bytes());
    assert_eq!(length_header(77), 77u32.to_be_bytes());
}

#[test]
fn frame_is_header_then_body() {
    let body = b"{\"type\":\"Ping\"}";
    let f = encode_frame(body);
    assert_eq!(f.len(), body.len() + 4);
    assert_eq!(&f[..4], &(body.len() as u32).to_be_bytes());
    assert_eq!(&f[4..], body);
    assert_eq!(encode_frame(&[]), vec![0, 0, 0, 0]);
}

#[test]
fn message_limit() {
    assert_eq!(MAX_MESSAGE_SIZE_BYTES, 10_485_760);
    assert!(within_message_limit(10_485_760));
    assert!(!within_message_limit(10_485_761));
    assert!(within_message_limit(0));
}

#[test]
fn decimal_text() {
    assert_eq!(decimal_string(0), "0");
    assert_eq!(decimal_string(7), "7");
    assert_eq!(decimal_string(8765), "8765");
    assert_eq!(decimal_string(u64::MAX), u64::MAX.to_string());
}

#[test]
fn address_is_ip_colon_port() {
    assert_eq!(peer_address(&peer("p")), "192.168.1.7:51234");
    let mut p = peer("p");
    p.port = 0;
    assert_eq!(peer_address(&p), "192.168.1.7:0");
}

#[test]
fn connect_unknown_peer() {
    let s = state();
    assert_eq!(connect_to_peer("x", &s).err(), Some("Peer not found".to_string()));
}

#[test]
fn connect_without_token() {
    let mut s = state();
    s.add_discovered_peer(peer("p"));
    assert_eq!(connect_to_peer("p", &s).err(), Some("No token set".to_string()));
}

#[test]
fn connect_sends_token_digest() {
    let mut s = state();
    s.add_discovered_peer(peer("p"));
    set_token("shared".to_string(), &mut s).unwrap();
    let req = connect_to_peer("p", &s).unwrap();
    assert_eq!(req.peer, peer("p"));
    assert_eq!(req.address, "192.168.1.7:51234");
    assert_eq!(req.message, Message::Auth { token_hash: hash_token("shared") });
}

#[test]
fn same_token_authenticates() {
    let mut client = state();
    let mut server = state();
    set_token("shared".to_string(), &mut client).unwrap();
    set_token("shared".to_string(), &mut server).unwrap();
    client.add_discovered_peer(peer("srv"));
    let req = connect_to_peer("srv", &client).unwrap();
    assert_eq!(authenticate_client(&server, &req.message, "1.2.3.4:5"), Ok(true));
    set_token("different".to_string(), &mut server).unwrap();
    assert_eq!(authenticate_client(&server, &req.message, "1.2.3.4:5"), Ok(false));
}

#[test]
fn tokenless_server_refuses() {
    let server = state();
    let m = Message::Auth { token_hash: hash_token("") };
    assert_eq!(authenticate_client(&server, &m, "a"), Ok(false));
}

#[test]
fn first_message_must_be_auth() {
    let server = state();
    assert_eq!(
        authenticate_client(&server, &Message::Ping, "10.0.0.9:4444"),
        Err("Expected authentication message, but received a different message type from 10.0.0.9:4444".to_string())
    );
}

#[test]
fn complete_connection_outcomes() {
    let mut s = state();
    assert_eq!(complete_connection(&mut s, peer("p"), Message::AuthResponse { success: false }), Ok(false));
    assert!(!s.connected_peers.contains("p"));
    assert_eq!(
        complete_connection(&mut s, peer("p"), Message::Pong),
        Err("Unexpected response".to_string())
    );
    assert!(!s.connected_peers.contains("p"));
    assert_eq!(complete_connection(&mut s, peer("p"), Message::AuthResponse { success: true }), Ok(true));
    let p = s.connected_peers.get("p").unwrap();
    assert!(p.connected && p.authenticated);
    assert_eq!(p.ip, "192.168.1.7");
}

#[test]
fn admit_client_records_peer() {
    let mut s = state();
    let p = admit_client(&mut s, "10.0.0.3:6000", "10.0.0.3", 6000);
    assert_eq!(p.id, "10.0.0.3:6000");
    assert_eq!(p.name, "10.0.0.3");
    assert_eq!(p.ip, "10.0.0.3");
    assert_eq!(p.port, 6000);
    assert!(p.connected && p.authenticated);
    assert_eq!(s.connected_peers.get("10.0.0.3:6000"), Some(&p));
    assert_eq!(get_connected_peers(&s), Ok(vec![p]));
    assert_eq!(disconnect_from_peer("10.0.0.3:6000", &mut s), Ok(()));
    assert_eq!(get_connected_peers(&s), Ok(vec![]));
}

#[test]
fn server_start_stop() {
    let mut s = state();
    assert_eq!(start_server(&s), None);
    server_started(&mut s, 40000);
    assert!(s.server_running);
    assert_eq!(start_server(&s), Some(40000));
    assert_eq!(stop_server(&mut s), Ok(()));
    assert!(!s.server_running);
    assert_eq!(s.server_port, 40000);
}

#[test]
fn peer_messages_update_state() {
    let mut s = state();
    let from = "10.0.0.3:6000";
    let ev = handle_peer_message(&mut s, from, Message::Clipboard { content: "hi".to_string() });
    assert_eq!(ev, PeerEvent::ClipboardReceived("hi".to_string()));
    assert_eq!(s.shared_clipboard, Some("hi".to_string()));

    let ev = handle_peer_message(
        &mut s,
        from,
        Message::FileRequest { id: "t1".to_string(), name: "f.bin".to_string(), size: 10 },
    );
    match ev {
        PeerEvent::TransferRequested(t) => {
            assert_eq!(t.id, "t1");
            assert_eq!(t.from_peer, from);
            assert_eq!(t.to_peer, "self");
            assert_eq!(t.status, TransferStatus::Pending);
            assert_eq!(t.transferred, 0);
            assert_eq!(t.file_path, None);
        }
        other => panic!("unexpected {:?}", other),
    }
    assert_eq!(s.transfers.get("t1").unwrap().file_size, 10);

    let ev = handle_peer_message(&mut s, from, Message::FileAccept { id: "t1".to_string() });
    assert_eq!(ev, PeerEvent::TransferAccepted("t1".to_string()));
    assert_eq!(s.transfers.get("t1").unwrap().status, TransferStatus::Accepted);

    let ev = handle_peer_message(
        &mut s,
        from,
        Message::FileData { id: "t1".to_string(), data: "QUJD".to_string(), offset: 3 },
    );
    assert_eq!(
        ev,
        PeerEvent::TransferProgress { id: "t1".to_string(), data: "QUJD".to_string(), offset: 3 }
    );
    assert_eq!(s.transfers.get("t1").unwrap().status, TransferStatus::InProgress);
    assert_eq!(s.transfers.get("t1").unwrap().transferred, 3);

    let ev = handle_peer_message(&mut s, from, Message::FileComplete { id: "t1".to_string() });
    assert_eq!(ev, PeerEvent::TransferComplete("t1".to_string()));
    assert_eq!(s.transfers.get("t1").unwrap().status, TransferStatus::Completed);

    let ev = handle_peer_message(&mut s, from, Message::FileReject { id: "t1".to_string() });
    assert_eq!(ev, PeerEvent::TransferRejected("t1".to_string()));
    assert_eq!(s.transfers.get("t1").unwrap().status, TransferStatus::Rejected);
}

#[test]
fn ping_gets_pong_and_others_ignored() {
    let mut s = state();
    assert_eq!(handle_peer_message(&mut s, "a", Message::Ping), PeerEvent::Reply(Message::Pong));
    assert_eq!(handle_peer_message(&mut s, "a", Message::Pong), PeerEvent::Ignored);
    assert_eq!(
        handle_peer_message(&mut s, "a", Message::AuthResponse { success: true }),
        PeerEvent::Ignored
    );
    assert_eq!(
        handle_peer_message(&mut s, "a", Message::FileAccept { id: "none".to_string() }),
        PeerEvent::TransferAccepted("none".to_string())
    );
    assert!(!s.transfers.contains("none"));
}

#[test]
fn requested_file_is_pending() {
    let mut s = state();
    handle_peer_message(
        &mut s,
        "10.0.0.3:6000",
        Message::FileRequest { id: "t9".to_string(), name: "x".to_string(), size: 1 },
    );
    let pending = nearbyshare::file_transfer::get_pending_transfers(&s).unwrap();
    assert_eq!(pending.len(), 1);
    assert_eq!(pending[0].id, "t9");
    assert_eq!(pending[0].transferred, 0);
}

#[test]
fn frames_over_limit_are_discarded_whole() {
    assert_eq!(classify_frame(length_header(10_485_760)), FrameAction::Read(10_485_760));
    assert_eq!(classify_frame(length_header(10_485_761)), FrameAction::Discard(10_485_761));
    assert_eq!(classify_frame([0, 0, 0, 5]), FrameAction::Read(5));
}

#[test]
fn handshake_frame_limit() {
    assert_eq!(handshake_frame_length([0, 0, 1, 0]), Ok(256));
    assert_eq!(handshake_frame_length(length_header(10_485_760)), Ok(10_485_760));
    assert_eq!(
        handshake_frame_length([0xff, 0xff, 0xff, 0xff]),
        Err("Message too large".to_string())
    );
}

#[test]
fn delivery_needs_token_and_acceptance() {
    let mut sender = state();
    assert_eq!(prepare_delivery(&peer("p"), &sender).err(), Some("No token set".to_string()));
    set_token("shared".to_string(), &mut sender).unwrap();
    let d = prepare_delivery(&peer("p"), &sender).unwrap();
    assert_eq!(d.address, "192.168.1.7:51234");
    assert_eq!(d.auth, Message::Auth { token_hash: hash_token("shared") });

    let mut receiver = state();
    set_token("shared".to_string(), &mut receiver).unwrap();
    assert_eq!(authenticate_client(&receiver, &d.auth, "x"), Ok(true));

    assert_eq!(delivery_accepted(Message::AuthResponse { success: true }), Ok(()));
    assert_eq!(
        delivery_accepted(Message::AuthResponse { success: false }),
        Err("Authentication failed".to_string())
    );
    assert_eq!(delivery_accepted(Message::Ping), Err("Unexpected response".to_string()));
}

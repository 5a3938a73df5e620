use base64::Engine;
use nearbyshare::file_transfer::offer_file;
use nearbyshare::file_transfer::{
    accept_transfer, cancel_transfer, chunk_message, ensure_not_cancelled, chunk_recipient, chunk_sent, completion_message, finish_chunks,
    get_pending_transfers, get_transfer_progress, more_to_send, next_chunk_step, reject_transfer, send_file,
    TransferProgress, CHUNK_SIZE,
};
use nearbyshare::network::Message;
use nearbyshare::state::{AppState, FileTransfer, Peer, TransferStatus};

fn state() -> AppState {
    AppState::with_identity("dev".to_string(), "host".to_string())
}

fn peer(id: &str) -> Peer {
    Peer {
        id: id.to_string(),
        name: id.to_string(),
        ip: "10.0.0.5".to_string(),
        port: 7000,
        connected: true,
        authenticated: true,
    }
}

fn incoming(id: &str, from: &str) -> FileTransfer {
    FileTransfer {
        id: id.to_string(),
        file_name: "photo.jpg".to_string(),
        file_size: 2048,
        transferred: 0,
        from_peer: from.to_string(),
        to_peer: "self".to_string(),
        status: TransferStatus::Pending,
        file_path: None,
    }
}

#[test]
fn send_file_to_unknown_peer() {
    let mut s = state();
    let r = send_file("ghost", "/tmp/x.txt", Ok(3), &mut s);
    assert_eq!(r.err(), Some("Peer not found".to_string()));
    assert!(s.transfers.values().is_empty());
}

#[test]
fn send_file_reports_read_error_after_peer_check() {
    let mut s = state();
    s.add_connected_peer(peer("p"));
    let r = send_file("p", "/nope", Err("No such file".to_string()), &mut s);
    assert_eq!(r.err(), Some("No such file".to_string()));
    assert!(s.transfers.values().is_empty());
}

#[test]
fn send_file_records_pending_offer() {
    let mut s = state();
    s.add_connected_peer(peer("p"));
    let offer = send_file("p", "/home/me/docs/report.pdf", Ok(1234), &mut s).unwrap();
    assert_eq!(offer.transfer_id.len(), 36);
    assert_eq!(offer.peer, peer("p"));
    assert_eq!(
        offer.message,
        Message::FileRequest { id: offer.transfer_id.clone(), name: "report.pdf".to_string(), size: 1234 }
    );
    let t = s.transfers.get(&offer.transfer_id).unwrap();
    assert_eq!(t.file_name, "report.pdf");
    assert_eq!(t.from_peer, "self");
    assert_eq!(t.to_peer, "p");
    assert_eq!(t.status, TransferStatus::Pending);
    assert_eq!(t.file_path, Some("/home/me/docs/report.pdf".to_string()));
}

#[test]
fn send_file_without_file_name() {
    let mut s = state();
    s.add_connected_peer(peer("p"));
    let offer = send_file("p", "/", Ok(0), &mut s).unwrap();
    match offer.message {
        Message::FileRequest { name, .. } => assert_eq!(name, "unknown"),
        other => panic!("{:?}", other),
    }
    let offer = send_file("p", "dir/..", Ok(0), &mut s).unwrap();
    match offer.message {
        Message::FileRequest { name, .. } => assert_eq!(name, "unknown"),
        other => panic!("{:?}", other),
    }
}

#[test]
fn progress_of_known_and_unknown() {
    let mut s = state();
    s.add_transfer(incoming("t", "p"));
    s.update_transfer_progress("t", 512);
    assert_eq!(
        get_transfer_progress("t", &s),
        Ok(Some(TransferProgress {
            id: "t".to_string(),
            file_name: "photo.jpg".to_string(),
            file_size: 2048,
            transferred: 512,
            status: TransferStatus::Pending,
        }))
    );
    assert_eq!(get_transfer_progress("u", &s), Ok(None));
}

#[test]
fn cancel_marks_cancelled() {
    let mut s = state();
    s.add_transfer(incoming("t", "p"));
    assert_eq!(cancel_transfer("t", &mut s), Ok(()));
    assert_eq!(s.transfers.get("t").unwrap().status, TransferStatus::Cancelled);
    assert_eq!(cancel_transfer("other", &mut s), Ok(()));
}

#[test]
fn pending_transfers_only() {
    let mut s = state();
    s.add_transfer(incoming("a", "p"));
    s.add_transfer(incoming("b", "p"));
    s.add_transfer(incoming("c", "p"));
    s.update_transfer_status("b", TransferStatus::Completed);
    let mut ids: Vec<String> = get_pending_transfers(&s).unwrap().into_iter().map(|t| t.id).collect();
    ids.sort();
    assert_eq!(ids, vec!["a".to_string(), "c".to_string()]);
    assert_eq!(get_pending_transfers(&state()), Ok(vec![]));
}

#[test]
fn outgoing_offers_are_not_pending_incoming() {
    let mut s = state();
    s.add_connected_peer(peer("p"));
    let offer = send_file("p", "/tmp/out.txt", Ok(5), &mut s).unwrap();
    assert_eq!(s.transfers.get(&offer.transfer_id).unwrap().status, TransferStatus::Pending);
    assert_eq!(get_pending_transfers(&s), Ok(vec![]));
    s.add_transfer(incoming("in", "p"));
    assert_eq!(get_pending_transfers(&s), Ok(vec![incoming("in", "p")]));
}

#[test]
fn chunk_steps() {
    let mut s = state();
    s.add_transfer(incoming("t", "self"));
    assert_eq!(next_chunk_step("t", 0, 10, &s), Ok(true));
    assert_eq!(next_chunk_step("t", 10, 10, &s), Ok(false));
    cancel_transfer("t", &mut s).unwrap();
    assert_eq!(next_chunk_step("t", 3, 10, &s), Err("Transfer cancelled".to_string()));
    assert_eq!(next_chunk_step("t", 10, 10, &s), Ok(false));
}

#[test]
fn accept_sets_path_and_answers_sender() {
    let mut s = state();
    s.add_connected_peer(peer("p"));
    s.add_transfer(incoming("t", "p"));
    let pm = accept_transfer("t", "/save/photo.jpg".to_string(), &mut s).unwrap();
    assert_eq!(pm.peer, peer("p"));
    assert_eq!(pm.message, Message::FileAccept { id: "t".to_string() });
    let t = s.transfers.get("t").unwrap();
    assert_eq!(t.status, TransferStatus::Accepted);
    assert_eq!(t.file_path, Some("/save/photo.jpg".to_string()));
}

#[test]
fn accept_errors() {
    let mut s = state();
    assert_eq!(
        accept_transfer("t", "/x".to_string(), &mut s).err(),
        Some("Transfer not found".to_string())
    );
    s.add_transfer(incoming("t", "gone"));
    assert_eq!(
        accept_transfer("t", "/x".to_string(), &mut s).err(),
        Some("Peer not found".to_string())
    );
    assert_eq!(s.transfers.get("t").unwrap().status, TransferStatus::Accepted);
}

#[test]
fn reject_marks_and_answers() {
    let mut s = state();
    assert_eq!(reject_transfer("t", &mut s).err(), Some("Transfer not found".to_string()));
    s.add_transfer(incoming("t", "p"));
    assert_eq!(reject_transfer("t", &mut s).err(), Some("Peer not found".to_string()));
    assert_eq!(s.transfers.get("t").unwrap().status, TransferStatus::Rejected);
    s.add_connected_peer(peer("p"));
    let pm = reject_transfer("t", &mut s).unwrap();
    assert_eq!(pm.message, Message::FileReject { id: "t".to_string() });
    assert_eq!(pm.peer, peer("p"));
}

#[test]
fn chunk_messages_are_base64() {
    let mut s = state();
    s.add_transfer(incoming("t", "p"));
    assert_eq!(ensure_not_cancelled("t", &s), Ok(()));
    assert_eq!(ensure_not_cancelled("unknown", &s), Ok(()));
    assert_eq!(
        chunk_message("t", 0, b"hello"),
        Message::FileData { id: "t".to_string(), data: "aGVsbG8=".to_string(), offset: 0 }
    );
    assert_eq!(
        chunk_message("t", 1, b"ab"),
        Message::FileData { id: "t".to_string(), data: "YWI=".to_string(), offset: 1 }
    );
    assert_eq!(
        chunk_message("t", 5, b""),
        Message::FileData { id: "t".to_string(), data: String::new(), offset: 5 }
    );
    let big = vec![0u8; CHUNK_SIZE];
    match chunk_message("unknown", 9, &big) {
        Message::FileData { data, .. } => assert_eq!(data.len(), 4 * ((CHUNK_SIZE + 2) / 3)),
        other => panic!("{:?}", other),
    }
}

#[test]
fn cancelled_transfer_yields_no_chunk() {
    let mut s = state();
    s.add_transfer(incoming("t", "p"));
    cancel_transfer("t", &mut s).unwrap();
    assert_eq!(ensure_not_cancelled("t", &s), Err("Transfer cancelled".to_string()));
}

#[test]
fn chunk_bookkeeping() {
    let mut s = state();
    s.add_connected_peer(peer("p"));
    s.add_transfer(incoming("t", "self"));
    assert_eq!(chunk_recipient("p", &s), Ok(peer("p")));
    assert_eq!(chunk_recipient("q", &s), Err("Peer not found".to_string()));
    assert!(more_to_send(0, 10));
    assert!(!more_to_send(10, 10));
    let next = chunk_sent("t", 0, 6, &mut s);
    assert_eq!(next, 6);
    assert_eq!(s.transfers.get("t").unwrap().transferred, 6);
    assert_eq!(completion_message("t"), Message::FileComplete { id: "t".to_string() });
    finish_chunks("t", &mut s);
    assert_eq!(s.transfers.get("t").unwrap().status, TransferStatus::Completed);
}

#[test]
fn offer_under_given_id() {
    let mut s = state();
    s.add_connected_peer(peer("p"));
    let offer = offer_file("p", "/a/b/c.txt", Ok(9), "fixed-id".to_string(), &mut s).unwrap();
    assert_eq!(offer.transfer_id, "fixed-id");
    assert_eq!(
        offer.message,
        Message::FileRequest { id: "fixed-id".to_string(), name: "c.txt".to_string(), size: 9 }
    );
    let t = s.transfers.get("fixed-id").unwrap();
    assert_eq!(t.id, "fixed-id");
    assert_eq!(t.to_peer, "p");
    assert_eq!(t.file_size, 9);
}

#[test]
fn chunked_file_rebuilds_whole() {
    let file: Vec<u8> = (0..(CHUNK_SIZE + 10)).map(|i| (i % 251) as u8).collect();
    let mut s = state();
    s.add_transfer(incoming("t", "self"));
    let size = file.len() as u64;
    let mut offset: u64 = 0;
    let mut rebuilt: Vec<u8> = Vec::new();
    let mut offsets = Vec::new();
    while next_chunk_step("t", offset, size, &s).unwrap() {
        let start = offset as usize;
        let end = std::cmp::min(start + CHUNK_SIZE, file.len());
        let chunk = &file[start..end];
        match chunk_message("t", offset, chunk) {
            Message::FileData { id, data, offset: o } => {
                assert_eq!(id, "t");
                offsets.push(o);
                rebuilt.extend(base64::engine::general_purpose::STANDARD.decode(data).unwrap());
            }
            other => panic!("{:?}", other),
        }
        offset = chunk_sent("t", offset, chunk.len(), &mut s);
    }
    assert_eq!(offsets, vec![0, CHUNK_SIZE as u64]);
    assert_eq!(rebuilt, file);
    assert_eq!(s.transfers.get("t").unwrap().transferred, size);
    assert_eq!(next_chunk_step("t", offset, size, &s), Ok(false));
}

#[test]
fn base64_alphabet_edges() {
    assert_eq!(
        chunk_message("t", 0, &[0xfb, 0xff]),
        Message::FileData { id: "t".to_string(), data: "+/8=".to_string(), offset: 0 }
    );
    assert_eq!(
        chunk_message("t", 0, b"Man"),
        Message::FileData { id: "t".to_string(), data: "TWFu".to_string(), offset: 0 }
    );
    assert_eq!(
        chunk_message("t", 0, &[0x00, 0x10, 0x83, 0x10, 0x51, 0x87]),
        Message::FileData { id: "t".to_string(), data: "ABCDEFGH".to_string(), offset: 0 }
    );
}

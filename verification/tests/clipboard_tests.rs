use nearbyshare::clipboard::{
    disable_clipboard_sync, enable_clipboard_sync, get_shared_clipboard, share_clipboard,
};
use nearbyshare::network::Message;
use nearbyshare::state::{AppState, Peer};

fn peer(id: &str) -> Peer {
    Peer {
        id: id.to_string(),
        name: id.to_string(),
        ip: "10.1.1.1".to_string(),
        port: 9,
        connected: true,
        authenticated: true,
    }
}

#[test]
fn share_stores_and_addresses_every_connected_peer() {
    let mut s = AppState::with_identity("d".to_string(), "h".to_string());
    s.add_connected_peer(peer("a"));
    s.add_connected_peer(peer("b"));
    s.add_discovered_peer(peer("c"));
    let b = share_clipboard("text".to_string(), &mut s).unwrap();
    assert_eq!(b.message, Message::Clipboard { content: "text".to_string() });
    let mut ids: Vec<String> = b.recipients.iter().map(|p| p.id.clone()).collect();
    ids.sort();
    assert_eq!(ids, vec!["a".to_string(), "b".to_string()]);
    assert_eq!(get_shared_clipboard(&s), Ok(Some("text".to_string())));
}

#[test]
fn share_with_nobody_connected() {
    let mut s = AppState::with_identity("d".to_string(), "h".to_string());
    assert_eq!(get_shared_clipboard(&s), Ok(None));
    let b = share_clipboard(String::new(), &mut s).unwrap();
    assert!(b.recipients.is_empty());
    assert_eq!(get_shared_clipboard(&s), Ok(Some(String::new())));
}

#[test]
fn sync_toggle() {
    let mut s = AppState::with_identity("d".to_string(), "h".to_string());
    assert_eq!(enable_clipboard_sync(&mut s), Ok(()));
    assert!(s.clipboard_sync_enabled);
    assert_eq!(disable_clipboard_sync(&mut s), Ok(()));
    assert!(!s.clipboard_sync_enabled);
}

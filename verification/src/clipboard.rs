//! The shared clipboard: what was last shared or received, and whether
//! automatic synchronisation is on.
use vstd::prelude::*;
use crate::network::Message;
use crate::state::{AppState, Peer};
use crate::table::{keys_unique, seq_to_map};

verus! {

/// A message to be sent to each of `recipients`.
pub struct Broadcast {
    pub recipients: Vec<Peer>,
    pub message: Message,
}

/// Keeps `content` as the shared clipboard and addresses it to every
/// connected peer.
pub fn share_clipboard(content: String, state: &mut AppState) -> (r: Result<Broadcast, String>)
    ensures
        r matches Ok(b) && keys_unique(b.recipients@) && seq_to_map(b.recipients@)
            == old(state).connected_peers.view() && b.message == (Message::Clipboard {
            content,
        }),
        *final(state) == (AppState { shared_clipboard: Some(content), ..*old(state) }),
{
    state.shared_clipboard = Some(content.clone());
    let recipients = state.connected_peers.values();
    Ok(Broadcast { recipients, message: Message::Clipboard { content } })
}

/// The shared clipboard, if anything was shared or received.
pub fn get_shared_clipboard(state: &AppState) -> (r: Result<Option<String>, String>)
    ensures
        r == Ok::<Option<String>, String>(state.shared_clipboard),
{
    match &state.shared_clipboard {
        Some(c) => Ok(Some(c.clone())),
        None => Ok(None),
    }
}

/// Turns automatic clipboard synchronisation on.
pub fn enable_clipboard_sync(state: &mut AppState) -> (r: Result<(), String>)
    ensures
        r is Ok,
        *final(state) == (AppState { clipboard_sync_enabled: true, ..*old(state) }),
{
    state.clipboard_sync_enabled = true;
    Ok(())
}

/// Turns automatic clipboard synchronisation off.
pub fn disable_clipboard_sync(state: &mut AppState) -> (r: Result<(), String>)
    ensures
        r is Ok,
        *final(state) == (AppState { clipboard_sync_enabled: false, ..*old(state) }),
{
    state.clipboard_sync_enabled = false;
    Ok(())
}

/// What `share_clipboard` stores is what `get_shared_clipboard` reads back.
pub proof fn lemma_share_then_get(before: AppState, after: AppState, content: String)
    requires
        after == (AppState { shared_clipboard: Some(content), ..before }),
    ensures
        after.shared_clipboard == Some(content),
        after.connected_peers == before.connected_peers,
{
}

} // verus!

//! File transfers: offering a file to a peer, answering an offer, sending a
//! file in chunks, and looking transfers up.
use vstd::prelude::*;
use vstd::string::*;
use base64::Engine;
use crate::auth::opt_view;
use crate::network::{is_error_text, peer_not_found_message, Message};
use crate::platform::{is_uuid_v4_text, random_uuid_string};
use crate::state::{
    update_existing, with_progress, with_status, AppState, FileTransfer, Peer,
    TransferStatus,
};
use crate::table::{keys_unique, seq_to_map, Keyed};

verus! {

/// The most bytes read from a file for one data message (64 KiB).
pub const CHUNK_SIZE: usize = 65536;

/// The character of the 6-bit value `n` in the standard Base64 alphabet
/// `A`-`Z`, `a`-`z`, `0`-`9`, `+`, `/`.
pub open spec fn base64_char(n: int) -> char {
    if n < 26 {
        (65 + n) as char
    } else if n < 52 {
        (71 + n) as char
    } else if n < 62 {
        (n - 4) as char
    } else if n == 62 {
        '+'
    } else {
        '/'
    }
}

/// The standard padded Base64 text of `data` (RFC 4648): each group of three
/// bytes becomes four characters of six bits each, high bits first; a last
/// group of one or two bytes is zero-filled and padded with `=`.
pub open spec fn base64_standard(data: Seq<u8>) -> Seq<char>
    decreases data.len(),
{
    if data.len() == 0 {
        Seq::empty()
    } else if data.len() == 1 {
        seq![base64_char((data[0] / 4) as int), base64_char(((data[0] % 4) * 16) as int), '=', '=']
    } else if data.len() == 2 {
        seq![
            base64_char((data[0] / 4) as int),
            base64_char(((data[0] % 4) * 16 + data[1] / 16) as int),
            base64_char(((data[1] % 16) * 4) as int),
            '=',
        ]
    } else {
        seq![
            base64_char((data[0] / 4) as int),
            base64_char(((data[0] % 4) * 16 + data[1] / 16) as int),
            base64_char(((data[1] % 16) * 4 + data[2] / 64) as int),
            base64_char((data[2] % 64) as int),
        ] + base64_standard(data.skip(3))
    }
}

/// Base64 text has four characters for every started group of three bytes.
pub proof fn lemma_base64_length(data: Seq<u8>)
    ensures
        base64_standard(data).len() == 4 * ((data.len() + 2) / 3),
    decreases data.len(),
{
    if data.len() > 2 {
        lemma_base64_length(data.skip(3));
    }
}

/// Calls `base64::engine::general_purpose::STANDARD.encode` on `data`: the
/// standard alphabet with padding, as the contract states in full
/// (`base64_standard`). The crate panics where the encoded length overflows
/// `usize`; `requires` keeps well below it.
#[verifier::external_body]
fn base64_encode(data: &[u8]) -> (s: String)
    requires
        data@.len() <= 0x3fff_ffff,
    ensures
        s@ == base64_standard(data@),
{
    base64::engine::general_purpose::STANDARD.encode(data)
}

/// The last component of the path `path`, as `std::path::Path::file_name`
/// followed by `OsStr::to_str` gives it.
pub uninterp spec fn path_file_name(path: Seq<char>) -> Option<Seq<char>>;

/// Calls `std::path::Path::file_name` on `path` and converts the component
/// to a `String`. The contract names the result (`path_file_name`) and
/// states nothing of how std splits paths.
#[verifier::external_body]
fn file_name_of(path: &str) -> (r: Option<String>)
    ensures
        opt_view(r) == path_file_name(path@),
{
    match std::path::Path::new(path).file_name() {
        Some(n) => match n.to_str() {
            Some(s) => Some(s.to_string()),
            None => None,
        },
        None => None,
    }
}

/// The name under which a file at `path` is offered: its last component,
/// or `unknown`.
pub open spec fn offered_name(path: Seq<char>) -> Seq<char> {
    match path_file_name(path) {
        Some(n) => n,
        None => "unknown"@,
    }
}

/// A transfer as the user sees it.
#[derive(Debug, PartialEq, Eq)]
pub struct TransferProgress {
    pub id: String,
    pub file_name: String,
    pub file_size: u64,
    pub transferred: u64,
    pub status: TransferStatus,
}

/// A message for one peer.
pub struct PeerMessage {
    pub peer: Peer,
    pub message: Message,
}

/// The offer of a file: the new transfer's id and the request for the peer.
pub struct FileOffer {
    pub transfer_id: String,
    pub peer: Peer,
    pub message: Message,
}

/// The message of the error for an unknown transfer.
pub open spec fn transfer_not_found_message() -> Seq<char> {
    "Transfer not found"@
}

/// The message of the error for a cancelled transfer.
pub open spec fn transfer_cancelled_message() -> Seq<char> {
    "Transfer cancelled"@
}

/// `t` is the record of the outgoing offer `id` of the file at `path`, of
/// `size` bytes and name `name`, to `peer_id`.
pub open spec fn is_outgoing_offer(
    t: FileTransfer,
    id: Seq<char>,
    name: Seq<char>,
    size: u64,
    peer_id: Seq<char>,
    path: Seq<char>,
) -> bool {
    &&& t.id@ == id
    &&& t.file_name@ == name
    &&& t.file_size == size
    &&& t.transferred == 0
    &&& t.from_peer@ == "self"@
    &&& t.to_peer@ == peer_id
    &&& t.status == TransferStatus::Pending
    &&& opt_view(t.file_path) == Some(path)
}

/// The outcome of offering the file at `path` (of size `file_size`, or the
/// error reading it gave) to `peer_id` under the transfer id `id`: the
/// peer is looked up first, then the size; on success the pending offer is
/// recorded under `id` and a file request addressed to the peer.
pub open spec fn offer_made(
    before: AppState,
    after: AppState,
    r: Result<FileOffer, String>,
    peer_id: Seq<char>,
    path: Seq<char>,
    file_size: Result<u64, String>,
    id: Seq<char>,
) -> bool {
    &&& !before.connected_peers.view().contains_key(peer_id) ==> is_error_text(
        r,
        peer_not_found_message(),
    ) && after == before
    &&& before.connected_peers.view().contains_key(peer_id) && file_size is Err ==> r == Err::<
        FileOffer,
        String,
    >(file_size->Err_0) && after == before
    &&& before.connected_peers.view().contains_key(peer_id) && file_size is Ok ==> (r matches Ok(
        offer,
    ) && offer.transfer_id@ == id && offer.peer == before.connected_peers.view()[peer_id]
        && offer.message == (Message::FileRequest {
        id: offer.transfer_id,
        name: offer.message->name,
        size: file_size->Ok_0,
    }) && offer.message->name@ == offered_name(path) && after.transfers.view().contains_key(id)
        && is_outgoing_offer(
        after.transfers.view()[id],
        id,
        offered_name(path),
        file_size->Ok_0,
        peer_id,
        path,
    ) && after.transfers.view() == before.transfers.view().insert(id, after.transfers.view()[id])
        && after == (AppState { transfers: after.transfers, ..before }))
}

/// Offers the file at `file_path` to the connected peer `peer_id` under the
/// transfer id `transfer_id` (see `offer_made`).
pub fn offer_file(
    peer_id: &str,
    file_path: &str,
    file_size: Result<u64, String>,
    transfer_id: String,
    state: &mut AppState,
) -> (r: Result<FileOffer, String>)
    ensures
        offer_made(*old(state), *final(state), r, peer_id@, file_path@, file_size, transfer_id@),
        r is Ok ==> final(state).transfers.view().contains_key(transfer_id@)
            && final(state).transfers.view()[transfer_id@].transferred == 0
            && final(state).transfers.view()[transfer_id@].status == TransferStatus::Pending,
{
    let peer = match state.connected_peers.get(peer_id) {
        Some(p) => p.duplicate(),
        None => {
            return Err(String::from_str("Peer not found"));
        },
    };
    let size = match file_size {
        Ok(n) => n,
        Err(e) => {
            return Err(e);
        },
    };
    proof {
        reveal_strlit("unknown");
        reveal_strlit("self");
    }
    let file_name = match file_name_of(file_path) {
        Some(n) => n,
        None => String::from_str("unknown"),
    };
    let transfer = FileTransfer {
        id: transfer_id.clone(),
        file_name: file_name.clone(),
        file_size: size,
        transferred: 0,
        from_peer: String::from_str("self"),
        to_peer: peer_id.to_owned(),
        status: TransferStatus::Pending,
        file_path: Some(file_path.to_owned()),
    };
    state.add_transfer(transfer);
    let message = Message::FileRequest { id: transfer_id.clone(), name: file_name, size };
    Ok(FileOffer { transfer_id, peer, message })
}

/// The transfer id an offer was made under (empty for a failed one).
pub open spec fn offered_id(r: Result<FileOffer, String>) -> Seq<char> {
    match r {
        Ok(o) => o.transfer_id@,
        Err(_) => Seq::empty(),
    }
}

/// Offers the file at `file_path` to the connected peer `peer_id` under a
/// fresh random version-4 UUID as transfer id. `file_size` is the file's
/// size as read from disk, or the error reading it gave.
pub fn send_file(
    peer_id: &str,
    file_path: &str,
    file_size: Result<u64, String>,
    state: &mut AppState,
) -> (r: Result<FileOffer, String>)
    ensures
        offer_made(*old(state), *final(state), r, peer_id@, file_path@, file_size, offered_id(r)),
        r matches Ok(o) ==> is_uuid_v4_text(o.transfer_id@),
{
    offer_file(peer_id, file_path, file_size, random_uuid_string(), state)
}

/// The progress view of `t`.
pub open spec fn progress_of(t: FileTransfer) -> (Seq<char>, Seq<char>, u64, u64, TransferStatus) {
    (t.id@, t.file_name@, t.file_size, t.transferred, t.status)
}

/// The fields of a progress report.
pub open spec fn progress_fields(p: TransferProgress) -> (
    Seq<char>,
    Seq<char>,
    u64,
    u64,
    TransferStatus,
) {
    (p.id@, p.file_name@, p.file_size, p.transferred, p.status)
}

/// How far the transfer `transfer_id` has come, if it exists.
pub fn get_transfer_progress(transfer_id: &str, state: &AppState) -> (r: Result<
    Option<TransferProgress>,
    String,
>)
    ensures
        r matches Ok(o) && match o {
            Some(p) => state.transfers.view().contains_key(transfer_id@) && progress_fields(p)
                == progress_of(state.transfers.view()[transfer_id@]),
            None => !state.transfers.view().contains_key(transfer_id@),
        },
{
    match state.transfers.get(transfer_id) {
        Some(t) => Ok(
            Some(
                TransferProgress {
                    id: t.id.clone(),
                    file_name: t.file_name.clone(),
                    file_size: t.file_size,
                    transferred: t.transferred,
                    status: t.status,
                },
            ),
        ),
        None => Ok(None),
    }
}

/// Marks the transfer `transfer_id` cancelled, if it exists.
pub fn cancel_transfer(transfer_id: &str, state: &mut AppState) -> (r: Result<(), String>)
    ensures
        r is Ok,
        final(state).transfers.view() == update_existing(
            old(state).transfers.view(),
            transfer_id@,
            with_status(old(state).transfers.view()[transfer_id@], TransferStatus::Cancelled),
        ),
        *final(state) == (AppState { transfers: final(state).transfers, ..*old(state) }),
{
    state.update_transfer_status(transfer_id, TransferStatus::Cancelled);
    Ok(())
}

/// `t` was offered to this device and waits for its answer.
pub open spec fn is_pending_incoming(t: FileTransfer) -> bool {
    t.status == TransferStatus::Pending && t.to_peer@ == "self"@
}

/// Whether `t` was offered to this device and waits for its answer.
fn pending_incoming(t: &FileTransfer) -> (b: bool)
    ensures
        b == is_pending_incoming(*t),
{
    let me = String::from_str("self");
    t.status == TransferStatus::Pending && t.to_peer == me
}

/// Every pending incoming transfer (offered to this device, not yet
/// answered), each once.
pub fn get_pending_transfers(state: &AppState) -> (r: Result<Vec<FileTransfer>, String>)
    ensures
        r matches Ok(v) && keys_unique(v@) && (forall|i: int|
            0 <= i < v@.len() ==> is_pending_incoming(#[trigger] v@[i]) && v@[i].status
                == TransferStatus::Pending && v@[i].to_peer@ == "self"@ && state.transfers.view().contains_key(v@[i].id@) && state.transfers.view()[v@[i].id@]
                == v@[i]) && (forall|k: Seq<char>|
            #[trigger] state.transfers.view().contains_key(k) && is_pending_incoming(
                state.transfers.view()[k],
            ) ==> crate::table::has_key(v@, k)),
{
    let all = state.transfers.records();
    let n = all.len();
    let mut out: Vec<FileTransfer> = Vec::new();
    let ghost mut idx: Seq<int> = Seq::empty();
    let mut i: usize = 0;
    while i < n
        invariant
            n == all@.len(),
            i <= n,
            keys_unique(all@),
            seq_to_map(all@) == state.transfers.view(),
            out@.len() == idx.len(),
            forall|j: int|
                0 <= j < idx.len() ==> 0 <= #[trigger] idx[j] < i && out@[j] == all@[idx[j]]
                    && is_pending_incoming(all@[idx[j]]),
            forall|j1: int, j2: int| 0 <= j1 < j2 < idx.len() ==> #[trigger] idx[j1] < #[trigger] idx[j2],
            forall|a: int|
                0 <= a < i && is_pending_incoming(#[trigger] all@[a]) ==> exists|j: int|
                    0 <= j < idx.len() && #[trigger] idx[j] == a,
        decreases n - i,
    {
        if pending_incoming(&all[i]) {
            out.push(all[i].duplicate());
            proof {
                let old_idx = idx;
                idx = idx.push(i as int);
                assert forall|a: int|
                    0 <= a < i + 1 && is_pending_incoming(#[trigger] all@[a]) implies exists|j: int|
                    0 <= j < idx.len() && #[trigger] idx[j] == a by {
                    if a == i {
                        assert(idx[idx.len() - 1] == a);
                    } else {
                        let j = choose|j: int| 0 <= j < old_idx.len() && #[trigger] old_idx[j] == a;
                        assert(idx[j] == a);
                    }
                }
            }
        }
        i = i + 1;
    }
    proof {
        assert forall|j1: int, j2: int|
            0 <= j1 < out@.len() && 0 <= j2 < out@.len() && j1 != j2 implies #[trigger] out@[j1].key_view()
            != #[trigger] out@[j2].key_view() by {
            if j1 < j2 {
                assert(idx[j1] < idx[j2]);
            } else {
                assert(idx[j2] < idx[j1]);
            }
            assert(all@[idx[j1]].key_view() != all@[idx[j2]].key_view());
        }
        assert forall|j: int| 0 <= j < out@.len() implies is_pending_incoming(#[trigger] out@[j])
            && state.transfers.view().contains_key(out@[j].id@)
            && state.transfers.view()[out@[j].id@] == out@[j] by {
            assert(0 <= idx[j] < n);
            crate::table::lemma_map_at_index(all@, idx[j]);
        }
        assert forall|k: Seq<char>|
            #[trigger] state.transfers.view().contains_key(k) && is_pending_incoming(
                state.transfers.view()[k],
            ) implies crate::table::has_key(out@, k) by {
            let a = choose|a: int| 0 <= a < all@.len() && #[trigger] all@[a].key_view() == k;
            crate::table::lemma_map_at_index(all@, a);
            let j = choose|j: int| 0 <= j < idx.len() && #[trigger] idx[j] == a;
            assert(out@[j].key_view() == k);
        }
    }
    Ok(out)
}

/// Sets where the incoming transfer `transfer_id` is saved and marks it
/// accepted, then addresses the acceptance to the peer that offered it.
pub fn accept_transfer(transfer_id: &str, save_path: String, state: &mut AppState) -> (r: Result<
    PeerMessage,
    String,
>)
    ensures
        !old(state).transfers.view().contains_key(transfer_id@) ==> is_error_text(
            r,
            transfer_not_found_message(),
        ) && *final(state) == *old(state),
        old(state).transfers.view().contains_key(transfer_id@) ==> ({
            let t = old(state).transfers.view()[transfer_id@];
            let accepted = FileTransfer {
                file_path: Some(save_path),
                status: TransferStatus::Accepted,
                ..t
            };
            &&& final(state).transfers.view() == old(state).transfers.view().insert(
                transfer_id@,
                accepted,
            )
            &&& *final(state) == (AppState { transfers: final(state).transfers, ..*old(state) })
            &&& !old(state).connected_peers.view().contains_key(t.from_peer@) ==> is_error_text(
                r,
                peer_not_found_message(),
            )
            &&& old(state).connected_peers.view().contains_key(t.from_peer@) ==> (r matches Ok(pm)
                && pm.peer == old(state).connected_peers.view()[t.from_peer@] && pm.message
                == Message::FileAccept { id: pm.message->FileAccept_id } && pm.message->FileAccept_id@
                == transfer_id@)
        }),
{
    let from_peer = match state.transfers.get(transfer_id) {
        Some(t) => {
            let mut updated = t.duplicate();
            updated.file_path = Some(save_path);
            updated.status = TransferStatus::Accepted;
            let from = t.from_peer.clone();
            state.transfers.insert(updated);
            from
        },
        None => {
            return Err(String::from_str("Transfer not found"));
        },
    };
    let peer = match state.connected_peers.get(from_peer.as_str()) {
        Some(p) => p.duplicate(),
        None => {
            return Err(String::from_str("Peer not found"));
        },
    };
    Ok(PeerMessage { peer, message: Message::FileAccept { id: transfer_id.to_owned() } })
}

/// Marks the incoming transfer `transfer_id` rejected, then addresses the
/// rejection to the peer that offered it.
pub fn reject_transfer(transfer_id: &str, state: &mut AppState) -> (r: Result<PeerMessage, String>)
    ensures
        final(state).transfers.view() == update_existing(
            old(state).transfers.view(),
            transfer_id@,
            with_status(old(state).transfers.view()[transfer_id@], TransferStatus::Rejected),
        ),
        *final(state) == (AppState { transfers: final(state).transfers, ..*old(state) }),
        !old(state).transfers.view().contains_key(transfer_id@) ==> is_error_text(
            r,
            transfer_not_found_message(),
        ),
        old(state).transfers.view().contains_key(transfer_id@) ==> ({
            let from = old(state).transfers.view()[transfer_id@].from_peer@;
            &&& !old(state).connected_peers.view().contains_key(from) ==> is_error_text(
                r,
                peer_not_found_message(),
            )
            &&& old(state).connected_peers.view().contains_key(from) ==> (r matches Ok(pm)
                && pm.peer == old(state).connected_peers.view()[from] && pm.message
                == Message::FileReject { id: pm.message->FileReject_id } && pm.message->FileReject_id@
                == transfer_id@)
        }),
{
    state.update_transfer_status(transfer_id, TransferStatus::Rejected);
    let from_peer = match state.transfers.get(transfer_id) {
        Some(t) => t.from_peer.clone(),
        None => {
            return Err(String::from_str("Transfer not found"));
        },
    };
    let peer = match state.connected_peers.get(from_peer.as_str()) {
        Some(p) => p.duplicate(),
        None => {
            return Err(String::from_str("Peer not found"));
        },
    };
    Ok(PeerMessage { peer, message: Message::FileReject { id: transfer_id.to_owned() } })
}

// ----------------------------------------------------------------------
// Sending a file in chunks
// ----------------------------------------------------------------------

/// The connected peer `peer_id` that a file's chunks go to.
pub fn chunk_recipient(peer_id: &str, state: &AppState) -> (r: Result<Peer, String>)
    ensures
        state.connected_peers.view().contains_key(peer_id@) ==> r == Ok::<Peer, String>(
            state.connected_peers.view()[peer_id@],
        ),
        !state.connected_peers.view().contains_key(peer_id@) ==> is_error_text(
            r,
            peer_not_found_message(),
        ),
{
    match state.connected_peers.get(peer_id) {
        Some(p) => Ok(p.duplicate()),
        None => Err(String::from_str("Peer not found")),
    }
}

/// Whether bytes remain to be sent after `offset` of a file of `file_size`
/// bytes.
pub fn more_to_send(offset: u64, file_size: u64) -> (b: bool)
    ensures
        b == (offset < file_size),
{
    offset < file_size
}

/// `transfer_id` names a transfer that was cancelled.
pub open spec fn is_cancelled(state: AppState, transfer_id: Seq<char>) -> bool {
    state.transfers.view().contains_key(transfer_id)
        && state.transfers.view()[transfer_id].status == TransferStatus::Cancelled
}

/// The step of the chunk loop at `offset` of a file of `file_size` bytes:
/// `Ok(false)` when the whole file has gone, else the cancellation error if
/// the transfer was cancelled, else `Ok(true)` to read the next chunk.
pub fn next_chunk_step(transfer_id: &str, offset: u64, file_size: u64, state: &AppState) -> (r:
    Result<bool, String>)
    ensures
        offset >= file_size ==> r == Ok::<bool, String>(false),
        offset < file_size && is_cancelled(*state, transfer_id@) ==> is_error_text(
            r,
            transfer_cancelled_message(),
        ),
        offset < file_size && !is_cancelled(*state, transfer_id@) ==> r == Ok::<bool, String>(
            true,
        ),
        offset < file_size && (!state.transfers.view().contains_key(transfer_id@)
            || state.transfers.view()[transfer_id@].status != TransferStatus::Cancelled) ==> r
            == Ok::<bool, String>(true),
{
    if !more_to_send(offset, file_size) {
        return Ok(false);
    }
    ensure_not_cancelled(transfer_id, state)?;
    Ok(true)
}

/// Refuses to go on with transfer `transfer_id` once it was cancelled.
pub fn ensure_not_cancelled(transfer_id: &str, state: &AppState) -> (r: Result<(), String>)
    ensures
        is_cancelled(*state, transfer_id@) ==> is_error_text(r, transfer_cancelled_message()),
        !is_cancelled(*state, transfer_id@) ==> r is Ok,
{
    match state.transfers.get(transfer_id) {
        Some(t) => {
            if t.status == TransferStatus::Cancelled {
                return Err(String::from_str("Transfer cancelled"));
            }
        },
        None => {},
    }
    Ok(())
}

/// The data message carrying `data`, read at `offset` of transfer
/// `transfer_id`, as Base64 text.
pub fn chunk_message(transfer_id: &str, offset: u64, data: &[u8]) -> (m: Message)
    requires
        data@.len() <= CHUNK_SIZE,
    ensures
        m == (Message::FileData { id: m->FileData_id, data: m->data, offset }),
        m->FileData_id@ == transfer_id@,
        m->data@ == base64_standard(data@),
        m->data@.len() == 4 * ((data@.len() + 2) / 3),
{
    let encoded = base64_encode(data);
    proof {
        lemma_base64_length(data@);
    }
    Message::FileData { id: transfer_id.to_owned(), data: encoded, offset }
}

/// Records that `sent` more bytes of transfer `transfer_id` went after
/// `offset`, and returns the new offset.
pub fn chunk_sent(transfer_id: &str, offset: u64, sent: usize, state: &mut AppState) -> (next: u64)
    requires
        offset + sent <= u64::MAX,
    ensures
        next == offset + sent,
        final(state).transfers.view() == update_existing(
            old(state).transfers.view(),
            transfer_id@,
            with_progress(old(state).transfers.view()[transfer_id@], next),
        ),
        *final(state) == (AppState { transfers: final(state).transfers, ..*old(state) }),
{
    let next = offset + sent as u64;
    state.update_transfer_progress(transfer_id, next);
    next
}

/// The message that tells the peer transfer `transfer_id` is complete.
pub fn completion_message(transfer_id: &str) -> (m: Message)
    ensures
        m == (Message::FileComplete { id: m->FileComplete_id }),
        m->FileComplete_id@ == transfer_id@,
{
    Message::FileComplete { id: transfer_id.to_owned() }
}

/// Marks transfer `transfer_id` completed, once its last message went.
pub fn finish_chunks(transfer_id: &str, state: &mut AppState)
    ensures
        final(state).transfers.view() == update_existing(
            old(state).transfers.view(),
            transfer_id@,
            with_status(old(state).transfers.view()[transfer_id@], TransferStatus::Completed),
        ),
        *final(state) == (AppState { transfers: final(state).transfers, ..*old(state) }),
{
    state.update_transfer_status(transfer_id, TransferStatus::Completed);
}

/// The bytes of the first `k` chunks, in order.
pub open spec fn joined(chunks: Seq<Seq<u8>>, k: int) -> Seq<u8>
    decreases k,
{
    if k <= 0 {
        Seq::empty()
    } else {
        joined(chunks, k - 1) + chunks[k - 1]
    }
}

/// The offsets the chunk loop goes through: it starts at 0 and each sent
/// chunk moves it on by the chunk's length, as `chunk_sent` does.
pub open spec fn offsets_follow(offsets: Seq<u64>, chunks: Seq<Seq<u8>>) -> bool {
    &&& offsets.len() == chunks.len() + 1
    &&& offsets[0] == 0
    &&& forall|k: int|
        0 <= k < chunks.len() ==> #[trigger] offsets[k + 1] == offsets[k] + chunks[k].len()
}

/// Each chunk is what a read of the file at its offset gives.
pub open spec fn chunks_read_from(
    file: Seq<u8>,
    offsets: Seq<u64>,
    chunks: Seq<Seq<u8>>,
) -> bool {
    forall|k: int|
        0 <= k < chunks.len() ==> #[trigger] chunks[k] == file.subrange(
            offsets[k] as int,
            offsets[k] + chunks[k].len(),
        )
}

/// The offsets never pass the last one.
proof fn lemma_offsets_bounded(offsets: Seq<u64>, chunks: Seq<Seq<u8>>, k: int)
    requires
        offsets_follow(offsets, chunks),
        0 <= k <= chunks.len(),
    ensures
        offsets[k] <= offsets[chunks.len() as int],
    decreases chunks.len() - k,
{
    if k < chunks.len() {
        assert(offsets[k + 1] == offsets[k] + chunks[k].len());
        lemma_offsets_bounded(offsets, chunks, k + 1);
    }
}

/// The first `k` chunks sent rebuild the file up to the `k`-th offset.
proof fn lemma_joined_prefix(file: Seq<u8>, offsets: Seq<u64>, chunks: Seq<Seq<u8>>, k: int)
    requires
        offsets_follow(offsets, chunks),
        chunks_read_from(file, offsets, chunks),
        offsets[chunks.len() as int] <= file.len(),
        0 <= k <= chunks.len(),
    ensures
        joined(chunks, k) == file.subrange(0, offsets[k] as int),
    decreases k,
{
    lemma_offsets_bounded(offsets, chunks, k);
    if k == 0 {
        assert(joined(chunks, 0) =~= file.subrange(0, 0));
    } else {
        lemma_joined_prefix(file, offsets, chunks, k - 1);
        lemma_offsets_bounded(offsets, chunks, k - 1);
        assert(offsets[(k - 1) + 1] == offsets[k - 1] + chunks[k - 1].len());
        let c = chunks[k - 1];
        assert(c == file.subrange(offsets[k - 1] as int, offsets[k - 1] + c.len()));
        assert(joined(chunks, k) =~= file.subrange(0, offsets[k] as int));
    }
}

/// Sending a file in chunks delivers it whole and in order: when every chunk
/// is what a read at its offset gave, each offset moves on by the chunk just
/// sent, and the last offset is the file's size, then the chunks before any
/// offset rebuild the file up to that offset, and all chunks joined in order
/// are the file.
pub proof fn lemma_chunks_rebuild_file(file: Seq<u8>, offsets: Seq<u64>, chunks: Seq<Seq<u8>>)
    requires
        offsets_follow(offsets, chunks),
        chunks_read_from(file, offsets, chunks),
        offsets[chunks.len() as int] == file.len(),
    ensures
        forall|k: int|
            0 <= k <= chunks.len() ==> #[trigger] joined(chunks, k) == file.subrange(
                0,
                offsets[k] as int,
            ),
        joined(chunks, chunks.len() as int) == file,
{
    assert forall|k: int| 0 <= k <= chunks.len() implies #[trigger] joined(chunks, k)
        == file.subrange(0, offsets[k] as int) by {
        lemma_joined_prefix(file, offsets, chunks, k);
    }
    lemma_joined_prefix(file, offsets, chunks, chunks.len() as int);
    assert(file.subrange(0, file.len() as int) =~= file);
}

/// Once cancelled, a transfer yields no more data messages: cancelling and
/// then asking for a chunk always gives the cancellation error.
pub proof fn lemma_cancel_stops_chunks(before: AppState, after: AppState, transfer_id: Seq<char>)
    requires
        before.transfers.view().contains_key(transfer_id),
        after.transfers.view() == update_existing(
            before.transfers.view(),
            transfer_id,
            with_status(before.transfers.view()[transfer_id], TransferStatus::Cancelled),
        ),
    ensures
        is_cancelled(after, transfer_id),
{
}

/// Only a cancellation stops the chunk loop: a transfer whose status was
/// last set to anything but `Cancelled` (accepted, pending, in progress,
/// ...) is not cancelled, and a transfer nobody recorded is not either.
pub proof fn lemma_only_cancel_stops_chunks(
    before: AppState,
    after: AppState,
    transfer_id: Seq<char>,
    status: TransferStatus,
)
    requires
        status != TransferStatus::Cancelled,
        after.transfers.view() == update_existing(
            before.transfers.view(),
            transfer_id,
            with_status(before.transfers.view()[transfer_id], status),
        ),
    ensures
        !is_cancelled(after, transfer_id),
        !before.transfers.view().contains_key(transfer_id) ==> !is_cancelled(before, transfer_id),
{
}

/// A transfer is cancelled exactly when it is recorded with the status
/// `Cancelled`.
pub proof fn lemma_cancelled_means_status_cancelled(state: AppState, transfer_id: Seq<char>)
    ensures
        is_cancelled(state, transfer_id) <==> (state.transfers.view().contains_key(transfer_id)
            && state.transfers.view()[transfer_id].status == TransferStatus::Cancelled),
{
}

/// A freshly offered outgoing transfer has sent nothing yet and waits for
/// an answer: it carries the offered id, name, size, peer and path, comes
/// from this device, and its progress is zero.
pub proof fn lemma_fresh_offer_untransferred(
    t: FileTransfer,
    id: Seq<char>,
    name: Seq<char>,
    size: u64,
    peer_id: Seq<char>,
    path: Seq<char>,
)
    requires
        is_outgoing_offer(t, id, name, size, peer_id, path),
    ensures
        t.transferred == 0,
        t.status == TransferStatus::Pending,
        t.id@ == id,
        t.file_name@ == name,
        t.file_size == size,
        t.to_peer@ == peer_id,
        t.from_peer@ == "self"@,
        t.file_path matches Some(p) && p@ == path,
{
}

/// The pending list holds a transfer exactly when it is addressed to this
/// device and still has the status `Pending`.
pub proof fn lemma_pending_incoming_means_pending(t: FileTransfer)
    ensures
        is_pending_incoming(t) <==> (t.status == TransferStatus::Pending && t.to_peer@ == "self"@),
{
}

/// Once a transfer is answered (accepted, rejected, cancelled, in progress,
/// completed or failed) it leaves the pending list: setting any status but
/// `Pending` makes it not pending.
pub proof fn lemma_answered_transfer_not_pending(t: FileTransfer, status: TransferStatus)
    requires
        status != TransferStatus::Pending,
    ensures
        !is_pending_incoming(with_status(t, status)),
        !is_pending_incoming(FileTransfer { file_path: t.file_path, status, ..t }),
{
}

/// A progress report carries the transfer's own id, name, size, progress
/// and status.
pub proof fn lemma_progress_fields(p: TransferProgress, t: FileTransfer)
    requires
        progress_fields(p) == progress_of(t),
    ensures
        p.id@ == t.id@,
        p.file_name@ == t.file_name@,
        p.file_size == t.file_size,
        p.transferred == t.transferred,
        p.status == t.status,
{
}

/// A file is offered under the last component of its path, or as `unknown`
/// when the path has none.
pub proof fn lemma_offered_name_from_path(path: Seq<char>)
    ensures
        path_file_name(path) matches Some(n) ==> offered_name(path) == n,
        path_file_name(path) is None ==> offered_name(path) == "unknown"@,
{
}

} // verus!

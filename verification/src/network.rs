//! The messages devices exchange, how a message is framed on the wire, and
//! what a device decides on each step of a connection: the authentication
//! handshake on both sides and the handling of an authenticated peer's
//! messages.
use vstd::prelude::*;
use vstd::string::*;
use crate::auth::{accepts_digest, digest_accepted, hash_token, opt_view, token_digest};
use crate::state::{
    update_existing, with_progress, with_status, AppState, FileTransfer, Peer, TransferStatus,
};
use crate::table::Keyed;
use crate::text::{decimal, decimal_string};

verus! {

/// The largest message body an authenticated peer may send (10 MiB).
pub const MAX_MESSAGE_SIZE_BYTES: usize = 10 * 1024 * 1024;

/// A message between two devices.
#[derive(Debug, PartialEq, Eq)]
pub enum Message {
    Auth { token_hash: String },
    AuthResponse { success: bool },
    Clipboard { content: String },
    FileRequest { id: String, name: String, size: u64 },
    FileAccept { id: String },
    FileReject { id: String },
    FileData { id: String, data: String, offset: u64 },
    FileComplete { id: String },
    Ping,
    Pong,
}

// ----------------------------------------------------------------------
// Framing: a 4-byte big-endian length, then the body.
// ----------------------------------------------------------------------

/// The four big-endian bytes of `n`.
pub open spec fn be_bytes(n: u32) -> Seq<u8> {
    seq![
        (n / 0x1000000) as u8,
        (n / 0x10000 % 0x100) as u8,
        (n / 0x100 % 0x100) as u8,
        (n % 0x100) as u8,
    ]
}

/// The number whose big-endian bytes are `b` (four of them).
pub open spec fn be_value(b: Seq<u8>) -> nat {
    (b[0] * 0x1000000 + b[1] * 0x10000 + b[2] * 0x100 + b[3]) as nat
}

/// The length field written for a body of `len` bytes: `len` cut to its low
/// 32 bits, as a `u32` cast does.
pub open spec fn length_field(len: nat) -> u32 {
    (len % 0x1_0000_0000) as u32
}

/// The frame of `body`: its length field, then the body.
pub open spec fn frame_of(body: Seq<u8>) -> Seq<u8> {
    be_bytes(length_field(body.len())) + body
}

/// The big-endian bytes of a body length.
pub fn length_header(len: usize) -> (h: [u8; 4])
    ensures
        h@ == be_bytes(length_field(len as nat)),
{
    let wide: u64 = len as u64;
    let n: u32 = (wide % 0x1_0000_0000) as u32;
    let h = [
        (n / 0x1000000) as u8,
        (n / 0x10000 % 0x100) as u8,
        (n / 0x100 % 0x100) as u8,
        (n % 0x100) as u8,
    ];
    assert(h@ =~= be_bytes(length_field(len as nat)));
    h
}

/// The body length that a received 4-byte header announces.
pub fn frame_length(header: [u8; 4]) -> (n: usize)
    ensures
        n == be_value(header@),
{
    let b0: u64 = header[0] as u64;
    let b1: u64 = header[1] as u64;
    let b2: u64 = header[2] as u64;
    let b3: u64 = header[3] as u64;
    let v: u64 = b0 * 0x1000000 + b1 * 0x10000 + b2 * 0x100 + b3;
    assert(v < 0x1_0000_0000);
    v as usize
}

/// The frame that carries `body`.
pub fn encode_frame(body: &[u8]) -> (f: Vec<u8>)
    ensures
        f@ == frame_of(body@),
{
    let h = length_header(body.len());
    let mut f: Vec<u8> = Vec::new();
    f.push(h[0]);
    f.push(h[1]);
    f.push(h[2]);
    f.push(h[3]);
    let n = body.len();
    let mut i: usize = 0;
    while i < n
        invariant
            n == body@.len(),
            i <= n,
            f@ == h@ + body@.subrange(0, i as int),
        decreases n - i,
    {
        f.push(body[i]);
        i = i + 1;
        assert(f@ =~= h@ + body@.subrange(0, i as int));
    }
    assert(body@.subrange(0, n as int) =~= body@);
    f
}

/// Whether an authenticated peer's message of `len` bytes is read; longer
/// ones are skipped.
pub fn within_message_limit(len: usize) -> (b: bool)
    ensures
        b == (len <= MAX_MESSAGE_SIZE_BYTES),
{
    len <= MAX_MESSAGE_SIZE_BYTES
}

/// What to do with a frame an authenticated peer announces.
#[derive(Debug, PartialEq, Eq)]
pub enum FrameAction {
    /// Read the body of this many bytes and handle it.
    Read(usize),
    /// Pass over the body of this many bytes without decoding it.
    Discard(usize),
}

/// Decides on a frame from its header: a body within the limit is read,
/// a longer one is passed over whole, so the next header is found after it.
pub fn classify_frame(header: [u8; 4]) -> (a: FrameAction)
    ensures
        be_value(header@) <= MAX_MESSAGE_SIZE_BYTES ==> a == FrameAction::Read(
            be_value(header@) as usize,
        ),
        be_value(header@) > MAX_MESSAGE_SIZE_BYTES ==> a == FrameAction::Discard(
            be_value(header@) as usize,
        ),
{
    let len = frame_length(header);
    if within_message_limit(len) {
        FrameAction::Read(len)
    } else {
        FrameAction::Discard(len)
    }
}

/// The message of the error for a handshake frame over the limit.
pub open spec fn too_large_message() -> Seq<char> {
    "Message too large"@
}

/// The body length of a handshake frame (the first frame either side reads
/// on a connection); one over the limit ends the connection with an error
/// before anything is read.
pub fn handshake_frame_length(header: [u8; 4]) -> (r: Result<usize, String>)
    ensures
        be_value(header@) <= MAX_MESSAGE_SIZE_BYTES ==> r == Ok::<usize, String>(
            be_value(header@) as usize,
        ),
        be_value(header@) > MAX_MESSAGE_SIZE_BYTES ==> is_error_text(r, too_large_message()),
{
    let len = frame_length(header);
    if within_message_limit(len) {
        Ok(len)
    } else {
        Err(String::from_str("Message too large"))
    }
}

/// Reading a header gives back the length that was written, for every body
/// shorter than 4 GiB.
pub proof fn lemma_header_round_trip(len: nat)
    requires
        len < 0x1_0000_0000,
    ensures
        be_value(be_bytes(length_field(len))) == len,
{
    let n = length_field(len);
    assert(n == len);
    let b = be_bytes(n);
    assert(b[0] == n / 0x1000000);
    assert(b[1] == n / 0x10000 % 0x100);
    assert(b[2] == n / 0x100 % 0x100);
    assert(b[3] == n % 0x100);
    assert(be_value(b) == n) by (nonlinear_arith)
        requires
            b[0] == n / 0x1000000,
            b[1] == n / 0x10000 % 0x100,
            b[2] == n / 0x100 % 0x100,
            b[3] == n % 0x100,
            n < 0x1_0000_0000,
            be_value(b) == (b[0] * 0x1000000 + b[1] * 0x10000 + b[2] * 0x100 + b[3]) as nat,
    ;
}

/// A frame is its four header bytes followed by the body, unchanged.
pub proof fn lemma_frame_layout(body: Seq<u8>)
    ensures
        frame_of(body).len() == body.len() + 4,
        frame_of(body).subrange(4, frame_of(body).len() as int) == body,
        frame_of(body).subrange(0, 4) == be_bytes(length_field(body.len())),
{
    assert(frame_of(body).subrange(4, frame_of(body).len() as int) =~= body);
    assert(frame_of(body).subrange(0, 4) =~= be_bytes(length_field(body.len())));
}

// ----------------------------------------------------------------------
// Addresses
// ----------------------------------------------------------------------

/// The `ip:port` text a device connects to.
pub open spec fn address_of(ip: Seq<char>, port: u16) -> Seq<char> {
    ip + seq![':'] + decimal(port as nat)
}

/// The address of `peer`.
pub fn peer_address(peer: &Peer) -> (a: String)
    ensures
        a@ == address_of(peer.ip@, peer.port),
{
    let mut a = peer.ip.clone();
    proof {
        reveal_strlit(":");
    }
    a.append(":");
    let port = decimal_string(peer.port as u64);
    a.append(port.as_str());
    a
}

// ----------------------------------------------------------------------
// The client side of the handshake
// ----------------------------------------------------------------------

/// What a device sends to open a connection: to whom, where, and the
/// authentication message.
pub struct AuthRequest {
    pub peer: Peer,
    pub address: String,
    pub message: Message,
}

/// The message of the error for an unknown peer.
pub open spec fn peer_not_found_message() -> Seq<char> {
    "Peer not found"@
}

/// The message of the error for a connection attempt without a token.
pub open spec fn no_token_message() -> Seq<char> {
    "No token set"@
}

/// The message of the error for a handshake answered by something else.
pub open spec fn unexpected_response_message() -> Seq<char> {
    "Unexpected response"@
}

/// `r` is an error whose text is `msg`.
pub open spec fn is_error_text<T>(r: Result<T, String>, msg: Seq<char>) -> bool {
    r matches Err(e) && e@ == msg
}

/// Prepares a connection to the discovered peer `peer_id`: the peer must be
/// known and a token set; the request carries the token's digest.
pub fn connect_to_peer(peer_id: &str, state: &AppState) -> (r: Result<AuthRequest, String>)
    ensures
        !state.discovered_peers.view().contains_key(peer_id@) ==> is_error_text(
            r,
            peer_not_found_message(),
        ),
        state.discovered_peers.view().contains_key(peer_id@) && state.token is None
            ==> is_error_text(r, no_token_message()),
        state.discovered_peers.view().contains_key(peer_id@) && state.token is Some ==> (
        r matches Ok(req) && req.peer == state.discovered_peers.view()[peer_id@]
            && req.address@ == address_of(req.peer.ip@, req.peer.port) && req.message
            == Message::Auth { token_hash: req.message->token_hash } && req.message->token_hash@
            == token_digest(state.token->Some_0@)),
{
    let peer = match state.discovered_peers.get(peer_id) {
        Some(p) => p.duplicate(),
        None => {
            return Err(String::from_str("Peer not found"));
        },
    };
    let token_hash = match &state.token {
        Some(t) => hash_token(t.as_str()),
        None => {
            return Err(String::from_str("No token set"));
        },
    };
    let address = peer_address(&peer);
    Ok(AuthRequest { peer, address, message: Message::Auth { token_hash } })
}

/// What opens the delivery of a message to a peer: where to connect and
/// the authentication that must be accepted before the message is sent.
pub struct Delivery {
    pub address: String,
    pub auth: Message,
}

/// Prepares delivering a message to `peer`: every connection starts with
/// this device's token digest, so a token must be set.
pub fn prepare_delivery(peer: &Peer, state: &AppState) -> (r: Result<Delivery, String>)
    ensures
        state.token is None ==> is_error_text(r, no_token_message()),
        state.token is Some ==> (r matches Ok(d) && d.address@ == address_of(peer.ip@, peer.port)
            && d.auth == (Message::Auth { token_hash: d.auth->token_hash })
            && d.auth->token_hash@ == token_digest(state.token->Some_0@)),
{
    let token_hash = match &state.token {
        Some(t) => hash_token(t.as_str()),
        None => {
            return Err(String::from_str("No token set"));
        },
    };
    Ok(Delivery { address: peer_address(peer), auth: Message::Auth { token_hash } })
}

/// The message of the error for a delivery the peer refused.
pub open spec fn auth_failed_message() -> Seq<char> {
    "Authentication failed"@
}

/// Decides on the peer's answer to a delivery's authentication: only an
/// accepting answer lets the message go.
pub fn delivery_accepted(response: Message) -> (r: Result<(), String>)
    ensures
        response == (Message::AuthResponse { success: true }) ==> r is Ok,
        response == (Message::AuthResponse { success: false }) ==> is_error_text(
            r,
            auth_failed_message(),
        ),
        !(response is AuthResponse) ==> is_error_text(r, unexpected_response_message()),
{
    match response {
        Message::AuthResponse { success } => {
            if success {
                Ok(())
            } else {
                Err(String::from_str("Authentication failed"))
            }
        },
        _ => Err(String::from_str("Unexpected response")),
    }
}

/// `p` as a connected and authenticated peer.
pub open spec fn as_connected(p: Peer) -> Peer {
    Peer { connected: true, authenticated: true, ..p }
}

/// Acts on the peer's answer to an authentication request: on success the
/// peer is recorded as connected and authenticated.
pub fn complete_connection(state: &mut AppState, peer: Peer, response: Message) -> (r: Result<
    bool,
    String,
>)
    ensures
        response == (Message::AuthResponse { success: true }) ==> r == Ok::<bool, String>(true)
            && final(state).connected_peers.view() == old(state).connected_peers.view().insert(
            peer.id@,
            as_connected(peer),
        ) && *final(state) == (AppState {
            connected_peers: final(state).connected_peers,
            ..*old(state)
        }) && final(state).connected_peers.view()[peer.id@] == (Peer {
            connected: true,
            authenticated: true,
            ..peer
        }),
        response == (Message::AuthResponse { success: false }) ==> r == Ok::<bool, String>(false)
            && *final(state) == *old(state),
        !(response is AuthResponse) ==> is_error_text(r, unexpected_response_message())
            && *final(state) == *old(state),
{
    match response {
        Message::AuthResponse { success } => {
            if success {
                let mut connected = peer;
                connected.connected = true;
                connected.authenticated = true;
                state.add_connected_peer(connected);
                Ok(true)
            } else {
                Ok(false)
            }
        },
        _ => Err(String::from_str("Unexpected response")),
    }
}

// ----------------------------------------------------------------------
// The server side
// ----------------------------------------------------------------------

/// Decides whether the server must start: `Some(port)` when it already runs
/// on `port`, `None` when the caller is to open a listener.
pub fn start_server(state: &AppState) -> (r: Option<u16>)
    ensures
        state.server_running ==> r == Some(state.server_port),
        !state.server_running ==> r is None,
{
    if state.server_running {
        Some(state.server_port)
    } else {
        None
    }
}

/// Records that the server now listens on `port`.
pub fn server_started(state: &mut AppState, port: u16)
    ensures
        *final(state) == (AppState { server_port: port, server_running: true, ..*old(state) }),
{
    state.server_port = port;
    state.server_running = true;
}

/// Asks the server to stop accepting connections.
pub fn stop_server(state: &mut AppState) -> (r: Result<(), String>)
    ensures
        r is Ok,
        *final(state) == (AppState { server_running: false, ..*old(state) }),
{
    state.server_running = false;
    Ok(())
}

/// The text of the error for a first message that is not an authentication.
pub open spec fn not_auth_message(peer_addr: Seq<char>) -> Seq<char> {
    "Expected authentication message, but received a different message type from "@ + peer_addr
}

/// Decides on the first message of an incoming connection from `peer_addr`:
/// an authentication is accepted when its digest matches the stored token's;
/// any other message is an error.
pub fn authenticate_client(state: &AppState, message: &Message, peer_addr: &str) -> (r: Result<
    bool,
    String,
>)
    ensures
        message is Auth ==> r == Ok::<bool, String>(
            digest_accepted(opt_view(state.token), message->token_hash@),
        ),
        !(message is Auth) ==> is_error_text(r, not_auth_message(peer_addr@)),
{
    match message {
        Message::Auth { token_hash } => Ok(accepts_digest(state, token_hash)),
        _ => {
            let mut e = String::from_str(
                "Expected authentication message, but received a different message type from ",
            );
            e.append(peer_addr);
            Err(e)
        },
    }
}

/// The peer record of an authenticated incoming connection.
pub open spec fn client_peer(addr: Seq<char>, ip: Seq<char>, port: u16) -> (Seq<char>, Seq<
    char,
>, Seq<char>, u16, bool, bool) {
    (addr, ip, ip, port, true, true)
}

/// The fields of `p`.
pub open spec fn peer_fields(p: Peer) -> (Seq<char>, Seq<char>, Seq<char>, u16, bool, bool) {
    (p.id@, p.name@, p.ip@, p.port, p.connected, p.authenticated)
}

/// Records the authenticated client at `peer_addr` (whose address is `ip`
/// and `port`) as a connected peer, and returns its record.
pub fn admit_client(state: &mut AppState, peer_addr: &str, ip: &str, port: u16) -> (p: Peer)
    ensures
        peer_fields(p) == client_peer(peer_addr@, ip@, port),
        final(state).connected_peers.view() == old(state).connected_peers.view().insert(
            peer_addr@,
            p,
        ),
        *final(state) == (AppState {
            connected_peers: final(state).connected_peers,
            ..*old(state)
        }),
{
    let p = Peer {
        id: peer_addr.to_owned(),
        name: ip.to_owned(),
        ip: ip.to_owned(),
        port,
        connected: true,
        authenticated: true,
    };
    state.add_connected_peer(p.duplicate());
    p
}

/// What to do after a message from an authenticated peer.
#[derive(Debug, PartialEq, Eq)]
pub enum PeerEvent {
    ClipboardReceived(String),
    TransferRequested(FileTransfer),
    TransferAccepted(String),
    TransferRejected(String),
    TransferProgress { id: String, data: String, offset: u64 },
    TransferComplete(String),
    Reply(Message),
    Ignored,
}

/// The transfer that a file request from `from` opens.
pub open spec fn requested_transfer(
    t: FileTransfer,
    id: Seq<char>,
    name: Seq<char>,
    size: u64,
    from: Seq<char>,
) -> bool {
    &&& t.id@ == id
    &&& t.file_name@ == name
    &&& t.file_size == size
    &&& t.transferred == 0
    &&& t.from_peer@ == from
    &&& t.to_peer@ == "self"@
    &&& t.status == TransferStatus::Pending
    &&& t.file_path is None
}

/// Acts on a message from the authenticated peer at `peer_addr`.
pub fn handle_peer_message(state: &mut AppState, peer_addr: &str, message: Message) -> (ev:
    PeerEvent)
    ensures
        match message {
            Message::Clipboard { content } => ev == PeerEvent::ClipboardReceived(content)
                && *final(state) == (AppState {
                shared_clipboard: Some(content),
                ..*old(state)
            }),
            Message::FileRequest { id, name, size } => ev matches PeerEvent::TransferRequested(t)
                && requested_transfer(t, id@, name@, size, peer_addr@) && t.id@ == id@
                && t.file_name@ == name@ && t.file_size == size && t.transferred == 0
                && t.status == TransferStatus::Pending && final(state).transfers.view() == old(state).transfers.view().insert(id@, t)
                && *final(state) == (AppState {
                transfers: final(state).transfers,
                ..*old(state)
            }),
            Message::FileAccept { id } => ev == PeerEvent::TransferAccepted(id)
                && final(state).transfers.view() == update_existing(
                old(state).transfers.view(),
                id@,
                with_status(old(state).transfers.view()[id@], TransferStatus::Accepted),
            ) && *final(state) == (AppState {
                transfers: final(state).transfers,
                ..*old(state)
            }),
            Message::FileReject { id } => ev == PeerEvent::TransferRejected(id)
                && final(state).transfers.view() == update_existing(
                old(state).transfers.view(),
                id@,
                with_status(old(state).transfers.view()[id@], TransferStatus::Rejected),
            ) && *final(state) == (AppState {
                transfers: final(state).transfers,
                ..*old(state)
            }),
            Message::FileData { id, data, offset } => ev == (PeerEvent::TransferProgress {
                id,
                data,
                offset,
            }) && final(state).transfers.view() == update_existing(
                old(state).transfers.view(),
                id@,
                with_status(
                    with_progress(old(state).transfers.view()[id@], offset),
                    TransferStatus::InProgress,
                ),
            ) && *final(state) == (AppState {
                transfers: final(state).transfers,
                ..*old(state)
            }),
            Message::FileComplete { id } => ev == PeerEvent::TransferComplete(id)
                && final(state).transfers.view() == update_existing(
                old(state).transfers.view(),
                id@,
                with_status(old(state).transfers.view()[id@], TransferStatus::Completed),
            ) && *final(state) == (AppState {
                transfers: final(state).transfers,
                ..*old(state)
            }),
            Message::Ping => ev == PeerEvent::Reply(Message::Pong) && *final(state) == *old(
                state,
            ),
            _ => ev == PeerEvent::Ignored && *final(state) == *old(state),
        },
{
    match message {
        Message::Clipboard { content } => {
            state.shared_clipboard = Some(content.clone());
            PeerEvent::ClipboardReceived(content)
        },
        Message::FileRequest { id, name, size } => {
            proof {
                reveal_strlit("self");
            }
            let transfer = FileTransfer {
                id: id.clone(),
                file_name: name,
                file_size: size,
                transferred: 0,
                from_peer: peer_addr.to_owned(),
                to_peer: String::from_str("self"),
                status: TransferStatus::Pending,
                file_path: None,
            };
            state.add_transfer(transfer.duplicate());
            PeerEvent::TransferRequested(transfer)
        },
        Message::FileAccept { id } => {
            state.update_transfer_status(id.as_str(), TransferStatus::Accepted);
            PeerEvent::TransferAccepted(id)
        },
        Message::FileReject { id } => {
            state.update_transfer_status(id.as_str(), TransferStatus::Rejected);
            PeerEvent::TransferRejected(id)
        },
        Message::FileData { id, data, offset } => {
            state.update_transfer_progress(id.as_str(), offset);
            state.update_transfer_status(id.as_str(), TransferStatus::InProgress);
            PeerEvent::TransferProgress { id, data, offset }
        },
        Message::FileComplete { id } => {
            state.update_transfer_status(id.as_str(), TransferStatus::Completed);
            PeerEvent::TransferComplete(id)
        },
        Message::Ping => PeerEvent::Reply(Message::Pong),
        _ => PeerEvent::Ignored,
    }
}

/// Forgets the connected peer at `peer_addr` once its connection closes.
pub fn disconnect_from_peer(peer_id: &str, state: &mut AppState) -> (r: Result<(), String>)
    ensures
        r is Ok,
        final(state).connected_peers.view() == old(state).connected_peers.view().remove(
            peer_id@,
        ),
        *final(state) == (AppState {
            connected_peers: final(state).connected_peers,
            ..*old(state)
        }),
{
    state.remove_connected_peer(peer_id);
    Ok(())
}

/// Every connected peer, each once.
pub fn get_connected_peers(state: &AppState) -> (r: Result<Vec<Peer>, String>)
    ensures
        r matches Ok(v) && crate::table::keys_unique(v@) && crate::table::seq_to_map(v@)
            == state.connected_peers.view(),
{
    Ok(state.connected_peers.values())
}

// ----------------------------------------------------------------------
// Laws of the handshake
// ----------------------------------------------------------------------

/// Two devices set up with the same token authenticate each other: the
/// digest one sends, when connecting or before delivering a message, is
/// accepted by the other.
pub proof fn lemma_same_token_authenticates(client_token: Seq<char>, server_token: Seq<char>)
    requires
        client_token == server_token,
    ensures
        digest_accepted(Some(server_token), token_digest(client_token)),
{
}

/// A file request from a peer leaves a pending transfer under the
/// requested id, which the pending list then reports.
pub proof fn lemma_requested_transfer_is_pending(
    before: Map<Seq<char>, FileTransfer>,
    t: FileTransfer,
    id: Seq<char>,
    name: Seq<char>,
    size: u64,
    from: Seq<char>,
)
    requires
        requested_transfer(t, id, name, size, from),
    ensures
        before.insert(id, t).contains_key(id),
        before.insert(id, t)[id].status == TransferStatus::Pending,
        crate::file_transfer::is_pending_incoming(before.insert(id, t)[id]),
        before.insert(id, t)[id].transferred == 0,
{
}

/// A file request is recorded as it was asked: under the requested id, with
/// the requested name and size, from the requesting peer to this device,
/// pending and with nothing received yet.
pub proof fn lemma_request_recorded_as_asked(
    t: FileTransfer,
    id: Seq<char>,
    name: Seq<char>,
    size: u64,
    from: Seq<char>,
)
    requires
        requested_transfer(t, id, name, size, from),
    ensures
        t.id@ == id,
        t.file_name@ == name,
        t.file_size == size,
        t.transferred == 0,
        t.from_peer@ == from,
        t.to_peer@ == "self"@,
        t.status == TransferStatus::Pending,
        t.file_path is None,
{
}

/// A peer recorded as connected after a successful handshake is the
/// discovered peer unchanged (same id, name, address and port), now marked
/// connected and authenticated.
pub proof fn lemma_connected_peer_is_discovered_peer(p: Peer)
    ensures
        as_connected(p).id == p.id,
        as_connected(p).name == p.name,
        as_connected(p).ip == p.ip,
        as_connected(p).port == p.port,
        as_connected(p).connected,
        as_connected(p).authenticated,
{
}

/// An error text is an `Err` carrying exactly that text.
pub proof fn lemma_error_text_is_err<T>(r: Result<T, String>, msg: Seq<char>)
    requires
        is_error_text(r, msg),
    ensures
        r is Err,
        r->Err_0@ == msg,
{
}

/// An admitted client is recorded under its socket address, named and
/// addressed by its IP, on its port, connected and authenticated.
pub proof fn lemma_admitted_client_fields(p: Peer, addr: Seq<char>, ip: Seq<char>, port: u16)
    requires
        peer_fields(p) == client_peer(addr, ip, port),
    ensures
        p.id@ == addr,
        p.name@ == ip,
        p.ip@ == ip,
        p.port == port,
        p.connected,
        p.authenticated,
{
}

/// An address is the IP, then `:`, then the port in decimal.
pub proof fn lemma_address_layout(ip: Seq<char>, port: u16)
    ensures
        address_of(ip, port).len() == ip.len() + 1 + decimal(port as nat).len(),
        address_of(ip, port).subrange(0, ip.len() as int) == ip,
        address_of(ip, port)[ip.len() as int] == ':',
        address_of(ip, port).subrange(ip.len() as int + 1, address_of(ip, port).len() as int) == decimal(
            port as nat,
        ),
{
    let a = address_of(ip, port);
    assert(a.subrange(0, ip.len() as int) =~= ip);
    assert(a.subrange(ip.len() as int + 1, a.len() as int) =~= decimal(port as nat));
}

/// The length field is the body length itself for every body shorter than
/// 4 GiB, and its four bytes are big-endian: most significant first.
pub proof fn lemma_length_field_big_endian(len: nat)
    requires
        len < 0x1_0000_0000,
    ensures
        length_field(len) == len,
        be_bytes(length_field(len)).len() == 4,
        be_bytes(length_field(len))[0] == len / 0x1000000,
        be_bytes(length_field(len))[1] == len / 0x10000 % 0x100,
        be_bytes(length_field(len))[2] == len / 0x100 % 0x100,
        be_bytes(length_field(len))[3] == len % 0x100,
{
}

} // verus!

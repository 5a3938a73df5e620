//! The state one device keeps: its identity, its token, the peers it has
//! discovered and connected, the shared clipboard and the file transfers.
use vstd::prelude::*;
use vstd::string::*;
use crate::platform::{is_uuid_v4_text, local_host_name, random_uuid_string};
use crate::table::{Keyed, Table};

verus! {

/// The port a device listens on until its server picks one.
pub const DEFAULT_SERVER_PORT: u16 = 8765;

/// A device seen on the network.
#[derive(Debug, PartialEq, Eq)]
pub struct Peer {
    pub id: String,
    pub name: String,
    pub ip: String,
    pub port: u16,
    pub connected: bool,
    pub authenticated: bool,
}

impl Keyed for Peer {
    open spec fn key_view(&self) -> Seq<char> {
        self.id@
    }

    fn key(&self) -> (k: &String) {
        &self.id
    }

    fn duplicate(&self) -> (r: Self) {
        Peer {
            id: self.id.clone(),
            name: self.name.clone(),
            ip: self.ip.clone(),
            port: self.port,
            connected: self.connected,
            authenticated: self.authenticated,
        }
    }
}

impl Clone for Peer {
    fn clone(&self) -> (r: Self)
        ensures
            r == *self,
    {
        self.duplicate()
    }
}

/// Where a file transfer stands.
#[derive(Clone, Copy, Debug, PartialEq, Eq, Structural)]
pub enum TransferStatus {
    Pending,
    Accepted,
    InProgress,
    Completed,
    Failed,
    Cancelled,
    Rejected,
}

/// A copy of an optional string.
pub fn copy_opt_string(s: &Option<String>) -> (r: Option<String>)
    ensures
        r == *s,
{
    match s {
        Some(x) => Some(x.clone()),
        None => None,
    }
}

/// A file on its way from one device to another.
#[derive(Debug, PartialEq, Eq)]
pub struct FileTransfer {
    pub id: String,
    pub file_name: String,
    pub file_size: u64,
    pub transferred: u64,
    pub from_peer: String,
    pub to_peer: String,
    pub status: TransferStatus,
    pub file_path: Option<String>,
}

impl Keyed for FileTransfer {
    open spec fn key_view(&self) -> Seq<char> {
        self.id@
    }

    fn key(&self) -> (k: &String) {
        &self.id
    }

    fn duplicate(&self) -> (r: Self) {
        FileTransfer {
            id: self.id.clone(),
            file_name: self.file_name.clone(),
            file_size: self.file_size,
            transferred: self.transferred,
            from_peer: self.from_peer.clone(),
            to_peer: self.to_peer.clone(),
            status: self.status,
            file_path: copy_opt_string(&self.file_path),
        }
    }
}

impl Clone for FileTransfer {
    fn clone(&self) -> (r: Self)
        ensures
            r == *self,
    {
        self.duplicate()
    }
}

/// Everything one device knows.
pub struct AppState {
    pub token: Option<String>,
    pub device_id: String,
    pub device_name: String,
    pub discovered_peers: Table<Peer>,
    pub connected_peers: Table<Peer>,
    pub shared_clipboard: Option<String>,
    pub clipboard_sync_enabled: bool,
    pub transfers: Table<FileTransfer>,
    pub server_running: bool,
    pub server_port: u16,
    pub discovery_running: bool,
}

/// `s` is the state of a device named `name` with identifier `id` that has
/// done nothing yet: no token, no peers, no clipboard, no transfers, nothing
/// running, and the default port.
pub open spec fn is_fresh_state(s: AppState, id: Seq<char>, name: Seq<char>) -> bool {
    &&& s.token is None
    &&& s.device_id@ == id
    &&& s.device_name@ == name
    &&& s.discovered_peers.view() == Map::<Seq<char>, Peer>::empty()
    &&& s.connected_peers.view() == Map::<Seq<char>, Peer>::empty()
    &&& s.shared_clipboard is None
    &&& !s.clipboard_sync_enabled
    &&& s.transfers.view() == Map::<Seq<char>, FileTransfer>::empty()
    &&& !s.server_running
    &&& s.server_port == DEFAULT_SERVER_PORT
    &&& !s.discovery_running
}

/// `t` with its status replaced by `status`.
pub open spec fn with_status(t: FileTransfer, status: TransferStatus) -> FileTransfer {
    FileTransfer { status, ..t }
}

/// `t` with its transferred byte count replaced by `n`.
pub open spec fn with_progress(t: FileTransfer, n: u64) -> FileTransfer {
    FileTransfer { transferred: n, ..t }
}

/// The transfer map after `id`'s record, where there is one, is replaced by
/// `new_record`; without such a record the map is unchanged.
pub open spec fn update_existing(
    m: Map<Seq<char>, FileTransfer>,
    id: Seq<char>,
    new_record: FileTransfer,
) -> Map<Seq<char>, FileTransfer> {
    if m.contains_key(id) {
        m.insert(id, new_record)
    } else {
        m
    }
}

/// The name a device takes from its host-name lookup: the host's name, or
/// `Unknown` where the lookup failed.
pub open spec fn device_name_from(host_name: Option<String>) -> Seq<char> {
    match host_name {
        Some(h) => h@,
        None => "Unknown"@,
    }
}

/// The device name for the host-name lookup's result.
pub fn device_name_or_unknown(host_name: Option<String>) -> (name: String)
    ensures
        name@ == device_name_from(host_name),
{
    match host_name {
        Some(h) => h,
        None => String::from_str("Unknown"),
    }
}

impl AppState {
    /// A fresh state for the device with identifier `device_id` and name
    /// `device_name`.
    pub fn with_identity(device_id: String, device_name: String) -> (s: Self)
        ensures
            is_fresh_state(s, device_id@, device_name@),
    {
        AppState {
            token: None,
            device_id,
            device_name,
            discovered_peers: Table::new(),
            connected_peers: Table::new(),
            shared_clipboard: None,
            clipboard_sync_enabled: false,
            transfers: Table::new(),
            server_running: false,
            server_port: DEFAULT_SERVER_PORT,
            discovery_running: false,
        }
    }

    /// A fresh state for the device `device_id` on the host whose name the
    /// lookup gave (`None` where the lookup failed).
    pub fn from_lookups(device_id: String, host_name: Option<String>) -> (s: Self)
        ensures
            is_fresh_state(s, device_id@, device_name_from(host_name)),
    {
        let device_name = device_name_or_unknown(host_name);
        Self::with_identity(device_id, device_name)
    }

    /// A fresh state with a random version-4 UUID as the device identifier
    /// and the host's name (or `Unknown`) as the device name.
    pub fn new() -> (s: Self)
        ensures
            is_fresh_state(s, s.device_id@, s.device_name@),
            is_uuid_v4_text(s.device_id@),
    {
        Self::from_lookups(random_uuid_string(), local_host_name())
    }

    /// Records `peer` as discovered, replacing an earlier record with its id.
    pub fn add_discovered_peer(&mut self, peer: Peer)
        ensures
            final(self).discovered_peers.view() == old(self).discovered_peers.view().insert(
                peer.id@,
                peer,
            ),
            *final(self) == (AppState {
                discovered_peers: final(self).discovered_peers,
                ..*old(self)
            }),
    {
        self.discovered_peers.insert(peer);
    }

    /// Forgets the discovered peer with id `peer_id`.
    pub fn remove_discovered_peer(&mut self, peer_id: &str)
        ensures
            final(self).discovered_peers.view() == old(self).discovered_peers.view().remove(
                peer_id@,
            ),
            *final(self) == (AppState {
                discovered_peers: final(self).discovered_peers,
                ..*old(self)
            }),
    {
        self.discovered_peers.remove(peer_id);
    }

    /// Records `peer` as connected, replacing an earlier record with its id.
    pub fn add_connected_peer(&mut self, peer: Peer)
        ensures
            final(self).connected_peers.view() == old(self).connected_peers.view().insert(
                peer.id@,
                peer,
            ),
            *final(self) == (AppState {
                connected_peers: final(self).connected_peers,
                ..*old(self)
            }),
    {
        self.connected_peers.insert(peer);
    }

    /// Forgets the connected peer with id `peer_id`.
    pub fn remove_connected_peer(&mut self, peer_id: &str)
        ensures
            final(self).connected_peers.view() == old(self).connected_peers.view().remove(
                peer_id@,
            ),
            *final(self) == (AppState {
                connected_peers: final(self).connected_peers,
                ..*old(self)
            }),
    {
        self.connected_peers.remove(peer_id);
    }

    /// Records `transfer`, replacing an earlier record with its id.
    pub fn add_transfer(&mut self, transfer: FileTransfer)
        ensures
            final(self).transfers.view() == old(self).transfers.view().insert(
                transfer.id@,
                transfer,
            ),
            *final(self) == (AppState { transfers: final(self).transfers, ..*old(self) }),
    {
        self.transfers.insert(transfer);
    }

    /// Sets the status of the transfer with id `transfer_id`, if there is one.
    pub fn update_transfer_status(&mut self, transfer_id: &str, status: TransferStatus)
        ensures
            final(self).transfers.view() == update_existing(
                old(self).transfers.view(),
                transfer_id@,
                with_status(old(self).transfers.view()[transfer_id@], status),
            ),
            *final(self) == (AppState { transfers: final(self).transfers, ..*old(self) }),
    {
        match self.transfers.get(transfer_id) {
            Some(t) => {
                let mut updated = t.duplicate();
                updated.status = status;
                self.transfers.insert(updated);
            },
            None => {},
        }
    }

    /// Sets how many bytes of the transfer with id `transfer_id` have gone,
    /// if there is such a transfer.
    pub fn update_transfer_progress(&mut self, transfer_id: &str, transferred: u64)
        ensures
            final(self).transfers.view() == update_existing(
                old(self).transfers.view(),
                transfer_id@,
                with_progress(old(self).transfers.view()[transfer_id@], transferred),
            ),
            *final(self) == (AppState { transfers: final(self).transfers, ..*old(self) }),
    {
        match self.transfers.get(transfer_id) {
            Some(t) => {
                let mut updated = t.duplicate();
                updated.transferred = transferred;
                self.transfers.insert(updated);
            },
            None => {},
        }
    }
}

impl Default for AppState {
    fn default() -> (s: Self)
        ensures
            is_fresh_state(s, s.device_id@, s.device_name@),
            is_uuid_v4_text(s.device_id@),
    {
        Self::new()
    }
}

/// Setting a transfer's status changes that field of that record only:
/// the record keeps its id, name, size, progress, peers and path, every
/// other record is untouched, and an unknown id changes nothing.
pub proof fn lemma_status_update_touches_one_field(
    m: Map<Seq<char>, FileTransfer>,
    id: Seq<char>,
    status: TransferStatus,
    other: Seq<char>,
)
    ensures
        m.contains_key(id) ==> ({
            let n = update_existing(m, id, with_status(m[id], status));
            &&& n.contains_key(id)
            &&& n[id].status == status
            &&& n[id].id == m[id].id
            &&& n[id].file_name == m[id].file_name
            &&& n[id].file_size == m[id].file_size
            &&& n[id].transferred == m[id].transferred
            &&& n[id].from_peer == m[id].from_peer
            &&& n[id].to_peer == m[id].to_peer
            &&& n[id].file_path == m[id].file_path
        }),
        !m.contains_key(id) ==> update_existing(m, id, with_status(m[id], status)) == m,
        other != id ==> update_existing(m, id, with_status(m[id], status)).contains_key(other)
            == m.contains_key(other),
        other != id && m.contains_key(other) ==> update_existing(
            m,
            id,
            with_status(m[id], status),
        )[other] == m[other],
{
}

/// Setting a transfer's progress changes that field of that record only:
/// the record keeps its id, name, size, status, peers and path, every other
/// record is untouched, and an unknown id changes nothing.
pub proof fn lemma_progress_update_touches_one_field(
    m: Map<Seq<char>, FileTransfer>,
    id: Seq<char>,
    n: u64,
    other: Seq<char>,
)
    ensures
        m.contains_key(id) ==> ({
            let u = update_existing(m, id, with_progress(m[id], n));
            &&& u.contains_key(id)
            &&& u[id].transferred == n
            &&& u[id].id == m[id].id
            &&& u[id].file_name == m[id].file_name
            &&& u[id].file_size == m[id].file_size
            &&& u[id].status == m[id].status
            &&& u[id].from_peer == m[id].from_peer
            &&& u[id].to_peer == m[id].to_peer
            &&& u[id].file_path == m[id].file_path
        }),
        !m.contains_key(id) ==> update_existing(m, id, with_progress(m[id], n)) == m,
        other != id ==> update_existing(m, id, with_progress(m[id], n)).contains_key(other)
            == m.contains_key(other),
        other != id && m.contains_key(other) ==> update_existing(
            m,
            id,
            with_progress(m[id], n),
        )[other] == m[other],
{
}

/// A device takes the host's name when the lookup found one, and `Unknown`
/// when it failed.
pub proof fn lemma_device_name_from_lookup(host_name: Option<String>)
    ensures
        host_name matches Some(h) ==> device_name_from(host_name) == h@,
        host_name is None ==> device_name_from(host_name) == "Unknown"@,
{
}

/// A fresh state has no token, no peers, no clipboard, no transfers,
/// nothing running, the default port 8765, and the given identity.
pub proof fn lemma_fresh_state_fields(s: AppState, id: Seq<char>, name: Seq<char>)
    requires
        is_fresh_state(s, id, name),
    ensures
        s.token is None,
        s.device_id@ == id,
        s.device_name@ == name,
        s.discovered_peers@.dom() == Set::<Seq<char>>::empty(),
        s.connected_peers@.dom() == Set::<Seq<char>>::empty(),
        s.transfers@.dom() == Set::<Seq<char>>::empty(),
        s.shared_clipboard is None,
        !s.clipboard_sync_enabled,
        !s.server_running,
        !s.discovery_running,
        s.server_port == 8765,
{
}

} // verus!

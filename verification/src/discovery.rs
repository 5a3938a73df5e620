//! Finding devices on the local network over mDNS: how a device announces
//! itself, and what it makes of the services it resolves or sees leave.
use vstd::prelude::*;
use vstd::string::*;
use vstd::utf8::{encode_utf8, is_ascii_chars, is_ascii_chars_encode_utf8};
use crate::platform::{is_uuid_v4_text, lemma_uuid_text_has_no_dot};
use crate::state::{AppState, Peer};
use crate::table::{keys_unique, seq_to_map};

verus! {

/// The mDNS service type under which devices announce themselves.
pub const SERVICE_TYPE: &'static str = "_nearbyshare._tcp.local.";

/// The characters of `SERVICE_TYPE`.
pub open spec fn service_type() -> Seq<char> {
    "_nearbyshare._tcp.local."@
}

/// The full mDNS name of the service of the device `device_id`.
pub open spec fn service_full_name(device_id: Seq<char>) -> Seq<char> {
    device_id + seq!['.'] + service_type()
}

/// The host name a device named `device_name` announces.
pub open spec fn service_host_name(device_name: Seq<char>) -> Seq<char> {
    device_name + ".local."@
}

/// The part of `s` before its first `.`, or all of `s` when it has none.
pub open spec fn first_segment(s: Seq<char>) -> Seq<char>
    decreases s.len(),
{
    if s.len() == 0 {
        s
    } else if s[0] == '.' {
        Seq::empty()
    } else {
        seq![s[0]] + first_segment(s.drop_first())
    }
}

/// `first_segment` ends at the first `.` (or at the end).
pub proof fn lemma_first_segment(s: Seq<char>, i: int)
    requires
        0 <= i <= s.len(),
        forall|j: int| 0 <= j < i ==> #[trigger] s[j] != '.',
        i == s.len() || s[i] == '.',
    ensures
        first_segment(s) == s.subrange(0, i),
    decreases i,
{
    if i == 0 {
        assert(s.subrange(0, 0) =~= Seq::<char>::empty());
        if s.len() == 0 {
            assert(s =~= Seq::<char>::empty());
        }
    } else {
        let t = s.drop_first();
        assert forall|j: int| 0 <= j < i - 1 implies #[trigger] t[j] != '.' by {
            assert(t[j] == s[j + 1]);
        }
        lemma_first_segment(t, i - 1);
        assert(seq![s[0]] + t.subrange(0, i - 1) =~= s.subrange(0, i));
    }
}

/// A TXT property `key=value` is one that mDNS accepts: an ASCII key
/// without `=`, and key, `=` and value in at most 255 bytes.
pub open spec fn txt_property_fits(key: Seq<char>, value: Seq<char>) -> bool {
    &&& is_ascii_chars(key)
    &&& !key.contains('=')
    &&& encode_utf8(key).len() + encode_utf8(value).len() + 1 <= 255
}

#[verifier::external_type_specification]
#[verifier::external_body]
pub struct ExServiceInfo(mdns_sd::ServiceInfo);

#[verifier::external_type_specification]
#[verifier::external_body]
pub struct ExMdnsError(mdns_sd::Error);

/// What a device announces over mDNS, as plain values: service type,
/// instance name, host, address list, port and TXT properties in order.
pub struct ServiceDescription {
    pub service_type: String,
    pub instance_name: String,
    pub host_name: String,
    pub addresses: String,
    pub port: u16,
    pub properties: Vec<(String, String)>,
}

/// Every TXT property of `props` fits an mDNS TXT record.
pub open spec fn all_properties_fit(props: Seq<(String, String)>) -> bool {
    forall|i: int| 0 <= i < props.len() ==> txt_property_fits(#[trigger] props[i].0@, props[i].1@)
}

/// Calls `mdns_sd::ServiceInfo::new` with exactly the fields of `desc`. The
/// crate fails only on an address it cannot parse (none when the address
/// list is empty) or on a TXT property whose key is not ASCII, holds `=`,
/// or is with its value longer than 255 bytes; the first property is always
/// checked, the second unless its key repeats the first ignoring case (which
/// keys of different lengths, the first ASCII, cannot). The service value
/// itself is opaque; the description it was built from is handed back with
/// it, unchanged.
#[verifier::external_body]
fn new_service_info(desc: ServiceDescription) -> (r: Result<
    (mdns_sd::ServiceInfo, ServiceDescription),
    mdns_sd::Error,
>)
    ensures
        r matches Ok(p) ==> p.1 == desc,
        desc.addresses@.len() == 0 && all_properties_fit(desc.properties@) ==> r is Ok,
        desc.properties@.len() > 0 && !txt_property_fits(
            desc.properties@[0].0@,
            desc.properties@[0].1@,
        ) ==> r is Err,
        desc.properties@.len() > 1 && txt_property_fits(
            desc.properties@[0].0@,
            desc.properties@[0].1@,
        ) && !txt_property_fits(desc.properties@[1].0@, desc.properties@[1].1@)
            && desc.properties@[0].0@.len() != desc.properties@[1].0@.len() ==> r is Err,
{
    let info = mdns_sd::ServiceInfo::new(
        desc.service_type.as_str(),
        desc.instance_name.as_str(),
        desc.host_name.as_str(),
        desc.addresses.as_str(),
        desc.port,
        &desc.properties[..],
    )?;
    Ok((info, desc))
}

/// `d` describes the service of the device in `state`: type
/// `_nearbyshare._tcp.local.`, instance name the device id, host
/// `<device name>.local.`, no fixed address, the server port, and the TXT
/// properties `id` (the device id) then `name` (the device name).
pub open spec fn describes(d: ServiceDescription, state: AppState) -> bool {
    &&& d.service_type@ == service_type()
    &&& d.instance_name@ == state.device_id@
    &&& d.host_name@ == service_host_name(state.device_name@)
    &&& d.addresses@.len() == 0
    &&& d.port == state.server_port
    &&& d.properties@.len() == 2
    &&& d.properties@[0].0@ == "id"@
    &&& d.properties@[0].1@ == state.device_id@
    &&& d.properties@[1].0@ == "name"@
    &&& d.properties@[1].1@ == state.device_name@
}

/// The description of this device's service.
pub fn describe_service(state: &AppState) -> (d: ServiceDescription)
    ensures
        describes(d, *state),
{
    proof {
        reveal_strlit(".local.");
        reveal_strlit("_nearbyshare._tcp.local.");
    }
    let mut host_name = state.device_name.clone();
    host_name.append(".local.");
    let mut properties: Vec<(String, String)> = Vec::new();
    properties.push((String::from_str("id"), state.device_id.clone()));
    properties.push((String::from_str("name"), state.device_name.clone()));
    ServiceDescription {
        service_type: String::from_str(SERVICE_TYPE),
        instance_name: state.device_id.clone(),
        host_name,
        addresses: String::new(),
        port: state.server_port,
        properties,
    }
}

/// What a device announces: the service to register, the description it
/// was built from (handed back by the builder), and its full name.
pub struct ServiceRegistration {
    pub info: mdns_sd::ServiceInfo,
    pub description: ServiceDescription,
    pub service_name: String,
}

/// The message of the error for a service that cannot be described.
pub open spec fn service_info_error_message() -> Seq<char> {
    "Failed to create service info"@
}

/// Builds this device's mDNS service from its description (see
/// `describes`). Succeeds exactly when both TXT properties fit an mDNS TXT
/// record.
pub fn register_service(state: &AppState) -> (r: Result<ServiceRegistration, String>)
    ensures
        r matches Ok(reg) ==> describes(reg.description, *state) && reg.service_name@
            == service_full_name(state.device_id@),
        encode_utf8(state.device_id@).len() <= 252 && encode_utf8(state.device_name@).len()
            <= 250 ==> r is Ok,
        encode_utf8(state.device_id@).len() > 252 || encode_utf8(state.device_name@).len() > 250
            ==> (r matches Err(e) && e@ == service_info_error_message()),
{
    proof {
        reveal_strlit("id");
        reveal_strlit("name");
        is_ascii_chars_encode_utf8("id"@);
        is_ascii_chars_encode_utf8("name"@);
        assert(!"id"@.contains('='));
        assert(!"name"@.contains('='));
    }
    let description = describe_service(state);
    proof {
        let props = description.properties@;
        if encode_utf8(state.device_id@).len() <= 252 && encode_utf8(state.device_name@).len()
            <= 250 {
            assert forall|i: int| 0 <= i < props.len() implies txt_property_fits(
                #[trigger] props[i].0@,
                props[i].1@,
            ) by {
                if i == 0 {
                } else {
                    assert(i == 1);
                }
            }
        }
    }
    match new_service_info(description) {
        Ok((info, description)) => {
            let service_name = unregister_service(state);
            Ok(ServiceRegistration { info, description, service_name })
        },
        Err(_) => Err(String::from_str("Failed to create service info")),
    }
}

/// The full name under which this device's service is withdrawn.
pub fn unregister_service(state: &AppState) -> (name: String)
    ensures
        name@ == service_full_name(state.device_id@),
{
    let mut name = state.device_id.clone();
    name.append(".");
    name.append(SERVICE_TYPE);
    proof {
        reveal_strlit(".");
        reveal_strlit("_nearbyshare._tcp.local.");
        assert(name@ =~= service_full_name(state.device_id@));
    }
    name
}

/// A discovered device as shown to the user.
#[derive(Debug, PartialEq, Eq)]
pub struct DiscoveredPeer {
    pub id: String,
    pub name: String,
    pub ip: String,
    pub port: u16,
}

/// The fields of a shown peer.
pub open spec fn shown_fields(d: DiscoveredPeer) -> (Seq<char>, Seq<char>, Seq<char>, u16) {
    (d.id@, d.name@, d.ip@, d.port)
}

/// The fields of `p` that are shown.
pub open spec fn shown_of(p: Peer) -> (Seq<char>, Seq<char>, Seq<char>, u16) {
    (p.id@, p.name@, p.ip@, p.port)
}

impl DiscoveredPeer {
    /// How `peer` is shown.
    pub fn from_peer(peer: &Peer) -> (d: DiscoveredPeer)
        ensures
            shown_fields(d) == shown_of(*peer),
    {
        DiscoveredPeer {
            id: peer.id.clone(),
            name: peer.name.clone(),
            ip: peer.ip.clone(),
            port: peer.port,
        }
    }
}

/// Decides whether discovery must start: `Ok(true)` when it was not running
/// (it is marked running and the caller starts browsing), `Ok(false)` when
/// it already runs.
pub fn start_discovery(state: &mut AppState) -> (r: Result<bool, String>)
    ensures
        r == Ok::<bool, String>(!old(state).discovery_running),
        *final(state) == (AppState { discovery_running: true, ..*old(state) }),
{
    if state.discovery_running {
        return Ok(false);
    }
    state.discovery_running = true;
    Ok(true)
}

/// Asks discovery to stop.
pub fn stop_discovery(state: &mut AppState) -> (r: Result<(), String>)
    ensures
        r is Ok,
        *final(state) == (AppState { discovery_running: false, ..*old(state) }),
{
    state.discovery_running = false;
    Ok(())
}

/// Every discovered peer, each once.
pub fn get_peers(state: &AppState) -> (r: Result<Vec<Peer>, String>)
    ensures
        r matches Ok(v) && keys_unique(v@) && seq_to_map(v@) == state.discovered_peers.view(),
{
    Ok(state.discovered_peers.values())
}

/// The characters of an optional string, or `default`.
pub open spec fn text_or(o: Option<String>, default: Seq<char>) -> Seq<char> {
    match o {
        Some(s) => s@,
        None => default,
    }
}

/// The peer a resolved service describes: its `id` property or else its
/// full name as id, its `name` property or else its host as name, its first
/// address and port; neither connected nor authenticated.
pub open spec fn resolved_peer_fields(
    id_property: Option<String>,
    name_property: Option<String>,
    fullname: Seq<char>,
    host: Seq<char>,
    address: Seq<char>,
    port: u16,
) -> (Seq<char>, Seq<char>, Seq<char>, u16, bool, bool) {
    (text_or(id_property, fullname), text_or(name_property, host), address, port, false, false)
}

/// `id_property` names this very device.
pub open spec fn is_own_service(state: AppState, id_property: Option<String>) -> bool {
    id_property matches Some(id) && id@ == state.device_id@
}

/// The fields of a peer record.
pub open spec fn peer_record(p: Peer) -> (Seq<char>, Seq<char>, Seq<char>, u16, bool, bool) {
    (p.id@, p.name@, p.ip@, p.port, p.connected, p.authenticated)
}

/// Acts on a resolved service: the device's own service, and a service with
/// no address, are passed over; any other is recorded as a discovered peer
/// and returned as shown.
pub fn record_resolved_service(
    state: &mut AppState,
    id_property: Option<String>,
    name_property: Option<String>,
    fullname: String,
    host: String,
    address: Option<String>,
    port: u16,
) -> (r: Option<DiscoveredPeer>)
    ensures
        is_own_service(*old(state), id_property) || address is None ==> r is None && *final(state)
            == *old(state),
        !is_own_service(*old(state), id_property) && address is Some ==> ({
            let fields = resolved_peer_fields(
                id_property,
                name_property,
                fullname@,
                host@,
                address->Some_0@,
                port,
            );
            &&& final(state).discovered_peers.view().contains_key(fields.0)
            &&& peer_record(final(state).discovered_peers.view()[fields.0]) == fields
            &&& final(state).discovered_peers.view() == old(state).discovered_peers.view().insert(
                fields.0,
                final(state).discovered_peers.view()[fields.0],
            )
            &&& *final(state) == (AppState {
                discovered_peers: final(state).discovered_peers,
                ..*old(state)
            })
            &&& r matches Some(d) && shown_fields(d) == (fields.0, fields.1, fields.2, fields.3)
        }),
{
    match &id_property {
        Some(id) => {
            if *id == state.device_id {
                return None;
            }
        },
        None => {},
    }
    let ip = match address {
        Some(a) => a,
        None => {
            return None;
        },
    };
    let id = match id_property {
        Some(i) => i,
        None => fullname,
    };
    let name = match name_property {
        Some(n) => n,
        None => host,
    };
    let peer = Peer { id, name, ip, port, connected: false, authenticated: false };
    let shown = DiscoveredPeer::from_peer(&peer);
    state.add_discovered_peer(peer);
    Some(shown)
}

/// The peer id a removed service's full name stands for: the text before
/// its first `.`.
pub fn removed_peer_id(fullname: &str) -> (id: String)
    ensures
        id@ == first_segment(fullname@),
{
    let n = fullname.unicode_len();
    let mut i: usize = 0;
    while i < n
        invariant_except_break
            i <= n,
            n == fullname@.len(),
            forall|j: int| 0 <= j < i ==> #[trigger] fullname@[j] != '.',
        ensures
            i <= n,
            n == fullname@.len(),
            forall|j: int| 0 <= j < i ==> #[trigger] fullname@[j] != '.',
            i == n || fullname@[i as int] == '.',
        decreases n - i,
    {
        if fullname.get_char(i) == '.' {
            break;
        }
        i = i + 1;
    }
    proof {
        lemma_first_segment(fullname@, i as int);
    }
    fullname.substring_char(0, i).to_owned()
}

/// Acts on a removed service: forgets the discovered peer its full name
/// stands for, and returns that peer's id.
pub fn record_removed_service(state: &mut AppState, fullname: &str) -> (id: String)
    ensures
        id@ == first_segment(fullname@),
        final(state).discovered_peers.view() == old(state).discovered_peers.view().remove(id@),
        *final(state) == (AppState {
            discovered_peers: final(state).discovered_peers,
            ..*old(state)
        }),
{
    let id = removed_peer_id(fullname);
    state.remove_discovered_peer(id.as_str());
    id
}

/// When a device's service is withdrawn, peers forget that very device: the
/// id read back from its full name is its device id, for every device id
/// without a `.` (a UUID has none).
pub proof fn lemma_removed_name_gives_device(device_id: Seq<char>)
    requires
        forall|i: int| 0 <= i < device_id.len() ==> #[trigger] device_id[i] != '.',
    ensures
        first_segment(service_full_name(device_id)) == device_id,
{
    let full = service_full_name(device_id);
    let n = device_id.len() as int;
    assert forall|j: int| 0 <= j < n implies #[trigger] full[j] != '.' by {
        assert(full[j] == device_id[j]);
    }
    assert(full[n] == '.');
    lemma_first_segment(full, n);
    assert(full.subrange(0, n) =~= device_id);
}

/// A device whose id is a generated UUID is forgotten by its peers under
/// that very id when its service is withdrawn.
pub proof fn lemma_uuid_device_round_trip(device_id: Seq<char>)
    requires
        is_uuid_v4_text(device_id),
    ensures
        first_segment(service_full_name(device_id)) == device_id,
{
    lemma_uuid_text_has_no_dot(device_id);
    lemma_removed_name_gives_device(device_id);
}

/// A resolved service becomes a peer identified by its `id` property (else
/// its full name), named by its `name` property (else its host), at the
/// address and port it announced, neither connected nor authenticated.
pub proof fn lemma_resolved_peer_fields(
    p: Peer,
    id_property: Option<String>,
    name_property: Option<String>,
    fullname: Seq<char>,
    host: Seq<char>,
    address: Seq<char>,
    port: u16,
)
    requires
        peer_record(p) == resolved_peer_fields(
            id_property,
            name_property,
            fullname,
            host,
            address,
            port,
        ),
    ensures
        id_property matches Some(i) ==> p.id@ == i@,
        id_property is None ==> p.id@ == fullname,
        name_property matches Some(n) ==> p.name@ == n@,
        name_property is None ==> p.name@ == host,
        p.ip@ == address,
        p.port == port,
        !p.connected,
        !p.authenticated,
{
}

/// A peer is shown with its own id, name, address and port.
pub proof fn lemma_shown_fields(d: DiscoveredPeer, p: Peer)
    requires
        shown_fields(d) == shown_of(p),
    ensures
        d.id@ == p.id@,
        d.name@ == p.name@,
        d.ip@ == p.ip@,
        d.port == p.port,
{
}

/// A service is this device's own exactly when its `id` property is this
/// device's id.
pub proof fn lemma_own_service_by_id(state: AppState, id_property: Option<String>)
    ensures
        is_own_service(state, id_property) <==> (id_property is Some && id_property->Some_0@
            == state.device_id@),
{
}

/// The description announces the device id as instance name and as `id`,
/// the device name as `name` and in the host `<name>.local.`, the server
/// port, no fixed address, and the type `_nearbyshare._tcp.local.`.
pub proof fn lemma_description_fields(d: ServiceDescription, state: AppState)
    requires
        describes(d, state),
    ensures
        d.service_type@ == "_nearbyshare._tcp.local."@,
        d.instance_name@ == state.device_id@,
        d.host_name@ == state.device_name@ + ".local."@,
        d.addresses@.len() == 0,
        d.port == state.server_port,
        d.properties@.len() == 2,
        d.properties@[0].0@ == "id"@,
        d.properties@[0].1@ == state.device_id@,
        d.properties@[1].0@ == "name"@,
        d.properties@[1].1@ == state.device_name@,
{
}

/// A device's full service name is its id followed by
/// `._nearbyshare._tcp.local.`.
pub proof fn lemma_full_name_layout(device_id: Seq<char>)
    ensures
        service_full_name(device_id) == device_id + "._nearbyshare._tcp.local."@,
{
    reveal_strlit("._nearbyshare._tcp.local.");
    reveal_strlit("_nearbyshare._tcp.local.");
    assert(service_full_name(device_id) =~= device_id + "._nearbyshare._tcp.local."@);
}

} // verus!

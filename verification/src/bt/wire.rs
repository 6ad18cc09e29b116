//! The wire models exchanged with the native engine, and their conversions
//! to and from the domain types.
//!
//! Each payload holds, as plain values, what crosses the boundary to the
//! native session: settings travel out as typed key/value records, and
//! alerts come back as payloads that are turned into engine events.

use vstd::prelude::*;

use super::event::{
    AddTorrent, AddTorrentError, AlertsDropped, BtEvent, BtEventKind, DhtAnnounce, DhtBootstrap,
    DhtDirection, DhtError, DhtGetPeers, DhtLiveNodes, DhtNode, DhtPkt, DhtStats, FileError,
    ListenFailed, MetadataFailed, MetadataReceived, SessionError, TorrentDeleteFailed,
    TorrentError, UdpEndpoint, UdpError,
};
use super::identity::{DhtInfoHash, NodeId};
use super::settings::{Setting, SettingView, SettingsPack};
use super::torrent::{payload_decodes, TorrentIdPayload};

verus! {

/// The value type carried by a setting payload.
#[derive(Debug, Clone, Copy, PartialEq, Eq, Structural)]
pub enum SettingKind {
    Bool,
    Int,
    String,
}

/// One typed setting update passed to the native engine.
#[derive(Debug, PartialEq, Eq)]
pub struct SettingPayload {
    /// The setting value category.
    pub kind: SettingKind,
    /// The libtorrent setting key, including its type prefix.
    pub key: u16,
    /// The integer value; zero for other setting kinds.
    pub int_value: i64,
    /// The boolean value; `false` for other setting kinds.
    pub bool_value: bool,
    /// The string value; empty for other setting kinds.
    pub string_value: String,
}

/// Whether `p` is the wire record of the setting update `s`: its kind, its
/// key code, its value in the field of its kind, and neutral values in the
/// other fields.
pub open spec fn setting_payload_of(p: SettingPayload, s: SettingView) -> bool {
    match s {
        SettingView::Bool(k, v) => {
            &&& p.kind == SettingKind::Bool
            &&& p.key == k.spec_code()
            &&& p.int_value == 0
            &&& p.bool_value == v
            &&& p.string_value@ == Seq::<char>::empty()
        },
        SettingView::Int(k, v) => {
            &&& p.kind == SettingKind::Int
            &&& p.key == k.spec_code()
            &&& p.int_value == v
            &&& p.bool_value == false
            &&& p.string_value@ == Seq::<char>::empty()
        },
        SettingView::String(k, v) => {
            &&& p.kind == SettingKind::String
            &&& p.key == k.spec_code()
            &&& p.int_value == 0
            &&& p.bool_value == false
            &&& p.string_value@ == v
        },
    }
}

impl SettingPayload {
    /// Encodes one setting update.
    pub fn from_setting(setting: Setting) -> (r: Self)
        ensures
            setting_payload_of(r, setting@),
    {
        match setting {
            Setting::Bool(key, value) => SettingPayload {
                kind: SettingKind::Bool,
                key: key.code(),
                int_value: 0,
                bool_value: value,
                string_value: String::new(),
            },
            Setting::Int(key, value) => SettingPayload {
                kind: SettingKind::Int,
                key: key.code(),
                int_value: value,
                bool_value: false,
                string_value: String::new(),
            },
            Setting::String(key, value) => SettingPayload {
                kind: SettingKind::String,
                key: key.code(),
                int_value: 0,
                bool_value: false,
                string_value: value,
            },
        }
    }
}

/// The collection of setting updates consumed by the native engine.
#[derive(Debug, PartialEq, Eq)]
pub struct SettingsPackPayload {
    /// Settings are applied in their stored order.
    pub settings: Vec<SettingPayload>,
}

impl SettingsPackPayload {
    /// Encodes a settings pack, one record per update, in the pack's order.
    pub fn from_settings_pack(settings_pack: SettingsPack) -> (r: Self)
        ensures
            r.settings@.len() == settings_pack@.len(),
            forall|i: int|
                0 <= i < r.settings@.len() ==> setting_payload_of(
                    #[trigger] r.settings@[i],
                    settings_pack@[i],
                ),
    {
        let values = settings_pack.values();
        let mut settings: Vec<SettingPayload> = Vec::new();
        let mut i: usize = 0;
        while i < values.len()
            invariant
                i <= values@.len(),
                values@.map_values(|s: Setting| s@) == settings_pack@,
                settings@.len() == i,
                forall|k: int|
                    0 <= k < i ==> setting_payload_of(
                        #[trigger] settings@[k],
                        settings_pack@[k],
                    ),
            decreases values@.len() - i,
        {
            let setting = values[i].clone();
            assert(settings_pack@[i as int] == values@[i as int]@);
            settings.push(SettingPayload::from_setting(setting));
            i = i + 1;
        }
        SettingsPackPayload { settings }
    }
}

/// The direction of a DHT packet on the wire.
#[derive(Debug, Clone, Copy, PartialEq, Eq, Structural)]
pub enum DhtDirectionPayload {
    Incoming,
    Outgoing,
}

/// The domain direction of a wire direction.
pub open spec fn spec_direction(d: DhtDirectionPayload) -> DhtDirection {
    match d {
        DhtDirectionPayload::Incoming => DhtDirection::Incoming,
        DhtDirectionPayload::Outgoing => DhtDirection::Outgoing,
    }
}

/// Decoding keeps a packet's direction by name: an incoming packet decodes
/// as incoming and an outgoing one as outgoing.
pub proof fn law_direction_kept_by_name(d: DhtDirectionPayload)
    ensures
        (spec_direction(d) == DhtDirection::Incoming) <==> (d == DhtDirectionPayload::Incoming),
        (spec_direction(d) == DhtDirection::Outgoing) <==> (d == DhtDirectionPayload::Outgoing),
{
}

impl DhtDirectionPayload {
    /// Decodes the direction.
    pub fn into_direction(self) -> (r: DhtDirection)
        ensures
            r == spec_direction(self),
            (r == DhtDirection::Incoming) <==> (self == DhtDirectionPayload::Incoming),
            (r == DhtDirection::Outgoing) <==> (self == DhtDirectionPayload::Outgoing),
    {
        match self {
            DhtDirectionPayload::Incoming => DhtDirection::Incoming,
            DhtDirectionPayload::Outgoing => DhtDirection::Outgoing,
        }
    }
}

/// A UDP endpoint on the wire: a numeric address and a port.
#[derive(Debug, PartialEq, Eq)]
pub struct UdpEndpointPayload {
    pub address: String,
    pub port: u16,
}

impl UdpEndpointPayload {
    /// Encodes an endpoint.
    pub fn from_udp_endpoint(endpoint: &UdpEndpoint) -> (r: Self)
        ensures
            r.address@ == endpoint.address@,
            r.port == endpoint.port,
    {
        UdpEndpointPayload { address: endpoint.address.clone(), port: endpoint.port }
    }

    /// Decodes the endpoint.
    pub fn into_udp_endpoint(self) -> (r: UdpEndpoint)
        ensures
            r.address == self.address,
            r.port == self.port,
    {
        UdpEndpoint { address: self.address, port: self.port }
    }
}

/// A DHT node on the wire: its identifier bytes and endpoint.
#[derive(Debug, PartialEq, Eq)]
pub struct DhtNodePayload {
    pub node_id: [u8; 20],
    pub endpoint: UdpEndpointPayload,
}

/// Whether `n` is the node the payload `p` describes.
pub open spec fn node_of(n: DhtNode, p: DhtNodePayload) -> bool {
    &&& n.spec_node_id()@ == p.node_id@
    &&& n.spec_endpoint().address == p.endpoint.address
    &&& n.spec_endpoint().port == p.endpoint.port
}

impl DhtNodePayload {
    /// Decodes the node.
    pub fn into_dht_node(self) -> (r: DhtNode)
        ensures
            node_of(r, self),
    {
        DhtNode::from_ffi(NodeId::from_bytes(self.node_id), self.endpoint.into_udp_endpoint())
    }
}

/// Decodes a sequence of nodes, in order.
fn into_dht_nodes(payloads: Vec<DhtNodePayload>) -> (r: Vec<DhtNode>)
    ensures
        r@.len() == payloads@.len(),
        forall|i: int| 0 <= i < r@.len() ==> node_of(#[trigger] r@[i], payloads@[i]),
{
    let ghost all = payloads@;
    let mut rest = payloads;
    let mut nodes: Vec<DhtNode> = Vec::new();
    while rest.len() > 0
        invariant
            nodes@.len() + rest@.len() == all.len(),
            rest@ == all.skip(nodes@.len() as int),
            forall|i: int| 0 <= i < nodes@.len() ==> node_of(#[trigger] nodes@[i], all[i]),
        decreases rest@.len(),
    {
        let payload = rest.remove(0);
        assert(payload == all[nodes@.len() as int]);
        assert(rest@ =~= all.skip(nodes@.len() as int + 1));
        nodes.push(payload.into_dht_node());
    }
    nodes
}

/// A sampled infohash on the wire.
#[derive(Debug, Clone, Copy, PartialEq, Eq)]
pub struct SampleInfoHashPayload {
    pub bytes: [u8; 20],
}

impl SampleInfoHashPayload {
    /// Decodes the infohash.
    pub fn into_dht_info_hash(self) -> (r: DhtInfoHash)
        ensures
            r@ == self.bytes@,
    {
        DhtInfoHash::from_bytes(self.bytes)
    }
}

/// The event of a completed DHT bootstrap.
pub fn dht_bootstrap_event() -> (r: BtEvent)
    ensures
        r.spec_kind() is DhtBootstrap,
{
    BtEvent::new(BtEventKind::DhtBootstrap(DhtBootstrap::from_ffi()))
}

/// The session reported an error.
#[derive(Debug, PartialEq, Eq)]
pub struct SessionErrorPayload {
    pub message: String,
}

impl SessionErrorPayload {
    /// Decodes the payload into an event.
    pub fn into_event(self) -> (r: BtEvent)
        ensures
            r.spec_kind() matches BtEventKind::SessionError(p) && p.spec_message() == self.message,
    {
        BtEvent::new(BtEventKind::SessionError(SessionError::from_ffi(self.message)))
    }
}

/// Listening on the configured port failed.
#[derive(Debug, PartialEq, Eq)]
pub struct ListenFailedPayload {
    pub message: String,
}

impl ListenFailedPayload {
    /// Decodes the payload into an event.
    pub fn into_event(self) -> (r: BtEvent)
        ensures
            r.spec_kind() matches BtEventKind::ListenFailed(p) && p.spec_message() == self.message,
    {
        BtEvent::new(BtEventKind::ListenFailed(ListenFailed::from_ffi(self.message)))
    }
}

/// A UDP operation failed.
#[derive(Debug, PartialEq, Eq)]
pub struct UdpErrorPayload {
    pub message: String,
}

impl UdpErrorPayload {
    /// Decodes the payload into an event.
    pub fn into_event(self) -> (r: BtEvent)
        ensures
            r.spec_kind() matches BtEventKind::UdpError(p) && p.spec_message() == self.message,
    {
        BtEvent::new(BtEventKind::UdpError(UdpError::from_ffi(self.message)))
    }
}

/// A DHT operation failed.
#[derive(Debug, PartialEq, Eq)]
pub struct DhtErrorPayload {
    pub message: String,
}

impl DhtErrorPayload {
    /// Decodes the payload into an event.
    pub fn into_event(self) -> (r: BtEvent)
        ensures
            r.spec_kind() matches BtEventKind::DhtError(p) && p.spec_message() == self.message,
    {
        BtEvent::new(BtEventKind::DhtError(DhtError::from_ffi(self.message)))
    }
}

/// The session dropped alerts before they were polled.
#[derive(Debug, PartialEq, Eq)]
pub struct AlertsDroppedPayload {
    pub message: String,
}

impl AlertsDroppedPayload {
    /// Decodes the payload into an event.
    pub fn into_event(self) -> (r: BtEvent)
        ensures
            r.spec_kind() matches BtEventKind::AlertsDropped(p) && p.spec_message() == self.message,
    {
        BtEvent::new(BtEventKind::AlertsDropped(AlertsDropped::from_ffi(self.message)))
    }
}

/// Fetching metadata failed.
#[derive(Debug, PartialEq, Eq)]
pub struct MetadataFailedPayload {
    pub torrent_id: TorrentIdPayload,
    pub message: String,
}

impl MetadataFailedPayload {
    /// Decodes the payload into an event.
    pub fn into_event(self) -> (r: BtEvent)
        ensures
            r.spec_kind() matches BtEventKind::MetadataFailed(p) && payload_decodes(
                self.torrent_id,
                p.spec_torrent_id(),
            ) && p.spec_message() == self.message,
    {
        BtEvent::new(BtEventKind::MetadataFailed(MetadataFailed::from_ffi(self.torrent_id.into_torrent_id(), self.message)))
    }
}

/// A torrent entered an error state.
#[derive(Debug, PartialEq, Eq)]
pub struct TorrentErrorPayload {
    pub torrent_id: TorrentIdPayload,
    pub message: String,
}

impl TorrentErrorPayload {
    /// Decodes the payload into an event.
    pub fn into_event(self) -> (r: BtEvent)
        ensures
            r.spec_kind() matches BtEventKind::TorrentError(p) && payload_decodes(
                self.torrent_id,
                p.spec_torrent_id(),
            ) && p.spec_message() == self.message,
    {
        BtEvent::new(BtEventKind::TorrentError(TorrentError::from_ffi(self.torrent_id.into_torrent_id(), self.message)))
    }
}

/// A file operation failed for a torrent.
#[derive(Debug, PartialEq, Eq)]
pub struct FileErrorPayload {
    pub torrent_id: TorrentIdPayload,
    pub message: String,
}

impl FileErrorPayload {
    /// Decodes the payload into an event.
    pub fn into_event(self) -> (r: BtEvent)
        ensures
            r.spec_kind() matches BtEventKind::FileError(p) && payload_decodes(
                self.torrent_id,
                p.spec_torrent_id(),
            ) && p.spec_message() == self.message,
    {
        BtEvent::new(BtEventKind::FileError(FileError::from_ffi(self.torrent_id.into_torrent_id(), self.message)))
    }
}

/// Deleting a torrent failed.
#[derive(Debug, PartialEq, Eq)]
pub struct TorrentDeleteFailedPayload {
    pub torrent_id: TorrentIdPayload,
    pub message: String,
}

impl TorrentDeleteFailedPayload {
    /// Decodes the payload into an event.
    pub fn into_event(self) -> (r: BtEvent)
        ensures
            r.spec_kind() matches BtEventKind::TorrentDeleteFailed(p) && payload_decodes(
                self.torrent_id,
                p.spec_torrent_id(),
            ) && p.spec_message() == self.message,
    {
        BtEvent::new(BtEventKind::TorrentDeleteFailed(TorrentDeleteFailed::from_ffi(self.torrent_id.into_torrent_id(), self.message)))
    }
}

/// Metadata was received for a torrent.
#[derive(Debug, PartialEq, Eq)]
pub struct MetadataReceivedPayload {
    pub torrent_id: TorrentIdPayload,
    pub data: Vec<u8>,
}

impl MetadataReceivedPayload {
    /// Decodes the payload into an event.
    pub fn into_event(self) -> (r: BtEvent)
        ensures
            r.spec_kind() matches BtEventKind::MetadataReceived(p) && payload_decodes(
                self.torrent_id,
                p.spec_torrent_id(),
            ) && p.spec_data() == self.data,
    {
        BtEvent::new(
            BtEventKind::MetadataReceived(
                MetadataReceived::from_ffi(self.torrent_id.into_torrent_id(), self.data),
            ),
        )
    }
}

/// A torrent-add operation completed; the error fields are set when it failed.
#[derive(Debug, PartialEq, Eq)]
pub struct AddTorrentPayload {
    pub torrent_id: TorrentIdPayload,
    pub message: String,
    pub has_error: bool,
    pub error_value: i32,
    pub error_category: String,
}

impl AddTorrentPayload {
    /// Decodes the payload into an event; the error details are kept only
    /// when the payload reports an error.
    pub fn into_event(self) -> (r: BtEvent)
        ensures
            r.spec_kind() matches BtEventKind::AddTorrent(p) && payload_decodes(
                self.torrent_id,
                p.spec_torrent_id(),
            ) && p.spec_message() == self.message && (p.spec_error() is Some == self.has_error)
                && (p.spec_error() matches Some(e) ==> e.spec_error_value() == self.error_value
                && e.spec_error_category() == self.error_category),
    {
        let error = if self.has_error {
            Some(AddTorrentError::from_ffi(self.error_value, self.error_category))
        } else {
            None
        };
        BtEvent::new(
            BtEventKind::AddTorrent(
                AddTorrent::from_ffi(self.torrent_id.into_torrent_id(), self.message, error),
            ),
        )
    }
}

/// A DHT announce was received.
#[derive(Debug, PartialEq, Eq)]
pub struct DhtAnnouncePayload {
    pub info_hash: [u8; 20],
    pub peer_ip: String,
    pub peer_port: u16,
}

impl DhtAnnouncePayload {
    /// Decodes the payload into an event.
    pub fn into_event(self) -> (r: BtEvent)
        ensures
            r.spec_kind() matches BtEventKind::DhtAnnounce(p) && p.spec_info_hash()@
                == self.info_hash@ && p.spec_peer_ip() == self.peer_ip && p.spec_peer_port()
                == self.peer_port,
    {
        BtEvent::new(
            BtEventKind::DhtAnnounce(
                DhtAnnounce::from_ffi(
                    DhtInfoHash::from_bytes(self.info_hash),
                    self.peer_ip,
                    self.peer_port,
                ),
            ),
        )
    }
}

/// DHT statistics were received.
#[derive(Debug, PartialEq, Eq)]
pub struct DhtStatsPayload {
    pub node_count: u32,
    pub local_ip: String,
    pub local_port: u16,
}

impl DhtStatsPayload {
    /// Decodes the payload into an event.
    pub fn into_event(self) -> (r: BtEvent)
        ensures
            r.spec_kind() matches BtEventKind::DhtStats(p) && p.spec_node_count()
                == self.node_count && p.spec_local_ip() == self.local_ip && p.spec_local_port()
                == self.local_port,
    {
        BtEvent::new(
            BtEventKind::DhtStats(
                DhtStats::from_ffi(self.node_count, self.local_ip, self.local_port),
            ),
        )
    }
}

/// A DHT get-peers request was received.
#[derive(Debug, PartialEq, Eq)]
pub struct DhtGetPeersPayload {
    pub info_hash: [u8; 20],
}

impl DhtGetPeersPayload {
    /// Decodes the payload into an event.
    pub fn into_event(self) -> (r: BtEvent)
        ensures
            r.spec_kind() matches BtEventKind::DhtGetPeers(p) && p.spec_info_hash()@
                == self.info_hash@,
    {
        BtEvent::new(
            BtEventKind::DhtGetPeers(DhtGetPeers::from_ffi(DhtInfoHash::from_bytes(self.info_hash))),
        )
    }
}

/// A raw DHT packet was received or sent.
#[derive(Debug, PartialEq, Eq)]
pub struct DhtPktPayload {
    pub direction: DhtDirectionPayload,
    pub endpoint: UdpEndpointPayload,
    pub packet: Vec<u8>,
}

impl DhtPktPayload {
    /// Decodes the payload into an event.
    pub fn into_event(self) -> (r: BtEvent)
        ensures
            r.spec_kind() matches BtEventKind::DhtPkt(p) && p.spec_direction() == spec_direction(
                self.direction,
            ) && p.spec_endpoint().address == self.endpoint.address && p.spec_endpoint().port
                == self.endpoint.port && p.spec_packet() == self.packet,
            r.spec_kind() matches BtEventKind::DhtPkt(p) ==> ((p.spec_direction()
                == DhtDirection::Incoming) <==> (self.direction == DhtDirectionPayload::Incoming)),
    {
        BtEvent::new(
            BtEventKind::DhtPkt(
                DhtPkt::from_ffi(
                    self.direction.into_direction(),
                    self.endpoint.into_udp_endpoint(),
                    self.packet,
                ),
            ),
        )
    }
}

/// The live nodes of one local DHT routing table.
#[derive(Debug, PartialEq, Eq)]
pub struct DhtLiveNodesPayload {
    pub local_node_id: [u8; 20],
    pub nodes: Vec<DhtNodePayload>,
}

impl DhtLiveNodesPayload {
    /// Decodes the payload into an event, keeping the nodes in order.
    pub fn into_event(self) -> (r: BtEvent)
        ensures
            r.spec_kind() matches BtEventKind::DhtLiveNodes(p) && p.spec_local_node_id()@
                == self.local_node_id@ && p.spec_nodes()@.len() == self.nodes@.len() && (forall|i: int|
                0 <= i < p.spec_nodes()@.len() ==> node_of(
                #[trigger] p.spec_nodes()@[i],
                self.nodes@[i],
            )),
    {
        let nodes = into_dht_nodes(self.nodes);
        BtEvent::new(
            BtEventKind::DhtLiveNodes(
                DhtLiveNodes::from_ffi(NodeId::from_bytes(self.local_node_id), nodes),
            ),
        )
    }
}

} // verus!

//! Public domain events emitted by the BitTorrent engine.

use std::time::{Duration, SystemTime};

use vstd::prelude::*;

use super::identity::{DhtInfoHash, NodeId};
use super::torrent::TorrentId;

verus! {

/// Declares `std::time::SystemTime`, the time at which an event was created.
#[verifier::external_type_specification]
#[verifier::external_body]
pub struct ExSystemTime(SystemTime);

/// `SystemTime` is `Copy`; its `clone` returns an identical value.
pub assume_specification[ <SystemTime as Clone>::clone ](t: &SystemTime) -> (r: SystemTime)
    ensures
        r == *t,
;

/// `Duration` is `Copy`; its `clone` returns an identical value.
pub assume_specification[ <Duration as Clone>::clone ](d: &Duration) -> (r: Duration)
    ensures
        r == *d,
;

/// Calls `SystemTime::now`. Nothing is promised of the result: it is the
/// system clock's reading.
#[verifier::external_body]
fn system_time_now() -> SystemTime {
    SystemTime::now()
}

/// Direction of a DHT packet (incoming or outgoing).
#[derive(Debug, Clone, Copy, PartialEq, Eq, Structural)]
pub enum DhtDirection {
    /// Incoming packet received from a DHT node.
    Incoming,
    /// Outgoing packet sent to a DHT node.
    Outgoing,
}

/// A UDP endpoint as reported by the native engine: a numeric IP address
/// without a port suffix, and a port.
#[derive(Debug, Clone, PartialEq, Eq, Hash)]
pub struct UdpEndpoint {
    /// Numeric IP address without a port suffix.
    pub address: String,
    /// UDP port number.
    pub port: u16,
}

/// A DHT node identity and its network endpoint.
#[derive(Debug, Clone, PartialEq, Eq, Hash)]
pub struct DhtNode {
    node_id: NodeId,
    endpoint: UdpEndpoint,
}

impl DhtNode {
    /// The node's DHT identity.
    pub closed spec fn spec_node_id(&self) -> NodeId {
        self.node_id
    }

    /// The node's reachable network endpoint.
    pub closed spec fn spec_endpoint(&self) -> UdpEndpoint {
        self.endpoint
    }

    /// Creates a node from the values reported by the native engine.
    pub fn from_ffi(node_id: NodeId, endpoint: UdpEndpoint) -> (r: Self)
        ensures
            r.spec_node_id() == node_id,
            r.spec_endpoint() == endpoint,
    {
        DhtNode { node_id, endpoint }
    }

    /// Returns the node's DHT identity.
    pub fn node_id(&self) -> (r: &NodeId)
        ensures
            *r == self.spec_node_id(),
    {
        &self.node_id
    }

    /// Returns the node's reachable network endpoint.
    pub fn endpoint(&self) -> (r: &UdpEndpoint)
        ensures
            *r == self.spec_endpoint(),
    {
        &self.endpoint
    }
}

/// A DHT announce event payload.
#[derive(Debug, Clone, PartialEq, Eq)]
pub struct DhtAnnounce {
    info_hash: DhtInfoHash,
    peer_ip: String,
    peer_port: u16,
}

impl DhtAnnounce {
    /// The `info_hash` field.
    pub closed spec fn spec_info_hash(&self) -> DhtInfoHash {
        self.info_hash
    }

    /// The `peer_ip` field.
    pub closed spec fn spec_peer_ip(&self) -> String {
        self.peer_ip
    }

    /// The `peer_port` field.
    pub closed spec fn spec_peer_port(&self) -> u16 {
        self.peer_port
    }

    /// Creates the payload from the values reported by the native engine.
    pub fn from_ffi(info_hash: DhtInfoHash, peer_ip: String, peer_port: u16) -> (r: Self)
        ensures
            r.spec_info_hash() == info_hash,
            r.spec_peer_ip() == peer_ip,
            r.spec_peer_port() == peer_port,
    {
        DhtAnnounce { info_hash, peer_ip, peer_port }
    }

    /// Returns the `info_hash` field.
    pub fn info_hash(&self) -> (r: &DhtInfoHash)
        ensures
            *r == self.spec_info_hash(),
    {
        &self.info_hash
    }

    /// Returns the `peer_ip` field.
    pub fn peer_ip(&self) -> (r: &String)
        ensures
            *r == self.spec_peer_ip(),
    {
        &self.peer_ip
    }

    /// Returns the `peer_port` field.
    pub fn peer_port(&self) -> (r: &u16)
        ensures
            *r == self.spec_peer_port(),
    {
        &self.peer_port
    }
}

/// Metadata received event payload.
#[derive(Debug, Clone, PartialEq, Eq)]
pub struct MetadataReceived {
    torrent_id: TorrentId,
    data: Vec<u8>,
}

impl MetadataReceived {
    /// The `torrent_id` field.
    pub closed spec fn spec_torrent_id(&self) -> TorrentId {
        self.torrent_id
    }

    /// The `data` field.
    pub closed spec fn spec_data(&self) -> Vec<u8> {
        self.data
    }

    /// Creates the payload from the values reported by the native engine.
    pub fn from_ffi(torrent_id: TorrentId, data: Vec<u8>) -> (r: Self)
        ensures
            r.spec_torrent_id() == torrent_id,
            r.spec_data() == data,
    {
        MetadataReceived { torrent_id, data }
    }

    /// Returns the `torrent_id` field.
    pub fn torrent_id(&self) -> (r: &TorrentId)
        ensures
            *r == self.spec_torrent_id(),
    {
        &self.torrent_id
    }

    /// Returns the `data` field.
    pub fn data(&self) -> (r: &Vec<u8>)
        ensures
            *r == self.spec_data(),
    {
        &self.data
    }
}

/// Metadata failed event payload.
#[derive(Debug, Clone, PartialEq, Eq)]
pub struct MetadataFailed {
    torrent_id: TorrentId,
    message: String,
}

impl MetadataFailed {
    /// The `torrent_id` field.
    pub closed spec fn spec_torrent_id(&self) -> TorrentId {
        self.torrent_id
    }

    /// The `message` field.
    pub closed spec fn spec_message(&self) -> String {
        self.message
    }

    /// Creates the payload from the values reported by the native engine.
    pub fn from_ffi(torrent_id: TorrentId, message: String) -> (r: Self)
        ensures
            r.spec_torrent_id() == torrent_id,
            r.spec_message() == message,
    {
        MetadataFailed { torrent_id, message }
    }

    /// Returns the `torrent_id` field.
    pub fn torrent_id(&self) -> (r: &TorrentId)
        ensures
            *r == self.spec_torrent_id(),
    {
        &self.torrent_id
    }

    /// Returns the `message` field.
    pub fn message(&self) -> (r: &String)
        ensures
            *r == self.spec_message(),
    {
        &self.message
    }
}

/// DHT statistics event payload.
#[derive(Debug, Clone, PartialEq, Eq)]
pub struct DhtStats {
    node_count: u32,
    local_ip: String,
    local_port: u16,
}

impl DhtStats {
    /// The `node_count` field.
    pub closed spec fn spec_node_count(&self) -> u32 {
        self.node_count
    }

    /// The `local_ip` field.
    pub closed spec fn spec_local_ip(&self) -> String {
        self.local_ip
    }

    /// The `local_port` field.
    pub closed spec fn spec_local_port(&self) -> u16 {
        self.local_port
    }

    /// Creates the payload from the values reported by the native engine.
    pub fn from_ffi(node_count: u32, local_ip: String, local_port: u16) -> (r: Self)
        ensures
            r.spec_node_count() == node_count,
            r.spec_local_ip() == local_ip,
            r.spec_local_port() == local_port,
    {
        DhtStats { node_count, local_ip, local_port }
    }

    /// Returns the `node_count` field.
    pub fn node_count(&self) -> (r: &u32)
        ensures
            *r == self.spec_node_count(),
    {
        &self.node_count
    }

    /// Returns the `local_ip` field.
    pub fn local_ip(&self) -> (r: &String)
        ensures
            *r == self.spec_local_ip(),
    {
        &self.local_ip
    }

    /// Returns the `local_port` field.
    pub fn local_port(&self) -> (r: &u16)
        ensures
            *r == self.spec_local_port(),
    {
        &self.local_port
    }
}

/// DHT bootstrap event payload.
#[derive(Debug, Clone, PartialEq, Eq)]
pub struct DhtBootstrap;

impl DhtBootstrap {
    /// Creates the payload.
    pub fn from_ffi() -> (r: Self) {
        DhtBootstrap
    }
}

/// DHT get-peers event payload.
#[derive(Debug, Clone, PartialEq, Eq)]
pub struct DhtGetPeers {
    info_hash: DhtInfoHash,
}

impl DhtGetPeers {
    /// The `info_hash` field.
    pub closed spec fn spec_info_hash(&self) -> DhtInfoHash {
        self.info_hash
    }

    /// Creates the payload from the values reported by the native engine.
    pub fn from_ffi(info_hash: DhtInfoHash) -> (r: Self)
        ensures
            r.spec_info_hash() == info_hash,
    {
        DhtGetPeers { info_hash }
    }

    /// Returns the `info_hash` field.
    pub fn info_hash(&self) -> (r: &DhtInfoHash)
        ensures
            *r == self.spec_info_hash(),
    {
        &self.info_hash
    }
}

/// Error details reported when adding a torrent fails.
#[derive(Debug, Clone, PartialEq, Eq)]
pub struct AddTorrentError {
    error_value: i32,
    error_category: String,
}

impl AddTorrentError {
    /// The `error_value` field.
    pub closed spec fn spec_error_value(&self) -> i32 {
        self.error_value
    }

    /// The `error_category` field.
    pub closed spec fn spec_error_category(&self) -> String {
        self.error_category
    }

    /// Creates the payload from the values reported by the native engine.
    pub fn from_ffi(error_value: i32, error_category: String) -> (r: Self)
        ensures
            r.spec_error_value() == error_value,
            r.spec_error_category() == error_category,
    {
        AddTorrentError { error_value, error_category }
    }

    /// Returns the `error_value` field.
    pub fn error_value(&self) -> (r: &i32)
        ensures
            *r == self.spec_error_value(),
    {
        &self.error_value
    }

    /// Returns the `error_category` field.
    pub fn error_category(&self) -> (r: &String)
        ensures
            *r == self.spec_error_category(),
    {
        &self.error_category
    }
}

/// Torrent add result. The `error` field contains failure details when the
/// operation fails.
#[derive(Debug, Clone, PartialEq, Eq)]
pub struct AddTorrent {
    torrent_id: TorrentId,
    message: String,
    error: Option<AddTorrentError>,
}

impl AddTorrent {
    /// The `torrent_id` field.
    pub closed spec fn spec_torrent_id(&self) -> TorrentId {
        self.torrent_id
    }

    /// The `message` field.
    pub closed spec fn spec_message(&self) -> String {
        self.message
    }

    /// The `error` field.
    pub closed spec fn spec_error(&self) -> Option<AddTorrentError> {
        self.error
    }

    /// Creates the payload from the values reported by the native engine.
    pub fn from_ffi(torrent_id: TorrentId, message: String, error: Option<AddTorrentError>) -> (r: Self)
        ensures
            r.spec_torrent_id() == torrent_id,
            r.spec_message() == message,
            r.spec_error() == error,
    {
        AddTorrent { torrent_id, message, error }
    }

    /// Returns the `torrent_id` field.
    pub fn torrent_id(&self) -> (r: &TorrentId)
        ensures
            *r == self.spec_torrent_id(),
    {
        &self.torrent_id
    }

    /// Returns the `message` field.
    pub fn message(&self) -> (r: &String)
        ensures
            *r == self.spec_message(),
    {
        &self.message
    }

    /// Returns the `error` field.
    pub fn error(&self) -> (r: &Option<AddTorrentError>)
        ensures
            *r == self.spec_error(),
    {
        &self.error
    }
}

/// Torrent error event payload.
#[derive(Debug, Clone, PartialEq, Eq)]
pub struct TorrentError {
    torrent_id: TorrentId,
    message: String,
}

impl TorrentError {
    /// The `torrent_id` field.
    pub closed spec fn spec_torrent_id(&self) -> TorrentId {
        self.torrent_id
    }

    /// The `message` field.
    pub closed spec fn spec_message(&self) -> String {
        self.message
    }

    /// Creates the payload from the values reported by the native engine.
    pub fn from_ffi(torrent_id: TorrentId, message: String) -> (r: Self)
        ensures
            r.spec_torrent_id() == torrent_id,
            r.spec_message() == message,
    {
        TorrentError { torrent_id, message }
    }

    /// Returns the `torrent_id` field.
    pub fn torrent_id(&self) -> (r: &TorrentId)
        ensures
            *r == self.spec_torrent_id(),
    {
        &self.torrent_id
    }

    /// Returns the `message` field.
    pub fn message(&self) -> (r: &String)
        ensures
            *r == self.spec_message(),
    {
        &self.message
    }
}

/// File error event payload.
#[derive(Debug, Clone, PartialEq, Eq)]
pub struct FileError {
    torrent_id: TorrentId,
    message: String,
}

impl FileError {
    /// The `torrent_id` field.
    pub closed spec fn spec_torrent_id(&self) -> TorrentId {
        self.torrent_id
    }

    /// The `message` field.
    pub closed spec fn spec_message(&self) -> String {
        self.message
    }

    /// Creates the payload from the values reported by the native engine.
    pub fn from_ffi(torrent_id: TorrentId, message: String) -> (r: Self)
        ensures
            r.spec_torrent_id() == torrent_id,
            r.spec_message() == message,
    {
        FileError { torrent_id, message }
    }

    /// Returns the `torrent_id` field.
    pub fn torrent_id(&self) -> (r: &TorrentId)
        ensures
            *r == self.spec_torrent_id(),
    {
        &self.torrent_id
    }

    /// Returns the `message` field.
    pub fn message(&self) -> (r: &String)
        ensures
            *r == self.spec_message(),
    {
        &self.message
    }
}

/// Torrent deletion failure event payload.
#[derive(Debug, Clone, PartialEq, Eq)]
pub struct TorrentDeleteFailed {
    torrent_id: TorrentId,
    message: String,
}

impl TorrentDeleteFailed {
    /// The `torrent_id` field.
    pub closed spec fn spec_torrent_id(&self) -> TorrentId {
        self.torrent_id
    }

    /// The `message` field.
    pub closed spec fn spec_message(&self) -> String {
        self.message
    }

    /// Creates the payload from the values reported by the native engine.
    pub fn from_ffi(torrent_id: TorrentId, message: String) -> (r: Self)
        ensures
            r.spec_torrent_id() == torrent_id,
            r.spec_message() == message,
    {
        TorrentDeleteFailed { torrent_id, message }
    }

    /// Returns the `torrent_id` field.
    pub fn torrent_id(&self) -> (r: &TorrentId)
        ensures
            *r == self.spec_torrent_id(),
    {
        &self.torrent_id
    }

    /// Returns the `message` field.
    pub fn message(&self) -> (r: &String)
        ensures
            *r == self.spec_message(),
    {
        &self.message
    }
}

/// Session error event payload.
#[derive(Debug, Clone, PartialEq, Eq)]
pub struct SessionError {
    message: String,
}

impl SessionError {
    /// The `message` field.
    pub closed spec fn spec_message(&self) -> String {
        self.message
    }

    /// Creates the payload from the values reported by the native engine.
    pub fn from_ffi(message: String) -> (r: Self)
        ensures
            r.spec_message() == message,
    {
        SessionError { message }
    }

    /// Returns the `message` field.
    pub fn message(&self) -> (r: &String)
        ensures
            *r == self.spec_message(),
    {
        &self.message
    }
}

/// Listen failure event payload.
#[derive(Debug, Clone, PartialEq, Eq)]
pub struct ListenFailed {
    message: String,
}

impl ListenFailed {
    /// The `message` field.
    pub closed spec fn spec_message(&self) -> String {
        self.message
    }

    /// Creates the payload from the values reported by the native engine.
    pub fn from_ffi(message: String) -> (r: Self)
        ensures
            r.spec_message() == message,
    {
        ListenFailed { message }
    }

    /// Returns the `message` field.
    pub fn message(&self) -> (r: &String)
        ensures
            *r == self.spec_message(),
    {
        &self.message
    }
}

/// UDP error event payload.
#[derive(Debug, Clone, PartialEq, Eq)]
pub struct UdpError {
    message: String,
}

impl UdpError {
    /// The `message` field.
    pub closed spec fn spec_message(&self) -> String {
        self.message
    }

    /// Creates the payload from the values reported by the native engine.
    pub fn from_ffi(message: String) -> (r: Self)
        ensures
            r.spec_message() == message,
    {
        UdpError { message }
    }

    /// Returns the `message` field.
    pub fn message(&self) -> (r: &String)
        ensures
            *r == self.spec_message(),
    {
        &self.message
    }
}

/// DHT error event payload.
#[derive(Debug, Clone, PartialEq, Eq)]
pub struct DhtError {
    message: String,
}

impl DhtError {
    /// The `message` field.
    pub closed spec fn spec_message(&self) -> String {
        self.message
    }

    /// Creates the payload from the values reported by the native engine.
    pub fn from_ffi(message: String) -> (r: Self)
        ensures
            r.spec_message() == message,
    {
        DhtError { message }
    }

    /// Returns the `message` field.
    pub fn message(&self) -> (r: &String)
        ensures
            *r == self.spec_message(),
    {
        &self.message
    }
}

/// Dropped alerts event payload.
#[derive(Debug, Clone, PartialEq, Eq)]
pub struct AlertsDropped {
    message: String,
}

impl AlertsDropped {
    /// The `message` field.
    pub closed spec fn spec_message(&self) -> String {
        self.message
    }

    /// Creates the payload from the values reported by the native engine.
    pub fn from_ffi(message: String) -> (r: Self)
        ensures
            r.spec_message() == message,
    {
        AlertsDropped { message }
    }

    /// Returns the `message` field.
    pub fn message(&self) -> (r: &String)
        ensures
            *r == self.spec_message(),
    {
        &self.message
    }
}

/// DHT sample infohashes event payload.
#[derive(Debug, Clone, PartialEq, Eq)]
pub struct DhtSampleInfohashes {
    node: DhtNode,
    interval: Duration,
    num_infohashes: u32,
    samples: Vec<DhtInfoHash>,
    nodes: Vec<DhtNode>,
}

impl DhtSampleInfohashes {
    /// The `node` field.
    pub closed spec fn spec_node(&self) -> DhtNode {
        self.node
    }

    /// The `interval` field.
    pub closed spec fn spec_interval(&self) -> Duration {
        self.interval
    }

    /// The `num_infohashes` field.
    pub closed spec fn spec_num_infohashes(&self) -> u32 {
        self.num_infohashes
    }

    /// The `samples` field.
    pub closed spec fn spec_samples(&self) -> Vec<DhtInfoHash> {
        self.samples
    }

    /// The `nodes` field.
    pub closed spec fn spec_nodes(&self) -> Vec<DhtNode> {
        self.nodes
    }

    /// Creates the payload from the values reported by the native engine.
    pub fn from_ffi(node: DhtNode, interval: Duration, num_infohashes: u32, samples: Vec<DhtInfoHash>, nodes: Vec<DhtNode>) -> (r: Self)
        ensures
            r.spec_node() == node,
            r.spec_interval() == interval,
            r.spec_num_infohashes() == num_infohashes,
            r.spec_samples() == samples,
            r.spec_nodes() == nodes,
    {
        DhtSampleInfohashes { node, interval, num_infohashes, samples, nodes }
    }

    /// Returns the `node` field.
    pub fn node(&self) -> (r: &DhtNode)
        ensures
            *r == self.spec_node(),
    {
        &self.node
    }

    /// Returns the `interval` field.
    pub fn interval(&self) -> (r: &Duration)
        ensures
            *r == self.spec_interval(),
    {
        &self.interval
    }

    /// Returns the `num_infohashes` field.
    pub fn num_infohashes(&self) -> (r: &u32)
        ensures
            *r == self.spec_num_infohashes(),
    {
        &self.num_infohashes
    }

    /// Returns the `samples` field.
    pub fn samples(&self) -> (r: &Vec<DhtInfoHash>)
        ensures
            *r == self.spec_samples(),
    {
        &self.samples
    }

    /// Returns the `nodes` field.
    pub fn nodes(&self) -> (r: &Vec<DhtNode>)
        ensures
            *r == self.spec_nodes(),
    {
        &self.nodes
    }
}

/// Raw DHT packet event payload.
#[derive(Debug, Clone, PartialEq, Eq)]
pub struct DhtPkt {
    direction: DhtDirection,
    endpoint: UdpEndpoint,
    packet: Vec<u8>,
}

impl DhtPkt {
    /// The `direction` field.
    pub closed spec fn spec_direction(&self) -> DhtDirection {
        self.direction
    }

    /// The `endpoint` field.
    pub closed spec fn spec_endpoint(&self) -> UdpEndpoint {
        self.endpoint
    }

    /// The `packet` field.
    pub closed spec fn spec_packet(&self) -> Vec<u8> {
        self.packet
    }

    /// Creates the payload from the values reported by the native engine.
    pub fn from_ffi(direction: DhtDirection, endpoint: UdpEndpoint, packet: Vec<u8>) -> (r: Self)
        ensures
            r.spec_direction() == direction,
            r.spec_endpoint() == endpoint,
            r.spec_packet() == packet,
    {
        DhtPkt { direction, endpoint, packet }
    }

    /// Returns the `direction` field.
    pub fn direction(&self) -> (r: &DhtDirection)
        ensures
            *r == self.spec_direction(),
    {
        &self.direction
    }

    /// Returns the `endpoint` field.
    pub fn endpoint(&self) -> (r: &UdpEndpoint)
        ensures
            *r == self.spec_endpoint(),
    {
        &self.endpoint
    }

    /// Returns the `packet` field.
    pub fn packet(&self) -> (r: &Vec<u8>)
        ensures
            *r == self.spec_packet(),
    {
        &self.packet
    }
}

/// DHT live nodes event payload.
#[derive(Debug, Clone, PartialEq, Eq)]
pub struct DhtLiveNodes {
    local_node_id: NodeId,
    nodes: Vec<DhtNode>,
}

impl DhtLiveNodes {
    /// The `local_node_id` field.
    pub closed spec fn spec_local_node_id(&self) -> NodeId {
        self.local_node_id
    }

    /// The `nodes` field.
    pub closed spec fn spec_nodes(&self) -> Vec<DhtNode> {
        self.nodes
    }

    /// Creates the payload from the values reported by the native engine.
    pub fn from_ffi(local_node_id: NodeId, nodes: Vec<DhtNode>) -> (r: Self)
        ensures
            r.spec_local_node_id() == local_node_id,
            r.spec_nodes() == nodes,
    {
        DhtLiveNodes { local_node_id, nodes }
    }

    /// Returns the `local_node_id` field.
    pub fn local_node_id(&self) -> (r: &NodeId)
        ensures
            *r == self.spec_local_node_id(),
    {
        &self.local_node_id
    }

    /// Returns the `nodes` field.
    pub fn nodes(&self) -> (r: &Vec<DhtNode>)
        ensures
            *r == self.spec_nodes(),
    {
        &self.nodes
    }
}

/// A BitTorrent event payload produced by the engine.
#[derive(Debug, Clone, PartialEq, Eq)]
pub enum BtEventKind {
    /// A DHT announce event.
    DhtAnnounce(DhtAnnounce),
    /// Metadata was successfully received.
    MetadataReceived(MetadataReceived),
    /// Metadata failed to be received.
    MetadataFailed(MetadataFailed),
    /// DHT statistics were received.
    DhtStats(DhtStats),
    /// DHT bootstrap completed.
    DhtBootstrap(DhtBootstrap),
    /// A DHT get-peers event was received.
    DhtGetPeers(DhtGetPeers),
    /// A torrent-add operation completed.
    AddTorrent(AddTorrent),
    /// A torrent entered an error state.
    TorrentError(TorrentError),
    /// A file operation failed for a torrent.
    FileError(FileError),
    /// Deleting a torrent failed.
    TorrentDeleteFailed(TorrentDeleteFailed),
    /// The session reported an error.
    SessionError(SessionError),
    /// Listening on the configured port failed.
    ListenFailed(ListenFailed),
    /// A UDP operation failed.
    UdpError(UdpError),
    /// A DHT operation failed.
    DhtError(DhtError),
    /// The session dropped alerts before they were polled.
    AlertsDropped(AlertsDropped),
    /// Sample infohashes were received from a DHT node.
    DhtSampleInfohashes(DhtSampleInfohashes),
    /// A raw DHT packet was received or sent.
    DhtPkt(DhtPkt),
    /// Live nodes were reported for one local DHT routing table.
    DhtLiveNodes(DhtLiveNodes),
}

/// A BitTorrent event with its reception timestamp and event payload.
#[derive(Debug, Clone, PartialEq, Eq)]
pub struct BtEvent {
    timestamp: SystemTime,
    kind: BtEventKind,
}

impl BtEvent {
    /// The time at which the event was created.
    pub closed spec fn spec_timestamp(&self) -> SystemTime {
        self.timestamp
    }

    /// The event payload.
    pub closed spec fn spec_kind(&self) -> BtEventKind {
        self.kind
    }

    /// Creates an event stamped with the current system time.
    pub fn new(kind: BtEventKind) -> (r: Self)
        ensures
            r.spec_kind() == kind,
    {
        BtEvent { timestamp: system_time_now(), kind }
    }

    /// Returns the time at which the event was created by the Rust bridge.
    pub fn timestamp(&self) -> (r: SystemTime)
        ensures
            r == self.spec_timestamp(),
    {
        self.timestamp
    }

    /// Returns the event payload without consuming the event.
    pub fn kind(&self) -> (r: &BtEventKind)
        ensures
            *r == self.spec_kind(),
    {
        &self.kind
    }
}

} // verus!

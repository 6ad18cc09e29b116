//! Keys of the libtorrent settings pack.
//!
//! Each key's code is the libtorrent setting index: a type base
//! (strings `0x0000`, integers `0x4000`, booleans `0x8000`) plus the key's
//! offset within its type.

use vstd::prelude::*;

verus! {

/// Code base of string settings.
pub const STRING_TYPE_BASE: u16 = 0x0000;

/// Code base of integer settings.
pub const INT_TYPE_BASE: u16 = 0x4000;

/// Code base of boolean settings.
pub const BOOL_TYPE_BASE: u16 = 0x8000;

/// String settings defined by the current libtorrent ABI.
#[derive(Debug, Clone, Copy, PartialEq, Eq, Hash, Structural)]
pub enum StringSetting {
    /// The `user_agent` setting.
    UserAgent,
    /// The `announce_ip` setting.
    AnnounceIp,
    /// The `deprecated_mmap_cache` setting.
    DeprecatedMmapCache,
    /// The `handshake_client_version` setting.
    HandshakeClientVersion,
    /// The `outgoing_interfaces` setting.
    OutgoingInterfaces,
    /// The `listen_interfaces` setting.
    ListenInterfaces,
    /// The `proxy_hostname` setting.
    ProxyHostname,
    /// The `proxy_username` setting.
    ProxyUsername,
    /// The `proxy_password` setting.
    ProxyPassword,
    /// The `i2p_hostname` setting.
    I2pHostname,
    /// The `peer_fingerprint` setting.
    PeerFingerprint,
    /// The `dht_bootstrap_nodes` setting.
    DhtBootstrapNodes,
    /// The `natpmp_gateway` setting.
    NatpmpGateway,
    /// The `webtorrent_stun_server` setting.
    WebtorrentStunServer,
}

impl StringSetting {
    /// The libtorrent setting index of the key.
    pub open spec fn spec_code(self) -> u16 {
        match self {
            StringSetting::UserAgent => (STRING_TYPE_BASE + 0) as u16,
            StringSetting::AnnounceIp => (STRING_TYPE_BASE + 1) as u16,
            StringSetting::DeprecatedMmapCache => (STRING_TYPE_BASE + 2) as u16,
            StringSetting::HandshakeClientVersion => (STRING_TYPE_BASE + 3) as u16,
            StringSetting::OutgoingInterfaces => (STRING_TYPE_BASE + 4) as u16,
            StringSetting::ListenInterfaces => (STRING_TYPE_BASE + 5) as u16,
            StringSetting::ProxyHostname => (STRING_TYPE_BASE + 6) as u16,
            StringSetting::ProxyUsername => (STRING_TYPE_BASE + 7) as u16,
            StringSetting::ProxyPassword => (STRING_TYPE_BASE + 8) as u16,
            StringSetting::I2pHostname => (STRING_TYPE_BASE + 9) as u16,
            StringSetting::PeerFingerprint => (STRING_TYPE_BASE + 10) as u16,
            StringSetting::DhtBootstrapNodes => (STRING_TYPE_BASE + 11) as u16,
            StringSetting::NatpmpGateway => (STRING_TYPE_BASE + 12) as u16,
            StringSetting::WebtorrentStunServer => (STRING_TYPE_BASE + 13) as u16,
        }
    }

    /// Returns the libtorrent setting index of the key.
    pub fn code(self) -> (r: u16)
        ensures
            r == self.spec_code(),
            STRING_TYPE_BASE <= r,
            string_setting_at(r - STRING_TYPE_BASE) == Some(self),
    {
        proof {
            law_string_setting_code(self);
        }
        match self {
            StringSetting::UserAgent => STRING_TYPE_BASE + 0,
            StringSetting::AnnounceIp => STRING_TYPE_BASE + 1,
            StringSetting::DeprecatedMmapCache => STRING_TYPE_BASE + 2,
            StringSetting::HandshakeClientVersion => STRING_TYPE_BASE + 3,
            StringSetting::OutgoingInterfaces => STRING_TYPE_BASE + 4,
            StringSetting::ListenInterfaces => STRING_TYPE_BASE + 5,
            StringSetting::ProxyHostname => STRING_TYPE_BASE + 6,
            StringSetting::ProxyUsername => STRING_TYPE_BASE + 7,
            StringSetting::ProxyPassword => STRING_TYPE_BASE + 8,
            StringSetting::I2pHostname => STRING_TYPE_BASE + 9,
            StringSetting::PeerFingerprint => STRING_TYPE_BASE + 10,
            StringSetting::DhtBootstrapNodes => STRING_TYPE_BASE + 11,
            StringSetting::NatpmpGateway => STRING_TYPE_BASE + 12,
            StringSetting::WebtorrentStunServer => STRING_TYPE_BASE + 13,
        }
    }
}

/// Boolean settings defined by the current libtorrent ABI.
#[derive(Debug, Clone, Copy, PartialEq, Eq, Hash, Structural)]
pub enum BoolSetting {
    /// The `allow_multiple_connections_per_ip` setting.
    AllowMultipleConnectionsPerIp,
    /// The `deprecated_ignore_limits_on_local_network` setting.
    DeprecatedIgnoreLimitsOnLocalNetwork,
    /// The `send_redundant_have` setting.
    SendRedundantHave,
    /// The `deprecated_lazy_bitfield` setting.
    DeprecatedLazyBitfield,
    /// The `use_dht_as_fallback` setting.
    UseDhtAsFallback,
    /// The `upnp_ignore_nonrouters` setting.
    UpnpIgnoreNonrouters,
    /// The `use_parole_mode` setting.
    UseParoleMode,
    /// The `deprecated_use_read_cache` setting.
    DeprecatedUseReadCache,
    /// The `deprecated_use_write_cache` setting.
    DeprecatedUseWriteCache,
    /// The `deprecated_flush_write_cache` setting.
    DeprecatedFlushWriteCache,
    /// The `deprecated_coalesce_reads` setting.
    DeprecatedCoalesceReads,
    /// The `deprecated_coalesce_writes` setting.
    DeprecatedCoalesceWrites,
    /// The `auto_manage_prefer_seeds` setting.
    AutoManagePreferSeeds,
    /// The `dont_count_slow_torrents` setting.
    DontCountSlowTorrents,
    /// The `close_redundant_connections` setting.
    CloseRedundantConnections,
    /// The `prioritize_partial_pieces` setting.
    PrioritizePartialPieces,
    /// The `rate_limit_ip_overhead` setting.
    RateLimitIpOverhead,
    /// The `announce_to_all_tiers` setting.
    AnnounceToAllTiers,
    /// The `announce_to_all_trackers` setting.
    AnnounceToAllTrackers,
    /// The `prefer_udp_trackers` setting.
    PreferUdpTrackers,
    /// The `deprecated_strict_super_seeding` setting.
    DeprecatedStrictSuperSeeding,
    /// The `deprecated_lock_disk_cache` setting.
    DeprecatedLockDiskCache,
    /// The `disable_hash_checks` setting.
    DisableHashChecks,
    /// The `allow_i2p_mixed` setting.
    AllowI2pMixed,
    /// The `deprecated_low_prio_disk` setting.
    DeprecatedLowPrioDisk,
    /// The `deprecated_guided_read_cache` setting.
    DeprecatedGuidedReadCache,
    /// The `no_atime_storage` setting.
    NoAtimeStorage,
    /// The `incoming_starts_queued_torrents` setting.
    IncomingStartsQueuedTorrents,
    /// The `report_true_downloaded` setting.
    ReportTrueDownloaded,
    /// The `strict_end_game_mode` setting.
    StrictEndGameMode,
    /// The `deprecated_broadcast_lsd` setting.
    DeprecatedBroadcastLsd,
    /// The `enable_outgoing_utp` setting.
    EnableOutgoingUtp,
    /// The `enable_incoming_utp` setting.
    EnableIncomingUtp,
    /// The `enable_outgoing_tcp` setting.
    EnableOutgoingTcp,
    /// The `enable_incoming_tcp` setting.
    EnableIncomingTcp,
    /// The `deprecated_ignore_resume_timestamps` setting.
    DeprecatedIgnoreResumeTimestamps,
    /// The `no_recheck_incomplete_resume` setting.
    NoRecheckIncompleteResume,
    /// The `anonymous_mode` setting.
    AnonymousMode,
    /// The `report_web_seed_downloads` setting.
    ReportWebSeedDownloads,
    /// The `deprecated_rate_limit_utp` setting.
    DeprecatedRateLimitUtp,
    /// The `deprecated_announce_double_nat` setting.
    DeprecatedAnnounceDoubleNat,
    /// The `seeding_outgoing_connections` setting.
    SeedingOutgoingConnections,
    /// The `no_connect_privileged_ports` setting.
    NoConnectPrivilegedPorts,
    /// The `smooth_connects` setting.
    SmoothConnects,
    /// The `always_send_user_agent` setting.
    AlwaysSendUserAgent,
    /// The `apply_ip_filter_to_trackers` setting.
    ApplyIpFilterToTrackers,
    /// The `deprecated_use_disk_read_ahead` setting.
    DeprecatedUseDiskReadAhead,
    /// The `deprecated_lock_files` setting.
    DeprecatedLockFiles,
    /// The `deprecated_contiguous_recv_buffer` setting.
    DeprecatedContiguousRecvBuffer,
    /// The `ban_web_seeds` setting.
    BanWebSeeds,
    /// The `deprecated_force_proxy` setting.
    DeprecatedForceProxy,
    /// The `support_share_mode` setting.
    SupportShareMode,
    /// The `report_redundant_bytes` setting.
    ReportRedundantBytes,
    /// The `listen_system_port_fallback` setting.
    ListenSystemPortFallback,
    /// The `deprecated_use_disk_cache_pool` setting.
    DeprecatedUseDiskCachePool,
    /// The `announce_crypto_support` setting.
    AnnounceCryptoSupport,
    /// The `enable_upnp` setting.
    EnableUpnp,
    /// The `enable_natpmp` setting.
    EnableNatpmp,
    /// The `enable_lsd` setting.
    EnableLsd,
    /// The `enable_dht` setting.
    EnableDht,
    /// The `prefer_rc4` setting.
    PreferRc4,
    /// The `proxy_hostnames` setting.
    ProxyHostnames,
    /// The `proxy_peer_connections` setting.
    ProxyPeerConnections,
    /// The `auto_sequential` setting.
    AutoSequential,
    /// The `proxy_tracker_connections` setting.
    ProxyTrackerConnections,
    /// The `enable_ip_notifier` setting.
    EnableIpNotifier,
    /// The `dht_prefer_verified_node_ids` setting.
    DhtPreferVerifiedNodeIds,
    /// The `dht_restrict_routing_ips` setting.
    DhtRestrictRoutingIps,
    /// The `dht_restrict_search_ips` setting.
    DhtRestrictSearchIps,
    /// The `dht_extended_routing_table` setting.
    DhtExtendedRoutingTable,
    /// The `dht_aggressive_lookups` setting.
    DhtAggressiveLookups,
    /// The `dht_privacy_lookups` setting.
    DhtPrivacyLookups,
    /// The `dht_enforce_node_id` setting.
    DhtEnforceNodeId,
    /// The `dht_ignore_dark_internet` setting.
    DhtIgnoreDarkInternet,
    /// The `dht_read_only` setting.
    DhtReadOnly,
    /// The `piece_extent_affinity` setting.
    PieceExtentAffinity,
    /// The `validate_https_trackers` setting.
    ValidateHttpsTrackers,
    /// The `ssrf_mitigation` setting.
    SsrfMitigation,
    /// The `allow_idna` setting.
    AllowIdna,
    /// The `enable_set_file_valid_data` setting.
    EnableSetFileValidData,
    /// The `socks5_udp_send_local_ep` setting.
    Socks5UdpSendLocalEp,
    /// The `proxy_send_host_in_connect` setting.
    ProxySendHostInConnect,
    /// The `disk_disable_copy_on_write` setting.
    DiskDisableCopyOnWrite,
    /// The `allow_multiple_connections_per_pid` setting.
    AllowMultipleConnectionsPerPid,
    /// The `apply_filter_to_dht` setting.
    ApplyFilterToDht,
}

impl BoolSetting {
    /// The libtorrent setting index of the key.
    pub open spec fn spec_code(self) -> u16 {
        match self {
            BoolSetting::AllowMultipleConnectionsPerIp => (BOOL_TYPE_BASE + 0) as u16,
            BoolSetting::DeprecatedIgnoreLimitsOnLocalNetwork => (BOOL_TYPE_BASE + 1) as u16,
            BoolSetting::SendRedundantHave => (BOOL_TYPE_BASE + 2) as u16,
            BoolSetting::DeprecatedLazyBitfield => (BOOL_TYPE_BASE + 3) as u16,
            BoolSetting::UseDhtAsFallback => (BOOL_TYPE_BASE + 4) as u16,
            BoolSetting::UpnpIgnoreNonrouters => (BOOL_TYPE_BASE + 5) as u16,
            BoolSetting::UseParoleMode => (BOOL_TYPE_BASE + 6) as u16,
            BoolSetting::DeprecatedUseReadCache => (BOOL_TYPE_BASE + 7) as u16,
            BoolSetting::DeprecatedUseWriteCache => (BOOL_TYPE_BASE + 8) as u16,
            BoolSetting::DeprecatedFlushWriteCache => (BOOL_TYPE_BASE + 9) as u16,
            BoolSetting::DeprecatedCoalesceReads => (BOOL_TYPE_BASE + 10) as u16,
            BoolSetting::DeprecatedCoalesceWrites => (BOOL_TYPE_BASE + 11) as u16,
            BoolSetting::AutoManagePreferSeeds => (BOOL_TYPE_BASE + 12) as u16,
            BoolSetting::DontCountSlowTorrents => (BOOL_TYPE_BASE + 13) as u16,
            BoolSetting::CloseRedundantConnections => (BOOL_TYPE_BASE + 14) as u16,
            BoolSetting::PrioritizePartialPieces => (BOOL_TYPE_BASE + 15) as u16,
            BoolSetting::RateLimitIpOverhead => (BOOL_TYPE_BASE + 16) as u16,
            BoolSetting::AnnounceToAllTiers => (BOOL_TYPE_BASE + 17) as u16,
            BoolSetting::AnnounceToAllTrackers => (BOOL_TYPE_BASE + 18) as u16,
            BoolSetting::PreferUdpTrackers => (BOOL_TYPE_BASE + 19) as u16,
            BoolSetting::DeprecatedStrictSuperSeeding => (BOOL_TYPE_BASE + 20) as u16,
            BoolSetting::DeprecatedLockDiskCache => (BOOL_TYPE_BASE + 21) as u16,
            BoolSetting::DisableHashChecks => (BOOL_TYPE_BASE + 22) as u16,
            BoolSetting::AllowI2pMixed => (BOOL_TYPE_BASE + 23) as u16,
            BoolSetting::DeprecatedLowPrioDisk => (BOOL_TYPE_BASE + 24) as u16,
            BoolSetting::DeprecatedGuidedReadCache => (BOOL_TYPE_BASE + 25) as u16,
            BoolSetting::NoAtimeStorage => (BOOL_TYPE_BASE + 26) as u16,
            BoolSetting::IncomingStartsQueuedTorrents => (BOOL_TYPE_BASE + 27) as u16,
            BoolSetting::ReportTrueDownloaded => (BOOL_TYPE_BASE + 28) as u16,
            BoolSetting::StrictEndGameMode => (BOOL_TYPE_BASE + 29) as u16,
            BoolSetting::DeprecatedBroadcastLsd => (BOOL_TYPE_BASE + 30) as u16,
            BoolSetting::EnableOutgoingUtp => (BOOL_TYPE_BASE + 31) as u16,
            BoolSetting::EnableIncomingUtp => (BOOL_TYPE_BASE + 32) as u16,
            BoolSetting::EnableOutgoingTcp => (BOOL_TYPE_BASE + 33) as u16,
            BoolSetting::EnableIncomingTcp => (BOOL_TYPE_BASE + 34) as u16,
            BoolSetting::DeprecatedIgnoreResumeTimestamps => (BOOL_TYPE_BASE + 35) as u16,
            BoolSetting::NoRecheckIncompleteResume => (BOOL_TYPE_BASE + 36) as u16,
            BoolSetting::AnonymousMode => (BOOL_TYPE_BASE + 37) as u16,
            BoolSetting::ReportWebSeedDownloads => (BOOL_TYPE_BASE + 38) as u16,
            BoolSetting::DeprecatedRateLimitUtp => (BOOL_TYPE_BASE + 39) as u16,
            BoolSetting::DeprecatedAnnounceDoubleNat => (BOOL_TYPE_BASE + 40) as u16,
            BoolSetting::SeedingOutgoingConnections => (BOOL_TYPE_BASE + 41) as u16,
            BoolSetting::NoConnectPrivilegedPorts => (BOOL_TYPE_BASE + 42) as u16,
            BoolSetting::SmoothConnects => (BOOL_TYPE_BASE + 43) as u16,
            BoolSetting::AlwaysSendUserAgent => (BOOL_TYPE_BASE + 44) as u16,
            BoolSetting::ApplyIpFilterToTrackers => (BOOL_TYPE_BASE + 45) as u16,
            BoolSetting::DeprecatedUseDiskReadAhead => (BOOL_TYPE_BASE + 46) as u16,
            BoolSetting::DeprecatedLockFiles => (BOOL_TYPE_BASE + 47) as u16,
            BoolSetting::DeprecatedContiguousRecvBuffer => (BOOL_TYPE_BASE + 48) as u16,
            BoolSetting::BanWebSeeds => (BOOL_TYPE_BASE + 49) as u16,
            BoolSetting::DeprecatedForceProxy => (BOOL_TYPE_BASE + 50) as u16,
            BoolSetting::SupportShareMode => (BOOL_TYPE_BASE + 51) as u16,
            BoolSetting::ReportRedundantBytes => (BOOL_TYPE_BASE + 52) as u16,
            BoolSetting::ListenSystemPortFallback => (BOOL_TYPE_BASE + 53) as u16,
            BoolSetting::DeprecatedUseDiskCachePool => (BOOL_TYPE_BASE + 54) as u16,
            BoolSetting::AnnounceCryptoSupport => (BOOL_TYPE_BASE + 55) as u16,
            BoolSetting::EnableUpnp => (BOOL_TYPE_BASE + 56) as u16,
            BoolSetting::EnableNatpmp => (BOOL_TYPE_BASE + 57) as u16,
            BoolSetting::EnableLsd => (BOOL_TYPE_BASE + 58) as u16,
            BoolSetting::EnableDht => (BOOL_TYPE_BASE + 59) as u16,
            BoolSetting::PreferRc4 => (BOOL_TYPE_BASE + 60) as u16,
            BoolSetting::ProxyHostnames => (BOOL_TYPE_BASE + 61) as u16,
            BoolSetting::ProxyPeerConnections => (BOOL_TYPE_BASE + 62) as u16,
            BoolSetting::AutoSequential => (BOOL_TYPE_BASE + 63) as u16,
            BoolSetting::ProxyTrackerConnections => (BOOL_TYPE_BASE + 64) as u16,
            BoolSetting::EnableIpNotifier => (BOOL_TYPE_BASE + 65) as u16,
            BoolSetting::DhtPreferVerifiedNodeIds => (BOOL_TYPE_BASE + 66) as u16,
            BoolSetting::DhtRestrictRoutingIps => (BOOL_TYPE_BASE + 67) as u16,
            BoolSetting::DhtRestrictSearchIps => (BOOL_TYPE_BASE + 68) as u16,
            BoolSetting::DhtExtendedRoutingTable => (BOOL_TYPE_BASE + 69) as u16,
            BoolSetting::DhtAggressiveLookups => (BOOL_TYPE_BASE + 70) as u16,
            BoolSetting::DhtPrivacyLookups => (BOOL_TYPE_BASE + 71) as u16,
            BoolSetting::DhtEnforceNodeId => (BOOL_TYPE_BASE + 72) as u16,
            BoolSetting::DhtIgnoreDarkInternet => (BOOL_TYPE_BASE + 73) as u16,
            BoolSetting::DhtReadOnly => (BOOL_TYPE_BASE + 74) as u16,
            BoolSetting::PieceExtentAffinity => (BOOL_TYPE_BASE + 75) as u16,
            BoolSetting::ValidateHttpsTrackers => (BOOL_TYPE_BASE + 76) as u16,
            BoolSetting::SsrfMitigation => (BOOL_TYPE_BASE + 77) as u16,
            BoolSetting::AllowIdna => (BOOL_TYPE_BASE + 78) as u16,
            BoolSetting::EnableSetFileValidData => (BOOL_TYPE_BASE + 79) as u16,
            BoolSetting::Socks5UdpSendLocalEp => (BOOL_TYPE_BASE + 80) as u16,
            BoolSetting::ProxySendHostInConnect => (BOOL_TYPE_BASE + 81) as u16,
            BoolSetting::DiskDisableCopyOnWrite => (BOOL_TYPE_BASE + 82) as u16,
            BoolSetting::AllowMultipleConnectionsPerPid => (BOOL_TYPE_BASE + 83) as u16,
            BoolSetting::ApplyFilterToDht => (BOOL_TYPE_BASE + 84) as u16,
        }
    }

    /// Returns the libtorrent setting index of the key.
    pub fn code(self) -> (r: u16)
        ensures
            r == self.spec_code(),
            BOOL_TYPE_BASE <= r,
            bool_setting_at(r - BOOL_TYPE_BASE) == Some(self),
    {
        proof {
            law_bool_setting_code(self);
        }
        match self {
            BoolSetting::AllowMultipleConnectionsPerIp => BOOL_TYPE_BASE + 0,
            BoolSetting::DeprecatedIgnoreLimitsOnLocalNetwork => BOOL_TYPE_BASE + 1,
            BoolSetting::SendRedundantHave => BOOL_TYPE_BASE + 2,
            BoolSetting::DeprecatedLazyBitfield => BOOL_TYPE_BASE + 3,
            BoolSetting::UseDhtAsFallback => BOOL_TYPE_BASE + 4,
            BoolSetting::UpnpIgnoreNonrouters => BOOL_TYPE_BASE + 5,
            BoolSetting::UseParoleMode => BOOL_TYPE_BASE + 6,
            BoolSetting::DeprecatedUseReadCache => BOOL_TYPE_BASE + 7,
            BoolSetting::DeprecatedUseWriteCache => BOOL_TYPE_BASE + 8,
            BoolSetting::DeprecatedFlushWriteCache => BOOL_TYPE_BASE + 9,
            BoolSetting::DeprecatedCoalesceReads => BOOL_TYPE_BASE + 10,
            BoolSetting::DeprecatedCoalesceWrites => BOOL_TYPE_BASE + 11,
            BoolSetting::AutoManagePreferSeeds => BOOL_TYPE_BASE + 12,
            BoolSetting::DontCountSlowTorrents => BOOL_TYPE_BASE + 13,
            BoolSetting::CloseRedundantConnections => BOOL_TYPE_BASE + 14,
            BoolSetting::PrioritizePartialPieces => BOOL_TYPE_BASE + 15,
            BoolSetting::RateLimitIpOverhead => BOOL_TYPE_BASE + 16,
            BoolSetting::AnnounceToAllTiers => BOOL_TYPE_BASE + 17,
            BoolSetting::AnnounceToAllTrackers => BOOL_TYPE_BASE + 18,
            BoolSetting::PreferUdpTrackers => BOOL_TYPE_BASE + 19,
            BoolSetting::DeprecatedStrictSuperSeeding => BOOL_TYPE_BASE + 20,
            BoolSetting::DeprecatedLockDiskCache => BOOL_TYPE_BASE + 21,
            BoolSetting::DisableHashChecks => BOOL_TYPE_BASE + 22,
            BoolSetting::AllowI2pMixed => BOOL_TYPE_BASE + 23,
            BoolSetting::DeprecatedLowPrioDisk => BOOL_TYPE_BASE + 24,
            BoolSetting::DeprecatedGuidedReadCache => BOOL_TYPE_BASE + 25,
            BoolSetting::NoAtimeStorage => BOOL_TYPE_BASE + 26,
            BoolSetting::IncomingStartsQueuedTorrents => BOOL_TYPE_BASE + 27,
            BoolSetting::ReportTrueDownloaded => BOOL_TYPE_BASE + 28,
            BoolSetting::StrictEndGameMode => BOOL_TYPE_BASE + 29,
            BoolSetting::DeprecatedBroadcastLsd => BOOL_TYPE_BASE + 30,
            BoolSetting::EnableOutgoingUtp => BOOL_TYPE_BASE + 31,
            BoolSetting::EnableIncomingUtp => BOOL_TYPE_BASE + 32,
            BoolSetting::EnableOutgoingTcp => BOOL_TYPE_BASE + 33,
            BoolSetting::EnableIncomingTcp => BOOL_TYPE_BASE + 34,
            BoolSetting::DeprecatedIgnoreResumeTimestamps => BOOL_TYPE_BASE + 35,
            BoolSetting::NoRecheckIncompleteResume => BOOL_TYPE_BASE + 36,
            BoolSetting::AnonymousMode => BOOL_TYPE_BASE + 37,
            BoolSetting::ReportWebSeedDownloads => BOOL_TYPE_BASE + 38,
            BoolSetting::DeprecatedRateLimitUtp => BOOL_TYPE_BASE + 39,
            BoolSetting::DeprecatedAnnounceDoubleNat => BOOL_TYPE_BASE + 40,
            BoolSetting::SeedingOutgoingConnections => BOOL_TYPE_BASE + 41,
            BoolSetting::NoConnectPrivilegedPorts => BOOL_TYPE_BASE + 42,
            BoolSetting::SmoothConnects => BOOL_TYPE_BASE + 43,
            BoolSetting::AlwaysSendUserAgent => BOOL_TYPE_BASE + 44,
            BoolSetting::ApplyIpFilterToTrackers => BOOL_TYPE_BASE + 45,
            BoolSetting::DeprecatedUseDiskReadAhead => BOOL_TYPE_BASE + 46,
            BoolSetting::DeprecatedLockFiles => BOOL_TYPE_BASE + 47,
            BoolSetting::DeprecatedContiguousRecvBuffer => BOOL_TYPE_BASE + 48,
            BoolSetting::BanWebSeeds => BOOL_TYPE_BASE + 49,
            BoolSetting::DeprecatedForceProxy => BOOL_TYPE_BASE + 50,
            BoolSetting::SupportShareMode => BOOL_TYPE_BASE + 51,
            BoolSetting::ReportRedundantBytes => BOOL_TYPE_BASE + 52,
            BoolSetting::ListenSystemPortFallback => BOOL_TYPE_BASE + 53,
            BoolSetting::DeprecatedUseDiskCachePool => BOOL_TYPE_BASE + 54,
            BoolSetting::AnnounceCryptoSupport => BOOL_TYPE_BASE + 55,
            BoolSetting::EnableUpnp => BOOL_TYPE_BASE + 56,
            BoolSetting::EnableNatpmp => BOOL_TYPE_BASE + 57,
            BoolSetting::EnableLsd => BOOL_TYPE_BASE + 58,
            BoolSetting::EnableDht => BOOL_TYPE_BASE + 59,
            BoolSetting::PreferRc4 => BOOL_TYPE_BASE + 60,
            BoolSetting::ProxyHostnames => BOOL_TYPE_BASE + 61,
            BoolSetting::ProxyPeerConnections => BOOL_TYPE_BASE + 62,
            BoolSetting::AutoSequential => BOOL_TYPE_BASE + 63,
            BoolSetting::ProxyTrackerConnections => BOOL_TYPE_BASE + 64,
            BoolSetting::EnableIpNotifier => BOOL_TYPE_BASE + 65,
            BoolSetting::DhtPreferVerifiedNodeIds => BOOL_TYPE_BASE + 66,
            BoolSetting::DhtRestrictRoutingIps => BOOL_TYPE_BASE + 67,
            BoolSetting::DhtRestrictSearchIps => BOOL_TYPE_BASE + 68,
            BoolSetting::DhtExtendedRoutingTable => BOOL_TYPE_BASE + 69,
            BoolSetting::DhtAggressiveLookups => BOOL_TYPE_BASE + 70,
            BoolSetting::DhtPrivacyLookups => BOOL_TYPE_BASE + 71,
            BoolSetting::DhtEnforceNodeId => BOOL_TYPE_BASE + 72,
            BoolSetting::DhtIgnoreDarkInternet => BOOL_TYPE_BASE + 73,
            BoolSetting::DhtReadOnly => BOOL_TYPE_BASE + 74,
            BoolSetting::PieceExtentAffinity => BOOL_TYPE_BASE + 75,
            BoolSetting::ValidateHttpsTrackers => BOOL_TYPE_BASE + 76,
            BoolSetting::SsrfMitigation => BOOL_TYPE_BASE + 77,
            BoolSetting::AllowIdna => BOOL_TYPE_BASE + 78,
            BoolSetting::EnableSetFileValidData => BOOL_TYPE_BASE + 79,
            BoolSetting::Socks5UdpSendLocalEp => BOOL_TYPE_BASE + 80,
            BoolSetting::ProxySendHostInConnect => BOOL_TYPE_BASE + 81,
            BoolSetting::DiskDisableCopyOnWrite => BOOL_TYPE_BASE + 82,
            BoolSetting::AllowMultipleConnectionsPerPid => BOOL_TYPE_BASE + 83,
            BoolSetting::ApplyFilterToDht => BOOL_TYPE_BASE + 84,
        }
    }
}

/// Integer settings defined by the current libtorrent ABI.
#[derive(Debug, Clone, Copy, PartialEq, Eq, Hash, Structural)]
pub enum IntSetting {
    /// The `tracker_completion_timeout` setting.
    TrackerCompletionTimeout,
    /// The `tracker_receive_timeout` setting.
    TrackerReceiveTimeout,
    /// The `stop_tracker_timeout` setting.
    StopTrackerTimeout,
    /// The `tracker_maximum_response_length` setting.
    TrackerMaximumResponseLength,
    /// The `piece_timeout` setting.
    PieceTimeout,
    /// The `request_timeout` setting.
    RequestTimeout,
    /// The `request_queue_time` setting.
    RequestQueueTime,
    /// The `max_allowed_in_request_queue` setting.
    MaxAllowedInRequestQueue,
    /// The `max_out_request_queue` setting.
    MaxOutRequestQueue,
    /// The `whole_pieces_threshold` setting.
    WholePiecesThreshold,
    /// The `peer_timeout` setting.
    PeerTimeout,
    /// The `urlseed_timeout` setting.
    UrlseedTimeout,
    /// The `urlseed_pipeline_size` setting.
    UrlseedPipelineSize,
    /// The `urlseed_wait_retry` setting.
    UrlseedWaitRetry,
    /// The `file_pool_size` setting.
    FilePoolSize,
    /// The `max_failcount` setting.
    MaxFailcount,
    /// The `min_reconnect_time` setting.
    MinReconnectTime,
    /// The `peer_connect_timeout` setting.
    PeerConnectTimeout,
    /// The `connection_speed` setting.
    ConnectionSpeed,
    /// The `inactivity_timeout` setting.
    InactivityTimeout,
    /// The `unchoke_interval` setting.
    UnchokeInterval,
    /// The `optimistic_unchoke_interval` setting.
    OptimisticUnchokeInterval,
    /// The `num_want` setting.
    NumWant,
    /// The `initial_picker_threshold` setting.
    InitialPickerThreshold,
    /// The `allowed_fast_set_size` setting.
    AllowedFastSetSize,
    /// The `suggest_mode` setting.
    SuggestMode,
    /// The `max_queued_disk_bytes` setting.
    MaxQueuedDiskBytes,
    /// The `handshake_timeout` setting.
    HandshakeTimeout,
    /// The `send_buffer_low_watermark` setting.
    SendBufferLowWatermark,
    /// The `send_buffer_watermark` setting.
    SendBufferWatermark,
    /// The `send_buffer_watermark_factor` setting.
    SendBufferWatermarkFactor,
    /// The `choking_algorithm` setting.
    ChokingAlgorithm,
    /// The `seed_choking_algorithm` setting.
    SeedChokingAlgorithm,
    /// The `deprecated_cache_size` setting.
    DeprecatedCacheSize,
    /// The `deprecated_cache_buffer_chunk_size` setting.
    DeprecatedCacheBufferChunkSize,
    /// The `deprecated_cache_expiry` setting.
    DeprecatedCacheExpiry,
    /// The `disk_io_write_mode` setting.
    DiskIoWriteMode,
    /// The `disk_io_read_mode` setting.
    DiskIoReadMode,
    /// The `outgoing_port` setting.
    OutgoingPort,
    /// The `num_outgoing_ports` setting.
    NumOutgoingPorts,
    /// The `peer_dscp` setting.
    PeerDscp,
    /// The `peer_tos` setting.
    PeerTos,
    /// The `active_downloads` setting.
    ActiveDownloads,
    /// The `active_seeds` setting.
    ActiveSeeds,
    /// The `active_checking` setting.
    ActiveChecking,
    /// The `active_dht_limit` setting.
    ActiveDhtLimit,
    /// The `active_tracker_limit` setting.
    ActiveTrackerLimit,
    /// The `active_lsd_limit` setting.
    ActiveLsdLimit,
    /// The `active_limit` setting.
    ActiveLimit,
    /// The `deprecated_active_loaded_limit` setting.
    DeprecatedActiveLoadedLimit,
    /// The `auto_manage_interval` setting.
    AutoManageInterval,
    /// The `seed_time_limit` setting.
    SeedTimeLimit,
    /// The `auto_scrape_interval` setting.
    AutoScrapeInterval,
    /// The `auto_scrape_min_interval` setting.
    AutoScrapeMinInterval,
    /// The `max_peerlist_size` setting.
    MaxPeerlistSize,
    /// The `max_paused_peerlist_size` setting.
    MaxPausedPeerlistSize,
    /// The `min_announce_interval` setting.
    MinAnnounceInterval,
    /// The `auto_manage_startup` setting.
    AutoManageStartup,
    /// The `seeding_piece_quota` setting.
    SeedingPieceQuota,
    /// The `max_rejects` setting.
    MaxRejects,
    /// The `recv_socket_buffer_size` setting.
    RecvSocketBufferSize,
    /// The `send_socket_buffer_size` setting.
    SendSocketBufferSize,
    /// The `max_peer_recv_buffer_size` setting.
    MaxPeerRecvBufferSize,
    /// The `deprecated_file_checks_delay_per_block` setting.
    DeprecatedFileChecksDelayPerBlock,
    /// The `read_cache_line_size` setting.
    ReadCacheLineSize,
    /// The `write_cache_line_size` setting.
    WriteCacheLineSize,
    /// The `optimistic_disk_retry` setting.
    OptimisticDiskRetry,
    /// The `max_suggest_pieces` setting.
    MaxSuggestPieces,
    /// The `local_service_announce_interval` setting.
    LocalServiceAnnounceInterval,
    /// The `dht_announce_interval` setting.
    DhtAnnounceInterval,
    /// The `udp_tracker_token_expiry` setting.
    UdpTrackerTokenExpiry,
    /// The `deprecated_default_cache_min_age` setting.
    DeprecatedDefaultCacheMinAge,
    /// The `num_optimistic_unchoke_slots` setting.
    NumOptimisticUnchokeSlots,
    /// The `deprecated_default_est_reciprocation_rate` setting.
    DeprecatedDefaultEstReciprocationRate,
    /// The `deprecated_increase_est_reciprocation_rate` setting.
    DeprecatedIncreaseEstReciprocationRate,
    /// The `deprecated_decrease_est_reciprocation_rate` setting.
    DeprecatedDecreaseEstReciprocationRate,
    /// The `max_pex_peers` setting.
    MaxPexPeers,
    /// The `tick_interval` setting.
    TickInterval,
    /// The `share_mode_target` setting.
    ShareModeTarget,
    /// The `upload_rate_limit` setting.
    UploadRateLimit,
    /// The `download_rate_limit` setting.
    DownloadRateLimit,
    /// The `deprecated_local_upload_rate_limit` setting.
    DeprecatedLocalUploadRateLimit,
    /// The `deprecated_local_download_rate_limit` setting.
    DeprecatedLocalDownloadRateLimit,
    /// The `dht_upload_rate_limit` setting.
    DhtUploadRateLimit,
    /// The `unchoke_slots_limit` setting.
    UnchokeSlotsLimit,
    /// The `deprecated_half_open_limit` setting.
    DeprecatedHalfOpenLimit,
    /// The `connections_limit` setting.
    ConnectionsLimit,
    /// The `connections_slack` setting.
    ConnectionsSlack,
    /// The `utp_target_delay` setting.
    UtpTargetDelay,
    /// The `utp_gain_factor` setting.
    UtpGainFactor,
    /// The `utp_min_timeout` setting.
    UtpMinTimeout,
    /// The `utp_syn_resends` setting.
    UtpSynResends,
    /// The `utp_fin_resends` setting.
    UtpFinResends,
    /// The `utp_num_resends` setting.
    UtpNumResends,
    /// The `utp_connect_timeout` setting.
    UtpConnectTimeout,
    /// The `deprecated_utp_delayed_ack` setting.
    DeprecatedUtpDelayedAck,
    /// The `utp_loss_multiplier` setting.
    UtpLossMultiplier,
    /// The `mixed_mode_algorithm` setting.
    MixedModeAlgorithm,
    /// The `listen_queue_size` setting.
    ListenQueueSize,
    /// The `torrent_connect_boost` setting.
    TorrentConnectBoost,
    /// The `alert_queue_size` setting.
    AlertQueueSize,
    /// The `max_metadata_size` setting.
    MaxMetadataSize,
    /// The `hashing_threads` setting.
    HashingThreads,
    /// The `checking_mem_usage` setting.
    CheckingMemUsage,
    /// The `predictive_piece_announce` setting.
    PredictivePieceAnnounce,
    /// The `aio_threads` setting.
    AioThreads,
    /// The `deprecated_aio_max` setting.
    DeprecatedAioMax,
    /// The `deprecated_network_threads` setting.
    DeprecatedNetworkThreads,
    /// The `deprecated_ssl_listen` setting.
    DeprecatedSslListen,
    /// The `tracker_backoff` setting.
    TrackerBackoff,
    /// The `share_ratio_limit` setting.
    ShareRatioLimit,
    /// The `seed_time_ratio_limit` setting.
    SeedTimeRatioLimit,
    /// The `peer_turnover` setting.
    PeerTurnover,
    /// The `peer_turnover_cutoff` setting.
    PeerTurnoverCutoff,
    /// The `peer_turnover_interval` setting.
    PeerTurnoverInterval,
    /// The `connect_seed_every_n_download` setting.
    ConnectSeedEveryNDownload,
    /// The `max_http_recv_buffer_size` setting.
    MaxHttpRecvBufferSize,
    /// The `max_retry_port_bind` setting.
    MaxRetryPortBind,
    /// The `alert_mask` setting.
    AlertMask,
    /// The `out_enc_policy` setting.
    OutEncPolicy,
    /// The `in_enc_policy` setting.
    InEncPolicy,
    /// The `allowed_enc_level` setting.
    AllowedEncLevel,
    /// The `inactive_down_rate` setting.
    InactiveDownRate,
    /// The `inactive_up_rate` setting.
    InactiveUpRate,
    /// The `proxy_type` setting.
    ProxyType,
    /// The `proxy_port` setting.
    ProxyPort,
    /// The `i2p_port` setting.
    I2pPort,
    /// The `deprecated_cache_size_volatile` setting.
    DeprecatedCacheSizeVolatile,
    /// The `urlseed_max_request_bytes` setting.
    UrlseedMaxRequestBytes,
    /// The `web_seed_name_lookup_retry` setting.
    WebSeedNameLookupRetry,
    /// The `close_file_interval` setting.
    CloseFileInterval,
    /// The `utp_cwnd_reduce_timer` setting.
    UtpCwndReduceTimer,
    /// The `max_web_seed_connections` setting.
    MaxWebSeedConnections,
    /// The `resolver_cache_timeout` setting.
    ResolverCacheTimeout,
    /// The `send_not_sent_low_watermark` setting.
    SendNotSentLowWatermark,
    /// The `rate_choker_initial_threshold` setting.
    RateChokerInitialThreshold,
    /// The `upnp_lease_duration` setting.
    UpnpLeaseDuration,
    /// The `max_concurrent_http_announces` setting.
    MaxConcurrentHttpAnnounces,
    /// The `dht_max_peers_reply` setting.
    DhtMaxPeersReply,
    /// The `dht_search_branching` setting.
    DhtSearchBranching,
    /// The `dht_max_fail_count` setting.
    DhtMaxFailCount,
    /// The `dht_max_torrents` setting.
    DhtMaxTorrents,
    /// The `dht_max_dht_items` setting.
    DhtMaxDhtItems,
    /// The `dht_max_peers` setting.
    DhtMaxPeers,
    /// The `dht_max_torrent_search_reply` setting.
    DhtMaxTorrentSearchReply,
    /// The `dht_block_timeout` setting.
    DhtBlockTimeout,
    /// The `dht_block_ratelimit` setting.
    DhtBlockRatelimit,
    /// The `dht_item_lifetime` setting.
    DhtItemLifetime,
    /// The `dht_sample_infohashes_interval` setting.
    DhtSampleInfohashesInterval,
    /// The `dht_max_infohashes_sample_count` setting.
    DhtMaxInfohashesSampleCount,
    /// The `max_piece_count` setting.
    MaxPieceCount,
    /// The `metadata_token_limit` setting.
    MetadataTokenLimit,
    /// The `disk_write_mode` setting.
    DiskWriteMode,
    /// The `mmap_file_size_cutoff` setting.
    MmapFileSizeCutoff,
    /// The `i2p_inbound_quantity` setting.
    I2pInboundQuantity,
    /// The `i2p_outbound_quantity` setting.
    I2pOutboundQuantity,
    /// The `i2p_inbound_length` setting.
    I2pInboundLength,
    /// The `i2p_outbound_length` setting.
    I2pOutboundLength,
    /// The `announce_port` setting.
    AnnouncePort,
    /// The `i2p_inbound_length_variance` setting.
    I2pInboundLengthVariance,
    /// The `i2p_outbound_length_variance` setting.
    I2pOutboundLengthVariance,
    /// The `natpmp_lease_duration` setting.
    NatpmpLeaseDuration,
    /// The `min_websocket_announce_interval` setting.
    MinWebsocketAnnounceInterval,
    /// The `webtorrent_connection_timeout` setting.
    WebtorrentConnectionTimeout,
    /// The `max_webtorrent_offers` setting.
    MaxWebtorrentOffers,
}

impl IntSetting {
    /// The libtorrent setting index of the key.
    pub open spec fn spec_code(self) -> u16 {
        match self {
            IntSetting::TrackerCompletionTimeout => (INT_TYPE_BASE + 0) as u16,
            IntSetting::TrackerReceiveTimeout => (INT_TYPE_BASE + 1) as u16,
            IntSetting::StopTrackerTimeout => (INT_TYPE_BASE + 2) as u16,
            IntSetting::TrackerMaximumResponseLength => (INT_TYPE_BASE + 3) as u16,
            IntSetting::PieceTimeout => (INT_TYPE_BASE + 4) as u16,
            IntSetting::RequestTimeout => (INT_TYPE_BASE + 5) as u16,
            IntSetting::RequestQueueTime => (INT_TYPE_BASE + 6) as u16,
            IntSetting::MaxAllowedInRequestQueue => (INT_TYPE_BASE + 7) as u16,
            IntSetting::MaxOutRequestQueue => (INT_TYPE_BASE + 8) as u16,
            IntSetting::WholePiecesThreshold => (INT_TYPE_BASE + 9) as u16,
            IntSetting::PeerTimeout => (INT_TYPE_BASE + 10) as u16,
            IntSetting::UrlseedTimeout => (INT_TYPE_BASE + 11) as u16,
            IntSetting::UrlseedPipelineSize => (INT_TYPE_BASE + 12) as u16,
            IntSetting::UrlseedWaitRetry => (INT_TYPE_BASE + 13) as u16,
            IntSetting::FilePoolSize => (INT_TYPE_BASE + 14) as u16,
            IntSetting::MaxFailcount => (INT_TYPE_BASE + 15) as u16,
            IntSetting::MinReconnectTime => (INT_TYPE_BASE + 16) as u16,
            IntSetting::PeerConnectTimeout => (INT_TYPE_BASE + 17) as u16,
            IntSetting::ConnectionSpeed => (INT_TYPE_BASE + 18) as u16,
            IntSetting::InactivityTimeout => (INT_TYPE_BASE + 19) as u16,
            IntSetting::UnchokeInterval => (INT_TYPE_BASE + 20) as u16,
            IntSetting::OptimisticUnchokeInterval => (INT_TYPE_BASE + 21) as u16,
            IntSetting::NumWant => (INT_TYPE_BASE + 22) as u16,
            IntSetting::InitialPickerThreshold => (INT_TYPE_BASE + 23) as u16,
            IntSetting::AllowedFastSetSize => (INT_TYPE_BASE + 24) as u16,
            IntSetting::SuggestMode => (INT_TYPE_BASE + 25) as u16,
            IntSetting::MaxQueuedDiskBytes => (INT_TYPE_BASE + 26) as u16,
            IntSetting::HandshakeTimeout => (INT_TYPE_BASE + 27) as u16,
            IntSetting::SendBufferLowWatermark => (INT_TYPE_BASE + 28) as u16,
            IntSetting::SendBufferWatermark => (INT_TYPE_BASE + 29) as u16,
            IntSetting::SendBufferWatermarkFactor => (INT_TYPE_BASE + 30) as u16,
            IntSetting::ChokingAlgorithm => (INT_TYPE_BASE + 31) as u16,
            IntSetting::SeedChokingAlgorithm => (INT_TYPE_BASE + 32) as u16,
            IntSetting::DeprecatedCacheSize => (INT_TYPE_BASE + 33) as u16,
            IntSetting::DeprecatedCacheBufferChunkSize => (INT_TYPE_BASE + 34) as u16,
            IntSetting::DeprecatedCacheExpiry => (INT_TYPE_BASE + 35) as u16,
            IntSetting::DiskIoWriteMode => (INT_TYPE_BASE + 36) as u16,
            IntSetting::DiskIoReadMode => (INT_TYPE_BASE + 37) as u16,
            IntSetting::OutgoingPort => (INT_TYPE_BASE + 38) as u16,
            IntSetting::NumOutgoingPorts => (INT_TYPE_BASE + 39) as u16,
            IntSetting::PeerDscp => (INT_TYPE_BASE + 40) as u16,
            IntSetting::PeerTos => (INT_TYPE_BASE + 41) as u16,
            IntSetting::ActiveDownloads => (INT_TYPE_BASE + 42) as u16,
            IntSetting::ActiveSeeds => (INT_TYPE_BASE + 43) as u16,
            IntSetting::ActiveChecking => (INT_TYPE_BASE + 44) as u16,
            IntSetting::ActiveDhtLimit => (INT_TYPE_BASE + 45) as u16,
            IntSetting::ActiveTrackerLimit => (INT_TYPE_BASE + 46) as u16,
            IntSetting::ActiveLsdLimit => (INT_TYPE_BASE + 47) as u16,
            IntSetting::ActiveLimit => (INT_TYPE_BASE + 48) as u16,
            IntSetting::DeprecatedActiveLoadedLimit => (INT_TYPE_BASE + 49) as u16,
            IntSetting::AutoManageInterval => (INT_TYPE_BASE + 50) as u16,
            IntSetting::SeedTimeLimit => (INT_TYPE_BASE + 51) as u16,
            IntSetting::AutoScrapeInterval => (INT_TYPE_BASE + 52) as u16,
            IntSetting::AutoScrapeMinInterval => (INT_TYPE_BASE + 53) as u16,
            IntSetting::MaxPeerlistSize => (INT_TYPE_BASE + 54) as u16,
            IntSetting::MaxPausedPeerlistSize => (INT_TYPE_BASE + 55) as u16,
            IntSetting::MinAnnounceInterval => (INT_TYPE_BASE + 56) as u16,
            IntSetting::AutoManageStartup => (INT_TYPE_BASE + 57) as u16,
            IntSetting::SeedingPieceQuota => (INT_TYPE_BASE + 58) as u16,
            IntSetting::MaxRejects => (INT_TYPE_BASE + 59) as u16,
            IntSetting::RecvSocketBufferSize => (INT_TYPE_BASE + 60) as u16,
            IntSetting::SendSocketBufferSize => (INT_TYPE_BASE + 61) as u16,
            IntSetting::MaxPeerRecvBufferSize => (INT_TYPE_BASE + 62) as u16,
            IntSetting::DeprecatedFileChecksDelayPerBlock => (INT_TYPE_BASE + 63) as u16,
            IntSetting::ReadCacheLineSize => (INT_TYPE_BASE + 64) as u16,
            IntSetting::WriteCacheLineSize => (INT_TYPE_BASE + 65) as u16,
            IntSetting::OptimisticDiskRetry => (INT_TYPE_BASE + 66) as u16,
            IntSetting::MaxSuggestPieces => (INT_TYPE_BASE + 67) as u16,
            IntSetting::LocalServiceAnnounceInterval => (INT_TYPE_BASE + 68) as u16,
            IntSetting::DhtAnnounceInterval => (INT_TYPE_BASE + 69) as u16,
            IntSetting::UdpTrackerTokenExpiry => (INT_TYPE_BASE + 70) as u16,
            IntSetting::DeprecatedDefaultCacheMinAge => (INT_TYPE_BASE + 71) as u16,
            IntSetting::NumOptimisticUnchokeSlots => (INT_TYPE_BASE + 72) as u16,
            IntSetting::DeprecatedDefaultEstReciprocationRate => (INT_TYPE_BASE + 73) as u16,
            IntSetting::DeprecatedIncreaseEstReciprocationRate => (INT_TYPE_BASE + 74) as u16,
            IntSetting::DeprecatedDecreaseEstReciprocationRate => (INT_TYPE_BASE + 75) as u16,
            IntSetting::MaxPexPeers => (INT_TYPE_BASE + 76) as u16,
            IntSetting::TickInterval => (INT_TYPE_BASE + 77) as u16,
            IntSetting::ShareModeTarget => (INT_TYPE_BASE + 78) as u16,
            IntSetting::UploadRateLimit => (INT_TYPE_BASE + 79) as u16,
            IntSetting::DownloadRateLimit => (INT_TYPE_BASE + 80) as u16,
            IntSetting::DeprecatedLocalUploadRateLimit => (INT_TYPE_BASE + 81) as u16,
            IntSetting::DeprecatedLocalDownloadRateLimit => (INT_TYPE_BASE + 82) as u16,
            IntSetting::DhtUploadRateLimit => (INT_TYPE_BASE + 83) as u16,
            IntSetting::UnchokeSlotsLimit => (INT_TYPE_BASE + 84) as u16,
            IntSetting::DeprecatedHalfOpenLimit => (INT_TYPE_BASE + 85) as u16,
            IntSetting::ConnectionsLimit => (INT_TYPE_BASE + 86) as u16,
            IntSetting::ConnectionsSlack => (INT_TYPE_BASE + 87) as u16,
            IntSetting::UtpTargetDelay => (INT_TYPE_BASE + 88) as u16,
            IntSetting::UtpGainFactor => (INT_TYPE_BASE + 89) as u16,
            IntSetting::UtpMinTimeout => (INT_TYPE_BASE + 90) as u16,
            IntSetting::UtpSynResends => (INT_TYPE_BASE + 91) as u16,
            IntSetting::UtpFinResends => (INT_TYPE_BASE + 92) as u16,
            IntSetting::UtpNumResends => (INT_TYPE_BASE + 93) as u16,
            IntSetting::UtpConnectTimeout => (INT_TYPE_BASE + 94) as u16,
            IntSetting::DeprecatedUtpDelayedAck => (INT_TYPE_BASE + 95) as u16,
            IntSetting::UtpLossMultiplier => (INT_TYPE_BASE + 96) as u16,
            IntSetting::MixedModeAlgorithm => (INT_TYPE_BASE + 97) as u16,
            IntSetting::ListenQueueSize => (INT_TYPE_BASE + 98) as u16,
            IntSetting::TorrentConnectBoost => (INT_TYPE_BASE + 99) as u16,
            IntSetting::AlertQueueSize => (INT_TYPE_BASE + 100) as u16,
            IntSetting::MaxMetadataSize => (INT_TYPE_BASE + 101) as u16,
            IntSetting::HashingThreads => (INT_TYPE_BASE + 102) as u16,
            IntSetting::CheckingMemUsage => (INT_TYPE_BASE + 103) as u16,
            IntSetting::PredictivePieceAnnounce => (INT_TYPE_BASE + 104) as u16,
            IntSetting::AioThreads => (INT_TYPE_BASE + 105) as u16,
            IntSetting::DeprecatedAioMax => (INT_TYPE_BASE + 106) as u16,
            IntSetting::DeprecatedNetworkThreads => (INT_TYPE_BASE + 107) as u16,
            IntSetting::DeprecatedSslListen => (INT_TYPE_BASE + 108) as u16,
            IntSetting::TrackerBackoff => (INT_TYPE_BASE + 109) as u16,
            IntSetting::ShareRatioLimit => (INT_TYPE_BASE + 110) as u16,
            IntSetting::SeedTimeRatioLimit => (INT_TYPE_BASE + 111) as u16,
            IntSetting::PeerTurnover => (INT_TYPE_BASE + 112) as u16,
            IntSetting::PeerTurnoverCutoff => (INT_TYPE_BASE + 113) as u16,
            IntSetting::PeerTurnoverInterval => (INT_TYPE_BASE + 114) as u16,
            IntSetting::ConnectSeedEveryNDownload => (INT_TYPE_BASE + 115) as u16,
            IntSetting::MaxHttpRecvBufferSize => (INT_TYPE_BASE + 116) as u16,
            IntSetting::MaxRetryPortBind => (INT_TYPE_BASE + 117) as u16,
            IntSetting::AlertMask => (INT_TYPE_BASE + 118) as u16,
            IntSetting::OutEncPolicy => (INT_TYPE_BASE + 119) as u16,
            IntSetting::InEncPolicy => (INT_TYPE_BASE + 120) as u16,
            IntSetting::AllowedEncLevel => (INT_TYPE_BASE + 121) as u16,
            IntSetting::InactiveDownRate => (INT_TYPE_BASE + 122) as u16,
            IntSetting::InactiveUpRate => (INT_TYPE_BASE + 123) as u16,
            IntSetting::ProxyType => (INT_TYPE_BASE + 124) as u16,
            IntSetting::ProxyPort => (INT_TYPE_BASE + 125) as u16,
            IntSetting::I2pPort => (INT_TYPE_BASE + 126) as u16,
            IntSetting::DeprecatedCacheSizeVolatile => (INT_TYPE_BASE + 127) as u16,
            IntSetting::UrlseedMaxRequestBytes => (INT_TYPE_BASE + 128) as u16,
            IntSetting::WebSeedNameLookupRetry => (INT_TYPE_BASE + 129) as u16,
            IntSetting::CloseFileInterval => (INT_TYPE_BASE + 130) as u16,
            IntSetting::UtpCwndReduceTimer => (INT_TYPE_BASE + 131) as u16,
            IntSetting::MaxWebSeedConnections => (INT_TYPE_BASE + 132) as u16,
            IntSetting::ResolverCacheTimeout => (INT_TYPE_BASE + 133) as u16,
            IntSetting::SendNotSentLowWatermark => (INT_TYPE_BASE + 134) as u16,
            IntSetting::RateChokerInitialThreshold => (INT_TYPE_BASE + 135) as u16,
            IntSetting::UpnpLeaseDuration => (INT_TYPE_BASE + 136) as u16,
            IntSetting::MaxConcurrentHttpAnnounces => (INT_TYPE_BASE + 137) as u16,
            IntSetting::DhtMaxPeersReply => (INT_TYPE_BASE + 138) as u16,
            IntSetting::DhtSearchBranching => (INT_TYPE_BASE + 139) as u16,
            IntSetting::DhtMaxFailCount => (INT_TYPE_BASE + 140) as u16,
            IntSetting::DhtMaxTorrents => (INT_TYPE_BASE + 141) as u16,
            IntSetting::DhtMaxDhtItems => (INT_TYPE_BASE + 142) as u16,
            IntSetting::DhtMaxPeers => (INT_TYPE_BASE + 143) as u16,
            IntSetting::DhtMaxTorrentSearchReply => (INT_TYPE_BASE + 144) as u16,
            IntSetting::DhtBlockTimeout => (INT_TYPE_BASE + 145) as u16,
            IntSetting::DhtBlockRatelimit => (INT_TYPE_BASE + 146) as u16,
            IntSetting::DhtItemLifetime => (INT_TYPE_BASE + 147) as u16,
            IntSetting::DhtSampleInfohashesInterval => (INT_TYPE_BASE + 148) as u16,
            IntSetting::DhtMaxInfohashesSampleCount => (INT_TYPE_BASE + 149) as u16,
            IntSetting::MaxPieceCount => (INT_TYPE_BASE + 150) as u16,
            IntSetting::MetadataTokenLimit => (INT_TYPE_BASE + 151) as u16,
            IntSetting::DiskWriteMode => (INT_TYPE_BASE + 152) as u16,
            IntSetting::MmapFileSizeCutoff => (INT_TYPE_BASE + 153) as u16,
            IntSetting::I2pInboundQuantity => (INT_TYPE_BASE + 154) as u16,
            IntSetting::I2pOutboundQuantity => (INT_TYPE_BASE + 155) as u16,
            IntSetting::I2pInboundLength => (INT_TYPE_BASE + 156) as u16,
            IntSetting::I2pOutboundLength => (INT_TYPE_BASE + 157) as u16,
            IntSetting::AnnouncePort => (INT_TYPE_BASE + 158) as u16,
            IntSetting::I2pInboundLengthVariance => (INT_TYPE_BASE + 159) as u16,
            IntSetting::I2pOutboundLengthVariance => (INT_TYPE_BASE + 160) as u16,
            IntSetting::NatpmpLeaseDuration => (INT_TYPE_BASE + 161) as u16,
            IntSetting::MinWebsocketAnnounceInterval => (INT_TYPE_BASE + 162) as u16,
            IntSetting::WebtorrentConnectionTimeout => (INT_TYPE_BASE + 163) as u16,
            IntSetting::MaxWebtorrentOffers => (INT_TYPE_BASE + 164) as u16,
        }
    }

    /// Returns the libtorrent setting index of the key.
    pub fn code(self) -> (r: u16)
        ensures
            r == self.spec_code(),
            INT_TYPE_BASE <= r,
            int_setting_at(r - INT_TYPE_BASE) == Some(self),
    {
        proof {
            law_int_setting_code(self);
        }
        match self {
            IntSetting::TrackerCompletionTimeout => INT_TYPE_BASE + 0,
            IntSetting::TrackerReceiveTimeout => INT_TYPE_BASE + 1,
            IntSetting::StopTrackerTimeout => INT_TYPE_BASE + 2,
            IntSetting::TrackerMaximumResponseLength => INT_TYPE_BASE + 3,
            IntSetting::PieceTimeout => INT_TYPE_BASE + 4,
            IntSetting::RequestTimeout => INT_TYPE_BASE + 5,
            IntSetting::RequestQueueTime => INT_TYPE_BASE + 6,
            IntSetting::MaxAllowedInRequestQueue => INT_TYPE_BASE + 7,
            IntSetting::MaxOutRequestQueue => INT_TYPE_BASE + 8,
            IntSetting::WholePiecesThreshold => INT_TYPE_BASE + 9,
            IntSetting::PeerTimeout => INT_TYPE_BASE + 10,
            IntSetting::UrlseedTimeout => INT_TYPE_BASE + 11,
            IntSetting::UrlseedPipelineSize => INT_TYPE_BASE + 12,
            IntSetting::UrlseedWaitRetry => INT_TYPE_BASE + 13,
            IntSetting::FilePoolSize => INT_TYPE_BASE + 14,
            IntSetting::MaxFailcount => INT_TYPE_BASE + 15,
            IntSetting::MinReconnectTime => INT_TYPE_BASE + 16,
            IntSetting::PeerConnectTimeout => INT_TYPE_BASE + 17,
            IntSetting::ConnectionSpeed => INT_TYPE_BASE + 18,
            IntSetting::InactivityTimeout => INT_TYPE_BASE + 19,
            IntSetting::UnchokeInterval => INT_TYPE_BASE + 20,
            IntSetting::OptimisticUnchokeInterval => INT_TYPE_BASE + 21,
            IntSetting::NumWant => INT_TYPE_BASE + 22,
            IntSetting::InitialPickerThreshold => INT_TYPE_BASE + 23,
            IntSetting::AllowedFastSetSize => INT_TYPE_BASE + 24,
            IntSetting::SuggestMode => INT_TYPE_BASE + 25,
            IntSetting::MaxQueuedDiskBytes => INT_TYPE_BASE + 26,
            IntSetting::HandshakeTimeout => INT_TYPE_BASE + 27,
            IntSetting::SendBufferLowWatermark => INT_TYPE_BASE + 28,
            IntSetting::SendBufferWatermark => INT_TYPE_BASE + 29,
            IntSetting::SendBufferWatermarkFactor => INT_TYPE_BASE + 30,
            IntSetting::ChokingAlgorithm => INT_TYPE_BASE + 31,
            IntSetting::SeedChokingAlgorithm => INT_TYPE_BASE + 32,
            IntSetting::DeprecatedCacheSize => INT_TYPE_BASE + 33,
            IntSetting::DeprecatedCacheBufferChunkSize => INT_TYPE_BASE + 34,
            IntSetting::DeprecatedCacheExpiry => INT_TYPE_BASE + 35,
            IntSetting::DiskIoWriteMode => INT_TYPE_BASE + 36,
            IntSetting::DiskIoReadMode => INT_TYPE_BASE + 37,
            IntSetting::OutgoingPort => INT_TYPE_BASE + 38,
            IntSetting::NumOutgoingPorts => INT_TYPE_BASE + 39,
            IntSetting::PeerDscp => INT_TYPE_BASE + 40,
            IntSetting::PeerTos => INT_TYPE_BASE + 41,
            IntSetting::ActiveDownloads => INT_TYPE_BASE + 42,
            IntSetting::ActiveSeeds => INT_TYPE_BASE + 43,
            IntSetting::ActiveChecking => INT_TYPE_BASE + 44,
            IntSetting::ActiveDhtLimit => INT_TYPE_BASE + 45,
            IntSetting::ActiveTrackerLimit => INT_TYPE_BASE + 46,
            IntSetting::ActiveLsdLimit => INT_TYPE_BASE + 47,
            IntSetting::ActiveLimit => INT_TYPE_BASE + 48,
            IntSetting::DeprecatedActiveLoadedLimit => INT_TYPE_BASE + 49,
            IntSetting::AutoManageInterval => INT_TYPE_BASE + 50,
            IntSetting::SeedTimeLimit => INT_TYPE_BASE + 51,
            IntSetting::AutoScrapeInterval => INT_TYPE_BASE + 52,
            IntSetting::AutoScrapeMinInterval => INT_TYPE_BASE + 53,
            IntSetting::MaxPeerlistSize => INT_TYPE_BASE + 54,
            IntSetting::MaxPausedPeerlistSize => INT_TYPE_BASE + 55,
            IntSetting::MinAnnounceInterval => INT_TYPE_BASE + 56,
            IntSetting::AutoManageStartup => INT_TYPE_BASE + 57,
            IntSetting::SeedingPieceQuota => INT_TYPE_BASE + 58,
            IntSetting::MaxRejects => INT_TYPE_BASE + 59,
            IntSetting::RecvSocketBufferSize => INT_TYPE_BASE + 60,
            IntSetting::SendSocketBufferSize => INT_TYPE_BASE + 61,
            IntSetting::MaxPeerRecvBufferSize => INT_TYPE_BASE + 62,
            IntSetting::DeprecatedFileChecksDelayPerBlock => INT_TYPE_BASE + 63,
            IntSetting::ReadCacheLineSize => INT_TYPE_BASE + 64,
            IntSetting::WriteCacheLineSize => INT_TYPE_BASE + 65,
            IntSetting::OptimisticDiskRetry => INT_TYPE_BASE + 66,
            IntSetting::MaxSuggestPieces => INT_TYPE_BASE + 67,
            IntSetting::LocalServiceAnnounceInterval => INT_TYPE_BASE + 68,
            IntSetting::DhtAnnounceInterval => INT_TYPE_BASE + 69,
            IntSetting::UdpTrackerTokenExpiry => INT_TYPE_BASE + 70,
            IntSetting::DeprecatedDefaultCacheMinAge => INT_TYPE_BASE + 71,
            IntSetting::NumOptimisticUnchokeSlots => INT_TYPE_BASE + 72,
            IntSetting::DeprecatedDefaultEstReciprocationRate => INT_TYPE_BASE + 73,
            IntSetting::DeprecatedIncreaseEstReciprocationRate => INT_TYPE_BASE + 74,
            IntSetting::DeprecatedDecreaseEstReciprocationRate => INT_TYPE_BASE + 75,
            IntSetting::MaxPexPeers => INT_TYPE_BASE + 76,
            IntSetting::TickInterval => INT_TYPE_BASE + 77,
            IntSetting::ShareModeTarget => INT_TYPE_BASE + 78,
            IntSetting::UploadRateLimit => INT_TYPE_BASE + 79,
            IntSetting::DownloadRateLimit => INT_TYPE_BASE + 80,
            IntSetting::DeprecatedLocalUploadRateLimit => INT_TYPE_BASE + 81,
            IntSetting::DeprecatedLocalDownloadRateLimit => INT_TYPE_BASE + 82,
            IntSetting::DhtUploadRateLimit => INT_TYPE_BASE + 83,
            IntSetting::UnchokeSlotsLimit => INT_TYPE_BASE + 84,
            IntSetting::DeprecatedHalfOpenLimit => INT_TYPE_BASE + 85,
            IntSetting::ConnectionsLimit => INT_TYPE_BASE + 86,
            IntSetting::ConnectionsSlack => INT_TYPE_BASE + 87,
            IntSetting::UtpTargetDelay => INT_TYPE_BASE + 88,
            IntSetting::UtpGainFactor => INT_TYPE_BASE + 89,
            IntSetting::UtpMinTimeout => INT_TYPE_BASE + 90,
            IntSetting::UtpSynResends => INT_TYPE_BASE + 91,
            IntSetting::UtpFinResends => INT_TYPE_BASE + 92,
            IntSetting::UtpNumResends => INT_TYPE_BASE + 93,
            IntSetting::UtpConnectTimeout => INT_TYPE_BASE + 94,
            IntSetting::DeprecatedUtpDelayedAck => INT_TYPE_BASE + 95,
            IntSetting::UtpLossMultiplier => INT_TYPE_BASE + 96,
            IntSetting::MixedModeAlgorithm => INT_TYPE_BASE + 97,
            IntSetting::ListenQueueSize => INT_TYPE_BASE + 98,
            IntSetting::TorrentConnectBoost => INT_TYPE_BASE + 99,
            IntSetting::AlertQueueSize => INT_TYPE_BASE + 100,
            IntSetting::MaxMetadataSize => INT_TYPE_BASE + 101,
            IntSetting::HashingThreads => INT_TYPE_BASE + 102,
            IntSetting::CheckingMemUsage => INT_TYPE_BASE + 103,
            IntSetting::PredictivePieceAnnounce => INT_TYPE_BASE + 104,
            IntSetting::AioThreads => INT_TYPE_BASE + 105,
            IntSetting::DeprecatedAioMax => INT_TYPE_BASE + 106,
            IntSetting::DeprecatedNetworkThreads => INT_TYPE_BASE + 107,
            IntSetting::DeprecatedSslListen => INT_TYPE_BASE + 108,
            IntSetting::TrackerBackoff => INT_TYPE_BASE + 109,
            IntSetting::ShareRatioLimit => INT_TYPE_BASE + 110,
            IntSetting::SeedTimeRatioLimit => INT_TYPE_BASE + 111,
            IntSetting::PeerTurnover => INT_TYPE_BASE + 112,
            IntSetting::PeerTurnoverCutoff => INT_TYPE_BASE + 113,
            IntSetting::PeerTurnoverInterval => INT_TYPE_BASE + 114,
            IntSetting::ConnectSeedEveryNDownload => INT_TYPE_BASE + 115,
            IntSetting::MaxHttpRecvBufferSize => INT_TYPE_BASE + 116,
            IntSetting::MaxRetryPortBind => INT_TYPE_BASE + 117,
            IntSetting::AlertMask => INT_TYPE_BASE + 118,
            IntSetting::OutEncPolicy => INT_TYPE_BASE + 119,
            IntSetting::InEncPolicy => INT_TYPE_BASE + 120,
            IntSetting::AllowedEncLevel => INT_TYPE_BASE + 121,
            IntSetting::InactiveDownRate => INT_TYPE_BASE + 122,
            IntSetting::InactiveUpRate => INT_TYPE_BASE + 123,
            IntSetting::ProxyType => INT_TYPE_BASE + 124,
            IntSetting::ProxyPort => INT_TYPE_BASE + 125,
            IntSetting::I2pPort => INT_TYPE_BASE + 126,
            IntSetting::DeprecatedCacheSizeVolatile => INT_TYPE_BASE + 127,
            IntSetting::UrlseedMaxRequestBytes => INT_TYPE_BASE + 128,
            IntSetting::WebSeedNameLookupRetry => INT_TYPE_BASE + 129,
            IntSetting::CloseFileInterval => INT_TYPE_BASE + 130,
            IntSetting::UtpCwndReduceTimer => INT_TYPE_BASE + 131,
            IntSetting::MaxWebSeedConnections => INT_TYPE_BASE + 132,
            IntSetting::ResolverCacheTimeout => INT_TYPE_BASE + 133,
            IntSetting::SendNotSentLowWatermark => INT_TYPE_BASE + 134,
            IntSetting::RateChokerInitialThreshold => INT_TYPE_BASE + 135,
            IntSetting::UpnpLeaseDuration => INT_TYPE_BASE + 136,
            IntSetting::MaxConcurrentHttpAnnounces => INT_TYPE_BASE + 137,
            IntSetting::DhtMaxPeersReply => INT_TYPE_BASE + 138,
            IntSetting::DhtSearchBranching => INT_TYPE_BASE + 139,
            IntSetting::DhtMaxFailCount => INT_TYPE_BASE + 140,
            IntSetting::DhtMaxTorrents => INT_TYPE_BASE + 141,
            IntSetting::DhtMaxDhtItems => INT_TYPE_BASE + 142,
            IntSetting::DhtMaxPeers => INT_TYPE_BASE + 143,
            IntSetting::DhtMaxTorrentSearchReply => INT_TYPE_BASE + 144,
            IntSetting::DhtBlockTimeout => INT_TYPE_BASE + 145,
            IntSetting::DhtBlockRatelimit => INT_TYPE_BASE + 146,
            IntSetting::DhtItemLifetime => INT_TYPE_BASE + 147,
            IntSetting::DhtSampleInfohashesInterval => INT_TYPE_BASE + 148,
            IntSetting::DhtMaxInfohashesSampleCount => INT_TYPE_BASE + 149,
            IntSetting::MaxPieceCount => INT_TYPE_BASE + 150,
            IntSetting::MetadataTokenLimit => INT_TYPE_BASE + 151,
            IntSetting::DiskWriteMode => INT_TYPE_BASE + 152,
            IntSetting::MmapFileSizeCutoff => INT_TYPE_BASE + 153,
            IntSetting::I2pInboundQuantity => INT_TYPE_BASE + 154,
            IntSetting::I2pOutboundQuantity => INT_TYPE_BASE + 155,
            IntSetting::I2pInboundLength => INT_TYPE_BASE + 156,
            IntSetting::I2pOutboundLength => INT_TYPE_BASE + 157,
            IntSetting::AnnouncePort => INT_TYPE_BASE + 158,
            IntSetting::I2pInboundLengthVariance => INT_TYPE_BASE + 159,
            IntSetting::I2pOutboundLengthVariance => INT_TYPE_BASE + 160,
            IntSetting::NatpmpLeaseDuration => INT_TYPE_BASE + 161,
            IntSetting::MinWebsocketAnnounceInterval => INT_TYPE_BASE + 162,
            IntSetting::WebtorrentConnectionTimeout => INT_TYPE_BASE + 163,
            IntSetting::MaxWebtorrentOffers => INT_TYPE_BASE + 164,
        }
    }
}

/// The string key that libtorrent numbers `offset` among its string
/// settings, or `None` where it numbers none.
pub open spec fn string_setting_at(offset: int) -> Option<StringSetting> {
    if offset == 0 {
        // `user_agent`
        Some(StringSetting::UserAgent)
    } else if offset == 1 {
        // `announce_ip`
        Some(StringSetting::AnnounceIp)
    } else if offset == 2 {
        // `deprecated_mmap_cache`
        Some(StringSetting::DeprecatedMmapCache)
    } else if offset == 3 {
        // `handshake_client_version`
        Some(StringSetting::HandshakeClientVersion)
    } else if offset == 4 {
        // `outgoing_interfaces`
        Some(StringSetting::OutgoingInterfaces)
    } else if offset == 5 {
        // `listen_interfaces`
        Some(StringSetting::ListenInterfaces)
    } else if offset == 6 {
        // `proxy_hostname`
        Some(StringSetting::ProxyHostname)
    } else if offset == 7 {
        // `proxy_username`
        Some(StringSetting::ProxyUsername)
    } else if offset == 8 {
        // `proxy_password`
        Some(StringSetting::ProxyPassword)
    } else if offset == 9 {
        // `i2p_hostname`
        Some(StringSetting::I2pHostname)
    } else if offset == 10 {
        // `peer_fingerprint`
        Some(StringSetting::PeerFingerprint)
    } else if offset == 11 {
        // `dht_bootstrap_nodes`
        Some(StringSetting::DhtBootstrapNodes)
    } else if offset == 12 {
        // `natpmp_gateway`
        Some(StringSetting::NatpmpGateway)
    } else if offset == 13 {
        // `webtorrent_stun_server`
        Some(StringSetting::WebtorrentStunServer)
    } else {
        None
    }
}

/// Each string key's code is the string base plus the offset at which
/// libtorrent numbers that very key, and lies below the next type's base.
pub proof fn law_string_setting_code(key: StringSetting)
    ensures
        STRING_TYPE_BASE <= key.spec_code(),
        key.spec_code() < INT_TYPE_BASE,
        string_setting_at(key.spec_code() - STRING_TYPE_BASE) == Some(key),
{
}

/// Two string keys have the same code exactly when they are the same key.
pub proof fn law_string_setting_codes_distinct(a: StringSetting, b: StringSetting)
    ensures
        a.spec_code() == b.spec_code() <==> a == b,
{
    law_string_setting_code(a);
    law_string_setting_code(b);
}

/// The integer key that libtorrent numbers `offset` among its integer
/// settings, or `None` where it numbers none.
pub open spec fn int_setting_at(offset: int) -> Option<IntSetting> {
    if offset == 0 {
        // `tracker_completion_timeout`
        Some(IntSetting::TrackerCompletionTimeout)
    } else if offset == 1 {
        // `tracker_receive_timeout`
        Some(IntSetting::TrackerReceiveTimeout)
    } else if offset == 2 {
        // `stop_tracker_timeout`
        Some(IntSetting::StopTrackerTimeout)
    } else if offset == 3 {
        // `tracker_maximum_response_length`
        Some(IntSetting::TrackerMaximumResponseLength)
    } else if offset == 4 {
        // `piece_timeout`
        Some(IntSetting::PieceTimeout)
    } else if offset == 5 {
        // `request_timeout`
        Some(IntSetting::RequestTimeout)
    } else if offset == 6 {
        // `request_queue_time`
        Some(IntSetting::RequestQueueTime)
    } else if offset == 7 {
        // `max_allowed_in_request_queue`
        Some(IntSetting::MaxAllowedInRequestQueue)
    } else if offset == 8 {
        // `max_out_request_queue`
        Some(IntSetting::MaxOutRequestQueue)
    } else if offset == 9 {
        // `whole_pieces_threshold`
        Some(IntSetting::WholePiecesThreshold)
    } else if offset == 10 {
        // `peer_timeout`
        Some(IntSetting::PeerTimeout)
    } else if offset == 11 {
        // `urlseed_timeout`
        Some(IntSetting::UrlseedTimeout)
    } else if offset == 12 {
        // `urlseed_pipeline_size`
        Some(IntSetting::UrlseedPipelineSize)
    } else if offset == 13 {
        // `urlseed_wait_retry`
        Some(IntSetting::UrlseedWaitRetry)
    } else if offset == 14 {
        // `file_pool_size`
        Some(IntSetting::FilePoolSize)
    } else if offset == 15 {
        // `max_failcount`
        Some(IntSetting::MaxFailcount)
    } else if offset == 16 {
        // `min_reconnect_time`
        Some(IntSetting::MinReconnectTime)
    } else if offset == 17 {
        // `peer_connect_timeout`
        Some(IntSetting::PeerConnectTimeout)
    } else if offset == 18 {
        // `connection_speed`
        Some(IntSetting::ConnectionSpeed)
    } else if offset == 19 {
        // `inactivity_timeout`
        Some(IntSetting::InactivityTimeout)
    } else if offset == 20 {
        // `unchoke_interval`
        Some(IntSetting::UnchokeInterval)
    } else if offset == 21 {
        // `optimistic_unchoke_interval`
        Some(IntSetting::OptimisticUnchokeInterval)
    } else if offset == 22 {
        // `num_want`
        Some(IntSetting::NumWant)
    } else if offset == 23 {
        // `initial_picker_threshold`
        Some(IntSetting::InitialPickerThreshold)
    } else if offset == 24 {
        // `allowed_fast_set_size`
        Some(IntSetting::AllowedFastSetSize)
    } else if offset == 25 {
        // `suggest_mode`
        Some(IntSetting::SuggestMode)
    } else if offset == 26 {
        // `max_queued_disk_bytes`
        Some(IntSetting::MaxQueuedDiskBytes)
    } else if offset == 27 {
        // `handshake_timeout`
        Some(IntSetting::HandshakeTimeout)
    } else if offset == 28 {
        // `send_buffer_low_watermark`
        Some(IntSetting::SendBufferLowWatermark)
    } else if offset == 29 {
        // `send_buffer_watermark`
        Some(IntSetting::SendBufferWatermark)
    } else if offset == 30 {
        // `send_buffer_watermark_factor`
        Some(IntSetting::SendBufferWatermarkFactor)
    } else if offset == 31 {
        // `choking_algorithm`
        Some(IntSetting::ChokingAlgorithm)
    } else if offset == 32 {
        // `seed_choking_algorithm`
        Some(IntSetting::SeedChokingAlgorithm)
    } else if offset == 33 {
        // `deprecated_cache_size`
        Some(IntSetting::DeprecatedCacheSize)
    } else if offset == 34 {
        // `deprecated_cache_buffer_chunk_size`
        Some(IntSetting::DeprecatedCacheBufferChunkSize)
    } else if offset == 35 {
        // `deprecated_cache_expiry`
        Some(IntSetting::DeprecatedCacheExpiry)
    } else if offset == 36 {
        // `disk_io_write_mode`
        Some(IntSetting::DiskIoWriteMode)
    } else if offset == 37 {
        // `disk_io_read_mode`
        Some(IntSetting::DiskIoReadMode)
    } else if offset == 38 {
        // `outgoing_port`
        Some(IntSetting::OutgoingPort)
    } else if offset == 39 {
        // `num_outgoing_ports`
        Some(IntSetting::NumOutgoingPorts)
    } else if offset == 40 {
        // `peer_dscp`
        Some(IntSetting::PeerDscp)
    } else if offset == 41 {
        // `peer_tos`
        Some(IntSetting::PeerTos)
    } else if offset == 42 {
        // `active_downloads`
        Some(IntSetting::ActiveDownloads)
    } else if offset == 43 {
        // `active_seeds`
        Some(IntSetting::ActiveSeeds)
    } else if offset == 44 {
        // `active_checking`
        Some(IntSetting::ActiveChecking)
    } else if offset == 45 {
        // `active_dht_limit`
        Some(IntSetting::ActiveDhtLimit)
    } else if offset == 46 {
        // `active_tracker_limit`
        Some(IntSetting::ActiveTrackerLimit)
    } else if offset == 47 {
        // `active_lsd_limit`
        Some(IntSetting::ActiveLsdLimit)
    } else if offset == 48 {
        // `active_limit`
        Some(IntSetting::ActiveLimit)
    } else if offset == 49 {
        // `deprecated_active_loaded_limit`
        Some(IntSetting::DeprecatedActiveLoadedLimit)
    } else if offset == 50 {
        // `auto_manage_interval`
        Some(IntSetting::AutoManageInterval)
    } else if offset == 51 {
        // `seed_time_limit`
        Some(IntSetting::SeedTimeLimit)
    } else if offset == 52 {
        // `auto_scrape_interval`
        Some(IntSetting::AutoScrapeInterval)
    } else if offset == 53 {
        // `auto_scrape_min_interval`
        Some(IntSetting::AutoScrapeMinInterval)
    } else if offset == 54 {
        // `max_peerlist_size`
        Some(IntSetting::MaxPeerlistSize)
    } else if offset == 55 {
        // `max_paused_peerlist_size`
        Some(IntSetting::MaxPausedPeerlistSize)
    } else if offset == 56 {
        // `min_announce_interval`
        Some(IntSetting::MinAnnounceInterval)
    } else if offset == 57 {
        // `auto_manage_startup`
        Some(IntSetting::AutoManageStartup)
    } else if offset == 58 {
        // `seeding_piece_quota`
        Some(IntSetting::SeedingPieceQuota)
    } else if offset == 59 {
        // `max_rejects`
        Some(IntSetting::MaxRejects)
    } else if offset == 60 {
        // `recv_socket_buffer_size`
        Some(IntSetting::RecvSocketBufferSize)
    } else if offset == 61 {
        // `send_socket_buffer_size`
        Some(IntSetting::SendSocketBufferSize)
    } else if offset == 62 {
        // `max_peer_recv_buffer_size`
        Some(IntSetting::MaxPeerRecvBufferSize)
    } else if offset == 63 {
        // `deprecated_file_checks_delay_per_block`
        Some(IntSetting::DeprecatedFileChecksDelayPerBlock)
    } else if offset == 64 {
        // `read_cache_line_size`
        Some(IntSetting::ReadCacheLineSize)
    } else if offset == 65 {
        // `write_cache_line_size`
        Some(IntSetting::WriteCacheLineSize)
    } else if offset == 66 {
        // `optimistic_disk_retry`
        Some(IntSetting::OptimisticDiskRetry)
    } else if offset == 67 {
        // `max_suggest_pieces`
        Some(IntSetting::MaxSuggestPieces)
    } else if offset == 68 {
        // `local_service_announce_interval`
        Some(IntSetting::LocalServiceAnnounceInterval)
    } else if offset == 69 {
        // `dht_announce_interval`
        Some(IntSetting::DhtAnnounceInterval)
    } else if offset == 70 {
        // `udp_tracker_token_expiry`
        Some(IntSetting::UdpTrackerTokenExpiry)
    } else if offset == 71 {
        // `deprecated_default_cache_min_age`
        Some(IntSetting::DeprecatedDefaultCacheMinAge)
    } else if offset == 72 {
        // `num_optimistic_unchoke_slots`
        Some(IntSetting::NumOptimisticUnchokeSlots)
    } else if offset == 73 {
        // `deprecated_default_est_reciprocation_rate`
        Some(IntSetting::DeprecatedDefaultEstReciprocationRate)
    } else if offset == 74 {
        // `deprecated_increase_est_reciprocation_rate`
        Some(IntSetting::DeprecatedIncreaseEstReciprocationRate)
    } else if offset == 75 {
        // `deprecated_decrease_est_reciprocation_rate`
        Some(IntSetting::DeprecatedDecreaseEstReciprocationRate)
    } else if offset == 76 {
        // `max_pex_peers`
        Some(IntSetting::MaxPexPeers)
    } else if offset == 77 {
        // `tick_interval`
        Some(IntSetting::TickInterval)
    } else if offset == 78 {
        // `share_mode_target`
        Some(IntSetting::ShareModeTarget)
    } else if offset == 79 {
        // `upload_rate_limit`
        Some(IntSetting::UploadRateLimit)
    } else if offset == 80 {
        // `download_rate_limit`
        Some(IntSetting::DownloadRateLimit)
    } else if offset == 81 {
        // `deprecated_local_upload_rate_limit`
        Some(IntSetting::DeprecatedLocalUploadRateLimit)
    } else if offset == 82 {
        // `deprecated_local_download_rate_limit`
        Some(IntSetting::DeprecatedLocalDownloadRateLimit)
    } else if offset == 83 {
        // `dht_upload_rate_limit`
        Some(IntSetting::DhtUploadRateLimit)
    } else if offset == 84 {
        // `unchoke_slots_limit`
        Some(IntSetting::UnchokeSlotsLimit)
    } else if offset == 85 {
        // `deprecated_half_open_limit`
        Some(IntSetting::DeprecatedHalfOpenLimit)
    } else if offset == 86 {
        // `connections_limit`
        Some(IntSetting::ConnectionsLimit)
    } else if offset == 87 {
        // `connections_slack`
        Some(IntSetting::ConnectionsSlack)
    } else if offset == 88 {
        // `utp_target_delay`
        Some(IntSetting::UtpTargetDelay)
    } else if offset == 89 {
        // `utp_gain_factor`
        Some(IntSetting::UtpGainFactor)
    } else if offset == 90 {
        // `utp_min_timeout`
        Some(IntSetting::UtpMinTimeout)
    } else if offset == 91 {
        // `utp_syn_resends`
        Some(IntSetting::UtpSynResends)
    } else if offset == 92 {
        // `utp_fin_resends`
        Some(IntSetting::UtpFinResends)
    } else if offset == 93 {
        // `utp_num_resends`
        Some(IntSetting::UtpNumResends)
    } else if offset == 94 {
        // `utp_connect_timeout`
        Some(IntSetting::UtpConnectTimeout)
    } else if offset == 95 {
        // `deprecated_utp_delayed_ack`
        Some(IntSetting::DeprecatedUtpDelayedAck)
    } else if offset == 96 {
        // `utp_loss_multiplier`
        Some(IntSetting::UtpLossMultiplier)
    } else if offset == 97 {
        // `mixed_mode_algorithm`
        Some(IntSetting::MixedModeAlgorithm)
    } else if offset == 98 {
        // `listen_queue_size`
        Some(IntSetting::ListenQueueSize)
    } else if offset == 99 {
        // `torrent_connect_boost`
        Some(IntSetting::TorrentConnectBoost)
    } else if offset == 100 {
        // `alert_queue_size`
        Some(IntSetting::AlertQueueSize)
    } else if offset == 101 {
        // `max_metadata_size`
        Some(IntSetting::MaxMetadataSize)
    } else if offset == 102 {
        // `hashing_threads`
        Some(IntSetting::HashingThreads)
    } else if offset == 103 {
        // `checking_mem_usage`
        Some(IntSetting::CheckingMemUsage)
    } else if offset == 104 {
        // `predictive_piece_announce`
        Some(IntSetting::PredictivePieceAnnounce)
    } else if offset == 105 {
        // `aio_threads`
        Some(IntSetting::AioThreads)
    } else if offset == 106 {
        // `deprecated_aio_max`
        Some(IntSetting::DeprecatedAioMax)
    } else if offset == 107 {
        // `deprecated_network_threads`
        Some(IntSetting::DeprecatedNetworkThreads)
    } else if offset == 108 {
        // `deprecated_ssl_listen`
        Some(IntSetting::DeprecatedSslListen)
    } else if offset == 109 {
        // `tracker_backoff`
        Some(IntSetting::TrackerBackoff)
    } else if offset == 110 {
        // `share_ratio_limit`
        Some(IntSetting::ShareRatioLimit)
    } else if offset == 111 {
        // `seed_time_ratio_limit`
        Some(IntSetting::SeedTimeRatioLimit)
    } else if offset == 112 {
        // `peer_turnover`
        Some(IntSetting::PeerTurnover)
    } else if offset == 113 {
        // `peer_turnover_cutoff`
        Some(IntSetting::PeerTurnoverCutoff)
    } else if offset == 114 {
        // `peer_turnover_interval`
        Some(IntSetting::PeerTurnoverInterval)
    } else if offset == 115 {
        // `connect_seed_every_n_download`
        Some(IntSetting::ConnectSeedEveryNDownload)
    } else if offset == 116 {
        // `max_http_recv_buffer_size`
        Some(IntSetting::MaxHttpRecvBufferSize)
    } else if offset == 117 {
        // `max_retry_port_bind`
        Some(IntSetting::MaxRetryPortBind)
    } else if offset == 118 {
        // `alert_mask`
        Some(IntSetting::AlertMask)
    } else if offset == 119 {
        // `out_enc_policy`
        Some(IntSetting::OutEncPolicy)
    } else if offset == 120 {
        // `in_enc_policy`
        Some(IntSetting::InEncPolicy)
    } else if offset == 121 {
        // `allowed_enc_level`
        Some(IntSetting::AllowedEncLevel)
    } else if offset == 122 {
        // `inactive_down_rate`
        Some(IntSetting::InactiveDownRate)
    } else if offset == 123 {
        // `inactive_up_rate`
        Some(IntSetting::InactiveUpRate)
    } else if offset == 124 {
        // `proxy_type`
        Some(IntSetting::ProxyType)
    } else if offset == 125 {
        // `proxy_port`
        Some(IntSetting::ProxyPort)
    } else if offset == 126 {
        // `i2p_port`
        Some(IntSetting::I2pPort)
    } else if offset == 127 {
        // `deprecated_cache_size_volatile`
        Some(IntSetting::DeprecatedCacheSizeVolatile)
    } else if offset == 128 {
        // `urlseed_max_request_bytes`
        Some(IntSetting::UrlseedMaxRequestBytes)
    } else if offset == 129 {
        // `web_seed_name_lookup_retry`
        Some(IntSetting::WebSeedNameLookupRetry)
    } else if offset == 130 {
        // `close_file_interval`
        Some(IntSetting::CloseFileInterval)
    } else if offset == 131 {
        // `utp_cwnd_reduce_timer`
        Some(IntSetting::UtpCwndReduceTimer)
    } else if offset == 132 {
        // `max_web_seed_connections`
        Some(IntSetting::MaxWebSeedConnections)
    } else if offset == 133 {
        // `resolver_cache_timeout`
        Some(IntSetting::ResolverCacheTimeout)
    } else if offset == 134 {
        // `send_not_sent_low_watermark`
        Some(IntSetting::SendNotSentLowWatermark)
    } else if offset == 135 {
        // `rate_choker_initial_threshold`
        Some(IntSetting::RateChokerInitialThreshold)
    } else if offset == 136 {
        // `upnp_lease_duration`
        Some(IntSetting::UpnpLeaseDuration)
    } else if offset == 137 {
        // `max_concurrent_http_announces`
        Some(IntSetting::MaxConcurrentHttpAnnounces)
    } else if offset == 138 {
        // `dht_max_peers_reply`
        Some(IntSetting::DhtMaxPeersReply)
    } else if offset == 139 {
        // `dht_search_branching`
        Some(IntSetting::DhtSearchBranching)
    } else if offset == 140 {
        // `dht_max_fail_count`
        Some(IntSetting::DhtMaxFailCount)
    } else if offset == 141 {
        // `dht_max_torrents`
        Some(IntSetting::DhtMaxTorrents)
    } else if offset == 142 {
        // `dht_max_dht_items`
        Some(IntSetting::DhtMaxDhtItems)
    } else if offset == 143 {
        // `dht_max_peers`
        Some(IntSetting::DhtMaxPeers)
    } else if offset == 144 {
        // `dht_max_torrent_search_reply`
        Some(IntSetting::DhtMaxTorrentSearchReply)
    } else if offset == 145 {
        // `dht_block_timeout`
        Some(IntSetting::DhtBlockTimeout)
    } else if offset == 146 {
        // `dht_block_ratelimit`
        Some(IntSetting::DhtBlockRatelimit)
    } else if offset == 147 {
        // `dht_item_lifetime`
        Some(IntSetting::DhtItemLifetime)
    } else if offset == 148 {
        // `dht_sample_infohashes_interval`
        Some(IntSetting::DhtSampleInfohashesInterval)
    } else if offset == 149 {
        // `dht_max_infohashes_sample_count`
        Some(IntSetting::DhtMaxInfohashesSampleCount)
    } else if offset == 150 {
        // `max_piece_count`
        Some(IntSetting::MaxPieceCount)
    } else if offset == 151 {
        // `metadata_token_limit`
        Some(IntSetting::MetadataTokenLimit)
    } else if offset == 152 {
        // `disk_write_mode`
        Some(IntSetting::DiskWriteMode)
    } else if offset == 153 {
        // `mmap_file_size_cutoff`
        Some(IntSetting::MmapFileSizeCutoff)
    } else if offset == 154 {
        // `i2p_inbound_quantity`
        Some(IntSetting::I2pInboundQuantity)
    } else if offset == 155 {
        // `i2p_outbound_quantity`
        Some(IntSetting::I2pOutboundQuantity)
    } else if offset == 156 {
        // `i2p_inbound_length`
        Some(IntSetting::I2pInboundLength)
    } else if offset == 157 {
        // `i2p_outbound_length`
        Some(IntSetting::I2pOutboundLength)
    } else if offset == 158 {
        // `announce_port`
        Some(IntSetting::AnnouncePort)
    } else if offset == 159 {
        // `i2p_inbound_length_variance`
        Some(IntSetting::I2pInboundLengthVariance)
    } else if offset == 160 {
        // `i2p_outbound_length_variance`
        Some(IntSetting::I2pOutboundLengthVariance)
    } else if offset == 161 {
        // `natpmp_lease_duration`
        Some(IntSetting::NatpmpLeaseDuration)
    } else if offset == 162 {
        // `min_websocket_announce_interval`
        Some(IntSetting::MinWebsocketAnnounceInterval)
    } else if offset == 163 {
        // `webtorrent_connection_timeout`
        Some(IntSetting::WebtorrentConnectionTimeout)
    } else if offset == 164 {
        // `max_webtorrent_offers`
        Some(IntSetting::MaxWebtorrentOffers)
    } else {
        None
    }
}

/// Each integer key's code is the integer base plus the offset at which
/// libtorrent numbers that very key, and lies below the next type's base.
pub proof fn law_int_setting_code(key: IntSetting)
    ensures
        INT_TYPE_BASE <= key.spec_code(),
        key.spec_code() < BOOL_TYPE_BASE,
        int_setting_at(key.spec_code() - INT_TYPE_BASE) == Some(key),
{
}

/// Two integer keys have the same code exactly when they are the same key.
pub proof fn law_int_setting_codes_distinct(a: IntSetting, b: IntSetting)
    ensures
        a.spec_code() == b.spec_code() <==> a == b,
{
    law_int_setting_code(a);
    law_int_setting_code(b);
}

/// The boolean key that libtorrent numbers `offset` among its boolean
/// settings, or `None` where it numbers none.
pub open spec fn bool_setting_at(offset: int) -> Option<BoolSetting> {
    if offset == 0 {
        // `allow_multiple_connections_per_ip`
        Some(BoolSetting::AllowMultipleConnectionsPerIp)
    } else if offset == 1 {
        // `deprecated_ignore_limits_on_local_network`
        Some(BoolSetting::DeprecatedIgnoreLimitsOnLocalNetwork)
    } else if offset == 2 {
        // `send_redundant_have`
        Some(BoolSetting::SendRedundantHave)
    } else if offset == 3 {
        // `deprecated_lazy_bitfield`
        Some(BoolSetting::DeprecatedLazyBitfield)
    } else if offset == 4 {
        // `use_dht_as_fallback`
        Some(BoolSetting::UseDhtAsFallback)
    } else if offset == 5 {
        // `upnp_ignore_nonrouters`
        Some(BoolSetting::UpnpIgnoreNonrouters)
    } else if offset == 6 {
        // `use_parole_mode`
        Some(BoolSetting::UseParoleMode)
    } else if offset == 7 {
        // `deprecated_use_read_cache`
        Some(BoolSetting::DeprecatedUseReadCache)
    } else if offset == 8 {
        // `deprecated_use_write_cache`
        Some(BoolSetting::DeprecatedUseWriteCache)
    } else if offset == 9 {
        // `deprecated_flush_write_cache`
        Some(BoolSetting::DeprecatedFlushWriteCache)
    } else if offset == 10 {
        // `deprecated_coalesce_reads`
        Some(BoolSetting::DeprecatedCoalesceReads)
    } else if offset == 11 {
        // `deprecated_coalesce_writes`
        Some(BoolSetting::DeprecatedCoalesceWrites)
    } else if offset == 12 {
        // `auto_manage_prefer_seeds`
        Some(BoolSetting::AutoManagePreferSeeds)
    } else if offset == 13 {
        // `dont_count_slow_torrents`
        Some(BoolSetting::DontCountSlowTorrents)
    } else if offset == 14 {
        // `close_redundant_connections`
        Some(BoolSetting::CloseRedundantConnections)
    } else if offset == 15 {
        // `prioritize_partial_pieces`
        Some(BoolSetting::PrioritizePartialPieces)
    } else if offset == 16 {
        // `rate_limit_ip_overhead`
        Some(BoolSetting::RateLimitIpOverhead)
    } else if offset == 17 {
        // `announce_to_all_tiers`
        Some(BoolSetting::AnnounceToAllTiers)
    } else if offset == 18 {
        // `announce_to_all_trackers`
        Some(BoolSetting::AnnounceToAllTrackers)
    } else if offset == 19 {
        // `prefer_udp_trackers`
        Some(BoolSetting::PreferUdpTrackers)
    } else if offset == 20 {
        // `deprecated_strict_super_seeding`
        Some(BoolSetting::DeprecatedStrictSuperSeeding)
    } else if offset == 21 {
        // `deprecated_lock_disk_cache`
        Some(BoolSetting::DeprecatedLockDiskCache)
    } else if offset == 22 {
        // `disable_hash_checks`
        Some(BoolSetting::DisableHashChecks)
    } else if offset == 23 {
        // `allow_i2p_mixed`
        Some(BoolSetting::AllowI2pMixed)
    } else if offset == 24 {
        // `deprecated_low_prio_disk`
        Some(BoolSetting::DeprecatedLowPrioDisk)
    } else if offset == 25 {
        // `deprecated_guided_read_cache`
        Some(BoolSetting::DeprecatedGuidedReadCache)
    } else if offset == 26 {
        // `no_atime_storage`
        Some(BoolSetting::NoAtimeStorage)
    } else if offset == 27 {
        // `incoming_starts_queued_torrents`
        Some(BoolSetting::IncomingStartsQueuedTorrents)
    } else if offset == 28 {
        // `report_true_downloaded`
        Some(BoolSetting::ReportTrueDownloaded)
    } else if offset == 29 {
        // `strict_end_game_mode`
        Some(BoolSetting::StrictEndGameMode)
    } else if offset == 30 {
        // `deprecated_broadcast_lsd`
        Some(BoolSetting::DeprecatedBroadcastLsd)
    } else if offset == 31 {
        // `enable_outgoing_utp`
        Some(BoolSetting::EnableOutgoingUtp)
    } else if offset == 32 {
        // `enable_incoming_utp`
        Some(BoolSetting::EnableIncomingUtp)
    } else if offset == 33 {
        // `enable_outgoing_tcp`
        Some(BoolSetting::EnableOutgoingTcp)
    } else if offset == 34 {
        // `enable_incoming_tcp`
        Some(BoolSetting::EnableIncomingTcp)
    } else if offset == 35 {
        // `deprecated_ignore_resume_timestamps`
        Some(BoolSetting::DeprecatedIgnoreResumeTimestamps)
    } else if offset == 36 {
        // `no_recheck_incomplete_resume`
        Some(BoolSetting::NoRecheckIncompleteResume)
    } else if offset == 37 {
        // `anonymous_mode`
        Some(BoolSetting::AnonymousMode)
    } else if offset == 38 {
        // `report_web_seed_downloads`
        Some(BoolSetting::ReportWebSeedDownloads)
    } else if offset == 39 {
        // `deprecated_rate_limit_utp`
        Some(BoolSetting::DeprecatedRateLimitUtp)
    } else if offset == 40 {
        // `deprecated_announce_double_nat`
        Some(BoolSetting::DeprecatedAnnounceDoubleNat)
    } else if offset == 41 {
        // `seeding_outgoing_connections`
        Some(BoolSetting::SeedingOutgoingConnections)
    } else if offset == 42 {
        // `no_connect_privileged_ports`
        Some(BoolSetting::NoConnectPrivilegedPorts)
    } else if offset == 43 {
        // `smooth_connects`
        Some(BoolSetting::SmoothConnects)
    } else if offset == 44 {
        // `always_send_user_agent`
        Some(BoolSetting::AlwaysSendUserAgent)
    } else if offset == 45 {
        // `apply_ip_filter_to_trackers`
        Some(BoolSetting::ApplyIpFilterToTrackers)
    } else if offset == 46 {
        // `deprecated_use_disk_read_ahead`
        Some(BoolSetting::DeprecatedUseDiskReadAhead)
    } else if offset == 47 {
        // `deprecated_lock_files`
        Some(BoolSetting::DeprecatedLockFiles)
    } else if offset == 48 {
        // `deprecated_contiguous_recv_buffer`
        Some(BoolSetting::DeprecatedContiguousRecvBuffer)
    } else if offset == 49 {
        // `ban_web_seeds`
        Some(BoolSetting::BanWebSeeds)
    } else if offset == 50 {
        // `deprecated_force_proxy`
        Some(BoolSetting::DeprecatedForceProxy)
    } else if offset == 51 {
        // `support_share_mode`
        Some(BoolSetting::SupportShareMode)
    } else if offset == 52 {
        // `report_redundant_bytes`
        Some(BoolSetting::ReportRedundantBytes)
    } else if offset == 53 {
        // `listen_system_port_fallback`
        Some(BoolSetting::ListenSystemPortFallback)
    } else if offset == 54 {
        // `deprecated_use_disk_cache_pool`
        Some(BoolSetting::DeprecatedUseDiskCachePool)
    } else if offset == 55 {
        // `announce_crypto_support`
        Some(BoolSetting::AnnounceCryptoSupport)
    } else if offset == 56 {
        // `enable_upnp`
        Some(BoolSetting::EnableUpnp)
    } else if offset == 57 {
        // `enable_natpmp`
        Some(BoolSetting::EnableNatpmp)
    } else if offset == 58 {
        // `enable_lsd`
        Some(BoolSetting::EnableLsd)
    } else if offset == 59 {
        // `enable_dht`
        Some(BoolSetting::EnableDht)
    } else if offset == 60 {
        // `prefer_rc4`
        Some(BoolSetting::PreferRc4)
    } else if offset == 61 {
        // `proxy_hostnames`
        Some(BoolSetting::ProxyHostnames)
    } else if offset == 62 {
        // `proxy_peer_connections`
        Some(BoolSetting::ProxyPeerConnections)
    } else if offset == 63 {
        // `auto_sequential`
        Some(BoolSetting::AutoSequential)
    } else if offset == 64 {
        // `proxy_tracker_connections`
        Some(BoolSetting::ProxyTrackerConnections)
    } else if offset == 65 {
        // `enable_ip_notifier`
        Some(BoolSetting::EnableIpNotifier)
    } else if offset == 66 {
        // `dht_prefer_verified_node_ids`
        Some(BoolSetting::DhtPreferVerifiedNodeIds)
    } else if offset == 67 {
        // `dht_restrict_routing_ips`
        Some(BoolSetting::DhtRestrictRoutingIps)
    } else if offset == 68 {
        // `dht_restrict_search_ips`
        Some(BoolSetting::DhtRestrictSearchIps)
    } else if offset == 69 {
        // `dht_extended_routing_table`
        Some(BoolSetting::DhtExtendedRoutingTable)
    } else if offset == 70 {
        // `dht_aggressive_lookups`
        Some(BoolSetting::DhtAggressiveLookups)
    } else if offset == 71 {
        // `dht_privacy_lookups`
        Some(BoolSetting::DhtPrivacyLookups)
    } else if offset == 72 {
        // `dht_enforce_node_id`
        Some(BoolSetting::DhtEnforceNodeId)
    } else if offset == 73 {
        // `dht_ignore_dark_internet`
        Some(BoolSetting::DhtIgnoreDarkInternet)
    } else if offset == 74 {
        // `dht_read_only`
        Some(BoolSetting::DhtReadOnly)
    } else if offset == 75 {
        // `piece_extent_affinity`
        Some(BoolSetting::PieceExtentAffinity)
    } else if offset == 76 {
        // `validate_https_trackers`
        Some(BoolSetting::ValidateHttpsTrackers)
    } else if offset == 77 {
        // `ssrf_mitigation`
        Some(BoolSetting::SsrfMitigation)
    } else if offset == 78 {
        // `allow_idna`
        Some(BoolSetting::AllowIdna)
    } else if offset == 79 {
        // `enable_set_file_valid_data`
        Some(BoolSetting::EnableSetFileValidData)
    } else if offset == 80 {
        // `socks5_udp_send_local_ep`
        Some(BoolSetting::Socks5UdpSendLocalEp)
    } else if offset == 81 {
        // `proxy_send_host_in_connect`
        Some(BoolSetting::ProxySendHostInConnect)
    } else if offset == 82 {
        // `disk_disable_copy_on_write`
        Some(BoolSetting::DiskDisableCopyOnWrite)
    } else if offset == 83 {
        // `allow_multiple_connections_per_pid`
        Some(BoolSetting::AllowMultipleConnectionsPerPid)
    } else if offset == 84 {
        // `apply_filter_to_dht`
        Some(BoolSetting::ApplyFilterToDht)
    } else {
        None
    }
}

/// Each boolean key's code is the boolean base plus the offset at which
/// libtorrent numbers that very key; `enable_dht`, for one, is offset 59.
pub proof fn law_bool_setting_code(key: BoolSetting)
    ensures
        BOOL_TYPE_BASE <= key.spec_code(),
        bool_setting_at(key.spec_code() - BOOL_TYPE_BASE) == Some(key),
        BoolSetting::EnableDht.spec_code() == BOOL_TYPE_BASE + 59,
{
}

/// Two boolean keys have the same code exactly when they are the same key.
pub proof fn law_bool_setting_codes_distinct(a: BoolSetting, b: BoolSetting)
    ensures
        a.spec_code() == b.spec_code() <==> a == b,
{
    law_bool_setting_code(a);
    law_bool_setting_code(b);
}

} // verus!

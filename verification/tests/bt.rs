use nodesea::bt::alerts::{
    AlertCategory, DHT_NOTIFICATION, DHT_OPERATION_NOTIFICATION, ERROR_NOTIFICATION,
    STATUS_NOTIFICATION,
};
use nodesea::bt::engine::{EngineBuilder, EngineConfig, EngineError, EngineStatus};
use nodesea::bt::event::{
    AddTorrent, AddTorrentError, AlertsDropped, BtEvent, BtEventKind, DhtAnnounce, DhtBootstrap,
    DhtError, DhtGetPeers, DhtStats, FileError, ListenFailed, MetadataFailed, MetadataReceived,
    SessionError, TorrentDeleteFailed, TorrentError, UdpError,
};
use nodesea::bt::identity::{DhtInfoHash, DhtTarget, InfoHashV1, InfoHashV2, NodeId};
use nodesea::bt::lifecycle::{
    answers_requester, published_status, request_next, runner_next, shutdown_outcome, worker_action, CommandKind,
    RequestEvent, RequestState, RunnerEvent, RunnerState, WorkerAction,
};
use nodesea::bt::settings::{Setting, SettingsPack};
use nodesea::bt::settings_keys::{BoolSetting, IntSetting, StringSetting};
use nodesea::bt::torrent::{TorrentId, TorrentIdPayload};
use nodesea::bt::wire::{
    dht_bootstrap_event, AddTorrentPayload, DhtDirectionPayload, DhtLiveNodesPayload,
    DhtNodePayload, DhtPktPayload, SessionErrorPayload, SettingKind, SettingPayload,
    SettingsPackPayload, UdpEndpointPayload,
};

#[test]
fn test_info_hash_hex_roundtrip() {
    let hex_str = "0123456789abcdef0123456789abcdef01234567";
    let hash = InfoHashV1::from_hex(hex_str).expect("Valid 40-character hex string");
    assert_eq!(hash.to_hex(), hex_str);
    assert_eq!(hash.to_hex(), hex_str);
    assert_eq!(hash.debug_string(), format!("InfoHashV1({hex_str})"));
}

#[test]
fn test_info_hash_traits() {
    let hex_str = "0123456789abcdef0123456789abcdef01234567";
    let hash: InfoHashV1 = hex_str.parse().expect("Parse via FromStr");
    assert_eq!(hash.to_hex(), hex_str);

    let hash_try_str = InfoHashV1::try_from(hex_str).expect("TryFrom &str");
    assert_eq!(hash_try_str, hash);

    let raw = [7u8; 20];
    let hash_try_slice = InfoHashV1::try_from(&raw[..]).expect("TryFrom &[u8]");
    assert_eq!(hash_try_slice.as_bytes(), &raw);
}

#[test]
fn test_info_hash_invalid_hex() {
    assert!(InfoHashV1::from_hex("invalid_hex_characters_here!!").is_err());
    assert!(InfoHashV1::from_hex("12345678").is_err());
}

#[test]
fn test_info_hash_from_bytes() {
    let raw_bytes = [42u8; 20];
    let hash = InfoHashV1::from_bytes(raw_bytes);
    assert_eq!(hash.as_bytes(), &raw_bytes);
}

#[test]
fn test_torrent_id_v2_and_hybrid_identity() {
    let v1 = InfoHashV1::from_bytes([0x11; 20]);
    let v2 = InfoHashV2::from_bytes([0x22; 32]);

    let v2_id = TorrentId::new(None, Some(v2));
    assert!(v2_id.is_v2());
    assert!(!v2_id.has_v1());
    assert_eq!(v2_id.v2(), Some(v2));

    let hybrid_id = TorrentId::new(Some(v1), Some(v2));
    assert!(hybrid_id.is_hybrid());
    assert!(hybrid_id.has_v1());
    assert!(hybrid_id.has_v2());
    assert_eq!(hybrid_id.v1(), Some(v1));
    assert_eq!(hybrid_id.v2(), Some(v2));
}

#[test]
fn test_info_hash_default_and_order() {
    let default_hash = InfoHashV1::default();
    assert_eq!(default_hash.as_bytes(), &[0u8; 20]);
    assert_eq!(default_hash, InfoHashV1::from_bytes([0u8; 20]));

    let hash_a = InfoHashV1::from_bytes([1u8; 20]);
    let hash_b = InfoHashV1::from_bytes([2u8; 20]);
    assert!(hash_a < hash_b);
    assert_eq!(hash_a.as_ref(), &[1u8; 20]);

    let invalid_slice = [0u8; 19];
    assert!(InfoHashV1::try_from(&invalid_slice[..]).is_err());
}

#[test]
fn test_bt_event_variants() {
    let dht_info_hash = DhtInfoHash::from_bytes([0x42; 20]);
    let torrent_id = TorrentId::new(Some(InfoHashV1::from_bytes([0x42; 20])), None);

    let kinds = vec![
        BtEventKind::DhtAnnounce(DhtAnnounce::from_ffi(
            dht_info_hash,
            "10.0.0.1".to_string(),
            8080,
        )),
        BtEventKind::MetadataReceived(MetadataReceived::from_ffi(torrent_id, vec![1, 2, 3])),
        BtEventKind::MetadataFailed(MetadataFailed::from_ffi(
            torrent_id,
            "fetch failed".to_string(),
        )),
        BtEventKind::DhtStats(DhtStats::from_ffi(128, "127.0.0.1".to_string(), 6881)),
        BtEventKind::DhtBootstrap(DhtBootstrap::from_ffi()),
        BtEventKind::DhtGetPeers(DhtGetPeers::from_ffi(dht_info_hash)),
        BtEventKind::AddTorrent(AddTorrent::from_ffi(
            torrent_id,
            "torrent added".to_string(),
            None,
        )),
        BtEventKind::AddTorrent(AddTorrent::from_ffi(
            torrent_id,
            "add failed".to_string(),
            Some(AddTorrentError::from_ffi(1, "libtorrent".to_string())),
        )),
        BtEventKind::TorrentError(TorrentError::from_ffi(
            torrent_id,
            "torrent error".to_string(),
        )),
        BtEventKind::FileError(FileError::from_ffi(torrent_id, "file error".to_string())),
        BtEventKind::TorrentDeleteFailed(TorrentDeleteFailed::from_ffi(
            torrent_id,
            "delete failed".to_string(),
        )),
        BtEventKind::SessionError(SessionError::from_ffi("session error".to_string())),
        BtEventKind::ListenFailed(ListenFailed::from_ffi("listen error".to_string())),
        BtEventKind::UdpError(UdpError::from_ffi("udp error".to_string())),
        BtEventKind::DhtError(DhtError::from_ffi("dht error".to_string())),
        BtEventKind::AlertsDropped(AlertsDropped::from_ffi("dropped alerts".to_string())),
    ];

    for kind in kinds {
        let event = BtEvent::new(kind);
        let cloned = event.clone();
        assert_eq!(event, cloned);
        assert!(!format!("{event:?}").is_empty());
    }
}

#[test]
fn event_keeps_its_payload() {
    let announce = DhtAnnounce::from_ffi(DhtInfoHash::from_bytes([9; 20]), "10.0.0.2".into(), 51413);
    assert_eq!(announce.info_hash().as_bytes(), &[9; 20]);
    assert_eq!(announce.peer_ip(), "10.0.0.2");
    assert_eq!(*announce.peer_port(), 51413);
    let event = BtEvent::new(BtEventKind::DhtAnnounce(announce.clone()));
    assert_eq!(event.kind(), &BtEventKind::DhtAnnounce(announce));
}

#[test]
fn other_identifiers_round_trip_through_hex() {
    let hex_str = "ffeeddccbbaa99887766554433221100ffeeddcc";
    let node = NodeId::from_hex(hex_str).unwrap();
    assert_eq!(node.to_hex(), hex_str);
    assert_eq!(node.as_bytes()[0], 0xff);
    assert_eq!(node.debug_string(), format!("NodeId({hex_str})"));
    let target = DhtTarget::from_hex(hex_str).unwrap();
    assert_eq!(target.as_bytes(), node.as_bytes());
    let long = "00".repeat(32);
    let v2 = InfoHashV2::from_hex(&long).unwrap();
    assert_eq!(v2, InfoHashV2::default());
    assert!(InfoHashV2::from_hex(hex_str).is_err());
    assert!(DhtInfoHash::from_hex("zz").is_err());
}

#[test]
fn hex_decoding_accepts_upper_case_and_encodes_lower_case() {
    let hash = InfoHashV1::from_hex("ABCDEF0123456789ABCDEF0123456789ABCDEF01").unwrap();
    assert_eq!(hash.to_hex(), "abcdef0123456789abcdef0123456789abcdef01");
    assert_eq!(hash.as_bytes()[0], 0xab);
}

#[test]
fn torrent_id_kinds_and_display() {
    let v1 = InfoHashV1::from_bytes([0x11; 20]);
    let v2 = InfoHashV2::from_bytes([0x22; 32]);
    let empty = TorrentId::new(None, None);
    assert!(empty.is_empty());
    assert!(!empty.is_v1() && !empty.is_v2() && !empty.is_hybrid());
    assert_eq!(empty.display_string(), "Empty");
    let v1_id = TorrentId::new(Some(v1), None);
    assert!(v1_id.is_v1());
    assert_eq!(v1_id.display_string(), format!("V1({})", "11".repeat(20)));
    let v2_id = TorrentId::new(None, Some(v2));
    assert_eq!(v2_id.display_string(), format!("V2({})", "22".repeat(32)));
    let hybrid = TorrentId::new(Some(v1), Some(v2));
    assert_eq!(
        hybrid.display_string(),
        format!("Hybrid({}/{})", "11".repeat(20), "22".repeat(32))
    );
}

#[test]
fn torrent_id_payload_round_trips() {
    let v1 = InfoHashV1::from_bytes([0x11; 20]);
    let id = TorrentId::new(Some(v1), None);
    let payload = TorrentIdPayload::from_torrent_id(&id);
    assert!(payload.has_v1);
    assert!(!payload.has_v2);
    assert_eq!(payload.v1, [0x11; 20]);
    assert_eq!(payload.v2, [0u8; 32]);
    assert_eq!(payload.into_torrent_id(), id);

    let odd = TorrentIdPayload { v1: [5; 20], v2: [6; 32], has_v1: false, has_v2: true };
    let decoded = odd.into_torrent_id();
    assert_eq!(decoded.v1(), None);
    assert_eq!(decoded.v2(), Some(InfoHashV2::from_bytes([6; 32])));
}

#[test]
fn settings_pack_keeps_the_last_value_of_each_key() {
    let mut pack = SettingsPack::new();
    assert!(pack.values().is_empty());
    pack.set_string(StringSetting::UserAgent, "first");
    pack.set_int(IntSetting::ActiveDownloads, 3);
    pack.set_bool(BoolSetting::EnableDht, true);
    pack.set_string(StringSetting::UserAgent, String::from("second"));
    pack.set_int(IntSetting::ActiveDownloads, 3);
    assert_eq!(
        pack.values(),
        &[
            Setting::Bool(BoolSetting::EnableDht, true),
            Setting::String(StringSetting::UserAgent, "second".to_string()),
            Setting::Int(IntSetting::ActiveDownloads, 3),
        ]
    );
    let copy = pack.clone();
    assert_eq!(copy.values(), pack.values());
}

#[test]
fn setting_codes_follow_their_type_bases() {
    assert_eq!(StringSetting::UserAgent.code(), 0);
    assert_eq!(StringSetting::ListenInterfaces.code(), 5);
    assert!(IntSetting::ActiveDownloads.code() >= 0x4000);
    assert!(BoolSetting::EnableDht.code() >= 0x8000);
}

#[test]
fn engine_builder_collects_settings() {
    let mut pack = SettingsPack::new();
    pack.set_int(IntSetting::ActiveDownloads, 7);
    let builder = EngineBuilder::new().set_settings_pack(pack);
    let (config, extensions) = builder.into_parts();
    assert!(extensions.is_empty());
    assert_eq!(
        config.settings_pack().values(),
        &[Setting::Int(IntSetting::ActiveDownloads, 7)]
    );
    let default_config = EngineConfig::new();
    assert!(default_config.settings_pack().values().is_empty());
}

#[test]
fn command_waits_until_engine_is_running_then_sends() {
    let state = request_next(RequestState::AwaitStatus, RequestEvent::Status(EngineStatus::Idle));
    assert_eq!(state, RequestState::AwaitStatus);
    let state = request_next(state, RequestEvent::Status(EngineStatus::Starting));
    assert_eq!(state, RequestState::AwaitStatus);
    let state = request_next(state, RequestEvent::Status(EngineStatus::Running));
    assert_eq!(state, RequestState::Send);
    let state = request_next(state, RequestEvent::Sent);
    assert_eq!(state, RequestState::AwaitReply);
    let state = request_next(state, RequestEvent::Reply(true));
    assert_eq!(state, RequestState::Done(Ok(true)));
}

#[test]
fn command_is_rejected_once_engine_stops_or_failed() {
    for status in [EngineStatus::Stopping, EngineStatus::Stopped, EngineStatus::Failed] {
        assert_eq!(
            request_next(RequestState::AwaitStatus, RequestEvent::Status(status)),
            RequestState::Done(Err(EngineError::EngineNotRunning))
        );
    }
    assert_eq!(
        request_next(RequestState::AwaitStatus, RequestEvent::StatusClosed),
        RequestState::Done(Err(EngineError::EngineNotRunning))
    );
}

#[test]
fn command_reports_closed_channels() {
    assert_eq!(
        request_next(RequestState::Send, RequestEvent::SendFailed),
        RequestState::Done(Err(EngineError::CommandChannelClosed))
    );
    assert_eq!(
        request_next(RequestState::AwaitReply, RequestEvent::ReplyDropped),
        RequestState::Done(Err(EngineError::CommandResponseClosed))
    );
    assert_eq!(
        request_next(RequestState::Done(Ok(false)), RequestEvent::Reply(true)),
        RequestState::Done(Ok(false))
    );
}

#[test]
fn shutdown_outcome_reports_the_failing_channel() {
    assert_eq!(shutdown_outcome(false, None), Err(EngineError::CommandChannelClosed));
    assert_eq!(shutdown_outcome(true, None), Err(EngineError::CommandResponseClosed));
    assert_eq!(shutdown_outcome(true, Some(Ok(()))), Ok(()));
    assert_eq!(
        shutdown_outcome(true, Some(Err(EngineError::EngineNotRunning))),
        Err(EngineError::EngineNotRunning)
    );
}

fn drive(events: Vec<RunnerEvent>) -> (RunnerState, Vec<EngineStatus>, Vec<bool>) {
    let mut state = RunnerState::Idle;
    let mut statuses = Vec::new();
    let mut answers = Vec::new();
    for event in events {
        if let Some(status) = published_status(&state, &event) {
            statuses.push(status);
        }
        answers.push(answers_requester(&state, &event));
        state = runner_next(state, event);
    }
    (state, statuses, answers)
}

#[test]
fn runner_publishes_statuses_in_order() {
    let (state, statuses, answers) = drive(vec![
        RunnerEvent::Run,
        RunnerEvent::SessionStarted,
        RunnerEvent::AlertsReady,
        RunnerEvent::Polled,
        RunnerEvent::AlertsReady,
        RunnerEvent::Polled,
        RunnerEvent::ShutdownRequested { reply: true },
        RunnerEvent::StepDone,
    ]);
    assert_eq!(state, RunnerState::Finished(Ok(())));
    assert_eq!(
        statuses,
        vec![
            EngineStatus::Starting,
            EngineStatus::Running,
            EngineStatus::Stopping,
            EngineStatus::Stopped
        ]
    );
    assert_eq!(answers, vec![false, false, false, false, false, false, false, true]);
}

#[test]
fn runner_failed_start_and_poll_error() {
    let (state, statuses, _) = drive(vec![
        RunnerEvent::Run,
        RunnerEvent::SessionFailed("boom".into()),
        RunnerEvent::StepDone,
    ]);
    assert_eq!(
        state,
        RunnerState::Finished(Err(EngineError::SessionStartError("boom".into())))
    );
    assert_eq!(statuses, vec![EngineStatus::Starting, EngineStatus::Failed]);

    let (state, statuses, answers) = drive(vec![
        RunnerEvent::Run,
        RunnerEvent::SessionStarted,
        RunnerEvent::AlertsReady,
        RunnerEvent::PollFailed(EngineError::EngineNotRunning),
    ]);
    assert_eq!(
        state,
        RunnerState::ShuttingDown { result: Err(EngineError::EngineNotRunning), reply: false }
    );
    assert_eq!(
        statuses,
        vec![EngineStatus::Starting, EngineStatus::Running, EngineStatus::Stopping]
    );
    assert!(answers.iter().all(|answer| !answer));
    assert!(!answers_requester(&state, &RunnerEvent::StepDone));
    assert_eq!(
        runner_next(state, RunnerEvent::StepDone),
        RunnerState::Finished(Err(EngineError::EngineNotRunning))
    );
}

#[test]
fn closed_command_channel_shuts_down_to_stopped() {
    assert_eq!(
        worker_action(None, false),
        WorkerAction::RequestShutdown { reply: false }
    );
    let (state, statuses, answers) = drive(vec![
        RunnerEvent::Run,
        RunnerEvent::SessionStarted,
        RunnerEvent::ShutdownRequested { reply: false },
        RunnerEvent::StepDone,
    ]);
    assert_eq!(state, RunnerState::Finished(Ok(())));
    assert_eq!(statuses.last(), Some(&EngineStatus::Stopped));
    assert!(answers.iter().all(|answer| !answer));
}

#[test]
fn worker_executes_commands_until_stopped() {
    assert_eq!(
        worker_action(Some(CommandKind::PostDhtStats), false),
        WorkerAction::Execute(CommandKind::PostDhtStats)
    );
    assert_eq!(
        worker_action(Some(CommandKind::Shutdown), false),
        WorkerAction::RequestShutdown { reply: true }
    );
    assert_eq!(worker_action(Some(CommandKind::FetchMetadata), true), WorkerAction::Stop);
}


#[test]
fn settings_travel_as_typed_records_in_order() {
    let mut pack = SettingsPack::new();
    pack.set_bool(BoolSetting::EnableDht, true);
    pack.set_int(IntSetting::ActiveDownloads, -4);
    pack.set_string(StringSetting::UserAgent, "nodesea");
    let payload = SettingsPackPayload::from_settings_pack(pack);
    assert_eq!(
        payload.settings,
        vec![
            SettingPayload {
                kind: SettingKind::Bool,
                key: BoolSetting::EnableDht.code(),
                int_value: 0,
                bool_value: true,
                string_value: String::new(),
            },
            SettingPayload {
                kind: SettingKind::Int,
                key: IntSetting::ActiveDownloads.code(),
                int_value: -4,
                bool_value: false,
                string_value: String::new(),
            },
            SettingPayload {
                kind: SettingKind::String,
                key: 0,
                int_value: 0,
                bool_value: false,
                string_value: "nodesea".to_string(),
            },
        ]
    );
}

#[test]
fn alert_payloads_become_events() {
    let id = TorrentId::new(Some(InfoHashV1::from_bytes([3; 20])), None);
    let added = AddTorrentPayload {
        torrent_id: TorrentIdPayload::from_torrent_id(&id),
        message: "add failed".into(),
        has_error: true,
        error_value: 2,
        error_category: "system".into(),
    }
    .into_event();
    assert_eq!(
        added.kind(),
        &BtEventKind::AddTorrent(AddTorrent::from_ffi(
            id,
            "add failed".into(),
            Some(AddTorrentError::from_ffi(2, "system".into()))
        ))
    );
    let ok = AddTorrentPayload {
        torrent_id: TorrentIdPayload::from_torrent_id(&id),
        message: "added".into(),
        has_error: false,
        error_value: 9,
        error_category: "ignored".into(),
    }
    .into_event();
    assert_eq!(
        ok.kind(),
        &BtEventKind::AddTorrent(AddTorrent::from_ffi(id, "added".into(), None))
    );
    let pkt = DhtPktPayload {
        direction: DhtDirectionPayload::Outgoing,
        endpoint: UdpEndpointPayload { address: "10.0.0.9".into(), port: 6881 },
        packet: vec![1, 2],
    }
    .into_event();
    assert!(matches!(pkt.kind(), BtEventKind::DhtPkt(_)));
    let live = DhtLiveNodesPayload {
        local_node_id: [1; 20],
        nodes: vec![
            DhtNodePayload {
                node_id: [2; 20],
                endpoint: UdpEndpointPayload { address: "10.0.0.2".into(), port: 1 },
            },
            DhtNodePayload {
                node_id: [3; 20],
                endpoint: UdpEndpointPayload { address: "10.0.0.3".into(), port: 2 },
            },
        ],
    }
    .into_event();
    match live.kind() {
        BtEventKind::DhtLiveNodes(nodes) => {
            assert_eq!(nodes.local_node_id(), &NodeId::from_bytes([1; 20]));
            assert_eq!(nodes.nodes().len(), 2);
            assert_eq!(nodes.nodes()[1].node_id(), &NodeId::from_bytes([3; 20]));
            assert_eq!(nodes.nodes()[1].endpoint().address, "10.0.0.3");
        }
        other => panic!("unexpected event {other:?}"),
    }
    let session = SessionErrorPayload { message: "session error".into() }.into_event();
    assert_eq!(
        session.kind(),
        &BtEventKind::SessionError(SessionError::from_ffi("session error".into()))
    );
    assert!(matches!(dht_bootstrap_event().kind(), BtEventKind::DhtBootstrap(_)));
}

#[test]
fn alert_categories_combine_as_bit_sets() {
    let dht = AlertCategory::from_bits_retain(DHT_NOTIFICATION)
        .union(AlertCategory::from_bits_retain(DHT_OPERATION_NOTIFICATION));
    let mask = dht
        .union(AlertCategory::from_bits_retain(STATUS_NOTIFICATION))
        .union(AlertCategory::from_bits_retain(ERROR_NOTIFICATION));
    assert_eq!(mask.bits(), (1 << 10) | (1 << 18) | (1 << 6) | 1);
    assert!(mask.contains(dht));
    assert!(!dht.contains(mask));
    assert_eq!(mask.intersection(dht), dht);
    assert!(AlertCategory::empty().is_empty());
    assert_eq!(AlertCategory::all().bits(), u32::MAX);
    assert!(AlertCategory::all().contains(mask));
}

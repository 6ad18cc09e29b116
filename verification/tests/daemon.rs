use std::io;
use std::path::PathBuf;

use nodesea::bt::engine::{EngineError, EngineStatus};
use nodesea::daemon::errors::{accept_loop_ended, engine_task_ended, DaemonError};
use nodesea::daemon::helper::{
    current_user_runtime_dir_from, join_path, linux_socket_path, macos_socket_path, passwd_next,
    HelperError, PasswdReply, PasswdStep, DEFAULT_BUFFER_SIZE, MAX_BUFFER_SIZE,
};
use nodesea::daemon::status::to_proto_status;
use nodesea::daemon::transport::{
    accept_error, cleanup_after_inspect, cleanup_after_remove, linux_endpoint_path,
    macos_endpoint_path, parent_mode, BindPlan, BindState, CleanupStep, FileKind, FsEvent,
    TransportError, UnixEndpoint,
};
use nodesea::proto::v1::EngineStatus as ProtoEngineStatus;

#[test]
fn maps_every_engine_status_to_the_proto_status() {
    let statuses = [
        (EngineStatus::Idle, ProtoEngineStatus::Idle),
        (EngineStatus::Starting, ProtoEngineStatus::Starting),
        (EngineStatus::Running, ProtoEngineStatus::Running),
        (EngineStatus::Stopping, ProtoEngineStatus::Stopping),
        (EngineStatus::Stopped, ProtoEngineStatus::Stopped),
        (EngineStatus::Failed, ProtoEngineStatus::Failed),
    ];

    for (engine_status, proto_status) in statuses {
        assert_eq!(to_proto_status(engine_status), proto_status);
    }
}

#[test]
fn runtime_directory_rejects_missing_value() {
    let result = current_user_runtime_dir_from(None);
    assert!(matches!(result, Err(HelperError::MissingRuntimeDirectory)));
}

#[test]
fn runtime_directory_accepts_configured_value() {
    let result = current_user_runtime_dir_from(Some(b"/tmp/runtime".to_vec()))
        .expect("configured runtime directory should be returned");
    assert_eq!(path(result), PathBuf::from("/tmp/runtime"));
}

#[test]
fn current_user_runtime_dir_rejects_missing_environment() {
    let result = linux_endpoint_path(false, None);
    assert!(matches!(result, Err(TransportError::MissingRuntimeDirectory)));
}

fn path(bytes: Vec<u8>) -> PathBuf {
    PathBuf::from(String::from_utf8(bytes).expect("the path is Unicode"))
}

#[test]
fn default_socket_paths_follow_the_platform_rules() {
    assert_eq!(linux_socket_path(true, None).unwrap(), b"/run/nodesea/socket".to_vec());
    assert_eq!(
        linux_socket_path(false, Some(b"/run/user/1000".to_vec())).unwrap(),
        b"/run/user/1000/nodesea/socket".to_vec()
    );
    assert_eq!(
        linux_socket_path(false, Some(b"/run/user/1000/".to_vec())).unwrap(),
        b"/run/user/1000/nodesea/socket".to_vec()
    );
    assert_eq!(
        macos_socket_path(true, None).unwrap(),
        b"/var/run/nodesea/socket".to_vec()
    );
    assert_eq!(
        macos_socket_path(false, Some(b"/Users/ada".to_vec())).unwrap(),
        b"/Users/ada/Library/Application Support/NodeSea/socket".to_vec()
    );
    assert_eq!(
        macos_socket_path(false, None),
        Err(HelperError::MissingHomeDirectory)
    );
    assert!(matches!(
        macos_endpoint_path(false, None),
        Err(TransportError::MissingHomeDirectory)
    ));
    assert_eq!(
        linux_endpoint_path(false, Some(b"/tmp/rt".to_vec())).unwrap(),
        b"/tmp/rt/nodesea/socket".to_vec()
    );
}

#[test]
fn paths_that_are_not_unicode_are_kept() {
    let dir = b"/run/user/\xff\xfe".to_vec();
    let socket = linux_socket_path(false, Some(dir)).unwrap();
    assert_eq!(socket, b"/run/user/\xff\xfe/nodesea/socket".to_vec());
}

#[test]
fn join_path_matches_std_path_join() {
    for (base, rel) in [
        ("/a", "b/c"),
        ("/a/", "b"),
        ("", "b"),
        ("/a", "/abs"),
        ("rel", ""),
    ] {
        let expected = PathBuf::from(base).join(rel);
        assert_eq!(path(join_path(base.as_bytes(), rel.as_bytes())), expected);
    }
}

#[test]
fn passwd_lookup_grows_its_buffer_up_to_the_maximum() {
    assert_eq!(
        passwd_next(DEFAULT_BUFFER_SIZE, PasswdReply::BufferTooSmall),
        PasswdStep::Retry(DEFAULT_BUFFER_SIZE + 1024)
    );
    assert_eq!(
        passwd_next(MAX_BUFFER_SIZE - 10, PasswdReply::BufferTooSmall),
        PasswdStep::Retry(MAX_BUFFER_SIZE)
    );
    assert_eq!(
        passwd_next(MAX_BUFFER_SIZE, PasswdReply::BufferTooSmall),
        PasswdStep::Missing
    );
    assert_eq!(
        passwd_next(4096, PasswdReply::Entry { home: Some(b"/Users/ada".to_vec()) }),
        PasswdStep::Home(b"/Users/ada".to_vec())
    );
    assert_eq!(passwd_next(4096, PasswdReply::Entry { home: None }), PasswdStep::Missing);
    assert_eq!(passwd_next(4096, PasswdReply::NoEntry), PasswdStep::Missing);
    assert_eq!(passwd_next(4096, PasswdReply::Failed(5)), PasswdStep::Missing);

    let mut len = DEFAULT_BUFFER_SIZE;
    let mut calls = 0;
    while let PasswdStep::Retry(next) = passwd_next(len, PasswdReply::BufferTooSmall) {
        assert!(next > len && next <= MAX_BUFFER_SIZE);
        len = next;
        calls += 1;
    }
    assert_eq!(len, MAX_BUFFER_SIZE);
    assert_eq!(calls, (MAX_BUFFER_SIZE - DEFAULT_BUFFER_SIZE) / 1024);
}

fn found(kind: FileKind, device: u64, inode: u64) -> FsEvent {
    FsEvent::Found { kind, device, inode }
}

fn missing() -> FsEvent {
    FsEvent::Missing(io::Error::from(io::ErrorKind::NotFound))
}

fn failed() -> FsEvent {
    FsEvent::Failed(io::Error::from(io::ErrorKind::PermissionDenied))
}

fn plan() -> BindPlan {
    BindPlan {
        path: PathBuf::from("/tmp/run/socket"),
        parent: Some(PathBuf::from("/tmp/run")),
        is_root: false,
    }
}

#[test]
fn bind_creates_missing_parent_then_listens() {
    let plan = plan();
    let state = plan.start();
    assert!(matches!(state, BindState::InspectParent));
    let state = plan.next(state, missing());
    assert!(matches!(state, BindState::CreateParent));
    let state = plan.next(state, FsEvent::Done);
    assert!(matches!(state, BindState::RestrictParent { mode: 0o700 }));
    let state = plan.next(state, FsEvent::Done);
    assert!(matches!(state, BindState::InspectSocket));
    let state = plan.next(state, missing());
    assert!(matches!(state, BindState::Listen));
    let state = plan.next(state, FsEvent::Done);
    assert!(matches!(state, BindState::RestrictSocket));
    let state = plan.next(state, FsEvent::Done);
    assert!(matches!(state, BindState::IdentifySocket));
    let state = plan.next(state, found(FileKind::Socket, 3, 44));
    assert!(matches!(state, BindState::Bound { device: 3, inode: 44 }));
}

#[test]
fn bind_rejects_parent_that_is_not_a_directory_and_non_sockets() {
    let plan = plan();
    let state = plan.next(BindState::InspectParent, found(FileKind::Other, 1, 1));
    assert!(matches!(state, BindState::Failed(TransportError::ParentNotDirectory { .. })));
    let state = plan.next(BindState::InspectSocket, found(FileKind::Other, 1, 1));
    assert!(matches!(state, BindState::Failed(TransportError::PathNotSocket { .. })));
    let state = plan.next(BindState::Listen, failed());
    assert!(matches!(state, BindState::Failed(TransportError::Bind { .. })));
}

#[test]
fn bind_rejects_active_socket_and_replaces_stale_one() {
    let plan = plan();
    let state = plan.next(BindState::InspectSocket, found(FileKind::Socket, 2, 9));
    assert!(matches!(state, BindState::ProbeExisting { device: 2, inode: 9 }));
    let active = plan.next(BindState::ProbeExisting { device: 2, inode: 9 }, FsEvent::Connected);
    assert!(matches!(active, BindState::Failed(TransportError::SocketAlreadyInUse { .. })));
    let stale = plan.next(BindState::ProbeExisting { device: 2, inode: 9 }, FsEvent::Refused);
    assert!(matches!(stale, BindState::RecheckExisting { device: 2, inode: 9 }));
    let changed = plan.next(BindState::RecheckExisting { device: 2, inode: 9 }, found(FileKind::Socket, 2, 10));
    assert!(matches!(changed, BindState::Failed(TransportError::SocketPathChanged { .. })));
    let same = plan.next(BindState::RecheckExisting { device: 2, inode: 9 }, found(FileKind::Socket, 2, 9));
    assert!(matches!(same, BindState::RemoveStale));
    let state = plan.next(same, FsEvent::Done);
    assert!(matches!(state, BindState::Listen));
}

#[test]
fn bind_discards_a_socket_it_could_not_restrict() {
    let plan = BindPlan { path: PathBuf::from("socket"), parent: None, is_root: true };
    assert!(matches!(plan.start(), BindState::InspectSocket));
    let state = plan.next(BindState::RestrictSocket, failed());
    assert!(matches!(state, BindState::DiscardSocket { error: TransportError::SetPermissions { .. } }));
    let state = plan.next(state, FsEvent::Done);
    assert!(matches!(state, BindState::Failed(TransportError::SetPermissions { .. })));
    assert_eq!(parent_mode(true), 0o755);
    assert_eq!(parent_mode(false), 0o700);
}

#[test]
fn cleanup_removes_only_its_own_socket() {
    let path = PathBuf::from("/tmp/run/socket");
    assert!(matches!(
        cleanup_after_inspect(&path, 1, 2, found(FileKind::Socket, 1, 2)),
        CleanupStep::Remove
    ));
    assert!(matches!(
        cleanup_after_inspect(&path, 1, 2, found(FileKind::Socket, 1, 3)),
        CleanupStep::Finished(Err(TransportError::SocketPathChanged { .. }))
    ));
    assert!(matches!(
        cleanup_after_inspect(&path, 1, 2, found(FileKind::Other, 1, 2)),
        CleanupStep::Finished(Err(TransportError::PathNotSocket { .. }))
    ));
    assert!(matches!(
        cleanup_after_inspect(&path, 1, 2, missing()),
        CleanupStep::Finished(Ok(()))
    ));
    assert!(cleanup_after_remove(&path, missing()).is_ok());
    assert!(matches!(
        cleanup_after_remove(&path, failed()),
        Err(TransportError::RemoveSocket { .. })
    ));
    let error = accept_error(&path, io::Error::from(io::ErrorKind::Other));
    assert!(matches!(error, TransportError::Accept { .. }));
}

#[test]
fn endpoint_keeps_its_path() {
    let endpoint = UnixEndpoint::new(PathBuf::from("/tmp/x.sock"));
    assert_eq!(endpoint.path(), &PathBuf::from("/tmp/x.sock"));
}

fn cancelled_task_error() -> tokio::task::JoinError {
    let runtime = tokio::runtime::Builder::new_current_thread()
        .build()
        .expect("runtime should build");
    let handle = runtime.spawn(async {});
    handle.abort();
    runtime
        .block_on(handle)
        .expect_err("an aborted task reports a join error")
}

#[test]
fn engine_task_result_decides_the_daemon_result() {
    assert!(engine_task_ended(Ok(Ok(()))).is_ok());
    assert!(matches!(
        engine_task_ended(Ok(Err(EngineError::EngineNotRunning))),
        Err(DaemonError::Engine(EngineError::EngineNotRunning))
    ));
    assert!(matches!(
        engine_task_ended(Err(cancelled_task_error())),
        Err(DaemonError::EngineTask(_))
    ));
}

#[test]
fn accept_loop_exit_reports_the_first_failure() {
    let transport = || Err(DaemonError::Transport(TransportError::MissingHomeDirectory));
    assert!(matches!(
        accept_loop_ended(transport(), Ok(()), Err(cancelled_task_error())),
        Err(DaemonError::EngineTask(_))
    ));
    assert!(matches!(
        accept_loop_ended(transport(), Err(EngineError::CommandChannelClosed), Ok(Ok(()))),
        Err(DaemonError::Transport(TransportError::MissingHomeDirectory))
    ));
    assert!(matches!(
        accept_loop_ended(
            Ok(()),
            Err(EngineError::CommandChannelClosed),
            Ok(Err(EngineError::EngineNotRunning))
        ),
        Err(DaemonError::Engine(EngineError::CommandChannelClosed))
    ));
    assert!(matches!(
        accept_loop_ended(Ok(()), Ok(()), Ok(Err(EngineError::EngineNotRunning))),
        Err(DaemonError::Engine(EngineError::EngineNotRunning))
    ));
    assert!(accept_loop_ended(Ok(()), Ok(()), Ok(Ok(()))).is_ok());
}

#[test]
fn bind_reports_a_parent_that_vanished_while_being_created() {
    let plan = plan();
    let state = plan.next(BindState::CreateParent, missing());
    assert!(matches!(state, BindState::Failed(TransportError::CreateDirectory { .. })));
    let state = plan.next(BindState::RestrictParent { mode: 0o700 }, missing());
    assert!(matches!(state, BindState::Failed(TransportError::SetPermissions { .. })));
    let state = plan.next(BindState::RemoveStale, missing());
    assert!(matches!(state, BindState::Failed(TransportError::RemoveSocket { .. })));
}

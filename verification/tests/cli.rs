use std::path::PathBuf;

use nodesea::cli::args::resolve_socket_path;
use nodesea::cli::connect::{probe_outcome, ProbeOutcome, ProbeResult};
use nodesea::cli::locale::{catalog_for_locale, catalog_for_system_locale};
use nodesea::cli::status::{json_status_line, status_color, status_key, StatusColor};
use nodesea::daemon::helper::HelperError;
use nodesea::proto::v1::EngineStatus;

#[test]
fn maps_system_locales_to_embedded_catalogs() {
    assert_eq!(catalog_for_locale("en_US.UTF-8"), "en");
    assert_eq!(catalog_for_locale("zh_CN.UTF-8"), "zh-CN");
    assert_eq!(catalog_for_locale("zh-Hans-CN"), "zh-CN");
    assert_eq!(catalog_for_locale("zh-TW"), "en");
    assert_eq!(catalog_for_locale("de-DE"), "en");
}

#[test]
fn locale_modifiers_and_case_are_ignored() {
    assert_eq!(catalog_for_locale("ZH_sg@calendar"), "zh-CN");
    assert_eq!(catalog_for_locale("zh_MY"), "zh-CN");
    assert_eq!(catalog_for_locale("zh"), "en");
    assert_eq!(catalog_for_locale("zh.cn"), "en");
    assert_eq!(catalog_for_locale(""), "en");
    assert_eq!(catalog_for_locale("en-Hans"), "en");
}

#[test]
fn status_keys_are_stable() {
    let cases = [
        (EngineStatus::Unspecified, "unspecified"),
        (EngineStatus::Idle, "idle"),
        (EngineStatus::Starting, "starting"),
        (EngineStatus::Running, "running"),
        (EngineStatus::Stopping, "stopping"),
        (EngineStatus::Stopped, "stopped"),
        (EngineStatus::Failed, "failed"),
    ];
    for (status, key) in cases {
        assert_eq!(status_key(status), key);
    }
}

#[test]
fn status_colors_reflect_the_status() {
    assert_eq!(status_color(EngineStatus::Running), StatusColor::Green);
    assert_eq!(status_color(EngineStatus::Starting), StatusColor::Yellow);
    assert_eq!(status_color(EngineStatus::Stopping), StatusColor::Yellow);
    assert_eq!(status_color(EngineStatus::Failed), StatusColor::Red);
    assert_eq!(status_color(EngineStatus::Idle), StatusColor::DarkGrey);
    assert_eq!(status_color(EngineStatus::Stopped), StatusColor::DarkGrey);
    assert_eq!(status_color(EngineStatus::Unspecified), StatusColor::White);
}

#[test]
fn json_output_is_locale_independent() {
    assert_eq!(json_status_line(EngineStatus::Running), "{\"status\":\"running\"}");
    assert_eq!(
        json_status_line(EngineStatus::Unspecified),
        "{\"status\":\"unspecified\"}"
    );
}

#[test]
fn system_locale_falls_back_to_english() {
    assert_eq!(catalog_for_system_locale(None), "en");
    assert_eq!(catalog_for_system_locale(Some("zh_CN.UTF-8".into())), "zh-CN");
    assert_eq!(catalog_for_system_locale(Some("fr_FR".into())), "en");
}

#[test]
fn explicit_socket_takes_precedence_over_the_default() {
    let default = PathBuf::from("/run/user/1/nodesea/socket");
    let explicit = PathBuf::from("/tmp/custom.sock");
    assert_eq!(
        resolve_socket_path(Some(explicit.clone()), Ok(default.clone())),
        Ok(explicit.clone())
    );
    assert_eq!(resolve_socket_path(None, Ok(default.clone())), Ok(default));
    assert_eq!(
        resolve_socket_path(Some(explicit.clone()), Err(HelperError::MissingRuntimeDirectory)),
        Ok(explicit)
    );
    assert_eq!(
        resolve_socket_path(None, Err(HelperError::MissingRuntimeDirectory)),
        Err(HelperError::MissingRuntimeDirectory)
    );
}

#[test]
fn refused_or_missing_socket_means_no_daemon() {
    assert_eq!(probe_outcome(ProbeResult::Connected), ProbeOutcome::Reachable);
    assert_eq!(probe_outcome(ProbeResult::Refused), ProbeOutcome::DaemonNotFound);
    assert_eq!(probe_outcome(ProbeResult::NotFound), ProbeOutcome::DaemonNotFound);
    assert_eq!(probe_outcome(ProbeResult::Failed), ProbeOutcome::ConnectionFailed);
}

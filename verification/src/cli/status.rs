//! Presentation rules of the `nodesea status` command.

use vstd::prelude::*;

use crate::proto::v1::EngineStatus;

verus! {

/// The stable machine-readable key of a status.
pub open spec fn spec_status_key(status: EngineStatus) -> Seq<char> {
    match status {
        EngineStatus::Idle => "idle"@,
        EngineStatus::Starting => "starting"@,
        EngineStatus::Running => "running"@,
        EngineStatus::Stopping => "stopping"@,
        EngineStatus::Stopped => "stopped"@,
        EngineStatus::Failed => "failed"@,
        EngineStatus::Unspecified => "unspecified"@,
    }
}

/// Distinct statuses have distinct keys, so a key names one status.
pub proof fn law_status_keys_distinct(a: EngineStatus, b: EngineStatus)
    ensures
        spec_status_key(a) == spec_status_key(b) ==> a == b,
{
    reveal_strlit("idle");
    reveal_strlit("starting");
    reveal_strlit("running");
    reveal_strlit("stopping");
    reveal_strlit("stopped");
    reveal_strlit("failed");
    reveal_strlit("unspecified");
    if spec_status_key(a) == spec_status_key(b) && a != b {
        let ka = spec_status_key(a);
        let kb = spec_status_key(b);
        assert(ka.len() == kb.len());
        assert(ka[0] == kb[0]);
        assert(ka[2] == kb[2]);
        assert(ka[6] == kb[6]);
    }
}

/// Returns the stable machine-readable key used by JSON output and
/// translation keys.
pub fn status_key(status: EngineStatus) -> (r: &'static str)
    ensures
        r@ == spec_status_key(status),
{
    match status {
        EngineStatus::Idle => "idle",
        EngineStatus::Starting => "starting",
        EngineStatus::Running => "running",
        EngineStatus::Stopping => "stopping",
        EngineStatus::Stopped => "stopped",
        EngineStatus::Failed => "failed",
        EngineStatus::Unspecified => "unspecified",
    }
}

/// The JSON document printed for a status: `{"status":"<key>"}`, the same in
/// every locale.
pub fn json_status_line(status: EngineStatus) -> (r: String)
    ensures
        r@ == "{\"status\":\""@ + spec_status_key(status) + "\"}"@,
{
    let mut r = String::from_str("{\"status\":\"");
    r.append(status_key(status));
    r.append("\"}");
    r
}

/// Terminal colors used to present a status.
#[derive(Debug, Clone, Copy, PartialEq, Eq, Structural)]
pub enum StatusColor {
    Green,
    Yellow,
    Red,
    DarkGrey,
    White,
}

/// Chooses a color that reflects the daemon status: green while running,
/// yellow while starting or stopping, red after a failure, dark grey when
/// idle or stopped, and white when unspecified.
pub fn status_color(status: EngineStatus) -> (r: StatusColor)
    ensures
        r == match status {
            EngineStatus::Running => StatusColor::Green,
            EngineStatus::Starting | EngineStatus::Stopping => StatusColor::Yellow,
            EngineStatus::Failed => StatusColor::Red,
            EngineStatus::Idle | EngineStatus::Stopped => StatusColor::DarkGrey,
            EngineStatus::Unspecified => StatusColor::White,
        },
{
    match status {
        EngineStatus::Running => StatusColor::Green,
        EngineStatus::Starting | EngineStatus::Stopping => StatusColor::Yellow,
        EngineStatus::Failed => StatusColor::Red,
        EngineStatus::Idle | EngineStatus::Stopped => StatusColor::DarkGrey,
        EngineStatus::Unspecified => StatusColor::White,
    }
}

} // verus!

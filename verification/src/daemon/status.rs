//! The daemon's engine status service: how engine statuses are reported.

use vstd::prelude::*;

use crate::bt::EngineStatus;
use crate::proto::v1::EngineStatus as ProtoEngineStatus;

verus! {

/// The API status that reports an engine status.
pub open spec fn spec_to_proto_status(status: EngineStatus) -> ProtoEngineStatus {
    match status {
        EngineStatus::Idle => ProtoEngineStatus::Idle,
        EngineStatus::Starting => ProtoEngineStatus::Starting,
        EngineStatus::Running => ProtoEngineStatus::Running,
        EngineStatus::Stopping => ProtoEngineStatus::Stopping,
        EngineStatus::Stopped => ProtoEngineStatus::Stopped,
        EngineStatus::Failed => ProtoEngineStatus::Failed,
    }
}

/// Converts an engine status to the status carried by the daemon API.
pub fn to_proto_status(status: EngineStatus) -> (r: ProtoEngineStatus)
    ensures
        r == spec_to_proto_status(status),
{
    match status {
        EngineStatus::Idle => ProtoEngineStatus::Idle,
        EngineStatus::Starting => ProtoEngineStatus::Starting,
        EngineStatus::Running => ProtoEngineStatus::Running,
        EngineStatus::Stopping => ProtoEngineStatus::Stopping,
        EngineStatus::Stopped => ProtoEngineStatus::Stopped,
        EngineStatus::Failed => ProtoEngineStatus::Failed,
    }
}

/// Every engine status is reported as a distinct API status, and never as
/// `Unspecified`.
pub proof fn law_to_proto_status_injective(a: EngineStatus, b: EngineStatus)
    ensures
        spec_to_proto_status(a) != ProtoEngineStatus::Unspecified,
        spec_to_proto_status(a) == spec_to_proto_status(b) ==> a == b,
{
}

} // verus!

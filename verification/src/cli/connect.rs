//! How the client reads its first connection attempt to the daemon.

use vstd::prelude::*;

verus! {

/// How a connection attempt to the daemon's socket ended.
#[derive(Debug, Clone, Copy, PartialEq, Eq, Structural)]
pub enum ProbeResult {
    /// The socket accepted the connection.
    Connected,
    /// The socket refused the connection.
    Refused,
    /// No socket exists at the path.
    NotFound,
    /// The attempt failed for another reason.
    Failed,
}

/// What the client concludes from a connection attempt.
#[derive(Debug, Clone, Copy, PartialEq, Eq, Structural)]
pub enum ProbeOutcome {
    /// A daemon listens on the socket: go on with the request.
    Reachable,
    /// No daemon runs there: report that the daemon was not found.
    DaemonNotFound,
    /// Report the connection error itself, with the socket path as context.
    ConnectionFailed,
}

/// Reads a connection attempt: a refused connection or a missing socket
/// means that no daemon runs at the path, so that common case is not hidden
/// behind transport errors; any other failure is reported as it is.
pub fn probe_outcome(result: ProbeResult) -> (r: ProbeOutcome)
    ensures
        r == match result {
            ProbeResult::Connected => ProbeOutcome::Reachable,
            ProbeResult::Refused | ProbeResult::NotFound => ProbeOutcome::DaemonNotFound,
            ProbeResult::Failed => ProbeOutcome::ConnectionFailed,
        },
{
    match result {
        ProbeResult::Connected => ProbeOutcome::Reachable,
        ProbeResult::Refused | ProbeResult::NotFound => ProbeOutcome::DaemonNotFound,
        ProbeResult::Failed => ProbeOutcome::ConnectionFailed,
    }
}

} // verus!

//! Version 1 of the capability-oriented local daemon API.

use vstd::prelude::*;

verus! {

/// Engine lifecycle status as carried by the daemon API.
#[derive(Debug, Clone, Copy, PartialEq, Eq, Hash, Structural)]
pub enum EngineStatus {
    /// The status was not set.
    Unspecified,
    /// The engine has been built but has not started running.
    Idle,
    /// The native session is being created.
    Starting,
    /// The native session is running and accepts commands.
    Running,
    /// Shutdown is in progress.
    Stopping,
    /// The engine has completed shutdown.
    Stopped,
    /// The engine failed while starting.
    Failed,
}

} // verus!

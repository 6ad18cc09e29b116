//! Errors of the daemon process, and how its run ends.
//!
//! The daemon runs its accept loop and the engine task side by side; the
//! functions here decide, from what each of them reported, the result the
//! daemon ends with.

use tokio::task::JoinError;

use vstd::prelude::*;

use super::transport::TransportError;
use crate::bt::engine::EngineError;

verus! {

/// Declares `tokio::task::JoinError`, the error of a task that panicked or
/// was cancelled.
#[verifier::external_type_specification]
#[verifier::external_body]
pub struct ExJoinError(JoinError);

/// Errors returned by the daemon runtime.
#[derive(Debug)]
pub enum DaemonError {
    /// The local transport failed.
    Transport(TransportError),
    /// The BitTorrent engine failed.
    Engine(EngineError),
    /// The engine task panicked or was cancelled.
    EngineTask(JoinError),
}

impl From<TransportError> for DaemonError {
    fn from(error: TransportError) -> (r: DaemonError) {
        DaemonError::Transport(error)
    }
}

impl vstd::std_specs::convert::FromSpecImpl<TransportError> for DaemonError {
    open spec fn obeys_from_spec() -> bool {
        true
    }

    open spec fn from_spec(error: TransportError) -> DaemonError {
        DaemonError::Transport(error)
    }
}

impl From<EngineError> for DaemonError {
    fn from(error: EngineError) -> (r: DaemonError) {
        DaemonError::Engine(error)
    }
}

impl vstd::std_specs::convert::FromSpecImpl<EngineError> for DaemonError {
    open spec fn obeys_from_spec() -> bool {
        true
    }

    open spec fn from_spec(error: EngineError) -> DaemonError {
        DaemonError::Engine(error)
    }
}

impl From<JoinError> for DaemonError {
    fn from(error: JoinError) -> (r: DaemonError) {
        DaemonError::EngineTask(error)
    }
}

impl vstd::std_specs::convert::FromSpecImpl<JoinError> for DaemonError {
    open spec fn obeys_from_spec() -> bool {
        true
    }

    open spec fn from_spec(error: JoinError) -> DaemonError {
        DaemonError::EngineTask(error)
    }
}

/// The daemon's result once the engine task ended first with `engine`: a
/// failed task, then an engine error, end the daemon with that error; an
/// orderly stop ends it with `Ok`.
pub fn engine_task_ended(engine: Result<Result<(), EngineError>, JoinError>) -> (r: Result<
    (),
    DaemonError,
>)
    ensures
        r == match engine {
            Err(j) => Err(DaemonError::EngineTask(j)),
            Ok(Err(e)) => Err(DaemonError::Engine(e)),
            Ok(Ok(())) => Ok(()),
        },
{
    match engine {
        Err(j) => Err(DaemonError::EngineTask(j)),
        Ok(Err(e)) => Err(DaemonError::Engine(e)),
        Ok(Ok(())) => Ok(()),
    }
}

/// The daemon's result once its accept loop ended first with `daemon`, after
/// the engine was asked to shut down (`shutdown`) and its task was awaited
/// (`engine`). The first failure in this order decides: the engine task
/// failing, the accept loop, the shutdown request, the engine itself.
pub fn accept_loop_ended(
    daemon: Result<(), DaemonError>,
    shutdown: Result<(), EngineError>,
    engine: Result<Result<(), EngineError>, JoinError>,
) -> (r: Result<(), DaemonError>)
    ensures
        r == match engine {
            Err(j) => Err(DaemonError::EngineTask(j)),
            Ok(engine_result) => match daemon {
                Err(d) => Err(d),
                Ok(()) => match shutdown {
                    Err(s) => Err(DaemonError::Engine(s)),
                    Ok(()) => match engine_result {
                        Err(e) => Err(DaemonError::Engine(e)),
                        Ok(()) => Ok(()),
                    },
                },
            },
        },
{
    let engine_result = match engine {
        Err(j) => {
            return Err(DaemonError::EngineTask(j));
        },
        Ok(engine_result) => engine_result,
    };
    if let Err(d) = daemon {
        return Err(d);
    }
    if let Err(s) = shutdown {
        return Err(DaemonError::Engine(s));
    }
    match engine_result {
        Err(e) => Err(DaemonError::Engine(e)),
        Ok(()) => Ok(()),
    }
}

} // verus!

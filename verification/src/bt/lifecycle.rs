//! The engine's lifecycle rules: which statuses the runner publishes and in
//! what order, how a command request is admitted and answered, and what the
//! command worker does with each command it receives.
//!
//! The channels, the native session and the threads are driven by the
//! caller; the functions here decide what happens next from what each
//! operation reported.

use vstd::prelude::*;

use super::engine::{EngineError, EngineStatus};

verus! {

/// Whether a command request waits at `status`: the engine has not started
/// running yet.
pub open spec fn waits_at(status: EngineStatus) -> bool {
    status == EngineStatus::Idle || status == EngineStatus::Starting
}

/// Whether a command request is rejected at `status`: the engine is
/// stopping, has stopped, or failed to start.
pub open spec fn rejects_at(status: EngineStatus) -> bool {
    status == EngineStatus::Stopping || status == EngineStatus::Stopped || status
        == EngineStatus::Failed
}

/// A point in one command request, named by what the handle does next.
#[derive(Debug, PartialEq, Eq)]
pub enum RequestState {
    /// Wait for the engine status to leave `Idle` and `Starting`.
    AwaitStatus,
    /// Send the command to the runner.
    Send,
    /// Wait for the runner's reply.
    AwaitReply,
    /// The request is over, with this result.
    Done(Result<bool, EngineError>),
}

/// What one step of a command request observed.
#[derive(Debug, Clone, PartialEq, Eq)]
pub enum RequestEvent {
    /// The engine status is `status`.
    Status(EngineStatus),
    /// The status channel closed.
    StatusClosed,
    /// The command was sent.
    Sent,
    /// The command channel is closed.
    SendFailed,
    /// The runner replied.
    Reply(bool),
    /// The runner dropped the reply channel.
    ReplyDropped,
}

/// The request state that follows `state` once `event` was observed.
pub open spec fn spec_request_next(state: RequestState, event: RequestEvent) -> RequestState {
    match (state, event) {
        (RequestState::AwaitStatus, RequestEvent::Status(s)) => if waits_at(s) {
            RequestState::AwaitStatus
        } else if rejects_at(s) {
            RequestState::Done(Err(EngineError::EngineNotRunning))
        } else {
            RequestState::Send
        },
        (RequestState::AwaitStatus, RequestEvent::StatusClosed) => RequestState::Done(
            Err(EngineError::EngineNotRunning),
        ),
        (RequestState::Send, RequestEvent::Sent) => RequestState::AwaitReply,
        (RequestState::Send, RequestEvent::SendFailed) => RequestState::Done(
            Err(EngineError::CommandChannelClosed),
        ),
        (RequestState::AwaitReply, RequestEvent::Reply(b)) => RequestState::Done(Ok(b)),
        (RequestState::AwaitReply, RequestEvent::ReplyDropped) => RequestState::Done(
            Err(EngineError::CommandResponseClosed),
        ),
        (state, _) => state,
    }
}

/// Advances a command request.
///
/// Requests wait while the engine is `Idle` or `Starting`, are sent once it
/// is `Running`, and end with [`EngineError::EngineNotRunning`] once it is
/// `Stopping`, `Stopped` or `Failed` (or the status can no longer be
/// observed). A closed command channel ends them with
/// [`EngineError::CommandChannelClosed`], and a dropped reply with
/// [`EngineError::CommandResponseClosed`]. An event that cannot occur in the
/// current state leaves it unchanged.
pub fn request_next(state: RequestState, event: RequestEvent) -> (r: RequestState)
    ensures
        r == spec_request_next(state, event),
        state is AwaitReply ==> (event matches RequestEvent::Reply(b) ==> r == RequestState::Done(
            Ok(b),
        )),
{
    match (state, event) {
        (RequestState::AwaitStatus, RequestEvent::Status(s)) => {
            match s {
                EngineStatus::Idle | EngineStatus::Starting => RequestState::AwaitStatus,
                EngineStatus::Stopping | EngineStatus::Stopped | EngineStatus::Failed => {
                    RequestState::Done(Err(EngineError::EngineNotRunning))
                },
                EngineStatus::Running => RequestState::Send,
            }
        },
        (RequestState::AwaitStatus, RequestEvent::StatusClosed) => RequestState::Done(
            Err(EngineError::EngineNotRunning),
        ),
        (RequestState::Send, RequestEvent::Sent) => RequestState::AwaitReply,
        (RequestState::Send, RequestEvent::SendFailed) => RequestState::Done(
            Err(EngineError::CommandChannelClosed),
        ),
        (RequestState::AwaitReply, RequestEvent::Reply(b)) => RequestState::Done(Ok(b)),
        (RequestState::AwaitReply, RequestEvent::ReplyDropped) => RequestState::Done(
            Err(EngineError::CommandResponseClosed),
        ),
        (state, _) => state,
    }
}

/// A command is sent only once the engine is running: a waiting request
/// moves to sending exactly when it observes `Running`.
pub proof fn law_commands_sent_only_when_running(status: EngineStatus)
    ensures
        spec_request_next(RequestState::AwaitStatus, RequestEvent::Status(status))
            is Send <==> status == EngineStatus::Running,
        waits_at(status) ==> spec_request_next(RequestState::AwaitStatus, RequestEvent::Status(status))
            is AwaitStatus,
        rejects_at(status) ==> spec_request_next(
            RequestState::AwaitStatus,
            RequestEvent::Status(status),
        ) == RequestState::Done(Err(EngineError::EngineNotRunning)),
{
}

/// A reply observed while awaiting it ends the request with exactly that
/// reply: `true` when the runner accepted the command, `false` when the
/// engine turned it down.
pub proof fn law_reply_is_passed_through(accepted: bool)
    ensures
        spec_request_next(RequestState::AwaitReply, RequestEvent::Reply(accepted))
            == RequestState::Done(Ok(accepted)),
        spec_request_next(RequestState::AwaitReply, RequestEvent::Reply(true))
            != spec_request_next(RequestState::AwaitReply, RequestEvent::Reply(false)),
{
}

/// A request that cannot go on ends with the error of what failed: a closed
/// status channel with [`EngineError::EngineNotRunning`], a closed command
/// channel with [`EngineError::CommandChannelClosed`], and a dropped reply
/// with [`EngineError::CommandResponseClosed`]; a sent command awaits its
/// reply.
pub proof fn law_request_failures_name_their_channel()
    ensures
        spec_request_next(RequestState::AwaitStatus, RequestEvent::StatusClosed)
            == RequestState::Done(Err(EngineError::EngineNotRunning)),
        spec_request_next(RequestState::Send, RequestEvent::SendFailed) == RequestState::Done(
            Err(EngineError::CommandChannelClosed),
        ),
        spec_request_next(RequestState::AwaitReply, RequestEvent::ReplyDropped)
            == RequestState::Done(Err(EngineError::CommandResponseClosed)),
        spec_request_next(RequestState::Send, RequestEvent::Sent) == RequestState::AwaitReply,
{
}

/// A request that is over stays over, whatever happens next.
pub proof fn law_request_done_is_final(result: Result<bool, EngineError>, event: RequestEvent)
    ensures
        spec_request_next(RequestState::Done(result), event) == RequestState::Done(result),
{
}

/// The result of a shutdown request: the runner's answer, or the error of
/// the channel that failed first.
pub fn shutdown_outcome(sent: bool, reply: Option<Result<(), EngineError>>) -> (r: Result<
    (),
    EngineError,
>)
    ensures
        r == (if !sent {
            Err(EngineError::CommandChannelClosed)
        } else {
            match reply {
                Some(result) => result,
                None => Err(EngineError::CommandResponseClosed),
            }
        }),
{
    if !sent {
        return Err(EngineError::CommandChannelClosed);
    }
    match reply {
        Some(result) => result,
        None => Err(EngineError::CommandResponseClosed),
    }
}

/// A point in the runner's life, named by what the runner does next.
#[derive(Debug, PartialEq, Eq)]
pub enum RunnerState {
    /// The runner was built and has not been run.
    Idle,
    /// Create the native session.
    Created,
    /// The session failed to start: end with the error.
    StartFailed(EngineError),
    /// Wait for alerts or a shutdown request.
    Running,
    /// Poll the session's alerts and dispatch them.
    Polling,
    /// Stop the command worker, the session and the event dispatcher, then
    /// end with `result`, answering the shutdown request with it when one
    /// asked for an answer (`reply`).
    ShuttingDown { result: Result<(), EngineError>, reply: bool },
    /// The runner is over, with this result.
    Finished(Result<(), EngineError>),
}

/// What one step of the runner observed.
#[derive(Debug, Clone, PartialEq, Eq)]
pub enum RunnerEvent {
    /// The runner was started.
    Run,
    /// The native session started.
    SessionStarted,
    /// The native session could not start, with this message.
    SessionFailed(String),
    /// The native session signalled pending alerts.
    AlertsReady,
    /// Alerts were polled.
    Polled,
    /// Polling failed.
    PollFailed(EngineError),
    /// Shutdown was requested, by a handle (`reply`) or by the closing of the
    /// command channel.
    ShutdownRequested { reply: bool },
    /// The current state's work is done.
    StepDone,
}

/// The runner state that follows `state` once `event` was observed.
pub open spec fn spec_runner_next(state: RunnerState, event: RunnerEvent) -> RunnerState {
    match (state, event) {
        (RunnerState::Idle, RunnerEvent::Run) => RunnerState::Created,
        (RunnerState::Created, RunnerEvent::SessionStarted) => RunnerState::Running,
        (RunnerState::Created, RunnerEvent::SessionFailed(m)) => RunnerState::StartFailed(
            EngineError::SessionStartError(m),
        ),
        (RunnerState::StartFailed(e), RunnerEvent::StepDone) => RunnerState::Finished(Err(e)),
        (RunnerState::Running, RunnerEvent::AlertsReady) => RunnerState::Polling,
        (RunnerState::Running, RunnerEvent::ShutdownRequested { reply }) => {
            RunnerState::ShuttingDown { result: Ok(()), reply }
        },
        (RunnerState::Polling, RunnerEvent::Polled) => RunnerState::Running,
        (RunnerState::Polling, RunnerEvent::PollFailed(e)) => RunnerState::ShuttingDown {
            result: Err(e),
            reply: false,
        },
        (RunnerState::ShuttingDown { result, .. }, RunnerEvent::StepDone) => RunnerState::Finished(
            result,
        ),
        (state, _) => state,
    }
}

/// The status the runner publishes while it takes the step from `state` on
/// `event`, if any: `Starting` when it is run, `Running` once the session
/// started, `Failed` when it could not start, `Stopping` when it begins to
/// shut down, and `Stopped` when the shutdown is done.
pub open spec fn spec_step_status(state: RunnerState, event: RunnerEvent) -> Option<EngineStatus> {
    match (state, event) {
        (RunnerState::Idle, RunnerEvent::Run) => Some(EngineStatus::Starting),
        (RunnerState::Created, RunnerEvent::SessionStarted) => Some(EngineStatus::Running),
        (RunnerState::Created, RunnerEvent::SessionFailed(_)) => Some(EngineStatus::Failed),
        (RunnerState::Running, RunnerEvent::ShutdownRequested { .. }) => Some(
            EngineStatus::Stopping,
        ),
        (RunnerState::Polling, RunnerEvent::PollFailed(_)) => Some(EngineStatus::Stopping),
        (RunnerState::ShuttingDown { .. }, RunnerEvent::StepDone) => Some(EngineStatus::Stopped),
        _ => None,
    }
}

/// Whether the step from `state` on `event` answers a shutdown requester:
/// the shutdown that one asked for is done.
pub open spec fn spec_step_answers(state: RunnerState, event: RunnerEvent) -> bool {
    &&& state matches RunnerState::ShuttingDown { reply, .. }
    &&& reply
    &&& event is StepDone
}

/// Advances the runner.
///
/// A session that fails to start ends the runner with
/// [`EngineError::SessionStartError`]. A shutdown request, or the closing of
/// the command channel, stops the runner in order with an `Ok` result; a
/// polling error stops it the same way and ends it with that error. An event
/// that cannot occur in the current state leaves it unchanged.
pub fn runner_next(state: RunnerState, event: RunnerEvent) -> (r: RunnerState)
    ensures
        r == spec_runner_next(state, event),
{
    match (state, event) {
        (RunnerState::Idle, RunnerEvent::Run) => RunnerState::Created,
        (RunnerState::Created, RunnerEvent::SessionStarted) => RunnerState::Running,
        (RunnerState::Created, RunnerEvent::SessionFailed(m)) => RunnerState::StartFailed(
            EngineError::SessionStartError(m),
        ),
        (RunnerState::StartFailed(e), RunnerEvent::StepDone) => RunnerState::Finished(Err(e)),
        (RunnerState::Running, RunnerEvent::AlertsReady) => RunnerState::Polling,
        (RunnerState::Running, RunnerEvent::ShutdownRequested { reply }) => {
            RunnerState::ShuttingDown { result: Ok(()), reply }
        },
        (RunnerState::Polling, RunnerEvent::Polled) => RunnerState::Running,
        (RunnerState::Polling, RunnerEvent::PollFailed(e)) => RunnerState::ShuttingDown {
            result: Err(e),
            reply: false,
        },
        (RunnerState::ShuttingDown { result, .. }, RunnerEvent::StepDone) => RunnerState::Finished(
            result,
        ),
        (state, _) => state,
    }
}

/// Returns the status the runner publishes while it takes the step from
/// `state` on `event`, if any.
pub fn published_status(state: &RunnerState, event: &RunnerEvent) -> (r: Option<EngineStatus>)
    ensures
        r == spec_step_status(*state, *event),
{
    match (state, event) {
        (RunnerState::Idle, RunnerEvent::Run) => Some(EngineStatus::Starting),
        (RunnerState::Created, RunnerEvent::SessionStarted) => Some(EngineStatus::Running),
        (RunnerState::Created, RunnerEvent::SessionFailed(_)) => Some(EngineStatus::Failed),
        (RunnerState::Running, RunnerEvent::ShutdownRequested { .. }) => Some(
            EngineStatus::Stopping,
        ),
        (RunnerState::Polling, RunnerEvent::PollFailed(_)) => Some(EngineStatus::Stopping),
        (RunnerState::ShuttingDown { .. }, RunnerEvent::StepDone) => Some(EngineStatus::Stopped),
        _ => None,
    }
}

/// Returns whether the step from `state` on `event` answers a shutdown
/// requester. The answer is the result the runner then ends with: the
/// payload of the `Finished` state that [`runner_next`] gives for the step.
pub fn answers_requester(state: &RunnerState, event: &RunnerEvent) -> (r: bool)
    ensures
        r == spec_step_answers(*state, *event),
        r ==> match *state {
            RunnerState::ShuttingDown { result, .. } => spec_runner_next(*state, *event)
                == RunnerState::Finished(result),
            _ => false,
        },
{
    match (state, event) {
        (RunnerState::ShuttingDown { reply, .. }, RunnerEvent::StepDone) => *reply,
        _ => false,
    }
}

/// How far the runner is in its life: built, created, started (or failed
/// to), shutting down, finished.
pub open spec fn runner_stage(state: RunnerState) -> int {
    match state {
        RunnerState::Idle => 0,
        RunnerState::Created => 1,
        RunnerState::StartFailed(_) => 2,
        RunnerState::Running => 2,
        RunnerState::Polling => 2,
        RunnerState::ShuttingDown { .. } => 3,
        RunnerState::Finished(_) => 4,
    }
}

/// The runner never goes back: every step keeps or advances its stage, and
/// a finished runner stays finished with its result.
pub proof fn law_runner_moves_forward(state: RunnerState, event: RunnerEvent)
    ensures
        runner_stage(spec_runner_next(state, event)) >= runner_stage(state),
        state matches RunnerState::Finished(r) ==> spec_runner_next(state, event)
            == RunnerState::Finished(r),
        spec_runner_next(state, event) is Running ==> state is Created || state is Running
            || state is Polling,
{
}

/// A runner that failed to start never runs: it only finishes with its
/// error.
pub proof fn law_failed_start_never_runs(e: EngineError, event: RunnerEvent)
    ensures
        spec_runner_next(RunnerState::StartFailed(e), event) == RunnerState::StartFailed(e)
            || spec_runner_next(RunnerState::StartFailed(e), event) == RunnerState::Finished(
            Err::<(), EngineError>(e),
        ),
{
}

/// The state a runner reaches from `state` through `events`, and the
/// statuses it publishes on the way, in order.
pub open spec fn runner_run(state: RunnerState, events: Seq<RunnerEvent>) -> (RunnerState, Seq<
    EngineStatus,
>)
    decreases events.len(),
{
    if events.len() == 0 {
        (state, Seq::empty())
    } else {
        let rest = runner_run(spec_runner_next(state, events[0]), events.drop_first());
        let published = match spec_step_status(state, events[0]) {
            Some(s) => seq![s],
            None => Seq::empty(),
        };
        (rest.0, published + rest.1)
    }
}

/// Whether `published` is what a runner that reached `state` from `Idle`
/// has published.
pub open spec fn published_so_far(state: RunnerState, published: Seq<EngineStatus>) -> bool {
    match state {
        RunnerState::Idle => published == Seq::<EngineStatus>::empty(),
        RunnerState::Created => published == seq![EngineStatus::Starting],
        RunnerState::StartFailed(_) => published == seq![
            EngineStatus::Starting,
            EngineStatus::Failed,
        ],
        RunnerState::Running | RunnerState::Polling => published == seq![
            EngineStatus::Starting,
            EngineStatus::Running,
        ],
        RunnerState::ShuttingDown { .. } => published == seq![
            EngineStatus::Starting,
            EngineStatus::Running,
            EngineStatus::Stopping,
        ],
        RunnerState::Finished(r) => (r is Err && published == seq![
            EngineStatus::Starting,
            EngineStatus::Failed,
        ]) || published == seq![
            EngineStatus::Starting,
            EngineStatus::Running,
            EngineStatus::Stopping,
            EngineStatus::Stopped,
        ],
    }
}

/// One step keeps the published statuses in line with the state.
proof fn lemma_step_published(state: RunnerState, event: RunnerEvent, published: Seq<EngineStatus>)
    requires
        published_so_far(state, published),
    ensures
        published_so_far(
            spec_runner_next(state, event),
            published + match spec_step_status(state, event) {
                Some(s) => seq![s],
                None => Seq::empty(),
            },
        ),
{
    let p = match spec_step_status(state, event) {
        Some(s) => seq![s],
        None => Seq::<EngineStatus>::empty(),
    };
    if p.len() == 0 {
        assert(published + p =~= published);
    } else {
        let q = published + p;
        assert(q =~= published.push(p[0]));
        assert(seq![EngineStatus::Starting] =~= Seq::<EngineStatus>::empty().push(
            EngineStatus::Starting,
        ));
        assert(seq![EngineStatus::Starting, EngineStatus::Failed] =~= seq![
            EngineStatus::Starting,
        ].push(EngineStatus::Failed));
        assert(seq![EngineStatus::Starting, EngineStatus::Running] =~= seq![
            EngineStatus::Starting,
        ].push(EngineStatus::Running));
        assert(seq![EngineStatus::Starting, EngineStatus::Running, EngineStatus::Stopping]
            =~= seq![EngineStatus::Starting, EngineStatus::Running].push(EngineStatus::Stopping));
        assert(seq![
            EngineStatus::Starting,
            EngineStatus::Running,
            EngineStatus::Stopping,
            EngineStatus::Stopped,
        ] =~= seq![EngineStatus::Starting, EngineStatus::Running, EngineStatus::Stopping].push(
            EngineStatus::Stopped,
        ));
    }
}

/// Runs keep the published statuses in line with the state.
proof fn lemma_run_published(state: RunnerState, events: Seq<RunnerEvent>, published: Seq<EngineStatus>)
    requires
        published_so_far(state, published),
    ensures
        published_so_far(runner_run(state, events).0, published + runner_run(state, events).1),
    decreases events.len(),
{
    if events.len() > 0 {
        let p = match spec_step_status(state, events[0]) {
            Some(s) => seq![s],
            None => Seq::<EngineStatus>::empty(),
        };
        lemma_step_published(state, events[0], published);
        let next = spec_runner_next(state, events[0]);
        lemma_run_published(next, events.drop_first(), published + p);
        let rest = runner_run(next, events.drop_first());
        assert(published + p + rest.1 =~= published + (p + rest.1));
    }
}

/// Whatever happens, a runner publishes `Starting`, then either `Failed`
/// (after which it only ends, with the start error) or `Running`, then
/// `Stopping`, then `Stopped`; `Running` is published once, and nothing
/// follows `Failed` or `Stopped`. A finished runner has published exactly
/// `Starting, Failed` (and ends with an error) or `Starting, Running,
/// Stopping, Stopped`.
pub proof fn law_runner_status_sequence(events: Seq<RunnerEvent>)
    ensures
        published_so_far(runner_run(RunnerState::Idle, events).0, runner_run(
            RunnerState::Idle,
            events,
        ).1),
{
    lemma_run_published(RunnerState::Idle, events, Seq::empty());
    assert(Seq::<EngineStatus>::empty() + runner_run(RunnerState::Idle, events).1 =~= runner_run(
        RunnerState::Idle,
        events,
    ).1);
}

/// The commands a handle can send to the runner.
#[derive(Debug, Clone, Copy, PartialEq, Eq, Structural)]
pub enum CommandKind {
    FetchMetadata,
    CancelFetchMetadata,
    PostDhtStats,
    PostSessionStats,
    PostDhtSampleInfohashes,
    PostDhtLiveNodes,
    Shutdown,
}

/// What the command worker does next.
#[derive(Debug, Clone, Copy, PartialEq, Eq, Structural)]
pub enum WorkerAction {
    /// Execute the command on the native session and reply with its result.
    Execute(CommandKind),
    /// Ask the runner to shut down, forwarding the requester's reply channel
    /// when there is one, and stop.
    RequestShutdown { reply: bool },
    /// Stop without asking anything.
    Stop,
}

/// Decides what the command worker does with what it received: a command
/// (`Some`), the closing of the command channel (`None`), or the runner's
/// stop signal (`stopped`).
pub fn worker_action(received: Option<CommandKind>, stopped: bool) -> (r: WorkerAction)
    ensures
        r == (if stopped {
            WorkerAction::Stop
        } else {
            match received {
                None => WorkerAction::RequestShutdown { reply: false },
                Some(CommandKind::Shutdown) => WorkerAction::RequestShutdown { reply: true },
                Some(kind) => WorkerAction::Execute(kind),
            }
        }),
{
    if stopped {
        return WorkerAction::Stop;
    }
    match received {
        None => WorkerAction::RequestShutdown { reply: false },
        Some(CommandKind::Shutdown) => WorkerAction::RequestShutdown { reply: true },
        Some(kind) => WorkerAction::Execute(kind),
    }
}

} // verus!

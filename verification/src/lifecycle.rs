//! Bind arbitration and the life of the background task: which role this
//! instance takes, how the task moves towards shutdown, and how the process
//! exits.

use crate::trusted::fire;
use vstd::prelude::*;

verus! {

/// The well-known loopback port that the primary instance listens on.
pub const STUDIO_PLUGIN_PORT: u16 = 44755;

/// Exit code of a process whose transport closed cleanly and whose
/// background task ended without error.
pub const EXIT_CLEAN: u8 = 0;

/// Exit code after a fatal bind error, a failed transport or a background
/// task that failed or panicked.
pub const EXIT_FAILURE: u8 = 1;

/// The instance that won the port, or the one that lost it.
#[derive(Clone, Copy, Debug, PartialEq, Eq)]
pub enum Role {
    /// Owns the listener and serves the plugin.
    Primary,
    /// Relays its invocations to the primary.
    Secondary,
}

/// How the attempt to bind the loopback port went.
#[derive(Clone, Copy, Debug, PartialEq, Eq)]
pub enum BindAttempt {
    /// The listener is bound.
    Bound,
    /// The port is held by another process.
    AddrInUse,
    /// The bind failed for any other reason.
    Failed,
}

/// What the background task does after a bind attempt that was not fatal.
#[derive(Clone, Copy, Debug, PartialEq, Eq)]
pub enum BindOutcome {
    /// Serve the HTTP endpoints on the bound listener.
    Listener,
    /// Forward through the instance that holds the port.
    AddrInUse,
}

/// A bind failure that ends the process.
#[derive(Clone, Copy, Debug, PartialEq, Eq)]
pub struct FatalBind;

/// Where the background task stands.
#[derive(Clone, Copy, Debug, PartialEq, Eq)]
pub enum TaskState {
    /// The bind has not been attempted yet.
    Starting,
    /// The task serves, as listener or as forwarder.
    Running(Role),
    /// The task has been told to stop and drains its work.
    ShuttingDown,
    /// The task has ended.
    Stopped,
}

/// What can happen to the background task.
#[derive(Clone, Copy, Debug, PartialEq, Eq)]
pub enum TaskEvent {
    /// The listener was bound.
    Bound,
    /// The port was found in use.
    AddrInUse,
    /// The bind failed for another reason.
    BindFailed,
    /// The shutdown signal arrived.
    ShutdownSignal,
    /// The task failed on its own.
    InternalFailure,
    /// Outstanding work has drained.
    Drained,
}

/// What the caller does after a step of the background task.
#[derive(Clone, Copy, Debug, PartialEq, Eq)]
pub enum TaskAction {
    /// Start the HTTP server with its three routes.
    ServeHttp,
    /// Start the proxy-forwarder loop.
    RunForwarder,
    /// Give up: the bind failure is fatal.
    Abort,
    /// Fire the shutdown latch and let the task drain.
    BeginShutdown,
    /// Join the task and exit.
    Finish,
    /// The event does not concern the task in this state.
    Ignore,
}

/// How the MCP transport ended.
#[derive(Clone, Copy, Debug, PartialEq, Eq)]
pub enum TransportExit {
    /// The client disconnected.
    Closed,
    /// Serving or waiting failed.
    Failed,
}

/// How the background task ended.
#[derive(Clone, Copy, Debug, PartialEq, Eq)]
pub enum ServerExit {
    /// It returned without error.
    Clean,
    /// It returned an error.
    Failed,
    /// It panicked.
    Panicked,
}

/// The role that a bind attempt gives this instance; none after a fatal
/// failure.
pub open spec fn role_of(attempt: BindAttempt) -> Option<Role> {
    match attempt {
        BindAttempt::Bound => Some(Role::Primary),
        BindAttempt::AddrInUse => Some(Role::Secondary),
        BindAttempt::Failed => None,
    }
}

/// The event that a bind attempt is to the background task.
pub open spec fn bind_event(attempt: BindAttempt) -> TaskEvent {
    match attempt {
        BindAttempt::Bound => TaskEvent::Bound,
        BindAttempt::AddrInUse => TaskEvent::AddrInUse,
        BindAttempt::Failed => TaskEvent::BindFailed,
    }
}

/// The transition table of the background task: the next state and what the
/// caller does. A pair that the table does not list leaves the state as it
/// is.
pub open spec fn transition(state: TaskState, event: TaskEvent) -> (TaskState, TaskAction) {
    match (state, event) {
        (TaskState::Starting, TaskEvent::Bound) => (
            TaskState::Running(Role::Primary),
            TaskAction::ServeHttp,
        ),
        (TaskState::Starting, TaskEvent::AddrInUse) => (
            TaskState::Running(Role::Secondary),
            TaskAction::RunForwarder,
        ),
        (TaskState::Starting, TaskEvent::BindFailed) => (TaskState::Stopped, TaskAction::Abort),
        (TaskState::Running(_), TaskEvent::ShutdownSignal) => (
            TaskState::ShuttingDown,
            TaskAction::BeginShutdown,
        ),
        (TaskState::Running(_), TaskEvent::InternalFailure) => (
            TaskState::ShuttingDown,
            TaskAction::BeginShutdown,
        ),
        (TaskState::ShuttingDown, TaskEvent::Drained) => (TaskState::Stopped, TaskAction::Finish),
        _ => (state, TaskAction::Ignore),
    }
}

/// How far a state is along the life of the task.
pub open spec fn phase(state: TaskState) -> nat {
    match state {
        TaskState::Starting => 0,
        TaskState::Running(_) => 1,
        TaskState::ShuttingDown => 2,
        TaskState::Stopped => 3,
    }
}

/// The state after a whole trace of events.
pub open spec fn run(state: TaskState, events: Seq<TaskEvent>) -> TaskState
    decreases events.len(),
{
    if events.len() == 0 {
        state
    } else {
        transition(run(state, events.drop_last()), events.last()).0
    }
}

/// The exit code of the process.
pub open spec fn exit_code_of(transport: TransportExit, server: ServerExit) -> u8 {
    if transport == TransportExit::Closed && server == ServerExit::Clean {
        EXIT_CLEAN
    } else {
        EXIT_FAILURE
    }
}

/// Decides between listener and forwarder: a bound listener makes this
/// instance the primary, a port in use makes it a secondary, and any other
/// failure is fatal.
pub fn arbitrate(attempt: BindAttempt) -> (outcome: Result<BindOutcome, FatalBind>)
    ensures
        attempt == BindAttempt::Bound ==> outcome == Ok::<BindOutcome, FatalBind>(
            BindOutcome::Listener,
        ),
        attempt == BindAttempt::AddrInUse ==> outcome == Ok::<BindOutcome, FatalBind>(
            BindOutcome::AddrInUse,
        ),
        attempt == BindAttempt::Failed ==> outcome == Err::<BindOutcome, FatalBind>(FatalBind),
{
    match attempt {
        BindAttempt::Bound => Ok(BindOutcome::Listener),
        BindAttempt::AddrInUse => Ok(BindOutcome::AddrInUse),
        BindAttempt::Failed => Err(FatalBind),
    }
}

impl BindOutcome {
    /// The role that goes with the outcome.
    pub fn role(self) -> (role: Role)
        ensures
            role == (match self {
                BindOutcome::Listener => Role::Primary,
                BindOutcome::AddrInUse => Role::Secondary,
            }),
    {
        match self {
            BindOutcome::Listener => Role::Primary,
            BindOutcome::AddrInUse => Role::Secondary,
        }
    }
}

impl BindAttempt {
    /// The event that the attempt is to the background task.
    pub fn event(self) -> (event: TaskEvent)
        ensures
            event == bind_event(self),
    {
        match self {
            BindAttempt::Bound => TaskEvent::Bound,
            BindAttempt::AddrInUse => TaskEvent::AddrInUse,
            BindAttempt::Failed => TaskEvent::BindFailed,
        }
    }
}

impl TaskState {
    /// One step of the background task.
    pub fn step(self, event: TaskEvent) -> (next: (TaskState, TaskAction))
        ensures
            next == transition(self, event),
    {
        match self {
            TaskState::Starting => match event {
                TaskEvent::Bound => (TaskState::Running(Role::Primary), TaskAction::ServeHttp),
                TaskEvent::AddrInUse => (
                    TaskState::Running(Role::Secondary),
                    TaskAction::RunForwarder,
                ),
                TaskEvent::BindFailed => (TaskState::Stopped, TaskAction::Abort),
                _ => (self, TaskAction::Ignore),
            },
            TaskState::Running(_) => match event {
                TaskEvent::ShutdownSignal => (TaskState::ShuttingDown, TaskAction::BeginShutdown),
                TaskEvent::InternalFailure => (TaskState::ShuttingDown, TaskAction::BeginShutdown),
                _ => (self, TaskAction::Ignore),
            },
            TaskState::ShuttingDown => match event {
                TaskEvent::Drained => (TaskState::Stopped, TaskAction::Finish),
                _ => (self, TaskAction::Ignore),
            },
            TaskState::Stopped => (self, TaskAction::Ignore),
        }
    }

    /// Whether the task has ended.
    pub fn is_stopped(self) -> (stopped: bool)
        ensures
            stopped == (self == TaskState::Stopped),
    {
        match self {
            TaskState::Stopped => true,
            _ => false,
        }
    }
}

/// The exit code of the process: zero exactly when the transport closed
/// cleanly and the background task ended without error.
pub fn exit_code(transport: TransportExit, server: ServerExit) -> (code: u8)
    ensures
        code == exit_code_of(transport, server),
        code == 0 <==> transport == TransportExit::Closed && server == ServerExit::Clean,
{
    match (transport, server) {
        (TransportExit::Closed, ServerExit::Clean) => EXIT_CLEAN,
        _ => EXIT_FAILURE,
    }
}

/// The one-shot latch that tells the background task to stop. It fires at
/// most once, whoever signals first.
pub struct ShutdownLatch {
    sender: Option<tokio::sync::oneshot::Sender<()>>,
}

impl ShutdownLatch {
    /// Whether the latch has not been fired yet.
    pub closed spec fn armed(&self) -> bool {
        self.sender is Some
    }

    /// A latch that fires through `sender`.
    pub fn new(sender: tokio::sync::oneshot::Sender<()>) -> (latch: Self)
        ensures
            latch.armed(),
    {
        ShutdownLatch { sender: Some(sender) }
    }

    /// Whether the latch has not been fired yet.
    pub fn is_armed(&self) -> (armed: bool)
        ensures
            armed == self.armed(),
    {
        self.sender.is_some()
    }

    /// Fires the latch if it is still armed. Returns whether this call sent
    /// the signal and the receiving side was still there to take it; a latch
    /// that was fired before sends nothing.
    pub fn signal(&mut self) -> (delivered: bool)
        ensures
            !final(self).armed(),
            delivered ==> old(self).armed(),
    {
        match self.sender.take() {
            Some(sender) => fire(sender),
            None => false,
        }
    }
}

/// No event moves the task backwards, and shutting down is never skipped on
/// the way from running to stopped.
pub proof fn law_task_only_advances(state: TaskState, event: TaskEvent)
    ensures
        phase(state) <= phase(transition(state, event).0),
        state is Running && transition(state, event).0 != state ==> transition(state, event).0
            == TaskState::ShuttingDown,
{
}

/// A stopped task stays stopped, whatever happens.
pub proof fn law_stopped_is_final(events: Seq<TaskEvent>)
    ensures
        run(TaskState::Stopped, events) == TaskState::Stopped,
    decreases events.len(),
{
    if events.len() > 0 {
        law_stopped_is_final(events.drop_last());
    }
}

/// The role is decided once: a task that runs after a trace of events runs
/// in the role that the first bind gave it.
pub proof fn law_role_is_settled_by_the_bind(attempt: BindAttempt, events: Seq<TaskEvent>)
    ensures
        run(transition(TaskState::Starting, bind_event(attempt)).0, events) matches TaskState::Running(
            role,
        ) ==> role_of(attempt) == Some(role),
    decreases events.len(),
{
    let first = transition(TaskState::Starting, bind_event(attempt)).0;
    if events.len() > 0 {
        law_role_is_settled_by_the_bind(attempt, events.drop_last());
        lemma_phase_of_run(first, events.drop_last());
    }
}

/// A trace of events never moves the task backwards.
pub proof fn lemma_phase_of_run(state: TaskState, events: Seq<TaskEvent>)
    ensures
        phase(state) <= phase(run(state, events)),
    decreases events.len(),
{
    if events.len() > 0 {
        lemma_phase_of_run(state, events.drop_last());
        law_task_only_advances(run(state, events.drop_last()), events.last());
    }
}

} // verus!

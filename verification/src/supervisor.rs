//! The life of the child process, as a state machine.
//!
//! The supervisor itself touches nothing. Its owner tells it what happened
//! to the child ([`SupervisorEvent`]) and carries out what it answers
//! ([`SupervisorAction`]): start the process, wait and try the endpoint, send
//! the termination signal, kill.

use crate::error::{BackendError, BackendErrorView};
use crate::launch::{LaunchConfig, LaunchConfigView};
use vstd::prelude::*;
use vstd::string::*;

verus! {

/// How many times the endpoint is tried before the start is given up.
pub const READY_PROBES: u32 = 6000;

/// The pause before each try of the endpoint, in milliseconds.
pub const PROBE_INTERVAL_MILLIS: u64 = 100;

/// How long a signalled child is given to exit, in milliseconds, before it
/// is killed.
pub const EXIT_WAIT_MILLIS: u64 = 10000;

/// Where the supervisor stands.
#[derive(Debug, Clone, Copy, PartialEq, Eq, Structural)]
pub enum SupervisorState {
    /// Nothing was asked of the supervisor yet.
    NotStarted,
    /// The child is being started.
    Spawning,
    /// The child runs; its endpoint did not answer yet.
    WaitingForReady,
    /// The child runs and its endpoint answered.
    Ready,
    /// The start failed.
    Failed,
    /// The child was shut down, or was found gone. Nothing leads on from
    /// here.
    Terminated,
}

/// What became of the child process.
#[derive(Debug, Clone, Copy, PartialEq, Eq, Structural)]
pub enum ChildStatus {
    /// There is no child: none was started, or the start failed.
    Absent,
    /// The child runs.
    Running,
    /// The child was sent the termination signal and did not exit yet.
    Stopping,
    /// The child is gone.
    Exited,
}

/// What the owner reports to the supervisor.
#[derive(Debug, Clone, PartialEq, Eq)]
pub enum SupervisorEvent {
    /// The child is wanted.
    Start,
    /// The process was started.
    Spawned,
    /// The process could not be started, for the cause given.
    SpawnFailed(String),
    /// A connection to the endpoint came about.
    EndpointReachable,
    /// A connection to the endpoint was tried in vain.
    EndpointUnreachable,
    /// The child has exited, as described.
    ChildExited(String),
    /// The adapter is shut down or dropped.
    Shutdown,
    /// The signalled child did not exit within the time it was given.
    ExitWaitElapsed,
}

/// The mathematical value of a [`SupervisorEvent`].
pub enum EventView {
    Start,
    Spawned,
    SpawnFailed(Seq<char>),
    EndpointReachable,
    EndpointUnreachable,
    ChildExited(Seq<char>),
    Shutdown,
    ExitWaitElapsed,
}

impl View for SupervisorEvent {
    type V = EventView;

    open spec fn view(&self) -> EventView {
        match self {
            SupervisorEvent::Start => EventView::Start,
            SupervisorEvent::Spawned => EventView::Spawned,
            SupervisorEvent::SpawnFailed(cause) => EventView::SpawnFailed(cause@),
            SupervisorEvent::EndpointReachable => EventView::EndpointReachable,
            SupervisorEvent::EndpointUnreachable => EventView::EndpointUnreachable,
            SupervisorEvent::ChildExited(info) => EventView::ChildExited(info@),
            SupervisorEvent::Shutdown => EventView::Shutdown,
            SupervisorEvent::ExitWaitElapsed => EventView::ExitWaitElapsed,
        }
    }
}

/// What the supervisor asks of its owner.
#[derive(Debug, Clone, Copy, PartialEq, Eq, Structural)]
pub enum SupervisorAction {
    /// Nothing.
    Idle,
    /// Start the child process with the launch parameters.
    Spawn,
    /// Pause for the probe interval, then try to connect to the endpoint.
    Probe,
    /// The child is ready: bind the client to the endpoint.
    Serve,
    /// Send the child the termination signal and give it time to exit.
    Terminate,
    /// Kill the child.
    Kill,
}

/// The mathematical value of a [`ProcessSupervisor`].
pub struct SupervisorView {
    pub config: LaunchConfigView,
    pub max_probes: nat,
    pub probes: nat,
    pub state: SupervisorState,
    pub child: ChildStatus,
    pub failure: Option<Seq<char>>,
}

/// The failure text for a process that could not be started.
pub open spec fn spawn_failure(cause: Seq<char>) -> Seq<char> {
    "the child process could not be started: "@ + cause
}

/// The failure text for a child that exited before its endpoint answered.
pub open spec fn early_exit(info: Seq<char>) -> Seq<char> {
    "the child process exited before it was ready: "@ + info
}

/// The failure text for a child whose endpoint did not answer in time.
pub open spec fn never_ready() -> Seq<char> {
    "the child process did not become ready in time"@
}

impl SupervisorView {
    /// The supervisor before anything was asked of it.
    pub open spec fn fresh(config: LaunchConfigView, max_probes: nat) -> SupervisorView {
        SupervisorView {
            config,
            max_probes,
            probes: 0,
            state: SupervisorState::NotStarted,
            child: ChildStatus::Absent,
            failure: None,
        }
    }

    /// What holds of every supervisor: no more probes were made than are
    /// allowed, the child's status fits the state, and exactly a failed
    /// start has a failure text.
    pub open spec fn wf(self) -> bool {
        &&& self.probes <= self.max_probes
        &&& match self.state {
            SupervisorState::NotStarted => self.child == ChildStatus::Absent && self.probes == 0,
            SupervisorState::Spawning => self.child == ChildStatus::Absent && self.probes == 0,
            SupervisorState::WaitingForReady => self.child == ChildStatus::Running && self.probes
                >= 1,
            SupervisorState::Ready => self.child == ChildStatus::Running,
            SupervisorState::Failed => self.child != ChildStatus::Running,
            SupervisorState::Terminated => self.child == ChildStatus::Stopping || self.child
                == ChildStatus::Exited,
        }
        &&& self.failure is Some <==> self.state == SupervisorState::Failed
    }

    /// The supervisor after a failed start.
    pub open spec fn failed(self, child: ChildStatus, text: Seq<char>) -> SupervisorView {
        SupervisorView { state: SupervisorState::Failed, child, failure: Some(text), ..self }
    }

    /// The supervisor in another state, with the child as given.
    pub open spec fn moved(self, state: SupervisorState, child: ChildStatus) -> SupervisorView {
        SupervisorView { state, child, ..self }
    }

    /// The transition function: the supervisor after `event`, and what it
    /// asks of its owner.
    ///
    /// An event that means nothing in the present state changes nothing and
    /// asks for nothing.
    pub open spec fn next(self, event: EventView) -> (SupervisorView, SupervisorAction) {
        match self.state {
            SupervisorState::NotStarted => match event {
                EventView::Start => (
                    self.moved(SupervisorState::Spawning, self.child),
                    SupervisorAction::Spawn,
                ),
                _ => (self, SupervisorAction::Idle),
            },
            SupervisorState::Spawning => match event {
                EventView::Spawned => if self.max_probes == 0 {
                    (self.failed(ChildStatus::Stopping, never_ready()), SupervisorAction::Terminate)
                } else {
                    (
                        SupervisorView {
                            probes: 1,
                            ..self.moved(SupervisorState::WaitingForReady, ChildStatus::Running)
                        },
                        SupervisorAction::Probe,
                    )
                },
                EventView::SpawnFailed(cause) => (
                    self.failed(ChildStatus::Absent, spawn_failure(cause)),
                    SupervisorAction::Idle,
                ),
                _ => (self, SupervisorAction::Idle),
            },
            SupervisorState::WaitingForReady => match event {
                EventView::EndpointReachable => (
                    self.moved(SupervisorState::Ready, self.child),
                    SupervisorAction::Serve,
                ),
                EventView::EndpointUnreachable => if self.probes < self.max_probes {
                    (SupervisorView { probes: self.probes + 1, ..self }, SupervisorAction::Probe)
                } else {
                    (self.failed(ChildStatus::Stopping, never_ready()), SupervisorAction::Terminate)
                },
                EventView::ChildExited(info) => (
                    self.failed(ChildStatus::Exited, early_exit(info)),
                    SupervisorAction::Idle,
                ),
                _ => (self, SupervisorAction::Idle),
            },
            SupervisorState::Ready => match event {
                EventView::Shutdown => (
                    self.moved(SupervisorState::Terminated, ChildStatus::Stopping),
                    SupervisorAction::Terminate,
                ),
                EventView::ChildExited(_) => (
                    self.moved(SupervisorState::Terminated, ChildStatus::Exited),
                    SupervisorAction::Idle,
                ),
                _ => (self, SupervisorAction::Idle),
            },
            SupervisorState::Failed | SupervisorState::Terminated => if self.child
                == ChildStatus::Stopping {
                match event {
                    EventView::ChildExited(_) => (
                        self.moved(self.state, ChildStatus::Exited),
                        SupervisorAction::Idle,
                    ),
                    EventView::ExitWaitElapsed => (
                        self.moved(self.state, ChildStatus::Exited),
                        SupervisorAction::Kill,
                    ),
                    _ => (self, SupervisorAction::Idle),
                }
            } else {
                (self, SupervisorAction::Idle)
            },
        }
    }
}

/// The supervisor of one child process.
#[derive(Debug, Clone, PartialEq, Eq)]
pub struct ProcessSupervisor {
    config: LaunchConfig,
    max_probes: u32,
    probes: u32,
    state: SupervisorState,
    child: ChildStatus,
    failure: Option<String>,
}

impl View for ProcessSupervisor {
    type V = SupervisorView;

    closed spec fn view(&self) -> SupervisorView {
        SupervisorView {
            config: self.config@,
            max_probes: self.max_probes as nat,
            probes: self.probes as nat,
            state: self.state,
            child: self.child,
            failure: match self.failure {
                Some(text) => Some(text@),
                None => None,
            },
        }
    }
}

impl ProcessSupervisor {
    /// A supervisor for a child with the given launch parameters, whose
    /// endpoint is tried at most `max_probes` times.
    ///
    /// Parameters with a flaw are refused with a start error that names the
    /// flaw; nothing was started then, and nothing will be.
    pub fn new(config: LaunchConfig, max_probes: u32) -> (outcome: Result<
        ProcessSupervisor,
        BackendError,
    >)
        ensures
            match config@.flaw() {
                Some(text) => outcome matches Err(e) && e@ == BackendErrorView::Start(text),
                None => outcome matches Ok(supervisor) && supervisor@ == SupervisorView::fresh(
                    config@,
                    max_probes as nat,
                ),
            },
    {
        match config.flaw() {
            Some(text) => Err(BackendError::Start(text)),
            None => Ok(
                ProcessSupervisor {
                    config,
                    max_probes,
                    probes: 0,
                    state: SupervisorState::NotStarted,
                    child: ChildStatus::Absent,
                    failure: None,
                },
            ),
        }
    }

    /// Where the supervisor stands.
    pub fn state(&self) -> (state: SupervisorState)
        ensures
            state == self@.state,
    {
        self.state
    }

    /// What became of the child.
    pub fn child(&self) -> (child: ChildStatus)
        ensures
            child == self@.child,
    {
        self.child
    }

    /// How many times the endpoint was tried.
    pub fn probes(&self) -> (probes: u32)
        ensures
            probes == self@.probes,
    {
        self.probes
    }

    /// The parameters that the child is started with.
    pub fn config(&self) -> (config: &LaunchConfig)
        ensures
            config@ == self@.config,
    {
        &self.config
    }

    /// The error of a failed start, which carries the cause; `None` where
    /// no start has failed.
    pub fn start_error(&self) -> (error: Option<BackendError>)
        ensures
            match self@.failure {
                Some(text) => error matches Some(e) && e@ == BackendErrorView::Start(text),
                None => error is None,
            },
    {
        match &self.failure {
            Some(text) => Some(BackendError::Start(text.clone())),
            None => None,
        }
    }

    /// Takes note of `event` and says what is to be done.
    pub fn step(&mut self, event: SupervisorEvent) -> (action: SupervisorAction)
        ensures
            (final(self)@, action) == old(self)@.next(event@),
            old(self)@.wf() ==> final(self)@.wf(),
    {
        match self.state {
            SupervisorState::NotStarted => match event {
                SupervisorEvent::Start => {
                    self.state = SupervisorState::Spawning;
                    SupervisorAction::Spawn
                },
                _ => SupervisorAction::Idle,
            },
            SupervisorState::Spawning => match event {
                SupervisorEvent::Spawned => {
                    if self.max_probes == 0 {
                        self.fail(
                            ChildStatus::Stopping,
                            String::from_str("the child process did not become ready in time"),
                        );
                        SupervisorAction::Terminate
                    } else {
                        self.state = SupervisorState::WaitingForReady;
                        self.child = ChildStatus::Running;
                        self.probes = 1;
                        SupervisorAction::Probe
                    }
                },
                SupervisorEvent::SpawnFailed(cause) => {
                    self.fail(
                        ChildStatus::Absent,
                        String::from_str("the child process could not be started: ").concat(
                            cause.as_str(),
                        ),
                    );
                    SupervisorAction::Idle
                },
                _ => SupervisorAction::Idle,
            },
            SupervisorState::WaitingForReady => match event {
                SupervisorEvent::EndpointReachable => {
                    self.state = SupervisorState::Ready;
                    SupervisorAction::Serve
                },
                SupervisorEvent::EndpointUnreachable => {
                    if self.probes < self.max_probes {
                        self.probes = self.probes + 1;
                        SupervisorAction::Probe
                    } else {
                        self.fail(
                            ChildStatus::Stopping,
                            String::from_str("the child process did not become ready in time"),
                        );
                        SupervisorAction::Terminate
                    }
                },
                SupervisorEvent::ChildExited(info) => {
                    self.fail(
                        ChildStatus::Exited,
                        String::from_str("the child process exited before it was ready: ").concat(
                            info.as_str(),
                        ),
                    );
                    SupervisorAction::Idle
                },
                _ => SupervisorAction::Idle,
            },
            SupervisorState::Ready => match event {
                SupervisorEvent::Shutdown => {
                    self.state = SupervisorState::Terminated;
                    self.child = ChildStatus::Stopping;
                    SupervisorAction::Terminate
                },
                SupervisorEvent::ChildExited(_) => {
                    self.state = SupervisorState::Terminated;
                    self.child = ChildStatus::Exited;
                    SupervisorAction::Idle
                },
                _ => SupervisorAction::Idle,
            },
            SupervisorState::Failed | SupervisorState::Terminated => {
                match self.child {
                    ChildStatus::Stopping => match event {
                        SupervisorEvent::ChildExited(_) => {
                            self.child = ChildStatus::Exited;
                            SupervisorAction::Idle
                        },
                        SupervisorEvent::ExitWaitElapsed => {
                            self.child = ChildStatus::Exited;
                            SupervisorAction::Kill
                        },
                        _ => SupervisorAction::Idle,
                    },
                    _ => SupervisorAction::Idle,
                }
            },
        }
    }

    /// Records a failed start.
    fn fail(&mut self, child: ChildStatus, text: String)
        ensures
            final(self)@ == old(self)@.failed(child, text@),
    {
        self.state = SupervisorState::Failed;
        self.child = child;
        self.failure = Some(text);
    }
}

} // verus!

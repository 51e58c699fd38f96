//! The control loop of the NetworkManager worker as a state machine. The
//! driver receives signals, opens the D-Bus connection, runs commands and takes
//! snapshots; after each of those it hands the outcome to [`BackendLoop::step`],
//! which says what to report to the window and what to do next. Running a
//! command is decided here too: which NetworkManager call it makes, and what
//! follows once that call has returned.
use vstd::prelude::*;

use crate::backend::{
    connect_security, failure_message, failure_text, finished_text, humanize_nm_error, operation_finished_message,
    unavailable_snapshot, ConnectFailure, ConnectSecurity,
};
use crate::model::{duplicate_text, AppSnapshot, ConnectRequest, SecurityKind, WifiCommand, WifiEvent};
use crate::text::join3;

verus! {

/// What wakes the worker up.
#[derive(Debug, Clone)]
pub enum BackendSignal {
    /// A command from the window or the tray.
    Command(WifiCommand),
    /// NetworkManager reported a change.
    SnapshotRefresh,
    /// A change monitor (`"Network"` or `"Device"`) stopped with an error.
    MonitorFailed(&'static str, String),
}

/// The outcome of what the driver was last asked to do.
#[derive(Debug)]
pub enum WorkerInput {
    /// A signal arrived.
    Signal(BackendSignal),
    /// No signal arrived within the refresh interval.
    TimedOut,
    /// Every sender of signals is gone.
    Disconnected,
    /// Opening NetworkManager and the system bus succeeded or failed.
    Opened(Result<(), String>),
    /// Taking a snapshot succeeded or failed.
    Snapshot(Result<AppSnapshot, String>),
    /// Running a command succeeded, or failed with the message to report.
    Handled(Result<(), String>),
}

/// A step for the driver to take. Every step list ends with exactly one of
/// `OpenWorker`, `TakeSnapshot`, `Handle`, `AwaitSignal` or `Stop`, which says
/// what the driver does next; the items before it are done first, in order.
#[derive(Debug, Clone)]
pub enum WorkerAction {
    /// Send this event to the window.
    Emit(WifiEvent),
    /// Start the change monitors; the network monitor only when Wi-Fi is available.
    StartMonitors(bool),
    /// Close the connection to NetworkManager and stop its monitors.
    DropWorker,
    /// Open NetworkManager and the system bus.
    OpenWorker,
    /// Take a snapshot.
    TakeSnapshot,
    /// Run this command.
    Handle(WifiCommand),
    /// Wait for the next signal.
    AwaitSignal,
    /// Leave the loop.
    Stop,
}

/// Where the loop stands.
#[derive(Debug, Clone, Copy, PartialEq, Eq, Structural)]
pub enum LoopPhase {
    /// Waiting for a signal.
    Idle,
    /// Waiting for NetworkManager to open.
    Opening,
    /// Waiting for the first snapshot of a new connection.
    FirstSnapshot,
    /// Waiting for a command to finish.
    Handling,
    /// Waiting for the snapshot that follows a failed command.
    AfterFailure,
    /// Waiting for the snapshot that follows a successful command.
    AfterSuccess,
    /// Waiting for a refresh snapshot.
    Refreshing,
    /// The loop has ended.
    Stopped,
}

/// What to do once a new connection to NetworkManager is up.
#[derive(Debug, Clone)]
pub enum Pending {
    /// Nothing: the connection was opened at start-up.
    Nothing,
    /// Take a fresh snapshot.
    Refresh,
    /// Run this command.
    Command(WifiCommand),
}

/// The state of the worker loop.
#[derive(Debug, Clone)]
pub struct BackendLoop {
    pub phase: LoopPhase,
    /// A connection to NetworkManager is open and has produced a snapshot.
    pub worker_ready: bool,
    pub pending: Pending,
}

impl BackendLoop {
    /// The loop is consistent: a connection is being opened exactly in the
    /// phases that wait for it, one is ready in the phases that use it, and
    /// work is kept for later only while a connection is being opened.
    pub open spec fn wf(self) -> bool {
        &&& (self.phase == LoopPhase::Opening || self.phase == LoopPhase::FirstSnapshot) ==> !self.worker_ready
        &&& (self.phase == LoopPhase::Handling || self.phase == LoopPhase::AfterFailure
            || self.phase == LoopPhase::AfterSuccess || self.phase == LoopPhase::Refreshing) ==> self.worker_ready
        &&& !(self.phase == LoopPhase::Opening || self.phase == LoopPhase::FirstSnapshot) ==> self.pending is Nothing
        &&& self.pending matches Pending::Command(c) ==> !(c is Shutdown)
    }
}

/// `s` is the snapshot shown while NetworkManager cannot be used.
pub open spec fn is_unavailable(s: AppSnapshot, running: bool, error: Seq<char>) -> bool {
    &&& s.manager_running == running
    &&& s.transient_error matches Some(t) && t@ == error
    &&& s.primary_device_id is None
    &&& s.current_connection is None
    &&& s.visible_networks@.len() == 0
    &&& !s.wifi_available
    &&& !s.radio_enabled
    &&& !s.rfkill_blocked
}

/// `a` reports an unavailable NetworkManager.
pub open spec fn emits_unavailable(a: WorkerAction, running: bool, error: Seq<char>) -> bool {
    a matches WorkerAction::Emit(WifiEvent::SnapshotUpdated(s)) && is_unavailable(*s, running, error)
}

/// `a` reports the error `message`.
pub open spec fn emits_error(a: WorkerAction, message: Seq<char>) -> bool {
    a matches WorkerAction::Emit(WifiEvent::ErrorRaised(m)) && m@ == message
}

/// `a` sends the snapshot `s` to the window.
pub open spec fn emits_snapshot(a: WorkerAction, s: AppSnapshot) -> bool {
    a matches WorkerAction::Emit(WifiEvent::SnapshotUpdated(t)) && *t == s
}

/// The error reported when a change monitor stops.
pub open spec fn monitor_failure_text(kind: &str, message: String) -> Seq<char> {
    kind@ + " monitoring stopped: "@ + message@
}

/// The error reported when a command arrives and NetworkManager cannot be opened.
pub open spec fn unavailable_text() -> Seq<char> {
    "NetworkManager is unavailable."@
}

/// The loop after a step that drops the connection and waits for a signal.
pub open spec fn idle_without_worker(l: BackendLoop) -> bool {
    l.phase == LoopPhase::Idle && !l.worker_ready && l.pending is Nothing
}

/// The loop after a step that keeps the connection and waits for a signal.
pub open spec fn idle_with_worker(l: BackendLoop) -> bool {
    l.phase == LoopPhase::Idle && l.worker_ready && l.pending is Nothing
}

/// What one step does: the loop `next` and the steps `acts` that follow from
/// the loop `cur` and the outcome `input`. An outcome that the phase does not
/// wait for changes nothing and asks for nothing.
pub open spec fn step_spec(cur: BackendLoop, input: WorkerInput, next: BackendLoop, acts: Seq<WorkerAction>) -> bool {
    match cur.phase {
        LoopPhase::Stopped => next == cur && acts == seq![WorkerAction::Stop],
        LoopPhase::Idle => match input {
            WorkerInput::Signal(BackendSignal::Command(c)) => if c is Shutdown {
                next.phase == LoopPhase::Stopped && next.worker_ready == cur.worker_ready && next.pending is Nothing
                    && acts == seq![WorkerAction::Stop]
            } else if cur.worker_ready {
                next.phase == LoopPhase::Handling && next.worker_ready && next.pending is Nothing
                    && acts == seq![WorkerAction::Handle(c)]
            } else {
                next.phase == LoopPhase::Opening && !next.worker_ready && next.pending == Pending::Command(c)
                    && acts == seq![WorkerAction::OpenWorker]
            },
            WorkerInput::Signal(BackendSignal::SnapshotRefresh) | WorkerInput::TimedOut => if cur.worker_ready {
                next.phase == LoopPhase::Refreshing && next.worker_ready && next.pending is Nothing
                    && acts == seq![WorkerAction::TakeSnapshot]
            } else {
                next.phase == LoopPhase::Opening && !next.worker_ready && next.pending is Refresh
                    && acts == seq![WorkerAction::OpenWorker]
            },
            WorkerInput::Signal(BackendSignal::MonitorFailed(kind, message)) => {
                &&& idle_without_worker(next)
                &&& acts.len() == 4
                &&& emits_error(acts[0], monitor_failure_text(kind, message))
                &&& emits_unavailable(acts[1], true, monitor_failure_text(kind, message))
                &&& acts[2] == WorkerAction::DropWorker
                &&& acts[3] == WorkerAction::AwaitSignal
            },
            WorkerInput::Disconnected => next.phase == LoopPhase::Stopped && next.worker_ready == cur.worker_ready
                && next.pending is Nothing && acts == seq![WorkerAction::Stop],
            _ => next == cur && acts.len() == 0,
        },
        LoopPhase::Opening => match input {
            WorkerInput::Opened(Ok(())) => next.phase == LoopPhase::FirstSnapshot && !next.worker_ready
                && next.pending == cur.pending && acts == seq![WorkerAction::TakeSnapshot],
            WorkerInput::Opened(Err(e)) => {
                &&& idle_without_worker(next)
                &&& emits_unavailable(acts[0], false, e@)
                &&& if cur.pending is Command {
                    acts.len() == 3 && emits_error(acts[1], unavailable_text())
                } else {
                    acts.len() == 2
                }
                &&& acts.last() == WorkerAction::AwaitSignal
            },
            _ => next == cur && acts.len() == 0,
        },
        LoopPhase::FirstSnapshot => match input {
            WorkerInput::Snapshot(Ok(s)) => {
                &&& next.worker_ready && next.pending is Nothing
                &&& acts.len() == 3
                &&& acts[0] == WorkerAction::StartMonitors(s.wifi_available)
                &&& emits_snapshot(acts[1], s)
                &&& match cur.pending {
                    Pending::Nothing => next.phase == LoopPhase::Idle && acts[2] == WorkerAction::AwaitSignal,
                    Pending::Refresh => next.phase == LoopPhase::Refreshing && acts[2] == WorkerAction::TakeSnapshot,
                    Pending::Command(c) => next.phase == LoopPhase::Handling && acts[2] == WorkerAction::Handle(c),
                }
            },
            WorkerInput::Snapshot(Err(e)) => {
                &&& idle_without_worker(next)
                &&& emits_unavailable(acts[0], true, e@)
                &&& acts[1] == WorkerAction::DropWorker
                &&& if cur.pending is Command {
                    acts.len() == 4 && emits_error(acts[2], unavailable_text())
                } else {
                    acts.len() == 3
                }
                &&& acts.last() == WorkerAction::AwaitSignal
            },
            _ => next == cur && acts.len() == 0,
        },
        LoopPhase::Handling => match input {
            WorkerInput::Handled(Ok(())) => next.phase == LoopPhase::AfterSuccess && next.worker_ready
                && next.pending is Nothing && acts == seq![WorkerAction::TakeSnapshot],
            WorkerInput::Handled(Err(m)) => {
                &&& next.phase == LoopPhase::AfterFailure && next.worker_ready && next.pending is Nothing
                &&& acts.len() == 2
                &&& emits_error(acts[0], m@)
                &&& acts[1] == WorkerAction::TakeSnapshot
            },
            _ => next == cur && acts.len() == 0,
        },
        LoopPhase::AfterFailure | LoopPhase::AfterSuccess | LoopPhase::Refreshing => match input {
            WorkerInput::Snapshot(Ok(s)) => {
                &&& idle_with_worker(next)
                &&& acts.len() == 2
                &&& emits_snapshot(acts[0], s)
                &&& acts[1] == WorkerAction::AwaitSignal
            },
            WorkerInput::Snapshot(Err(e)) => {
                &&& idle_without_worker(next)
                &&& if cur.phase == LoopPhase::AfterSuccess {
                    &&& acts.len() == 4
                    &&& emits_error(acts[0], e@)
                    &&& emits_unavailable(acts[1], true, e@)
                    &&& acts[2] == WorkerAction::DropWorker
                } else {
                    &&& acts.len() == 3
                    &&& emits_unavailable(acts[0], true, e@)
                    &&& acts[1] == WorkerAction::DropWorker
                }
                &&& acts.last() == WorkerAction::AwaitSignal
            },
            _ => next == cur && acts.len() == 0,
        },
    }
}

fn unavailable_event(running: bool, error: String) -> (a: WorkerAction)
    ensures
        emits_unavailable(a, running, error@),
{
    WorkerAction::Emit(WifiEvent::SnapshotUpdated(Box::new(unavailable_snapshot(running, Some(error)))))
}

fn error_event(message: String) -> (a: WorkerAction)
    ensures
        emits_error(a, message@),
{
    WorkerAction::Emit(WifiEvent::ErrorRaised(message))
}

fn single(a: WorkerAction) -> (v: Vec<WorkerAction>)
    ensures
        v@ == seq![a],
{
    let mut v = Vec::new();
    v.push(a);
    assert(v@ =~= seq![a]);
    v
}

impl BackendLoop {
    /// The loop at start-up, and its first step: open NetworkManager.
    pub fn start() -> (r: (BackendLoop, WorkerAction))
        ensures
            r.0.wf(),
            r.0.phase == LoopPhase::Opening,
            !r.0.worker_ready,
            r.0.pending is Nothing,
            r.1 == WorkerAction::OpenWorker,
    {
        (BackendLoop { phase: LoopPhase::Opening, worker_ready: false, pending: Pending::Nothing }, WorkerAction::OpenWorker)
    }

    /// Takes the outcome of the last request and returns the next steps.
    pub fn step(&mut self, input: WorkerInput) -> (acts: Vec<WorkerAction>)
        requires
            old(self).wf(),
        ensures
            final(self).wf(),
            step_spec(*old(self), input, *final(self), acts@),
    {
        match self.phase {
            LoopPhase::Stopped => {
                single(WorkerAction::Stop)
            },
            LoopPhase::Idle => match input {
                WorkerInput::Signal(BackendSignal::Command(c)) => {
                    let mut acts = Vec::new();
                    match c {
                        WifiCommand::Shutdown => {
                            self.phase = LoopPhase::Stopped;
                            self.pending = Pending::Nothing;
                            acts.push(WorkerAction::Stop);
                        },
                        _ => {
                            if self.worker_ready {
                                self.phase = LoopPhase::Handling;
                                self.pending = Pending::Nothing;
                                acts.push(WorkerAction::Handle(c));
                            } else {
                                self.phase = LoopPhase::Opening;
                                self.pending = Pending::Command(c);
                                acts.push(WorkerAction::OpenWorker);
                            }
                        },
                    }
                    acts
                },
                WorkerInput::Signal(BackendSignal::SnapshotRefresh) | WorkerInput::TimedOut => {
                    let mut acts = Vec::new();
                    if self.worker_ready {
                        self.phase = LoopPhase::Refreshing;
                        self.pending = Pending::Nothing;
                        acts.push(WorkerAction::TakeSnapshot);
                    } else {
                        self.phase = LoopPhase::Opening;
                        self.pending = Pending::Refresh;
                        acts.push(WorkerAction::OpenWorker);
                    }
                    acts
                },
                WorkerInput::Signal(BackendSignal::MonitorFailed(kind, message)) => {
                    let text = join3(kind, " monitoring stopped: ", message.as_str());
                    let mut acts = Vec::new();
                    acts.push(error_event(text.clone()));
                    acts.push(unavailable_event(true, text));
                    acts.push(WorkerAction::DropWorker);
                    acts.push(WorkerAction::AwaitSignal);
                    self.phase = LoopPhase::Idle;
                    self.worker_ready = false;
                    self.pending = Pending::Nothing;
                    acts
                },
                WorkerInput::Disconnected => {
                    self.phase = LoopPhase::Stopped;
                    self.pending = Pending::Nothing;
                    single(WorkerAction::Stop)
                },
                _ => Vec::new(),
            },
            LoopPhase::Opening => match input {
                WorkerInput::Opened(Ok(())) => {
                    self.phase = LoopPhase::FirstSnapshot;
                    single(WorkerAction::TakeSnapshot)
                },
                WorkerInput::Opened(Err(e)) => {
                    let mut acts = Vec::new();
                    acts.push(unavailable_event(false, e));
                    let had_command = match self.pending {
                        Pending::Command(_) => true,
                        _ => false,
                    };
                    if had_command {
                        acts.push(error_event("NetworkManager is unavailable.".to_owned()));
                    }
                    acts.push(WorkerAction::AwaitSignal);
                    self.phase = LoopPhase::Idle;
                    self.worker_ready = false;
                    self.pending = Pending::Nothing;
                    acts
                },
                _ => Vec::new(),
            },
            LoopPhase::FirstSnapshot => match input {
                WorkerInput::Snapshot(Ok(s)) => {
                    let mut acts = Vec::new();
                    acts.push(WorkerAction::StartMonitors(s.wifi_available));
                    acts.push(WorkerAction::Emit(WifiEvent::SnapshotUpdated(Box::new(s))));
                    let mut pending = Pending::Nothing;
                    std::mem::swap(&mut pending, &mut self.pending);
                    match pending {
                        Pending::Nothing => {
                            self.phase = LoopPhase::Idle;
                            acts.push(WorkerAction::AwaitSignal);
                        },
                        Pending::Refresh => {
                            self.phase = LoopPhase::Refreshing;
                            acts.push(WorkerAction::TakeSnapshot);
                        },
                        Pending::Command(c) => {
                            self.phase = LoopPhase::Handling;
                            acts.push(WorkerAction::Handle(c));
                        },
                    }
                    self.worker_ready = true;
                    acts
                },
                WorkerInput::Snapshot(Err(e)) => {
                    let mut acts = Vec::new();
                    acts.push(unavailable_event(true, e));
                    acts.push(WorkerAction::DropWorker);
                    let had_command = match self.pending {
                        Pending::Command(_) => true,
                        _ => false,
                    };
                    if had_command {
                        acts.push(error_event("NetworkManager is unavailable.".to_owned()));
                    }
                    acts.push(WorkerAction::AwaitSignal);
                    self.phase = LoopPhase::Idle;
                    self.worker_ready = false;
                    self.pending = Pending::Nothing;
                    acts
                },
                _ => Vec::new(),
            },
            LoopPhase::Handling => match input {
                WorkerInput::Handled(Ok(())) => {
                    self.phase = LoopPhase::AfterSuccess;
                    single(WorkerAction::TakeSnapshot)
                },
                WorkerInput::Handled(Err(m)) => {
                    self.phase = LoopPhase::AfterFailure;
                    let mut acts = Vec::new();
                    acts.push(error_event(m));
                    acts.push(WorkerAction::TakeSnapshot);
                    acts
                },
                _ => Vec::new(),
            },
            LoopPhase::AfterFailure | LoopPhase::AfterSuccess | LoopPhase::Refreshing => match input {
                WorkerInput::Snapshot(Ok(s)) => {
                    self.phase = LoopPhase::Idle;
                    let mut acts = Vec::new();
                    acts.push(WorkerAction::Emit(WifiEvent::SnapshotUpdated(Box::new(s))));
                    acts.push(WorkerAction::AwaitSignal);
                    acts
                },
                WorkerInput::Snapshot(Err(e)) => {
                    let mut acts = Vec::new();
                    if self.phase == LoopPhase::AfterSuccess {
                        acts.push(error_event(e.clone()));
                    }
                    acts.push(unavailable_event(true, e));
                    acts.push(WorkerAction::DropWorker);
                    acts.push(WorkerAction::AwaitSignal);
                    self.phase = LoopPhase::Idle;
                    self.worker_ready = false;
                    acts
                },
                _ => Vec::new(),
            },
        }
    }
}


/// The steps that tell the driver what to do next.
pub open spec fn is_request(a: WorkerAction) -> bool {
    ||| a == WorkerAction::OpenWorker
    ||| a == WorkerAction::TakeSnapshot
    ||| a is Handle
    ||| a == WorkerAction::AwaitSignal
    ||| a == WorkerAction::Stop
}

/// The request that a phase waits on.
pub open spec fn request_fits(phase: LoopPhase, a: WorkerAction) -> bool {
    match phase {
        LoopPhase::Idle => a == WorkerAction::AwaitSignal,
        LoopPhase::Opening => a == WorkerAction::OpenWorker,
        LoopPhase::Handling => a is Handle,
        LoopPhase::Stopped => a == WorkerAction::Stop,
        _ => a == WorkerAction::TakeSnapshot,
    }
}

/// Once stopped, the loop stays stopped and only asks to stop.
pub proof fn lemma_stopped_is_final(cur: BackendLoop, input: WorkerInput, next: BackendLoop, acts: Seq<WorkerAction>)
    requires
        cur.phase == LoopPhase::Stopped,
        step_spec(cur, input, next, acts),
    ensures
        next.phase == LoopPhase::Stopped,
        acts == seq![WorkerAction::Stop],
{
}

/// A shutdown command, or the loss of every signal sender, stops a waiting loop.
pub proof fn lemma_shutdown_stops(cur: BackendLoop, input: WorkerInput, next: BackendLoop, acts: Seq<WorkerAction>)
    requires
        cur.phase == LoopPhase::Idle,
        input matches WorkerInput::Signal(BackendSignal::Command(WifiCommand::Shutdown)) || input is Disconnected,
        step_spec(cur, input, next, acts),
    ensures
        next.phase == LoopPhase::Stopped,
        acts == seq![WorkerAction::Stop],
{
}

/// Every step that does something ends with exactly one request, and that
/// request is the one the new phase waits on; a step that does nothing leaves
/// the loop as it was.
pub proof fn lemma_step_ends_with_its_request(cur: BackendLoop, input: WorkerInput, next: BackendLoop, acts: Seq<WorkerAction>)
    requires
        cur.wf(),
        step_spec(cur, input, next, acts),
    ensures
        acts.len() == 0 ==> next == cur,
        acts.len() > 0 ==> request_fits(next.phase, acts.last()) && is_request(acts.last()),
        forall|i: int| 0 <= i < acts.len() - 1 ==> !is_request(#[trigger] acts[i]),
{
}

/// Whenever the connection to NetworkManager is dropped, the window is sent
/// a snapshot saying so, and the loop no longer counts on a connection.
pub proof fn lemma_drop_reports_unavailable(cur: BackendLoop, input: WorkerInput, next: BackendLoop, acts: Seq<WorkerAction>, i: int)
    requires
        cur.wf(),
        step_spec(cur, input, next, acts),
        0 <= i < acts.len(),
        acts[i] == WorkerAction::DropWorker,
    ensures
        !next.worker_ready,
        exists|j: int, e: Seq<char>| 0 <= j < i && #[trigger] emits_unavailable(acts[j], true, e),
{
}


/// A command is never silently lost while NetworkManager is away: from a
/// waiting loop without a connection, the command first asks to open one, and
/// if that fails the window is told that NetworkManager is unavailable.
pub proof fn lemma_command_without_manager_is_reported(
    cur: BackendLoop,
    c: WifiCommand,
    mid: BackendLoop,
    acts1: Seq<WorkerAction>,
    e: String,
    next: BackendLoop,
    acts2: Seq<WorkerAction>,
)
    requires
        cur.wf(),
        cur.phase == LoopPhase::Idle,
        !cur.worker_ready,
        !(c is Shutdown),
        step_spec(cur, WorkerInput::Signal(BackendSignal::Command(c)), mid, acts1),
        step_spec(mid, WorkerInput::Opened(Err(e)), next, acts2),
    ensures
        acts1 == seq![WorkerAction::OpenWorker],
        emits_unavailable(acts2[0], false, e@),
        emits_error(acts2[1], unavailable_text()),
        next.phase == LoopPhase::Idle,
{
}

/// With a connection ready, a command is run at once, and whatever its
/// outcome a fresh snapshot is asked for next.
pub proof fn lemma_command_is_followed_by_snapshot(
    cur: BackendLoop,
    c: WifiCommand,
    mid: BackendLoop,
    acts1: Seq<WorkerAction>,
    outcome: Result<(), String>,
    next: BackendLoop,
    acts2: Seq<WorkerAction>,
)
    requires
        cur.wf(),
        cur.phase == LoopPhase::Idle,
        cur.worker_ready,
        !(c is Shutdown),
        step_spec(cur, WorkerInput::Signal(BackendSignal::Command(c)), mid, acts1),
        step_spec(mid, WorkerInput::Handled(outcome), next, acts2),
    ensures
        acts1 == seq![WorkerAction::Handle(c)],
        acts2.last() == WorkerAction::TakeSnapshot,
        outcome matches Err(m) ==> emits_error(acts2[0], m@),
{
}

/// The NetworkManager call a command makes.
#[derive(Debug, Clone)]
pub enum ManagerCall {
    /// Scan for access points.
    Scan,
    /// Join a visible network with these credentials.
    Connect { ssid: String, security: ConnectSecurity },
    /// Create and activate a hidden-network profile on this device.
    ConnectHidden { device_id: String, ssid: String, security: ConnectSecurity },
    /// Disconnect the active Wi-Fi connection.
    Disconnect,
    /// Delete the saved profiles of this SSID.
    Forget(String),
}

/// `security` holds the credentials for the request: none for an open
/// network, else WPA Personal with the passphrase (empty when there is none).
pub open spec fn credentials_for(request: ConnectRequest, security: ConnectSecurity) -> bool {
    if request.security == SecurityKind::Open {
        security == ConnectSecurity::Open
    } else {
        security matches ConnectSecurity::WpaPsk { psk } && psk@ == (match request.passphrase {
            Some(p) => p@,
            None => Seq::<char>::empty(),
        })
    }
}

/// `call` is the call that `command` makes; a shutdown makes none.
pub open spec fn is_call_for(command: WifiCommand, call: Option<ManagerCall>) -> bool {
    match command {
        WifiCommand::Refresh => call == Some(ManagerCall::Scan),
        WifiCommand::Connect(request) => if request.hidden {
            call matches Some(ManagerCall::ConnectHidden { device_id, ssid, security })
                && device_id == request.device_id && ssid == request.ssid && credentials_for(request, security)
        } else {
            call matches Some(ManagerCall::Connect { ssid, security }) && ssid == request.ssid
                && credentials_for(request, security)
        },
        WifiCommand::Disconnect => call == Some(ManagerCall::Disconnect),
        WifiCommand::Forget(ssid) => call == Some(ManagerCall::Forget(ssid)),
        WifiCommand::Shutdown => call is None,
    }
}

/// The NetworkManager call a command makes: a scan for a refresh, a hidden
/// join or a join with the request's credentials for a connection, a
/// disconnect, or the removal of a saved profile; nothing for a shutdown.
pub fn command_call(command: &WifiCommand) -> (r: Option<ManagerCall>)
    ensures
        is_call_for(*command, r),
{
    match command {
        WifiCommand::Refresh => Some(ManagerCall::Scan),
        WifiCommand::Connect(request) => if request.hidden {
            Some(ManagerCall::ConnectHidden {
                device_id: request.device_id.clone(),
                ssid: request.ssid.clone(),
                security: connect_security(request),
            })
        } else {
            Some(ManagerCall::Connect { ssid: request.ssid.clone(), security: connect_security(request) })
        },
        WifiCommand::Disconnect => Some(ManagerCall::Disconnect),
        WifiCommand::Forget(ssid) => Some(ManagerCall::Forget(ssid.clone())),
        WifiCommand::Shutdown => None,
    }
}

/// A connection request, hidden or not, reaches NetworkManager with its own
/// SSID and credentials: none for an open network, otherwise WPA Personal with
/// the request's passphrase (empty when there is none). A visible network is
/// joined by name, a hidden one on the request's device.
pub proof fn lemma_connect_calls_carry_the_request(request: ConnectRequest, call: Option<ManagerCall>)
    requires
        is_call_for(WifiCommand::Connect(request), call),
    ensures
        match call {
            Some(ManagerCall::Connect { ssid, security }) => {
                &&& !request.hidden
                &&& ssid == request.ssid
                &&& (security == ConnectSecurity::Open <==> request.security == SecurityKind::Open)
                &&& request.security != SecurityKind::Open ==> (security matches ConnectSecurity::WpaPsk { psk }
                    && psk@ == (match request.passphrase {
                        Some(p) => p@,
                        None => Seq::<char>::empty(),
                    }))
            },
            Some(ManagerCall::ConnectHidden { device_id, ssid, security }) => {
                &&& request.hidden
                &&& device_id == request.device_id
                &&& ssid == request.ssid
                &&& (security == ConnectSecurity::Open <==> request.security == SecurityKind::Open)
                &&& request.security != SecurityKind::Open ==> (security matches ConnectSecurity::WpaPsk { psk }
                    && psk@ == (match request.passphrase {
                        Some(p) => p@,
                        None => Seq::<char>::empty(),
                    }))
            },
            _ => false,
        },
{
}

/// What the worker does once a command's call has returned.
#[derive(Debug)]
pub struct CommandFinish {
    /// The message of the "finished" event to send, if one is sent.
    pub finished: Option<String>,
    /// The explanation kept for the next snapshots.
    pub transient_error: Option<String>,
    /// What the command reports to the worker loop: success, or the message
    /// of its failure.
    pub handled: Result<(), String>,
}

/// The contents of an optional string.
pub open spec fn opt_text(o: Option<String>) -> Option<Seq<char>> {
    match o {
        Some(s) => Some(s@),
        None => None,
    }
}

/// `r` is what follows the call of `command` that ended with `outcome`, with
/// `transient` the explanation kept before it.
pub open spec fn finishes_as(command: WifiCommand, transient: Option<String>, outcome: Result<(), ConnectFailure>, r: CommandFinish) -> bool {
    if command is Shutdown {
        r.finished is None && r.transient_error == transient && r.handled is Ok
    } else {
        match outcome {
            Ok(()) => opt_text(r.finished) == finished_text(command) && r.transient_error is None && r.handled is Ok,
            Err(f) => {
                &&& r.finished is None
                &&& if command is Connect {
                    opt_text(r.transient_error) == Some(failure_text(f))
                        && (r.handled matches Err(m) && m@ == failure_text(f))
                } else {
                    r.transient_error == transient && (r.handled matches Err(m) && m@ == (match transient {
                        Some(t) => t@,
                        None => failure_text(f),
                    }))
                }
            },
        }
    }
}

/// Settles a command once its call has returned. On success the kept
/// explanation is cleared and the "finished" message is sent. A failed
/// connection keeps the readable explanation of its failure and reports it; any
/// other failure reports the kept explanation if there is one, else the
/// error's own text. `outcome` is how the call ended: for a connection, the
/// failure as NetworkManager classified it; for the other calls, `Other` with
/// the error's text. A shutdown makes no call and changes nothing.
pub fn finish_command(command: &WifiCommand, transient_error: &Option<String>, outcome: Result<(), ConnectFailure>) -> (r: CommandFinish)
    ensures
        finishes_as(*command, *transient_error, outcome, r),
{
    if let WifiCommand::Shutdown = command {
        return CommandFinish { finished: None, transient_error: duplicate_text(transient_error), handled: Ok(()) };
    }
    match outcome {
        Ok(()) => CommandFinish { finished: operation_finished_message(command), transient_error: None, handled: Ok(()) },
        Err(f) => {
            let text = humanize_nm_error(&f);
            match command {
                WifiCommand::Connect(_) => {
                    CommandFinish { finished: None, transient_error: Some(text.clone()), handled: Err(text) }
                },
                _ => {
                    let message = failure_message(transient_error, text);
                    CommandFinish { finished: None, transient_error: duplicate_text(transient_error), handled: Err(message) }
                },
            }
        },
    }
}

/// How a command is settled: it reports success exactly when its call
/// succeeded (a shutdown always does); a success clears the kept explanation
/// and announces that the command finished, a failure announces nothing; only
/// a failed connection replaces the kept explanation, and with nothing kept any
/// other failure reports the error's own text.
pub proof fn lemma_command_settling(
    command: WifiCommand,
    transient: Option<String>,
    outcome: Result<(), ConnectFailure>,
    r: CommandFinish,
)
    requires
        finishes_as(command, transient, outcome, r),
    ensures
        r.handled is Ok <==> (outcome is Ok || command is Shutdown),
        outcome is Ok && !(command is Shutdown) ==> r.transient_error is None && r.finished is Some,
        outcome is Err ==> r.finished is None,
        !(command is Connect) && !(outcome is Ok && !(command is Shutdown)) ==> r.transient_error == transient,
        command is Connect && outcome is Err ==> r.transient_error is Some
            && (r.handled matches Err(m) && Some(m@) == opt_text(r.transient_error)),
        !(command is Connect) && !(command is Shutdown) && transient is None
            ==> (outcome matches Err(ConnectFailure::Other(t)) ==> (r.handled matches Err(m) && m@ == t@)),
{
}

} // verus!

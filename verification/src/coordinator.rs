//! Quiescing the suite: the service is asked to exit, then each of the three
//! processes is stopped for the current user, and for nobody else.
//!
//! The coordinator decides; the caller talks to the service, lists and
//! terminates processes, waits, and reports back.

use crate::comms::{
    ApiResponse, ApiResponseView, PipeError, PipeErrorView, Request, RequestView, ALIVE, EXIT,
};
use crate::error::{OpError, OpErrorView};
use vstd::prelude::*;
use vstd::string::*;

verus! {

/// Milliseconds granted to the request to exit.
pub const EXIT_TIMEOUT_MS: u32 = 3000;

/// Milliseconds granted to each probe for a service that is still running.
pub const PROBE_TIMEOUT_MS: u32 = 1000;

/// How often the service is probed after it has accepted the request to exit.
pub const PROBES: u32 = 5;

/// How often a process is looked for and terminated before giving up.
pub const SHUTDOWN_ATTEMPTS: u8 = 3;

/// Milliseconds to wait after terminating a process.
pub const SHUTDOWN_PAUSE_MS: u64 = 1000;

/// One of the three processes of the suite.
#[derive(Clone, Copy, PartialEq, Eq, Debug, Structural)]
pub enum Identity {
    Service,
    App,
    Shell,
}

impl Identity {
    /// The name under which the process runs.
    pub open spec fn name(self) -> Seq<char> {
        match self {
            Identity::Service => "AutoDarkModeSvc"@,
            Identity::App => "AutoDarkModeApp"@,
            Identity::Shell => "AutoDarkModeShell"@,
        }
    }

    /// What the process is called in messages.
    pub open spec fn description(self) -> Seq<char> {
        match self {
            Identity::Service => "service"@,
            Identity::App => "app"@,
            Identity::Shell => "shell"@,
        }
    }

    /// The process that is stopped after this one.
    pub open spec fn following(self) -> Option<Identity> {
        match self {
            Identity::Service => Some(Identity::App),
            Identity::App => Some(Identity::Shell),
            Identity::Shell => None,
        }
    }

    /// The name under which the process runs.
    pub fn process_name(self) -> (name: &'static str)
        ensures
            name@ == self.name(),
    {
        match self {
            Identity::Service => "AutoDarkModeSvc",
            Identity::App => "AutoDarkModeApp",
            Identity::Shell => "AutoDarkModeShell",
        }
    }

    /// What the process is called in messages.
    pub fn process_description(self) -> (description: &'static str)
        ensures
            description@ == self.description(),
    {
        match self {
            Identity::Service => "service",
            Identity::App => "app",
            Identity::Shell => "shell",
        }
    }

    fn next(self) -> (next: Option<Identity>)
        ensures
            next == self.following(),
    {
        match self {
            Identity::Service => Some(Identity::App),
            Identity::App => Some(Identity::Shell),
            Identity::Shell => None,
        }
    }
}

/// A running process of the suite. `owner` is the name of the user it runs
/// for, or `None` where that could not be found out.
#[derive(Debug)]
pub struct ManagedProcess {
    pub name: String,
    pub owner: Option<String>,
    pub pid: u32,
}

/// The mathematical content of a [`ManagedProcess`].
pub struct ManagedProcessView {
    pub name: Seq<char>,
    pub owner: Option<Seq<char>>,
    pub pid: u32,
}

impl View for ManagedProcess {
    type V = ManagedProcessView;

    open spec fn view(&self) -> ManagedProcessView {
        ManagedProcessView {
            name: self.name@,
            owner: match self.owner {
                Some(owner) => Some(owner@),
                None => None,
            },
            pid: self.pid,
        }
    }
}

/// The contents of a list of processes.
pub open spec fn process_views(processes: Seq<ManagedProcess>) -> Seq<ManagedProcessView> {
    Seq::new(processes.len(), |i: int| processes[i]@)
}

impl ManagedProcessView {
    /// The process runs for `user`.
    pub open spec fn owned_by(self, user: Seq<char>) -> bool {
        self.owner == Some(user)
    }
}

/// The processes of `user` among `processes`, in their order.
pub open spec fn owned(processes: Seq<ManagedProcessView>, user: Seq<char>) -> Seq<
    ManagedProcessView,
>
    decreases processes.len(),
{
    if processes.len() == 0 {
        Seq::empty()
    } else if processes[0].owned_by(user) {
        seq![processes[0]] + owned(processes.drop_first(), user)
    } else {
        owned(processes.drop_first(), user)
    }
}

/// The process to terminate: the first of `processes` that runs for `user`.
/// Processes of other users, and those whose user is unknown, are passed
/// over.
pub open spec fn target(processes: Seq<ManagedProcessView>, user: Seq<char>) -> Option<u32>
    decreases processes.len(),
{
    if processes.len() == 0 {
        None
    } else if processes[0].owned_by(user) {
        Some(processes[0].pid)
    } else {
        target(processes.drop_first(), user)
    }
}

/// The target is a process of the user, the first one, and there is none
/// exactly when the user has no process in the list.
pub proof fn lemma_target(processes: Seq<ManagedProcessView>, user: Seq<char>)
    ensures
        match target(processes, user) {
            Some(pid) => exists|i: int|
                {
                    &&& 0 <= i < processes.len()
                    &&& (#[trigger] processes[i]).owned_by(user)
                    &&& processes[i].pid == pid
                    &&& forall|j: int| 0 <= j < i ==> !(#[trigger] processes[j]).owned_by(user)
                },
            None => forall|j: int|
                0 <= j < processes.len() ==> !(#[trigger] processes[j]).owned_by(user),
        },
    decreases processes.len(),
{
    if processes.len() > 0 && !processes[0].owned_by(user) {
        let rest = processes.drop_first();
        lemma_target(rest, user);
        match target(rest, user) {
            Some(pid) => {
                let i = choose|i: int|
                    {
                        &&& 0 <= i < rest.len()
                        &&& (#[trigger] rest[i]).owned_by(user)
                        &&& rest[i].pid == pid
                        &&& forall|j: int| 0 <= j < i ==> !(#[trigger] rest[j]).owned_by(user)
                    };
                assert forall|j: int| 0 <= j < i + 1 implies !(#[trigger] processes[j]).owned_by(
                    user,
                ) by {
                    if j > 0 {
                        assert(processes[j] == rest[j - 1]);
                    }
                }
            },
            None => {
                assert forall|j: int| 0 <= j < processes.len() implies !(
                #[trigger] processes[j]).owned_by(user) by {
                    if j > 0 {
                        assert(processes[j] == rest[j - 1]);
                    }
                }
            },
        }
    }
}

/// Picks the process to terminate: the first that runs for `current_user`,
/// by its id, or `None` where the user has no process in the list.
pub fn shutdown_process(processes: &Vec<ManagedProcess>, current_user: &String) -> (pid: Option<
    u32,
>)
    ensures
        pid == target(process_views(processes@), current_user@),
{
    let ghost all = process_views(processes@);
    assert(all.skip(0) =~= all);
    let mut i: usize = 0;
    while i < processes.len()
        invariant
            i <= processes.len(),
            all == process_views(processes@),
            target(all, current_user@) == target(all.skip(i as int), current_user@),
        decreases processes.len() - i,
    {
        let ghost rest = all.skip(i as int);
        assert(rest.drop_first() =~= all.skip(i + 1));
        match &processes[i].owner {
            Some(owner) => {
                if *owner == *current_user {
                    return Some(processes[i].pid);
                }
            },
            None => {},
        }
        i += 1;
    }
    None
}

/// What the error says before the description of the process that would not
/// stop.
pub const COULD_NOT_STOP: &'static str = "could not stop ";

/// What the error says after the description of the process that would not
/// stop.
pub const SKIPPING_UPDATE: &'static str = ", skipping update";

/// The view of the result of a step.
pub open spec fn outcome_view(outcome: Option<Result<(), OpError>>) -> Option<
    Result<(), OpErrorView>,
> {
    match outcome {
        None => None,
        Some(Ok(())) => Some(Ok(())),
        Some(Err(e)) => Some(Err(e@)),
    }
}

fn copy_outcome(outcome: &Option<Result<(), OpError>>) -> (copy: Option<Result<(), OpError>>)
    ensures
        outcome_view(copy) == outcome_view(*outcome),
{
    match outcome {
        None => None,
        Some(Ok(())) => Some(Ok(())),
        Some(Err(e)) => Some(Err(OpError { message: e.message.clone(), severe: e.severe })),
    }
}

/// What the caller has to do next to stop one process.
#[derive(Clone, Copy, PartialEq, Eq, Debug, Structural)]
pub enum ShutdownStep {
    /// List the running processes of the name, with their owners.
    Scan,
    /// Terminate the process with the given id.
    Kill { pid: u32 },
    /// Wait before looking for the process again.
    Pause,
    /// Nothing: the process is stopped, or will not stop.
    Done,
}

/// What the caller reports back.
#[derive(Debug)]
pub enum ShutdownEvent {
    /// The processes found.
    Scanned { processes: Vec<ManagedProcess> },
    /// The process was told to terminate.
    Killed,
    /// The pause has passed.
    Paused,
}

/// The mathematical content of a [`ShutdownEvent`].
pub enum ShutdownEventView {
    Scanned { processes: Seq<ManagedProcessView> },
    Killed,
    Paused,
}

impl View for ShutdownEvent {
    type V = ShutdownEventView;

    open spec fn view(&self) -> ShutdownEventView {
        match self {
            ShutdownEvent::Scanned { processes } => ShutdownEventView::Scanned {
                processes: process_views(processes@),
            },
            ShutdownEvent::Killed => ShutdownEventView::Killed,
            ShutdownEvent::Paused => ShutdownEventView::Paused,
        }
    }
}

/// The stopping of one process of the suite, for one user.
#[derive(Debug)]
pub struct Shutdown {
    user: String,
    process_name: String,
    description: String,
    attempts_left: u8,
    step: ShutdownStep,
    outcome: Option<Result<(), OpError>>,
}

/// The mathematical content of a [`Shutdown`].
pub struct ShutdownView {
    /// The user whose process is stopped.
    pub user: Seq<char>,
    /// The name under which the process runs.
    pub process_name: Seq<char>,
    /// What the process is called in messages.
    pub description: Seq<char>,
    /// Attempts that are left, the pending one included.
    pub attempts_left: nat,
    pub step: ShutdownStep,
    pub outcome: Option<Result<(), OpErrorView>>,
}

/// The error for a process that is still found after the last attempt.
pub open spec fn still_running(description: Seq<char>) -> OpErrorView {
    OpErrorView { message: COULD_NOT_STOP@ + description + SKIPPING_UPDATE@, severe: false }
}

impl ShutdownView {
    /// The stopping of a process before anything has happened. Without an
    /// attempt it has failed already.
    pub open spec fn initial(
        process_name: Seq<char>,
        description: Seq<char>,
        retries: u8,
        user: Seq<char>,
    ) -> ShutdownView {
        let fresh = ShutdownView {
            user,
            process_name,
            description,
            attempts_left: retries as nat,
            step: ShutdownStep::Scan,
            outcome: None,
        };
        if retries == 0 {
            fresh.finished(Err(still_running(description)))
        } else {
            fresh
        }
    }

    /// The stopping done, with the given result.
    pub open spec fn finished(self, outcome: Result<(), OpErrorView>) -> ShutdownView {
        ShutdownView { step: ShutdownStep::Done, outcome: Some(outcome), ..self }
    }

    /// The stopping has a result exactly when it is done.
    pub open spec fn well_formed(self) -> bool {
        self.step == ShutdownStep::Done <==> self.outcome is Some
    }

    /// The stopping after the caller has reported `event`.
    ///
    /// Where no process in the list runs for the user, the process is
    /// stopped. Else the first that does is terminated, which uses up an
    /// attempt, and after a pause the process is looked for again; where no
    /// attempt is left it has failed, not severely. An event that does not
    /// answer the pending step changes nothing.
    pub open spec fn next(self, event: ShutdownEventView) -> ShutdownView {
        match (self.step, event) {
            (ShutdownStep::Scan, ShutdownEventView::Scanned { processes }) => {
                match target(processes, self.user) {
                    Some(pid) => ShutdownView { step: ShutdownStep::Kill { pid }, ..self },
                    None => self.finished(Ok(())),
                }
            },
            (ShutdownStep::Kill { pid }, ShutdownEventView::Killed) => ShutdownView {
                step: ShutdownStep::Pause,
                attempts_left: if self.attempts_left > 0 {
                    (self.attempts_left - 1) as nat
                } else {
                    0
                },
                ..self
            },
            (ShutdownStep::Pause, ShutdownEventView::Paused) => {
                if self.attempts_left > 0 {
                    ShutdownView { step: ShutdownStep::Scan, ..self }
                } else {
                    self.finished(Err(still_running(self.description)))
                }
            },
            _ => self,
        }
    }
}

impl View for Shutdown {
    type V = ShutdownView;

    closed spec fn view(&self) -> ShutdownView {
        ShutdownView {
            user: self.user@,
            process_name: self.process_name@,
            description: self.description@,
            attempts_left: self.attempts_left as nat,
            step: self.step,
            outcome: outcome_view(self.outcome),
        }
    }
}

impl Shutdown {
    fn at(self, step: ShutdownStep, attempts_left: u8) -> (s: Shutdown)
        ensures
            s@ == (ShutdownView { step, attempts_left: attempts_left as nat, ..self@ }),
    {
        Shutdown {
            user: self.user,
            process_name: self.process_name,
            description: self.description,
            attempts_left,
            step,
            outcome: self.outcome,
        }
    }

    fn finished(self, outcome: Result<(), OpError>) -> (s: Shutdown)
        ensures
            s@ == self@.finished(
                match outcome {
                    Ok(()) => Ok(()),
                    Err(e) => Err(e@),
                },
            ),
    {
        Shutdown {
            user: self.user,
            process_name: self.process_name,
            description: self.description,
            attempts_left: self.attempts_left,
            step: ShutdownStep::Done,
            outcome: Some(outcome),
        }
    }

    fn still_running(&self) -> (e: OpError)
        ensures
            e@ == still_running(self@.description),
    {
        let mut message = String::from_str(COULD_NOT_STOP);
        message.append(self.description.as_str());
        message.append(SKIPPING_UPDATE);
        OpError { message, severe: false }
    }

    /// The stopping after the caller has reported `event`.
    pub fn advance(self, event: ShutdownEvent) -> (s: Shutdown)
        ensures
            s@ == self@.next(event@),
    {
        let attempts_left = self.attempts_left;
        match (self.step, event) {
            (ShutdownStep::Scan, ShutdownEvent::Scanned { processes }) => {
                match shutdown_process(&processes, &self.user) {
                    Some(pid) => self.at(ShutdownStep::Kill { pid }, attempts_left),
                    None => self.finished(Ok(())),
                }
            },
            (ShutdownStep::Kill { pid }, ShutdownEvent::Killed) => {
                let left = if attempts_left > 0 {
                    attempts_left - 1
                } else {
                    0
                };
                self.at(ShutdownStep::Pause, left)
            },
            (ShutdownStep::Pause, ShutdownEvent::Paused) => {
                if attempts_left > 0 {
                    self.at(ShutdownStep::Scan, attempts_left)
                } else {
                    let e = self.still_running();
                    self.finished(Err(e))
                }
            },
            _ => self,
        }
    }

    /// What the caller has to do next.
    pub fn pending(&self) -> (step: ShutdownStep)
        ensures
            step == self@.step,
    {
        self.step
    }

    /// The name of the processes to list at a scan.
    pub fn process_name(&self) -> (name: String)
        ensures
            name@ == self@.process_name,
    {
        self.process_name.clone()
    }

    /// Milliseconds to wait at a pause.
    pub fn pause_ms(&self) -> (ms: u64)
        ensures
            ms == SHUTDOWN_PAUSE_MS,
    {
        SHUTDOWN_PAUSE_MS
    }

    /// The result, once the stopping is done.
    pub fn outcome(&self) -> (outcome: Option<Result<(), OpError>>)
        ensures
            outcome_view(outcome) == self@.outcome,
    {
        copy_outcome(&self.outcome)
    }
}

/// Begins stopping the processes that run under `process_name` for
/// `current_user`, with `retries` attempts.
pub fn shutdown_with_retries(
    process_name: &str,
    process_description: &str,
    retries: u8,
    current_user: &str,
) -> (s: Shutdown)
    ensures
        s@ == ShutdownView::initial(process_name@, process_description@, retries, current_user@),
{
    let fresh = Shutdown {
        user: String::from_str(current_user),
        process_name: String::from_str(process_name),
        description: String::from_str(process_description),
        attempts_left: retries,
        step: ShutdownStep::Scan,
        outcome: None,
    };
    if retries == 0 {
        let e = fresh.still_running();
        fresh.finished(Err(e))
    } else {
        fresh
    }
}

/// What the caller of the coordinator has to do next.
#[derive(Clone, Copy, PartialEq, Eq, Debug, Structural)]
pub enum QuiesceStep {
    /// Ask the service to exit.
    RequestExit,
    /// Ask the service whether it is still running.
    ProbeAlive,
    /// List the running processes of the given identity, with their owners.
    Scan { identity: Identity },
    /// Terminate the process with the given id.
    Kill { identity: Identity, pid: u32 },
    /// Wait before looking for the process again.
    Pause { identity: Identity },
    /// Nothing: the coordinator has its result.
    Done,
}

/// What the caller reports back.
#[derive(Debug)]
pub enum QuiesceEvent {
    /// How the exchange with the service ended.
    Replied { reply: Result<ApiResponse, PipeError> },
    /// The processes found.
    Scanned { processes: Vec<ManagedProcess> },
    /// The process was told to terminate.
    Killed,
    /// The pause has passed.
    Paused,
}

/// The mathematical content of a [`QuiesceEvent`].
pub enum QuiesceEventView {
    Replied { reply: Result<ApiResponseView, PipeErrorView> },
    Scanned { processes: Seq<ManagedProcessView> },
    Killed,
    Paused,
}

impl View for QuiesceEvent {
    type V = QuiesceEventView;

    open spec fn view(&self) -> QuiesceEventView {
        match self {
            QuiesceEvent::Replied { reply } => QuiesceEventView::Replied {
                reply: match reply {
                    Ok(r) => Ok(r@),
                    Err(e) => Err(e@),
                },
            },
            QuiesceEvent::Scanned { processes } => QuiesceEventView::Scanned {
                processes: process_views(processes@),
            },
            QuiesceEvent::Killed => QuiesceEventView::Killed,
            QuiesceEvent::Paused => QuiesceEventView::Paused,
        }
    }
}

impl QuiesceEventView {
    /// The event as an answer to the stopping of a process, where it is one.
    pub open spec fn as_shutdown(self) -> Option<ShutdownEventView> {
        match self {
            QuiesceEventView::Scanned { processes } => Some(
                ShutdownEventView::Scanned { processes },
            ),
            QuiesceEventView::Killed => Some(ShutdownEventView::Killed),
            QuiesceEventView::Paused => Some(ShutdownEventView::Paused),
            QuiesceEventView::Replied { .. } => None,
        }
    }
}

/// What the coordinator is doing.
#[derive(Debug)]
enum QuiescePhase {
    RequestingExit,
    Probing,
    Stopping { identity: Identity, shutdown: Shutdown },
    Done,
}

/// The mathematical content of what the coordinator is doing.
pub enum QuiescePhaseView {
    /// The service is being asked to exit.
    RequestingExit,
    /// The service is being probed.
    Probing,
    /// A process is being stopped.
    Stopping { identity: Identity, shutdown: ShutdownView },
    /// Nothing more.
    Done,
}

impl View for QuiescePhase {
    type V = QuiescePhaseView;

    closed spec fn view(&self) -> QuiescePhaseView {
        match self {
            QuiescePhase::RequestingExit => QuiescePhaseView::RequestingExit,
            QuiescePhase::Probing => QuiescePhaseView::Probing,
            QuiescePhase::Stopping { identity, shutdown } => QuiescePhaseView::Stopping {
                identity: *identity,
                shutdown: shutdown@,
            },
            QuiescePhase::Done => QuiescePhaseView::Done,
        }
    }
}

/// The state of the coordinator.
#[derive(Debug)]
pub struct Quiesce {
    user: String,
    phase: QuiescePhase,
    probes_left: u32,
    outcome: Option<Result<(), OpError>>,
}

/// The mathematical content of a [`Quiesce`].
pub struct QuiesceView {
    /// The user whose processes are stopped.
    pub user: Seq<char>,
    pub phase: QuiescePhaseView,
    /// Probes of the service that are left.
    pub probes_left: nat,
    pub outcome: Option<Result<(), OpErrorView>>,
}

impl QuiesceView {
    /// The coordinator before anything has happened.
    pub open spec fn initial(user: Seq<char>) -> QuiesceView {
        QuiesceView {
            user,
            phase: QuiescePhaseView::RequestingExit,
            probes_left: PROBES as nat,
            outcome: None,
        }
    }

    /// The coordinator done, with the given result.
    pub open spec fn finished(self, outcome: Result<(), OpErrorView>) -> QuiesceView {
        QuiesceView { phase: QuiescePhaseView::Done, outcome: Some(outcome), ..self }
    }

    /// The coordinator about to stop the processes of `identity`.
    pub open spec fn stopping(self, identity: Identity) -> QuiesceView {
        QuiesceView {
            phase: QuiescePhaseView::Stopping {
                identity,
                shutdown: ShutdownView::initial(
                    identity.name(),
                    identity.description(),
                    SHUTDOWN_ATTEMPTS,
                    self.user,
                ),
            },
            ..self
        }
    }

    /// The coordinator after a step of the stopping of `identity`: still at
    /// it; or on to the next process, or done with success after the last; or
    /// done with the error of a process that would not stop.
    pub open spec fn stopped(self, identity: Identity, shutdown: ShutdownView) -> QuiesceView {
        match shutdown.outcome {
            None => QuiesceView {
                phase: QuiescePhaseView::Stopping { identity, shutdown },
                ..self
            },
            Some(Ok(_)) => match identity.following() {
                Some(next) => self.stopping(next),
                None => self.finished(Ok(())),
            },
            Some(Err(e)) => self.finished(Err(e)),
        }
    }

    /// The process that is being stopped is stopped for the coordinator's
    /// user and is not stopped yet, and the coordinator has a result exactly
    /// when it is done.
    pub open spec fn well_formed(self) -> bool {
        &&& self.phase matches QuiescePhaseView::Stopping { shutdown, .. } ==> {
            &&& shutdown.user == self.user
            &&& shutdown.step != ShutdownStep::Done
            &&& shutdown.well_formed()
        }
        &&& self.pending() == QuiesceStep::Done <==> self.outcome is Some
    }

    /// What the caller has to do next.
    pub open spec fn pending(self) -> QuiesceStep {
        match self.phase {
            QuiescePhaseView::RequestingExit => QuiesceStep::RequestExit,
            QuiescePhaseView::Probing => QuiesceStep::ProbeAlive,
            QuiescePhaseView::Stopping { identity, shutdown } => match shutdown.step {
                ShutdownStep::Scan => QuiesceStep::Scan { identity },
                ShutdownStep::Kill { pid } => QuiesceStep::Kill { identity, pid },
                ShutdownStep::Pause => QuiesceStep::Pause { identity },
                ShutdownStep::Done => QuiesceStep::Done,
            },
            QuiescePhaseView::Done => QuiesceStep::Done,
        }
    }

    /// The coordinator after the caller has reported `event`.
    ///
    /// A service that cannot be reached is taken to be stopped; one that
    /// answers the request to exit with an error that is no timeout blocks
    /// the update, not severely. A service that accepted the request is
    /// probed until it cannot be reached or the probes are used up. Then
    /// service, application and shell are stopped in this order, each as
    /// [`ShutdownView::next`] says; the first that will not stop blocks the
    /// update. An event that does not answer the pending step changes
    /// nothing.
    pub open spec fn next(self, event: QuiesceEventView) -> QuiesceView {
        match (self.phase, event) {
            (QuiescePhaseView::RequestingExit, QuiesceEventView::Replied { reply: Err(e) }) => {
                if e.is_timeout {
                    self.stopping(Identity::Service)
                } else {
                    self.finished(Err(OpErrorView { message: e.message, severe: false }))
                }
            },
            (
                QuiescePhaseView::RequestingExit,
                QuiesceEventView::Replied { reply: Ok(_) },
            ) => QuiesceView { phase: QuiescePhaseView::Probing, ..self },
            (QuiescePhaseView::Probing, QuiesceEventView::Replied { reply }) => {
                if reply matches Err(e) && e.is_timeout {
                    self.stopping(Identity::Service)
                } else if self.probes_left > 1 {
                    QuiesceView { probes_left: (self.probes_left - 1) as nat, ..self }
                } else {
                    QuiesceView { probes_left: 0, ..self }.stopping(Identity::Service)
                }
            },
            (QuiescePhaseView::Stopping { identity, shutdown }, _) => match event.as_shutdown() {
                Some(e) => self.stopped(identity, shutdown.next(e)),
                None => self,
            },
            _ => self,
        }
    }

    /// The request to send to the service at the pending step, if it is one
    /// that talks to the service. The channel is that of the user.
    pub open spec fn request(self) -> Option<RequestView> {
        match self.phase {
            QuiescePhaseView::RequestingExit => Some(
                RequestView { command: EXIT@, timeout: EXIT_TIMEOUT_MS, channel: self.user },
            ),
            QuiescePhaseView::Probing => Some(
                RequestView { command: ALIVE@, timeout: PROBE_TIMEOUT_MS, channel: self.user },
            ),
            _ => None,
        }
    }
}

impl View for Quiesce {
    type V = QuiesceView;

    closed spec fn view(&self) -> QuiesceView {
        QuiesceView {
            user: self.user@,
            phase: self.phase@,
            probes_left: self.probes_left as nat,
            outcome: outcome_view(self.outcome),
        }
    }
}

impl Quiesce {
    fn finished(self, outcome: Result<(), OpError>) -> (q: Quiesce)
        ensures
            q@ == self@.finished(
                match outcome {
                    Ok(()) => Ok(()),
                    Err(e) => Err(e@),
                },
            ),
    {
        Quiesce {
            user: self.user,
            phase: QuiescePhase::Done,
            probes_left: self.probes_left,
            outcome: Some(outcome),
        }
    }

    fn stopping(self, identity: Identity) -> (q: Quiesce)
        ensures
            q@ == self@.stopping(identity),
    {
        let shutdown = shutdown_with_retries(
            identity.process_name(),
            identity.process_description(),
            SHUTDOWN_ATTEMPTS,
            self.user.as_str(),
        );
        Quiesce {
            user: self.user,
            phase: QuiescePhase::Stopping { identity, shutdown },
            probes_left: self.probes_left,
            outcome: self.outcome,
        }
    }

    fn stopped(self, identity: Identity, shutdown: Shutdown) -> (q: Quiesce)
        ensures
            q@ == self@.stopped(identity, shutdown@),
    {
        match shutdown.outcome() {
            None => Quiesce {
                user: self.user,
                phase: QuiescePhase::Stopping { identity, shutdown },
                probes_left: self.probes_left,
                outcome: self.outcome,
            },
            Some(Ok(_)) => match identity.next() {
                Some(next) => self.stopping(next),
                None => self.finished(Ok(())),
            },
            Some(Err(e)) => self.finished(Err(e)),
        }
    }

    /// The coordinator after the caller has reported `event`.
    pub fn advance(self, event: QuiesceEvent) -> (q: Quiesce)
        ensures
            q@ == self@.next(event@),
    {
        let Quiesce { user, phase, probes_left, outcome } = self;
        match (phase, event) {
            (QuiescePhase::RequestingExit, QuiesceEvent::Replied { reply: Err(e) }) => {
                let q = Quiesce { user, phase: QuiescePhase::RequestingExit, probes_left, outcome };
                if e.is_timeout {
                    q.stopping(Identity::Service)
                } else {
                    q.finished(Err(OpError { message: e.message, severe: false }))
                }
            },
            (QuiescePhase::RequestingExit, QuiesceEvent::Replied { reply: Ok(_) }) => Quiesce {
                user,
                phase: QuiescePhase::Probing,
                probes_left,
                outcome,
            },
            (QuiescePhase::Probing, QuiesceEvent::Replied { reply }) => {
                let unreachable = match &reply {
                    Err(e) => e.is_timeout,
                    Ok(_) => false,
                };
                if unreachable {
                    Quiesce { user, phase: QuiescePhase::Probing, probes_left, outcome }.stopping(
                        Identity::Service,
                    )
                } else if probes_left > 1 {
                    Quiesce {
                        user,
                        phase: QuiescePhase::Probing,
                        probes_left: probes_left - 1,
                        outcome,
                    }
                } else {
                    Quiesce {
                        user,
                        phase: QuiescePhase::Probing,
                        probes_left: 0,
                        outcome,
                    }.stopping(Identity::Service)
                }
            },
            (QuiescePhase::Stopping { identity, shutdown }, event) => {
                let answer = match event {
                    QuiesceEvent::Scanned { processes } => ShutdownEvent::Scanned { processes },
                    QuiesceEvent::Killed => ShutdownEvent::Killed,
                    QuiesceEvent::Paused => ShutdownEvent::Paused,
                    QuiesceEvent::Replied { .. } => {
                        return Quiesce {
                            user,
                            phase: QuiescePhase::Stopping { identity, shutdown },
                            probes_left,
                            outcome,
                        };
                    },
                };
                let shutdown = shutdown.advance(answer);
                let q = Quiesce { user, phase: QuiescePhase::Done, probes_left, outcome };
                q.stopped(identity, shutdown)
            },
            (phase, _) => Quiesce { user, phase, probes_left, outcome },
        }
    }

    /// What the caller has to do next.
    pub fn pending(&self) -> (step: QuiesceStep)
        ensures
            step == self@.pending(),
    {
        match &self.phase {
            QuiescePhase::RequestingExit => QuiesceStep::RequestExit,
            QuiescePhase::Probing => QuiesceStep::ProbeAlive,
            QuiescePhase::Stopping { identity, shutdown } => match shutdown.pending() {
                ShutdownStep::Scan => QuiesceStep::Scan { identity: *identity },
                ShutdownStep::Kill { pid } => QuiesceStep::Kill { identity: *identity, pid },
                ShutdownStep::Pause => QuiesceStep::Pause { identity: *identity },
                ShutdownStep::Done => QuiesceStep::Done,
            },
            QuiescePhase::Done => QuiesceStep::Done,
        }
    }

    /// The request to send to the service at the pending step.
    pub fn request(&self) -> (request: Option<Request>)
        ensures
            request.is_some() == self@.request().is_some(),
            request matches Some(r) ==> Some(r@) == self@.request(),
    {
        match &self.phase {
            QuiescePhase::RequestingExit => Some(
                Request::new(EXIT, EXIT_TIMEOUT_MS, self.user.as_str()),
            ),
            QuiescePhase::Probing => Some(
                Request::new(ALIVE, PROBE_TIMEOUT_MS, self.user.as_str()),
            ),
            _ => None,
        }
    }

    /// Milliseconds to wait at a pause.
    pub fn pause_ms(&self) -> (ms: u64)
        ensures
            ms == SHUTDOWN_PAUSE_MS,
    {
        SHUTDOWN_PAUSE_MS
    }

    /// The result, once the coordinator is done.
    pub fn outcome(&self) -> (outcome: Option<Result<(), OpError>>)
        ensures
            outcome_view(outcome) == self@.outcome,
    {
        copy_outcome(&self.outcome)
    }
}

/// Begins quiescing the suite for `current_user`, whose name is also the
/// name of the channel of their service.
pub fn shutdown_running_instances(current_user: &str) -> (q: Quiesce)
    ensures
        q@ == QuiesceView::initial(current_user@),
{
    Quiesce {
        user: String::from_str(current_user),
        phase: QuiescePhase::RequestingExit,
        probes_left: PROBES,
        outcome: None,
    }
}

/// What decides is the user's own processes: the target is the first of
/// them, or none where there is none.
pub proof fn lemma_target_is_first_owned(processes: Seq<ManagedProcessView>, user: Seq<char>)
    ensures
        target(processes, user) == if owned(processes, user).len() > 0 {
            Some(owned(processes, user)[0].pid)
        } else {
            None
        },
    decreases processes.len(),
{
    if processes.len() > 0 && !processes[0].owned_by(user) {
        lemma_target_is_first_owned(processes.drop_first(), user);
    }
}

/// Only the user's own process is terminated: whenever the stopping of a
/// process comes to ask for a process to be terminated, that process was in
/// the list just reported and runs for the user.
pub proof fn law_shutdown_terminates_own_processes_only(s: ShutdownView, event: ShutdownEventView)
    requires
        s.next(event).step is Kill,
        s.next(event).step != s.step,
    ensures
        event is Scanned,
        exists|i: int|
            {
                &&& 0 <= i < event->processes.len()
                &&& (#[trigger] event->processes[i]).owned_by(s.user)
                &&& event->processes[i].pid == s.next(event).step->pid
            },
{
    match event {
        ShutdownEventView::Scanned { processes } => {
            lemma_target(processes, s.user);
        },
        _ => {},
    }
}

/// The stopping of a process begins well-formed and stays so.
pub proof fn lemma_shutdown_well_formed(
    process_name: Seq<char>,
    description: Seq<char>,
    retries: u8,
    user: Seq<char>,
    s: ShutdownView,
    event: ShutdownEventView,
)
    ensures
        ShutdownView::initial(process_name, description, retries, user).well_formed(),
        s.well_formed() ==> s.next(event).well_formed(),
{
}

/// The coordinator begins well-formed and stays so.
pub proof fn lemma_well_formed(user: Seq<char>, q: QuiesceView, event: QuiesceEventView)
    ensures
        QuiesceView::initial(user).well_formed(),
        q.well_formed() ==> q.next(event).well_formed(),
{
}

/// Quiescing an idle suite does nothing: where the service cannot be reached
/// and no process of the suite runs for the user, the coordinator looks once
/// for each process and is done with success. It never asks for a process to
/// be terminated nor for a pause.
pub proof fn law_idle_suite_is_quiesced_at_once(
    user: Seq<char>,
    unreachable: PipeErrorView,
    service: Seq<ManagedProcessView>,
    app: Seq<ManagedProcessView>,
    shell: Seq<ManagedProcessView>,
)
    requires
        unreachable.is_timeout,
        owned(service, user).len() == 0,
        owned(app, user).len() == 0,
        owned(shell, user).len() == 0,
    ensures
        ({
            let asked = QuiesceView::initial(user).next(
                QuiesceEventView::Replied { reply: Err(unreachable) },
            );
            let first = asked.next(QuiesceEventView::Scanned { processes: service });
            let second = first.next(QuiesceEventView::Scanned { processes: app });
            let third = second.next(QuiesceEventView::Scanned { processes: shell });
            &&& QuiesceView::initial(user).pending() == QuiesceStep::RequestExit
            &&& asked.pending() == (QuiesceStep::Scan { identity: Identity::Service })
            &&& first.pending() == (QuiesceStep::Scan { identity: Identity::App })
            &&& second.pending() == (QuiesceStep::Scan { identity: Identity::Shell })
            &&& third.pending() == QuiesceStep::Done
            &&& third.outcome == Some(Ok::<(), OpErrorView>(()))
        }),
{
    lemma_target_is_first_owned(service, user);
    lemma_target_is_first_owned(app, user);
    lemma_target_is_first_owned(shell, user);
}

/// A service that can be reached but answers the request to exit with an
/// error blocks the update at once, not severely, and nothing is terminated.
pub proof fn law_uncooperative_service_blocks_update(user: Seq<char>, failure: PipeErrorView)
    requires
        !failure.is_timeout,
    ensures
        QuiesceView::initial(user).next(
            QuiesceEventView::Replied { reply: Err(failure) },
        ).pending() == QuiesceStep::Done,
        QuiesceView::initial(user).next(QuiesceEventView::Replied { reply: Err(failure) }).outcome
            == Some(
            Err::<(), OpErrorView>(OpErrorView { message: failure.message, severe: false }),
        ),
{
}

/// Only the user's own processes are terminated: whenever the coordinator
/// comes to ask for a process to be terminated, that process was in the list
/// just reported and runs for the coordinator's user.
pub proof fn law_only_own_processes_are_terminated(q: QuiesceView, event: QuiesceEventView)
    requires
        q.well_formed(),
        q.next(event).pending() is Kill,
        q.next(event).pending() != q.pending(),
    ensures
        event is Scanned,
        exists|i: int|
            {
                &&& 0 <= i < event->processes.len()
                &&& (#[trigger] event->processes[i]).owned_by(q.user)
                &&& event->processes[i].pid == q.next(event).pending()->pid
            },
{
    match event {
        QuiesceEventView::Scanned { processes } => {
            lemma_target(processes, q.user);
        },
        _ => {},
    }
}

/// The processes of other users do not count: what the coordinator does after
/// a list of processes is reported depends on the user's own processes in it
/// alone.
pub proof fn law_other_users_do_not_count(
    q: QuiesceView,
    one: Seq<ManagedProcessView>,
    other: Seq<ManagedProcessView>,
)
    requires
        q.well_formed(),
        owned(one, q.user) == owned(other, q.user),
    ensures
        q.next(QuiesceEventView::Scanned { processes: one }) == q.next(
            QuiesceEventView::Scanned { processes: other },
        ),
{
    match q.phase {
        QuiescePhaseView::Stopping { shutdown, .. } => {
            lemma_target_is_first_owned(one, shutdown.user);
            lemma_target_is_first_owned(other, shutdown.user);
        },
        _ => {},
    }
}

/// A process that is found running for the user at every attempt blocks the
/// update: after the last attempt and its pause the coordinator is done with
/// an error that is not severe.
pub proof fn law_persistent_process_blocks_update(
    q: QuiesceView,
    identity: Identity,
    first: Seq<ManagedProcessView>,
    second: Seq<ManagedProcessView>,
    third: Seq<ManagedProcessView>,
)
    requires
        q.stopping(identity) == q,
        owned(first, q.user).len() > 0,
        owned(second, q.user).len() > 0,
        owned(third, q.user).len() > 0,
    ensures
        ({
            let once = q.next(QuiesceEventView::Scanned { processes: first }).next(
                QuiesceEventView::Killed,
            ).next(QuiesceEventView::Paused);
            let twice = once.next(QuiesceEventView::Scanned { processes: second }).next(
                QuiesceEventView::Killed,
            ).next(QuiesceEventView::Paused);
            let thrice = twice.next(QuiesceEventView::Scanned { processes: third }).next(
                QuiesceEventView::Killed,
            ).next(QuiesceEventView::Paused);
            &&& once.pending() == (QuiesceStep::Scan { identity })
            &&& twice.pending() == (QuiesceStep::Scan { identity })
            &&& thrice.pending() == QuiesceStep::Done
            &&& thrice.outcome == Some(
                Err::<(), OpErrorView>(still_running(identity.description())),
            )
            &&& !still_running(identity.description()).severe
        }),
{
    lemma_target_is_first_owned(first, q.user);
    lemma_target_is_first_owned(second, q.user);
    lemma_target_is_first_owned(third, q.user);
}

} // verus!

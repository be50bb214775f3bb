//! Relaunching the suite after an update, or after an update that was
//! abandoned.
//!
//! The service is started first and always; application and shell are started
//! where the invocation asked for it; after a failed update the service is
//! told so. The controller decides; the caller starts the processes and
//! reports back.

use crate::comms::{Request, RequestView, UPDATE_FAILED};
use crate::error::{OpError, OpErrorView};
use crate::paths::{
    get_app_path, get_service_path, get_shell_path, live_dir, InstallPath, PathView, APP_EXE,
    SERVICE_EXE, SHELL_EXE,
};
use crate::text::{push_signed_decimal, signed_decimal};
use vstd::prelude::*;
use vstd::string::*;

verus! {

/// Milliseconds granted to the notice of a failed update.
pub const NOTIFY_TIMEOUT_MS: u32 = 5000;

/// The least value that the system returns for a shell that was opened.
pub const SHELL_OPENED: i64 = 32;

/// What the caller of the controller has to do next.
#[derive(Clone, Copy, PartialEq, Eq, Debug, Structural)]
pub enum RelaunchStep {
    /// Make the live installation directory the working directory.
    EnterAppDir,
    /// Start the service executable.
    StartService,
    /// Start the application executable.
    StartApp,
    /// Open the shell executable through the system's shell.
    OpenShell,
    /// Tell the service that the update failed.
    NotifyFailure,
    /// Nothing: the controller has its result.
    Done,
}

/// What the caller reports back.
#[derive(Debug)]
pub enum RelaunchEvent {
    /// The step succeeded.
    Succeeded,
    /// The step failed, with the system's description.
    Failed { detail: String },
    /// The system's shell returned the given value.
    ShellReturned { code: i64 },
}

/// The mathematical content of a [`RelaunchEvent`].
pub enum RelaunchEventView {
    Succeeded,
    Failed { detail: Seq<char> },
    ShellReturned { code: i64 },
}

impl View for RelaunchEvent {
    type V = RelaunchEventView;

    open spec fn view(&self) -> RelaunchEventView {
        match self {
            RelaunchEvent::Succeeded => RelaunchEventView::Succeeded,
            RelaunchEvent::Failed { detail } => RelaunchEventView::Failed { detail: detail@ },
            RelaunchEvent::ShellReturned { code } => RelaunchEventView::ShellReturned {
                code: *code,
            },
        }
    }
}

/// The state of the controller.
#[derive(Debug)]
pub struct Relaunch {
    restart_shell: bool,
    restart_app: bool,
    patch_success: bool,
    channel: String,
    service_path: String,
    app_path: String,
    shell_path: String,
    step: RelaunchStep,
    outcome: Option<Result<(), OpError>>,
}

/// The mathematical content of a [`Relaunch`].
pub struct RelaunchView {
    pub restart_shell: bool,
    pub restart_app: bool,
    pub patch_success: bool,
    pub channel: Seq<char>,
    /// The three executables, written out.
    pub service_path: Seq<char>,
    pub app_path: Seq<char>,
    pub shell_path: Seq<char>,
    pub step: RelaunchStep,
    pub outcome: Option<Result<(), OpErrorView>>,
}

/// The error for an executable that the system would not start.
pub open spec fn not_started(what: Seq<char>, path: Seq<char>, detail: Seq<char>) -> OpErrorView {
    OpErrorView {
        message: "could not relaunch "@ + what + " at path: "@ + path + ": "@ + detail,
        severe: false,
    }
}

/// The error for a shell that the system's shell would not open.
pub open spec fn shell_not_opened(path: Seq<char>, code: Seq<char>) -> OpErrorView {
    OpErrorView {
        message: "could not relaunch shell at path: "@ + path + ", (os_error: "@ + code + ")"@,
        severe: false,
    }
}

impl RelaunchView {
    /// The controller before anything has happened.
    pub open spec fn initial(
        assembly_dir: PathView,
        restart_shell: bool,
        restart_app: bool,
        channel: Seq<char>,
        patch_success: bool,
    ) -> RelaunchView {
        let app_dir = live_dir(assembly_dir);
        RelaunchView {
            restart_shell,
            restart_app,
            patch_success,
            channel,
            service_path: app_dir.join(SERVICE_EXE@).text(),
            app_path: app_dir.join(APP_EXE@).text(),
            shell_path: app_dir.join(SHELL_EXE@).text(),
            step: RelaunchStep::EnterAppDir,
            outcome: None,
        }
    }

    /// The step after the shell: the notice after a failed update, else none.
    pub open spec fn after_shell(self) -> RelaunchStep {
        if !self.patch_success {
            RelaunchStep::NotifyFailure
        } else {
            RelaunchStep::Done
        }
    }

    /// The step after the application: the shell where it was asked for.
    pub open spec fn after_app(self) -> RelaunchStep {
        if self.restart_shell {
            RelaunchStep::OpenShell
        } else {
            self.after_shell()
        }
    }

    /// The step that follows `step` when `step` did not fail: the steps come
    /// in the order of [`RelaunchStep`], and those not asked for are left
    /// out.
    pub open spec fn following(self, step: RelaunchStep) -> RelaunchStep {
        match step {
            RelaunchStep::EnterAppDir => RelaunchStep::StartService,
            RelaunchStep::StartService => if self.restart_app {
                RelaunchStep::StartApp
            } else {
                self.after_app()
            },
            RelaunchStep::StartApp => self.after_app(),
            RelaunchStep::OpenShell => self.after_shell(),
            RelaunchStep::NotifyFailure => RelaunchStep::Done,
            RelaunchStep::Done => RelaunchStep::Done,
        }
    }

    /// The error with which `event` ends the relaunch at the pending step, if
    /// it does. An executable that does not start ends it, not severely. The
    /// working directory and the notice do not: their failure is for the log
    /// only.
    pub open spec fn failure(self, event: RelaunchEventView) -> Option<OpErrorView> {
        match (self.step, event) {
            (RelaunchStep::StartService, RelaunchEventView::Failed { detail }) => Some(
                not_started("service"@, self.service_path, detail),
            ),
            (RelaunchStep::StartApp, RelaunchEventView::Failed { detail }) => Some(
                not_started("app"@, self.app_path, detail),
            ),
            (RelaunchStep::OpenShell, RelaunchEventView::Failed { detail }) => Some(
                shell_not_opened(self.shell_path, detail),
            ),
            (RelaunchStep::OpenShell, RelaunchEventView::ShellReturned { code }) => if code
                < SHELL_OPENED {
                Some(shell_not_opened(self.shell_path, signed_decimal(code as int)))
            } else {
                None
            },
            _ => None,
        }
    }

    /// The controller after the caller has reported `event`.
    pub open spec fn next(self, event: RelaunchEventView) -> RelaunchView {
        if self.step == RelaunchStep::Done {
            self
        } else {
            match self.failure(event) {
                Some(e) => RelaunchView { step: RelaunchStep::Done, outcome: Some(Err(e)), ..self },
                None => {
                    let step = self.following(self.step);
                    RelaunchView {
                        step,
                        outcome: if step == RelaunchStep::Done {
                            Some(Ok(()))
                        } else {
                            None
                        },
                        ..self
                    }
                },
            }
        }
    }

    /// The controller has a result exactly when it is done.
    pub open spec fn well_formed(self) -> bool {
        self.step == RelaunchStep::Done <==> self.outcome is Some
    }

    /// The notice to send at the pending step, if it is the one that talks to
    /// the service.
    pub open spec fn request(self) -> Option<RequestView> {
        if self.step == RelaunchStep::NotifyFailure {
            Some(
                RequestView {
                    command: UPDATE_FAILED@,
                    timeout: NOTIFY_TIMEOUT_MS,
                    channel: self.channel,
                },
            )
        } else {
            None
        }
    }
}

/// The view of the result of a relaunch.
pub open spec fn outcome_view(outcome: Option<Result<(), OpError>>) -> Option<
    Result<(), OpErrorView>,
> {
    match outcome {
        None => None,
        Some(Ok(())) => Some(Ok(())),
        Some(Err(e)) => Some(Err(e@)),
    }
}

impl View for Relaunch {
    type V = RelaunchView;

    closed spec fn view(&self) -> RelaunchView {
        RelaunchView {
            restart_shell: self.restart_shell,
            restart_app: self.restart_app,
            patch_success: self.patch_success,
            channel: self.channel@,
            service_path: self.service_path@,
            app_path: self.app_path@,
            shell_path: self.shell_path@,
            step: self.step,
            outcome: outcome_view(self.outcome),
        }
    }
}

fn not_started_error(what: &str, path: &str, detail: &str) -> (e: OpError)
    ensures
        e@ == not_started(what@, path@, detail@),
{
    let mut message = String::from_str("could not relaunch ");
    message.append(what);
    message.append(" at path: ");
    message.append(path);
    message.append(": ");
    message.append(detail);
    OpError { message, severe: false }
}

fn shell_not_opened_error(path: &str, code: &str) -> (e: OpError)
    ensures
        e@ == shell_not_opened(path@, code@),
{
    let mut message = String::from_str("could not relaunch shell at path: ");
    message.append(path);
    message.append(", (os_error: ");
    message.append(code);
    message.append(")");
    OpError { message, severe: false }
}

impl Relaunch {
    fn following(&self, step: RelaunchStep) -> (next: RelaunchStep)
        ensures
            next == self@.following(step),
    {
        let after_shell = if !self.patch_success {
            RelaunchStep::NotifyFailure
        } else {
            RelaunchStep::Done
        };
        let after_app = if self.restart_shell {
            RelaunchStep::OpenShell
        } else {
            after_shell
        };
        match step {
            RelaunchStep::EnterAppDir => RelaunchStep::StartService,
            RelaunchStep::StartService => if self.restart_app {
                RelaunchStep::StartApp
            } else {
                after_app
            },
            RelaunchStep::StartApp => after_app,
            RelaunchStep::OpenShell => after_shell,
            RelaunchStep::NotifyFailure => RelaunchStep::Done,
            RelaunchStep::Done => RelaunchStep::Done,
        }
    }

    fn failure(&self, event: &RelaunchEvent) -> (e: Option<OpError>)
        ensures
            e.is_some() == self@.failure(event@).is_some(),
            e matches Some(error) ==> Some(error@) == self@.failure(event@),
    {
        match (self.step, event) {
            (RelaunchStep::StartService, RelaunchEvent::Failed { detail }) => Some(
                not_started_error("service", self.service_path.as_str(), detail.as_str()),
            ),
            (RelaunchStep::StartApp, RelaunchEvent::Failed { detail }) => Some(
                not_started_error("app", self.app_path.as_str(), detail.as_str()),
            ),
            (RelaunchStep::OpenShell, RelaunchEvent::Failed { detail }) => Some(
                shell_not_opened_error(self.shell_path.as_str(), detail.as_str()),
            ),
            (RelaunchStep::OpenShell, RelaunchEvent::ShellReturned { code }) => {
                if *code < SHELL_OPENED {
                    let mut text = String::new();
                    push_signed_decimal(&mut text, *code);
                    Some(shell_not_opened_error(self.shell_path.as_str(), text.as_str()))
                } else {
                    None
                }
            },
            _ => None,
        }
    }

    /// The controller after the caller has reported `event`.
    pub fn advance(self, event: RelaunchEvent) -> (r: Relaunch)
        ensures
            r@ == self@.next(event@),
    {
        if self.step == RelaunchStep::Done {
            return self;
        }
        let (step, outcome) = match self.failure(&event) {
            Some(e) => (RelaunchStep::Done, Some(Err(e))),
            None => {
                let step = self.following(self.step);
                if step == RelaunchStep::Done {
                    (step, Some(Ok(())))
                } else {
                    (step, None)
                }
            },
        };
        Relaunch {
            restart_shell: self.restart_shell,
            restart_app: self.restart_app,
            patch_success: self.patch_success,
            channel: self.channel,
            service_path: self.service_path,
            app_path: self.app_path,
            shell_path: self.shell_path,
            step,
            outcome,
        }
    }

    /// What the caller has to do next.
    pub fn pending(&self) -> (step: RelaunchStep)
        ensures
            step == self@.step,
    {
        self.step
    }

    /// The notice to send at the pending step.
    pub fn request(&self) -> (request: Option<Request>)
        ensures
            request.is_some() == self@.request().is_some(),
            request matches Some(r) ==> Some(r@) == self@.request(),
    {
        if self.step == RelaunchStep::NotifyFailure {
            Some(Request::new(UPDATE_FAILED, NOTIFY_TIMEOUT_MS, self.channel.as_str()))
        } else {
            None
        }
    }

    /// The result, once the controller is done.
    pub fn outcome(&self) -> (outcome: Option<Result<(), OpError>>)
        ensures
            outcome_view(outcome) == self@.outcome,
    {
        match &self.outcome {
            None => None,
            Some(Ok(())) => Some(Ok(())),
            Some(Err(e)) => Some(Err(OpError { message: e.message.clone(), severe: e.severe })),
        }
    }
}

/// Begins the relaunch of the suite that is installed beside the updater in
/// `assembly_dir`. `channel` is the channel of the user's service;
/// `patch_success` says whether the update was installed.
pub fn relaunch(
    assembly_dir: &InstallPath,
    restart_shell: bool,
    restart_app: bool,
    channel: &str,
    patch_success: bool,
) -> (r: Relaunch)
    ensures
        r@ == RelaunchView::initial(
            assembly_dir@,
            restart_shell,
            restart_app,
            channel@,
            patch_success,
        ),
{
    Relaunch {
        restart_shell,
        restart_app,
        patch_success,
        channel: String::from_str(channel),
        service_path: get_service_path(assembly_dir).to_text(),
        app_path: get_app_path(assembly_dir).to_text(),
        shell_path: get_shell_path(assembly_dir).to_text(),
        step: RelaunchStep::EnterAppDir,
        outcome: None,
    }
}

/// What is left of a relaunch that failed: a warning for the log. A failed
/// relaunch never turns into an error of the update.
pub fn try_relaunch(outcome: &Result<(), OpError>) -> (warning: Option<String>)
    ensures
        warning.is_some() == outcome.is_err(),
        outcome matches Err(e) ==> warning matches Some(w) && w@ == e.message@,
{
    match outcome {
        Ok(_) => None,
        Err(e) => Some(e.message.clone()),
    }
}

/// The controller begins well-formed and stays so: once it is done, and not
/// before, it has its result.
pub proof fn lemma_well_formed(
    assembly_dir: PathView,
    restart_shell: bool,
    restart_app: bool,
    channel: Seq<char>,
    patch_success: bool,
    r: RelaunchView,
    event: RelaunchEventView,
)
    ensures
        RelaunchView::initial(
            assembly_dir,
            restart_shell,
            restart_app,
            channel,
            patch_success,
        ).well_formed(),
        r.well_formed() ==> r.next(event).well_formed(),
{
}

/// The service starts first: the relaunch begins by entering the live
/// installation directory, and whatever comes of that, the service is started
/// next.
pub proof fn law_service_starts_first(
    assembly_dir: PathView,
    restart_shell: bool,
    restart_app: bool,
    channel: Seq<char>,
    patch_success: bool,
    event: RelaunchEventView,
)
    ensures
        RelaunchView::initial(
            assembly_dir,
            restart_shell,
            restart_app,
            channel,
            patch_success,
        ).step == RelaunchStep::EnterAppDir,
        RelaunchView::initial(
            assembly_dir,
            restart_shell,
            restart_app,
            channel,
            patch_success,
        ).next(event).step == RelaunchStep::StartService,
{
}

/// Only what was asked for is started: the controller comes to start the
/// application only where the invocation asked for it, to open the shell only
/// where the invocation asked for it, and to send the notice only after a
/// failed update. The flags never change.
pub proof fn law_only_requested_processes_start(r: RelaunchView, event: RelaunchEventView)
    requires
        r.next(event).step != r.step,
    ensures
        r.next(event).step == RelaunchStep::StartApp ==> r.restart_app,
        r.next(event).step == RelaunchStep::OpenShell ==> r.restart_shell,
        r.next(event).step == RelaunchStep::NotifyFailure ==> !r.patch_success,
        r.next(event).step != RelaunchStep::EnterAppDir,
        r.next(event).restart_app == r.restart_app,
        r.next(event).restart_shell == r.restart_shell,
        r.next(event).patch_success == r.patch_success,
{
}

} // verus!

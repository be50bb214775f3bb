//! The staging engine: the installation is swapped by renaming whole
//! directories, so that the live directory holds either the old installation,
//! or nothing, or the new one.
//!
//! The engine decides; the caller renames, waits and removes, and reports what
//! the system answered. [`Disk`] is the model of the three directories on
//! which the laws at the end of this file are stated.

use crate::error::{OpError, OpErrorView};
use crate::retry::{
    all_transient, lemma_transient_failures, refused_rounds, Retry, RetryEvent, RetryEventView,
    RetryPolicy, RetryPolicyView, RetryStep, RetryView, ACCESS_DENIED, RENAME_ATTEMPTS,
    RENAME_BACKOFF_MS, SHARING_VIOLATION,
};
use vstd::prelude::*;
use vstd::string::*;

verus! {

/// What the error says when the installation could not be moved away.
pub const MOVE_FAILED: &'static str =
    "error moving current installation to temp directory, aborting patch";

/// What the error says when the payload could not be moved into place.
pub const PATCH_FAILED: &'static str = "error patching auto dark mode, aborting patch";

/// What the error says when there is no payload to install.
pub const PAYLOAD_MISSING: &'static str = "update data directory not found, aborting patch";

/// What the error says when the live installation holds no service
/// executable.
pub const SERVICE_MISSING: &'static str =
    "service executable not found in installation directory, aborting patch";

/// What the error says when a step is requested in a stage that does not
/// allow it.
pub const OUT_OF_ORDER: &'static str = "staging step requested out of order";

/// What stands between the two parts of an error message.
pub const DETAIL_SEPARATOR: &'static str = ": ";

/// How far the update has come.
#[derive(Clone, Copy, PartialEq, Eq, Debug, Structural)]
pub enum Stage {
    /// Nothing has happened yet.
    Idle,
    /// The suite has been stopped.
    Quiesced,
    /// The old installation is in the staging area; the live directory is
    /// empty.
    StagedOld,
    /// The new installation is in the live directory.
    Patched,
    /// The update data has been removed.
    Cleaned,
    /// The old installation is in the live directory, where it was.
    RolledBack,
}

/// One of the directories that the engine moves.
#[derive(Clone, Copy, PartialEq, Eq, Debug, Structural)]
pub enum Slot {
    /// The live installation directory.
    Live,
    /// The staging area for the old installation.
    Temp,
    /// The unpacked payload.
    Payload,
}

/// A step of the engine that renames a directory.
#[derive(Clone, Copy, PartialEq, Eq, Debug, Structural)]
pub enum Move {
    MoveToTemp,
    Patch,
    Rollback,
}

/// What the caller of the engine has to do next.
#[derive(Clone, Copy, PartialEq, Eq, Debug, Structural)]
pub enum StagingStep {
    /// Rename the directory `from` to `to`, in one call to the system.
    Rename { from: Slot, to: Slot },
    /// Wait.
    Pause { millis: u64 },
    /// Remove the update data directory with all that it holds.
    RemoveUpdateData,
    /// Nothing: no step is under way.
    Settled,
}

/// What the caller reports back.
#[derive(Debug)]
pub enum StagingEvent {
    /// The rename succeeded.
    Renamed,
    /// The rename failed with the given system code and description.
    Refused { code: i32, detail: String },
    /// The pause has passed.
    Paused,
    /// The update data is gone.
    Removed,
    /// The update data could not be removed.
    RemoveFailed { detail: String },
}

/// The mathematical content of a [`StagingEvent`].
pub enum StagingEventView {
    Renamed,
    Refused { code: i32, detail: Seq<char> },
    Paused,
    Removed,
    RemoveFailed { detail: Seq<char> },
}

impl View for StagingEvent {
    type V = StagingEventView;

    open spec fn view(&self) -> StagingEventView {
        match self {
            StagingEvent::Renamed => StagingEventView::Renamed,
            StagingEvent::Refused { code, detail } => StagingEventView::Refused {
                code: *code,
                detail: detail@,
            },
            StagingEvent::Paused => StagingEventView::Paused,
            StagingEvent::Removed => StagingEventView::Removed,
            StagingEvent::RemoveFailed { detail } => StagingEventView::RemoveFailed {
                detail: detail@,
            },
        }
    }
}

impl StagingEventView {
    /// The event as an answer to a retried rename, where it is one.
    pub open spec fn as_retry(self) -> Option<RetryEventView> {
        match self {
            StagingEventView::Renamed => Some(RetryEventView::Done),
            StagingEventView::Refused { code, detail } => Some(
                RetryEventView::Refused { code, detail },
            ),
            StagingEventView::Paused => Some(RetryEventView::Paused),
            _ => None,
        }
    }
}

impl Move {
    /// The directory that the step moves.
    pub open spec fn source(self) -> Slot {
        match self {
            Move::MoveToTemp => Slot::Live,
            Move::Patch => Slot::Payload,
            Move::Rollback => Slot::Temp,
        }
    }

    /// Where the step moves it.
    pub open spec fn target(self) -> Slot {
        match self {
            Move::MoveToTemp => Slot::Temp,
            Move::Patch => Slot::Live,
            Move::Rollback => Slot::Live,
        }
    }

    /// The retry policy of the step. Moving the installation away is retried
    /// on a sharing violation; moving the payload in also where access is
    /// denied; a rollback is tried once.
    pub open spec fn policy(self) -> RetryPolicyView {
        match self {
            Move::MoveToTemp => RetryPolicyView {
                transient: seq![SHARING_VIOLATION],
                attempts: RENAME_ATTEMPTS,
                backoff_ms: RENAME_BACKOFF_MS,
            },
            Move::Patch => RetryPolicyView {
                transient: seq![SHARING_VIOLATION, ACCESS_DENIED],
                attempts: RENAME_ATTEMPTS,
                backoff_ms: RENAME_BACKOFF_MS,
            },
            Move::Rollback => RetryPolicyView {
                transient: Seq::empty(),
                attempts: 1,
                backoff_ms: 0,
            },
        }
    }

    /// The stages in which the step may begin.
    pub open spec fn allowed_in(self, stage: Stage) -> bool {
        match self {
            Move::MoveToTemp => stage == Stage::Quiesced,
            Move::Patch => stage == Stage::StagedOld,
            Move::Rollback => stage == Stage::StagedOld || stage == Stage::Patched,
        }
    }

    /// The stage that the step reaches when its rename succeeds.
    pub open spec fn stage_reached(self) -> Stage {
        match self {
            Move::MoveToTemp => Stage::StagedOld,
            Move::Patch => Stage::Patched,
            Move::Rollback => Stage::RolledBack,
        }
    }

    /// The stage after the step has failed in `stage`. Nothing was renamed,
    /// so a failed move away leaves the old installation where it was.
    pub open spec fn stage_kept(self, stage: Stage) -> Stage {
        match self {
            Move::MoveToTemp => Stage::RolledBack,
            _ => stage,
        }
    }

    /// The error of the step when its rename has failed for good with the
    /// given description. Only a failed rollback is severe: the installation
    /// is then neither old nor new.
    pub open spec fn failure(self, detail: Seq<char>) -> OpErrorView {
        match self {
            Move::MoveToTemp => OpErrorView {
                message: MOVE_FAILED@ + DETAIL_SEPARATOR@ + detail,
                severe: false,
            },
            Move::Patch => OpErrorView {
                message: PATCH_FAILED@ + DETAIL_SEPARATOR@ + detail,
                severe: false,
            },
            Move::Rollback => OpErrorView { message: detail, severe: true },
        }
    }

    fn source_slot(self) -> (slot: Slot)
        ensures
            slot == self.source(),
    {
        match self {
            Move::MoveToTemp => Slot::Live,
            Move::Patch => Slot::Payload,
            Move::Rollback => Slot::Temp,
        }
    }

    fn target_slot(self) -> (slot: Slot)
        ensures
            slot == self.target(),
    {
        match self {
            Move::MoveToTemp => Slot::Temp,
            Move::Patch => Slot::Live,
            Move::Rollback => Slot::Live,
        }
    }

    fn retry_policy(self) -> (policy: RetryPolicy)
        ensures
            policy@ == self.policy(),
    {
        let mut transient: Vec<i32> = Vec::new();
        let policy = match self {
            Move::MoveToTemp => {
                transient.push(SHARING_VIOLATION);
                RetryPolicy { transient, attempts: RENAME_ATTEMPTS, backoff_ms: RENAME_BACKOFF_MS }
            },
            Move::Patch => {
                transient.push(SHARING_VIOLATION);
                transient.push(ACCESS_DENIED);
                RetryPolicy { transient, attempts: RENAME_ATTEMPTS, backoff_ms: RENAME_BACKOFF_MS }
            },
            Move::Rollback => RetryPolicy { transient, attempts: 1, backoff_ms: 0 },
        };
        assert(policy@.transient =~= self.policy().transient);
        policy
    }

    fn is_allowed_in(self, stage: Stage) -> (b: bool)
        ensures
            b == self.allowed_in(stage),
    {
        match self {
            Move::MoveToTemp => stage == Stage::Quiesced,
            Move::Patch => stage == Stage::StagedOld,
            Move::Rollback => stage == Stage::StagedOld || stage == Stage::Patched,
        }
    }

    fn reached(self) -> (stage: Stage)
        ensures
            stage == self.stage_reached(),
    {
        match self {
            Move::MoveToTemp => Stage::StagedOld,
            Move::Patch => Stage::Patched,
            Move::Rollback => Stage::RolledBack,
        }
    }

    fn kept(self, stage: Stage) -> (kept: Stage)
        ensures
            kept == self.stage_kept(stage),
    {
        match self {
            Move::MoveToTemp => Stage::RolledBack,
            _ => stage,
        }
    }

    fn error(self, detail: &str) -> (e: OpError)
        ensures
            e@ == self.failure(detail@),
    {
        match self {
            Move::MoveToTemp => {
                let mut message = String::from_str(MOVE_FAILED);
                message.append(DETAIL_SEPARATOR);
                message.append(detail);
                OpError { message, severe: false }
            },
            Move::Patch => {
                let mut message = String::from_str(PATCH_FAILED);
                message.append(DETAIL_SEPARATOR);
                message.append(detail);
                OpError { message, severe: false }
            },
            Move::Rollback => OpError { message: String::from_str(detail), severe: true },
        }
    }
}

/// What the engine is doing.
#[derive(Debug)]
enum Activity {
    Resting,
    Renaming { step: Move, retry: Retry },
    Removing,
}

/// The mathematical content of what the engine is doing.
pub enum ActivityView {
    /// No step is under way.
    Resting,
    /// A directory is being renamed, with retries.
    Renaming { step: Move, retry: RetryView },
    /// The update data is being removed.
    Removing,
}

/// The view of the result of a step.
pub open spec fn outcome_view(outcome: Option<Result<(), OpError>>) -> Option<
    Result<(), OpErrorView>,
> {
    match outcome {
        None => None,
        Some(Ok(())) => Some(Ok(())),
        Some(Err(e)) => Some(Err(e@)),
    }
}

/// The staging engine.
#[derive(Debug)]
pub struct StagingEngine {
    stage: Stage,
    activity: Activity,
    outcome: Option<Result<(), OpError>>,
}

/// The mathematical content of a [`StagingEngine`].
pub struct EngineView {
    pub stage: Stage,
    pub activity: ActivityView,
    /// How the last step ended; `None` before the first step and while a
    /// step is under way.
    pub outcome: Option<Result<(), OpErrorView>>,
}

impl EngineView {
    /// The engine before anything has happened.
    pub open spec fn initial() -> EngineView {
        EngineView { stage: Stage::Idle, activity: ActivityView::Resting, outcome: None }
    }

    /// The engine with a step refused because the stage does not allow it.
    pub open spec fn out_of_order(self) -> EngineView {
        EngineView {
            outcome: Some(Err(OpErrorView { message: OUT_OF_ORDER@, severe: true })),
            ..self
        }
    }

    /// The engine after the caller has said that the suite is stopped.
    pub open spec fn quiesced(self) -> EngineView {
        if !(self.activity is Resting) {
            self
        } else if self.stage == Stage::Idle {
            EngineView { stage: Stage::Quiesced, outcome: Some(Ok(())), ..self }
        } else {
            self.out_of_order()
        }
    }

    /// The engine after a renaming step has been requested. While another
    /// step is under way the request is ignored; in a stage that does not
    /// allow the step it is refused with a severe error.
    pub open spec fn begin(self, step: Move) -> EngineView {
        if !(self.activity is Resting) {
            self
        } else if step.allowed_in(self.stage) {
            EngineView {
                activity: ActivityView::Renaming { step, retry: RetryView::initial(step.policy()) },
                outcome: None,
                ..self
            }
        } else {
            self.out_of_order()
        }
    }

    /// The engine after the move of the live installation to the staging
    /// area has been requested. A live installation without its service
    /// executable is not moved: the step fails severely. Without a payload
    /// the step fails, not severely, and the old installation stays where it
    /// is. In both cases nothing is touched.
    pub open spec fn move_to_temp(
        self,
        service_present: bool,
        payload_present: bool,
    ) -> EngineView {
        if !(self.activity is Resting) || self.stage != Stage::Quiesced {
            self.begin(Move::MoveToTemp)
        } else if !service_present {
            EngineView {
                outcome: Some(Err(OpErrorView { message: SERVICE_MISSING@, severe: true })),
                ..self
            }
        } else if !payload_present {
            EngineView {
                stage: Stage::RolledBack,
                outcome: Some(Err(OpErrorView { message: PAYLOAD_MISSING@, severe: false })),
                ..self
            }
        } else {
            self.begin(Move::MoveToTemp)
        }
    }

    /// The engine after the move of the payload into the live directory has
    /// been requested.
    pub open spec fn patch(self) -> EngineView {
        self.begin(Move::Patch)
    }

    /// The engine after the move of the staging area back to the live
    /// directory has been requested.
    pub open spec fn rollback(self) -> EngineView {
        self.begin(Move::Rollback)
    }

    /// The engine after the removal of the update data has been requested.
    pub open spec fn cleanup(self) -> EngineView {
        if !(self.activity is Resting) {
            self
        } else if self.stage == Stage::Patched {
            EngineView { activity: ActivityView::Removing, outcome: None, ..self }
        } else {
            self.out_of_order()
        }
    }

    /// What the caller has to do next.
    pub open spec fn pending(self) -> StagingStep {
        match self.activity {
            ActivityView::Resting => StagingStep::Settled,
            ActivityView::Renaming { step, retry } => match retry.step {
                RetryStep::Attempt => StagingStep::Rename {
                    from: step.source(),
                    to: step.target(),
                },
                RetryStep::Pause => StagingStep::Pause { millis: retry.policy.backoff_ms },
                _ => StagingStep::Settled,
            },
            ActivityView::Removing => StagingStep::RemoveUpdateData,
        }
    }

    /// The engine after a step of the retried rename.
    pub open spec fn renamed(self, step: Move, retry: RetryView) -> EngineView {
        match retry.step {
            RetryStep::Succeeded => EngineView {
                stage: step.stage_reached(),
                activity: ActivityView::Resting,
                outcome: Some(Ok(())),
            },
            RetryStep::Failed => EngineView {
                stage: step.stage_kept(self.stage),
                activity: ActivityView::Resting,
                outcome: Some(Err(step.failure(retry.detail))),
            },
            _ => EngineView { activity: ActivityView::Renaming { step, retry }, ..self },
        }
    }

    /// The engine after the caller has reported `event`. A failed removal of
    /// the update data is no failure of the update. An event that does not
    /// answer the pending step changes nothing.
    pub open spec fn next(self, event: StagingEventView) -> EngineView {
        match self.activity {
            ActivityView::Resting => self,
            ActivityView::Renaming { step, retry } => match event.as_retry() {
                Some(e) => self.renamed(step, retry.next(e)),
                None => self,
            },
            ActivityView::Removing => match event {
                StagingEventView::Removed | StagingEventView::RemoveFailed { .. } => EngineView {
                    stage: Stage::Cleaned,
                    activity: ActivityView::Resting,
                    outcome: Some(Ok(())),
                },
                _ => self,
            },
        }
    }
}

impl View for Activity {
    type V = ActivityView;

    closed spec fn view(&self) -> ActivityView {
        match self {
            Activity::Resting => ActivityView::Resting,
            Activity::Renaming { step, retry } => ActivityView::Renaming {
                step: *step,
                retry: retry@,
            },
            Activity::Removing => ActivityView::Removing,
        }
    }
}

impl View for StagingEngine {
    type V = EngineView;

    closed spec fn view(&self) -> EngineView {
        EngineView {
            stage: self.stage,
            activity: self.activity@,
            outcome: outcome_view(self.outcome),
        }
    }
}

impl StagingEngine {
    /// The engine before anything has happened.
    pub fn new() -> (engine: StagingEngine)
        ensures
            engine@ == EngineView::initial(),
    {
        StagingEngine { stage: Stage::Idle, activity: Activity::Resting, outcome: None }
    }

    fn is_resting(&self) -> (b: bool)
        ensures
            b == (self@.activity is Resting),
    {
        match &self.activity {
            Activity::Resting => true,
            _ => false,
        }
    }

    fn out_of_order(self) -> (engine: StagingEngine)
        ensures
            engine@ == self@.out_of_order(),
    {
        StagingEngine {
            stage: self.stage,
            activity: self.activity,
            outcome: Some(Err(OpError::new(OUT_OF_ORDER, true))),
        }
    }

    /// Tells the engine that the suite is stopped.
    pub fn quiesced(self) -> (engine: StagingEngine)
        ensures
            engine@ == self@.quiesced(),
    {
        if !self.is_resting() {
            self
        } else if self.stage == Stage::Idle {
            StagingEngine { stage: Stage::Quiesced, activity: self.activity, outcome: Some(Ok(())) }
        } else {
            self.out_of_order()
        }
    }

    fn begin(self, step: Move) -> (engine: StagingEngine)
        ensures
            engine@ == self@.begin(step),
    {
        if !self.is_resting() {
            self
        } else if step.is_allowed_in(self.stage) {
            StagingEngine {
                stage: self.stage,
                activity: Activity::Renaming { step, retry: Retry::new(step.retry_policy()) },
                outcome: None,
            }
        } else {
            self.out_of_order()
        }
    }

    /// Requests the removal of the update data.
    pub fn cleanup(self) -> (engine: StagingEngine)
        ensures
            engine@ == self@.cleanup(),
    {
        if !self.is_resting() {
            self
        } else if self.stage == Stage::Patched {
            StagingEngine { stage: self.stage, activity: Activity::Removing, outcome: None }
        } else {
            self.out_of_order()
        }
    }

    /// The stage that the update has reached.
    pub fn stage(&self) -> (stage: Stage)
        ensures
            stage == self@.stage,
    {
        self.stage
    }

    /// What the caller has to do next.
    pub fn pending(&self) -> (step: StagingStep)
        ensures
            step == self@.pending(),
    {
        match &self.activity {
            Activity::Resting => StagingStep::Settled,
            Activity::Renaming { step, retry } => match retry.pending() {
                RetryStep::Attempt => StagingStep::Rename {
                    from: step.source_slot(),
                    to: step.target_slot(),
                },
                RetryStep::Pause => StagingStep::Pause { millis: retry.backoff_ms() },
                _ => StagingStep::Settled,
            },
            Activity::Removing => StagingStep::RemoveUpdateData,
        }
    }

    /// How the last step ended.
    pub fn outcome(&self) -> (outcome: Option<Result<(), OpError>>)
        ensures
            outcome_view(outcome) == self@.outcome,
    {
        match &self.outcome {
            None => None,
            Some(Ok(())) => Some(Ok(())),
            Some(Err(e)) => Some(Err(OpError { message: e.message.clone(), severe: e.severe })),
        }
    }

    /// The engine after the caller has reported `event`.
    pub fn advance(self, event: StagingEvent) -> (engine: StagingEngine)
        ensures
            engine@ == self@.next(event@),
    {
        let stage = self.stage;
        match self.activity {
            Activity::Resting => StagingEngine {
                stage,
                activity: Activity::Resting,
                outcome: self.outcome,
            },
            Activity::Renaming { step, retry } => {
                let answer = match event {
                    StagingEvent::Renamed => RetryEvent::Done,
                    StagingEvent::Refused { code, detail } => RetryEvent::Refused { code, detail },
                    StagingEvent::Paused => RetryEvent::Paused,
                    _ => {
                        return StagingEngine {
                            stage,
                            activity: Activity::Renaming { step, retry },
                            outcome: self.outcome,
                        };
                    },
                };
                let retry = retry.advance(answer);
                match retry.pending() {
                    RetryStep::Succeeded => StagingEngine {
                        stage: step.reached(),
                        activity: Activity::Resting,
                        outcome: Some(Ok(())),
                    },
                    RetryStep::Failed => {
                        let detail = retry.detail();
                        StagingEngine {
                            stage: step.kept(stage),
                            activity: Activity::Resting,
                            outcome: Some(Err(step.error(detail.as_str()))),
                        }
                    },
                    _ => StagingEngine {
                        stage,
                        activity: Activity::Renaming { step, retry },
                        outcome: self.outcome,
                    },
                }
            },
            Activity::Removing => match event {
                StagingEvent::Removed | StagingEvent::RemoveFailed { .. } => StagingEngine {
                    stage: Stage::Cleaned,
                    activity: Activity::Resting,
                    outcome: Some(Ok(())),
                },
                _ => StagingEngine { stage, activity: Activity::Removing, outcome: self.outcome },
            },
        }
    }
}

/// Requests the move of the live installation to the staging area.
/// `service_present` says whether the live installation holds the service
/// executable, `payload_present` whether there is a payload to install.
pub fn move_to_temp(engine: StagingEngine, service_present: bool, payload_present: bool) -> (next:
    StagingEngine)
    ensures
        next@ == engine@.move_to_temp(service_present, payload_present),
{
    if !engine.is_resting() || engine.stage != Stage::Quiesced {
        engine.begin(Move::MoveToTemp)
    } else if !service_present {
        StagingEngine {
            stage: engine.stage,
            activity: engine.activity,
            outcome: Some(Err(OpError::new(SERVICE_MISSING, true))),
        }
    } else if !payload_present {
        StagingEngine {
            stage: Stage::RolledBack,
            activity: engine.activity,
            outcome: Some(Err(OpError::new(PAYLOAD_MISSING, false))),
        }
    } else {
        engine.begin(Move::MoveToTemp)
    }
}

/// Requests the move of the payload into the live directory.
pub fn patch(engine: StagingEngine) -> (next: StagingEngine)
    ensures
        next@ == engine@.patch(),
{
    engine.begin(Move::Patch)
}

/// Requests the move of the staging area back to the live directory.
pub fn rollback(engine: StagingEngine) -> (next: StagingEngine)
    ensures
        next@ == engine@.rollback(),
{
    engine.begin(Move::Rollback)
}

/// Requests the removal of the update data.
pub fn clean_update_files(engine: StagingEngine) -> (next: StagingEngine)
    ensures
        next@ == engine@.cleanup(),
{
    engine.cleanup()
}

/// The files below a directory, by their path relative to it, with their
/// contents.
pub struct Tree {
    pub files: Map<Seq<char>, Seq<u8>>,
}

/// The three directories that the engine moves: what each holds, or `None`
/// where it does not exist.
pub struct Disk {
    pub live: Option<Tree>,
    pub temp: Option<Tree>,
    pub payload: Option<Tree>,
}

impl Disk {
    /// What the directory holds.
    pub open spec fn at(self, slot: Slot) -> Option<Tree> {
        match slot {
            Slot::Live => self.live,
            Slot::Temp => self.temp,
            Slot::Payload => self.payload,
        }
    }

    /// The disk with the directory holding `content`.
    pub open spec fn with(self, slot: Slot, content: Option<Tree>) -> Disk {
        match slot {
            Slot::Live => Disk { live: content, ..self },
            Slot::Temp => Disk { temp: content, ..self },
            Slot::Payload => Disk { payload: content, ..self },
        }
    }

    /// The disk after a successful rename: what `from` held is at `to`, whole
    /// and unchanged, and `from` is gone.
    pub open spec fn renamed(self, from: Slot, to: Slot) -> Disk {
        self.with(to, self.at(from)).with(from, None)
    }

    /// The disk after the caller has carried out `step` and the system has
    /// answered `event`. A rename either happens as a whole or not at all.
    /// Removing the update data takes the staging area and the payload with
    /// it; of what a failed removal leaves of them nothing is known.
    pub open spec fn effect(self, step: StagingStep, event: StagingEventView) -> Disk {
        match (step, event) {
            (StagingStep::Rename { from, to }, StagingEventView::Renamed) => self.renamed(from, to),
            (StagingStep::RemoveUpdateData, StagingEventView::Removed) => Disk {
                temp: None,
                payload: None,
                ..self
            },
            (StagingStep::RemoveUpdateData, StagingEventView::RemoveFailed { .. }) => Disk {
                temp: arbitrary(),
                payload: arbitrary(),
                ..self
            },
            _ => self,
        }
    }
}

/// The engine together with the disk it works on.
pub struct Staging {
    pub engine: EngineView,
    pub disk: Disk,
}

impl Staging {
    /// The state after the caller has carried out the pending step and
    /// reported `event`.
    pub open spec fn next(self, event: StagingEventView) -> Staging {
        Staging {
            engine: self.engine.next(event),
            disk: self.disk.effect(self.engine.pending(), event),
        }
    }

    /// The state after `events` in turn.
    pub open spec fn run(self, events: Seq<StagingEventView>) -> Staging
        decreases events.len(),
    {
        if events.len() == 0 {
            self
        } else {
            self.run(events.drop_last()).next(events.last())
        }
    }

    /// A disk with the suite stopped and nothing staged yet.
    pub open spec fn quiesced(disk: Disk) -> Staging {
        Staging { engine: EngineView::initial().quiesced(), disk }
    }

    /// The state after the move to the staging area has been requested.
    pub open spec fn move_to_temp(self, service_present: bool, payload_present: bool) -> Staging {
        Staging { engine: self.engine.move_to_temp(service_present, payload_present), ..self }
    }

    /// The state after the move of the payload has been requested.
    pub open spec fn patch(self) -> Staging {
        Staging { engine: self.engine.patch(), ..self }
    }

    /// The state after the rollback has been requested.
    pub open spec fn rollback(self) -> Staging {
        Staging { engine: self.engine.rollback(), ..self }
    }

    /// The state after the removal of the update data has been requested.
    pub open spec fn cleanup(self) -> Staging {
        Staging { engine: self.engine.cleanup(), ..self }
    }

    /// The step `step` is under way and nothing has been renamed yet.
    pub open spec fn under_way(self, step: Move, stage: Stage, disk: Disk) -> bool {
        &&& self.engine.activity matches ActivityView::Renaming { step: s, retry }
        &&& s == step
        &&& retry.policy == step.policy()
        &&& (retry.step == RetryStep::Attempt || retry.step == RetryStep::Pause)
        &&& self.engine.stage == stage
        &&& self.engine.outcome is None
        &&& self.disk == disk
    }

    /// The step `step`, begun in `stage` on `disk`, has succeeded: the
    /// directory has moved.
    pub open spec fn succeeded(self, step: Move, disk: Disk) -> bool {
        &&& self.engine.activity is Resting
        &&& self.engine.stage == step.stage_reached()
        &&& self.engine.outcome == Some(Ok::<(), OpErrorView>(()))
        &&& self.disk == disk.renamed(step.source(), step.target())
    }

    /// The step `step`, begun in `stage` on `disk`, has failed: the disk is
    /// as it was.
    pub open spec fn failed(self, step: Move, stage: Stage, disk: Disk) -> bool {
        &&& self.engine.activity is Resting
        &&& self.engine.stage == step.stage_kept(stage)
        &&& self.engine.outcome matches Some(Err(e))
        &&& e.severe == (step == Move::Rollback)
        &&& self.disk == disk
    }
}

/// A renaming step that is under way is, after any events, still under way
/// with the disk untouched, or has succeeded with the directory moved, or has
/// failed with the disk untouched.
pub proof fn lemma_move_outcomes(
    s: Staging,
    step: Move,
    events: Seq<StagingEventView>,
)
    requires
        s.under_way(step, s.engine.stage, s.disk),
    ensures
        s.run(events).under_way(step, s.engine.stage, s.disk) || s.run(events).succeeded(
            step,
            s.disk,
        ) || s.run(events).failed(step, s.engine.stage, s.disk),
    decreases events.len(),
{
    if events.len() > 0 {
        lemma_move_outcomes(s, step, events.drop_last());
    }
}

/// Staging is reversible: where the move of the installation to the staging
/// area succeeds and the rollback that follows it succeeds, the live
/// directory holds exactly what it held before, and the payload is untouched.
/// In between the live directory does not exist.
pub proof fn law_staging_is_reversible(
    disk: Disk,
    moving: Seq<StagingEventView>,
    restoring: Seq<StagingEventView>,
)
    requires
        Staging::quiesced(disk).move_to_temp(true, true).run(moving).engine.outcome == Some(
            Ok::<(), OpErrorView>(()),
        ),
        Staging::quiesced(disk).move_to_temp(true, true).run(moving).rollback().run(
            restoring,
        ).engine.outcome == Some(Ok::<(), OpErrorView>(())),
    ensures
        ({
            let staged = Staging::quiesced(disk).move_to_temp(true, true).run(moving);
            let back = staged.rollback().run(restoring);
            &&& staged.engine.stage == Stage::StagedOld
            &&& staged.disk.live is None
            &&& staged.disk.temp == disk.live
            &&& back.engine.stage == Stage::RolledBack
            &&& back.disk.live == disk.live
            &&& back.disk.payload == disk.payload
        }),
{
    let start = Staging::quiesced(disk).move_to_temp(true, true);
    lemma_move_outcomes(start, Move::MoveToTemp, moving);
    lemma_move_outcomes(start.run(moving).rollback(), Move::Rollback, restoring);
}

/// A failed patch changes nothing: where the move of the payload into the live
/// directory fails, the error is not severe, the engine is where it was, and
/// nothing on the disk has changed; a rollback that then succeeds puts into
/// the live directory exactly what the staging area held.
pub proof fn law_failed_patch_changes_nothing(
    staged: Staging,
    patching: Seq<StagingEventView>,
    restoring: Seq<StagingEventView>,
)
    requires
        staged.engine.stage == Stage::StagedOld,
        staged.engine.activity is Resting,
        staged.patch().run(patching).engine.outcome is Some,
        staged.patch().run(patching).engine.outcome->0 is Err,
    ensures
        ({
            let failed = staged.patch().run(patching);
            let back = failed.rollback().run(restoring);
            &&& failed.disk == staged.disk
            &&& failed.engine.stage == Stage::StagedOld
            &&& failed.engine.outcome matches Some(Err(e)) && !e.severe
            &&& back.engine.outcome == Some(Ok::<(), OpErrorView>(())) ==> {
                &&& back.disk.live == staged.disk.temp
                &&& back.disk.payload == staged.disk.payload
                &&& back.engine.stage == Stage::RolledBack
            }
        }),
{
    lemma_move_outcomes(staged.patch(), Move::Patch, patching);
    lemma_move_outcomes(staged.patch().run(patching).rollback(), Move::Rollback, restoring);
}

/// A failed rollback is severe and leaves disk and stage as they were.
pub proof fn law_failed_rollback_is_severe(staged: Staging, restoring: Seq<StagingEventView>)
    requires
        staged.engine.stage == Stage::StagedOld || staged.engine.stage == Stage::Patched,
        staged.engine.activity is Resting,
        staged.rollback().run(restoring).engine.outcome is Some,
        staged.rollback().run(restoring).engine.outcome->0 is Err,
    ensures
        ({
            let failed = staged.rollback().run(restoring);
            &&& failed.disk == staged.disk
            &&& failed.engine.stage == staged.engine.stage
            &&& failed.engine.outcome matches Some(Err(e)) && e.severe
        }),
{
    lemma_move_outcomes(staged.rollback(), Move::Rollback, restoring);
}

/// What a caller can do with the engine: request a step, or report what the
/// system answered.
pub enum StagingCall {
    Quiesced,
    MoveToTemp { service_present: bool, payload_present: bool },
    Patch,
    Rollback,
    Cleanup,
    Report { event: StagingEventView },
}

impl Staging {
    /// A disk on which nothing has happened yet.
    pub open spec fn fresh(disk: Disk) -> Staging {
        Staging { engine: EngineView::initial(), disk }
    }

    /// The state after `call`.
    pub open spec fn apply(self, call: StagingCall) -> Staging {
        match call {
            StagingCall::Quiesced => Staging { engine: self.engine.quiesced(), ..self },
            StagingCall::MoveToTemp { service_present, payload_present } => self.move_to_temp(
                service_present,
                payload_present,
            ),
            StagingCall::Patch => self.patch(),
            StagingCall::Rollback => self.rollback(),
            StagingCall::Cleanup => self.cleanup(),
            StagingCall::Report { event } => self.next(event),
        }
    }

    /// The state after `calls` in turn.
    pub open spec fn history(self, calls: Seq<StagingCall>) -> Staging
        decreases calls.len(),
    {
        if calls.len() == 0 {
            self
        } else {
            self.history(calls.drop_last()).apply(calls.last())
        }
    }

    /// What the stage of the engine says of the disk, where `before` is the
    /// disk on which the update began. The live directory holds the old
    /// installation whole, or nothing, or the payload whole.
    pub open spec fn consistent(self, before: Disk) -> bool {
        &&& match self.engine.stage {
            Stage::Idle | Stage::Quiesced => self.disk == before,
            Stage::StagedOld => {
                &&& self.disk.live is None
                &&& self.disk.temp == before.live
                &&& self.disk.payload == before.payload
            },
            Stage::Patched => {
                &&& self.disk.live == before.payload
                &&& self.disk.temp == before.live
                &&& self.disk.payload is None
            },
            Stage::Cleaned => self.disk.live == before.payload,
            Stage::RolledBack => self.disk.live == before.live,
        }
        &&& match self.engine.activity {
            ActivityView::Resting => true,
            ActivityView::Renaming { step, retry } => {
                &&& step.allowed_in(self.engine.stage)
                &&& retry.step == RetryStep::Attempt || retry.step == RetryStep::Pause
            },
            ActivityView::Removing => self.engine.stage == Stage::Patched,
        }
    }
}

/// The stages mean what they say: whatever is requested of the engine and
/// whatever the system answers, in any order, the disk is as the stage of the
/// engine says. In particular the live directory never holds anything but
/// the old installation, nothing, or the new one.
pub proof fn law_stages_mean_what_they_say(disk: Disk, calls: Seq<StagingCall>)
    ensures
        Staging::fresh(disk).history(calls).consistent(disk),
        ({
            let live = Staging::fresh(disk).history(calls).disk.live;
            live == disk.live || live is None || live == disk.payload
        }),
    decreases calls.len(),
{
    if calls.len() > 0 {
        law_stages_mean_what_they_say(disk, calls.drop_last());
    }
}

/// What a caller reports when a rename fails each time with one of the given
/// codes and descriptions: each failure, then the pause.
pub open spec fn refused_renames(failures: Seq<(i32, Seq<char>)>) -> Seq<StagingEventView>
    decreases failures.len(),
{
    if failures.len() == 0 {
        Seq::empty()
    } else {
        refused_renames(failures.drop_last()).push(
            StagingEventView::Refused { code: failures.last().0, detail: failures.last().1 },
        ).push(StagingEventView::Paused)
    }
}

/// Reporting one more event is one more step.
pub proof fn lemma_run_push(s: Staging, events: Seq<StagingEventView>, e: StagingEventView)
    ensures
        s.run(events.push(e)) == s.run(events).next(e),
{
    assert(events.push(e).drop_last() =~= events);
}

/// After fewer transient failures than the step has attempts, the step is
/// still under way, with its retries where the failures have brought them.
pub proof fn lemma_refused_renames(s: Staging, step: Move, failures: Seq<(i32, Seq<char>)>)
    requires
        s.engine.activity == (ActivityView::Renaming {
            step,
            retry: RetryView::initial(step.policy()),
        }),
        all_transient(step.policy(), failures),
        failures.len() < step.policy().attempts,
    ensures
        s.run(refused_renames(failures)).disk == s.disk,
        s.run(refused_renames(failures)).engine == (EngineView {
            activity: ActivityView::Renaming {
                step,
                retry: RetryView::initial(step.policy()).run(refused_rounds(failures)),
            },
            ..s.engine
        }),
    decreases failures.len(),
{
    let start = RetryView::initial(step.policy());
    if failures.len() > 0 {
        let earlier = failures.drop_last();
        lemma_refused_renames(s, step, earlier);
        lemma_transient_failures(step.policy(), failures);
        let refused = RetryEventView::Refused {
            code: failures.last().0,
            detail: failures.last().1,
        };
        crate::retry::lemma_run_push(start, refused_rounds(earlier), refused);
        crate::retry::lemma_run_push(
            start,
            refused_rounds(earlier).push(refused),
            RetryEventView::Paused,
        );
        let refused_rename = StagingEventView::Refused {
            code: failures.last().0,
            detail: failures.last().1,
        };
        lemma_run_push(s, refused_renames(earlier), refused_rename);
        lemma_run_push(
            s,
            refused_renames(earlier).push(refused_rename),
            StagingEventView::Paused,
        );
    }
}

/// Within its attempts, a rename that succeeds counts: a step whose rename
/// fails with transient codes fewer times than it has attempts and then
/// succeeds has succeeded, and the directory has moved.
pub proof fn law_rename_succeeds_within_bound(
    s: Staging,
    step: Move,
    failures: Seq<(i32, Seq<char>)>,
)
    requires
        s.engine.activity is Resting,
        step.allowed_in(s.engine.stage),
        all_transient(step.policy(), failures),
        failures.len() < step.policy().attempts,
    ensures
        ({
            let begun = Staging { engine: s.engine.begin(step), ..s };
            begun.run(refused_renames(failures).push(StagingEventView::Renamed)).succeeded(
                step,
                s.disk,
            )
        }),
{
    let begun = Staging { engine: s.engine.begin(step), ..s };
    lemma_refused_renames(begun, step, failures);
    lemma_run_push(begun, refused_renames(failures), StagingEventView::Renamed);
}

/// After its attempts, a step has failed: a step whose rename
/// fails with transient codes as often as it has attempts has failed, not
/// severely, with the description of the last failure after the step's own
/// message; the disk is as it was.
pub proof fn law_rename_fails_at_bound(s: Staging, step: Move, failures: Seq<(i32, Seq<char>)>)
    requires
        s.engine.activity is Resting,
        step.allowed_in(s.engine.stage),
        all_transient(step.policy(), failures),
        failures.len() == step.policy().attempts,
    ensures
        ({
            let begun = Staging { engine: s.engine.begin(step), ..s };
            let end = begun.run(refused_renames(failures));
            &&& end.failed(step, s.engine.stage, s.disk)
            &&& end.engine.outcome == Some(
                Err::<(), OpErrorView>(step.failure(failures.last().1)),
            )
            &&& !step.failure(failures.last().1).severe
        }),
{
    let begun = Staging { engine: s.engine.begin(step), ..s };
    let earlier = failures.drop_last();
    lemma_refused_renames(begun, step, earlier);
    lemma_transient_failures(step.policy(), earlier);
    let refused_rename = StagingEventView::Refused {
        code: failures.last().0,
        detail: failures.last().1,
    };
    lemma_run_push(begun, refused_renames(earlier), refused_rename);
    lemma_run_push(begun, refused_renames(earlier).push(refused_rename), StagingEventView::Paused);
}

} // verus!

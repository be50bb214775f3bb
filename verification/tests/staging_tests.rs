use adm_updater::error::OpError;
use adm_updater::retry::{Retry, RetryEvent, RetryPolicy, RetryStep};
use adm_updater::staging::{
    clean_update_files, move_to_temp, patch, rollback, Slot, Stage, StagingEngine, StagingEvent,
    StagingStep,
};

/// The three directories, each with the names of the files it holds.
#[derive(Clone, Debug, PartialEq)]
struct Disk {
    live: Option<Vec<String>>,
    temp: Option<Vec<String>>,
    payload: Option<Vec<String>>,
}

impl Disk {
    fn new(live: &[&str], payload: &[&str]) -> Disk {
        Disk {
            live: Some(live.iter().map(|s| s.to_string()).collect()),
            temp: None,
            payload: Some(payload.iter().map(|s| s.to_string()).collect()),
        }
    }

    fn slot(&mut self, slot: Slot) -> &mut Option<Vec<String>> {
        match slot {
            Slot::Live => &mut self.live,
            Slot::Temp => &mut self.temp,
            Slot::Payload => &mut self.payload,
        }
    }

    fn rename(&mut self, from: Slot, to: Slot) {
        let moved = self.slot(from).take();
        *self.slot(to) = moved;
    }
}

fn sharing_violation() -> StagingEvent {
    StagingEvent::Refused { code: 32, detail: "in use (os error 32)".to_string() }
}

fn access_denied() -> StagingEvent {
    StagingEvent::Refused { code: 5, detail: "denied (os error 5)".to_string() }
}

fn not_found() -> StagingEvent {
    StagingEvent::Refused { code: 2, detail: "not found (os error 2)".to_string() }
}

/// Carries out what the engine asks for; every rename fails with the next
/// scripted event until the script is used up, then succeeds.
fn drive(
    mut engine: StagingEngine,
    disk: &mut Disk,
    mut failures: Vec<StagingEvent>,
) -> (StagingEngine, Vec<StagingStep>, u64) {
    failures.reverse();
    let mut steps = Vec::new();
    let mut waited: u64 = 0;
    loop {
        let step = engine.pending();
        match step {
            StagingStep::Rename { from, to } => {
                steps.push(step);
                match failures.pop() {
                    Some(event) => engine = engine.advance(event),
                    None => {
                        disk.rename(from, to);
                        engine = engine.advance(StagingEvent::Renamed);
                    }
                }
            }
            StagingStep::Pause { millis } => {
                waited += millis;
                engine = engine.advance(StagingEvent::Paused);
            }
            StagingStep::RemoveUpdateData => {
                steps.push(step);
                disk.temp = None;
                disk.payload = None;
                engine = engine.advance(StagingEvent::Removed);
            }
            StagingStep::Settled => return (engine, steps, waited),
        }
    }
}

fn error_of(engine: &StagingEngine) -> OpError {
    engine.outcome().unwrap().unwrap_err()
}

fn succeeded(engine: &StagingEngine) -> bool {
    matches!(engine.outcome(), Some(Ok(())))
}

fn quiesced() -> StagingEngine {
    let engine = StagingEngine::new();
    assert_eq!(engine.stage(), Stage::Idle);
    let engine = engine.quiesced();
    assert_eq!(engine.stage(), Stage::Quiesced);
    engine
}

#[test]
fn move_to_temp_renames_live_to_temp() {
    let mut disk = Disk::new(&["old.exe"], &["new.exe"]);
    let (engine, steps, waited) = drive(move_to_temp(quiesced(), true, true), &mut disk, vec![]);
    assert!(succeeded(&engine));
    assert_eq!(engine.stage(), Stage::StagedOld);
    assert_eq!(steps, vec![StagingStep::Rename { from: Slot::Live, to: Slot::Temp }]);
    assert_eq!(waited, 0);
    assert_eq!(disk.live, None);
    assert_eq!(disk.temp, Some(vec!["old.exe".to_string()]));
}

#[test]
fn move_to_temp_without_payload_fails_without_touching_anything() {
    let engine = move_to_temp(quiesced(), true, false);
    assert_eq!(engine.pending(), StagingStep::Settled);
    let e = error_of(&engine);
    assert!(!e.severe);
    assert_eq!(e.message, "update data directory not found, aborting patch");
    assert_eq!(engine.stage(), Stage::RolledBack);
}

#[test]
fn move_to_temp_without_service_executable_fails_severely() {
    for payload_present in [true, false] {
        let engine = move_to_temp(quiesced(), false, payload_present);
        assert_eq!(engine.pending(), StagingStep::Settled);
        let e = error_of(&engine);
        assert!(e.severe);
        assert_eq!(
            e.message,
            "service executable not found in installation directory, aborting patch"
        );
        assert_eq!(engine.stage(), Stage::Quiesced);
    }
}

#[test]
fn two_sharing_violations_then_success_is_success() {
    let mut disk = Disk::new(&["old.exe"], &["new.exe"]);
    let failures = vec![sharing_violation(), sharing_violation()];
    let (engine, steps, waited) = drive(move_to_temp(quiesced(), true, true), &mut disk, failures);
    assert!(succeeded(&engine));
    assert_eq!(engine.stage(), Stage::StagedOld);
    assert_eq!(steps.len(), 3);
    assert_eq!(waited, 2000);
    assert_eq!(disk.temp, Some(vec!["old.exe".to_string()]));
}

#[test]
fn four_sharing_violations_exceed_the_bound() {
    let mut disk = Disk::new(&["old.exe"], &["new.exe"]);
    let before = disk.clone();
    let failures =
        vec![sharing_violation(), sharing_violation(), sharing_violation(), sharing_violation()];
    let (engine, steps, waited) = drive(move_to_temp(quiesced(), true, true), &mut disk, failures);
    let e = error_of(&engine);
    assert!(!e.severe);
    assert_eq!(
        e.message,
        "error moving current installation to temp directory, aborting patch: in use (os error 32)"
    );
    assert_eq!(steps.len(), 3);
    assert_eq!(waited, 3000);
    assert_eq!(engine.stage(), Stage::RolledBack);
    assert_eq!(disk, before);
}

#[test]
fn any_other_failure_of_move_to_temp_is_final_at_once() {
    let mut disk = Disk::new(&["old.exe"], &["new.exe"]);
    let (engine, steps, waited) = drive(move_to_temp(quiesced(), true, true), &mut disk, vec![not_found()]);
    let e = error_of(&engine);
    assert!(!e.severe);
    assert_eq!(
        e.message,
        "error moving current installation to temp directory, aborting patch: not found (os error 2)"
    );
    assert_eq!(steps.len(), 1);
    assert_eq!(waited, 0);
}

#[test]
fn access_denied_is_transient_for_patch_only() {
    let mut disk = Disk::new(&["old.exe"], &["new.exe"]);
    let (engine, steps, _) = drive(move_to_temp(quiesced(), true, true), &mut disk, vec![access_denied()]);
    assert!(!error_of(&engine).severe);
    assert_eq!(steps.len(), 1);

    let mut disk = Disk::new(&["old.exe"], &["new.exe"]);
    let (engine, _, _) = drive(move_to_temp(quiesced(), true, true), &mut disk, vec![]);
    let failures = vec![access_denied(), sharing_violation()];
    let (engine, steps, waited) = drive(patch(engine), &mut disk, failures);
    assert!(succeeded(&engine));
    assert_eq!(engine.stage(), Stage::Patched);
    assert_eq!(steps.len(), 3);
    assert_eq!(steps[0], StagingStep::Rename { from: Slot::Payload, to: Slot::Live });
    assert_eq!(waited, 2000);
    assert_eq!(disk.live, Some(vec!["new.exe".to_string()]));
    assert_eq!(disk.payload, None);
}

#[test]
fn move_to_temp_then_rollback_restores_the_installation() {
    let mut disk = Disk::new(&["a.dll", "old.exe"], &["new.exe"]);
    let before = disk.clone();
    let (engine, _, _) = drive(move_to_temp(quiesced(), true, true), &mut disk, vec![sharing_violation()]);
    assert!(succeeded(&engine));
    assert_eq!(disk.live, None);
    let (engine, steps, waited) = drive(rollback(engine), &mut disk, vec![]);
    assert!(succeeded(&engine));
    assert_eq!(engine.stage(), Stage::RolledBack);
    assert_eq!(steps, vec![StagingStep::Rename { from: Slot::Temp, to: Slot::Live }]);
    assert_eq!(waited, 0);
    assert_eq!(disk, before);
}

#[test]
fn a_failed_patch_leaves_the_staged_state_and_rollback_restores() {
    let mut disk = Disk::new(&["old.exe"], &["new.exe"]);
    let before = disk.clone();
    let (engine, _, _) = drive(move_to_temp(quiesced(), true, true), &mut disk, vec![]);
    let staged = disk.clone();
    let failures = vec![access_denied(), access_denied(), sharing_violation()];
    let (engine, steps, _) = drive(patch(engine), &mut disk, failures);
    let e = error_of(&engine);
    assert!(!e.severe);
    assert_eq!(e.message, "error patching auto dark mode, aborting patch: in use (os error 32)");
    assert_eq!(steps.len(), 3);
    assert_eq!(engine.stage(), Stage::StagedOld);
    assert_eq!(disk, staged);
    assert_eq!(disk.live, None);
    let (engine, _, _) = drive(rollback(engine), &mut disk, vec![]);
    assert!(succeeded(&engine));
    assert_eq!(disk, before);
}

#[test]
fn a_failed_rollback_is_severe_and_is_not_retried() {
    let mut disk = Disk::new(&["old.exe"], &["new.exe"]);
    let (engine, _, _) = drive(move_to_temp(quiesced(), true, true), &mut disk, vec![]);
    let (engine, steps, waited) = drive(rollback(engine), &mut disk, vec![sharing_violation()]);
    let e = error_of(&engine);
    assert!(e.severe);
    assert_eq!(e.message, "in use (os error 32)");
    assert_eq!(steps.len(), 1);
    assert_eq!(waited, 0);
    assert_eq!(engine.stage(), Stage::StagedOld);
    assert_eq!(disk.live, None);
}

#[test]
fn cleanup_removes_the_update_data_and_never_fails() {
    let mut disk = Disk::new(&["old.exe"], &["new.exe"]);
    let (engine, _, _) = drive(move_to_temp(quiesced(), true, true), &mut disk, vec![]);
    let (engine, _, _) = drive(patch(engine), &mut disk, vec![]);
    let engine = clean_update_files(engine);
    assert_eq!(engine.pending(), StagingStep::RemoveUpdateData);
    assert!(engine.outcome().is_none());
    let engine = engine.advance(StagingEvent::RemoveFailed { detail: "busy".to_string() });
    assert!(succeeded(&engine));
    assert_eq!(engine.stage(), Stage::Cleaned);
    assert_eq!(engine.pending(), StagingStep::Settled);
}

#[test]
fn steps_out_of_order_are_refused_severely() {
    let engine = patch(quiesced());
    assert!(error_of(&engine).severe);
    assert_eq!(error_of(&engine).message, "staging step requested out of order");
    assert_eq!(engine.stage(), Stage::Quiesced);
    assert_eq!(engine.pending(), StagingStep::Settled);

    assert!(error_of(&move_to_temp(StagingEngine::new(), true, true)).severe);
    assert!(error_of(&move_to_temp(StagingEngine::new(), false, false)).severe);
    assert!(error_of(&rollback(quiesced())).severe);
    assert!(error_of(&clean_update_files(quiesced())).severe);
    assert!(error_of(&quiesced().quiesced()).severe);
}

#[test]
fn a_request_while_a_step_is_under_way_is_ignored() {
    let engine = move_to_temp(quiesced(), true, true);
    let engine = patch(engine);
    assert_eq!(engine.pending(), StagingStep::Rename { from: Slot::Live, to: Slot::Temp });
    assert!(engine.outcome().is_none());
    let engine = engine.advance(StagingEvent::Removed);
    assert_eq!(engine.pending(), StagingStep::Rename { from: Slot::Live, to: Slot::Temp });
    let engine = engine.advance(StagingEvent::Paused);
    assert_eq!(engine.pending(), StagingStep::Rename { from: Slot::Live, to: Slot::Temp });
}

#[test]
fn retry_policy_decides_what_is_transient() {
    let policy = RetryPolicy { transient: vec![32, 5], attempts: 2, backoff_ms: 10 };
    assert!(policy.is_transient(32));
    assert!(policy.is_transient(5));
    assert!(!policy.is_transient(2));
    assert!(!policy.is_transient(-1));
    let copy = policy.duplicate();
    assert_eq!(copy.transient, vec![32, 5]);
    assert_eq!(copy.attempts, 2);
    assert_eq!(copy.backoff_ms, 10);
}

#[test]
fn retry_makes_at_least_one_attempt() {
    let policy = RetryPolicy { transient: vec![32], attempts: 0, backoff_ms: 7 };
    let mut retry = Retry::new(policy);
    assert_eq!(retry.pending(), RetryStep::Attempt);
    retry = retry.advance(RetryEvent::Refused { code: 32, detail: "x".to_string() });
    assert_eq!(retry.pending(), RetryStep::Pause);
    assert_eq!(retry.backoff_ms(), 7);
    retry = retry.advance(RetryEvent::Paused);
    assert_eq!(retry.pending(), RetryStep::Failed);
    assert_eq!(retry.detail(), "x");
    retry = retry.advance(RetryEvent::Done);
    assert_eq!(retry.pending(), RetryStep::Failed);
}

#[test]
fn retry_succeeds_on_the_last_attempt() {
    let policy = RetryPolicy { transient: vec![32], attempts: 2, backoff_ms: 1 };
    let mut retry = Retry::new(policy);
    retry = retry.advance(RetryEvent::Refused { code: 32, detail: "x".to_string() });
    retry = retry.advance(RetryEvent::Paused);
    assert_eq!(retry.pending(), RetryStep::Attempt);
    retry = retry.advance(RetryEvent::Done);
    assert_eq!(retry.pending(), RetryStep::Succeeded);
}

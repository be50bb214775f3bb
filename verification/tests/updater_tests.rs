use adm_updater::comms::PipeError;
use adm_updater::coordinator::{shutdown_running_instances, QuiesceEvent, QuiesceStep};
use adm_updater::error::OpError;
use adm_updater::paths::InstallPath;
use adm_updater::relaunch::{relaunch, RelaunchEvent, RelaunchStep};
use adm_updater::staging::{
    clean_update_files, move_to_temp, patch, rollback, Slot, Stage, StagingEngine, StagingEvent,
    StagingStep,
};
use adm_updater::updater::{begin, next_phase, parse_invocation, Invocation, Phase};

fn args(words: &[&str]) -> Vec<String> {
    words.iter().map(|w| w.to_string()).collect()
}

fn failure(severe: bool) -> Result<(), OpError> {
    Err(OpError::new("failed", severe))
}

#[test]
fn invocation_without_arguments_asks_for_nothing() {
    let none = Invocation { restart_shell: false, restart_app: false, show_info: false };
    assert_eq!(parse_invocation(&args(&[])), none);
    assert_eq!(parse_invocation(&args(&["updater.exe"])), none);
    assert_eq!(parse_invocation(&args(&["--notify"])), none);
    assert_eq!(parse_invocation(&args(&["--info"])), none);
}

#[test]
fn invocation_with_notify_reads_both_flags() {
    let i = parse_invocation(&args(&["updater.exe", "--notify", "True", "True"]));
    assert_eq!(i, Invocation { restart_shell: true, restart_app: true, show_info: false });
    let i = parse_invocation(&args(&["updater.exe", "--notify", "True", "False"]));
    assert_eq!(i, Invocation { restart_shell: true, restart_app: false, show_info: false });
    let i = parse_invocation(&args(&["updater.exe", "--notify", "False", "True"]));
    assert_eq!(i, Invocation { restart_shell: false, restart_app: true, show_info: false });
    let i = parse_invocation(&args(&["updater.exe", "--notify", "True"]));
    assert_eq!(i, Invocation { restart_shell: true, restart_app: false, show_info: false });
    let i = parse_invocation(&args(&["updater.exe", "--notify"]));
    assert_eq!(i, Invocation { restart_shell: false, restart_app: false, show_info: false });
}

#[test]
fn invocation_flags_are_read_by_position_and_exact_spelling() {
    let i = parse_invocation(&args(&["updater.exe", "--notify", "true", "TRUE"]));
    assert_eq!(i, Invocation { restart_shell: false, restart_app: false, show_info: false });
    let i = parse_invocation(&args(&["updater.exe", "True", "True", "--notify"]));
    assert_eq!(i, Invocation { restart_shell: true, restart_app: false, show_info: false });
    let i = parse_invocation(&args(&["updater.exe", "True", "True", "True"]));
    assert_eq!(i, Invocation { restart_shell: false, restart_app: false, show_info: false });
}

#[test]
fn invocation_with_info_shows_the_license_notes() {
    let i = parse_invocation(&args(&["updater.exe", "--info"]));
    assert_eq!(i, Invocation { restart_shell: false, restart_app: false, show_info: true });
    let i = parse_invocation(&args(&["updater.exe", "--notify", "True", "--info"]));
    assert_eq!(i, Invocation { restart_shell: true, restart_app: false, show_info: true });
}

#[test]
fn a_run_without_failures_updates_and_exits_with_zero() {
    let mut phase = begin();
    let mut seen = vec![phase];
    while !matches!(phase, Phase::Exit { .. }) {
        phase = next_phase(phase, &Ok(()));
        seen.push(phase);
    }
    assert_eq!(
        seen,
        vec![
            Phase::Quiesce,
            Phase::MoveToTemp,
            Phase::Patch,
            Phase::Cleanup,
            Phase::Relaunch { patch_success: true },
            Phase::Exit { code: 0 }
        ]
    );
}

#[test]
fn a_failure_before_the_move_relaunches_the_old_suite() {
    assert_eq!(next_phase(Phase::Quiesce, &failure(false)), Phase::Relaunch { patch_success: false });
    assert_eq!(
        next_phase(Phase::MoveToTemp, &failure(false)),
        Phase::Relaunch { patch_success: false }
    );
    assert_eq!(next_phase(Phase::Relaunch { patch_success: false }, &Ok(())), Phase::Exit { code: 1 });
}

#[test]
fn a_failed_patch_is_rolled_back_before_the_relaunch() {
    assert_eq!(next_phase(Phase::Patch, &failure(false)), Phase::Rollback);
    assert_eq!(next_phase(Phase::Rollback, &Ok(())), Phase::Relaunch { patch_success: false });
}

#[test]
fn a_failed_rollback_is_fatal() {
    assert_eq!(next_phase(Phase::Rollback, &failure(true)), Phase::Exit { code: -1 });
    assert_eq!(next_phase(Phase::Rollback, &failure(false)), Phase::Exit { code: -1 });
}

#[test]
fn a_severe_error_ends_the_run_without_a_relaunch() {
    for phase in [Phase::Quiesce, Phase::MoveToTemp, Phase::Patch] {
        assert_eq!(next_phase(phase, &failure(true)), Phase::Exit { code: -1 });
    }
}

#[test]
fn failures_of_cleanup_and_relaunch_do_not_change_the_end() {
    assert_eq!(next_phase(Phase::Cleanup, &failure(false)), Phase::Relaunch { patch_success: true });
    assert_eq!(next_phase(Phase::Cleanup, &failure(true)), Phase::Relaunch { patch_success: true });
    assert_eq!(
        next_phase(Phase::Relaunch { patch_success: true }, &failure(false)),
        Phase::Exit { code: 0 }
    );
    assert_eq!(
        next_phase(Phase::Relaunch { patch_success: false }, &failure(true)),
        Phase::Exit { code: 1 }
    );
    assert_eq!(next_phase(Phase::Exit { code: -1 }, &Ok(())), Phase::Exit { code: -1 });
    assert_eq!(next_phase(Phase::Exit { code: 7 }, &failure(true)), Phase::Exit { code: 7 });
}

/// The whole sequence on a machine where no process of the suite runs: the
/// live directory ends up with the new binary, the staging area and the
/// payload are gone, and only the service is started.
#[test]
fn end_to_end_update_with_the_suite_stopped() {
    let assembly_dir = InstallPath::new("C:\\").join("Programs").join("adm").join("adm-updater");
    let invocation = parse_invocation(&vec!["updater.exe".to_string()]);
    let mut live: Option<Vec<&str>> = Some(vec!["AutoDarkModeSvc.exe (old)"]);
    let mut temp: Option<Vec<&str>> = None;
    let mut payload: Option<Vec<&str>> = Some(vec!["AutoDarkModeSvc.exe (new)"]);
    let mut killed = 0;
    let mut started: Vec<RelaunchStep> = Vec::new();
    let mut engine = StagingEngine::new();
    let mut phase = begin();
    let code = loop {
        let result: Result<(), OpError> = match phase {
            Phase::Quiesce => {
                let mut q = shutdown_running_instances("sam");
                loop {
                    match q.pending() {
                        QuiesceStep::RequestExit | QuiesceStep::ProbeAlive => {
                            let e = PipeError { message: "no pipe".to_string(), is_timeout: true };
                            q = q.advance(QuiesceEvent::Replied { reply: Err(e) });
                        }
                        QuiesceStep::Scan { .. } => {
                            q = q.advance(QuiesceEvent::Scanned { processes: vec![] });
                        }
                        QuiesceStep::Kill { .. } => {
                            killed += 1;
                            q = q.advance(QuiesceEvent::Killed);
                        }
                        QuiesceStep::Pause { .. } => q = q.advance(QuiesceEvent::Paused),
                        QuiesceStep::Done => break,
                    }
                }
                let result = q.outcome().unwrap();
                if result.is_ok() {
                    engine = engine.quiesced();
                }
                result
            }
            Phase::MoveToTemp | Phase::Patch | Phase::Rollback | Phase::Cleanup => {
                engine = match phase {
                    Phase::MoveToTemp => move_to_temp(engine, live.is_some(), payload.is_some()),
                    Phase::Patch => patch(engine),
                    Phase::Rollback => rollback(engine),
                    _ => clean_update_files(engine),
                };
                loop {
                    match engine.pending() {
                        StagingStep::Rename { from, to } => {
                            let moved = match from {
                                Slot::Live => live.take(),
                                Slot::Temp => temp.take(),
                                Slot::Payload => payload.take(),
                            };
                            match to {
                                Slot::Live => live = moved,
                                Slot::Temp => temp = moved,
                                Slot::Payload => payload = moved,
                            }
                            engine = engine.advance(StagingEvent::Renamed);
                        }
                        StagingStep::Pause { .. } => engine = engine.advance(StagingEvent::Paused),
                        StagingStep::RemoveUpdateData => {
                            temp = None;
                            payload = None;
                            engine = engine.advance(StagingEvent::Removed);
                        }
                        StagingStep::Settled => break,
                    }
                }
                engine.outcome().unwrap()
            }
            Phase::Relaunch { patch_success } => {
                let mut r = relaunch(
                    &assembly_dir,
                    invocation.restart_shell,
                    invocation.restart_app,
                    "sam",
                    patch_success,
                );
                loop {
                    match r.pending() {
                        RelaunchStep::Done => break,
                        step => {
                            started.push(step);
                            r = r.advance(RelaunchEvent::Succeeded);
                        }
                    }
                }
                r.outcome().unwrap()
            }
            Phase::Exit { code } => break code,
        };
        phase = next_phase(phase, &result);
    };
    assert_eq!(code, 0);
    assert_eq!(killed, 0);
    assert_eq!(live, Some(vec!["AutoDarkModeSvc.exe (new)"]));
    assert_eq!(temp, None);
    assert_eq!(payload, None);
    assert_eq!(engine.stage(), Stage::Cleaned);
    assert_eq!(started, vec![RelaunchStep::EnterAppDir, RelaunchStep::StartService]);
}

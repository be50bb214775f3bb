use adm_updater::error::OpError;
use adm_updater::paths::InstallPath;
use adm_updater::relaunch::{relaunch, try_relaunch, Relaunch, RelaunchEvent, RelaunchStep};

fn assembly_dir() -> InstallPath {
    InstallPath::new("D:\\").join("adm").join("adm-updater")
}

/// Reports success for every step and returns the steps asked for.
fn run(mut r: Relaunch) -> (Relaunch, Vec<RelaunchStep>) {
    let mut steps = Vec::new();
    loop {
        match r.pending() {
            RelaunchStep::Done => return (r, steps),
            RelaunchStep::OpenShell => {
                steps.push(RelaunchStep::OpenShell);
                r = r.advance(RelaunchEvent::ShellReturned { code: 42 });
            }
            step => {
                steps.push(step);
                r = r.advance(RelaunchEvent::Succeeded);
            }
        }
    }
}

fn ok(r: &Relaunch) -> bool {
    matches!(r.outcome(), Some(Ok(())))
}

#[test]
fn try_relaunch_adm() {
    let username = "sam";
    let (r, steps) = run(relaunch(&assembly_dir(), true, true, username, true));
    assert_eq!(
        steps,
        vec![
            RelaunchStep::EnterAppDir,
            RelaunchStep::StartService,
            RelaunchStep::StartApp,
            RelaunchStep::OpenShell
        ]
    );
    assert!(ok(&r));
    assert_eq!(try_relaunch(&r.outcome().unwrap()), None);
}

#[test]
fn relaunch_starts_the_service_only_when_nothing_else_is_asked_for() {
    let (r, steps) = run(relaunch(&assembly_dir(), false, false, "sam", true));
    assert_eq!(steps, vec![RelaunchStep::EnterAppDir, RelaunchStep::StartService]);
    assert!(ok(&r));
}

#[test]
fn relaunch_after_a_failed_update_notifies_the_service_last() {
    let r = relaunch(&assembly_dir(), false, true, "sam", false);
    assert!(r.request().is_none());
    let mut r = r.advance(RelaunchEvent::Succeeded).advance(RelaunchEvent::Succeeded);
    assert_eq!(r.pending(), RelaunchStep::StartApp);
    r = r.advance(RelaunchEvent::Succeeded);
    assert_eq!(r.pending(), RelaunchStep::NotifyFailure);
    assert!(r.outcome().is_none());
    let request = r.request().unwrap();
    assert_eq!(request.command, "--update-failed");
    assert_eq!(request.timeout, 5000);
    assert_eq!(request.channel, "sam");
    r = r.advance(RelaunchEvent::Failed { detail: "nobody listens".to_string() });
    assert_eq!(r.pending(), RelaunchStep::Done);
    assert!(ok(&r));
}

#[test]
fn relaunch_with_the_shell_only() {
    let (r, steps) = run(relaunch(&assembly_dir(), true, false, "sam", false));
    assert_eq!(
        steps,
        vec![
            RelaunchStep::EnterAppDir,
            RelaunchStep::StartService,
            RelaunchStep::OpenShell,
            RelaunchStep::NotifyFailure
        ]
    );
    assert!(ok(&r));
}

#[test]
fn a_working_directory_that_cannot_be_entered_does_not_stop_the_relaunch() {
    let r = relaunch(&assembly_dir(), false, false, "sam", true);
    let r = r.advance(RelaunchEvent::Failed { detail: "no such directory".to_string() });
    assert_eq!(r.pending(), RelaunchStep::StartService);
    assert!(r.outcome().is_none());
}

#[test]
fn a_service_that_does_not_start_ends_the_relaunch() {
    let r = relaunch(&assembly_dir(), true, true, "sam", false);
    let r = r.advance(RelaunchEvent::Succeeded);
    let r = r.advance(RelaunchEvent::Failed { detail: "file not found".to_string() });
    assert_eq!(r.pending(), RelaunchStep::Done);
    let e = r.outcome().unwrap().unwrap_err();
    assert!(!e.severe);
    assert_eq!(
        e.message,
        "could not relaunch service at path: D:\\adm\\adm-app\\AutoDarkModeSvc.exe: file not found"
    );
    assert_eq!(try_relaunch(&Err(e.clone())), Some(e.message));
    let r = r.advance(RelaunchEvent::Succeeded);
    assert_eq!(r.pending(), RelaunchStep::Done);
}

#[test]
fn an_app_that_does_not_start_ends_the_relaunch() {
    let r = relaunch(&assembly_dir(), true, true, "sam", true);
    let r = r.advance(RelaunchEvent::Succeeded).advance(RelaunchEvent::Succeeded);
    let r = r.advance(RelaunchEvent::Failed { detail: "access denied".to_string() });
    let e = r.outcome().unwrap().unwrap_err();
    assert!(!e.severe);
    assert_eq!(
        e.message,
        "could not relaunch app at path: D:\\adm\\adm-app\\AutoDarkModeApp.exe: access denied"
    );
}

#[test]
fn a_shell_that_does_not_open_ends_the_relaunch() {
    let r = relaunch(&assembly_dir(), true, false, "sam", true);
    let r = r.advance(RelaunchEvent::Succeeded).advance(RelaunchEvent::Succeeded);
    assert_eq!(r.pending(), RelaunchStep::OpenShell);
    let r = r.advance(RelaunchEvent::ShellReturned { code: 2 });
    let e = r.outcome().unwrap().unwrap_err();
    assert!(!e.severe);
    assert_eq!(
        e.message,
        "could not relaunch shell at path: D:\\adm\\adm-app\\AutoDarkModeShell.exe, (os_error: 2)"
    );
}

#[test]
fn the_shell_counts_as_opened_from_32_on() {
    for (code, opened) in [(31, false), (32, true), (33, true), (0, false), (-5, false)] {
        let r = relaunch(&assembly_dir(), true, false, "sam", true);
        let r = r.advance(RelaunchEvent::Succeeded).advance(RelaunchEvent::Succeeded);
        let r = r.advance(RelaunchEvent::ShellReturned { code });
        assert_eq!(ok(&r), opened, "code {}", code);
        if !opened {
            let e: OpError = r.outcome().unwrap().unwrap_err();
            assert!(e.message.ends_with(&format!("(os_error: {})", code)));
        }
    }
}

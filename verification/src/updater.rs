//! The order of an update run: which part comes next, given how the last one
//! ended, and with which code the run exits.

use crate::error::{OpError, OpErrorView};
use vstd::prelude::*;
use vstd::string::*;

verus! {

/// The argument that is followed by the two restart flags.
pub const NOTIFY_FLAG: &'static str = "--notify";

/// The argument that asks for the license notes.
pub const INFO_FLAG: &'static str = "--info";

/// How a restart flag is written when it is set.
pub const TRUE_TEXT: &'static str = "True";

/// Exit code of a run that installed the update.
pub const EXIT_UPDATED: i32 = 0;

/// Exit code of a run that was abandoned with the old installation intact.
pub const EXIT_ABANDONED: i32 = 1;

/// Exit code of a run that leaves the installation neither old nor new.
pub const EXIT_FATAL: i32 = -1;

/// What the command line asks for.
#[derive(Clone, Copy, PartialEq, Eq, Debug, Structural)]
pub struct Invocation {
    /// Restart the shell process after the run.
    pub restart_shell: bool,
    /// Restart the application after the run.
    pub restart_app: bool,
    /// Print the license notes and do nothing else.
    pub show_info: bool,
}

/// `args` holds `word`.
pub open spec fn has_argument(args: Seq<Seq<char>>, word: Seq<char>) -> bool {
    exists|i: int| 0 <= i < args.len() && args[i] == word
}

/// What a command line asks for. The first argument is the program's name.
/// With `--notify` anywhere, the arguments at index 2 and 3 say, by being
/// `True`, whether to restart the shell and the application.
pub open spec fn invocation_of(args: Seq<Seq<char>>) -> Invocation {
    let notified = args.len() >= 2 && has_argument(args, NOTIFY_FLAG@);
    Invocation {
        restart_shell: notified && args.len() >= 3 && args[2] == TRUE_TEXT@,
        restart_app: notified && args.len() >= 4 && args[3] == TRUE_TEXT@,
        show_info: args.len() >= 2 && has_argument(args, INFO_FLAG@),
    }
}

fn holds(args: &Vec<String>, word: &str) -> (b: bool)
    ensures
        b == has_argument(args.deep_view(), word@),
{
    let wanted = String::from_str(word);
    let mut i: usize = 0;
    while i < args.len()
        invariant
            i <= args.len(),
            wanted@ == word@,
            forall|j: int| 0 <= j < i ==> args.deep_view()[j] != word@,
        decreases args.len() - i,
    {
        assert(args.deep_view()[i as int] == args[i as int]@);
        if args[i] == wanted {
            return true;
        }
        i += 1;
    }
    false
}

/// Reads the command line.
pub fn parse_invocation(args: &Vec<String>) -> (invocation: Invocation)
    ensures
        invocation == invocation_of(args.deep_view()),
{
    let set = String::from_str(TRUE_TEXT);
    let notified = args.len() >= 2 && holds(args, NOTIFY_FLAG);
    let show_info = args.len() >= 2 && holds(args, INFO_FLAG);
    proof {
        if args.len() >= 4 {
        }
        if args.len() >= 3 {
        }
    }
    let restart_shell = notified && args.len() >= 3 && args[2] == set;
    let restart_app = notified && args.len() >= 4 && args[3] == set;
    Invocation { restart_shell, restart_app, show_info }
}

/// A part of an update run.
#[derive(Clone, Copy, PartialEq, Eq, Debug, Structural)]
pub enum Phase {
    /// Stop the suite.
    Quiesce,
    /// Move the live installation to the staging area.
    MoveToTemp,
    /// Move the payload into the live directory.
    Patch,
    /// Move the staging area back to the live directory.
    Rollback,
    /// Remove the update data.
    Cleanup,
    /// Start the suite again: the new one after an update, the old one after
    /// an abandoned run.
    Relaunch { patch_success: bool },
    /// Leave, with the given exit code.
    Exit { code: i32 },
}

/// The first part of a run.
pub open spec fn first_phase() -> Phase {
    Phase::Quiesce
}

/// What comes after `phase` has ended with `result`.
///
/// A severe error ends the run at once with the fatal exit code, and so does
/// any failure of the rollback. After any other error the run is abandoned:
/// the old installation is put back where it was moved away, and relaunched.
/// A failure to remove the update data or to relaunch does not change how the
/// run ends.
pub open spec fn phase_after(phase: Phase, result: Result<(), OpErrorView>) -> Phase {
    match phase {
        Phase::Quiesce | Phase::MoveToTemp => match result {
            Ok(_) => if phase == Phase::Quiesce {
                Phase::MoveToTemp
            } else {
                Phase::Patch
            },
            Err(e) => if e.severe {
                Phase::Exit { code: EXIT_FATAL }
            } else {
                Phase::Relaunch { patch_success: false }
            },
        },
        Phase::Patch => match result {
            Ok(_) => Phase::Cleanup,
            Err(e) => if e.severe {
                Phase::Exit { code: EXIT_FATAL }
            } else {
                Phase::Rollback
            },
        },
        Phase::Rollback => match result {
            Ok(_) => Phase::Relaunch { patch_success: false },
            Err(_) => Phase::Exit { code: EXIT_FATAL },
        },
        Phase::Cleanup => Phase::Relaunch { patch_success: true },
        Phase::Relaunch { patch_success } => Phase::Exit {
            code: if patch_success {
                EXIT_UPDATED
            } else {
                EXIT_ABANDONED
            },
        },
        Phase::Exit { code } => Phase::Exit { code },
    }
}

/// The view of the result of a part.
pub open spec fn result_view(result: Result<(), OpError>) -> Result<(), OpErrorView> {
    match result {
        Ok(_) => Ok(()),
        Err(e) => Err(e@),
    }
}

/// The part with which a run begins.
pub fn begin() -> (phase: Phase)
    ensures
        phase == first_phase(),
{
    Phase::Quiesce
}

/// The part that comes after `phase` has ended with `result`.
pub fn next_phase(phase: Phase, result: &Result<(), OpError>) -> (next: Phase)
    ensures
        next == phase_after(phase, result_view(*result)),
{
    match phase {
        Phase::Quiesce | Phase::MoveToTemp => match result {
            Ok(_) => if phase == Phase::Quiesce {
                Phase::MoveToTemp
            } else {
                Phase::Patch
            },
            Err(e) => if e.severe {
                Phase::Exit { code: EXIT_FATAL }
            } else {
                Phase::Relaunch { patch_success: false }
            },
        },
        Phase::Patch => match result {
            Ok(_) => Phase::Cleanup,
            Err(e) => if e.severe {
                Phase::Exit { code: EXIT_FATAL }
            } else {
                Phase::Rollback
            },
        },
        Phase::Rollback => match result {
            Ok(_) => Phase::Relaunch { patch_success: false },
            Err(_) => Phase::Exit { code: EXIT_FATAL },
        },
        Phase::Cleanup => Phase::Relaunch { patch_success: true },
        Phase::Relaunch { patch_success } => Phase::Exit {
            code: if patch_success {
                EXIT_UPDATED
            } else {
                EXIT_ABANDONED
            },
        },
        Phase::Exit { code } => Phase::Exit { code },
    }
}

/// Every run ends, after six parts at most, and with the code for an
/// installed update only where the payload was moved into place and the new
/// suite was relaunched.
pub proof fn law_runs_end(
    a: Result<(), OpErrorView>,
    b: Result<(), OpErrorView>,
    c: Result<(), OpErrorView>,
    d: Result<(), OpErrorView>,
    e: Result<(), OpErrorView>,
    f: Result<(), OpErrorView>,
)
    ensures
        ({
            let quiesced = phase_after(first_phase(), a);
            let moved = phase_after(quiesced, b);
            let patched = phase_after(moved, c);
            let cleaned = phase_after(patched, d);
            let relaunched = phase_after(cleaned, e);
            let end = phase_after(relaunched, f);
            &&& end is Exit
            &&& end == (Phase::Exit { code: EXIT_UPDATED }) <==> (a is Ok && b is Ok && c is Ok)
            &&& end == (Phase::Exit { code: EXIT_UPDATED }) ==> patched == Phase::Cleanup
                && cleaned == (Phase::Relaunch { patch_success: true })
        }),
{
}

/// The suite is relaunched in every run that does not end fatally, and a
/// fatal end is never followed by anything.
pub proof fn law_fatal_end_is_final(phase: Phase, result: Result<(), OpErrorView>)
    ensures
        phase == (Phase::Exit { code: EXIT_FATAL }) ==> phase_after(phase, result) == phase,
        phase_after(phase, result) is Exit && !(phase is Exit) && !(phase is Relaunch)
            ==> phase_after(phase, result) == (Phase::Exit { code: EXIT_FATAL }),
        phase_after(phase, result) == (Phase::Exit { code: EXIT_FATAL }) && !(phase is Exit) ==> (
        result matches Err(e) && (e.severe || phase == Phase::Rollback)),
{
}

} // verus!

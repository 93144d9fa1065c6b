//! Termination of a worker's process tree: its direct children first, then
//! the worker itself.

use vstd::prelude::*;
use crate::command::{decimal, decimal_text, OsCommand, Platform};

verus! {

broadcast use vstd::string::to_string_from_display_ensures_for_str;

/// One step of reaping a process tree.
#[derive(Clone, Copy, Debug, PartialEq, Eq, Structural)]
pub enum ReapStep {
    /// Force-terminate every process whose parent is `parent`.
    KillChildren { parent: u32 },
    /// Force-terminate the whole tree rooted at `root`, descendants included.
    KillTree { root: u32 },
    /// Force-terminate `pid` itself through the owned process handle.
    KillHandle { pid: u32 },
}

/// The steps that reap the tree rooted at `pid`, in the order they run.
pub open spec fn reap_plan_spec(platform: Platform, pid: u32) -> Seq<ReapStep> {
    match platform {
        Platform::Unix => seq![ReapStep::KillChildren { parent: pid }, ReapStep::KillHandle { pid }],
        Platform::Windows => seq![ReapStep::KillTree { root: pid }, ReapStep::KillHandle { pid }],
    }
}

/// The steps that reap the process tree rooted at `pid`: a sweep of its
/// descendants, then the process handle itself.
pub fn reap_plan(platform: Platform, pid: u32) -> (r: Vec<ReapStep>)
    ensures
        r@ == reap_plan_spec(platform, pid),
{
    let r = match platform {
        Platform::Unix => vec![ReapStep::KillChildren { parent: pid }, ReapStep::KillHandle { pid }],
        Platform::Windows => vec![ReapStep::KillTree { root: pid }, ReapStep::KillHandle { pid }],
    };
    assert(r@ =~= reap_plan_spec(platform, pid));
    r
}

/// The system command that performs `step`, or `None` for the step that
/// goes through the process handle.
pub open spec fn step_command_spec(step: ReapStep) -> Option<(Seq<char>, Seq<Seq<char>>)> {
    match step {
        ReapStep::KillChildren { parent } => Some(
            ("pkill"@, seq!["-KILL"@, "-P"@, decimal(parent as nat)]),
        ),
        ReapStep::KillTree { root } => Some(
            ("taskkill"@, seq!["/T"@, "/F"@, "/PID"@, decimal(root as nat)]),
        ),
        ReapStep::KillHandle { .. } => None,
    }
}

/// The system command to run for `step`: `pkill -KILL -P <pid>` for a
/// children sweep, `taskkill /T /F /PID <pid>` for a whole-tree kill.
pub fn step_command(step: ReapStep) -> (r: Option<OsCommand>)
    ensures
        r is None <==> step_command_spec(step) is None,
        r matches Some(c) ==> step_command_spec(step) == Some((c.program@, c.args_view())),
{
    match step {
        ReapStep::KillChildren { parent } => {
            let c = OsCommand {
                program: "pkill".to_string(),
                args: vec!["-KILL".to_string(), "-P".to_string(), decimal_text(parent)],
            };
            assert(c.args_view() =~= seq!["-KILL"@, "-P"@, decimal(parent as nat)]);
            Some(c)
        },
        ReapStep::KillTree { root } => {
            let c = OsCommand {
                program: "taskkill".to_string(),
                args: vec![
                    "/T".to_string(),
                    "/F".to_string(),
                    "/PID".to_string(),
                    decimal_text(root),
                ],
            };
            assert(c.args_view() =~= seq!["/T"@, "/F"@, "/PID"@, decimal(root as nat)]);
            Some(c)
        },
        ReapStep::KillHandle { .. } => None,
    }
}

} // verus!

//! The startup sweep of worker processes left over from an earlier run.

use vstd::prelude::*;
use crate::command::{OsCommand, Platform};
use crate::launch::{sidecar_name, sidecar_name_spec};
use crate::process_table::{named, named_pids, ProcessEntry};

verus! {

broadcast use vstd::string::to_string_from_display_ensures_for_str;

/// The name under which the worker shows in the process table: the
/// executable's name, with the `.exe` suffix on Windows.
pub open spec fn worker_image_name_spec(platform: Platform) -> Seq<char> {
    match platform {
        Platform::Unix => sidecar_name_spec(),
        Platform::Windows => "flask-backend.exe"@,
    }
}

/// The name under which the worker shows in the process table.
pub fn worker_image_name(platform: Platform) -> (r: String)
    ensures
        r@ == worker_image_name_spec(platform),
{
    match platform {
        Platform::Unix => sidecar_name(),
        Platform::Windows => "flask-backend.exe".to_string(),
    }
}

/// The system command that force-terminates every process named like the
/// worker: `pkill -KILL flask-backend`, or `taskkill /F /IM flask-backend.exe`.
pub fn sweep_command(platform: Platform) -> (r: OsCommand)
    ensures
        platform == Platform::Unix ==> r.program@ == "pkill"@ && r.args_view() == seq![
            "-KILL"@,
            worker_image_name_spec(platform),
        ],
        platform == Platform::Windows ==> r.program@ == "taskkill"@ && r.args_view() == seq![
            "/F"@,
            "/IM"@,
            worker_image_name_spec(platform),
        ],
{
    let name = worker_image_name(platform);
    match platform {
        Platform::Unix => {
            let c = OsCommand { program: "pkill".to_string(), args: vec!["-KILL".to_string(), name] };
            assert(c.args_view() =~= seq!["-KILL"@, worker_image_name_spec(platform)]);
            c
        },
        Platform::Windows => {
            let c = OsCommand {
                program: "taskkill".to_string(),
                args: vec!["/F".to_string(), "/IM".to_string(), name],
            };
            assert(c.args_view() =~= seq!["/F"@, "/IM"@, worker_image_name_spec(platform)]);
            c
        },
    }
}

/// The processes in `table` that the sweep terminates: those named like the
/// worker.
pub fn sweep_targets(platform: Platform, table: &Vec<ProcessEntry>) -> (r: Vec<u32>)
    ensures
        r@ == named(table@, worker_image_name_spec(platform)),
{
    let name = worker_image_name(platform);
    named_pids(table, &name)
}

proof fn lemma_none_named(t: Seq<ProcessEntry>, name: Seq<char>)
    requires
        forall|i: int| 0 <= i < t.len() ==> #[trigger] t[i].name@ != name,
    ensures
        named(t, name).len() == 0,
    decreases t.len(),
{
    if t.len() > 0 {
        assert forall|i: int| 0 <= i < t.drop_last().len() implies #[trigger] t.drop_last()[i].name@
            != name by {
            assert(t.drop_last()[i] == t[i]);
        }
        lemma_none_named(t.drop_last(), name);
        assert(t[t.len() - 1].name@ != name);
    }
}

/// Where no process is named like the worker, the sweep terminates nothing.
pub proof fn lemma_clean_sweep_terminates_nothing(platform: Platform, t: Seq<ProcessEntry>)
    requires
        forall|i: int| 0 <= i < t.len() ==> #[trigger] t[i].name@ != worker_image_name_spec(platform),
    ensures
        named(t, worker_image_name_spec(platform)) == Seq::<u32>::empty(),
{
    lemma_none_named(t, worker_image_name_spec(platform));
    assert(named(t, worker_image_name_spec(platform)) =~= Seq::<u32>::empty());
}

} // verus!

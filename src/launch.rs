//! Starting the worker: the build modes, the startup arguments it is given,
//! and the ways a launch can fail.

use vstd::prelude::*;
use crate::command::{decimal, decimal_text};

verus! {

broadcast use vstd::string::to_string_from_display_ensures_for_str;

/// The fixed network port on which the worker listens.
pub const WORKER_PORT: u16 = 5000;

/// The name of the bundled worker executable.
pub open spec fn sidecar_name_spec() -> Seq<char> {
    "flask-backend"@
}

/// The name of the bundled worker executable.
pub fn sidecar_name() -> (r: String)
    ensures
        r@ == sidecar_name_spec(),
{
    "flask-backend".to_string()
}

/// How the host application was built.
#[derive(Clone, Copy, Debug, PartialEq, Eq, Structural)]
pub enum BuildMode {
    /// The worker is started by hand and not supervised.
    Development,
    /// The worker is bundled, swept for stale instances and supervised.
    Production,
}

impl BuildMode {
    /// Whether the host sweeps stale workers and launches its own.
    pub fn manages_worker(self) -> (r: bool)
        ensures
            r == (self == BuildMode::Production),
    {
        match self {
            BuildMode::Development => false,
            BuildMode::Production => true,
        }
    }
}

/// Why a launch failed. Each one is fatal to the host's startup.
#[derive(Clone, Copy, Debug, PartialEq, Eq, Structural)]
pub enum LaunchError {
    /// The host could not name a data directory for the application.
    DataDirUnresolved,
    /// The data directory could not be created.
    DataDirNotCreated,
    /// The bundled worker executable could not be found.
    SidecarNotFound,
    /// The worker process could not be spawned.
    SpawnFailed,
}

/// The worker's startup arguments, as character sequences.
pub open spec fn launch_args_spec(data_dir: Seq<char>) -> Seq<Seq<char>> {
    seq!["--data-dir"@, data_dir, "--port"@, decimal(WORKER_PORT as nat)]
}

/// The worker's startup arguments: `--data-dir <data_dir> --port 5000`.
pub fn launch_args(data_dir: &str) -> (r: Vec<String>)
    ensures
        r@.map_values(|a: String| a@) == launch_args_spec(data_dir@),
{
    let r = vec![
        "--data-dir".to_string(),
        data_dir.to_string(),
        "--port".to_string(),
        decimal_text(WORKER_PORT as u32),
    ];
    assert(r@.map_values(|a: String| a@) =~= launch_args_spec(data_dir@));
    r
}

} // verus!

//! Supervision of one bundled worker process: starting it, reaping its
//! process tree, sweeping stale instances, and the lifecycle that ties these
//! together.

pub mod command;
pub mod reaper;
pub mod process_table;
pub mod sweep;
pub mod launch;
pub mod lifecycle;

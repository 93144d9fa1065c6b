use sidecar_supervisor::command::{OsCommand, Platform};
use sidecar_supervisor::launch::{launch_args, sidecar_name, BuildMode, LaunchError, WORKER_PORT};
use sidecar_supervisor::lifecycle::{HostEvent, Phase, Supervisor, WorkerHandle};
use sidecar_supervisor::process_table::{children_pids, issued_terminations, named_pids, ProcessEntry};
use sidecar_supervisor::reaper::{reap_plan, step_command, ReapStep};
use sidecar_supervisor::sweep::{sweep_command, sweep_targets, worker_image_name};

fn entry(pid: u32, parent: u32, name: &str) -> ProcessEntry {
    ProcessEntry { pid, parent, name: name.to_string() }
}

fn command_parts(c: &OsCommand) -> (String, Vec<String>) {
    (c.program.clone(), c.args.clone())
}

fn running(pid: u32) -> Supervisor<&'static str> {
    let mut s = Supervisor::new();
    assert!(s.record_launch(Ok(WorkerHandle { child: "child", pid })).is_ok());
    s
}

#[test]
fn reap_plan_unix_sweeps_children_then_handle() {
    assert_eq!(
        reap_plan(Platform::Unix, 42),
        vec![ReapStep::KillChildren { parent: 42 }, ReapStep::KillHandle { pid: 42 }]
    );
}

#[test]
fn reap_plan_windows_kills_tree_then_handle() {
    assert_eq!(
        reap_plan(Platform::Windows, 42),
        vec![ReapStep::KillTree { root: 42 }, ReapStep::KillHandle { pid: 42 }]
    );
}

#[test]
fn children_sweep_command_is_pkill_by_parent() {
    let c = step_command(ReapStep::KillChildren { parent: 1234 }).unwrap();
    let (program, args) = command_parts(&c);
    assert_eq!(program, "pkill");
    assert_eq!(args, vec!["-KILL", "-P", "1234"]);
}

#[test]
fn tree_kill_command_is_taskkill_by_pid() {
    let c = step_command(ReapStep::KillTree { root: 98765 }).unwrap();
    let (program, args) = command_parts(&c);
    assert_eq!(program, "taskkill");
    assert_eq!(args, vec!["/T", "/F", "/PID", "98765"]);
}

#[test]
fn pid_rendering_edges() {
    let zero = step_command(ReapStep::KillChildren { parent: 0 }).unwrap();
    assert_eq!(zero.args[2], "0");
    let max = step_command(ReapStep::KillChildren { parent: u32::MAX }).unwrap();
    assert_eq!(max.args[2], "4294967295");
}

#[test]
fn handle_step_runs_no_command() {
    assert!(step_command(ReapStep::KillHandle { pid: 7 }).is_none());
}

#[test]
fn children_are_terminated_before_parent_unix() {
    let table = vec![
        entry(1, 0, "init"),
        entry(100, 1, "flask-backend"),
        entry(101, 100, "flask-backend"),
        entry(102, 100, "python"),
        entry(200, 1, "shell"),
    ];
    let plan = reap_plan(Platform::Unix, 100);
    let sent = issued_terminations(&table, &plan);
    assert_eq!(sent, vec![101, 102, 100]);
}

#[test]
fn children_are_terminated_before_parent_windows() {
    let table = vec![entry(100, 1, "flask-backend.exe"), entry(101, 100, "flask-backend.exe")];
    let plan = reap_plan(Platform::Windows, 100);
    let sent = issued_terminations(&table, &plan);
    assert_eq!(sent, vec![101, 100, 100]);
}

#[test]
fn reap_without_children_terminates_only_root() {
    let table = vec![entry(100, 1, "flask-backend"), entry(5, 1, "other")];
    let sent = issued_terminations(&table, &reap_plan(Platform::Unix, 100));
    assert_eq!(sent, vec![100]);
}

#[test]
fn children_pids_keeps_table_order() {
    let table = vec![entry(3, 9, "a"), entry(4, 8, "b"), entry(5, 9, "c")];
    assert_eq!(children_pids(&table, 9), vec![3, 5]);
    assert_eq!(children_pids(&table, 7), Vec::<u32>::new());
    assert_eq!(children_pids(&Vec::new(), 9), Vec::<u32>::new());
}

#[test]
fn named_pids_matches_whole_name() {
    let table = vec![entry(3, 1, "flask-backend"), entry(4, 1, "flask-backend-2"), entry(5, 1, "flask")];
    assert_eq!(named_pids(&table, &"flask-backend".to_string()), vec![3]);
}

#[test]
fn sweep_command_unix() {
    let (program, args) = command_parts(&sweep_command(Platform::Unix));
    assert_eq!(program, "pkill");
    assert_eq!(args, vec!["-KILL", "flask-backend"]);
}

#[test]
fn sweep_command_windows() {
    let (program, args) = command_parts(&sweep_command(Platform::Windows));
    assert_eq!(program, "taskkill");
    assert_eq!(args, vec!["/F", "/IM", "flask-backend.exe"]);
}

#[test]
fn worker_image_names() {
    assert_eq!(worker_image_name(Platform::Unix), "flask-backend");
    assert_eq!(worker_image_name(Platform::Windows), "flask-backend.exe");
}

#[test]
fn clean_sweep_terminates_nothing() {
    let table = vec![entry(1, 0, "init"), entry(2, 1, "bash")];
    assert!(sweep_targets(Platform::Unix, &table).is_empty());
    assert!(sweep_targets(Platform::Unix, &Vec::new()).is_empty());
}

#[test]
fn sweep_finds_stale_workers() {
    let table = vec![
        entry(10, 1, "flask-backend"),
        entry(11, 10, "flask-backend"),
        entry(12, 1, "flask-backend.exe"),
    ];
    assert_eq!(sweep_targets(Platform::Unix, &table), vec![10, 11]);
    assert_eq!(sweep_targets(Platform::Windows, &table), vec![12]);
}

#[test]
fn launch_args_carry_data_dir_and_port() {
    assert_eq!(WORKER_PORT, 5000);
    assert_eq!(
        launch_args("/home/u/.local/share/app"),
        vec!["--data-dir", "/home/u/.local/share/app", "--port", "5000"]
    );
}

#[test]
fn sidecar_is_named_flask_backend() {
    assert_eq!(sidecar_name(), "flask-backend");
}

#[test]
fn only_production_manages_worker() {
    assert!(BuildMode::Production.manages_worker());
    assert!(!BuildMode::Development.manages_worker());
}

#[test]
fn new_supervisor_is_unstarted_and_empty() {
    let s: Supervisor<u8> = Supervisor::new();
    assert_eq!(s.phase, Phase::Unstarted);
    assert!(s.slot.is_none());
}

#[test]
fn successful_launch_is_stored() {
    let s = running(321);
    assert_eq!(s.phase, Phase::Running);
    assert_eq!(s.slot.as_ref().unwrap().pid, 321);
}

#[test]
fn failed_launch_stores_nothing() {
    for e in [
        LaunchError::DataDirUnresolved,
        LaunchError::DataDirNotCreated,
        LaunchError::SidecarNotFound,
        LaunchError::SpawnFailed,
    ] {
        let mut s: Supervisor<u8> = Supervisor::new();
        assert_eq!(s.record_launch(Err(e)), Err(e));
        assert!(s.slot.is_none());
        assert_eq!(s.phase, Phase::Unstarted);
        assert!(s.teardown(Platform::Unix).is_none());
    }
}

#[test]
fn teardown_extracts_worker_with_plan() {
    let mut s = running(555);
    let t = s.teardown(Platform::Unix).unwrap();
    assert_eq!(t.child, "child");
    assert_eq!(t.pid, 555);
    assert_eq!(t.steps, reap_plan(Platform::Unix, 555));
    assert!(s.slot.is_none());
    assert_eq!(s.phase, Phase::Stopped);
}

#[test]
fn second_teardown_is_noop() {
    let mut s = running(555);
    assert!(s.teardown(Platform::Unix).is_some());
    assert!(s.teardown(Platform::Unix).is_none());
    assert!(s.slot.is_none());
    assert_eq!(s.phase, Phase::Stopped);
}

#[test]
fn both_triggers_extract_once() {
    let mut s = running(77);
    let first = s.on_event(HostEvent::WindowDestroyed, Platform::Windows);
    let second = s.on_event(HostEvent::AppExit, Platform::Windows);
    assert_eq!(first.map(|t| t.pid), Some(77));
    assert!(second.is_none());
    assert!(s.slot.is_none());

    let mut s = running(78);
    let first = s.on_event(HostEvent::AppExit, Platform::Unix);
    let second = s.on_event(HostEvent::WindowDestroyed, Platform::Unix);
    assert_eq!(first.map(|t| t.pid), Some(78));
    assert!(second.is_none());
}

#[test]
fn other_events_change_nothing() {
    let mut s = running(9);
    assert!(s.on_event(HostEvent::Other, Platform::Unix).is_none());
    assert_eq!(s.phase, Phase::Running);
    assert_eq!(s.slot.as_ref().unwrap().pid, 9);
}

#[test]
fn teardown_before_launch_stays_unstarted() {
    let mut s: Supervisor<u8> = Supervisor::new();
    assert!(s.on_event(HostEvent::WindowDestroyed, Platform::Unix).is_none());
    assert_eq!(s.phase, Phase::Unstarted);
}

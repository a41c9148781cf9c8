use cortx_core::error::ProcessError;
use cortx_core::events::{exit_success, EngineEvent};
use cortx_core::models::{LogStream, Platform, ScriptStatus, ServiceStatus};
use cortx_core::process_manager::{LaunchPlan, ProcessManager};
use cortx_core::registry::{ProcessCategory, ProcessInfo, ProcessTable};
use cortx_core::spawn::{parse_command, Spawned};
use cortx_core::termination::KillStep;
use cortx_core::watch::{WaitOutcome, WatchState, WATCH_INTERVAL_MS};

fn engine() -> ProcessManager<u8> {
    ProcessManager::new(Platform::Linux)
}

fn begin_global(manager: &mut ProcessManager<u8>, id: &str, program: &str, args: &[&str]) -> LaunchPlan {
    manager
        .run_global_script(
            id.to_string(),
            "/tmp".to_string(),
            program.to_string(),
            args.iter().map(|a| a.to_string()).collect(),
            None,
        )
        .expect("the slot is free")
}

fn launch_global(manager: &mut ProcessManager<u8>, id: &str, pid: u32) {
    let plan = begin_global(manager, id, "sleep", &["60"]);
    let done = manager.complete_launch(plan.ticket, Ok(Spawned { child: 0, pid })).expect("spawned");
    assert_eq!(done.pid, pid);
}

#[test]
fn new_engine_has_nothing_running() {
    let manager = engine();
    assert!(!manager.has_running_processes());
    assert!(!manager.get_shutdown_flag());
    assert!(!manager.is_running("api"));
    assert!(!manager.is_script_running("api"));
    assert!(!manager.is_global_script_running("api"));
    assert!(manager.get_running_services().is_empty());
    assert_eq!(manager.platform(), Platform::Linux);
    assert_eq!(manager.watch_gate(), WatchState::Watching);
}

#[test]
fn echo_hello_completes_with_exit_code_zero() {
    let mut manager = engine();
    let plan = begin_global(&mut manager, "build", "echo", &["hello"]);
    assert_eq!(plan.request.program, "echo");
    assert_eq!(plan.request.args, vec!["hello"]);
    assert_eq!(plan.request.working_dir, "/tmp");
    assert!(plan.request.forced_env.is_empty());
    assert!(!plan.request.hide_window);
    assert_eq!(plan.events.len(), 1);
    assert!(matches!(&plan.events[0], EngineEvent::GlobalScriptStatus(p)
        if p.script_id == "build" && p.status == ScriptStatus::Running && p.pid.is_none()));
    assert!(!manager.is_global_script_running("build"));
    assert!(manager.is_reserved(ProcessCategory::GlobalScript, "build"));

    let done = manager.complete_launch(plan.ticket, Ok(Spawned { child: 0, pid: 4242 })).unwrap();
    assert_eq!(done.pid, 4242);
    assert_eq!(done.events.len(), 1);
    assert!(matches!(&done.events[0], EngineEvent::GlobalScriptStatus(p)
        if p.script_id == "build" && p.status == ScriptStatus::Running && p.pid == Some(4242)));
    assert!(manager.is_global_script_running("build"));
    assert!(!manager.is_reserved(ProcessCategory::GlobalScript, "build"));

    let line = manager
        .pump_line(ProcessCategory::GlobalScript, "build", LogStream::Stdout, "hello".to_string())
        .expect("shutdown has not begun");
    assert!(matches!(&line, EngineEvent::GlobalScriptLog(p)
        if p.script_id == "build" && p.stream == LogStream::Stdout && p.content == "hello"));

    let still = manager.watch_tick(ProcessCategory::GlobalScript, "build", WaitOutcome::StillRunning);
    assert_eq!(still.state, WatchState::Watching);
    assert!(still.events.is_empty());
    assert!(still.handle.is_none());

    let report = manager.watch_tick(ProcessCategory::GlobalScript, "build", WaitOutcome::Exited(Some(0)));
    assert_eq!(report.state, WatchState::Reporting);
    assert_eq!(report.events.len(), 2);
    assert!(matches!(&report.events[0], EngineEvent::GlobalScriptStatus(p)
        if p.script_id == "build" && p.status == ScriptStatus::Completed && p.pid.is_none()));
    assert!(matches!(&report.events[1], EngineEvent::GlobalScriptExit(p)
        if p.script_id == "build" && p.exit_code == Some(0) && p.success));
    assert_eq!(report.handle.map(|h| h.pid), Some(4242));
    assert!(!manager.is_global_script_running("build"));

    let again = manager.watch_tick(ProcessCategory::GlobalScript, "build", WaitOutcome::Exited(Some(0)));
    assert_eq!(again.state, WatchState::Removed);
    assert!(again.events.is_empty());
}

#[test]
fn failed_spawn_leaves_the_entity_launchable() {
    let mut manager = engine();
    let plan = begin_global(&mut manager, "bad", "/nonexistent/binary", &[]);
    let outcome = manager.complete_launch(plan.ticket, Err("No such file or directory".to_string()));
    match outcome {
        Err(ProcessError::SpawnFailed(reason)) => assert_eq!(reason, "No such file or directory"),
        other => panic!("expected SpawnFailed, got {:?}", other),
    }
    assert!(!manager.is_global_script_running("bad"));
    assert!(!manager.is_reserved(ProcessCategory::GlobalScript, "bad"));
    assert!(!manager.has_running_processes());
    let retry = begin_global(&mut manager, "bad", "/nonexistent/binary", &[]);
    assert_eq!(retry.ticket.id, "bad");
}

#[test]
fn stop_before_exit_reports_failed_and_no_exit() {
    let mut manager = engine();
    launch_global(&mut manager, "sleeper", 77);
    let stopped = manager.stop_global_script("sleeper").expect("it is running");
    assert_eq!(stopped.handle.pid, 77);
    assert_eq!(stopped.handle.service_id, "sleeper");
    let steps: Vec<String> = stopped
        .kill_steps
        .iter()
        .map(|step| match step {
            KillStep::Run(line) => format!("{} {}", line.program, line.args.join(" ")),
            KillStep::Sleep(millis) => format!("sleep {}", millis),
        })
        .collect();
    assert_eq!(steps, vec!["kill -TERM -77", "sleep 100", "kill -KILL -77"]);
    assert_eq!(stopped.events.len(), 1);
    assert!(matches!(&stopped.events[0], EngineEvent::GlobalScriptStatus(p)
        if p.script_id == "sleeper" && p.status == ScriptStatus::Failed && p.pid.is_none()));
    assert!(!manager.is_global_script_running("sleeper"));
    let late = manager.watch_tick(ProcessCategory::GlobalScript, "sleeper", WaitOutcome::Exited(Some(0)));
    assert_eq!(late.state, WatchState::Removed);
    assert!(late.events.is_empty());
    assert!(late.handle.is_none());
}

#[test]
fn second_launch_is_refused_while_the_first_is_registered() {
    let mut manager = engine();
    let plan = begin_global(&mut manager, "job", "sleep", &["1"]);
    let during = manager.run_global_script("job".into(), "/".into(), "sleep".into(), vec![], None);
    assert!(matches!(during, Err(ProcessError::AlreadyRunning(ref id)) if id == "job"));
    manager.complete_launch(plan.ticket, Ok(Spawned { child: 0, pid: 5 })).unwrap();
    let after = manager.run_global_script("job".into(), "/".into(), "sleep".into(), vec![], None);
    assert!(matches!(after, Err(ProcessError::AlreadyRunning(ref id)) if id == "job"));
    assert_eq!(manager.list_running(ProcessCategory::GlobalScript), vec!["job"]);
    assert_eq!(manager.lookup(ProcessCategory::GlobalScript, "job").map(|h| h.pid), Some(5));
}

#[test]
fn stop_twice_succeeds_then_says_not_running() {
    let mut manager = engine();
    let plan = manager
        .start_service("api".into(), "/srv".into(), "npm start".into(), None, Some("dev".into()), None)
        .unwrap();
    manager.complete_launch(plan.ticket, Ok(Spawned { child: 1, pid: 900 })).unwrap();
    assert!(manager.is_running("api"));
    let first = manager.stop_service("api").expect("running");
    assert!(matches!(&first.events[0], EngineEvent::ServiceStatus(p)
        if p.service_id == "api" && p.status == ServiceStatus::Stopped && p.pid.is_none()
            && p.active_mode.as_deref() == Some("dev") && p.active_arg_preset.is_none()));
    let second = manager.stop_service("api");
    assert!(matches!(second, Err(ProcessError::NotRunning(ref id)) if id == "api"));
    assert!(!manager.is_running("api"));
}

#[test]
fn stop_of_an_unknown_entity_says_not_running() {
    let mut manager = engine();
    assert!(matches!(manager.stop_script("nope"), Err(ProcessError::NotRunning(ref id)) if id == "nope"));
    assert!(matches!(manager.stop(ProcessCategory::Service, "nope"), Err(ProcessError::NotRunning(_))));
}

#[test]
fn categories_are_independent_namespaces() {
    let mut manager = engine();
    let service = manager.start_service("x".into(), "/".into(), "run".into(), None, None, None).unwrap();
    let script = manager.run_script("x".into(), "/".into(), "run".into()).unwrap();
    let global = manager.run_global_script("x".into(), "/".into(), "run".into(), vec![], None).unwrap();
    manager.complete_launch(service.ticket, Ok(Spawned { child: 0, pid: 1 })).unwrap();
    manager.complete_launch(script.ticket, Ok(Spawned { child: 0, pid: 2 })).unwrap();
    manager.complete_launch(global.ticket, Ok(Spawned { child: 0, pid: 3 })).unwrap();
    assert!(manager.is_running("x") && manager.is_script_running("x") && manager.is_global_script_running("x"));
    manager.stop_script("x").unwrap();
    assert!(manager.is_running("x"));
    assert!(!manager.is_script_running("x"));
    assert!(manager.is_global_script_running("x"));
    assert_eq!(manager.get_running_services(), vec!["x"]);
    assert!(manager.has_running_processes());
}

#[test]
fn service_launch_announces_starting_then_running() {
    let mut manager = engine();
    let plan = manager
        .start_service("web".into(), "/srv/web".into(), "npm run dev".into(), None, Some("dev".into()), Some("fast".into()))
        .unwrap();
    assert_eq!(plan.request.program, "sh");
    assert_eq!(plan.request.args, vec!["-c", "npm run dev"]);
    assert!(matches!(&plan.events[0], EngineEvent::ServiceStatus(p)
        if p.status == ServiceStatus::Starting && p.pid.is_none()
            && p.active_mode.as_deref() == Some("dev") && p.active_arg_preset.as_deref() == Some("fast")));
    let done = manager.complete_launch(plan.ticket, Ok(Spawned { child: 0, pid: 31 })).unwrap();
    assert!(matches!(&done.events[0], EngineEvent::ServiceStatus(p)
        if p.status == ServiceStatus::Running && p.pid == Some(31)
            && p.active_mode.as_deref() == Some("dev") && p.active_arg_preset.as_deref() == Some("fast")));
    let report = manager.watch_tick(ProcessCategory::Service, "web", WaitOutcome::Exited(Some(3)));
    assert!(matches!(&report.events[0], EngineEvent::ServiceStatus(p)
        if p.status == ServiceStatus::Stopped && p.active_mode.as_deref() == Some("dev")));
    assert!(matches!(&report.events[1], EngineEvent::ServiceExit(p) if p.exit_code == Some(3)));
}

#[test]
fn exit_code_decides_between_completed_and_failed() {
    for (outcome, status, code, success) in [
        (WaitOutcome::Exited(Some(0)), ScriptStatus::Completed, Some(0), true),
        (WaitOutcome::Exited(Some(1)), ScriptStatus::Failed, Some(1), false),
        (WaitOutcome::Exited(Some(-1)), ScriptStatus::Failed, Some(-1), false),
        (WaitOutcome::Exited(None), ScriptStatus::Failed, None, false),
        (WaitOutcome::WaitFailed, ScriptStatus::Failed, None, false),
    ] {
        let mut manager = engine();
        let plan = manager.run_script("s".into(), "/".into(), "true".into()).unwrap();
        manager.complete_launch(plan.ticket, Ok(Spawned { child: 0, pid: 9 })).unwrap();
        let report = manager.watch_tick(ProcessCategory::ProjectScript, "s", outcome);
        assert_eq!(report.state, WatchState::Reporting);
        assert!(matches!(&report.events[0], EngineEvent::ScriptStatus(p) if p.status == status));
        assert!(matches!(&report.events[1], EngineEvent::ScriptExit(p)
            if p.exit_code == code && p.success == success));
    }
    assert!(exit_success(Some(0)));
    assert!(!exit_success(Some(2)));
    assert!(!exit_success(None));
}

#[test]
fn exactly_one_terminal_status_per_launch() {
    let mut manager = engine();
    let mut terminal = 0;
    for round in 0..3u32 {
        launch_global(&mut manager, "job", 100 + round);
        let report = manager.watch_tick(ProcessCategory::GlobalScript, "job", WaitOutcome::Exited(Some(0)));
        terminal += report.events.iter().filter(|e| matches!(e, EngineEvent::GlobalScriptStatus(p)
            if p.status == ScriptStatus::Completed || p.status == ScriptStatus::Failed)).count();
        let stop = manager.stop_global_script("job");
        assert!(stop.is_err());
        let late = manager.watch_tick(ProcessCategory::GlobalScript, "job", WaitOutcome::Exited(Some(0)));
        assert!(late.events.is_empty());
    }
    assert_eq!(terminal, 3);
}

#[test]
fn nothing_is_reported_once_shutdown_has_begun() {
    let mut manager = engine();
    launch_global(&mut manager, "a", 1);
    launch_global(&mut manager, "b", 2);
    manager.signal_shutdown();
    assert!(manager.get_shutdown_flag());
    assert_eq!(manager.watch_gate(), WatchState::Suppressed);
    assert!(manager.pump_line(ProcessCategory::GlobalScript, "a", LogStream::Stderr, "late".into()).is_none());
    let report = manager.watch_tick(ProcessCategory::GlobalScript, "a", WaitOutcome::Exited(Some(0)));
    assert_eq!(report.state, WatchState::Suppressed);
    assert!(report.events.is_empty());
    assert!(report.handle.is_some());
    assert!(!manager.is_global_script_running("a"));
    let stopped = manager.stop_global_script("b").unwrap();
    assert!(stopped.events.is_empty());
    let plan = begin_global(&mut manager, "c", "true", &[]);
    assert!(plan.events.is_empty());
    let done = manager.complete_launch(plan.ticket, Ok(Spawned { child: 0, pid: 3 })).unwrap();
    assert!(done.events.is_empty());
    manager.signal_shutdown();
    assert!(manager.get_shutdown_flag());
}

#[test]
fn registry_register_and_remove() {
    let mut table: ProcessTable<&'static str> = ProcessTable::new();
    let handle = |id: &str, pid: u32| ProcessInfo {
        child: "child",
        service_id: id.to_string(),
        pid,
        active_mode: None,
        active_arg_preset: None,
    };
    assert!(table.is_empty());
    assert!(table.register(handle("a", 1)).is_ok());
    match table.register(handle("a", 2)) {
        Err(back) => assert_eq!(back.pid, 2),
        Ok(()) => panic!("the second registration must fail"),
    }
    assert!(table.register(handle("b", 3)).is_ok());
    assert!(table.contains("a") && table.contains("b") && !table.contains("c"));
    assert!(table.is_occupied("a"));
    assert_eq!(table.ids(), vec!["a", "b"]);
    assert_eq!(table.lookup("a").map(|h| h.pid), Some(1));
    assert_eq!(table.snapshot(), vec![("a".to_string(), 1), ("b".to_string(), 3)]);
    let removed = table.remove("a").expect("registered");
    assert_eq!((removed.pid, removed.child), (1, "child"));
    assert!(table.remove("a").is_none());
    assert!(table.reserve("a"));
    assert!(!table.reserve("a"));
    assert!(!table.reserve("b"));
    assert!(table.is_reserved("a") && table.is_occupied("a") && !table.contains("a"));
    assert!(table.register(handle("a", 9)).is_ok());
    assert!(!table.is_reserved("a") && table.contains("a"));
    assert!(table.reserve("c"));
    assert!(table.release("c"));
    assert!(!table.release("c"));
    let drained = table.drain();
    assert_eq!(drained.iter().map(|h| h.pid).collect::<Vec<_>>(), vec![3, 9]);
    assert!(table.is_empty());
}

#[test]
fn snapshots_list_what_runs_in_a_category() {
    let mut manager = engine();
    launch_global(&mut manager, "a", 11);
    launch_global(&mut manager, "b", 12);
    assert_eq!(
        manager.snapshot(ProcessCategory::GlobalScript),
        vec![("a".to_string(), 11), ("b".to_string(), 12)]
    );
    assert!(manager.snapshot(ProcessCategory::Service).is_empty());
    assert!(manager.is_running_in(ProcessCategory::GlobalScript, "a"));
}

#[test]
fn shell_wrapping_depends_on_the_platform() {
    assert_eq!(parse_command(Platform::Linux, "ls -la"), ("sh".to_string(), vec!["-c".to_string(), "ls -la".to_string()]));
    assert_eq!(parse_command(Platform::MacOs, "ls"), ("sh".to_string(), vec!["-c".to_string(), "ls".to_string()]));
    assert_eq!(parse_command(Platform::Windows, "dir /b"), ("cmd".to_string(), vec!["/C".to_string(), "dir /b".to_string()]));
}

#[test]
fn windows_children_get_utf8_python_and_no_window() {
    let mut manager: ProcessManager<u8> = ProcessManager::new(Platform::Windows);
    let plan = manager.run_script("s".into(), "C:\\work".into(), "py run.py".into()).unwrap();
    assert_eq!(plan.request.program, "cmd");
    assert_eq!(plan.request.args, vec!["/C", "py run.py"]);
    assert!(plan.request.hide_window);
    assert_eq!(
        plan.request.forced_env,
        vec![("PYTHONUTF8".to_string(), "1".to_string()), ("PYTHONIOENCODING".to_string(), "utf-8".to_string())]
    );
    assert!(plan.request.env_vars.is_none());
}

#[test]
fn error_messages_name_the_entity_or_the_reason() {
    assert_eq!(ProcessError::AlreadyRunning("api".into()).message(), "Already running: api");
    assert_eq!(ProcessError::NotRunning("api".into()).message(), "Not running: api");
    assert_eq!(ProcessError::SpawnFailed("denied".into()).message(), "Failed to start process: denied");
    assert_eq!(ProcessError::KillFailed("busy".into()).message(), "Failed to kill process: busy");
}

#[test]
fn watch_interval_is_a_tenth_of_a_second() {
    assert_eq!(WATCH_INTERVAL_MS, 100);
}

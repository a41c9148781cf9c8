use cortx_core::error::ProcessError;
use cortx_core::group::{run_script_group, GroupRun, GroupScript, GroupStep};
use cortx_core::models::Platform;
use cortx_core::process_manager::ProcessManager;
use cortx_core::registry::ProcessCategory;
use cortx_core::shutdown::{ShutdownStage, ShutdownStep, SHUTDOWN_YIELD_MS};
use cortx_core::spawn::Spawned;
use cortx_core::watch::WaitOutcome;

fn script(id: &str) -> GroupScript {
    (id.to_string(), "/tmp".to_string(), id.to_string(), vec!["--go".to_string()], None)
}

fn abc() -> Vec<GroupScript> {
    vec![script("A"), script("B"), script("C")]
}

/// Drives a run to its end. `spawn` says whether the process of a script can
/// be created; every created process ends by itself after one pause.
fn drive(run: &mut GroupRun, manager: &mut ProcessManager<u8>, spawn: &dyn Fn(&str) -> bool) -> Vec<String> {
    let mut trace = Vec::new();
    let mut pid = 100;
    loop {
        match run.next(manager) {
            GroupStep::Spawn(plan) => {
                let id = plan.ticket.id.clone();
                trace.push(format!("spawn {}", id));
                assert!(run.is_launching());
                let spawned = if spawn(&id) {
                    pid += 1;
                    Ok(Spawned { child: 0u8, pid })
                } else {
                    Err("cannot start".to_string())
                };
                let outcome = manager.complete_launch(plan.ticket, spawned).map(|l| l.pid);
                run.record(outcome);
            }
            GroupStep::Wait(ms) => {
                assert_eq!(ms, 100);
                let ids = manager.list_running(ProcessCategory::GlobalScript);
                assert_eq!(ids.len(), 1);
                trace.push(format!("wait {}", ids[0]));
                manager.watch_tick(ProcessCategory::GlobalScript, &ids[0], WaitOutcome::Exited(Some(0)));
            }
            GroupStep::Finished => {
                assert!(run.is_finished());
                return trace;
            }
        }
    }
}

#[test]
fn sequential_group_stops_at_the_first_failure() {
    let mut manager = ProcessManager::new(Platform::Linux);
    let mut run = run_script_group(abc(), true, true);
    let trace = drive(&mut run, &mut manager, &|id| id != "A");
    assert_eq!(trace, vec!["spawn A"]);
    let results = run.into_results();
    assert_eq!(results.len(), 1);
    assert_eq!(results[0].0, "A");
    assert!(matches!(&results[0].1, Err(ProcessError::SpawnFailed(r)) if r == "cannot start"));
    assert!(!manager.has_running_processes());
}

#[test]
fn sequential_group_goes_on_without_stop_on_failure() {
    let mut manager = ProcessManager::new(Platform::Linux);
    let mut run = run_script_group(abc(), true, false);
    let trace = drive(&mut run, &mut manager, &|id| id != "A");
    assert_eq!(trace, vec!["spawn A", "spawn B", "wait B", "spawn C", "wait C"]);
    let results = run.into_results();
    assert_eq!(results.iter().map(|r| r.0.as_str()).collect::<Vec<_>>(), vec!["A", "B", "C"]);
    assert!(results[0].1.is_err());
    assert!(matches!(results[1].1, Ok(101)));
    assert!(matches!(results[2].1, Ok(102)));
}

#[test]
fn sequential_group_stops_in_the_middle() {
    let mut manager = ProcessManager::new(Platform::Linux);
    let mut run = run_script_group(abc(), true, true);
    let trace = drive(&mut run, &mut manager, &|id| id != "B");
    assert_eq!(trace, vec!["spawn A", "wait A", "spawn B"]);
    let results = run.into_results();
    assert_eq!(results.len(), 2);
    assert!(results[0].1.is_ok());
    assert!(results[1].1.is_err());
}

#[test]
fn parallel_group_launches_all_without_waiting() {
    let mut manager = ProcessManager::new(Platform::Linux);
    let mut run = run_script_group(abc(), false, true);
    let mut spawned = Vec::new();
    let mut pid = 0;
    loop {
        match run.next(&mut manager) {
            GroupStep::Spawn(plan) => {
                spawned.push(plan.ticket.id.clone());
                pid += 1;
                let spawn = if pid == 2 { Err("no".to_string()) } else { Ok(Spawned { child: 0u8, pid }) };
                let outcome = manager.complete_launch(plan.ticket, spawn).map(|l| l.pid);
                run.record(outcome);
            }
            GroupStep::Wait(_) => panic!("a parallel run never waits"),
            GroupStep::Finished => break,
        }
    }
    assert_eq!(spawned, vec!["A", "B", "C"]);
    let results = run.into_results();
    assert_eq!(results.len(), 3);
    assert!(results[0].1.is_ok() && results[1].1.is_err() && results[2].1.is_ok());
    assert!(manager.is_global_script_running("A"));
    assert!(!manager.is_global_script_running("B"));
    assert!(manager.is_global_script_running("C"));
}

#[test]
fn occupied_slots_are_refused_without_spawning() {
    let mut manager: ProcessManager<u8> = ProcessManager::new(Platform::Linux);
    let plan = manager.run_global_script("A".into(), "/".into(), "x".into(), vec![], None).unwrap();
    manager.complete_launch(plan.ticket, Ok(Spawned { child: 0, pid: 1 })).unwrap();

    let mut run = run_script_group(abc(), true, true);
    assert!(matches!(run.next(&mut manager), GroupStep::Finished));
    let results = run.into_results();
    assert_eq!(results.len(), 1);
    assert!(matches!(&results[0].1, Err(ProcessError::AlreadyRunning(id)) if id == "A"));

    let mut run = run_script_group(abc(), false, false);
    match run.next(&mut manager) {
        GroupStep::Spawn(plan) => assert_eq!(plan.ticket.id, "B"),
        _ => panic!("B is free and must be launched"),
    }
}

#[test]
fn empty_group_is_finished_at_once() {
    let mut manager: ProcessManager<u8> = ProcessManager::new(Platform::Linux);
    let mut run = run_script_group(Vec::new(), true, true);
    assert!(run.is_finished());
    assert!(!run.is_launching());
    assert!(matches!(run.next(&mut manager), GroupStep::Finished));
    assert!(run.into_results().is_empty());
}

#[test]
fn shutdown_goes_through_its_rounds_in_order() {
    let mut manager: ProcessManager<u8> = ProcessManager::new(Platform::Linux);
    for (category, id, pid) in [
        (ProcessCategory::GlobalScript, "g", 3u32),
        (ProcessCategory::Service, "s", 1),
        (ProcessCategory::ProjectScript, "p", 2),
    ] {
        let plan = manager
            .begin_launch(category, id.into(), "/".into(), "run".into(), vec![], None, None, None)
            .unwrap();
        manager.complete_launch(plan.ticket, Ok(Spawned { child: 9, pid })).unwrap();
    }
    let mut run = manager.stop_all();
    assert!(manager.get_shutdown_flag());
    assert_eq!(run.stage(), ShutdownStage::Signalled);
    assert!(manager.has_running_processes());

    assert!(matches!(manager.shutdown_step(&mut run), ShutdownStep::Yield(ms) if ms == SHUTDOWN_YIELD_MS));
    assert_eq!(SHUTDOWN_YIELD_MS, 50);

    let first = match manager.shutdown_step(&mut run) {
        ShutdownStep::RobustKill(targets) => targets,
        _ => panic!("expected the first kills"),
    };
    let listed: Vec<(ProcessCategory, &str, u32)> =
        first.iter().map(|t| (t.category, t.id.as_str(), t.pid)).collect();
    assert_eq!(
        listed,
        vec![
            (ProcessCategory::Service, "s", 1),
            (ProcessCategory::ProjectScript, "p", 2),
            (ProcessCategory::GlobalScript, "g", 3),
        ]
    );
    assert!(manager.has_running_processes());

    match manager.shutdown_step(&mut run) {
        ShutdownStep::DirectKill(handles) => {
            assert_eq!(handles.services.iter().map(|h| h.pid).collect::<Vec<_>>(), vec![1]);
            assert_eq!(handles.scripts.iter().map(|h| h.pid).collect::<Vec<_>>(), vec![2]);
            assert_eq!(handles.global_scripts.iter().map(|h| h.pid).collect::<Vec<_>>(), vec![3]);
        }
        _ => panic!("expected the handles"),
    }
    assert!(!manager.has_running_processes());

    match manager.shutdown_step(&mut run) {
        ShutdownStep::Recheck(targets) => {
            assert_eq!(targets.iter().map(|t| t.pid).collect::<Vec<_>>(), vec![1, 2, 3]);
        }
        _ => panic!("expected the second kills"),
    }
    assert!(matches!(manager.shutdown_step(&mut run), ShutdownStep::Done));
    assert!(matches!(manager.shutdown_step(&mut run), ShutdownStep::Done));
    assert_eq!(run.stage(), ShutdownStage::Rechecked);
}

#[test]
fn shutdown_can_be_started_again() {
    let mut manager: ProcessManager<u8> = ProcessManager::new(Platform::Windows);
    for _ in 0..2 {
        let mut run = manager.stop_all();
        assert!(matches!(manager.shutdown_step(&mut run), ShutdownStep::Yield(50)));
        assert!(matches!(manager.shutdown_step(&mut run), ShutdownStep::RobustKill(t) if t.is_empty()));
        assert!(matches!(manager.shutdown_step(&mut run), ShutdownStep::DirectKill(h)
            if h.services.is_empty() && h.scripts.is_empty() && h.global_scripts.is_empty()));
        assert!(matches!(manager.shutdown_step(&mut run), ShutdownStep::Recheck(t) if t.is_empty()));
        assert!(matches!(manager.shutdown_step(&mut run), ShutdownStep::Done));
        assert!(manager.get_shutdown_flag());
    }
    assert!(manager.snapshot_all().is_empty());
}

use cortx_core::error::ProcessError;
use cortx_core::models::Platform;
use cortx_core::termination::{
    kill_process_tree, kill_process_tree_robust, robust_kill_verdict, still_alive, CommandReport,
    KillDirective, KillStep, RobustStage, RETRY_DELAY_MS, SETTLE_MS,
};

fn show(steps: &[KillStep]) -> Vec<String> {
    steps
        .iter()
        .map(|s| match s {
            KillStep::Run(c) => format!("{} {}", c.program, c.args.join(" ")),
            KillStep::Sleep(ms) => format!("sleep {}", ms),
        })
        .collect()
}

fn report(ran: bool, success: bool, stdout: &str, stderr: &str) -> CommandReport {
    CommandReport { ran, success, stdout: stdout.to_string(), stderr: stderr.to_string() }
}

fn steps_of(directive: KillDirective) -> Vec<String> {
    match directive {
        KillDirective::Execute(steps) => show(&steps),
        KillDirective::Finished(_) => panic!("the kill ended early"),
    }
}

#[test]
fn basic_kill_with_process_groups() {
    let steps = kill_process_tree(Platform::Linux, 321);
    assert_eq!(show(&steps), vec!["kill -TERM -321", "sleep 100", "kill -KILL -321"]);
    assert_eq!(show(&kill_process_tree(Platform::MacOs, 1)), vec!["kill -TERM -1", "sleep 100", "kill -KILL -1"]);
}

#[test]
fn basic_kill_without_process_groups() {
    let steps = kill_process_tree(Platform::Windows, 321);
    assert_eq!(show(&steps), vec!["taskkill /F /T /PID 321"]);
}

#[test]
fn pauses_of_a_kill() {
    assert_eq!(SETTLE_MS, 100);
    assert_eq!(RETRY_DELAY_MS, 200);
}

#[test]
fn robust_kill_of_a_process_that_is_gone() {
    let mut kill = kill_process_tree_robust(Platform::Linux, 55);
    assert_eq!(kill.stage(), RobustStage::Opening);
    assert_eq!(kill.pid(), 55);
    assert_eq!(steps_of(kill.advance(None)), vec!["kill -TERM -55"]);
    assert_eq!(kill.stage(), RobustStage::Probing);
    assert_eq!(steps_of(kill.advance(Some(report(true, true, "", "")))), vec!["sleep 100", "kill -0 55"]);
    assert_eq!(kill.stage(), RobustStage::Closing);
    assert_eq!(steps_of(kill.advance(Some(report(true, false, "", "No such process")))), vec!["pkill -KILL -P 55"]);
    assert_eq!(kill.stage(), RobustStage::Finished);
    assert!(matches!(kill.advance(None), KillDirective::Finished(Ok(()))));
    assert!(matches!(kill.advance(None), KillDirective::Finished(Ok(()))));
}

#[test]
fn robust_kill_of_a_process_that_survives_the_first_signal() {
    let mut kill = kill_process_tree_robust(Platform::MacOs, 55);
    steps_of(kill.advance(None));
    steps_of(kill.advance(Some(report(false, false, "", "cannot run kill"))));
    let closing = steps_of(kill.advance(Some(report(true, true, "", ""))));
    assert_eq!(closing, vec!["kill -KILL -55", "kill -KILL 55", "sleep 100", "pkill -KILL -P 55"]);
    assert!(matches!(kill.advance(None), KillDirective::Finished(Ok(()))));
}

#[test]
fn robust_kill_on_windows_retries_when_the_listing_names_the_process() {
    let mut kill = kill_process_tree_robust(Platform::Windows, 4242);
    assert_eq!(steps_of(kill.advance(None)), vec!["taskkill /F /T /PID 4242"]);
    let probing = steps_of(kill.advance(Some(report(true, true, "SUCCESS", ""))));
    assert_eq!(probing, vec!["sleep 100", "tasklist /FI PID eq 4242 /NH"]);
    let closing = steps_of(kill.advance(Some(report(true, true, "node.exe   4242 Console", ""))));
    assert_eq!(
        closing,
        vec!["sleep 200", "taskkill /F /T /PID 4242", "sleep 100", "wmic process where ParentProcessId=4242 delete"]
    );
    assert!(matches!(kill.advance(None), KillDirective::Finished(Ok(()))));
}

#[test]
fn robust_kill_on_windows_without_retry() {
    let mut kill = kill_process_tree_robust(Platform::Windows, 4242);
    steps_of(kill.advance(None));
    steps_of(kill.advance(Some(report(true, false, "", "ERROR: The process \"4242\" not found."))));
    let closing = steps_of(kill.advance(Some(report(true, true, "INFO: No tasks are running", ""))));
    assert_eq!(closing, vec!["wmic process where ParentProcessId=4242 delete"]);
    assert!(matches!(kill.advance(None), KillDirective::Finished(Ok(()))));
}

#[test]
fn robust_kill_on_windows_gives_up_when_taskkill_cannot_run() {
    let mut kill = kill_process_tree_robust(Platform::Windows, 7);
    steps_of(kill.advance(None));
    match kill.advance(Some(report(false, false, "", "program not on PATH"))) {
        KillDirective::Finished(Err(ProcessError::KillFailed(reason))) => {
            assert_eq!(reason, "Failed to execute taskkill: program not on PATH");
        }
        _ => panic!("expected the kill to give up"),
    }
    assert_eq!(kill.stage(), RobustStage::Finished);
    assert!(matches!(kill.advance(None), KillDirective::Finished(Err(ProcessError::KillFailed(_)))));
}

#[test]
fn robust_kill_on_windows_reports_a_real_failure_at_the_end() {
    let mut kill = kill_process_tree_robust(Platform::Windows, 7);
    steps_of(kill.advance(None));
    steps_of(kill.advance(Some(report(true, false, "", "ERROR: Access is denied."))));
    steps_of(kill.advance(Some(report(true, true, "", ""))));
    match kill.advance(None) {
        KillDirective::Finished(Err(ProcessError::KillFailed(reason))) => {
            assert_eq!(reason, "taskkill failed: ERROR: Access is denied.");
        }
        _ => panic!("expected a failure"),
    }
}

#[test]
fn verdict_forgives_a_process_that_was_gone() {
    assert!(robust_kill_verdict(Platform::Windows, &report(true, false, "", "not found")).is_ok());
    assert!(robust_kill_verdict(Platform::Windows, &report(true, false, "", "INFO: No tasks running")).is_ok());
    assert!(robust_kill_verdict(Platform::Windows, &report(true, true, "", "anything")).is_ok());
    assert!(robust_kill_verdict(Platform::Windows, &report(true, false, "", "denied")).is_err());
    assert!(robust_kill_verdict(Platform::Linux, &report(false, false, "", "denied")).is_ok());
}

#[test]
fn probe_reading() {
    assert!(still_alive(Platform::Linux, 9, &report(true, true, "", "")));
    assert!(!still_alive(Platform::Linux, 9, &report(true, false, "", "")));
    assert!(!still_alive(Platform::Linux, 9, &report(false, true, "", "")));
    assert!(still_alive(Platform::Windows, 9, &report(true, false, "x 9 y", "")));
    assert!(!still_alive(Platform::Windows, 9, &report(true, true, "no match", "")));
    assert!(!still_alive(Platform::Windows, 9, &report(false, true, "9", "")));
    assert!(still_alive(Platform::Windows, 12, &report(true, true, "PID 4123", "")));
}

#[test]
fn a_missing_report_counts_as_never_executed() {
    let missing = CommandReport::missing();
    assert!(!missing.ran && !missing.success);
    assert!(missing.stdout.is_empty() && missing.stderr.is_empty());
    let mut kill = kill_process_tree_robust(Platform::Linux, 3);
    steps_of(kill.advance(None));
    steps_of(kill.advance(None));
    assert_eq!(steps_of(kill.advance(None)), vec!["pkill -KILL -P 3"]);
}

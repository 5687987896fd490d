use pty_bridge::launch::{close_fds, pre_exec_steps, select_stray_fds, step_failure, stray_fds, PreExecStep, Signal};
use pty_bridge::{close_random_fds, LaunchError, OsError};

#[test]
fn steps_run_in_order() {
    assert_eq!(
        pre_exec_steps(),
        vec![
            PreExecStep::ResetSignal(Signal::ChildDeath),
            PreExecStep::ResetSignal(Signal::Hangup),
            PreExecStep::ResetSignal(Signal::Interrupt),
            PreExecStep::ResetSignal(Signal::Quit),
            PreExecStep::ResetSignal(Signal::Terminate),
            PreExecStep::ResetSignal(Signal::Alarm),
            PreExecStep::NewSession,
            PreExecStep::SetControllingTerminal,
            PreExecStep::CloseStrayDescriptors,
        ]
    );
}

#[test]
fn fatal_and_ignored_step_failures() {
    assert_eq!(
        step_failure(PreExecStep::NewSession, 1),
        Some(LaunchError::SessionSetup(OsError { code: 1 }))
    );
    assert_eq!(
        step_failure(PreExecStep::SetControllingTerminal, 25),
        Some(LaunchError::ControllingTerminal(OsError { code: 25 }))
    );
    assert_eq!(step_failure(PreExecStep::ResetSignal(Signal::Quit), 22), None);
    assert_eq!(step_failure(PreExecStep::CloseStrayDescriptors, 9), None);
    assert_eq!(LaunchError::Spawn(OsError { code: 2 }).code(), 2);
    assert_eq!(LaunchError::SessionSetup(OsError { code: 1 }).code(), 1);
}

#[test]
fn stray_descriptors_are_those_above_two() {
    let parsed = vec![Some(0), Some(1), Some(2), Some(3), None, Some(17), Some(-4)];
    assert_eq!(select_stray_fds(&parsed), vec![3, 17]);
    assert_eq!(select_stray_fds(&Vec::new()), Vec::<i32>::new());
}

#[test]
fn close_random_fds_parses_names() {
    // Numbers far above any open descriptor: closing them fails quietly.
    let names: Vec<String> = ["0", "1", "2", "900001", ".", "..", "12x", "+900002", "-900003", "99999999999", " 900004"]
        .iter()
        .map(|s| s.to_string())
        .collect();
    assert_eq!(close_random_fds(&names), vec![900001, 900002]);
}

#[test]
fn stray_fds_are_computed_without_closing() {
    let names: Vec<String> = ["2", "3", "x", "40"].iter().map(|s| s.to_string()).collect();
    assert_eq!(stray_fds(&names), vec![3, 40]);
    assert_eq!(stray_fds(&Vec::new()), Vec::<i32>::new());
    // Closing numbers that are not open fails quietly.
    close_fds(&vec![900005, -1]);
}

use bitcoind_manager::supervisor::{
    exit_code, exit_code_is_defined, exit_report, on_interrupt, termination_notice,
    InterruptAction, INTERRUPTED_BEFORE_SPAWN,
};

#[test]
fn interrupt_before_spawn_exits_with_the_fixed_code() {
    assert_eq!(on_interrupt(None), InterruptAction::Exit { code: 143 });
    assert_eq!(INTERRUPTED_BEFORE_SPAWN, 143);
}

#[test]
fn interrupt_after_spawn_terminates_the_daemon() {
    assert_eq!(on_interrupt(Some(4242)), InterruptAction::Terminate { pid: 4242 });
    assert_eq!(on_interrupt(Some(0)), InterruptAction::Terminate { pid: 0 });
}

#[test]
fn exit_code_is_the_daemons_own() {
    assert_eq!(exit_code(Some(0), None), 0);
    assert_eq!(exit_code(Some(1), None), 1);
    assert_eq!(exit_code(Some(28), Some(9)), 28);
    assert_eq!(exit_code(Some(-1), None), -1);
}

#[test]
fn exit_code_of_a_signalled_daemon() {
    assert_eq!(exit_code(None, Some(15)), 143);
    assert_eq!(exit_code(None, Some(9)), 137);
    assert_eq!(exit_code(None, Some(0)), 128);
}

#[test]
fn exit_code_of_an_unknown_end() {
    assert_eq!(exit_code(None, None), 1);
}

#[test]
fn exit_code_is_defined_up_to_the_machine_limit() {
    assert!(exit_code_is_defined(Some(i32::MAX), Some(i32::MAX)));
    assert!(exit_code_is_defined(None, None));
    assert!(exit_code_is_defined(None, Some(i32::MAX - 128)));
    assert!(!exit_code_is_defined(None, Some(i32::MAX - 127)));
    assert!(exit_code_is_defined(None, Some(-5)));
}

#[test]
fn termination_notice_names_the_signal() {
    assert_eq!(termination_notice(Some("SIGKILL".to_string())), "PROCESS TERMINATED BY SIGKILL");
    assert_eq!(termination_notice(None), "PROCESS TERMINATED BY UNKNOWN SIGNAL");
}

#[test]
fn exit_report_of_a_signalled_daemon() {
    let report = exit_report(None, Some(15));
    assert_eq!(report.code, 143);
    assert_eq!(report.notice.as_deref(), Some("PROCESS TERMINATED BY SIGTERM"));
    let report = exit_report(None, Some(9));
    assert_eq!(report.code, 137);
    assert_eq!(report.notice.as_deref(), Some("PROCESS TERMINATED BY SIGKILL"));
}

#[test]
fn exit_report_of_an_unknown_signal() {
    let report = exit_report(None, Some(0));
    assert_eq!(report.code, 128);
    assert_eq!(report.notice.as_deref(), Some("PROCESS TERMINATED BY UNKNOWN SIGNAL"));
}

#[test]
fn exit_report_without_a_signal_has_no_notice() {
    let report = exit_report(Some(3), None);
    assert_eq!(report.code, 3);
    assert_eq!(report.notice, None);
    let report = exit_report(Some(3), Some(15));
    assert_eq!(report.code, 3);
    assert_eq!(report.notice, None);
    let report = exit_report(None, None);
    assert_eq!(report.code, 1);
    assert_eq!(report.notice, None);
}

use ghop::config::CommandSpec;
use ghop::monitor::ExitOutcome;
use ghop::supervisor::{aggregate_codes, make_monitors, Supervisor, UsageError};

fn specs(texts: &[&str]) -> Vec<CommandSpec> {
    texts.iter().map(|t| CommandSpec::new(t.to_string(), None)).collect()
}

#[test]
fn all_zero_aggregates_to_zero() {
    assert_eq!(aggregate_codes(&vec![0, 0]), 0);
    assert_eq!(aggregate_codes(&vec![0, 0, 0, 0]), 0);
}

#[test]
fn empty_batch_of_codes_aggregates_to_zero() {
    assert_eq!(aggregate_codes(&vec![]), 0);
}

#[test]
fn last_nonzero_code_wins() {
    // Completion order: first finisher exits 2, last finisher exits 3.
    assert_eq!(aggregate_codes(&vec![2, 3]), 3);
    // A zero finishing last does not mask the failure before it.
    assert_eq!(aggregate_codes(&vec![3, 0]), 3);
    assert_eq!(aggregate_codes(&vec![0, 5, 0, 2, 0]), 2);
}

#[test]
fn single_nonzero_code_propagates() {
    assert_eq!(aggregate_codes(&vec![3]), 3);
    assert_eq!(aggregate_codes(&vec![0, 124]), 124);
}

#[test]
fn negative_codes_normalize_to_one() {
    assert_eq!(aggregate_codes(&vec![-1]), 1);
    assert_eq!(aggregate_codes(&vec![2, -1]), 1);
}

#[test]
fn empty_command_list_is_rejected_before_launch() {
    let none: Vec<CommandSpec> = Vec::new();
    let r = Supervisor::new(&none);
    assert!(matches!(r, Err(UsageError::NoCommands)));
}

#[test]
fn supervisor_collects_codes_in_completion_order() {
    let cmds = specs(&["sleep 1; exit 2", "sleep 2; exit 3"]);
    let mut sup = Supervisor::new(&cmds).unwrap();
    assert!(!sup.all_reported());
    // Command 1 finishes first with code 2, command 2 later with code 3.
    sup.record_outcome(&ExitOutcome { index: 0, code: 2, timed_out: false });
    assert!(!sup.all_reported());
    sup.record_outcome(&ExitOutcome { index: 1, code: 3, timed_out: false });
    assert!(sup.all_reported());
    assert_eq!(sup.aggregate(), 3);
}

#[test]
fn supervisor_reports_zero_when_all_succeed() {
    let cmds = specs(&["exit 0", "exit 0"]);
    let mut sup = Supervisor::new(&cmds).unwrap();
    sup.record_outcome(&ExitOutcome { index: 0, code: 0, timed_out: false });
    sup.record_outcome(&ExitOutcome { index: 1, code: 0, timed_out: false });
    assert_eq!(sup.aggregate(), 0);
}

#[test]
fn supervisor_cancel_is_one_way_and_idempotent() {
    let cmds = specs(&["watch ls"]);
    let mut sup = Supervisor::new(&cmds).unwrap();
    assert!(!sup.cancel.is_requested());
    sup.request_cancel();
    assert!(sup.cancel.is_requested());
    sup.request_cancel();
    assert!(sup.cancel.is_requested());
}

#[test]
fn monitors_get_stable_indices_and_timeouts() {
    let cmds = vec![
        CommandSpec::new("sleep 2".to_string(), Some(1)),
        CommandSpec::new("echo ok".to_string(), None),
    ];
    let monitors = make_monitors(&cmds);
    assert_eq!(monitors.len(), 2);
    assert_eq!(monitors[0].index, 0);
    assert_eq!(monitors[0].timeout, Some(1));
    assert_eq!(monitors[1].index, 1);
    assert_eq!(monitors[1].timeout, None);
}

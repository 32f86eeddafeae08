use satomat::abort::AbortSignal;
use satomat::executor::{abort_on_exit, monitor_step, stderr_log_name, stdout_log_name, MonitorStep, OnFail, PollOutcome};
use satomat::scheduler::artifacts::RunState;
use satomat::scheduler::parser::Schedule;
use satomat::scheduler::runner::{Runner, RunnerError};
use satomat::time::{parse_instant, time_until, Instant};

fn at(text: &str) -> Instant {
    parse_instant(text).expect("valid instant")
}

const TWO_STEPS: &str = r#"
variables: {start: "2026-01-12T10:00:00Z", end: "2026-01-12T10:10:00Z"}
steps:
  - executor: {action: run_shell, cmd: "exit 3", on_fail: abort}
  - time: "T+30s"
    executor: {action: stop}
"#;

#[test]
fn executor_abort_fails_the_run_before_the_next_step() {
    let schedule = Schedule::from_str(TWO_STEPS).unwrap();
    assert!(schedule.times_resolvable());
    let now = at("2026-01-12T10:00:00Z");
    let mut runner = Runner::new("s1".to_string(), schedule, now);
    assert!(runner.has_next());
    assert_eq!(runner.delay_before_next(now), 0);
    runner.record_step(now, now, None);
    let signal = abort_on_exit(3, OnFail::Abort, 0, "exit 3").expect("abort expected");
    let err = runner.abort(signal, at("2026-01-12T10:00:01Z"));
    assert!(matches!(err, RunnerError::Aborted { step: 0, ref reason } if reason == "Process failed with exit code 3: exit 3"));
    let log = runner.execution_log();
    assert_eq!(log.state, RunState::Failed);
    assert_eq!(log.step_results.len(), 1);
    assert_eq!(log.step_results[0].step_index, 0);
    assert!(!log.step_results[0].success);
    assert!(log.step_results.iter().all(|r| r.step_index != 1));
}

#[test]
fn every_executed_step_has_one_result() {
    let schedule = Schedule::from_str(TWO_STEPS).unwrap();
    let now = at("2026-01-12T10:00:00Z");
    let mut runner = Runner::new("s2".to_string(), schedule, now);
    runner.record_step(now, now, None);
    assert_eq!(runner.delay_before_next(now), 30_000_000_000);
    let later = at("2026-01-12T10:00:30Z");
    runner.record_step(later, later, Some("boom".to_string()));
    assert!(!runner.has_next());
    let log = runner.execution_log();
    assert_eq!(log.step_results.len(), 2);
    assert_eq!(log.step_results[0].command_type, "executor.run_shell");
    assert!(log.step_results[0].success);
    assert_eq!(log.step_results[1].step_index, 1);
    assert_eq!(log.step_results[1].command_type, "executor.stop");
    assert!(!log.step_results[1].success);
    assert_eq!(log.step_results[1].error.as_deref(), Some("boom"));
    assert_eq!(log.state, RunState::Failed);
}

#[test]
fn overdue_step_runs_at_once() {
    let schedule = Schedule::from_str(TWO_STEPS).unwrap();
    let start = at("2026-01-12T10:00:00Z");
    let mut runner = Runner::new("s3".to_string(), schedule, start);
    runner.record_step(start, start, None);
    assert_eq!(runner.delay_before_next(at("2026-01-12T11:00:00Z")), 0);
    assert_eq!(runner.delay_before_next(at("2026-01-12T10:00:29Z")), 1_000_000_000);
    runner.record_step(start, start, None);
    runner.complete(at("2026-01-12T11:00:00Z"));
    assert_eq!(runner.execution_log().state, RunState::Completed);
}

#[test]
fn exit_codes_decide_the_abort() {
    assert!(abort_on_exit(0, OnFail::Abort, 1, "true").is_none());
    assert!(abort_on_exit(2, OnFail::Continue, 1, "false").is_none());
    let s = abort_on_exit(-1, OnFail::Abort, 4, "sleep 9").unwrap();
    assert_eq!(s, AbortSignal { step: 4, reason: "Process failed with exit code -1: sleep 9".to_string() });
    assert!(matches!(monitor_step(PollOutcome::StillRunning, OnFail::Abort, 0, "x"), MonitorStep::KeepPolling));
    assert!(matches!(monitor_step(PollOutcome::PollFailed, OnFail::Abort, 0, "x"), MonitorStep::Finish(None)));
    assert!(matches!(monitor_step(PollOutcome::Exited(None), OnFail::Abort, 7, "x"), MonitorStep::Finish(Some(s)) if s.step == 7 && s.reason.contains("-1")));
    assert!(matches!(monitor_step(PollOutcome::Exited(Some(0)), OnFail::Abort, 7, "x"), MonitorStep::Finish(None)));
}

#[test]
fn step_logs_are_numbered_with_three_digits() {
    assert_eq!(stdout_log_name(7), "step_007_stdout.log");
    assert_eq!(stderr_log_name(42), "step_042_stderr.log");
    assert_eq!(stdout_log_name(1234), "step_1234_stdout.log");
}

#[test]
fn waits_cover_the_whole_time_line() {
    assert_eq!(time_until(Instant { unix_nanos: i128::MAX }, Instant { unix_nanos: i128::MIN }), u128::MAX);
    assert_eq!(time_until(Instant { unix_nanos: i128::MIN }, Instant { unix_nanos: i128::MAX }), 0);
    assert_eq!(time_until(Instant { unix_nanos: 5 }, Instant { unix_nanos: -5 }), 10);
}

use satomat::executor;
use satomat::radio;
use satomat::scheduler::parser::{command_name, parse_time, Command, ParseError, Schedule, TimeExpr};
use satomat::time::{parse_duration, parse_instant, Instant};
use satomat::tracker;

fn at(text: &str) -> Instant {
    parse_instant(text).expect("valid instant")
}

const BASIC: &str = r#"
variables:
  start: "2026-01-12T10:00:00Z"
  end: "2026-01-12T10:10:00Z"
  rotator: uhf1
  sdr: sdr1
  bandwidth: "100 KHz"
  tle: |
    ISS (ZARYA)
    1 25544U 98067A   26012.17690827  .00009276  00000-0  17471-3 0  9998
    2 25544  51.6333 351.7881 0007723   8.9804 351.1321 15.49250518547578
steps:
  - time: "T+10s"
    tracker:
      action: run
      tle: $tle
      rotator: $rotator
  - executor:
      action: run_shell
      cmd: python -c "print('hello world from pre_script')"
      on_fail: continue
  - radio:
      action: run
      radio: $sdr
      bandwidth: $bandwidth
      out:
        udp:
          send: "127.0.0.1:817817"
          format: cs16
      web_fft: true
  - time: "$end - 10s"
    tracker:
      action: rotator_park
      rotator: $rotator
  - executor:
      action: run_shell
      cmd: echo "hello from post_script"
"#;

#[test]
fn test_parse_basic_schedule() {
    let schedule = Schedule::from_str(BASIC).expect("failed to parse basic schedule");

    assert_eq!(schedule.steps.len(), 5);

    assert_eq!(schedule.steps[0].time, Some(TimeExpr::Relative(10_000_000_000)));
    assert!(matches!(
        &schedule.steps[0].command,
        Command::Tracker(tracker::Command::Run(run))
        if run.rotator.as_deref() == Some("uhf1") && run.tle.contains("ISS (ZARYA)")
    ));

    assert_eq!(
        schedule.steps[1].command,
        Command::Executor(executor::Command::RunShell {
            cmd: "python -c \"print('hello world from pre_script')\"".to_string(),
            on_fail: executor::OnFail::Continue,
        })
    );

    assert_eq!(
        schedule.steps[2].command,
        Command::Radio(radio::Command::Run {
            radio: "sdr1".to_string(),
            bandwidth: "100 KHz".to_string(),
            out: Some(radio::Output {
                udp: Some(radio::UdpOutput {
                    send: "127.0.0.1:817817".to_string(),
                    format: "cs16".to_string(),
                })
            }),
            web_fft: true,
        })
    );

    assert_eq!(schedule.steps[3].time, Some(TimeExpr::Absolute(at("2026-01-12T10:09:50Z"))));
    assert_eq!(
        schedule.steps[3].command,
        Command::Tracker(tracker::Command::RotatorPark {
            rotator: "uhf1".to_string(),
        })
    );

    assert_eq!(
        schedule.steps[4].command,
        Command::Executor(executor::Command::RunShell {
            cmd: "echo \"hello from post_script\"".to_string(),
            on_fail: executor::OnFail::Abort,
        })
    );
}

#[test]
fn test_missing_start_variable() {
    let yaml = "variables: {end: '2026-01-12T10:10:00Z'}\nsteps: []";
    assert!(matches!(
        Schedule::from_str(yaml),
        Err(ParseError::Validation(msg)) if msg.contains("start")
    ));
}

#[test]
fn test_missing_end_variable() {
    let yaml = "variables: {start: '2026-01-12T10:00:00Z'}\nsteps: []";
    assert!(matches!(
        Schedule::from_str(yaml),
        Err(ParseError::Validation(msg)) if msg.contains("end")
    ));
}

#[test]
fn test_invalid_start_datetime() {
    let yaml = "variables: {start: 'not-a-date', end: '2026-01-12T10:10:00Z'}\nsteps: []";
    assert!(matches!(
        Schedule::from_str(yaml),
        Err(ParseError::Validation(msg)) if msg.contains("start")
    ));
}

#[test]
fn test_end_before_start() {
    let yaml =
        "variables: {start: '2026-01-12T10:10:00Z', end: '2026-01-12T10:00:00Z'}\nsteps: []";
    assert!(matches!(
        Schedule::from_str(yaml),
        Err(ParseError::Validation(msg)) if msg.contains("must be after")
    ));
}

#[test]
fn test_end_equal_to_start() {
    let yaml =
        "variables: {start: '2026-01-12T10:00:00Z', end: '2026-01-12T10:00:00Z'}\nsteps: []";
    assert!(matches!(
        Schedule::from_str(yaml),
        Err(ParseError::Validation(msg)) if msg.contains("must be after")
    ));
}

#[test]
fn substitution_and_relative_time_resolve() {
    let yaml = r#"
variables: {start: "2026-01-12T10:00:00Z", end: "2026-01-12T10:10:00Z", freq: "437.8 MHz"}
steps:
  - time: "T+10s"
    executor:
      action: run_shell
      cmd: "tune $freq now"
"#;
    let s = Schedule::from_str(yaml).unwrap();
    let t = s.steps[0].time.unwrap().resolve(s.start);
    assert_eq!(t, at("2026-01-12T10:00:10Z"));
    assert_eq!(
        s.steps[0].command,
        Command::Executor(executor::Command::RunShell {
            cmd: "tune 437.8 MHz now".to_string(),
            on_fail: executor::OnFail::Abort,
        })
    );
}

#[test]
fn absolute_with_offset_resolves() {
    assert_eq!(
        parse_time("2026-01-12T10:00:00Z - 10s"),
        Some(TimeExpr::Absolute(at("2026-01-12T09:59:50Z")))
    );
    assert_eq!(
        parse_time("2026-01-12T10:00:00Z + 1m"),
        Some(TimeExpr::Absolute(at("2026-01-12T10:01:00Z")))
    );
}

#[test]
fn relative_times_take_a_sign() {
    assert_eq!(parse_time("T-5m"), Some(TimeExpr::Relative(-300_000_000_000)));
    assert_eq!(parse_time("t+1h30m"), Some(TimeExpr::Relative(5_400_000_000_000)));
    assert_eq!(parse_time("  T10s "), Some(TimeExpr::Relative(10_000_000_000)));
    assert_eq!(parse_time("T+ten"), None);
    assert_eq!(parse_time("2026-01-12T10:00:00Z"), Some(TimeExpr::Absolute(at("2026-01-12T10:00:00Z"))));
    assert_eq!(parse_time("tomorrow"), None);
}

#[test]
fn whole_value_reference_keeps_the_variable_type() {
    let yaml = r#"
variables:
  start: "2026-01-12T10:00:00Z"
  end: "2026-01-12T10:10:00Z"
  fft: true
  station:
    device: rig
    frequencies: {uplink: "145.99 MHz", downlink: "437.8 MHz"}
steps:
  - radio: {action: run, radio: sdr, bandwidth: "1 MHz", web_fft: $fft}
  - tracker:
      action: run
      tle: "a\nb"
      end: $end
      radio: $station
"#;
    let s = Schedule::from_str(yaml).unwrap();
    assert!(matches!(&s.steps[0].command, Command::Radio(radio::Command::Run { web_fft: true, out: None, .. })));
    match &s.steps[1].command {
        Command::Tracker(tracker::Command::Run(run)) => {
            assert_eq!(run.end, Some(at("2026-01-12T10:10:00Z")));
            let r = run.radio.as_ref().unwrap();
            assert_eq!(r.device, "rig");
            assert_eq!(r.frequencies.downlink, "437.8 MHz");
            assert_eq!(run.rotator, None);
        }
        other => panic!("unexpected command {:?}", other),
    }
}

#[test]
fn unknown_subsystem_is_a_step_error() {
    let yaml = "variables: {start: '2026-01-12T10:00:00Z', end: '2026-01-12T10:10:00Z'}\nsteps:\n  - executor: {action: stop}\n  - antenna: {action: stop}";
    assert!(matches!(Schedule::from_str(yaml), Err(ParseError::Step(1, msg)) if msg.contains("antenna")));
}

#[test]
fn malformed_steps_are_step_errors() {
    let missing = "variables: {start: '2026-01-12T10:00:00Z', end: '2026-01-12T10:10:00Z'}";
    assert!(matches!(Schedule::from_str(missing), Err(ParseError::Step(0, _))));
    let bad_time = "variables: {start: '2026-01-12T10:00:00Z', end: '2026-01-12T10:10:00Z'}\nsteps:\n  - {time: 'soon', executor: {action: stop}}";
    assert!(matches!(Schedule::from_str(bad_time), Err(ParseError::Step(0, _))));
    let bad_action = "variables: {start: '2026-01-12T10:00:00Z', end: '2026-01-12T10:10:00Z'}\nsteps:\n  - executor: {action: launch}";
    assert!(matches!(Schedule::from_str(bad_action), Err(ParseError::Step(0, _))));
    let bad_policy = "variables: {start: '2026-01-12T10:00:00Z', end: '2026-01-12T10:10:00Z'}\nsteps:\n  - executor: {action: run_shell, cmd: ls, on_fail: retry}";
    assert!(matches!(Schedule::from_str(bad_policy), Err(ParseError::Step(0, _))));
}

#[test]
fn malformed_documents_are_yaml_errors() {
    assert!(matches!(Schedule::from_str("variables: [unclosed"), Err(ParseError::Yaml(_))));
    assert!(matches!(Schedule::from_str("variables: [1, 2]\nsteps: []"), Err(ParseError::Yaml(_))));
}

#[test]
fn parsed_schedule_ends_after_it_starts() {
    let yaml = "variables: {start: '2026-01-12T10:00:00Z', end: '2026-01-12T10:00:01Z'}\nsteps: []";
    let s = Schedule::from_str(yaml).unwrap();
    assert!(s.end.unix_nanos > s.start.unix_nanos);
    assert_eq!(s.end.unix_nanos - s.start.unix_nanos, 1_000_000_000);
    assert!(s.steps.is_empty());
    assert_eq!(s.variables.len(), 2);
}

#[test]
fn durations_and_instants_convert_exactly() {
    assert_eq!(parse_duration("1h30m"), Some(5_400_000_000_000));
    assert_eq!(parse_duration("250ms"), Some(250_000_000));
    assert_eq!(parse_duration("later"), None);
    assert_eq!(at("1970-01-01T00:00:01Z").unix_nanos, 1_000_000_000);
    assert_eq!(at("2026-01-12T10:00:00+01:00"), at("2026-01-12T09:00:00Z"));
    assert_eq!(parse_instant("12:00"), None);
}

#[test]
fn command_names_are_subsystem_and_action() {
    assert_eq!(command_name(&Command::Executor(executor::Command::Stop)), "executor.stop");
    assert_eq!(command_name(&Command::Tracker(tracker::Command::Stop)), "tracker.stop");
    assert_eq!(command_name(&Command::Radio(radio::Command::Stop)), "radio.stop");
}

#[test]
fn duplicate_keys_are_yaml_errors() {
    let yaml = "variables: {start: '2026-01-12T10:00:00Z', start: '2026-01-12T11:00:00Z', end: '2026-01-12T12:00:00Z'}\nsteps: []";
    assert!(matches!(Schedule::from_str(yaml), Err(ParseError::Yaml(_))));
}

#[test]
fn inline_substitution_leaves_unknown_and_structured_names() {
    let yaml = r#"
variables:
  start: "2026-01-12T10:00:00Z"
  end: "2026-01-12T10:10:00Z"
  n: 42
  on: true
  list: [1, 2]
steps:
  - executor: {action: run_shell, cmd: "echo $n $on $list $missing"}
  - executor: {action: run_shell, cmd: "$missing"}
"#;
    let s = Schedule::from_str(yaml).unwrap();
    assert_eq!(
        s.steps[0].command,
        Command::Executor(executor::Command::RunShell { cmd: "echo 42 true $list $missing".to_string(), on_fail: executor::OnFail::Abort })
    );
    assert_eq!(
        s.steps[1].command,
        Command::Executor(executor::Command::RunShell { cmd: "$missing".to_string(), on_fail: executor::OnFail::Abort })
    );
}

#[test]
fn whole_value_reference_of_wrong_type_fails_the_step() {
    let yaml = "variables: {start: '2026-01-12T10:00:00Z', end: '2026-01-12T10:10:00Z', n: 5}\nsteps:\n  - executor: {action: run_shell, cmd: $n}";
    assert!(matches!(Schedule::from_str(yaml), Err(ParseError::Step(0, _))));
}

#[test]
fn error_messages_name_what_is_wrong() {
    let missing = "variables: {end: '2026-01-12T10:10:00Z'}\nsteps: []";
    assert!(matches!(Schedule::from_str(missing), Err(ParseError::Validation(m)) if m == "missing mandatory variable 'start'"));
    let invalid = "variables: {start: 'soon', end: '2026-01-12T10:10:00Z'}\nsteps: []";
    assert!(matches!(Schedule::from_str(invalid), Err(ParseError::Validation(m)) if m == "invalid 'start' datetime: soon"));
    let unknown = "variables: {start: '2026-01-12T10:00:00Z', end: '2026-01-12T10:10:00Z'}\nsteps:\n  - antenna: {action: stop}";
    assert!(matches!(Schedule::from_str(unknown), Err(ParseError::Step(0, m)) if m == "unknown module: antenna"));
}

#[test]
fn whole_value_reference_needs_no_white_space() {
    let yaml = "variables: {start: '2026-01-12T10:00:00Z', end: '2026-01-12T10:10:00Z', c: ls}\nsteps:\n  - executor: {action: run_shell, cmd: \"$c\\tx\"}";
    let s = Schedule::from_str(yaml).unwrap();
    assert_eq!(s.steps[0].command, Command::Executor(executor::Command::RunShell { cmd: "ls\tx".to_string(), on_fail: executor::OnFail::Abort }));
}

#[test]
fn durations_with_too_many_digits_are_refused() {
    assert_eq!(parse_duration("18446744073709551615s 1000000000ns"), None);
    assert_eq!(parse_time("T+18446744073709551615s 1000000000ns"), None);
    assert_eq!(parse_duration("99999999999ns"), Some(99_999_999_999));
    assert_eq!(parse_duration("999999999999ns"), None);
}

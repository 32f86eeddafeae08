use satomat::predict::parse_multi_tle;
use satomat::time::Instant;
use satomat::tracker::trajectory::{sample_times, window_end};
use satomat::tracker::{parse_tle_lines, TrackerError, TrackerMode, TrackerState};

const L1: &str = "1 25544U 98067A   26012.17690827  .00009276  00000-0  17471-3 0  9998";
const L2: &str = "2 25544  51.6333 351.7881 0007723   8.9804 351.1321 15.49250518547578";

#[test]
fn tle_needs_two_or_three_lines() {
    let three = format!("ISS (ZARYA)\n{}\n\n  {}  \n", L1, L2);
    let (name, l1, l2) = parse_tle_lines(&three).unwrap();
    assert_eq!(name.as_deref(), Some("ISS (ZARYA)"));
    assert_eq!(l1, L1);
    assert_eq!(l2, L2);
    let two = format!("{}\r\n{}", L1, L2);
    assert_eq!(parse_tle_lines(&two).unwrap(), (None, L1.to_string(), L2.to_string()));
    assert!(matches!(parse_tle_lines(L1), Err(TrackerError::InvalidTleFormat)));
    let four = format!("A\nB\n{}\n{}", L1, L2);
    assert!(matches!(parse_tle_lines(&four), Err(TrackerError::InvalidTleFormat)));
    assert!(matches!(parse_tle_lines(" \n \n"), Err(TrackerError::InvalidTleFormat)));
}

#[test]
fn multi_tle_files_group_element_sets() {
    let content = format!("{}\n{}\nISS\n{}\n{}\nstray\n", L1, L2, L1, L2);
    let groups = parse_multi_tle(&content);
    assert_eq!(groups.len(), 2);
    assert_eq!(groups[0], (None, L1.to_string(), L2.to_string()));
    assert_eq!(groups[1], (Some("ISS".to_string()), L1.to_string(), L2.to_string()));
    assert!(parse_multi_tle("nothing here\n").is_empty());
    let named = parse_multi_tle(&format!("junk\n{}\n{}", L1, L2));
    assert_eq!(named, vec![(Some("junk".to_string()), L1.to_string(), L2.to_string())]);
}

#[test]
fn run_then_stop_returns_to_idle() {
    let mut t: TrackerState<(i128, u32)> = TrackerState::new();
    let tle = format!("ISS (ZARYA)\n{}\n{}", L1, L2);
    let now = Instant { unix_nanos: 1_000_000_000_000 };
    let end = Instant { unix_nanos: now.unix_nanos + 5_000_000_000 };
    assert_eq!(t.begin_run(&tle, now, Some(end)).unwrap().0.as_deref(), Some("ISS (ZARYA)"));
    assert!(matches!(t.status().mode, TrackerMode::Running { end: Some(e), .. } if e == end));
    assert!(matches!(t.begin_run(&tle, now, None), Err(TrackerError::AlreadyRunning)));
    t.set_target_name(Some("ISS (ZARYA)".to_string()));
    let times = sample_times(now, window_end(now, Some(end)));
    assert_eq!(times.len(), 6);
    t.publish_trajectory(times.iter().map(|i| (i.unix_nanos, 0)).collect());
    let mut previous = None;
    for ts in &times {
        assert!(!t.publish_sample((ts.unix_nanos, 9), *ts, Instant { unix_nanos: ts.unix_nanos - 1 }));
        assert!(t.publish_sample((ts.unix_nanos, 1), *ts, *ts));
        let current = t.status().last_sample.unwrap().0;
        if let Some(p) = previous {
            assert!(current > p);
        }
        previous = Some(current);
    }
    assert!(!t.publish_sample((times[0].unix_nanos, 2), times[0], end));
    assert_eq!(t.status().last_sample, Some((times[5].unix_nanos, 1)));
    assert!(matches!(&t.status().mode, TrackerMode::Running { tle_name: Some(n), .. } if n == "ISS (ZARYA)"));
    t.stop();
    assert_eq!(t.status().mode, TrackerMode::Idle);
    assert!(t.status().last_sample.is_none());
    assert!(t.status().trajectory.is_empty());
    assert!(t.begin_run(&tle, now, None).is_ok());
}

#[test]
fn stop_on_idle_changes_nothing() {
    let mut t: TrackerState<u8> = TrackerState::new();
    t.stop();
    assert_eq!(t.status().mode, TrackerMode::Idle);
    assert!(t.status().last_sample.is_none());
    assert!(t.status().trajectory.is_empty());
    assert!(!t.publish_sample(3, Instant { unix_nanos: 0 }, Instant { unix_nanos: 1 }));
    assert!(t.status().last_sample.is_none());
}

#[test]
fn open_ended_window_lasts_fifteen_minutes() {
    let start = Instant { unix_nanos: 0 };
    assert_eq!(window_end(start, None).unix_nanos, 900_000_000_000);
    assert_eq!(sample_times(start, window_end(start, None)).len(), 901);
    assert!(sample_times(Instant { unix_nanos: 10 }, Instant { unix_nanos: 5 }).is_empty());
}

#[test]
fn run_with_a_malformed_tle_stays_idle() {
    let mut t: TrackerState<u8> = TrackerState::new();
    let now = Instant { unix_nanos: 0 };
    assert!(matches!(t.begin_run(L1, now, None), Err(TrackerError::InvalidTleFormat)));
    let four = format!("A\nB\n{}\n{}", L1, L2);
    assert!(matches!(t.begin_run(&four, now, None), Err(TrackerError::InvalidTleFormat)));
    assert_eq!(t.status().mode, TrackerMode::Idle);
    assert!(t.begin_run(&format!("{}\n{}", L1, L2), now, None).is_ok());
}

use satomat::scheduler::approval::{evaluate_approval, ApprovalMode, ApprovalResult};
use satomat::scheduler::storage::{
    check_overlap, compose_id, generate_id, intervals_overlap, Catalog, ScheduleEntry, ScheduleState,
    Storage, StorageError,
};
use satomat::time::{parse_instant, Instant};

fn at(text: &str) -> Instant {
    parse_instant(text).expect("valid instant")
}

fn ids(entries: &[ScheduleEntry]) -> Vec<String> {
    entries.iter().map(|e| e.id.clone()).collect()
}

#[test]
fn overlapping_submission_is_refused() {
    let mut c = Catalog::new();
    let a = c.submit("A".to_string(), at("2026-01-12T10:00:00Z"), at("2026-01-12T10:10:00Z"), ApprovalMode::Auto);
    assert!(matches!(a, Ok((ref e, ApprovalResult::Approved)) if e.state == ScheduleState::Active));
    let b = c.submit("B".to_string(), at("2026-01-12T10:05:00Z"), at("2026-01-12T10:15:00Z"), ApprovalMode::Auto);
    assert!(matches!(b, Err(StorageError::Overlap)));
    assert_eq!(ids(&c.list(ScheduleState::Active)), vec!["A".to_string()]);
    assert!(c.list(ScheduleState::AwaitingApproval).is_empty());
}

#[test]
fn touching_intervals_may_both_be_active() {
    let mut c = Catalog::new();
    assert!(c.submit("A".to_string(), at("2026-01-12T10:00:00Z"), at("2026-01-12T10:10:00Z"), ApprovalMode::Auto).is_ok());
    assert!(c.submit("B".to_string(), at("2026-01-12T10:10:00Z"), at("2026-01-12T10:20:00Z"), ApprovalMode::Auto).is_ok());
    assert_eq!(ids(&c.list(ScheduleState::Active)), vec!["A".to_string(), "B".to_string()]);
    assert!(!intervals_overlap(at("2026-01-12T10:00:00Z"), at("2026-01-12T10:10:00Z"), at("2026-01-12T10:10:00Z"), at("2026-01-12T10:20:00Z")));
    assert!(intervals_overlap(at("2026-01-12T10:00:00Z"), at("2026-01-12T10:10:00Z"), at("2026-01-12T10:09:59Z"), at("2026-01-12T10:20:00Z")));
}

#[test]
fn manual_submission_waits_then_approval_activates_it() {
    let mut c = Catalog::new();
    c.submit("A".to_string(), at("2026-01-12T08:00:00Z"), at("2026-01-12T09:00:00Z"), ApprovalMode::Auto).unwrap();
    let (e, res) = c.submit("P".to_string(), at("2026-01-12T10:00:00Z"), at("2026-01-12T10:10:00Z"), ApprovalMode::Manual).unwrap();
    assert_eq!(res, ApprovalResult::Pending);
    assert_eq!(e.state, ScheduleState::AwaitingApproval);
    assert_eq!(ids(&c.list(ScheduleState::AwaitingApproval)), vec!["P".to_string()]);
    let approved = c.approve("P").unwrap();
    assert_eq!(approved.state, ScheduleState::Active);
    assert_eq!(approved.id, "P");
    assert_eq!(ids(&c.list(ScheduleState::Active)), vec!["A".to_string(), "P".to_string()]);
    assert!(c.list(ScheduleState::AwaitingApproval).is_empty());
}

#[test]
fn approval_rechecks_overlap_and_finds_only_pending() {
    let mut c = Catalog::new();
    c.submit("P".to_string(), at("2026-01-12T10:00:00Z"), at("2026-01-12T10:10:00Z"), ApprovalMode::Manual).unwrap();
    c.submit("A".to_string(), at("2026-01-12T10:05:00Z"), at("2026-01-12T10:15:00Z"), ApprovalMode::Auto).unwrap();
    assert!(matches!(c.approve("P"), Err(StorageError::Overlap)));
    assert!(matches!(c.approve("A"), Err(StorageError::NotFound(id)) if id == "A"));
    assert!(matches!(c.approve("nope"), Err(StorageError::NotFound(_))));
    assert_eq!(ids(&c.list(ScheduleState::AwaitingApproval)), vec!["P".to_string()]);
}

#[test]
fn removal_needs_an_existing_entry() {
    let mut c = Catalog::new();
    c.submit("P".to_string(), at("2026-01-12T10:00:00Z"), at("2026-01-12T10:10:00Z"), ApprovalMode::Manual).unwrap();
    assert!(matches!(c.remove(ScheduleState::Active, "P"), Err(StorageError::NotFound(_))));
    assert!(c.remove(ScheduleState::AwaitingApproval, "P").is_ok());
    assert!(c.list(ScheduleState::AwaitingApproval).is_empty());
}

#[test]
fn listing_is_ordered_by_start() {
    let mut c = Catalog::new();
    c.submit("late".to_string(), at("2026-01-12T12:00:00Z"), at("2026-01-12T13:00:00Z"), ApprovalMode::Auto).unwrap();
    c.submit("early".to_string(), at("2026-01-12T08:00:00Z"), at("2026-01-12T09:00:00Z"), ApprovalMode::Auto).unwrap();
    c.submit("mid".to_string(), at("2026-01-12T10:00:00Z"), at("2026-01-12T11:00:00Z"), ApprovalMode::Auto).unwrap();
    assert_eq!(ids(&c.list(ScheduleState::Active)), vec!["early".to_string(), "mid".to_string(), "late".to_string()]);
    assert!(check_overlap(&c.active, at("2026-01-12T10:30:00Z"), at("2026-01-12T10:40:00Z")));
    assert!(!check_overlap(&c.active, at("2026-01-12T09:00:00Z"), at("2026-01-12T10:00:00Z")));
}

#[test]
fn approval_policy_maps_modes() {
    assert_eq!(evaluate_approval(ApprovalMode::Auto), ApprovalResult::Approved);
    assert_eq!(evaluate_approval(ApprovalMode::Manual), ApprovalResult::Pending);
    assert!(ApprovalResult::Approved.is_approved());
    assert!(!ApprovalResult::Pending.is_approved());
}

#[test]
fn ids_start_with_the_compact_start_time() {
    let start = at("2026-01-12T10:00:00Z");
    assert_eq!(compose_id(start, "tag").unwrap(), "20260112T100000Z_tag");
    let id = generate_id(start).unwrap();
    assert!(id.starts_with("20260112T100000Z_"));
    assert_eq!(id.len(), "20260112T100000Z_".len() + 36);
    let before_epoch = Instant { unix_nanos: -1 };
    assert_eq!(compose_id(before_epoch, "x").unwrap(), "19691231T235959Z_x");
}

#[test]
fn storage_paths_follow_the_layout() {
    let s = Storage::new("/srv/schedules".to_string());
    assert_eq!(s.state_path(ScheduleState::Active), "/srv/schedules/Active");
    assert_eq!(s.schedule_path(ScheduleState::AwaitingApproval, "x1"), "/srv/schedules/AwaitingApproval/x1.yaml");
    assert_eq!(ScheduleState::AwaitingApproval.folder_name(), "AwaitingApproval");
}

#[test]
fn instants_beyond_the_calendar_have_no_id() {
    assert!(compose_id(Instant { unix_nanos: i128::MAX }, "x").is_none());
    assert!(generate_id(Instant { unix_nanos: i128::MIN }).is_none());
}

#[test]
fn listed_entries_carry_the_state_asked_for() {
    let mut c = Catalog::new();
    c.submit("A".to_string(), at("2026-01-12T08:00:00Z"), at("2026-01-12T09:00:00Z"), ApprovalMode::Auto).unwrap();
    c.submit("P".to_string(), at("2026-01-12T10:00:00Z"), at("2026-01-12T11:00:00Z"), ApprovalMode::Manual).unwrap();
    assert!(c.list(ScheduleState::Active).iter().all(|e| e.state == ScheduleState::Active));
    assert!(c.list(ScheduleState::AwaitingApproval).iter().all(|e| e.state == ScheduleState::AwaitingApproval));
    assert!(matches!(c.remove(ScheduleState::Active, "gone"), Err(StorageError::NotFound(id)) if id == "gone"));
}

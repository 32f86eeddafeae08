use satomat::scheduler::storage::{ScheduleEntry, ScheduleState, StorageError};
use satomat::time::parse_instant;
use satomat::web::api::error::{api_error_of, ApiError, ErrorResponse};
use satomat::web::api::schedules::{select_in_window, ScheduleResponse};
use satomat::web::auth::{authenticate, require_permission, AuthError, AuthenticatedUser, PermissionError};
use satomat::web::config::{default_bind, find_api_key, ApiKey, Permission};

fn keys() -> Vec<ApiKey> {
    vec![
        ApiKey { key: "k1".to_string(), name: "ops".to_string(), permissions: vec![Permission::SubmitSchedule, Permission::ListSchedules] },
        ApiKey { key: "k2".to_string(), name: "boss".to_string(), permissions: vec![Permission::ApproveSchedule] },
    ]
}

fn entry(id: &str, start: &str, end: &str, state: ScheduleState) -> ScheduleEntry {
    ScheduleEntry { id: id.to_string(), state, start: parse_instant(start).unwrap(), end: parse_instant(end).unwrap() }
}

#[test]
fn bearer_keys_identify_users() {
    let ks = keys();
    assert_eq!(authenticate(None, &ks), Err(AuthError::MissingAuth));
    assert_eq!(authenticate(Some("Basic k1"), &ks), Err(AuthError::InvalidFormat));
    assert_eq!(authenticate(Some("Bearer nope"), &ks), Err(AuthError::InvalidKey));
    let u = authenticate(Some("Bearer k2"), &ks).unwrap();
    assert_eq!(u.name, "boss");
    assert!(u.has_permission(Permission::ApproveSchedule));
    assert!(!u.has_permission(Permission::SubmitSchedule));
    assert_eq!(find_api_key(&ks, "k1").map(|k| k.name.clone()), Some("ops".to_string()));
}

#[test]
fn permissions_are_required() {
    let u = AuthenticatedUser { name: "ops".to_string(), permissions: vec![Permission::ListSchedules] };
    assert_eq!(require_permission(&u, Permission::ListSchedules), Ok(()));
    assert_eq!(require_permission(&u, Permission::ApproveSchedule), Err(PermissionError));
}

#[test]
fn error_bodies_and_statuses() {
    let e = ErrorResponse::new("schedule_not_found");
    assert_eq!(e.error, "schedule_not_found");
    assert_eq!(e.message, None);
    let m = ErrorResponse::with_message("validation_failed", "bad");
    assert_eq!(m.message.as_deref(), Some("bad"));
    assert_eq!(api_error_of(StorageError::NotFound("x".to_string())).status_code(), 404);
    assert_eq!(api_error_of(StorageError::Overlap).status_code(), 500);
    assert_eq!(ApiError::Conflict("schedule_overlap".to_string()).status_code(), 409);
    assert_eq!(ApiError::Validation("v".to_string()).status_code(), 400);
    assert_eq!(default_bind(), "0.0.0.0:8080");
}

#[test]
fn responses_print_times_and_status() {
    let r = ScheduleResponse::from_entry(entry("a", "2026-01-12T10:00:00Z", "2026-01-12T10:10:00Z", ScheduleState::AwaitingApproval)).unwrap();
    assert_eq!(r.status, "pending");
    assert_eq!(r.start, "2026-01-12T10:00:00+00:00");
    assert_eq!(r.end, "2026-01-12T10:10:00+00:00");
}

#[test]
fn listing_window_keeps_meeting_schedules() {
    let es = vec![
        entry("a", "2026-01-12T08:00:00Z", "2026-01-12T09:00:00Z", ScheduleState::Active),
        entry("b", "2026-01-12T10:00:00Z", "2026-01-12T11:00:00Z", ScheduleState::Active),
        entry("c", "2026-01-12T12:00:00Z", "2026-01-12T13:00:00Z", ScheduleState::Active),
    ];
    let from = parse_instant("2026-01-12T09:00:00Z");
    let to = parse_instant("2026-01-12T12:00:00Z");
    let picked: Vec<String> = select_in_window(es, from, to).into_iter().map(|e| e.id).collect();
    assert_eq!(picked, vec!["b".to_string()]);
}

//! Response bodies about schedules, and which stored schedules a listing shows.
use vstd::prelude::*;

use crate::scheduler::storage::{ScheduleEntry, ScheduleState};
use crate::time::{format_rfc3339, rfc3339_form, Instant};

verus! {

#[derive(Debug, Clone, PartialEq)]
pub struct ScheduleResponse {
    pub id: String,
    pub status: String,
    pub start: String,
    pub end: String,
}

/// The status word shown for a state.
pub open spec fn status_word(state: ScheduleState) -> Seq<char> {
    match state {
        ScheduleState::Active => "approved"@,
        ScheduleState::AwaitingApproval => "pending"@,
    }
}

impl ScheduleResponse {
    /// The response describing a stored schedule; `None` when its times cannot be printed.
    pub fn from_entry(entry: ScheduleEntry) -> (r: Option<ScheduleResponse>)
        ensures
            match r {
                Some(s) => s.id == entry.id && s.status@ == status_word(entry.state) && rfc3339_form(entry.start)
                    == Some(s.start@) && rfc3339_form(entry.end) == Some(s.end@),
                None => rfc3339_form(entry.start) is None || rfc3339_form(entry.end) is None,
            },
    {
        let status = match entry.state {
            ScheduleState::Active => String::from_str("approved"),
            ScheduleState::AwaitingApproval => String::from_str("pending"),
        };
        let start = match format_rfc3339(entry.start) {
            Some(s) => s,
            None => return None,
        };
        let end = match format_rfc3339(entry.end) {
            Some(s) => s,
            None => return None,
        };
        Some(ScheduleResponse { id: entry.id, status, start, end })
    }
}

#[derive(Debug, Clone, PartialEq)]
pub struct SubmitScheduleResponse {
    pub schedule: ScheduleResponse,
    pub approval_status: String,
}

#[derive(Debug, Clone, PartialEq)]
pub struct ScheduleVariable {
    pub name: String,
    pub value: String,
}

#[derive(Debug, Clone, PartialEq)]
pub struct ScheduleValidationResponse {
    pub valid: bool,
    pub errors: Vec<String>,
    pub start: Option<String>,
    pub end: Option<String>,
    pub variables: Vec<ScheduleVariable>,
}

#[derive(Debug, Clone, PartialEq)]
pub struct ScheduleDetailResponse {
    pub schedule: ScheduleResponse,
    pub content: String,
    pub variables: Vec<ScheduleVariable>,
}

/// Whether a schedule is shown for a listing limited to `[from, to)`: it must end after
/// `from` and start before `to`.
pub open spec fn in_window(e: ScheduleEntry, from: Option<Instant>, to: Option<Instant>) -> bool {
    (from matches Some(f) ==> e.end.unix_nanos > f.unix_nanos) && (to matches Some(t) ==> e.start.unix_nanos
        < t.unix_nanos)
}

/// The schedules a listing limited to `[from, to)` shows, in their order.
pub open spec fn window_of(s: Seq<ScheduleEntry>, from: Option<Instant>, to: Option<Instant>) -> Seq<ScheduleEntry>
    decreases s.len(),
{
    if s.len() == 0 {
        Seq::empty()
    } else if in_window(s.last(), from, to) {
        window_of(s.drop_last(), from, to).push(s.last())
    } else {
        window_of(s.drop_last(), from, to)
    }
}

pub fn select_in_window(entries: Vec<ScheduleEntry>, from: Option<Instant>, to: Option<Instant>) -> (r: Vec<ScheduleEntry>)
    ensures
        r@ == window_of(entries@, from, to),
{
    let mut out: Vec<ScheduleEntry> = Vec::new();
    let mut rest = entries;
    let ghost all = rest@;
    let mut taken: Vec<ScheduleEntry> = Vec::new();
    while rest.len() > 0
        invariant
            all == taken@ + rest@,
            out@ == window_of(taken@, from, to),
        decreases rest@.len(),
    {
        let e = rest.remove(0);
        let keep = match from {
            Some(f) => e.end.unix_nanos > f.unix_nanos,
            None => true,
        } && match to {
            Some(t) => e.start.unix_nanos < t.unix_nanos,
            None => true,
        };
        let ghost before = taken@;
        let ghost ev = e;
        if keep {
            out.push(crate::scheduler::storage::copy_entry(&e));
        }
        taken.push(e);
        assert(taken@.drop_last() =~= before);
        assert(taken@.last() == ev);
    }
    assert(taken@ + rest@ =~= taken@);
    out
}

} // verus!

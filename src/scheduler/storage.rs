//! The schedule store: entries by approval state, overlap detection and the approval
//! state machine. Reading and writing the files is left to the caller; this module decides.
use vstd::prelude::*;

use crate::scheduler::approval::{approval_of, evaluate_approval, ApprovalMode, ApprovalResult};
use crate::scheduler::parser::ParseError;
use crate::text::push_text;
use crate::time::{compact_form, format_compact, Instant};

verus! {

broadcast use vstd::seq_lib::group_to_multiset_ensures;

#[derive(Debug, Clone, Copy, PartialEq, Eq, Structural)]
pub enum ScheduleState {
    Active,
    AwaitingApproval,
}

/// The folder a state's files live in.
pub open spec fn folder_of(state: ScheduleState) -> Seq<char> {
    match state {
        ScheduleState::Active => "Active"@,
        ScheduleState::AwaitingApproval => "AwaitingApproval"@,
    }
}

impl ScheduleState {
    pub fn folder_name(&self) -> (r: &'static str)
        ensures
            r@ == folder_of(*self),
    {
        match self {
            ScheduleState::Active => "Active",
            ScheduleState::AwaitingApproval => "AwaitingApproval",
        }
    }
}

/// A stored schedule: its id, state and interval `[start, end)`.
#[derive(Debug, Clone, PartialEq)]
pub struct ScheduleEntry {
    pub id: String,
    pub state: ScheduleState,
    pub start: Instant,
    pub end: Instant,
}

#[derive(Debug)]
pub enum StorageError {
    Io(String),
    Parse(ParseError),
    NotFound(String),
    Overlap,
}

/// The errors the store's decisions can end in.
pub enum StoreFailure {
    NotFound,
    Overlap,
}

pub open spec fn store_failure_of(e: StorageError) -> Option<StoreFailure> {
    match e {
        StorageError::NotFound(_) => Some(StoreFailure::NotFound),
        StorageError::Overlap => Some(StoreFailure::Overlap),
        _ => None,
    }
}

/// Where the store keeps its files.
pub struct Storage {
    base: String,
}

impl Storage {
    pub closed spec fn base_dir(&self) -> Seq<char> {
        self.base@
    }

    pub fn new(base: String) -> (r: Storage)
        ensures
            r.base_dir() == base@,
    {
        Storage { base }
    }

    /// `<base>/<folder of state>`.
    pub fn state_path(&self, state: ScheduleState) -> (r: String)
        ensures
            r@ == self.base_dir() + "/"@ + folder_of(state),
    {
        let mut p = self.base.clone();
        push_text(&mut p, "/");
        push_text(&mut p, state.folder_name());
        p
    }

    /// `<base>/<folder of state>/<id>.yaml`.
    pub fn schedule_path(&self, state: ScheduleState, id: &str) -> (r: String)
        ensures
            r@ == self.base_dir() + "/"@ + folder_of(state) + "/"@ + id@ + ".yaml"@,
    {
        let mut p = self.state_path(state);
        push_text(&mut p, "/");
        push_text(&mut p, id);
        push_text(&mut p, ".yaml");
        p
    }
}

/// Whether the half-open intervals `[a_start, a_end)` and `[b_start, b_end)` meet.
pub open spec fn overlaps(a_start: Instant, a_end: Instant, b_start: Instant, b_end: Instant) -> bool {
    a_start.unix_nanos < b_end.unix_nanos && b_start.unix_nanos < a_end.unix_nanos
}

pub fn intervals_overlap(a_start: Instant, a_end: Instant, b_start: Instant, b_end: Instant) -> (r: bool)
    ensures
        r == overlaps(a_start, a_end, b_start, b_end),
{
    a_start.unix_nanos < b_end.unix_nanos && b_start.unix_nanos < a_end.unix_nanos
}

/// Whether `[start, end)` meets the interval of any of the entries.
pub open spec fn overlaps_any(entries: Seq<ScheduleEntry>, start: Instant, end: Instant) -> bool {
    exists|i: int| 0 <= i < entries.len() && overlaps(start, end, #[trigger] entries[i].start, entries[i].end)
}

/// Whether `[start, end)` meets the interval of any of `active`.
pub fn check_overlap(active: &Vec<ScheduleEntry>, start: Instant, end: Instant) -> (r: bool)
    ensures
        r == overlaps_any(active@, start, end),
{
    let mut i: usize = 0;
    while i < active.len()
        invariant
            i <= active@.len(),
            forall|k: int| 0 <= k < i ==> !overlaps(start, end, #[trigger] active@[k].start, active@[k].end),
        decreases active@.len() - i,
    {
        if intervals_overlap(start, end, active[i].start, active[i].end) {
            return true;
        }
        i += 1;
    }
    false
}

/// Whether no two of the entries have meeting intervals.
pub open spec fn pairwise_disjoint(entries: Seq<ScheduleEntry>) -> bool {
    forall|i: int, j: int|
        0 <= i < entries.len() && 0 <= j < entries.len() && i != j ==> !overlaps(
            #[trigger] entries[i].start,
            entries[i].end,
            #[trigger] entries[j].start,
            entries[j].end,
        )
}

/// The position of the first entry with the given id, looking from `i` on.
pub open spec fn find_id_from(s: Seq<ScheduleEntry>, id: Seq<char>, i: int) -> Option<int>
    decreases s.len() - i,
{
    if i < 0 || i >= s.len() {
        None
    } else if s[i].id@ == id {
        Some(i)
    } else {
        find_id_from(s, id, i + 1)
    }
}

pub open spec fn find_id(s: Seq<ScheduleEntry>, id: Seq<char>) -> Option<int> {
    find_id_from(s, id, 0)
}

proof fn lemma_find_id_range(s: Seq<ScheduleEntry>, id: Seq<char>, i: int)
    ensures
        find_id_from(s, id, i) matches Some(k) ==> i <= k < s.len() && s[k].id@ == id,
    decreases s.len() - i,
{
    if 0 <= i < s.len() && s[i].id@ != id {
        lemma_find_id_range(s, id, i + 1);
    }
}

fn position_of(s: &Vec<ScheduleEntry>, id: &str) -> (r: Option<usize>)
    ensures
        match r {
            Some(k) => find_id(s@, id@) == Some(k as int) && k < s@.len(),
            None => find_id(s@, id@) is None,
        },
{
    let mut i: usize = 0;
    while i < s.len()
        invariant
            i <= s@.len(),
            find_id(s@, id@) == find_id_from(s@, id@, i as int),
        decreases s@.len() - i,
    {
        if crate::text::same_text(s[i].id.as_str(), id) {
            return Some(i);
        }
        i += 1;
    }
    None
}

/// The entries of the store, by state.
pub struct Catalog {
    pub active: Vec<ScheduleEntry>,
    pub awaiting: Vec<ScheduleEntry>,
}

pub struct CatalogView {
    pub active: Seq<ScheduleEntry>,
    pub awaiting: Seq<ScheduleEntry>,
}

impl View for Catalog {
    type V = CatalogView;

    open spec fn view(&self) -> CatalogView {
        CatalogView { active: self.active@, awaiting: self.awaiting@ }
    }
}

pub open spec fn entries_in(c: CatalogView, state: ScheduleState) -> Seq<ScheduleEntry> {
    match state {
        ScheduleState::Active => c.active,
        ScheduleState::AwaitingApproval => c.awaiting,
    }
}

/// The state a submission goes to under the approval policy.
pub open spec fn target_state(mode: ApprovalMode) -> ScheduleState {
    match approval_of(mode) {
        ApprovalResult::Approved => ScheduleState::Active,
        ApprovalResult::Pending => ScheduleState::AwaitingApproval,
    }
}

/// Submitting `[start, end)` under `id`: refused when it meets an active interval, otherwise
/// filed as active or awaiting approval by the policy.
pub open spec fn submit_spec(c: CatalogView, id: String, start: Instant, end: Instant, mode: ApprovalMode) -> (
    CatalogView,
    Result<(ScheduleEntry, ApprovalResult), StoreFailure>,
) {
    if overlaps_any(c.active, start, end) {
        (c, Err(StoreFailure::Overlap))
    } else {
        let e = ScheduleEntry { id, state: target_state(mode), start, end };
        let c2 = match target_state(mode) {
            ScheduleState::Active => CatalogView { active: c.active.push(e), awaiting: c.awaiting },
            ScheduleState::AwaitingApproval => CatalogView { active: c.active, awaiting: c.awaiting.push(e) },
        };
        (c2, Ok((e, approval_of(mode))))
    }
}

/// Approving the pending schedule `id`: refused when it is not pending or when it meets an
/// active interval, otherwise moved to the active entries.
pub open spec fn approve_spec(c: CatalogView, id: Seq<char>) -> (CatalogView, Result<ScheduleEntry, StoreFailure>) {
    match find_id(c.awaiting, id) {
        None => (c, Err(StoreFailure::NotFound)),
        Some(k) => {
            let e = c.awaiting[k];
            if overlaps_any(c.active, e.start, e.end) {
                (c, Err(StoreFailure::Overlap))
            } else {
                let a = ScheduleEntry { id: e.id, state: ScheduleState::Active, start: e.start, end: e.end };
                (CatalogView { active: c.active.push(a), awaiting: c.awaiting.remove(k) }, Ok(a))
            }
        },
    }
}

/// Removing the schedule `id` from `state` (deleting, or rejecting a pending one).
pub open spec fn remove_spec(c: CatalogView, state: ScheduleState, id: Seq<char>) -> (CatalogView, Option<StoreFailure>) {
    match find_id(entries_in(c, state), id) {
        None => (c, Some(StoreFailure::NotFound)),
        Some(k) => match state {
            ScheduleState::Active => (CatalogView { active: c.active.remove(k), awaiting: c.awaiting }, None),
            ScheduleState::AwaitingApproval => (CatalogView { active: c.active, awaiting: c.awaiting.remove(k) }, None),
        },
    }
}

/// Whether the entries are ordered by start (entries with equal starts in any order).
pub open spec fn sorted_by_start(out: Seq<ScheduleEntry>) -> bool {
    forall|i: int, j: int| 0 <= i < j < out.len() ==> (#[trigger] out[i]).start.unix_nanos <= (#[trigger] out[j]).start.unix_nanos
}

pub fn copy_entry(e: &ScheduleEntry) -> (r: ScheduleEntry)
    ensures
        r == *e,
{
    ScheduleEntry { id: e.id.clone(), state: e.state, start: e.start, end: e.end }
}

/// The entries ordered by start.
pub fn sort_by_start(s: &Vec<ScheduleEntry>) -> (r: Vec<ScheduleEntry>)
    ensures
        sorted_by_start(r@),
        r@.to_multiset() == s@.to_multiset(),
{
    let mut out: Vec<ScheduleEntry> = Vec::new();
    let mut i: usize = 0;
    assert(s@.subrange(0, 0) =~= Seq::<ScheduleEntry>::empty());
    while i < s.len()
        invariant
            i <= s@.len(),
            sorted_by_start(out@),
            out@.to_multiset() == s@.subrange(0, i as int).to_multiset(),
        decreases s@.len() - i,
    {
        let e = copy_entry(&s[i]);
        let mut p: usize = out.len();
        while p > 0 && out[p - 1].start.unix_nanos > e.start.unix_nanos
            invariant
                p <= out@.len(),
                forall|k: int| p <= k < out@.len() ==> (#[trigger] out@[k]).start.unix_nanos > e.start.unix_nanos,
            decreases p,
        {
            p -= 1;
        }
        let ghost before = out@;
        out.insert(p, e);
        proof {
            assert(s@.subrange(0, i + 1) =~= s@.subrange(0, i as int).push(s@[i as int]));
            assert forall|a: int, b: int| 0 <= a < b < out@.len() implies (#[trigger] out@[a]).start.unix_nanos
                <= (#[trigger] out@[b]).start.unix_nanos by {
                if b < p {
                } else if b == p {
                    if a < p - 1 {
                        assert(before[a].start.unix_nanos <= before[p - 1].start.unix_nanos);
                    }
                } else if a == p {
                } else if a < p {
                    if p > 0 && a < p {
                        assert(before[a].start.unix_nanos <= before[b - 1].start.unix_nanos);
                    }
                } else {
                }
            }
        }
        i += 1;
    }
    assert(s@.subrange(0, s@.len() as int) =~= s@);
    out
}

/// Whether every entry is filed under its own state.
pub open spec fn states_match(c: CatalogView) -> bool {
    &&& forall|i: int| 0 <= i < c.active.len() ==> (#[trigger] c.active[i]).state == ScheduleState::Active
    &&& forall|i: int| 0 <= i < c.awaiting.len() ==> (#[trigger] c.awaiting[i]).state
        == ScheduleState::AwaitingApproval
}

impl Catalog {
    pub open spec fn wf(&self) -> bool {
        states_match(self@)
    }

    pub fn new() -> (r: Catalog)
        ensures
            r.wf(),
            r@.active == Seq::<ScheduleEntry>::empty(),
            r@.awaiting == Seq::<ScheduleEntry>::empty(),
    {
        Catalog { active: Vec::new(), awaiting: Vec::new() }
    }

    /// Files an entry read back from the store, in its own state.
    pub fn load(&mut self, e: ScheduleEntry)
        requires
            old(self).wf(),
        ensures
            final(self).wf(),
            final(self)@ == match e.state {
                ScheduleState::Active => CatalogView { active: old(self)@.active.push(e), awaiting: old(self)@.awaiting },
                ScheduleState::AwaitingApproval => CatalogView { active: old(self)@.active, awaiting: old(self)@.awaiting.push(e) },
            },
    {
        match e.state {
            ScheduleState::Active => self.active.push(e),
            ScheduleState::AwaitingApproval => self.awaiting.push(e),
        }
    }

    /// The entries in `state`, ordered by start.
    pub fn list(&self, state: ScheduleState) -> (r: Vec<ScheduleEntry>)
        requires
            self.wf(),
        ensures
            sorted_by_start(r@),
            r@.to_multiset() == entries_in(self@, state).to_multiset(),
            forall|i: int| 0 <= i < r@.len() ==> (#[trigger] r@[i]).state == state,
    {
        let r = match state {
            ScheduleState::Active => sort_by_start(&self.active),
            ScheduleState::AwaitingApproval => sort_by_start(&self.awaiting),
        };
        proof {
            let src = entries_in(self@, state);
            assert forall|i: int| 0 <= i < r@.len() implies (#[trigger] r@[i]).state == state by {
                assert(r@.contains(r@[i]));
                assert(r@.to_multiset().count(r@[i]) > 0);
                assert(src.to_multiset().count(r@[i]) > 0);
                assert(src.contains(r@[i]));
            }
        }
        r
    }

    /// Submits the schedule `[start, end)` under `id`.
    pub fn submit(&mut self, id: String, start: Instant, end: Instant, mode: ApprovalMode) -> (r: Result<(ScheduleEntry, ApprovalResult), StorageError>)
        requires
            old(self).wf(),
        ensures
            final(self).wf(),
            final(self)@ == submit_spec(old(self)@, id, start, end, mode).0,
            match r {
                Ok(p) => submit_spec(old(self)@, id, start, end, mode).1 == Ok::<(ScheduleEntry, ApprovalResult), StoreFailure>(p),
                Err(e) => Some(submit_spec(old(self)@, id, start, end, mode).1->Err_0) == store_failure_of(e) && submit_spec(old(self)@, id, start, end, mode).1 is Err,
            },
    {
        if check_overlap(&self.active, start, end) {
            return Err(StorageError::Overlap);
        }
        let approval = evaluate_approval(mode);
        let state = if approval.is_approved() {
            ScheduleState::Active
        } else {
            ScheduleState::AwaitingApproval
        };
        let stored = ScheduleEntry { id: id.clone(), state, start, end };
        let entry = ScheduleEntry { id, state, start, end };
        match state {
            ScheduleState::Active => self.active.push(stored),
            ScheduleState::AwaitingApproval => self.awaiting.push(stored),
        }
        Ok((entry, approval))
    }

    /// Approves the pending schedule `id`.
    pub fn approve(&mut self, id: &str) -> (r: Result<ScheduleEntry, StorageError>)
        requires
            old(self).wf(),
        ensures
            final(self).wf(),
            final(self)@ == approve_spec(old(self)@, id@).0,
            match r {
                Ok(e) => approve_spec(old(self)@, id@).1 == Ok::<ScheduleEntry, StoreFailure>(e),
                Err(e) => Some(approve_spec(old(self)@, id@).1->Err_0) == store_failure_of(e) && approve_spec(old(self)@, id@).1 is Err,
            },
            r matches Err(StorageError::NotFound(x)) ==> x@ == id@,
    {
        let k = match position_of(&self.awaiting, id) {
            Some(k) => k,
            None => return Err(StorageError::NotFound(String::from_str(id))),
        };
        if check_overlap(&self.active, self.awaiting[k].start, self.awaiting[k].end) {
            return Err(StorageError::Overlap);
        }
        let e = self.awaiting.remove(k);
        let stored = ScheduleEntry { id: e.id.clone(), state: ScheduleState::Active, start: e.start, end: e.end };
        let entry = ScheduleEntry { id: e.id, state: ScheduleState::Active, start: e.start, end: e.end };
        self.active.push(stored);
        Ok(entry)
    }

    /// Removes the schedule `id` from `state`.
    pub fn remove(&mut self, state: ScheduleState, id: &str) -> (r: Result<(), StorageError>)
        requires
            old(self).wf(),
        ensures
            final(self).wf(),
            final(self)@ == remove_spec(old(self)@, state, id@).0,
            match r {
                Ok(()) => remove_spec(old(self)@, state, id@).1 is None,
                Err(e) => remove_spec(old(self)@, state, id@).1 == store_failure_of(e) && remove_spec(old(self)@, state, id@).1 is Some,
            },
            r matches Err(StorageError::NotFound(x)) ==> x@ == id@,
    {
        match state {
            ScheduleState::Active => match position_of(&self.active, id) {
                Some(k) => {
                    self.active.remove(k);
                    Ok(())
                },
                None => Err(StorageError::NotFound(String::from_str(id))),
            },
            ScheduleState::AwaitingApproval => match position_of(&self.awaiting, id) {
                Some(k) => {
                    self.awaiting.remove(k);
                    Ok(())
                },
                None => Err(StorageError::NotFound(String::from_str(id))),
            },
        }
    }
}

/// The id a schedule is stored under: its start as `YYYYMMDDTHHMMSSZ`, `_`, and a unique tag.
pub open spec fn id_for(stamp: Seq<char>, tag: Seq<char>) -> Seq<char> {
    stamp + "_"@ + tag
}

pub open spec fn is_lower_hex(c: char) -> bool {
    ('0' <= c && c <= '9') || ('a' <= c && c <= 'f')
}

/// A version 4 UUID in its lowercase hyphenated form: 36 characters, hyphens at 8, 13, 18
/// and 23, the version digit `4` at 14, a variant digit of `8`, `9`, `a` or `b` at 19, and
/// lowercase hexadecimal digits elsewhere.
pub open spec fn uuid_v4_text(t: Seq<char>) -> bool {
    &&& t.len() == 36
    &&& t[8] == '-' && t[13] == '-' && t[18] == '-' && t[23] == '-'
    &&& t[14] == '4'
    &&& (t[19] == '8' || t[19] == '9' || t[19] == 'a' || t[19] == 'b')
    &&& forall|i: int| 0 <= i < 36 && i != 8 && i != 13 && i != 18 && i != 23 ==> is_lower_hex(#[trigger] t[i])
}

/// Relies on `uuid::Uuid::new_v4` (random bits with the version and variant bits set) printed
/// by `Display`, which is the lowercase hyphenated form.
#[verifier::external_body]
fn random_uuid() -> (r: String)
    ensures
        uuid_v4_text(r@),
{
    uuid::Uuid::new_v4().to_string()
}

/// The id for a schedule starting at `start` with the tag `tag`.
pub fn compose_id(start: Instant, tag: &str) -> (r: Option<String>)
    ensures
        match r {
            Some(s) => compact_form(start) matches Some(stamp) && s@ == id_for(stamp, tag@),
            None => compact_form(start) is None,
        },
{
    match format_compact(start) {
        Some(mut s) => {
            push_text(&mut s, "_");
            push_text(&mut s, tag);
            Some(s)
        },
        None => None,
    }
}

/// A fresh id for a schedule starting at `start`.
pub fn generate_id(start: Instant) -> (r: Option<String>)
    ensures
        match r {
            Some(s) => compact_form(start) matches Some(stamp) && exists|tag: Seq<char>| uuid_v4_text(tag) && s@ == id_for(stamp, tag),
            None => compact_form(start) is None,
        },
{
    let tag = random_uuid();
    compose_id(start, tag.as_str())
}

/// Submitting a schedule keeps the active entries pairwise disjoint.
pub proof fn law_submit_keeps_active_disjoint(
    c: CatalogView,
    id: String,
    start: Instant,
    end: Instant,
    mode: ApprovalMode,
)
    requires
        pairwise_disjoint(c.active),
    ensures
        pairwise_disjoint(submit_spec(c, id, start, end, mode).0.active),
{
    let a = submit_spec(c, id, start, end, mode).0.active;
    if !overlaps_any(c.active, start, end) && target_state(mode) == ScheduleState::Active {
        let n = c.active.len();
        assert forall|i: int, j: int|
            0 <= i < a.len() && 0 <= j < a.len() && i != j implies !overlaps(
                #[trigger] a[i].start,
                a[i].end,
                #[trigger] a[j].start,
                a[j].end,
            ) by {
            if i == n {
                assert(!overlaps(start, end, c.active[j].start, c.active[j].end));
            } else if j == n {
                assert(!overlaps(start, end, c.active[i].start, c.active[i].end));
            }
        }
    }
}

/// Approving a pending schedule keeps the active entries pairwise disjoint.
pub proof fn law_approve_keeps_active_disjoint(c: CatalogView, id: Seq<char>)
    requires
        pairwise_disjoint(c.active),
    ensures
        pairwise_disjoint(approve_spec(c, id).0.active),
{
    let a = approve_spec(c, id).0.active;
    match find_id(c.awaiting, id) {
        None => {},
        Some(k) => {
            lemma_find_id_range(c.awaiting, id, 0);
            let e = c.awaiting[k];
            if !overlaps_any(c.active, e.start, e.end) {
                let n = c.active.len();
                assert forall|i: int, j: int|
                    0 <= i < a.len() && 0 <= j < a.len() && i != j implies !overlaps(
                        #[trigger] a[i].start,
                        a[i].end,
                        #[trigger] a[j].start,
                        a[j].end,
                    ) by {
                    if i == n {
                        assert(!overlaps(e.start, e.end, c.active[j].start, c.active[j].end));
                    } else if j == n {
                        assert(!overlaps(e.start, e.end, c.active[i].start, c.active[i].end));
                    }
                }
            }
        },
    }
}

/// Approving a pending schedule and then listing the active ones gives exactly the entries
/// that were active before, plus the approved one.
pub proof fn law_approve_then_list(c: CatalogView, id: Seq<char>, listed: Seq<ScheduleEntry>)
    requires
        approve_spec(c, id).1 is Ok,
        listed.to_multiset() == entries_in(approve_spec(c, id).0, ScheduleState::Active).to_multiset(),
    ensures
        listed.to_multiset() == c.active.to_multiset().insert(approve_spec(c, id).1->Ok_0),
{
}

/// Intervals that only touch do not overlap: beside an active `[a, b)`, a schedule `[b, c)`
/// is accepted.
pub proof fn law_touching_intervals_coexist(
    first: ScheduleEntry,
    id: String,
    end: Instant,
    mode: ApprovalMode,
)
    requires
        first.start.unix_nanos < first.end.unix_nanos < end.unix_nanos,
    ensures
        !overlaps(first.start, first.end, first.end, end),
        submit_spec(
            CatalogView { active: seq![first], awaiting: Seq::empty() },
            id,
            first.end,
            end,
            mode,
        ).1 is Ok,
{
    let act = seq![first];
    assert(!overlaps_any(act, first.end, end)) by {
        assert forall|i: int| 0 <= i < act.len() implies !overlaps(first.end, end, #[trigger] act[i].start, act[i].end) by {
            assert(act[i] == first);
        }
    }
}

} // verus!

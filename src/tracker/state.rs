//! The tracker's observable status and how commands and its worker change it. Samples are
//! produced outside this library, so the status is generic in their type.
use vstd::prelude::*;

use crate::time::Instant;
use crate::tracker::error::TrackerError;
use crate::tracker::parsing::{parse_tle_lines, text_lines};

verus! {

#[derive(Debug, Clone, PartialEq)]
pub enum TrackerMode {
    Idle,
    Running { start: Instant, end: Option<Instant>, tle_name: Option<String> },
}

/// What readers of the tracker see.
#[derive(Debug)]
pub struct TrackerStatus<S> {
    pub mode: TrackerMode,
    pub last_sample: Option<S>,
    pub trajectory: Vec<S>,
}

/// The status as a value: mode, last sample and trajectory.
pub struct StatusView<S> {
    pub mode: TrackerMode,
    pub last_sample: Option<S>,
    pub trajectory: Seq<S>,
}

impl<S> View for TrackerStatus<S> {
    type V = StatusView<S>;

    open spec fn view(&self) -> StatusView<S> {
        StatusView { mode: self.mode, last_sample: self.last_sample, trajectory: self.trajectory@ }
    }
}

/// The idle status: no sample and no trajectory.
pub open spec fn idle_view<S>() -> StatusView<S> {
    StatusView { mode: TrackerMode::Idle, last_sample: None, trajectory: Seq::empty() }
}

/// The tracker's status together with whether a worker is running.
pub struct TrackerState<S> {
    pub status: TrackerStatus<S>,
    pub worker: bool,
    /// When the last published sample was taken, during the current run.
    pub last_published: Option<Instant>,
}

impl<S> TrackerState<S> {
    /// A worker runs exactly while the mode is `Running`; an idle tracker shows no sample
    /// and no trajectory.
    pub open spec fn wf(&self) -> bool {
        &&& self.worker == (self.status.mode is Running)
        &&& self.status.mode is Idle ==> self.status@ == idle_view::<S>()
    }

    pub fn new() -> (r: TrackerState<S>)
        ensures
            r.wf(),
            r.status@ == idle_view::<S>(),
    {
        let r = TrackerState {
            status: TrackerStatus { mode: TrackerMode::Idle, last_sample: None, trajectory: Vec::new() },
            worker: false,
            last_published: None,
        };
        assert(r.status@ =~= idle_view::<S>());
        r
    }

    /// Starts tracking the element set `tle` at `now` until `end` (open-ended when absent).
    /// Refused while a worker runs, and for a TLE without two or three non-blank lines; in
    /// both cases nothing changes. On success, hands back the TLE's name and element lines.
    pub fn begin_run(&mut self, tle: &str, now: Instant, end: Option<Instant>) -> (r: Result<
        (Option<String>, String, String),
        TrackerError,
    >)
        requires
            old(self).wf(),
        ensures
            final(self).wf(),
            old(self).worker ==> r is Err && r->Err_0 == TrackerError::AlreadyRunning,
            !old(self).worker && (text_lines(tle@).len() == 2 || text_lines(tle@).len() == 3) ==> r is Ok,
            r is Err && r->Err_0 == TrackerError::AlreadyRunning ==> old(self).worker,
            !old(self).worker && text_lines(tle@).len() != 2 && text_lines(tle@).len() != 3 ==> r is Err
                && r->Err_0 == TrackerError::InvalidTleFormat,
            r is Err ==> final(self).status@ == old(self).status@ && final(self).worker == old(self).worker,
            r matches Ok((name, l1, l2)) ==> {
                let ls = text_lines(tle@);
                &&& !old(self).worker
                &&& final(self).status.mode == (TrackerMode::Running { start: now, end, tle_name: None })
                &&& final(self).status.last_sample is None
                &&& final(self).status.trajectory@.len() == 0
                &&& ((ls.len() == 2 && name is None && l1@ == ls[0] && l2@ == ls[1]) || (ls.len() == 3
                    && name is Some && name->Some_0@ == ls[0] && l1@ == ls[1] && l2@ == ls[2]))
            },
    {
        if self.worker {
            return Err(TrackerError::AlreadyRunning);
        }
        let lines = match parse_tle_lines(tle) {
            Ok(l) => l,
            Err(e) => return Err(e),
        };
        self.worker = true;
        self.last_published = None;
        self.status.mode = TrackerMode::Running { start: now, end, tle_name: None };
        Ok(lines)
    }

    /// The worker names the object it tracks.
    pub fn set_target_name(&mut self, name: Option<String>)
        requires
            old(self).wf(),
        ensures
            final(self).wf(),
            final(self).worker == old(self).worker,
            final(self).status.last_sample == old(self).status.last_sample,
            final(self).status.trajectory@ == old(self).status.trajectory@,
            old(self).status.mode matches TrackerMode::Running { start, end, .. } ==> final(self).status.mode
                == (TrackerMode::Running { start, end, tle_name: name }),
            old(self).status.mode is Idle ==> final(self).status.mode is Idle,
    {
        match &self.status.mode {
            TrackerMode::Running { start, end, .. } => {
                let (s, e) = (*start, *end);
                self.status.mode = TrackerMode::Running { start: s, end: e, tle_name: name };
            },
            TrackerMode::Idle => {},
        }
    }

    /// The worker publishes a new trajectory; the last sample is cleared.
    pub fn publish_trajectory(&mut self, trajectory: Vec<S>)
        requires
            old(self).wf(),
        ensures
            final(self).wf(),
            final(self).worker == old(self).worker,
            final(self).status.mode == old(self).status.mode,
            old(self).worker ==> final(self).status.trajectory@ == trajectory@ && final(self).status.last_sample is None,
            !old(self).worker ==> final(self).status@ == old(self).status@,
    {
        if self.worker {
            self.status.trajectory = trajectory;
            self.status.last_sample = None;
        }
    }

    /// The worker publishes the sample taken at `at`, once the clock reads `now`. A sample
    /// from the future, or earlier than the last one published in this run, is not shown, so
    /// the samples readers see never run ahead of the clock nor go back in time.
    pub fn publish_sample(&mut self, sample: S, at: Instant, now: Instant) -> (r: bool)
        requires
            old(self).wf(),
        ensures
            final(self).wf(),
            r == (old(self).worker && at.unix_nanos <= now.unix_nanos && (old(self).last_published matches Some(p)
                ==> p.unix_nanos <= at.unix_nanos)),
            final(self).worker == old(self).worker,
            final(self).status.mode == old(self).status.mode,
            final(self).status.trajectory@ == old(self).status.trajectory@,
            r ==> final(self).status.last_sample == Some(sample) && final(self).last_published == Some(at),
            !r ==> final(self).status@ == old(self).status@ && final(self).last_published == old(self).last_published,
    {
        let in_order = match self.last_published {
            Some(p) => p.unix_nanos <= at.unix_nanos,
            None => true,
        };
        if self.worker && at.unix_nanos <= now.unix_nanos && in_order {
            self.status.last_sample = Some(sample);
            self.last_published = Some(at);
            true
        } else {
            false
        }
    }

    /// Stops tracking: the tracker becomes idle with no sample and no trajectory. Stopping an
    /// idle tracker changes nothing.
    pub fn stop(&mut self)
        requires
            old(self).wf(),
        ensures
            final(self).wf(),
            !final(self).worker,
            final(self).status@ == idle_view::<S>(),
            old(self).status.mode is Idle ==> final(self).status@ == old(self).status@,
    {
        self.worker = false;
        self.last_published = None;
        self.status.mode = TrackerMode::Idle;
        self.status.last_sample = None;
        self.status.trajectory = Vec::new();
        assert(self.status@ =~= idle_view::<S>());
    }

    /// The worker ended, at the end of its window or on an error: the tracker becomes idle.
    pub fn worker_ended(&mut self)
        requires
            old(self).wf(),
        ensures
            final(self).wf(),
            !final(self).worker,
            final(self).status@ == idle_view::<S>(),
    {
        self.stop();
    }

    pub fn status(&self) -> (r: &TrackerStatus<S>)
        ensures
            r@ == self.status@,
    {
        &self.status
    }
}

/// Stopping an idle tracker leaves its observable status as it was.
pub proof fn law_stop_on_idle_is_noop<S>(before: TrackerState<S>, after: TrackerState<S>)
    requires
        before.wf(),
        before.status.mode is Idle,
        after.status@ == idle_view::<S>(),
    ensures
        after.status@ == before.status@,
{
}

} // verus!

//! The runner's decisions: when each step is due, what is recorded for it, and how a run
//! ends. Sleeping, dispatching to the subsystems and listening for abort signals are the
//! caller's part.
use vstd::prelude::*;

use crate::abort::AbortSignal;
use crate::executor::ExecutorError;
use crate::scheduler::artifacts::{failed_with, ExecutionLog, RunState, StepResult};
use crate::scheduler::parser::{command_label, command_name, times_resolvable, Schedule, TimeExpr};
use crate::time::{time_until, wait_nanos, Instant};
use crate::tracker::TrackerError;

verus! {

#[derive(Debug)]
pub enum RunnerError {
    Executor(ExecutorError),
    Tracker(TrackerError),
    Radio(String),
    Aborted { step: usize, reason: String },
    Io(String),
}

/// How long to wait, from `now`, before a step with time `time` in a schedule starting at
/// `start`: nothing for an immediate step or one whose time has passed.
pub open spec fn step_delay(time: Option<TimeExpr>, start: Instant, now: Instant) -> int {
    match time {
        None => 0,
        Some(te) => wait_nanos(Instant { unix_nanos: te.resolved(start) as i128 }, now),
    }
}

/// A run of one schedule.
pub struct Runner {
    pub schedule_id: String,
    pub schedule: Schedule,
    pub log: ExecutionLog,
    /// The next step to run; all before it have run.
    pub next: usize,
}

impl Runner {
    /// One result per executed step, in order, each successful exactly when it has no error.
    pub open spec fn wf(&self) -> bool {
        &&& times_resolvable(self.schedule@)
        &&& self.next <= self.schedule.steps@.len()
        &&& self.log.step_results@.len() == self.next
        &&& forall|k: int|
            0 <= k < self.next ==> (#[trigger] self.log.step_results@[k]).step_index == k && self.log.step_results@[k].success
                == (self.log.step_results@[k].error is None)
        &&& self.log.state != RunState::Failed ==> forall|k: int|
            0 <= k < self.next ==> (#[trigger] self.log.step_results@[k]).success
        &&& self.log.state == RunState::Completed ==> self.next == self.schedule.steps@.len()
    }

    pub fn new(schedule_id: String, schedule: Schedule, now: Instant) -> (r: Runner)
        requires
            times_resolvable(schedule@),
        ensures
            r.wf(),
            r.next == 0,
            r.schedule@ == schedule@,
            r.log.schedule_id == schedule_id,
            r.log.state == RunState::Running,
            r.log.started_at == now,
    {
        let log = ExecutionLog::new(schedule_id.clone(), now);
        Runner { schedule_id, schedule, log, next: 0 }
    }

    /// Whether steps are left to run.
    pub fn has_next(&self) -> (r: bool)
        requires
            self.wf(),
        ensures
            r == (self.next < self.schedule.steps@.len()),
    {
        self.next < self.schedule.steps.len()
    }

    /// How long to wait before the next step; zero for an immediate or overdue step.
    pub fn delay_before_next(&self, now: Instant) -> (r: u128)
        requires
            self.wf(),
            self.next < self.schedule.steps@.len(),
        ensures
            r == step_delay(self.schedule@.steps[self.next as int].time, self.schedule.start, now),
            self.schedule@.steps[self.next as int].time matches Some(te) && te.resolved(self.schedule.start)
                <= now.unix_nanos ==> r == 0,
            self.schedule@.steps[self.next as int].time is None ==> r == 0,
    {
        let step = &self.schedule.steps[self.next];
        assert(self.schedule@.steps[self.next as int] == step@);
        match &step.time {
            None => 0,
            Some(te) => {
                let target = te.resolve(self.schedule.start);
                time_until(target, now)
            },
        }
    }

    /// Records the outcome of the next step, run from `started` to `completed`; `error` is
    /// its failure, if it failed. A failed step ends the run as failed.
    pub fn record_step(&mut self, started: Instant, completed: Instant, error: Option<String>)
        requires
            old(self).wf(),
            old(self).next < old(self).schedule.steps@.len(),
        ensures
            final(self).wf(),
            final(self).next == old(self).next + 1,
            final(self).schedule@ == old(self).schedule@,
            final(self).log.step_results@.len() == old(self).log.step_results@.len() + 1,
            final(self).log.step_results@.drop_last() == old(self).log.step_results@,
            ({
                let r = final(self).log.step_results@.last();
                &&& r.step_index == old(self).next
                &&& r.command_type@ == command_label(old(self).schedule@.steps[old(self).next as int].command)
                &&& r.started_at == started
                &&& r.completed_at == Some(completed)
                &&& r.success == (error is None)
                &&& r.error == error
            }),
            error is None ==> final(self).log.state == old(self).log.state && final(self).log.completed_at
                == old(self).log.completed_at,
            error is Some ==> final(self).log.state == RunState::Failed && final(self).log.completed_at
                == Some(completed),
    {
        let i = self.next;
        let n = self.schedule.steps.len();
        assert(i < n);
        let following = i + 1;
        let name = command_name(&self.schedule.steps[i].command);
        assert(self.schedule@.steps[i as int] == self.schedule.steps@[i as int]@);
        let failed = error.is_some();
        let result = StepResult::new(i, String::from_str(name), started, completed, error);
        let ghost before = self.log.step_results@;
        self.log.add_step_result(result);
        if failed {
            self.log.finish_with_state(RunState::Failed, completed);
        }
        self.next = following;
        assert(self.log.step_results@.drop_last() =~= before);
    }

    /// Ends the run for an abort signal: the signal's reason is recorded against its step and
    /// the run is marked failed.
    pub fn abort(&mut self, signal: AbortSignal, now: Instant) -> (r: RunnerError)
        requires
            old(self).wf(),
        ensures
            final(self).wf(),
            final(self).next == old(self).next,
            final(self).schedule@ == old(self).schedule@,
            final(self).log.state == RunState::Failed,
            final(self).log.completed_at == Some(now),
            final(self).log.step_results@.len() == old(self).log.step_results@.len(),
            forall|k: int| 0 <= k < old(self).log.step_results@.len() ==> #[trigger] final(self).log.step_results@[k]
                == if k == signal.step {
                    failed_with(old(self).log.step_results@[k], signal.reason)
                } else {
                    old(self).log.step_results@[k]
                },
            r == (RunnerError::Aborted { step: signal.step, reason: signal.reason }),
    {
        let reason = signal.reason.clone();
        self.log.update_step_result(signal.step, signal.reason);
        self.log.finish_with_state(RunState::Failed, now);
        RunnerError::Aborted { step: signal.step, reason }
    }

    /// Ends a run in which every step ran and succeeded and no abort came.
    pub fn complete(&mut self, now: Instant)
        requires
            old(self).wf(),
            old(self).next == old(self).schedule.steps@.len(),
            old(self).log.state == RunState::Running,
        ensures
            final(self).log.step_results@.len() == final(self).schedule.steps@.len(),
            forall|k: int|
                0 <= k < final(self).log.step_results@.len() ==> (#[trigger] final(self).log.step_results@[k]).step_index
                    == k && final(self).log.step_results@[k].success,
            final(self).wf(),
            final(self).next == old(self).next,
            final(self).log.state == RunState::Completed,
            final(self).log.completed_at == Some(now),
            final(self).log.step_results@ == old(self).log.step_results@,
    {
        self.log.finish_with_state(RunState::Completed, now);
    }

    pub fn execution_log(&self) -> (r: &ExecutionLog)
        ensures
            *r == self.log,
    {
        &self.log
    }
}

/// In a run, every executed step has exactly one result, carrying its index, and a step not
/// yet executed has none.
pub proof fn law_one_result_per_executed_step(r: Runner, k: int)
    requires
        r.wf(),
        0 <= k,
    ensures
        k < r.next ==> (exists|j: int| 0 <= j < r.log.step_results@.len() && #[trigger] r.log.step_results@[j].step_index == k)
            && (forall|j1: int, j2: int|
            0 <= j1 < r.log.step_results@.len() && 0 <= j2 < r.log.step_results@.len() && (#[trigger] r.log.step_results@[j1]).step_index
                == k && (#[trigger] r.log.step_results@[j2]).step_index == k ==> j1 == j2),
        k >= r.next ==> forall|j: int| 0 <= j < r.log.step_results@.len() ==> (#[trigger] r.log.step_results@[j]).step_index != k,
{
    if k < r.next {
        assert(r.log.step_results@[k].step_index == k);
    }
}

} // verus!

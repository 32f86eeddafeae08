//! The record of one run of a schedule: a result per executed step and the final state.
use vstd::prelude::*;

use crate::time::Instant;

verus! {

/// Where a run stands.
#[derive(Debug, Clone, Copy, PartialEq, Eq, Structural)]
pub enum RunState {
    Running,
    Completed,
    Failed,
}

/// The outcome of one executed step.
#[derive(Debug, Clone, PartialEq)]
pub struct StepResult {
    pub step_index: usize,
    pub command_type: String,
    pub started_at: Instant,
    pub completed_at: Option<Instant>,
    pub success: bool,
    pub error: Option<String>,
}

impl StepResult {
    /// A step's result: successful exactly when it carries no error.
    pub fn new(
        step_index: usize,
        command_type: String,
        started_at: Instant,
        completed_at: Instant,
        error: Option<String>,
    ) -> (r: StepResult)
        ensures
            r == (StepResult {
                step_index,
                command_type,
                started_at,
                completed_at: Some(completed_at),
                success: error is None,
                error,
            }),
    {
        let success = error.is_none();
        StepResult { step_index, command_type, started_at, completed_at: Some(completed_at), success, error }
    }
}

/// A result marked failed for `reason`.
pub open spec fn failed_with(r: StepResult, reason: String) -> StepResult {
    StepResult { success: false, error: Some(reason), ..r }
}

#[derive(Debug, Clone, PartialEq)]
pub struct ExecutionLog {
    pub schedule_id: String,
    pub state: RunState,
    pub started_at: Instant,
    pub completed_at: Option<Instant>,
    pub step_results: Vec<StepResult>,
}

fn copy_result(r: &StepResult) -> (c: StepResult)
    ensures
        c == *r,
{
    StepResult {
        step_index: r.step_index,
        command_type: r.command_type.clone(),
        started_at: r.started_at,
        completed_at: r.completed_at,
        success: r.success,
        error: match &r.error {
            Some(e) => Some(e.clone()),
            None => None,
        },
    }
}

impl ExecutionLog {
    pub fn new(schedule_id: String, now: Instant) -> (r: ExecutionLog)
        ensures
            r.schedule_id == schedule_id,
            r.state == RunState::Running,
            r.started_at == now,
            r.completed_at is None,
            r.step_results@ == Seq::<StepResult>::empty(),
    {
        ExecutionLog { schedule_id, state: RunState::Running, started_at: now, completed_at: None, step_results: Vec::new() }
    }

    pub fn add_step_result(&mut self, r: StepResult)
        ensures
            final(self).step_results@ == old(self).step_results@.push(r),
            final(self).schedule_id == old(self).schedule_id,
            final(self).state == old(self).state,
            final(self).started_at == old(self).started_at,
            final(self).completed_at == old(self).completed_at,
    {
        self.step_results.push(r);
    }

    /// Marks the results of step `step` failed for `reason`.
    pub fn update_step_result(&mut self, step: usize, reason: String)
        ensures
            final(self).step_results@.len() == old(self).step_results@.len(),
            forall|k: int| 0 <= k < old(self).step_results@.len() ==> #[trigger] final(self).step_results@[k]
                == if old(self).step_results@[k].step_index == step {
                    failed_with(old(self).step_results@[k], reason)
                } else {
                    old(self).step_results@[k]
                },
            final(self).schedule_id == old(self).schedule_id,
            final(self).state == old(self).state,
            final(self).started_at == old(self).started_at,
            final(self).completed_at == old(self).completed_at,
    {
        let mut k: usize = 0;
        while k < self.step_results.len()
            invariant
                k <= self.step_results@.len(),
                self.step_results@.len() == old(self).step_results@.len(),
                forall|j: int| 0 <= j < k ==> #[trigger] self.step_results@[j]
                    == if old(self).step_results@[j].step_index == step {
                        failed_with(old(self).step_results@[j], reason)
                    } else {
                        old(self).step_results@[j]
                    },
                forall|j: int| k <= j < self.step_results@.len() ==> #[trigger] self.step_results@[j] == old(self).step_results@[j],
                self.schedule_id == old(self).schedule_id,
                self.state == old(self).state,
                self.started_at == old(self).started_at,
                self.completed_at == old(self).completed_at,
            decreases self.step_results@.len() - k,
        {
            if self.step_results[k].step_index == step {
                let mut r = copy_result(&self.step_results[k]);
                r.success = false;
                r.error = Some(reason.clone());
                self.step_results.set(k, r);
            }
            k += 1;
        }
    }

    pub fn finish_with_state(&mut self, state: RunState, now: Instant)
        ensures
            final(self).state == state,
            final(self).completed_at == Some(now),
            final(self).step_results@ == old(self).step_results@,
            final(self).schedule_id == old(self).schedule_id,
            final(self).started_at == old(self).started_at,
    {
        self.state = state;
        self.completed_at = Some(now);
    }
}

} // verus!

//! Shell commands run as child processes: the commands and the decisions around them.
use vstd::prelude::*;

use crate::abort::AbortSignal;
use crate::text::{decimal3, int_text, push_decimal3, push_int, push_text};

verus! {

/// What a failing shell command does to the schedule that started it.
#[derive(Debug, Clone, Copy, PartialEq, Eq, Structural)]
pub enum OnFail {
    Abort,
    Continue,
}

#[derive(Debug, Clone, PartialEq)]
pub enum Command {
    RunShell { cmd: String, on_fail: OnFail },
    Stop,
}

pub enum CommandView {
    RunShell { cmd: Seq<char>, on_fail: OnFail },
    Stop,
}

impl View for Command {
    type V = CommandView;

    open spec fn view(&self) -> CommandView {
        match self {
            Command::RunShell { cmd, on_fail } => CommandView::RunShell { cmd: cmd@, on_fail: *on_fail },
            Command::Stop => CommandView::Stop,
        }
    }
}

#[derive(Debug, Clone, PartialEq)]
pub enum ExecutorError {
    Io(String),
    CommandFailed(i32),
    Killed,
    NotRunning,
}

/// `step_NNN_<stream>.log`, the file a step's output stream is kept in.
pub open spec fn log_name(step: nat, stream: Seq<char>) -> Seq<char> {
    "step_"@ + decimal3(step) + "_"@ + stream + ".log"@
}

fn log_file_name(step: usize, stream: &str) -> (r: String)
    ensures
        r@ == log_name(step as nat, stream@),
{
    let mut s = String::new();
    push_text(&mut s, "step_");
    push_decimal3(&mut s, step as u64);
    push_text(&mut s, "_");
    push_text(&mut s, stream);
    push_text(&mut s, ".log");
    s
}

/// The file a step's standard output goes to.
pub fn stdout_log_name(step: usize) -> (r: String)
    ensures
        r@ == log_name(step as nat, "stdout"@),
{
    log_file_name(step, "stdout")
}

/// The file a step's standard error goes to.
pub fn stderr_log_name(step: usize) -> (r: String)
    ensures
        r@ == log_name(step as nat, "stderr"@),
{
    log_file_name(step, "stderr")
}

/// The reason given when a command's failure aborts its schedule.
pub open spec fn failure_reason(exit_code: int, cmd: Seq<char>) -> Seq<char> {
    "Process failed with exit code "@ + int_text(exit_code) + ": "@ + cmd
}

/// What a finished child process means for its schedule: an abort signal when it exited
/// with a non-zero code and its policy is to abort.
pub fn abort_on_exit(exit_code: i32, on_fail: OnFail, step: usize, cmd: &str) -> (r: Option<AbortSignal>)
    ensures
        r is Some <==> (exit_code != 0 && on_fail == OnFail::Abort),
        r matches Some(sig) ==> sig.step == step && sig.reason@ == failure_reason(exit_code as int, cmd@),
{
    if exit_code != 0 && on_fail == OnFail::Abort {
        let mut reason = String::new();
        push_text(&mut reason, "Process failed with exit code ");
        push_int(&mut reason, exit_code as i64);
        push_text(&mut reason, ": ");
        push_text(&mut reason, cmd);
        assert(reason@ =~= failure_reason(exit_code as int, cmd@));
        Some(AbortSignal { step, reason })
    } else {
        None
    }
}

/// What one poll of a child process found.
pub enum PollOutcome {
    StillRunning,
    /// The process ended; its exit code, when it has one (not when a signal ended it).
    Exited(Option<i32>),
    PollFailed,
}

/// What the monitor of a child process does next.
pub enum MonitorStep {
    /// Poll again after the polling interval.
    KeepPolling,
    /// Stop monitoring, after sending the signal if there is one.
    Finish(Option<AbortSignal>),
}

/// The exit code a finished process is judged by: its own, or -1 when a signal ended it.
pub open spec fn effective_exit_code(code: Option<i32>) -> int {
    match code {
        Some(c) => c as int,
        None => -1,
    }
}

/// The monitor's decision after one poll.
pub fn monitor_step(poll: PollOutcome, on_fail: OnFail, step: usize, cmd: &str) -> (r: MonitorStep)
    ensures
        poll is StillRunning <==> r is KeepPolling,
        poll is PollFailed ==> r == MonitorStep::Finish(None),
        poll matches PollOutcome::Exited(code) ==> (r matches MonitorStep::Finish(sig) && (sig is Some
            <==> (effective_exit_code(code) != 0 && on_fail == OnFail::Abort)) && (sig matches Some(
            s) ==> s.step == step && s.reason@ == failure_reason(effective_exit_code(code), cmd@))),
{
    match poll {
        PollOutcome::StillRunning => MonitorStep::KeepPolling,
        PollOutcome::Exited(code) => {
            let c = match code {
                Some(c) => c,
                None => -1,
            };
            MonitorStep::Finish(abort_on_exit(c, on_fail, step, cmd))
        },
        PollOutcome::PollFailed => MonitorStep::Finish(None),
    }
}

} // verus!

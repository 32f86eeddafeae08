use vstd::prelude::*;

verus! {

/// How newly submitted schedules are admitted.
#[derive(Debug, Clone, Copy, PartialEq, Eq, Structural)]
pub enum ApprovalMode {
    Auto,
    Manual,
}

/// Outcome of the approval policy for one submission.
#[derive(Debug, Clone, Copy, PartialEq, Eq, Structural)]
pub enum ApprovalResult {
    Approved,
    Pending,
}

/// The approval policy: `Auto` approves at once, `Manual` leaves the schedule pending.
pub open spec fn approval_of(mode: ApprovalMode) -> ApprovalResult {
    match mode {
        ApprovalMode::Auto => ApprovalResult::Approved,
        ApprovalMode::Manual => ApprovalResult::Pending,
    }
}

impl ApprovalResult {
    pub fn is_approved(&self) -> (r: bool)
        ensures
            r == (*self == ApprovalResult::Approved),
    {
        match self {
            ApprovalResult::Approved => true,
            ApprovalResult::Pending => false,
        }
    }
}

pub fn evaluate_approval(mode: ApprovalMode) -> (r: ApprovalResult)
    ensures
        r == approval_of(mode),
{
    match mode {
        ApprovalMode::Auto => ApprovalResult::Approved,
        ApprovalMode::Manual => ApprovalResult::Pending,
    }
}

} // verus!

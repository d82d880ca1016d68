use vstd::prelude::*;

use crate::bytes::str_eq;

verus! {

/// Where a ceremony step stands.
#[derive(Debug, Clone, Copy, PartialEq, Eq, Structural)]
pub enum StepStatus {
    Pending,
    InProgress,
    Completed,
    Failed,
    WaitingForHuman,
    Cancelled,
}

/// The label a status is written with.
pub open spec fn status_label(s: StepStatus) -> Seq<char> {
    match s {
        StepStatus::Pending => "pending"@,
        StepStatus::InProgress => "in_progress"@,
        StepStatus::Completed => "completed"@,
        StepStatus::Failed => "failed"@,
        StepStatus::WaitingForHuman => "waiting_for_human"@,
        StepStatus::Cancelled => "cancelled"@,
    }
}

/// Whether a host can report the status as what it saw: `pending` and
/// `in_progress` describe a step nobody has finished with.
pub open spec fn is_observable(s: StepStatus) -> bool {
    s != StepStatus::Pending && s != StepStatus::InProgress
}

impl StepStatus {
    pub fn as_label(&self) -> (l: &'static str)
        ensures
            l@ == status_label(*self),
    {
        match self {
            StepStatus::Pending => "pending",
            StepStatus::InProgress => "in_progress",
            StepStatus::Completed => "completed",
            StepStatus::Failed => "failed",
            StepStatus::WaitingForHuman => "waiting_for_human",
            StepStatus::Cancelled => "cancelled",
        }
    }
}

/// The status was not one a host may report (`status`).
#[derive(Debug, Clone, Copy, PartialEq, Eq, Structural)]
pub struct UnobservableStatus;

/// The observable statuses, in the order they are tried.
pub open spec fn observable_statuses() -> Seq<StepStatus> {
    seq![StepStatus::Completed, StepStatus::Failed, StepStatus::WaitingForHuman, StepStatus::Cancelled]
}

/// Reads a reported status by its exact label; only observable statuses
/// are accepted.
pub fn observable_status_from_label(raw: &str) -> (r: Result<StepStatus, UnobservableStatus>)
    ensures
        match r {
            Ok(s) => is_observable(s) && status_label(s) == raw@,
            Err(_) => forall|s: StepStatus| is_observable(s) ==> status_label(s) != raw@,
        },
{
    let candidates = [StepStatus::Completed, StepStatus::Failed, StepStatus::WaitingForHuman, StepStatus::Cancelled];
    let mut i: usize = 0;
    while i < 4
        invariant
            i <= 4,
            candidates@ == observable_statuses(),
            forall|j: int| 0 <= j < i ==> status_label(#[trigger] observable_statuses()[j]) != raw@,
        decreases 4 - i,
    {
        let s = candidates[i];
        if str_eq(s.as_label(), raw) {
            return Ok(s);
        }
        i = i + 1;
    }
    proof {
        assert forall|s: StepStatus| is_observable(s) implies status_label(s) != raw@ by {
            match s {
                StepStatus::Completed => assert(status_label(observable_statuses()[0]) != raw@),
                StepStatus::Failed => assert(status_label(observable_statuses()[1]) != raw@),
                StepStatus::WaitingForHuman => assert(status_label(observable_statuses()[2]) != raw@),
                StepStatus::Cancelled => assert(status_label(observable_statuses()[3]) != raw@),
                _ => {},
            }
        }
    }
    Err(UnobservableStatus)
}

/// A finished result: its status is observable, and it carries an error
/// message exactly when it failed.
pub open spec fn is_terminal_result(status: StepStatus, has_error_message: bool) -> bool {
    is_observable(status) && (status == StepStatus::Failed) == has_error_message
}

/// Decides `is_terminal_result`.
pub fn terminal_result(status: StepStatus, has_error_message: bool) -> (b: bool)
    ensures
        b == is_terminal_result(status, has_error_message),
{
    let unfinished = match status {
        StepStatus::Pending | StepStatus::InProgress => true,
        _ => false,
    };
    let failed = match status {
        StepStatus::Failed => true,
        _ => false,
    };
    !unfinished && failed == has_error_message
}

/// No observable status is written `pending` or `in_progress`, so a host
/// reporting either is refused.
pub proof fn law_unfinished_labels_are_refused(s: StepStatus)
    requires
        is_observable(s),
    ensures
        status_label(s) != "pending"@,
        status_label(s) != "in_progress"@,
{
    reveal_strlit("pending");
    reveal_strlit("in_progress");
    reveal_strlit("completed");
    reveal_strlit("failed");
    reveal_strlit("waiting_for_human");
    reveal_strlit("cancelled");
    assert("pending"@.len() == 7);
    assert("in_progress"@.len() == 11);
    assert("completed"@.len() == 9);
    assert("failed"@.len() == 6);
    assert("waiting_for_human"@.len() == 17);
    assert("cancelled"@.len() == 9);
}

} // verus!

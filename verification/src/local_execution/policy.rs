use vstd::prelude::*;

verus! {

/// Runtime mode declared by the local execution adapter.
#[derive(Debug, Clone, Copy, PartialEq, Eq, Structural)]
pub enum LocalExecutionMode {
    TrustedLocal,
    IsolatedLinuxUnavailable,
}

/// Network declaration for a trusted-local invocation, not an OS sandbox.
#[derive(Debug, Clone, Copy, PartialEq, Eq, Structural)]
pub enum LocalNetworkPolicy {
    Allowed,
    NotAllowed,
}

/// Why a local process stopped.
#[derive(Debug, Clone, Copy, PartialEq, Eq, Structural)]
pub enum LocalExecutionOutcome {
    Completed,
    Failed,
    TimedOut,
    OutputLimitExceeded,
}

impl LocalExecutionMode {
    /// The word a receipt records the mode by.
    pub fn wire_name(&self) -> (w: &'static str)
        ensures
            w@ == match *self {
                LocalExecutionMode::TrustedLocal => "trusted-local"@,
                LocalExecutionMode::IsolatedLinuxUnavailable => "isolated-linux-unavailable"@,
            },
    {
        match self {
            LocalExecutionMode::TrustedLocal => "trusted-local",
            LocalExecutionMode::IsolatedLinuxUnavailable => "isolated-linux-unavailable",
        }
    }
}

impl LocalNetworkPolicy {
    /// The word a receipt records the network policy by.
    pub fn wire_name(&self) -> (w: &'static str)
        ensures
            w@ == match *self {
                LocalNetworkPolicy::Allowed => "allowed"@,
                LocalNetworkPolicy::NotAllowed => "not-allowed"@,
            },
    {
        match self {
            LocalNetworkPolicy::Allowed => "allowed",
            LocalNetworkPolicy::NotAllowed => "not-allowed",
        }
    }
}

impl LocalExecutionOutcome {
    /// The word a receipt records the outcome by.
    pub fn wire_name(&self) -> (w: &'static str)
        ensures
            w@ == match *self {
                LocalExecutionOutcome::Completed => "completed"@,
                LocalExecutionOutcome::Failed => "failed"@,
                LocalExecutionOutcome::TimedOut => "timed_out"@,
                LocalExecutionOutcome::OutputLimitExceeded => "output_limit_exceeded"@,
            },
    {
        match self {
            LocalExecutionOutcome::Completed => "completed",
            LocalExecutionOutcome::Failed => "failed",
            LocalExecutionOutcome::TimedOut => "timed_out",
            LocalExecutionOutcome::OutputLimitExceeded => "output_limit_exceeded",
        }
    }
}

} // verus!

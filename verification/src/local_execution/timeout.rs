use vstd::prelude::*;

verus! {

/// Number of nanoseconds in one second.
pub const NANOS_PER_SECOND: u32 = 1_000_000_000;

/// A non-negative span of time, kept as whole seconds and the nanoseconds
/// past the last whole second.
#[derive(Debug, Clone, Copy, PartialEq, Eq, Structural)]
pub struct Timeout {
    secs: u64,
    subsec_nanos: u32,
}

impl Timeout {
    /// The span in nanoseconds.
    pub open spec fn total_nanos(self) -> int {
        self.spec_secs() * 1_000_000_000 + self.spec_subsec_nanos()
    }

    pub closed spec fn spec_secs(self) -> u64 {
        self.secs
    }

    pub closed spec fn spec_subsec_nanos(self) -> u32 {
        self.subsec_nanos
    }

    /// The nanoseconds part never reaches a whole second.
    #[verifier::type_invariant]
    pub closed spec fn wf(self) -> bool {
        self.subsec_nanos < NANOS_PER_SECOND
    }

    pub fn from_secs(secs: u64) -> (t: Self)
        ensures
            t.wf(),
            t.spec_secs() == secs,
            t.spec_subsec_nanos() == 0,
    {
        Timeout { secs, subsec_nanos: 0 }
    }

    pub fn from_millis(millis: u64) -> (t: Self)
        ensures
            t.wf(),
            t.spec_secs() == millis / 1000,
            t.spec_subsec_nanos() == (millis % 1000) * 1_000_000,
            t.total_nanos() == millis * 1_000_000,
    {
        let secs = millis / 1000;
        let subsec_nanos = ((millis % 1000) as u32) * 1_000_000;
        Timeout { secs, subsec_nanos }
    }

    /// Whole seconds and sub-second nanoseconds; the nanoseconds must stay
    /// below one second.
    pub fn from_parts(secs: u64, subsec_nanos: u32) -> (t: Self)
        requires
            subsec_nanos < NANOS_PER_SECOND,
        ensures
            t.wf(),
            t.spec_secs() == secs,
            t.spec_subsec_nanos() == subsec_nanos,
    {
        Timeout { secs, subsec_nanos }
    }

    pub fn as_secs(&self) -> (s: u64)
        ensures
            s == self.spec_secs(),
    {
        self.secs
    }

    pub fn subsec_nanos(&self) -> (n: u32)
        ensures
            n == self.spec_subsec_nanos(),
    {
        self.subsec_nanos
    }

    pub fn is_zero(&self) -> (b: bool)
        ensures
            b == (self.spec_secs() == 0 && self.spec_subsec_nanos() == 0),
    {
        self.secs == 0 && self.subsec_nanos == 0
    }

    /// Whole milliseconds in the span, saturated at `u64::MAX`.
    pub fn as_millis_saturating(&self) -> (m: u64)
        ensures
            m == if self.total_nanos() / 1_000_000 > u64::MAX as int {
                u64::MAX as int
            } else {
                self.total_nanos() / 1_000_000
            },
    {
        proof {
            use_type_invariant(self);
        }
        let whole: u128 = (self.secs as u128) * 1000 + ((self.subsec_nanos / 1_000_000) as u128);
        assert(whole == self.total_nanos() / 1_000_000) by (nonlinear_arith)
            requires
                whole == (self.secs as u128) * 1000 + ((self.subsec_nanos / 1_000_000) as u128),
                self.subsec_nanos < 1_000_000_000,
        ;
        if whole > u64::MAX as u128 {
            u64::MAX
        } else {
            whole as u64
        }
    }

    /// Whole seconds, rounded up to the next second when a fraction
    /// remains, saturated at `u64::MAX`.
    pub open spec fn watchdog_secs(self) -> u64 {
        if self.spec_subsec_nanos() != 0 {
            if self.spec_secs() == u64::MAX { u64::MAX } else { (self.spec_secs() + 1) as u64 }
        } else {
            self.spec_secs()
        }
    }

    /// Computes `watchdog_secs`: the seconds a watchdog waits before
    /// killing a run with this timeout.
    pub fn watchdog_seconds(&self) -> (s: u64)
        ensures
            s == self.watchdog_secs(),
    {
        let extra: u64 = if self.subsec_nanos != 0 { 1 } else { 0 };
        self.secs.saturating_add(extra)
    }
}

} // verus!

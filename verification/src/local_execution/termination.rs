use vstd::prelude::*;

verus! {

/// Structured process-group termination evidence: four independent facts.
#[derive(Debug, Clone, Copy, PartialEq, Eq, Structural)]
pub struct LocalProcessTermination {
    pub requested: bool,
    pub supported: bool,
    pub attempted: bool,
    pub succeeded: bool,
}

impl LocalProcessTermination {
    /// The evidence of a process that ended by itself.
    pub open spec fn not_requested_spec(groups_supported: bool) -> Self {
        LocalProcessTermination { requested: false, supported: groups_supported, attempted: false, succeeded: false }
    }

    /// Evidence for a process that ended by itself: nothing was requested
    /// or attempted. `supported` records whether the host platform can
    /// terminate process groups.
    pub fn not_requested(groups_supported: bool) -> (t: Self)
        ensures
            t == (LocalProcessTermination {
                requested: false,
                supported: groups_supported,
                attempted: false,
                succeeded: false,
            }),
    {
        LocalProcessTermination {
            requested: false,
            supported: groups_supported,
            attempted: false,
            succeeded: false,
        }
    }
}

/// Whether stopping a child starts by killing its whole process group:
/// only when a group kill was requested and the platform supports it.
pub fn group_kill_wanted(group_requested: bool, groups_supported: bool) -> (b: bool)
    ensures
        b == (group_requested && groups_supported),
{
    group_requested && groups_supported
}

/// Whether the child must still be killed directly: only when killing its
/// group did not succeed.
pub fn direct_kill_wanted(group_killed: bool) -> (b: bool)
    ensures
        b == !group_killed,
{
    !group_killed
}

/// The evidence recorded after stopping a child. Without a process id
/// nothing could be attempted; otherwise the stop succeeded when the group
/// kill or the direct kill did.
pub fn termination_evidence(
    process_id_known: bool,
    group_requested: bool,
    groups_supported: bool,
    group_killed: bool,
    direct_kill_succeeded: bool,
) -> (t: LocalProcessTermination)
    ensures
        t.requested == group_requested,
        t.supported == (process_id_known && groups_supported),
        t.attempted == process_id_known,
        t.succeeded == (process_id_known && (group_killed || direct_kill_succeeded)),
{
    if !process_id_known {
        return LocalProcessTermination {
            requested: group_requested,
            supported: false,
            attempted: false,
            succeeded: false,
        };
    }
    LocalProcessTermination {
        requested: group_requested,
        supported: groups_supported,
        attempted: true,
        succeeded: group_killed || direct_kill_succeeded,
    }
}

} // verus!

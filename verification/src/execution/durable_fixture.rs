use vstd::prelude::*;

use crate::bytes::str_eq;
use crate::paths::join;
use crate::paths::path_join;

verus! {

/// The identifier of the filesystem fixture connector.
pub open spec fn fixture_connector_id() -> Seq<char> {
    "fixture.filesystem.v1"@
}

pub fn fixture_connector_id_string() -> (s: String)
    ensures
        s@ == fixture_connector_id(),
{
    "fixture.filesystem.v1".to_owned()
}

/// Why the fixture connector refused.
#[derive(Debug, Clone, Copy, PartialEq, Eq, Structural)]
pub enum FixtureError {
    /// `durable fixture connector cannot create its effect root`.
    RootNotCreated,
    /// `durable_fixture_effect`: the stored effect answers another
    /// operation or request.
    EffectConflict,
    /// `durable fixture connector cannot read its effect`.
    EffectUnreadable,
    /// `durable fixture connector effect is unreadable`.
    EffectCorrupt,
    /// `durable fixture connector cannot persist its effect`.
    EffectNotPersisted,
}

impl FixtureError {
    /// The conflicting record or reason this refusal is reported with.
    pub fn reason(&self) -> (r: &'static str)
        ensures
            r@ == match *self {
                FixtureError::RootNotCreated => "durable fixture connector cannot create its effect root"@,
                FixtureError::EffectConflict => "durable_fixture_effect"@,
                FixtureError::EffectUnreadable => "durable fixture connector cannot read its effect"@,
                FixtureError::EffectCorrupt => "durable fixture connector effect is unreadable"@,
                FixtureError::EffectNotPersisted => "durable fixture connector cannot persist its effect"@,
            },
    {
        match self {
            FixtureError::RootNotCreated => "durable fixture connector cannot create its effect root",
            FixtureError::EffectConflict => "durable_fixture_effect",
            FixtureError::EffectUnreadable => "durable fixture connector cannot read its effect",
            FixtureError::EffectCorrupt => "durable fixture connector effect is unreadable",
            FixtureError::EffectNotPersisted => "durable fixture connector cannot persist its effect",
        }
    }
}

/// Where the effect of an operation is published: `<operation id>.json`
/// under the root.
pub fn effect_path(root: &str, operation_id: &str) -> (p: String)
    ensures
        p@ == path_join(root@, operation_id@ + ".json"@),
{
    let mut name = operation_id.to_owned();
    name.append(".json");
    join(root, name.as_str())
}

/// The external operation id the fixture reports.
pub fn fixture_external_operation_id(operation_id: &str) -> (e: String)
    ensures
        e@ == "fixture:"@ + operation_id@,
{
    let mut e = "fixture:".to_owned();
    e.append(operation_id);
    e
}

/// A stored effect answers an intent only if it was written for the same
/// operation and the same request bytes.
pub fn check_effect(effect_operation_id: &str, effect_request_digest: &str, operation_id: &str, request_digest: &str) -> (r: Result<(), FixtureError>)
    ensures
        r is Ok <==> (effect_operation_id@ == operation_id@ && effect_request_digest@ == request_digest@),
        r is Err ==> r == Err::<(), FixtureError>(FixtureError::EffectConflict),
{
    if str_eq(effect_operation_id, operation_id) && str_eq(effect_request_digest, request_digest) {
        Ok(())
    } else {
        Err(FixtureError::EffectConflict)
    }
}

/// What publishing a fresh effect did.
#[derive(Debug, Clone, Copy, PartialEq, Eq, Structural)]
pub enum EffectPublication {
    /// An effect was already at its path before anything was written.
    AlreadyPresent,
    /// This effect was linked into place.
    Published,
    /// Another writer linked its effect first.
    LostRace,
    /// Writing or linking failed.
    Failed,
}

/// Settling an operation publishes one effect: the first writer's effect
/// is the one every caller reads back.
#[derive(Debug, Clone, Copy, PartialEq, Eq, Structural)]
pub enum Settlement {
    /// Use the effect just written.
    UseWritten,
    /// Read back the effect already published, and check it.
    ReadPublished,
}

pub fn settlement(publication: EffectPublication) -> (r: Result<Settlement, FixtureError>)
    ensures
        r == match publication {
            EffectPublication::Published => Ok::<Settlement, FixtureError>(Settlement::UseWritten),
            EffectPublication::AlreadyPresent => Ok::<Settlement, FixtureError>(Settlement::ReadPublished),
            EffectPublication::LostRace => Ok::<Settlement, FixtureError>(Settlement::ReadPublished),
            EffectPublication::Failed => Err::<Settlement, FixtureError>(FixtureError::EffectNotPersisted),
        },
{
    match publication {
        EffectPublication::Published => Ok(Settlement::UseWritten),
        EffectPublication::AlreadyPresent => Ok(Settlement::ReadPublished),
        EffectPublication::LostRace => Ok(Settlement::ReadPublished),
        EffectPublication::Failed => Err(FixtureError::EffectNotPersisted),
    }
}

} // verus!

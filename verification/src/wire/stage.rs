//! Which kind of stage a designed ceremony stage is: a pattern, a group or
//! a leaf, told apart by the fields it sets.

use vstd::prelude::*;

verus! {

/// The fields of a designed stage, as far as its kind depends on them.
pub struct WireStageFields {
    pub id: String,
    pub has_pattern: bool,
    pub has_group: bool,
    pub owner_role_id: String,
    pub instructions: String,
    pub handler: String,
    pub has_see_prior: bool,
    pub has_num_agents: bool,
    pub review_rounds: u64,
    pub has_repeat: bool,
    pub exit_guards: usize,
    pub role_from: String,
    pub allowed_roles: usize,
    pub context_writes: usize,
    pub has_aggregate: bool,
    pub has_spawn: bool,
}

/// The kind of a stage.
#[derive(Debug, Clone, Copy, PartialEq, Eq, Structural)]
pub enum StageShape {
    Pattern,
    Group,
    Leaf,
}

/// A stage that sets the fields of more than one kind.
#[derive(Debug, Clone, PartialEq, Eq)]
pub enum StageShapeError {
    /// A pattern stage that also sets group or leaf fields.
    PatternWithOtherFields { stage_id: String },
    /// A group stage that also sets leaf fields.
    GroupWithLeafFields { stage_id: String },
}

/// Whether the stage sets any field that only a leaf stage has.
pub open spec fn declares_leaf_fields(f: WireStageFields) -> bool {
    ||| f.owner_role_id@.len() > 0
    ||| f.instructions@.len() > 0
    ||| f.handler@.len() > 0
    ||| f.has_see_prior
    ||| f.has_num_agents
    ||| f.review_rounds != 0
    ||| f.has_repeat
    ||| f.exit_guards > 0
    ||| f.role_from@.len() > 0
    ||| f.allowed_roles > 0
    ||| f.context_writes > 0
    ||| f.has_aggregate
    ||| f.has_spawn
}

/// The kind a stage reads as: a pattern stage sets nothing else; a group
/// stage sets no leaf field; a stage with neither is a leaf.
pub open spec fn stage_shape_of(f: WireStageFields) -> Result<StageShape, StageShapeError> {
    if f.has_pattern {
        if f.has_group || declares_leaf_fields(f) {
            Err(StageShapeError::PatternWithOtherFields { stage_id: f.id })
        } else {
            Ok(StageShape::Pattern)
        }
    } else if f.has_group {
        if declares_leaf_fields(f) {
            Err(StageShapeError::GroupWithLeafFields { stage_id: f.id })
        } else {
            Ok(StageShape::Group)
        }
    } else {
        Ok(StageShape::Leaf)
    }
}

fn sets_leaf_fields(f: &WireStageFields) -> (b: bool)
    ensures
        b == declares_leaf_fields(*f),
{
    !f.owner_role_id.as_str().is_empty() || !f.instructions.as_str().is_empty() || !f.handler.as_str().is_empty()
        || f.has_see_prior || f.has_num_agents || f.review_rounds != 0 || f.has_repeat
        || f.exit_guards > 0 || !f.role_from.as_str().is_empty() || f.allowed_roles > 0
        || f.context_writes > 0 || f.has_aggregate || f.has_spawn
}

/// Tells which kind of stage the fields describe, refusing a stage that
/// mixes the fields of two kinds.
pub fn stage_shape(f: WireStageFields) -> (r: Result<StageShape, StageShapeError>)
    ensures
        r == stage_shape_of(f),
        f.has_pattern && (f.has_group || f.owner_role_id@.len() > 0 || f.instructions@.len() > 0
            || f.handler@.len() > 0 || f.has_see_prior || f.has_num_agents || f.review_rounds != 0 || f.has_repeat
            || f.exit_guards > 0 || f.role_from@.len() > 0 || f.allowed_roles > 0 || f.context_writes > 0
            || f.has_aggregate || f.has_spawn) ==> r == Err::<StageShape, StageShapeError>(
            StageShapeError::PatternWithOtherFields { stage_id: f.id },
        ),
        !f.has_pattern && f.has_group && (f.owner_role_id@.len() > 0 || f.instructions@.len() > 0
            || f.handler@.len() > 0 || f.has_see_prior || f.has_num_agents || f.review_rounds != 0 || f.has_repeat
            || f.exit_guards > 0 || f.role_from@.len() > 0 || f.allowed_roles > 0 || f.context_writes > 0
            || f.has_aggregate || f.has_spawn) ==> r == Err::<StageShape, StageShapeError>(
            StageShapeError::GroupWithLeafFields { stage_id: f.id },
        ),
        r == Ok::<StageShape, StageShapeError>(StageShape::Pattern) ==> f.has_pattern,
        r == Ok::<StageShape, StageShapeError>(StageShape::Group) ==> f.has_group && !f.has_pattern,
        r == Ok::<StageShape, StageShapeError>(StageShape::Leaf) ==> !f.has_group && !f.has_pattern,
{
    let leaf = sets_leaf_fields(&f);
    if f.has_pattern {
        if f.has_group || leaf {
            Err(StageShapeError::PatternWithOtherFields { stage_id: f.id })
        } else {
            Ok(StageShape::Pattern)
        }
    } else if f.has_group {
        if leaf {
            Err(StageShapeError::GroupWithLeafFields { stage_id: f.id })
        } else {
            Ok(StageShape::Group)
        }
    } else {
        Ok(StageShape::Leaf)
    }
}

impl StageShapeError {
    /// The reason a refused document is given.
    pub fn reason(&self) -> (r: String)
        ensures
            r@ == match self {
                StageShapeError::PatternWithOtherFields { stage_id } =>
                    "pattern stage `"@ + stage_id@ + "` cannot also declare leaf/group fields"@,
                StageShapeError::GroupWithLeafFields { stage_id } =>
                    "group stage `"@ + stage_id@ + "` cannot also declare leaf fields"@,
            },
    {
        match self {
            StageShapeError::PatternWithOtherFields { stage_id } => {
                let mut r = "pattern stage `".to_owned();
                r.append(stage_id.as_str());
                r.append("` cannot also declare leaf/group fields");
                r
            },
            StageShapeError::GroupWithLeafFields { stage_id } => {
                let mut r = "group stage `".to_owned();
                r.append(stage_id.as_str());
                r.append("` cannot also declare leaf fields");
                r
            },
        }
    }
}

/// A stage is of exactly one kind: setting the pattern together with a
/// group or with any leaf field (owner role, instructions, handler, prior
/// context, agent count, review rounds, repeat, exit guards, dynamic role,
/// allowed roles, context writes, aggregation, spawn) refuses it as a
/// mixed pattern stage; a group with any leaf field is refused as a mixed
/// group; a stage is accepted as a pattern or a group only when it sets
/// nothing of another kind, and as a leaf only when it sets neither.
pub proof fn law_stage_kinds_do_not_mix(f: WireStageFields)
    ensures
        f.has_pattern && (f.has_group || f.owner_role_id@.len() > 0 || f.instructions@.len() > 0
            || f.handler@.len() > 0 || f.has_see_prior || f.has_num_agents || f.review_rounds != 0 || f.has_repeat
            || f.exit_guards > 0 || f.role_from@.len() > 0 || f.allowed_roles > 0 || f.context_writes > 0
            || f.has_aggregate || f.has_spawn) ==> stage_shape_of(f) == Err::<StageShape, StageShapeError>(
            StageShapeError::PatternWithOtherFields { stage_id: f.id },
        ),
        !f.has_pattern && f.has_group && (f.owner_role_id@.len() > 0 || f.instructions@.len() > 0
            || f.handler@.len() > 0 || f.has_see_prior || f.has_num_agents || f.review_rounds != 0 || f.has_repeat
            || f.exit_guards > 0 || f.role_from@.len() > 0 || f.allowed_roles > 0 || f.context_writes > 0
            || f.has_aggregate || f.has_spawn) ==> stage_shape_of(f) == Err::<StageShape, StageShapeError>(
            StageShapeError::GroupWithLeafFields { stage_id: f.id },
        ),
        stage_shape_of(f) == Ok::<StageShape, StageShapeError>(StageShape::Pattern) ==> f.has_pattern && !f.has_group
            && f.owner_role_id@.len() == 0 && f.instructions@.len() == 0 && f.handler@.len() == 0 && !f.has_see_prior
            && !f.has_num_agents && f.review_rounds == 0 && !f.has_repeat && f.exit_guards == 0
            && f.role_from@.len() == 0 && f.allowed_roles == 0 && f.context_writes == 0 && !f.has_aggregate
            && !f.has_spawn,
        stage_shape_of(f) == Ok::<StageShape, StageShapeError>(StageShape::Group) ==> f.has_group && !f.has_pattern,
        !f.has_pattern && !f.has_group ==> stage_shape_of(f) == Ok::<StageShape, StageShapeError>(StageShape::Leaf),
{
}

/// A count on the wire narrowed to `u32`, saturating at `u32::MAX`.
pub fn saturating_count(raw: u64) -> (n: u32)
    ensures
        n == if raw > u32::MAX as u64 { u32::MAX as int } else { raw as int },
{
    if raw > u32::MAX as u64 {
        u32::MAX
    } else {
        raw as u32
    }
}

} // verus!

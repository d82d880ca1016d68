use vstd::prelude::*;

use crate::bytes::str_eq;
use crate::text::trim;
use crate::text::trimmed;
use crate::text::is_blank;
use crate::text::lemma_trimmed_empty_iff_blank;

verus! {

/// How the steps of a group run.
#[derive(Debug, Clone, Copy, PartialEq, Eq, Structural)]
pub enum GroupExecution {
    Sequential,
    Concurrent,
}

/// `group execution must be sequential or concurrent`.
#[derive(Debug, Clone, Copy, PartialEq, Eq, Structural)]
pub struct InvalidGroupExecution;

/// Reads a group's execution word; an empty word means sequential.
pub fn group_execution_from_wire(raw: &str) -> (r: Result<GroupExecution, InvalidGroupExecution>)
    ensures
        r == if raw@ == ""@ || raw@ == "sequential"@ {
            Ok::<GroupExecution, InvalidGroupExecution>(GroupExecution::Sequential)
        } else if raw@ == "concurrent"@ {
            Ok(GroupExecution::Concurrent)
        } else {
            Err(InvalidGroupExecution)
        },
{
    if str_eq(raw, "") || str_eq(raw, "sequential") {
        Ok(GroupExecution::Sequential)
    } else if str_eq(raw, "concurrent") {
        Ok(GroupExecution::Concurrent)
    } else {
        Err(InvalidGroupExecution)
    }
}

/// When a group is done.
#[derive(Debug, Clone, Copy, PartialEq, Eq, Structural)]
pub enum GroupJoin {
    AllStepsCompleted,
    AnyStepCompleted,
    /// This many steps completed; the count is checked by the domain.
    StepsCompleted(u32),
}

/// Why a join was refused.
#[derive(Debug, Clone, Copy, PartialEq, Eq, Structural)]
pub enum InvalidGroupJoin {
    /// `steps_completed join requires count`.
    MissingCount,
    /// `invalid group join condition or count`.
    Invalid,
}

/// A join on the wire: a condition word and an optional count.
pub struct WireGroupJoin {
    pub condition: String,
    pub count: Option<u32>,
}

/// How a join reads: none means all steps; `all_steps_completed` (or an
/// empty word) and `any_step_completed` take no count; `steps_completed`
/// needs one.
pub open spec fn join_reading(join: Option<(Seq<char>, Option<u32>)>) -> Result<GroupJoin, InvalidGroupJoin> {
    match join {
        None => Ok(GroupJoin::AllStepsCompleted),
        Some((condition, count)) => if (condition == ""@ || condition == "all_steps_completed"@) && count is None {
            Ok(GroupJoin::AllStepsCompleted)
        } else if condition == "any_step_completed"@ && count is None {
            Ok(GroupJoin::AnyStepCompleted)
        } else if condition == "steps_completed"@ {
            match count {
                Some(c) => Ok(GroupJoin::StepsCompleted(c)),
                None => Err(InvalidGroupJoin::MissingCount),
            }
        } else {
            Err(InvalidGroupJoin::Invalid)
        },
    }
}

pub open spec fn wire_join_view(join: Option<WireGroupJoin>) -> Option<(Seq<char>, Option<u32>)> {
    match join {
        None => None,
        Some(j) => Some((j.condition@, j.count)),
    }
}

pub fn group_join_from_wire(join: Option<WireGroupJoin>) -> (r: Result<GroupJoin, InvalidGroupJoin>)
    ensures
        r == join_reading(wire_join_view(join)),
{
    let join = match join {
        None => return Ok(GroupJoin::AllStepsCompleted),
        Some(j) => j,
    };
    let condition = join.condition.as_str();
    if (str_eq(condition, "") || str_eq(condition, "all_steps_completed")) && join.count.is_none() {
        Ok(GroupJoin::AllStepsCompleted)
    } else if str_eq(condition, "any_step_completed") && join.count.is_none() {
        Ok(GroupJoin::AnyStepCompleted)
    } else if str_eq(condition, "steps_completed") {
        match join.count {
            Some(c) => Ok(GroupJoin::StepsCompleted(c)),
            None => Err(InvalidGroupJoin::MissingCount),
        }
    } else {
        Err(InvalidGroupJoin::Invalid)
    }
}

/// Whether a host destination may be woken.
#[derive(Debug, Clone, Copy, PartialEq, Eq, Structural)]
pub enum HostActivationMode {
    /// The destination is never woken (`none`).
    NoActivation,
    Command,
}

/// `host_activation_mode` holds an unknown word.
#[derive(Debug, Clone, Copy, PartialEq, Eq, Structural)]
pub struct InvalidActivationMode;

/// Reads an activation mode, ignoring surrounding white space. An unset
/// mode is `none`: a destination that did not ask to be woken is not
/// woken.
pub fn activation_mode_from_wire(raw: &str) -> (r: Result<HostActivationMode, InvalidActivationMode>)
    ensures
        r == if trimmed(raw@) == ""@ || trimmed(raw@) == "none"@ {
            Ok::<HostActivationMode, InvalidActivationMode>(HostActivationMode::NoActivation)
        } else if trimmed(raw@) == "command"@ {
            Ok(HostActivationMode::Command)
        } else {
            Err(InvalidActivationMode)
        },
{
    let t = trim(raw);
    if str_eq(t, "") || str_eq(t, "none") {
        Ok(HostActivationMode::NoActivation)
    } else if str_eq(t, "command") {
        Ok(HostActivationMode::Command)
    } else {
        Err(InvalidActivationMode)
    }
}

/// What an intervention asks of its recipient.
#[derive(Debug, Clone, Copy, PartialEq, Eq, Structural)]
pub enum InterventionIntent {
    Question,
    Feedback,
    Constraint,
    Checkpoint,
}

/// `intervention intent must be question, feedback, constraint or
/// checkpoint`.
#[derive(Debug, Clone, Copy, PartialEq, Eq, Structural)]
pub struct InvalidInterventionIntent;

pub open spec fn intent_word(i: InterventionIntent) -> Seq<char> {
    match i {
        InterventionIntent::Question => "question"@,
        InterventionIntent::Feedback => "feedback"@,
        InterventionIntent::Constraint => "constraint"@,
        InterventionIntent::Checkpoint => "checkpoint"@,
    }
}

/// Reads an intervention intent by its word, ignoring surrounding white
/// space.
pub fn intervention_intent_from_wire(raw: &str) -> (r: Result<InterventionIntent, InvalidInterventionIntent>)
    ensures
        match r {
            Ok(i) => intent_word(i) == trimmed(raw@),
            Err(_) => forall|i: InterventionIntent| intent_word(i) != trimmed(raw@),
        },
{
    let t = trim(raw);
    if str_eq(t, "question") {
        Ok(InterventionIntent::Question)
    } else if str_eq(t, "feedback") {
        Ok(InterventionIntent::Feedback)
    } else if str_eq(t, "constraint") {
        Ok(InterventionIntent::Constraint)
    } else if str_eq(t, "checkpoint") {
        Ok(InterventionIntent::Checkpoint)
    } else {
        Err(InvalidInterventionIntent)
    }
}

/// How an intervention reaches a host.
#[derive(Debug, Clone, Copy, PartialEq, Eq, Structural)]
pub enum HostDeliveryMode {
    Activation,
    PullLease,
}

/// Whether a delivery follows a replaced recipient.
#[derive(Debug, Clone, Copy, PartialEq, Eq, Structural)]
pub enum FollowReplacement {
    Follow,
    Stay,
}

/// The lease length used when none is stated: one minute.
pub const DEFAULT_LEASE_DURATION_MS: u64 = 60_000;

/// The delivery-policy fields a request may state.
pub struct StatedDeliveryPolicy {
    pub mode: Option<String>,
    pub lease_duration_ms: Option<u64>,
    pub ack_timeout_ms: Option<u64>,
    pub max_attempts: Option<u64>,
    pub follow_replacement: Option<bool>,
}

/// The delivery policy read from the stated fields; absent fields keep the
/// engine's own terms, which the domain checks and completes.
#[derive(Debug, Clone, Copy, PartialEq, Eq, Structural)]
pub struct DeliveryPolicyFields {
    pub mode: HostDeliveryMode,
    pub lease_duration_ms: u64,
    pub ack_timeout_ms: Option<u64>,
    /// `None` leaves the engine's default attempt limit.
    pub max_attempts: Option<u32>,
    pub follow_replacement: FollowReplacement,
}

/// Reads the policy fields it understands: only `activation` wakes a host,
/// anything else pulls; an unstated lease is a minute; an attempt count
/// past `u32` is read as `u32::MAX`; replacement is followed only when
/// asked.
pub fn delivery_policy_fields(stated: &StatedDeliveryPolicy) -> (p: DeliveryPolicyFields)
    ensures
        p.mode == (if stated.mode matches Some(m) && m@ == "activation"@ {
            HostDeliveryMode::Activation
        } else {
            HostDeliveryMode::PullLease
        }),
        p.lease_duration_ms == match stated.lease_duration_ms {
            Some(l) => l,
            None => DEFAULT_LEASE_DURATION_MS,
        },
        p.ack_timeout_ms == stated.ack_timeout_ms,
        p.max_attempts == match stated.max_attempts {
            Some(a) => Some(if a > u32::MAX { u32::MAX } else { a as u32 }),
            None => None::<u32>,
        },
        p.follow_replacement == (if stated.follow_replacement == Some(true) {
            FollowReplacement::Follow
        } else {
            FollowReplacement::Stay
        }),
{
    let mode = match &stated.mode {
        Some(m) => if str_eq(m.as_str(), "activation") {
            HostDeliveryMode::Activation
        } else {
            HostDeliveryMode::PullLease
        },
        None => HostDeliveryMode::PullLease,
    };
    let lease_duration_ms = match stated.lease_duration_ms {
        Some(l) => l,
        None => DEFAULT_LEASE_DURATION_MS,
    };
    let max_attempts = match stated.max_attempts {
        Some(a) => Some(if a > u32::MAX as u64 { u32::MAX } else { a as u32 }),
        None => None,
    };
    let follow_replacement = if stated.follow_replacement == Some(true) {
        FollowReplacement::Follow
    } else {
        FollowReplacement::Stay
    };
    DeliveryPolicyFields { mode, lease_duration_ms, ack_timeout_ms: stated.ack_timeout_ms, max_attempts, follow_replacement }
}

/// What budget a successor ceremony starts with.
#[derive(Debug, Clone, Copy, PartialEq, Eq, Structural)]
pub enum BudgetDisposition {
    Fresh,
    TransferRemaining,
}

/// `successor.budget` holds an unknown word.
#[derive(Debug, Clone, Copy, PartialEq, Eq, Structural)]
pub struct InvalidBudgetDisposition;

/// Reads a successor's budget word; an empty word means fresh.
pub fn budget_disposition_from_wire(raw: &str) -> (r: Result<BudgetDisposition, InvalidBudgetDisposition>)
    ensures
        r == if raw@ == ""@ || raw@ == "fresh"@ {
            Ok::<BudgetDisposition, InvalidBudgetDisposition>(BudgetDisposition::Fresh)
        } else if raw@ == "transfer_remaining"@ {
            Ok(BudgetDisposition::TransferRemaining)
        } else {
            Err(InvalidBudgetDisposition)
        },
{
    if str_eq(raw, "") || str_eq(raw, "fresh") {
        Ok(BudgetDisposition::Fresh)
    } else if str_eq(raw, "transfer_remaining") {
        Ok(BudgetDisposition::TransferRemaining)
    } else {
        Err(InvalidBudgetDisposition)
    }
}

/// What becomes of a step claimed in a ceremony that a successor replaces.
#[derive(Debug, Clone, PartialEq, Eq)]
pub enum ClaimDispositionKind {
    AbandonNoExternalEffect,
    /// Abandoned, with the evidence that its effect was reconciled.
    AbandonEffectReconciled { evidence: String },
    /// Carried over, with the receipt that records it.
    CarryReceipt { receipt_id: String },
    RetryInSuccessor,
}

/// `claim_disposition.kind` holds an unknown word.
#[derive(Debug, Clone, Copy, PartialEq, Eq, Structural)]
pub struct InvalidClaimDispositionKind;

/// Reads a claim disposition's kind word, taking the evidence or the
/// receipt identifier where the kind needs one.
pub fn claim_disposition_kind_from_wire(kind: &str, evidence: String, receipt_id: String) -> (r: Result<
    ClaimDispositionKind,
    InvalidClaimDispositionKind,
>)
    ensures
        r == if kind@ == "abandon_no_external_effect"@ {
            Ok::<ClaimDispositionKind, InvalidClaimDispositionKind>(ClaimDispositionKind::AbandonNoExternalEffect)
        } else if kind@ == "abandon_effect_reconciled"@ {
            Ok(ClaimDispositionKind::AbandonEffectReconciled { evidence })
        } else if kind@ == "carry_receipt"@ {
            Ok(ClaimDispositionKind::CarryReceipt { receipt_id })
        } else if kind@ == "retry_in_successor"@ {
            Ok(ClaimDispositionKind::RetryInSuccessor)
        } else {
            Err(InvalidClaimDispositionKind)
        },
{
    if str_eq(kind, "abandon_no_external_effect") {
        Ok(ClaimDispositionKind::AbandonNoExternalEffect)
    } else if str_eq(kind, "abandon_effect_reconciled") {
        Ok(ClaimDispositionKind::AbandonEffectReconciled { evidence })
    } else if str_eq(kind, "carry_receipt") {
        Ok(ClaimDispositionKind::CarryReceipt { receipt_id })
    } else if str_eq(kind, "retry_in_successor") {
        Ok(ClaimDispositionKind::RetryInSuccessor)
    } else {
        Err(InvalidClaimDispositionKind)
    }
}

/// How an integrator acknowledges an attention delivery.
#[derive(Debug, Clone, Copy, PartialEq, Eq, Structural)]
pub enum AcknowledgementKind {
    /// It intends to act.
    Intent,
    /// It has acted.
    Processed,
    /// It could not act.
    Failed,
}

/// `an acknowledgement must be intent, processed or failed`.
#[derive(Debug, Clone, Copy, PartialEq, Eq, Structural)]
pub struct InvalidAcknowledgement;

/// Reads an acknowledgement word.
pub fn acknowledgement_kind_from_wire(raw: &str) -> (r: Result<AcknowledgementKind, InvalidAcknowledgement>)
    ensures
        r == if raw@ == "intent"@ {
            Ok::<AcknowledgementKind, InvalidAcknowledgement>(AcknowledgementKind::Intent)
        } else if raw@ == "processed"@ {
            Ok(AcknowledgementKind::Processed)
        } else if raw@ == "failed"@ {
            Ok(AcknowledgementKind::Failed)
        } else {
            Err(InvalidAcknowledgement)
        },
{
    if str_eq(raw, "intent") {
        Ok(AcknowledgementKind::Intent)
    } else if str_eq(raw, "processed") {
        Ok(AcknowledgementKind::Processed)
    } else if str_eq(raw, "failed") {
        Ok(AcknowledgementKind::Failed)
    } else {
        Err(InvalidAcknowledgement)
    }
}

/// A text field that is absent when empty.
pub fn optional(value: String) -> (r: Option<String>)
    ensures
        r == if value@.len() == 0 { None } else { Some(value) },
{
    if value.as_str().is_empty() {
        None
    } else {
        Some(value)
    }
}

/// The note of an intent: the one given, or one naming the intended action
/// when none is given.
pub fn intent_note(note: String, action_kind: &str) -> (n: String)
    ensures
        n@ == if note@.len() == 0 { "integrator intends "@ + action_kind@ } else { note@ },
{
    if note.as_str().is_empty() {
        let mut n = "integrator intends ".to_owned();
        n.append(action_kind);
        n
    } else {
        note
    }
}

/// A requested page size: the default, or a size the domain then checks.
#[derive(Debug, Clone, Copy, PartialEq, Eq, Structural)]
pub enum PageLimitRequest {
    Default,
    Requested(u16),
}

/// The requested page size does not fit in `u16`.
#[derive(Debug, Clone, Copy, PartialEq, Eq, Structural)]
pub struct PageLimitOutOfRange {
    pub value: u32,
}

/// Reads a page size: zero asks for the default; a size past `u16::MAX` is
/// refused rather than clamped.
pub fn page_limit_from_wire(raw: u32) -> (r: Result<PageLimitRequest, PageLimitOutOfRange>)
    ensures
        r == if raw == 0 {
            Ok::<PageLimitRequest, PageLimitOutOfRange>(PageLimitRequest::Default)
        } else if raw > u16::MAX {
            Err(PageLimitOutOfRange { value: raw })
        } else {
            Ok(PageLimitRequest::Requested(raw as u16))
        },
{
    if raw == 0 {
        Ok(PageLimitRequest::Default)
    } else if raw > u16::MAX as u32 {
        Err(PageLimitOutOfRange { value: raw })
    } else {
        Ok(PageLimitRequest::Requested(raw as u16))
    }
}

/// The agent-status page size: zero asks for fifty.
pub fn agent_status_page_size(raw: u32) -> (n: usize)
    ensures
        n == if raw == 0 { 50 } else { raw as int },
{
    if raw == 0 {
        50
    } else {
        raw as usize
    }
}

/// Whose work an integrator attends to.
#[derive(Debug, PartialEq, Eq)]
pub enum IntegratorScope {
    Ceremony { ceremony_id: String },
    SystemExecution { system_execution_id: String },
}

/// `an integrator scope must be a ceremony or a system_execution`.
#[derive(Debug, Clone, Copy, PartialEq, Eq, Structural)]
pub struct InvalidIntegratorScope;

/// An integrator scope on the wire: a kind word and both identifiers, the
/// unused one empty.
#[derive(Debug, PartialEq, Eq)]
pub struct WireIntegratorScope {
    pub kind: String,
    pub ceremony_id: String,
    pub system_execution_id: String,
}

pub open spec fn integrator_scope_reading(kind: Seq<char>, ceremony_id: Seq<char>, system_execution_id: Seq<char>) -> Option<(bool, Seq<char>)> {
    if kind == "ceremony"@ {
        Some((true, ceremony_id))
    } else if kind == "system_execution"@ {
        Some((false, system_execution_id))
    } else {
        None
    }
}

/// A scope as whether it is a ceremony, and its identifier.
pub open spec fn integrator_scope_view(s: IntegratorScope) -> (bool, Seq<char>) {
    match s {
        IntegratorScope::Ceremony { ceremony_id } => (true, ceremony_id@),
        IntegratorScope::SystemExecution { system_execution_id } => (false, system_execution_id@),
    }
}

/// Reads an integrator scope: the kind word picks which identifier counts.
pub fn integrator_scope_from_wire(w: WireIntegratorScope) -> (r: Result<IntegratorScope, InvalidIntegratorScope>)
    ensures
        match integrator_scope_reading(w.kind@, w.ceremony_id@, w.system_execution_id@) {
            Some(v) => r matches Ok(s) && integrator_scope_view(s) == v,
            None => r == Err::<IntegratorScope, InvalidIntegratorScope>(InvalidIntegratorScope),
        },
{
    if str_eq(w.kind.as_str(), "ceremony") {
        Ok(IntegratorScope::Ceremony { ceremony_id: w.ceremony_id })
    } else if str_eq(w.kind.as_str(), "system_execution") {
        Ok(IntegratorScope::SystemExecution { system_execution_id: w.system_execution_id })
    } else {
        Err(InvalidIntegratorScope)
    }
}

/// Writes an integrator scope: its kind word, its identifier, and an empty
/// string for the other.
pub fn integrator_scope_to_wire(s: IntegratorScope) -> (w: WireIntegratorScope)
    ensures
        match s {
            IntegratorScope::Ceremony { ceremony_id } => w.kind@ == "ceremony"@ && w.ceremony_id@ == ceremony_id@
                && w.system_execution_id@.len() == 0,
            IntegratorScope::SystemExecution { system_execution_id } => w.kind@ == "system_execution"@
                && w.system_execution_id@ == system_execution_id@ && w.ceremony_id@.len() == 0,
        },
{
    match s {
        IntegratorScope::Ceremony { ceremony_id } => WireIntegratorScope {
            kind: "ceremony".to_owned(),
            ceremony_id,
            system_execution_id: String::new(),
        },
        IntegratorScope::SystemExecution { system_execution_id } => WireIntegratorScope {
            kind: "system_execution".to_owned(),
            ceremony_id: String::new(),
            system_execution_id,
        },
    }
}

/// A scope written and read back is the same scope.
pub proof fn law_integrator_scope_round_trip(is_ceremony: bool, id: Seq<char>)
    ensures
        integrator_scope_reading(
            if is_ceremony { "ceremony"@ } else { "system_execution"@ },
            if is_ceremony { id } else { Seq::empty() },
            if is_ceremony { Seq::empty() } else { id },
        ) == Some((is_ceremony, id)),
{
    reveal_strlit("ceremony");
    reveal_strlit("system_execution");
    assert("ceremony"@.len() == 8);
    assert("system_execution"@.len() == 16);
}

/// The lease owner named when a claim names none.
pub open spec fn default_lease_owner() -> Seq<char> {
    "grpc-claim-ceremony-step"@
}

/// The lease owner of a claim: the one given, or the default when it is
/// blank.
pub fn lease_owner_or_default(raw: String) -> (owner: String)
    ensures
        owner@ == if is_blank(raw@) { default_lease_owner() } else { raw@ },
{
    proof {
        lemma_trimmed_empty_iff_blank(raw@);
    }
    if trim(raw.as_str()).is_empty() {
        "grpc-claim-ceremony-step".to_owned()
    } else {
        raw
    }
}

/// The idempotency key of a claim: the one given, or one minted from a
/// fresh identifier when it is blank. A minted key buys no replay
/// protection, which is what asking for none means.
pub fn idempotency_key_or_minted(raw: String, fresh_id: &str) -> (key: String)
    ensures
        key@ == if is_blank(raw@) { "grpc-claim-"@ + fresh_id@ } else { raw@ },
{
    proof {
        lemma_trimmed_empty_iff_blank(raw@);
    }
    if trim(raw.as_str()).is_empty() {
        let mut key = "grpc-claim-".to_owned();
        key.append(fresh_id);
        key
    } else {
        raw
    }
}

} // verus!

use made_adapters::wire::timestamp::{emitted_at_or, WireTimestamp};
use time::OffsetDateTime;
use made_adapters::wire::choices::{
    acknowledgement_kind_from_wire, activation_mode_from_wire, claim_disposition_kind_from_wire, intent_note,
    lease_owner_or_default, optional, AcknowledgementKind, ClaimDispositionKind, HostActivationMode,
    InvalidAcknowledgement, InvalidClaimDispositionKind,
};
use made_adapters::wire::stage::{saturating_count, stage_shape, StageShape, StageShapeError, WireStageFields};
use made_adapters::wire::trigger::{
    optional_event_id, trigger_constraints, trigger_text, TriggerConstraints, WireTriggerConstraints,
    WireTriggerText,
};

fn bare_stage(id: &str) -> WireStageFields {
    WireStageFields {
        id: id.to_owned(),
        has_pattern: false,
        has_group: false,
        owner_role_id: String::new(),
        instructions: String::new(),
        handler: String::new(),
        has_see_prior: false,
        has_num_agents: false,
        review_rounds: 0,
        has_repeat: false,
        exit_guards: 0,
        role_from: String::new(),
        allowed_roles: 0,
        context_writes: 0,
        has_aggregate: false,
        has_spawn: false,
    }
}

#[test]
fn a_stage_with_nothing_set_is_a_leaf() {
    assert_eq!(stage_shape(bare_stage("s")), Ok(StageShape::Leaf));
    let mut leaf = bare_stage("s");
    leaf.owner_role_id = "lead".to_owned();
    leaf.review_rounds = 2;
    assert_eq!(stage_shape(leaf), Ok(StageShape::Leaf));
}

#[test]
fn a_pattern_stage_sets_nothing_else() {
    let mut pattern = bare_stage("debate");
    pattern.has_pattern = true;
    assert_eq!(stage_shape(pattern), Ok(StageShape::Pattern));

    let mut with_group = bare_stage("debate");
    with_group.has_pattern = true;
    with_group.has_group = true;
    let error = stage_shape(with_group).unwrap_err();
    assert_eq!(error, StageShapeError::PatternWithOtherFields { stage_id: "debate".to_owned() });
    assert_eq!(error.reason(), "pattern stage `debate` cannot also declare leaf/group fields");

    let mut with_spawn = bare_stage("debate");
    with_spawn.has_pattern = true;
    with_spawn.has_spawn = true;
    assert!(matches!(stage_shape(with_spawn), Err(StageShapeError::PatternWithOtherFields { .. })));
}

#[test]
fn a_group_stage_sets_no_leaf_field() {
    let mut group = bare_stage("fanout");
    group.has_group = true;
    assert_eq!(stage_shape(group), Ok(StageShape::Group));

    for set in 0..13 {
        let mut mixed = bare_stage("fanout");
        mixed.has_group = true;
        match set {
            0 => mixed.owner_role_id = "r".to_owned(),
            1 => mixed.instructions = "do".to_owned(),
            2 => mixed.handler = "h".to_owned(),
            3 => mixed.has_see_prior = true,
            4 => mixed.has_num_agents = true,
            5 => mixed.review_rounds = 1,
            6 => mixed.has_repeat = true,
            7 => mixed.exit_guards = 1,
            8 => mixed.role_from = "ctx".to_owned(),
            9 => mixed.allowed_roles = 1,
            10 => mixed.context_writes = 1,
            11 => mixed.has_aggregate = true,
            _ => mixed.has_spawn = true,
        }
        let error = stage_shape(mixed).unwrap_err();
        assert_eq!(error.reason(), "group stage `fanout` cannot also declare leaf fields");
    }
}

#[test]
fn wide_counts_saturate() {
    assert_eq!(saturating_count(3), 3);
    assert_eq!(saturating_count(u64::from(u32::MAX)), u32::MAX);
    assert_eq!(saturating_count(u64::from(u32::MAX) + 1), u32::MAX);
}

#[test]
fn blank_trigger_text_takes_its_defaults() {
    let text = trigger_text(
        WireTriggerText {
            event_id: "  ".to_owned(),
            correlation_id: String::new(),
            causation_id: "\t\n".to_owned(),
            task_description_template: " ".to_owned(),
        },
        "minted-1".to_owned(),
    );
    assert_eq!(text.event_id, "minted-1");
    assert_eq!(text.correlation_id, None);
    assert_eq!(text.causation_id, None);
    assert_eq!(text.task_description_template, None);
}

#[test]
fn stated_trigger_text_is_kept() {
    let text = trigger_text(
        WireTriggerText {
            event_id: " ev-1 ".to_owned(),
            correlation_id: "  corr-9 ".to_owned(),
            causation_id: "cause".to_owned(),
            task_description_template: " Triage {alert} ".to_owned(),
        },
        "minted-1".to_owned(),
    );
    assert_eq!(text.event_id, " ev-1 ");
    assert_eq!(text.correlation_id.as_deref(), Some("corr-9"));
    assert_eq!(text.causation_id.as_deref(), Some("cause"));
    assert_eq!(text.task_description_template.as_deref(), Some(" Triage {alert} "));
    assert_eq!(optional_event_id("\u{3000}x\u{a0}").as_deref(), Some("x"));
}

#[test]
fn zero_constraints_are_unset() {
    assert_eq!(
        trigger_constraints(WireTriggerConstraints { rounds: 0, num_agents: 0, deadline_ms: 0 }),
        TriggerConstraints { rounds: None, num_agents: None, deadline_ms: None }
    );
    assert_eq!(
        trigger_constraints(WireTriggerConstraints { rounds: 3, num_agents: 2, deadline_ms: 1500 }),
        TriggerConstraints { rounds: Some(3), num_agents: Some(2), deadline_ms: Some(1500) }
    );
}

#[test]
fn claim_dispositions_take_what_their_kind_needs() {
    assert_eq!(
        claim_disposition_kind_from_wire("abandon_no_external_effect", "e".to_owned(), "r".to_owned()),
        Ok(ClaimDispositionKind::AbandonNoExternalEffect)
    );
    assert_eq!(
        claim_disposition_kind_from_wire("abandon_effect_reconciled", "ev".to_owned(), "r".to_owned()),
        Ok(ClaimDispositionKind::AbandonEffectReconciled { evidence: "ev".to_owned() })
    );
    assert_eq!(
        claim_disposition_kind_from_wire("carry_receipt", "ev".to_owned(), "rcpt".to_owned()),
        Ok(ClaimDispositionKind::CarryReceipt { receipt_id: "rcpt".to_owned() })
    );
    assert_eq!(
        claim_disposition_kind_from_wire("retry_in_successor", String::new(), String::new()),
        Ok(ClaimDispositionKind::RetryInSuccessor)
    );
    assert_eq!(
        claim_disposition_kind_from_wire("retry", String::new(), String::new()),
        Err(InvalidClaimDispositionKind)
    );
}

#[test]
fn acknowledgements_are_intent_processed_or_failed() {
    assert_eq!(acknowledgement_kind_from_wire("intent"), Ok(AcknowledgementKind::Intent));
    assert_eq!(acknowledgement_kind_from_wire("processed"), Ok(AcknowledgementKind::Processed));
    assert_eq!(acknowledgement_kind_from_wire("failed"), Ok(AcknowledgementKind::Failed));
    assert_eq!(acknowledgement_kind_from_wire("Intent"), Err(InvalidAcknowledgement));
    assert_eq!(intent_note(String::new(), "restart_step"), "integrator intends restart_step");
    assert_eq!(intent_note("on it".to_owned(), "restart_step"), "on it");
    assert_eq!(optional(String::new()), None);
    assert_eq!(optional(" ".to_owned()), Some(" ".to_owned()));
}

#[test]
fn trimming_removes_unicode_white_space_only() {
    assert_eq!(activation_mode_from_wire("\u{2003}command\r\n"), Ok(HostActivationMode::Command));
    assert_eq!(lease_owner_or_default("\u{85}\u{2028}".to_owned()), "grpc-claim-ceremony-step");
    assert_eq!(lease_owner_or_default("\u{200b}".to_owned()), "\u{200b}");
}

fn now() -> OffsetDateTime {
    OffsetDateTime::from_unix_timestamp(1_776_254_400).unwrap()
}

fn blank_text() -> WireTriggerText {
    WireTriggerText {
        event_id: String::new(),
        correlation_id: String::new(),
        causation_id: String::new(),
        task_description_template: String::new(),
    }
}

#[test]
fn well_formed_trigger_roundtrips_with_minted_event_id() {
    let fresh = uuid::Uuid::new_v4().to_string();
    let text = trigger_text(blank_text(), fresh.clone());
    assert_eq!(text.event_id, fresh);
    assert!(!text.event_id.is_empty());
    assert_eq!(emitted_at_or(None, now()), now());
}

#[test]
fn supplied_causal_ids_are_preserved() {
    let mut wire = blank_text();
    wire.correlation_id = "corr-1".to_owned();
    wire.causation_id = "cause-1".to_owned();
    let text = trigger_text(wire, "fresh".to_owned());
    assert_eq!(text.correlation_id.as_deref(), Some("corr-1"));
    assert_eq!(text.causation_id.as_deref(), Some("cause-1"));
}

#[test]
fn supplied_emitted_at_is_preserved() {
    let emitted = emitted_at_or(Some(WireTimestamp { seconds: 1_800_000_000, nanos: 0 }), now());
    assert_ne!(emitted, now());
}

#[test]
fn blank_template_is_treated_as_absent() {
    let mut wire = blank_text();
    wire.task_description_template = "   ".to_owned();
    let text = trigger_text(wire, "fresh".to_owned());
    assert!(text.task_description_template.is_none());
}

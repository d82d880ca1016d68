use made_adapters::wire::authorization::{
    authorization_scope_from_wire, authorization_scope_to_wire, AuthorizationScope, ScopeError, ScopeField,
    WireAuthorizationScope,
};
use made_adapters::wire::choices::{
    activation_mode_from_wire, agent_status_page_size, budget_disposition_from_wire, delivery_policy_fields,
    group_execution_from_wire, group_join_from_wire, idempotency_key_or_minted, integrator_scope_from_wire,
    integrator_scope_to_wire, intervention_intent_from_wire, lease_owner_or_default, page_limit_from_wire,
    BudgetDisposition, FollowReplacement, GroupExecution, GroupJoin, HostActivationMode, HostDeliveryMode,
    IntegratorScope, InterventionIntent, InvalidGroupJoin, PageLimitOutOfRange, PageLimitRequest,
    StatedDeliveryPolicy, WireGroupJoin, WireIntegratorScope,
};

fn scopes() -> Vec<AuthorizationScope> {
    vec![
        AuthorizationScope::Global,
        AuthorizationScope::Ceremony { ceremony_id: "c-1".to_owned() },
        AuthorizationScope::CeremonyTree { root_id: "root".to_owned() },
        AuthorizationScope::Definition { name: "triage".to_owned(), version: Some("2".to_owned()) },
        AuthorizationScope::Definition { name: "triage".to_owned(), version: None },
        AuthorizationScope::Artifact { artifact_id: "a-1".to_owned() },
        AuthorizationScope::Council { council_id: "council-x".to_owned() },
        AuthorizationScope::Budget { account_id: "acct".to_owned() },
    ]
}

fn same_scope(scope: &AuthorizationScope) -> AuthorizationScope {
    match scope {
        AuthorizationScope::Global => AuthorizationScope::Global,
        AuthorizationScope::Ceremony { ceremony_id } => AuthorizationScope::Ceremony { ceremony_id: ceremony_id.clone() },
        AuthorizationScope::CeremonyTree { root_id } => AuthorizationScope::CeremonyTree { root_id: root_id.clone() },
        AuthorizationScope::ResolvedCeremony { ceremony_id, root_id } => {
            AuthorizationScope::ResolvedCeremony { ceremony_id: ceremony_id.clone(), root_id: root_id.clone() }
        }
        AuthorizationScope::Definition { name, version } => AuthorizationScope::Definition { name: name.clone(), version: version.clone() },
        AuthorizationScope::Artifact { artifact_id } => AuthorizationScope::Artifact { artifact_id: artifact_id.clone() },
        AuthorizationScope::Council { council_id } => AuthorizationScope::Council { council_id: council_id.clone() },
        AuthorizationScope::Budget { account_id } => AuthorizationScope::Budget { account_id: account_id.clone() },
    }
}

#[test]
fn authorization_scopes_round_trip() {
    for scope in scopes() {
        let expected = same_scope(&scope);
        let wire = authorization_scope_to_wire(scope);
        assert_eq!(authorization_scope_from_wire(wire).unwrap(), expected);
    }
}

#[test]
fn a_resolved_ceremony_is_written_but_not_accepted() {
    let wire = authorization_scope_to_wire(AuthorizationScope::ResolvedCeremony {
        ceremony_id: "c".to_owned(),
        root_id: "r".to_owned(),
    });
    assert_eq!(wire.kind, "resolved_ceremony");
    assert_eq!(wire.ceremony_id.as_deref(), Some("c"));
    assert_eq!(wire.root_id.as_deref(), Some("r"));
    assert_eq!(
        authorization_scope_from_wire(wire),
        Err(ScopeError::UnknownKind { kind: "resolved_ceremony".to_owned() })
    );
}

#[test]
fn a_scope_missing_its_field_is_refused() {
    let wire = WireAuthorizationScope { kind: "council".to_owned(), ..WireAuthorizationScope::default() };
    assert_eq!(authorization_scope_from_wire(wire), Err(ScopeError::Missing(ScopeField::CouncilId)));
    let wire = WireAuthorizationScope { kind: "definition".to_owned(), ..WireAuthorizationScope::default() };
    assert_eq!(authorization_scope_from_wire(wire), Err(ScopeError::Missing(ScopeField::DefinitionName)));
    let wire = WireAuthorizationScope { kind: "Global".to_owned(), ..WireAuthorizationScope::default() };
    assert_eq!(authorization_scope_from_wire(wire), Err(ScopeError::UnknownKind { kind: "Global".to_owned() }));
}

#[test]
fn group_execution_and_join_words() {
    assert_eq!(group_execution_from_wire(""), Ok(GroupExecution::Sequential));
    assert_eq!(group_execution_from_wire("sequential"), Ok(GroupExecution::Sequential));
    assert_eq!(group_execution_from_wire("concurrent"), Ok(GroupExecution::Concurrent));
    assert!(group_execution_from_wire("parallel").is_err());
    let join = |c: &str, n: Option<u32>| Some(WireGroupJoin { condition: c.to_owned(), count: n });
    assert_eq!(group_join_from_wire(None), Ok(GroupJoin::AllStepsCompleted));
    assert_eq!(group_join_from_wire(join("", None)), Ok(GroupJoin::AllStepsCompleted));
    assert_eq!(group_join_from_wire(join("any_step_completed", None)), Ok(GroupJoin::AnyStepCompleted));
    assert_eq!(group_join_from_wire(join("steps_completed", Some(2))), Ok(GroupJoin::StepsCompleted(2)));
    assert_eq!(group_join_from_wire(join("steps_completed", None)), Err(InvalidGroupJoin::MissingCount));
    assert_eq!(group_join_from_wire(join("all_steps_completed", Some(2))), Err(InvalidGroupJoin::Invalid));
    assert_eq!(group_join_from_wire(join("most", None)), Err(InvalidGroupJoin::Invalid));
}

#[test]
fn activation_mode_defaults_to_none() {
    assert_eq!(activation_mode_from_wire(""), Ok(HostActivationMode::NoActivation));
    assert_eq!(activation_mode_from_wire("  none "), Ok(HostActivationMode::NoActivation));
    assert_eq!(activation_mode_from_wire("command"), Ok(HostActivationMode::Command));
    assert!(activation_mode_from_wire("wake").is_err());
}

#[test]
fn the_four_intents_are_read_and_anything_else_is_refused() {
    for (raw, expected) in [
        ("question", InterventionIntent::Question),
        ("feedback", InterventionIntent::Feedback),
        ("constraint", InterventionIntent::Constraint),
        ("checkpoint", InterventionIntent::Checkpoint),
        ("  question  ", InterventionIntent::Question),
    ] {
        assert_eq!(intervention_intent_from_wire(raw).unwrap(), expected, "{raw}");
    }
    assert!(intervention_intent_from_wire("urgent").is_err());
    assert!(intervention_intent_from_wire("").is_err());
}

fn stated() -> StatedDeliveryPolicy {
    StatedDeliveryPolicy { mode: None, lease_duration_ms: None, ack_timeout_ms: None, max_attempts: None, follow_replacement: None }
}

#[test]
fn an_empty_policy_is_the_engines_defaults_and_not_a_policy_of_zeroes() {
    let policy = delivery_policy_fields(&stated());
    assert_eq!(policy.mode, HostDeliveryMode::PullLease);
    assert_eq!(policy.lease_duration_ms, 60_000);
    assert_eq!(policy.max_attempts, None);
    assert!(policy.ack_timeout_ms.is_none());
    assert_eq!(policy.follow_replacement, FollowReplacement::Stay);
}

#[test]
fn a_stated_policy_is_read_field_for_field() {
    let policy = delivery_policy_fields(&StatedDeliveryPolicy {
        mode: Some("activation".to_owned()),
        lease_duration_ms: Some(1_000),
        ack_timeout_ms: Some(5_000),
        max_attempts: Some(2),
        follow_replacement: Some(true),
    });
    assert_eq!(policy.mode, HostDeliveryMode::Activation);
    assert_eq!(policy.lease_duration_ms, 1_000);
    assert_eq!(policy.ack_timeout_ms, Some(5_000));
    assert_eq!(policy.max_attempts, Some(2));
    assert_eq!(policy.follow_replacement, FollowReplacement::Follow);
    let huge = delivery_policy_fields(&StatedDeliveryPolicy { max_attempts: Some(u64::MAX), ..stated() });
    assert_eq!(huge.max_attempts, Some(u32::MAX));
}

#[test]
fn an_unrecognised_mode_falls_back_to_pulling() {
    let policy = delivery_policy_fields(&StatedDeliveryPolicy { mode: Some("push".to_owned()), ..stated() });
    assert_eq!(policy.mode, HostDeliveryMode::PullLease);
}

#[test]
fn successor_budget_words() {
    assert_eq!(budget_disposition_from_wire(""), Ok(BudgetDisposition::Fresh));
    assert_eq!(budget_disposition_from_wire("fresh"), Ok(BudgetDisposition::Fresh));
    assert_eq!(budget_disposition_from_wire("transfer_remaining"), Ok(BudgetDisposition::TransferRemaining));
    assert!(budget_disposition_from_wire("keep").is_err());
}

#[test]
fn page_limits_default_on_zero_and_refuse_overflow() {
    assert_eq!(page_limit_from_wire(0), Ok(PageLimitRequest::Default));
    assert_eq!(page_limit_from_wire(65_535), Ok(PageLimitRequest::Requested(65_535)));
    assert_eq!(page_limit_from_wire(65_536), Err(PageLimitOutOfRange { value: 65_536 }));
    assert_eq!(agent_status_page_size(0), 50);
    assert_eq!(agent_status_page_size(7), 7);
}

#[test]
fn integrator_scopes_round_trip() {
    let wire = integrator_scope_to_wire(IntegratorScope::Ceremony { ceremony_id: "c-1".to_owned() });
    assert_eq!(wire, WireIntegratorScope { kind: "ceremony".to_owned(), ceremony_id: "c-1".to_owned(), system_execution_id: String::new() });
    assert_eq!(integrator_scope_from_wire(wire), Ok(IntegratorScope::Ceremony { ceremony_id: "c-1".to_owned() }));
    let wire = integrator_scope_to_wire(IntegratorScope::SystemExecution { system_execution_id: "s-1".to_owned() });
    assert_eq!(integrator_scope_from_wire(wire), Ok(IntegratorScope::SystemExecution { system_execution_id: "s-1".to_owned() }));
    assert!(integrator_scope_from_wire(WireIntegratorScope {
        kind: "agent".to_owned(),
        ceremony_id: String::new(),
        system_execution_id: String::new()
    })
    .is_err());
}

#[test]
fn an_unstated_lease_owner_and_key_get_defaults() {
    assert_eq!(lease_owner_or_default("  ".to_owned()), "grpc-claim-ceremony-step");
    assert_eq!(lease_owner_or_default("host-runner-3".to_owned()), "host-runner-3");
    assert_eq!(idempotency_key_or_minted(String::new(), "abc"), "grpc-claim-abc");
    assert_eq!(idempotency_key_or_minted("claim-42".to_owned(), "abc"), "claim-42");
}

#[test]
fn an_explicit_lease_and_key_are_carried_through_untouched() {
    assert_eq!(lease_owner_or_default("host-runner-3".to_owned()), "host-runner-3");
    assert_eq!(idempotency_key_or_minted("claim-42".to_owned(), "fresh"), "claim-42");
}

use sha2::{Digest, Sha256};
use made_adapters::execution::durable_fixture::{
    check_effect, effect_path, fixture_connector_id_string, fixture_external_operation_id, settlement,
    EffectPublication, FixtureError, Settlement,
};
use made_adapters::execution::oci::{
    attach_failure, check_container_labels, container_name, create_arguments, drained_failure,
    image_reference_is_pinned, network_isolated, preparation_after_inspection, preparation_start,
    recovery_step, validate_policy, AttachEnd, ContainerPlan, ContainerSnapshot, CreateAttempt,
    OciError, OciExecutionRequest, OciPolicy, Preparation, RecoveryStep, RunFailure,
};
use made_adapters::execution::operation_record::{
    check_record_identity, operation_key, seal_outcome, RecordConflict, SealAttempt, SealError,
};
use made_adapters::execution::profile_resolver::{
    ProfileRefusal, ProfileSelection, StaticExecutionProfileResolver,
};
use made_adapters::execution::repository_script::{
    admission_outcome, external_operation_id, script_candidate, script_next, sealed_request_check,
    validate_script_result, AdmissionAttempt, OperationRootInspection, RepositoryScriptError,
    RepositoryScriptExecutionConnector, ScriptEvent, ScriptNext, ScriptPhase, ScriptResult,
};
use made_adapters::execution::step_status::{observable_status_from_label, terminal_result, StepStatus};
use made_adapters::local_execution::adapter::ExecutableInspection;
use made_adapters::local_execution::{RootInspection, Timeout};

fn strings(items: &[&str]) -> Vec<String> {
    items.iter().map(|s| (*s).to_owned()).collect()
}

fn profile(actual_capabilities: &[&str]) -> ProfileSelection {
    ProfileSelection {
        actual_model: "balanced".to_owned(),
        required_capabilities: strings(&["review"]),
        actual_capabilities: strings(actual_capabilities),
        resolution_refusal: None,
    }
}

#[test]
fn unsupported_model_is_actionable() {
    let resolver = StaticExecutionProfileResolver::new(strings(&["small"]), strings(&["review"]));
    let error = resolver.resolve(&profile(&["review"])).unwrap_err();
    assert_eq!(error, ProfileRefusal::UnsupportedModel);
    assert!(error.reason().contains("supported fallback"));
}

#[test]
fn supported_fallback_is_accepted() {
    let resolver = StaticExecutionProfileResolver::new(strings(&["balanced"]), strings(&["review"]));
    assert!(resolver.resolve(&profile(&["review"])).is_ok());
}

#[test]
fn invented_actual_capability_is_rejected() {
    let resolver = StaticExecutionProfileResolver::new(strings(&["balanced"]), strings(&["review"]));
    let error = resolver.resolve(&profile(&["review", "invented"])).unwrap_err();
    assert_eq!(error, ProfileRefusal::UnknownActualCapability);
    assert!(error.reason().contains("not in the host inventory"));
}

#[test]
fn missing_required_capability_is_refused_before_selected_ones() {
    let resolver = StaticExecutionProfileResolver::new(strings(&["balanced", "balanced"]), strings(&["draft"]));
    let error = resolver.resolve(&profile(&["invented"])).unwrap_err();
    assert_eq!(error, ProfileRefusal::MissingRequiredCapability);
    assert!(error.reason().contains("actionable fallback"));
}

#[test]
fn a_status_nobody_can_observe_is_refused() {
    for raw in ["", "pending", "in_progress", "COMPLETED", "done"] {
        assert!(observable_status_from_label(raw).is_err(), "{raw:?} was accepted as an observable result");
    }
}

#[test]
fn every_observable_status_the_schema_offers_is_understood() {
    for status in [StepStatus::Completed, StepStatus::Failed, StepStatus::WaitingForHuman, StepStatus::Cancelled] {
        assert_eq!(observable_status_from_label(status.as_label()).unwrap(), status);
    }
}

#[test]
fn a_terminal_result_carries_an_error_exactly_when_it_failed() {
    assert!(terminal_result(StepStatus::Completed, false));
    assert!(!terminal_result(StepStatus::Completed, true));
    assert!(terminal_result(StepStatus::Failed, true));
    assert!(!terminal_result(StepStatus::Failed, false));
    assert!(!terminal_result(StepStatus::Pending, false));
    assert!(!terminal_result(StepStatus::InProgress, false));
    assert!(terminal_result(StepStatus::Cancelled, false));
}

#[test]
fn operation_key_is_the_hex_sha256_of_the_id() {
    let expected = format!("{:x}", Sha256::digest(b"ceremony/work/1"));
    assert_eq!(operation_key("ceremony/work/1"), expected);
    assert_eq!(container_name(&operation_key("x")), format!("made-oci-{:x}", Sha256::digest(b"x")));
}

#[test]
fn records_are_observed_only_for_their_own_operation() {
    assert_eq!(check_record_identity("d1", "f1", "d1", "f1"), Ok(()));
    assert_eq!(check_record_identity("d2", "f2", "d1", "f1"), Err(RecordConflict::RequestDigest));
    assert_eq!(check_record_identity("d1", "f2", "d1", "f1"), Err(RecordConflict::ProducerClaimFence));
}

#[test]
fn sealing_publishes_once_and_detects_conflicts() {
    assert_eq!(seal_outcome(SealAttempt::Published, b"abc"), Ok(true));
    assert_eq!(seal_outcome(SealAttempt::AlreadyExists { existing: Some(b"abc".to_vec()) }, b"abc"), Ok(false));
    assert_eq!(seal_outcome(SealAttempt::AlreadyExists { existing: Some(b"abd".to_vec()) }, b"abc"), Err(SealError::Conflict));
    assert_eq!(seal_outcome(SealAttempt::AlreadyExists { existing: None }, b"abc"), Err(SealError::Unreadable));
    assert_eq!(seal_outcome(SealAttempt::Failed, b"abc"), Err(SealError::CannotSeal));
}

fn pinned_image() -> String {
    format!("registry.example/tool@sha256:{}", "ab12".repeat(16))
}

fn policy() -> OciPolicy {
    OciPolicy {
        image: pinned_image(),
        network: "none".to_owned(),
        uid: 1000,
        cpus_finite_and_positive: true,
        memory_bytes: 64 * 1024 * 1024,
        pids: 64,
        max_output_bytes: 1 << 20,
        timeout: Timeout::from_secs(30),
    }
}

#[test]
fn only_digest_pinned_images_are_accepted() {
    assert!(image_reference_is_pinned(&pinned_image()));
    assert!(image_reference_is_pinned(&format!("a@sha256:{}", "AB12".repeat(16))));
    assert!(!image_reference_is_pinned(&format!("@sha256:{}", "ab12".repeat(16))));
    assert!(!image_reference_is_pinned(&format!("tool@sha256:{}", "ab1".repeat(21))));
    assert!(!image_reference_is_pinned(&format!("tool@sha256:{}g", "ab12".repeat(15) + "ab1")));
    assert!(!image_reference_is_pinned("tool:latest"));
    assert!(!image_reference_is_pinned(&format!("tool@sha512:{}", "ab12".repeat(16))));
}

#[test]
fn host_and_container_networks_are_refused() {
    assert!(network_isolated("none"));
    assert!(network_isolated("made-net"));
    assert!(!network_isolated(""));
    assert!(!network_isolated("host"));
    assert!(!network_isolated("container:abc"));
    assert!(network_isolated("hostile"));
}

fn dir(path: &str) -> RootInspection {
    RootInspection::Resolved { canonical: path.to_owned(), is_directory: true }
}

#[test]
fn oci_policy_is_checked_before_paths() {
    let paths = validate_policy(&policy(), dir("/srv/ws"), dir("/var/made/ops")).unwrap();
    assert_eq!(paths.workspace, "/srv/ws");
    assert_eq!(paths.operation_root, "/var/made/ops");
    let mut root = policy();
    root.uid = 0;
    assert_eq!(validate_policy(&root, RootInspection::Unavailable, RootInspection::Unavailable).err(), Some(OciError::InvalidPolicy));
    let mut small = policy();
    small.memory_bytes = 6 * 1024 * 1024 - 1;
    assert_eq!(validate_policy(&small, dir("/srv/ws"), dir("/ops")).err(), Some(OciError::InvalidPolicy));
    let mut instant = policy();
    instant.timeout = Timeout::from_secs(0);
    assert_eq!(validate_policy(&instant, dir("/srv/ws"), dir("/ops")).err(), Some(OciError::InvalidPolicy));
    assert_eq!(validate_policy(&policy(), RootInspection::Unavailable, dir("/ops")).err(), Some(OciError::WorkspaceUnavailable));
    assert_eq!(validate_policy(&policy(), dir("/srv/w,s"), dir("/ops")).err(), Some(OciError::InvalidWorkspace));
    assert_eq!(
        validate_policy(&policy(), RootInspection::Resolved { canonical: "/srv/ws".to_owned(), is_directory: false }, dir("/ops")).err(),
        Some(OciError::InvalidWorkspace)
    );
    assert_eq!(validate_policy(&policy(), dir("/srv/ws"), RootInspection::Unavailable).err(), Some(OciError::OperationRootUnavailable));
    assert_eq!(validate_policy(&policy(), dir("/srv/ws"), dir("/srv/ws/ops")).err(), Some(OciError::OperationRootInsideWorkspace));
}

#[test]
fn an_oci_request_must_name_a_program() {
    assert_eq!(OciExecutionRequest { argv: vec![] }.validate(), Err(OciError::EmptyArgv));
    assert_eq!(OciExecutionRequest { argv: strings(&["", "x"]) }.validate(), Err(OciError::EmptyArgv));
    assert_eq!(OciExecutionRequest { argv: strings(&["/bin/true"]) }.validate(), Ok(()));
}

#[test]
fn create_arguments_confine_the_container() {
    let plan = ContainerPlan {
        name: "made-oci-k".to_owned(),
        image: pinned_image(),
        workspace: "/srv/ws".to_owned(),
        network: "none".to_owned(),
        cpus: "1.5".to_owned(),
        uid: 1000,
        memory_bytes: 67108864,
        pids: 64,
        request_digest: "digest".to_owned(),
        claim_fence: "fence".to_owned(),
        timeout: Timeout::from_millis(2500),
    };
    let args = create_arguments(&plan, OciExecutionRequest { argv: strings(&["/bin/echo", "hi"]) });
    let expected = strings(&[
        "create", "--name", "made-oci-k", "--pull=never", "--user", "1000:1000", "--cap-drop=ALL",
        "--security-opt=no-new-privileges", "--read-only", "--network", "none", "--cpus", "1.5", "--memory",
        "67108864", "--memory-swap", "67108864", "--pids-limit", "64", "--ulimit", "core=0", "--log-driver=none",
        "--mount", "type=bind,src=/srv/ws,dst=/workspace", "--workdir=/workspace", "--label", "made.digest=digest",
        "--label", "made.fence=fence", "--label", "made.timeout-seconds=3",
    ]);
    let mut expected = expected;
    expected.push(pinned_image());
    expected.extend(strings(&["/usr/bin/timeout", "--signal=KILL", "--kill-after=1s", "3s", "/bin/echo", "hi"]));
    assert_eq!(args, expected);
}

fn snapshot(digest: &str, fence: &str, running: bool, status: &str, exit: i64) -> Option<ContainerSnapshot> {
    Some(ContainerSnapshot {
        digest_label: Some(digest.to_owned()),
        fence_label: Some(fence.to_owned()),
        running: Some(running),
        status: Some(status.to_owned()),
        exit_code: Some(exit),
    })
}

#[test]
fn recovery_reads_the_container_that_belongs_to_the_operation() {
    assert_eq!(recovery_step(&None, "d", "f"), Ok(RecoveryStep::Reconcile));
    assert_eq!(recovery_step(&snapshot("x", "f", false, "exited", 0), "d", "f"), Err(OciError::DigestConflict));
    assert_eq!(recovery_step(&snapshot("d", "x", false, "exited", 0), "d", "f"), Err(OciError::FenceConflict));
    assert_eq!(recovery_step(&snapshot("d", "f", true, "running", 0), "d", "f"), Ok(RecoveryStep::TerminateOrphan));
    assert_eq!(recovery_step(&snapshot("d", "f", false, "created", 0), "d", "f"), Ok(RecoveryStep::Reconcile));
    assert_eq!(recovery_step(&snapshot("d", "f", false, "exited", 0), "d", "f"), Ok(RecoveryStep::RecordExit { success: true }));
    assert_eq!(recovery_step(&snapshot("d", "f", false, "exited", 2), "d", "f"), Ok(RecoveryStep::RecordExit { success: false }));
    let unlabelled = ContainerSnapshot { digest_label: None, fence_label: None, running: None, status: None, exit_code: None };
    assert_eq!(check_container_labels(&unlabelled, "d", "f"), Err(OciError::DigestConflict));
}

#[test]
fn an_admitted_operation_is_never_created_again() {
    assert_eq!(preparation_start(true, CreateAttempt::Created, false), Preparation::Ready);
    assert_eq!(preparation_start(true, CreateAttempt::ControlUnavailable, false), Preparation::Query);
    assert_eq!(preparation_start(true, CreateAttempt::Refused, false), Preparation::Inspect);
    assert_eq!(preparation_start(false, CreateAttempt::Created, true), Preparation::Query);
    assert_eq!(preparation_start(false, CreateAttempt::Created, false), Preparation::Inspect);
    assert_eq!(preparation_after_inspection(&None, "d", "f"), Ok(Preparation::Reconcile));
    assert_eq!(preparation_after_inspection(&snapshot("d", "f", false, "created", 0), "d", "f"), Ok(Preparation::Ready));
    assert_eq!(preparation_after_inspection(&snapshot("d", "f", false, "exited", 0), "d", "f"), Ok(Preparation::Query));
}

#[test]
fn a_run_ends_in_the_failure_waiting_decided() {
    assert_eq!(attach_failure(AttachEnd::Cancelled), Some(RunFailure::Cancelled));
    assert_eq!(attach_failure(AttachEnd::TimedOut), Some(RunFailure::TimedOut));
    assert_eq!(attach_failure(AttachEnd::OutputOverflow), Some(RunFailure::OutputLimitExceeded));
    assert_eq!(attach_failure(AttachEnd::Exited), None);
    assert_eq!(drained_failure(false, true, 0, 10), Some(RunFailure::DrainFailed));
    assert_eq!(drained_failure(true, true, 11, 10), Some(RunFailure::OutputLimitExceeded));
    assert_eq!(drained_failure(true, true, 10, 10), None);
}

#[test]
fn repository_script_connector_is_admitted_only_with_its_paths() {
    let exe = |canonical: &str, is_file: bool| ExecutableInspection::Resolved { canonical: canonical.to_owned(), is_file };
    let ops = || OperationRootInspection::Resolved { canonical: "/var/ops".to_owned() };
    assert_eq!(
        RepositoryScriptExecutionConnector::new("c".to_owned(), dir("/repo"), exe("/repo/run.sh", true), ops(), Timeout::from_secs(0)).err(),
        Some(RepositoryScriptError::TimeoutZero)
    );
    assert_eq!(
        RepositoryScriptExecutionConnector::new("c".to_owned(), dir("/repo"), exe("/elsewhere/run.sh", true), ops(), Timeout::from_secs(5)).err(),
        Some(RepositoryScriptError::ExecutableNotAuthorized)
    );
    assert_eq!(
        RepositoryScriptExecutionConnector::new("c".to_owned(), dir("/repo"), exe("/repo/bin", false), ops(), Timeout::from_secs(5)).err(),
        Some(RepositoryScriptError::ExecutableNotAuthorized)
    );
    assert_eq!(
        RepositoryScriptExecutionConnector::new("c".to_owned(), dir("/repo"), exe("/repo/run.sh", true), OperationRootInspection::NotCreated, Timeout::from_secs(5)).err(),
        Some(RepositoryScriptError::OperationRootNotCreated)
    );
    let connector =
        RepositoryScriptExecutionConnector::new("c".to_owned(), dir("/repo"), exe("/repo/run.sh", true), ops(), Timeout::from_secs(5)).unwrap();
    assert_eq!(connector.executable(), "/repo/run.sh");
    assert_eq!(connector.request_path("op-1"), "/var/ops/op-1.request");
    assert_eq!(connector.result_path("op-1"), "/var/ops/op-1.result.json");
    assert_eq!(connector.admission_path("op-1"), "/var/ops/op-1.admitted");
    assert_eq!(external_operation_id("op-1"), "repository-script:op-1");
    assert_eq!(script_candidate("/repo", "scripts/run.sh"), "/repo/scripts/run.sh");
}

#[test]
fn a_sealed_request_may_only_be_sealed_again_with_the_same_bytes() {
    assert_eq!(sealed_request_check(Some(b"req".to_vec()), b"req"), Ok(()));
    assert_eq!(sealed_request_check(Some(b"other".to_vec()), b"req"), Err(RepositoryScriptError::RequestConflict));
    assert_eq!(sealed_request_check(None, b"req"), Err(RepositoryScriptError::SealedRequestUnreadable));
    assert_eq!(admission_outcome(AdmissionAttempt::Created), Ok(true));
    assert_eq!(admission_outcome(AdmissionAttempt::AlreadyAdmitted), Ok(false));
    assert_eq!(admission_outcome(AdmissionAttempt::Failed), Err(RepositoryScriptError::AdmissionNotRecorded));
}

#[test]
fn a_script_result_must_answer_its_operation_and_be_finished() {
    let result = |id: &str, status: StepStatus, has_error: bool| ScriptResult {
        operation_id: id.to_owned(),
        request_digest: "dig".to_owned(),
        producer_claim_fence: "f".to_owned(),
        status,
        has_error_message: has_error,
    };
    assert_eq!(validate_script_result(&result("op", StepStatus::Completed, false), "op", "dig"), Ok(()));
    assert_eq!(validate_script_result(&result("other", StepStatus::Completed, false), "op", "dig"), Err(RepositoryScriptError::ResultConflict));
    assert_eq!(validate_script_result(&result("op", StepStatus::InProgress, false), "op", "dig"), Err(RepositoryScriptError::NonTerminalResult));
    assert_eq!(validate_script_result(&result("op", StepStatus::Failed, false), "op", "dig"), Err(RepositoryScriptError::NonTerminalResult));
    assert_eq!(validate_script_result(&result("op", StepStatus::Completed, true), "op", "dig"), Err(RepositoryScriptError::NonTerminalResult));
}

#[test]
fn a_script_runs_once_and_only_on_fresh_admission() {
    assert_eq!(script_next(ScriptPhase::Start, ScriptEvent::ResultFound(true)), ScriptNext::Observed);
    assert_eq!(script_next(ScriptPhase::Start, ScriptEvent::ResultFound(false)), ScriptNext::SealAndAdmit);
    assert_eq!(script_next(ScriptPhase::Admitting, ScriptEvent::Admitted(true)), ScriptNext::RunScript);
    assert_eq!(
        script_next(ScriptPhase::Admitting, ScriptEvent::Admitted(false)),
        ScriptNext::Query(ScriptPhase::AfterRefusedAdmission)
    );
    assert_eq!(script_next(ScriptPhase::AfterRefusedAdmission, ScriptEvent::ResultFound(false)), ScriptNext::ReconciliationRequired);
    assert_eq!(
        script_next(ScriptPhase::Running, ScriptEvent::Ran { finished_in_time: false, succeeded: false }),
        ScriptNext::ReconciliationRequired
    );
    assert_eq!(
        script_next(ScriptPhase::Running, ScriptEvent::Ran { finished_in_time: true, succeeded: true }),
        ScriptNext::Query(ScriptPhase::AfterRun)
    );
    assert_eq!(script_next(ScriptPhase::AfterRun, ScriptEvent::ResultFound(true)), ScriptNext::Observed);
    assert_eq!(script_next(ScriptPhase::Running, ScriptEvent::Admitted(true)), ScriptNext::Unexpected);
}

#[test]
fn the_fixture_publishes_one_effect_per_operation() {
    assert_eq!(fixture_connector_id_string(), "fixture.filesystem.v1");
    assert_eq!(effect_path("/tmp/fx", "op-1"), "/tmp/fx/op-1.json");
    assert_eq!(fixture_external_operation_id("op-1"), "fixture:op-1");
    assert_eq!(check_effect("op-1", "d", "op-1", "d"), Ok(()));
    assert_eq!(check_effect("op-1", "d2", "op-1", "d"), Err(FixtureError::EffectConflict));
    assert_eq!(settlement(EffectPublication::Published), Ok(Settlement::UseWritten));
    assert_eq!(settlement(EffectPublication::LostRace), Ok(Settlement::ReadPublished));
    assert_eq!(settlement(EffectPublication::AlreadyPresent), Ok(Settlement::ReadPublished));
    assert_eq!(settlement(EffectPublication::Failed), Err(FixtureError::EffectNotPersisted));
}

#[test]
fn refusals_are_reported_by_their_reasons() {
    assert_eq!(OciError::InvalidPolicy.reason(), "invalid OCI execution policy");
    assert_eq!(OciError::OperationRootInsideWorkspace.reason(), "OCI operation evidence must be outside workspace");
    assert_eq!(OciError::FenceConflict.reason(), "OCI producer claim fence");
    assert_eq!(RunFailure::CancelledBeforeStart.reason(), "execution authority was cancelled before OCI start");
    assert_eq!(RunFailure::DrainFailed.reason(), "OCI output drain failed");
    assert_eq!(RunFailure::OrphanTerminated.reason(), "OCI orphan was terminated during recovery");
    assert_eq!(RepositoryScriptError::TimeoutZero.reason(), "repository_script_timeout");
    assert_eq!(
        RepositoryScriptError::ExecutableNotAuthorized.reason(),
        "repository script executable must be a file inside its authorized root"
    );
    assert_eq!(RepositoryScriptError::RequestNotSealed.reason(), "repository script connector cannot seal its request");
    assert_eq!(FixtureError::EffectConflict.reason(), "durable_fixture_effect");
    assert_eq!(FixtureError::EffectCorrupt.reason(), "durable fixture connector effect is unreadable");
    assert_eq!(RecordConflict::ProducerClaimFence.reason(), "operation_producer_claim_fence");
    assert_eq!(SealError::Conflict.reason(), "sealed_operation");
    assert_eq!(SealError::CannotSeal.reason(), "operation cannot be sealed");
}

#[test]
fn a_profile_its_own_resolution_check_refuses_is_refused_after_the_inventory() {
    let resolver = StaticExecutionProfileResolver::new(strings(&["balanced"]), strings(&["review"]));
    let mut refused = profile(&["review"]);
    refused.resolution_refusal = Some("fallback policy forbids this resolution".to_owned());
    let error = resolver.resolve(&refused).unwrap_err();
    assert_eq!(error, ProfileRefusal::ResolutionRefused { reason: "fallback policy forbids this resolution".to_owned() });
    assert_eq!(error.reason(), "fallback policy forbids this resolution");
    let mut unknown_model = profile(&["review"]);
    unknown_model.actual_model = "strong".to_owned();
    unknown_model.resolution_refusal = Some("ignored".to_owned());
    assert_eq!(resolver.resolve(&unknown_model).unwrap_err(), ProfileRefusal::UnsupportedModel);
}

#[test]
fn a_failure_with_no_reason_and_a_success_with_one_are_both_refused() {
    assert!(!terminal_result(StepStatus::Failed, false));
    assert!(!terminal_result(StepStatus::Completed, true));
    assert!(terminal_result(StepStatus::Failed, true));
    assert!(terminal_result(StepStatus::Completed, false));
}

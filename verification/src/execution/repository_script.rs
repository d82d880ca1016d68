use vstd::prelude::*;

use super::operation_record::bytes_equal;
use super::step_status::is_terminal_result;
use super::step_status::terminal_result;
use super::step_status::StepStatus;
use crate::bytes::str_eq;
use crate::local_execution::adapter::ExecutableInspection;
use crate::local_execution::config::RootInspection;
use crate::local_execution::timeout::Timeout;
use crate::paths::join;
use crate::paths::path_join;
use crate::paths::path_starts_with;
use crate::paths::starts_with;

verus! {

/// Why the repository-script connector refused a configuration, a
/// request or a result.
#[derive(Debug, Clone, Copy, PartialEq, Eq, Structural)]
pub enum RepositoryScriptError {
    /// `repository_script_timeout` must be non-zero.
    TimeoutZero,
    /// `repository script root is unavailable`.
    RootUnavailable,
    /// `repository script executable is unavailable`.
    ExecutableUnavailable,
    /// `repository script executable must be a file inside its authorized
    /// root`.
    ExecutableNotAuthorized,
    /// `repository script connector cannot create its operation root`.
    OperationRootNotCreated,
    /// `repository script operation root is unavailable`.
    OperationRootUnavailable,
    /// `repository script connector cannot read its sealed request`.
    SealedRequestUnreadable,
    /// `repository_script_request`: other request bytes were sealed before.
    RequestConflict,
    /// `repository script connector cannot seal its request`.
    RequestNotSealed,
    /// `repository script connector cannot record admission`.
    AdmissionNotRecorded,
    /// `repository script connector cannot sync admission`.
    AdmissionNotSynced,
    /// `repository_script_execution_result`: the result answers another
    /// operation or request.
    ResultConflict,
    /// `repository script returned a non-terminal step result`.
    NonTerminalResult,
}

impl RepositoryScriptError {
    /// The field, conflicting record or reason this refusal is reported with.
    pub fn reason(&self) -> (r: &'static str)
        ensures
            r@ == match *self {
                RepositoryScriptError::TimeoutZero => "repository_script_timeout"@,
                RepositoryScriptError::RootUnavailable => "repository script root is unavailable"@,
                RepositoryScriptError::ExecutableUnavailable => "repository script executable is unavailable"@,
                RepositoryScriptError::ExecutableNotAuthorized => "repository script executable must be a file inside its authorized root"@,
                RepositoryScriptError::OperationRootNotCreated => "repository script connector cannot create its operation root"@,
                RepositoryScriptError::OperationRootUnavailable => "repository script operation root is unavailable"@,
                RepositoryScriptError::SealedRequestUnreadable => "repository script connector cannot read its sealed request"@,
                RepositoryScriptError::RequestConflict => "repository_script_request"@,
                RepositoryScriptError::RequestNotSealed => "repository script connector cannot seal its request"@,
                RepositoryScriptError::AdmissionNotRecorded => "repository script connector cannot record admission"@,
                RepositoryScriptError::AdmissionNotSynced => "repository script connector cannot sync admission"@,
                RepositoryScriptError::ResultConflict => "repository_script_execution_result"@,
                RepositoryScriptError::NonTerminalResult => "repository script returned a non-terminal step result"@,
            },
    {
        match self {
            RepositoryScriptError::TimeoutZero => "repository_script_timeout",
            RepositoryScriptError::RootUnavailable => "repository script root is unavailable",
            RepositoryScriptError::ExecutableUnavailable => "repository script executable is unavailable",
            RepositoryScriptError::ExecutableNotAuthorized => "repository script executable must be a file inside its authorized root",
            RepositoryScriptError::OperationRootNotCreated => "repository script connector cannot create its operation root",
            RepositoryScriptError::OperationRootUnavailable => "repository script operation root is unavailable",
            RepositoryScriptError::SealedRequestUnreadable => "repository script connector cannot read its sealed request",
            RepositoryScriptError::RequestConflict => "repository_script_request",
            RepositoryScriptError::RequestNotSealed => "repository script connector cannot seal its request",
            RepositoryScriptError::AdmissionNotRecorded => "repository script connector cannot record admission",
            RepositoryScriptError::AdmissionNotSynced => "repository script connector cannot sync admission",
            RepositoryScriptError::ResultConflict => "repository_script_execution_result",
            RepositoryScriptError::NonTerminalResult => "repository script returned a non-terminal step result",
        }
    }
}

/// What the host found when preparing the operation root: it could not be
/// created, could not be canonicalised, or resolved to this path.
pub enum OperationRootInspection {
    NotCreated,
    Unavailable,
    Resolved { canonical: String },
}

/// Runs an explicitly configured repository script with a durable
/// operation protocol.
pub struct RepositoryScriptExecutionConnector {
    id: String,
    repository_root: String,
    executable: String,
    operation_root: String,
    timeout: Timeout,
}

/// What a repository-script connector holds.
pub struct RepositoryScriptView {
    pub id: Seq<char>,
    pub repository_root: Seq<char>,
    pub executable: Seq<char>,
    pub operation_root: Seq<char>,
    pub timeout: Timeout,
}

impl View for RepositoryScriptExecutionConnector {
    type V = RepositoryScriptView;

    closed spec fn view(&self) -> RepositoryScriptView {
        RepositoryScriptView {
            id: self.id@,
            repository_root: self.repository_root@,
            executable: self.executable@,
            operation_root: self.operation_root@,
            timeout: self.timeout,
        }
    }
}

/// The path an executable is looked up at: joined onto the canonical
/// repository root.
pub fn script_candidate(repository_root: &str, executable: &str) -> (p: String)
    ensures
        p@ == path_join(repository_root@, executable@),
{
    join(repository_root, executable)
}

impl RepositoryScriptExecutionConnector {
    /// Admits a connector: a non-zero timeout, an existing repository
    /// root, an executable file inside it, and an operation root that can
    /// be created; paths are held canonical.
    pub fn new(
        id: String,
        repository_root: RootInspection,
        executable: ExecutableInspection,
        operation_root: OperationRootInspection,
        timeout: Timeout,
    ) -> (r: Result<Self, RepositoryScriptError>)
        ensures
            timeout.total_nanos() == 0 ==> r == Err::<Self, RepositoryScriptError>(RepositoryScriptError::TimeoutZero),
            timeout.total_nanos() != 0 ==> match repository_root {
                RootInspection::Unavailable => r == Err::<Self, RepositoryScriptError>(RepositoryScriptError::RootUnavailable),
                RootInspection::Resolved { canonical: root, is_directory: _ } => match executable {
                    ExecutableInspection::Unavailable => r == Err::<Self, RepositoryScriptError>(RepositoryScriptError::ExecutableUnavailable),
                    ExecutableInspection::Resolved { canonical: exe, is_file } => if !path_starts_with(exe@, root@) || !is_file {
                        r == Err::<Self, RepositoryScriptError>(RepositoryScriptError::ExecutableNotAuthorized)
                    } else {
                        match operation_root {
                            OperationRootInspection::NotCreated => r == Err::<Self, RepositoryScriptError>(RepositoryScriptError::OperationRootNotCreated),
                            OperationRootInspection::Unavailable => r == Err::<Self, RepositoryScriptError>(RepositoryScriptError::OperationRootUnavailable),
                            OperationRootInspection::Resolved { canonical: ops } => r matches Ok(c) && c@ == (RepositoryScriptView {
                                id: id@,
                                repository_root: root@,
                                executable: exe@,
                                operation_root: ops@,
                                timeout,
                            }),
                        }
                    },
                },
            },
    {
        if timeout.is_zero() {
            return Err(RepositoryScriptError::TimeoutZero);
        }
        let repository_root = match repository_root {
            RootInspection::Unavailable => return Err(RepositoryScriptError::RootUnavailable),
            RootInspection::Resolved { canonical, is_directory: _ } => canonical,
        };
        let executable = match executable {
            ExecutableInspection::Unavailable => return Err(RepositoryScriptError::ExecutableUnavailable),
            ExecutableInspection::Resolved { canonical, is_file } => {
                if !starts_with(canonical.as_str(), repository_root.as_str()) || !is_file {
                    return Err(RepositoryScriptError::ExecutableNotAuthorized);
                }
                canonical
            },
        };
        let operation_root = match operation_root {
            OperationRootInspection::NotCreated => return Err(RepositoryScriptError::OperationRootNotCreated),
            OperationRootInspection::Unavailable => return Err(RepositoryScriptError::OperationRootUnavailable),
            OperationRootInspection::Resolved { canonical } => canonical,
        };
        Ok(RepositoryScriptExecutionConnector { id, repository_root, executable, operation_root, timeout })
    }

    pub fn id(&self) -> (i: &str)
        ensures
            i@ == self@.id,
    {
        self.id.as_str()
    }

    pub fn repository_root(&self) -> (p: &str)
        ensures
            p@ == self@.repository_root,
    {
        self.repository_root.as_str()
    }

    pub fn executable(&self) -> (p: &str)
        ensures
            p@ == self@.executable,
    {
        self.executable.as_str()
    }

    pub fn timeout(&self) -> (t: Timeout)
        ensures
            t == self@.timeout,
    {
        self.timeout
    }

    /// Where the operation's sealed request bytes are kept.
    pub fn request_path(&self, operation_id: &str) -> (p: String)
        ensures
            p@ == path_join(self@.operation_root, operation_id@ + ".request"@),
    {
        let mut name = operation_id.to_owned();
        name.append(".request");
        join(self.operation_root.as_str(), name.as_str())
    }

    /// Where the script writes the operation's durable result.
    pub fn result_path(&self, operation_id: &str) -> (p: String)
        ensures
            p@ == path_join(self@.operation_root, operation_id@ + ".result.json"@),
    {
        let mut name = operation_id.to_owned();
        name.append(".result.json");
        join(self.operation_root.as_str(), name.as_str())
    }

    /// The marker whose creation admits the operation, once.
    pub fn admission_path(&self, operation_id: &str) -> (p: String)
        ensures
            p@ == path_join(self@.operation_root, operation_id@ + ".admitted"@),
    {
        let mut name = operation_id.to_owned();
        name.append(".admitted");
        join(self.operation_root.as_str(), name.as_str())
    }
}

/// The external operation id reported for a script run.
pub fn external_operation_id(operation_id: &str) -> (e: String)
    ensures
        e@ == "repository-script:"@ + operation_id@,
{
    let mut e = "repository-script:".to_owned();
    e.append(operation_id);
    e
}

/// Request bytes are sealed once: finding the same bytes is fine, other
/// bytes are a conflict. `stored` is `None` when the sealed file could not
/// be read.
pub fn sealed_request_check(stored: Option<Vec<u8>>, bytes: &[u8]) -> (r: Result<(), RepositoryScriptError>)
    ensures
        match stored {
            None => r == Err::<(), RepositoryScriptError>(RepositoryScriptError::SealedRequestUnreadable),
            Some(s) => if s@ == bytes@ {
                r is Ok
            } else {
                r == Err::<(), RepositoryScriptError>(RepositoryScriptError::RequestConflict)
            },
        },
{
    match stored {
        None => Err(RepositoryScriptError::SealedRequestUnreadable),
        Some(s) => {
            if bytes_equal(s.as_slice(), bytes) {
                Ok(())
            } else {
                Err(RepositoryScriptError::RequestConflict)
            }
        },
    }
}

/// What creating the admission marker did.
#[derive(Debug, Clone, Copy, PartialEq, Eq, Structural)]
pub enum AdmissionAttempt {
    /// The marker was created, written and synced.
    Created,
    /// The marker was created but writing or syncing it failed.
    CreatedUnsynced,
    /// The marker already existed: the operation was admitted before.
    AlreadyAdmitted,
    /// The marker could not be created.
    Failed,
}

/// Admission is granted at most once: only creating the marker now admits.
pub fn admission_outcome(attempt: AdmissionAttempt) -> (r: Result<bool, RepositoryScriptError>)
    ensures
        r == match attempt {
            AdmissionAttempt::Created => Ok::<bool, RepositoryScriptError>(true),
            AdmissionAttempt::AlreadyAdmitted => Ok::<bool, RepositoryScriptError>(false),
            AdmissionAttempt::CreatedUnsynced => Err::<bool, RepositoryScriptError>(RepositoryScriptError::AdmissionNotSynced),
            AdmissionAttempt::Failed => Err::<bool, RepositoryScriptError>(RepositoryScriptError::AdmissionNotRecorded),
        },
{
    match attempt {
        AdmissionAttempt::Created => Ok(true),
        AdmissionAttempt::AlreadyAdmitted => Ok(false),
        AdmissionAttempt::CreatedUnsynced => Err(RepositoryScriptError::AdmissionNotSynced),
        AdmissionAttempt::Failed => Err(RepositoryScriptError::AdmissionNotRecorded),
    }
}

/// A durable result as the script wrote it.
pub struct ScriptResult {
    pub operation_id: String,
    pub request_digest: String,
    pub producer_claim_fence: String,
    pub status: StepStatus,
    pub has_error_message: bool,
}

/// A durable result is accepted for an operation when it names the
/// operation and its request digest, and reports a finished step that
/// carries an error message exactly when it failed.
pub fn validate_script_result(result: &ScriptResult, operation_id: &str, request_digest: &str) -> (r: Result<(), RepositoryScriptError>)
    ensures
        (result.operation_id@ != operation_id@ || result.request_digest@ != request_digest@)
            ==> r == Err::<(), RepositoryScriptError>(RepositoryScriptError::ResultConflict),
        (result.operation_id@ == operation_id@ && result.request_digest@ == request_digest@)
            ==> if is_terminal_result(result.status, result.has_error_message) {
                r is Ok
            } else {
                r == Err::<(), RepositoryScriptError>(RepositoryScriptError::NonTerminalResult)
            },
{
    if !str_eq(result.operation_id.as_str(), operation_id) || !str_eq(result.request_digest.as_str(), request_digest) {
        return Err(RepositoryScriptError::ResultConflict);
    }
    if !terminal_result(result.status, result.has_error_message) {
        return Err(RepositoryScriptError::NonTerminalResult);
    }
    Ok(())
}

/// Where executing an operation once stands.
#[derive(Debug, Clone, Copy, PartialEq, Eq, Structural)]
pub enum ScriptPhase {
    /// Looking for a durable result before doing anything.
    Start,
    /// The request is sealed; trying to admit the operation.
    Admitting,
    /// Admission was refused; looking for a result from the earlier run.
    AfterRefusedAdmission,
    /// The script is running.
    Running,
    /// The script ran; looking for the result it wrote.
    AfterRun,
}

/// What was observed in a phase.
#[derive(Debug, Clone, Copy, PartialEq, Eq, Structural)]
pub enum ScriptEvent {
    /// A durable result was (or was not) found.
    ResultFound(bool),
    /// Admission was (or was not) granted now.
    Admitted(bool),
    /// The script finished within the timeout, successfully or not; or it
    /// could not be run or timed out.
    Ran { finished_in_time: bool, succeeded: bool },
}

/// What to do next.
#[derive(Debug, Clone, Copy, PartialEq, Eq, Structural)]
pub enum ScriptNext {
    /// Seal the request and ask for admission.
    SealAndAdmit,
    /// Run the script, once.
    RunScript,
    /// Look for the durable result.
    Query(ScriptPhase),
    /// Report the durable result found.
    Observed,
    /// Report that the operation needs reconciliation.
    ReconciliationRequired,
    /// The event does not belong to the phase.
    Unexpected,
}

pub open spec fn script_next_of(phase: ScriptPhase, event: ScriptEvent) -> ScriptNext {
    match (phase, event) {
        (ScriptPhase::Start, ScriptEvent::ResultFound(found)) => if found {
            ScriptNext::Observed
        } else {
            ScriptNext::SealAndAdmit
        },
        (ScriptPhase::Admitting, ScriptEvent::Admitted(admitted)) => if admitted {
            ScriptNext::RunScript
        } else {
            ScriptNext::Query(ScriptPhase::AfterRefusedAdmission)
        },
        (ScriptPhase::Running, ScriptEvent::Ran { finished_in_time, succeeded }) => if finished_in_time && succeeded {
            ScriptNext::Query(ScriptPhase::AfterRun)
        } else {
            ScriptNext::ReconciliationRequired
        },
        (ScriptPhase::AfterRefusedAdmission, ScriptEvent::ResultFound(found)) => if found {
            ScriptNext::Observed
        } else {
            ScriptNext::ReconciliationRequired
        },
        (ScriptPhase::AfterRun, ScriptEvent::ResultFound(found)) => if found {
            ScriptNext::Observed
        } else {
            ScriptNext::ReconciliationRequired
        },
        _ => ScriptNext::Unexpected,
    }
}

/// The decisions of executing an operation once: a durable result is
/// reported as it stands; otherwise the request is sealed and the
/// operation admitted, and only an admission granted now runs the script;
/// a failed, timed-out or silent run needs reconciliation.
pub fn script_next(phase: ScriptPhase, event: ScriptEvent) -> (n: ScriptNext)
    ensures
        n == script_next_of(phase, event),
        n == ScriptNext::Query(ScriptPhase::AfterRun) ==> event == (ScriptEvent::Ran {
            finished_in_time: true,
            succeeded: true,
        }),
        n == ScriptNext::RunScript ==> phase == ScriptPhase::Admitting && event == ScriptEvent::Admitted(true),
        phase == ScriptPhase::Running ==> match event {
            ScriptEvent::Ran { finished_in_time, succeeded } => if finished_in_time && succeeded {
                n == ScriptNext::Query(ScriptPhase::AfterRun)
            } else {
                n == ScriptNext::ReconciliationRequired
            },
            _ => n == ScriptNext::Unexpected,
        },
{
    match (phase, event) {
        (ScriptPhase::Start, ScriptEvent::ResultFound(found)) => if found {
            ScriptNext::Observed
        } else {
            ScriptNext::SealAndAdmit
        },
        (ScriptPhase::Admitting, ScriptEvent::Admitted(admitted)) => if admitted {
            ScriptNext::RunScript
        } else {
            ScriptNext::Query(ScriptPhase::AfterRefusedAdmission)
        },
        (ScriptPhase::Running, ScriptEvent::Ran { finished_in_time, succeeded }) => if finished_in_time && succeeded {
            ScriptNext::Query(ScriptPhase::AfterRun)
        } else {
            ScriptNext::ReconciliationRequired
        },
        (ScriptPhase::AfterRefusedAdmission, ScriptEvent::ResultFound(found)) => if found {
            ScriptNext::Observed
        } else {
            ScriptNext::ReconciliationRequired
        },
        (ScriptPhase::AfterRun, ScriptEvent::ResultFound(found)) => if found {
            ScriptNext::Observed
        } else {
            ScriptNext::ReconciliationRequired
        },
        _ => ScriptNext::Unexpected,
    }
}

/// The script runs only on an admission granted now: an operation admitted
/// before is never run again, whatever happened to its first run.
pub proof fn law_script_runs_only_when_admitted_now(phase: ScriptPhase, event: ScriptEvent)
    ensures
        script_next_of(phase, event) == ScriptNext::RunScript
            ==> phase == ScriptPhase::Admitting && event == ScriptEvent::Admitted(true),
{
}

/// A script's result is read back only after it finished in time and
/// exited successfully; a run that timed out, could not be started or
/// exited unsuccessfully needs reconciliation, whatever its result file
/// holds.
pub proof fn law_only_a_successful_run_is_read_back(phase: ScriptPhase, event: ScriptEvent, finished_in_time: bool, succeeded: bool)
    ensures
        script_next_of(phase, event) == ScriptNext::Query(ScriptPhase::AfterRun)
            ==> event == (ScriptEvent::Ran { finished_in_time: true, succeeded: true }),
        !(finished_in_time && succeeded) ==> script_next_of(
            ScriptPhase::Running,
            ScriptEvent::Ran { finished_in_time, succeeded },
        ) == ScriptNext::ReconciliationRequired,
{
}

/// A durable result, once found, is always what is reported.
pub proof fn law_found_result_is_reported(phase: ScriptPhase)
    requires
        phase != ScriptPhase::Admitting,
        phase != ScriptPhase::Running,
    ensures
        script_next_of(phase, ScriptEvent::ResultFound(true)) == ScriptNext::Observed,
{
}

} // verus!

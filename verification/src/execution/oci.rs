use vstd::prelude::*;

use crate::bytes::decimal;
use crate::bytes::str_eq;
use crate::bytes::str_starts_with;
use crate::bytes::to_decimal;
use crate::bytes::bytes_start_with;
use crate::local_execution::config::RootInspection;
use crate::local_execution::request::utf8;
use crate::local_execution::timeout::Timeout;
use crate::paths::path_starts_with;
use crate::paths::starts_with;

verus! {

/// Why the OCI connector refused a policy, a request or a container.
#[derive(Debug, Clone, Copy, PartialEq, Eq, Structural)]
pub enum OciError {
    /// `invalid OCI execution policy`.
    InvalidPolicy,
    /// `OCI workspace unavailable`.
    WorkspaceUnavailable,
    /// `invalid OCI workspace`: not a directory, or its path holds a comma,
    /// which would break the bind-mount argument.
    InvalidWorkspace,
    /// `OCI operation root unavailable`.
    OperationRootUnavailable,
    /// `OCI operation evidence must be outside workspace`.
    OperationRootInsideWorkspace,
    /// `OCI argv is empty`.
    EmptyArgv,
    /// `OCI operation digest`: the container was created for another
    /// request.
    DigestConflict,
    /// `OCI producer claim fence`: the container was created under another
    /// claim.
    FenceConflict,
    /// `execution authority was cancelled`.
    Cancelled,
}

impl OciError {
    /// The reason this refusal is reported with.
    pub fn reason(&self) -> (r: &'static str)
        ensures
            r@ == match *self {
                OciError::InvalidPolicy => "invalid OCI execution policy"@,
                OciError::WorkspaceUnavailable => "OCI workspace unavailable"@,
                OciError::InvalidWorkspace => "invalid OCI workspace"@,
                OciError::OperationRootUnavailable => "OCI operation root unavailable"@,
                OciError::OperationRootInsideWorkspace => "OCI operation evidence must be outside workspace"@,
                OciError::EmptyArgv => "OCI argv is empty"@,
                OciError::DigestConflict => "OCI operation digest"@,
                OciError::FenceConflict => "OCI producer claim fence"@,
                OciError::Cancelled => "execution authority was cancelled"@,
            },
    {
        match self {
            OciError::InvalidPolicy => "invalid OCI execution policy",
            OciError::WorkspaceUnavailable => "OCI workspace unavailable",
            OciError::InvalidWorkspace => "invalid OCI workspace",
            OciError::OperationRootUnavailable => "OCI operation root unavailable",
            OciError::OperationRootInsideWorkspace => "OCI operation evidence must be outside workspace",
            OciError::EmptyArgv => "OCI argv is empty",
            OciError::DigestConflict => "OCI operation digest",
            OciError::FenceConflict => "OCI producer claim fence",
            OciError::Cancelled => "execution authority was cancelled",
        }
    }
}

/// Command executed inside the image. No host executable or environment is
/// inherited.
#[derive(Debug)]
pub struct OciExecutionRequest {
    pub argv: Vec<String>,
}

impl OciExecutionRequest {
    /// A request must name a program: its first argument is present and
    /// not empty.
    pub fn validate(&self) -> (r: Result<(), OciError>)
        ensures
            r is Ok <==> (self.argv@.len() > 0 && self.argv@[0]@.len() > 0),
            r is Err ==> r == Err::<(), OciError>(OciError::EmptyArgv),
    {
        if self.argv.len() == 0 || self.argv[0].as_str().is_empty() {
            return Err(OciError::EmptyArgv);
        }
        Ok(())
    }
}

/// Whether a byte is an ASCII hexadecimal digit.
pub open spec fn is_hex_byte(b: u8) -> bool {
    (48 <= b <= 57) || (97 <= b <= 102) || (65 <= b <= 70)
}

/// The bytes of `@sha256:`.
pub open spec fn sha256_marker() -> Seq<u8> {
    seq![64u8, 115u8, 104u8, 97u8, 50u8, 53u8, 54u8, 58u8]
}

/// An image reference pinned by digest: a non-empty name, then
/// `@sha256:` and exactly 64 hexadecimal digits.
pub open spec fn image_is_pinned(image: Seq<u8>) -> bool {
    &&& image.len() >= 73
    &&& image.subrange(image.len() - 72, image.len() - 64) == sha256_marker()
    &&& forall|i: int| image.len() - 64 <= i < image.len() ==> is_hex_byte(#[trigger] image[i])
}

/// Decides `image_is_pinned`.
pub fn image_reference_is_pinned(image: &str) -> (b: bool)
    ensures
        b == image_is_pinned(utf8(image@)),
{
    let bytes = image.as_bytes();
    let n = bytes.len();
    if n < 73 {
        return false;
    }
    let marker: [u8; 8] = [64u8, 115u8, 104u8, 97u8, 50u8, 53u8, 54u8, 58u8];
    let mut i: usize = 0;
    while i < 8
        invariant
            n == bytes@.len(),
            bytes@ == utf8(image@),
            n >= 73,
            i <= 8,
            marker@ == sha256_marker(),
            forall|j: int| 0 <= j < i ==> bytes@[n - 72 + j] == sha256_marker()[j],
        decreases 8 - i,
    {
        if bytes[n - 72 + i] != marker[i] {
            assert(bytes@.subrange(n - 72, n - 64)[i as int] != sha256_marker()[i as int]);
            return false;
        }
        i = i + 1;
    }
    assert(bytes@.subrange(n - 72, n - 64) =~= sha256_marker());
    let mut k: usize = n - 64;
    while k < n
        invariant
            n == bytes@.len(),
            bytes@ == utf8(image@),
            n >= 73,
            n - 64 <= k <= n,
            bytes@.subrange(n - 72, n - 64) == sha256_marker(),
            forall|j: int| n - 64 <= j < k ==> is_hex_byte(#[trigger] bytes@[j]),
        decreases n - k,
    {
        let c = bytes[k];
        if !((48 <= c && c <= 57) || (97 <= c && c <= 102) || (65 <= c && c <= 70)) {
            assert(!is_hex_byte(bytes@[k as int]));
            return false;
        }
        k = k + 1;
    }
    true
}

/// A network the container may join: named, and neither the host's network
/// nor another container's.
pub open spec fn network_is_isolated(network: Seq<char>) -> bool {
    &&& network.len() > 0
    &&& network != "host"@
    &&& !bytes_start_with(utf8(network), utf8("container:"@))
}

/// Decides `network_is_isolated`.
pub fn network_isolated(network: &str) -> (b: bool)
    ensures
        b == network_is_isolated(network@),
{
    !network.is_empty() && !str_eq(network, "host") && !str_starts_with(network, "container:")
}

/// The host-controlled OCI policy as the connector checks it. The CPU
/// share is a float, so only whether it is finite and positive is held.
pub struct OciPolicy {
    pub image: String,
    pub network: String,
    pub uid: u32,
    pub cpus_finite_and_positive: bool,
    pub memory_bytes: u64,
    pub pids: u32,
    pub max_output_bytes: usize,
    pub timeout: Timeout,
}

/// Six mebibytes, the least memory a container is given.
pub const MIN_MEMORY_BYTES: u64 = 6 * 1024 * 1024;

/// The policy's limits admit a container: pinned image, non-root user,
/// positive CPU share, at least six mebibytes of memory, some processes,
/// some output, a non-zero timeout and an isolated network.
pub open spec fn policy_limits_admitted(p: OciPolicy) -> bool {
    &&& image_is_pinned(utf8(p.image@))
    &&& p.uid != 0
    &&& p.cpus_finite_and_positive
    &&& p.memory_bytes >= MIN_MEMORY_BYTES
    &&& p.pids != 0
    &&& p.max_output_bytes != 0
    &&& p.timeout.total_nanos() != 0
    &&& network_is_isolated(p.network@)
}

/// Whether a path string holds a comma.
pub open spec fn has_comma(path: Seq<char>) -> bool {
    exists|i: int| 0 <= i < path.len() && path[i] == ','
}

fn contains_comma(path: &str) -> (b: bool)
    ensures
        b == has_comma(path@),
{
    let mut found = false;
    for c in it: path.chars()
        invariant
            it.seq() == path@,
            found == exists|j: int| 0 <= j < it.index() && path@[j] == ',',
    {
        if c == ',' {
            found = true;
        }
    }
    found
}

/// The canonical workspace and operation root of an admitted policy.
pub struct OciPaths {
    pub workspace: String,
    pub operation_root: String,
}

/// Admits an OCI policy: its limits first, then the workspace (an existing
/// directory whose path holds no comma), then the operation root, which
/// must lie outside the workspace so the workload cannot forge evidence.
pub fn validate_policy(
    policy: &OciPolicy,
    workspace: RootInspection,
    operation_root: RootInspection,
) -> (r: Result<OciPaths, OciError>)
    ensures
        !policy_limits_admitted(*policy) ==> r == Err::<OciPaths, OciError>(OciError::InvalidPolicy),
        policy_limits_admitted(*policy) ==> match workspace {
            RootInspection::Unavailable => r == Err::<OciPaths, OciError>(OciError::WorkspaceUnavailable),
            RootInspection::Resolved { canonical: w, is_directory } => if !is_directory || has_comma(w@) {
                r == Err::<OciPaths, OciError>(OciError::InvalidWorkspace)
            } else {
                match operation_root {
                    RootInspection::Unavailable => r == Err::<OciPaths, OciError>(OciError::OperationRootUnavailable),
                    RootInspection::Resolved { canonical: o, is_directory: _ } => if path_starts_with(o@, w@) {
                        r == Err::<OciPaths, OciError>(OciError::OperationRootInsideWorkspace)
                    } else {
                        r matches Ok(paths) && paths.workspace@ == w@ && paths.operation_root@ == o@
                    },
                }
            },
        },
{
    let admitted = image_reference_is_pinned(policy.image.as_str())
        && policy.uid != 0
        && policy.cpus_finite_and_positive
        && policy.memory_bytes >= MIN_MEMORY_BYTES
        && policy.pids != 0
        && policy.max_output_bytes != 0
        && !policy.timeout.is_zero()
        && network_isolated(policy.network.as_str());
    if !admitted {
        return Err(OciError::InvalidPolicy);
    }
    let workspace = match workspace {
        RootInspection::Unavailable => return Err(OciError::WorkspaceUnavailable),
        RootInspection::Resolved { canonical, is_directory } => {
            if !is_directory || contains_comma(canonical.as_str()) {
                return Err(OciError::InvalidWorkspace);
            }
            canonical
        },
    };
    let operation_root = match operation_root {
        RootInspection::Unavailable => return Err(OciError::OperationRootUnavailable),
        RootInspection::Resolved { canonical, is_directory: _ } => canonical,
    };
    if starts_with(operation_root.as_str(), workspace.as_str()) {
        return Err(OciError::OperationRootInsideWorkspace);
    }
    Ok(OciPaths { workspace, operation_root })
}

/// The labels, state and exit code that `docker inspect` reports for a
/// container.
pub struct ContainerSnapshot {
    pub digest_label: Option<String>,
    pub fence_label: Option<String>,
    pub running: Option<bool>,
    pub status: Option<String>,
    pub exit_code: Option<i64>,
}

pub open spec fn label_is(label: Option<String>, expected: Seq<char>) -> bool {
    match label {
        Some(l) => l@ == expected,
        None => false,
    }
}

fn label_matches(label: &Option<String>, expected: &str) -> (b: bool)
    ensures
        b == label_is(*label, expected@),
{
    match label {
        Some(l) => str_eq(l.as_str(), expected),
        None => false,
    }
}

/// A container belongs to an operation only when it carries the
/// operation's request digest and claim fence; the digest is checked first.
pub fn check_container_labels(snapshot: &ContainerSnapshot, digest: &str, fence: &str) -> (r: Result<(), OciError>)
    ensures
        !label_is(snapshot.digest_label, digest@) ==> r == Err::<(), OciError>(OciError::DigestConflict),
        label_is(snapshot.digest_label, digest@) && !label_is(snapshot.fence_label, fence@)
            ==> r == Err::<(), OciError>(OciError::FenceConflict),
        label_is(snapshot.digest_label, digest@) && label_is(snapshot.fence_label, fence@) ==> r is Ok,
{
    if !label_matches(&snapshot.digest_label, digest) {
        return Err(OciError::DigestConflict);
    }
    if !label_matches(&snapshot.fence_label, fence) {
        return Err(OciError::FenceConflict);
    }
    Ok(())
}

pub open spec fn status_is_created(status: Option<String>) -> bool {
    label_is(status, "created"@)
}

/// What recovering an operation does with the container found for it.
#[derive(Debug, Clone, Copy, PartialEq, Eq, Structural)]
pub enum RecoveryStep {
    /// No decisive evidence: the operation needs reconciliation.
    Reconcile,
    /// The container is still running without anyone attached: stop it and
    /// record a failure.
    TerminateOrphan,
    /// The container has finished: record its result.
    RecordExit { success: bool },
}

/// Recovery with no durable record: no container means reconciliation; a
/// container of another operation is a conflict; a running one is an
/// orphan; one only created never ran; otherwise its exit code decides.
pub fn recovery_step(snapshot: &Option<ContainerSnapshot>, digest: &str, fence: &str) -> (r: Result<RecoveryStep, OciError>)
    ensures
        match snapshot {
            None => r == Ok::<RecoveryStep, OciError>(RecoveryStep::Reconcile),
            Some(s) => if !label_is(s.digest_label, digest@) {
                r == Err::<RecoveryStep, OciError>(OciError::DigestConflict)
            } else if !label_is(s.fence_label, fence@) {
                r == Err::<RecoveryStep, OciError>(OciError::FenceConflict)
            } else if s.running == Some(true) {
                r == Ok::<RecoveryStep, OciError>(RecoveryStep::TerminateOrphan)
            } else if status_is_created(s.status) {
                r == Ok::<RecoveryStep, OciError>(RecoveryStep::Reconcile)
            } else {
                r == Ok::<RecoveryStep, OciError>(RecoveryStep::RecordExit { success: s.exit_code == Some(0i64) })
            },
        },
{
    let s = match snapshot {
        None => return Ok(RecoveryStep::Reconcile),
        Some(s) => s,
    };
    check_container_labels(s, digest, fence)?;
    if s.running == Some(true) {
        return Ok(RecoveryStep::TerminateOrphan);
    }
    if label_matches(&s.status, "created") {
        return Ok(RecoveryStep::Reconcile);
    }
    Ok(RecoveryStep::RecordExit { success: s.exit_code == Some(0i64) })
}

/// Where preparing a created container stands.
#[derive(Debug, Clone, Copy, PartialEq, Eq, Structural)]
pub enum Preparation {
    /// The container exists, created and not yet started: start it.
    Ready,
    /// The operation has moved on: answer from recovery instead.
    Query,
    /// Nothing can be decided: the operation needs reconciliation.
    Reconcile,
    /// Inspect the container before deciding.
    Inspect,
}

/// The result of asking Docker to create the container.
#[derive(Debug, Clone, Copy, PartialEq, Eq, Structural)]
pub enum CreateAttempt {
    /// Docker could not be reached or did not answer in time.
    ControlUnavailable,
    /// Docker refused, perhaps because the container already exists.
    Refused,
    Created,
}

pub open spec fn preparation_start_of(admitted_now: bool, create: CreateAttempt, record_exists: bool) -> Preparation {
    if admitted_now {
        match create {
            CreateAttempt::ControlUnavailable => Preparation::Query,
            CreateAttempt::Refused => Preparation::Inspect,
            CreateAttempt::Created => Preparation::Ready,
        }
    } else if record_exists {
        Preparation::Query
    } else {
        Preparation::Inspect
    }
}

/// The first step of preparing a container. A freshly admitted operation
/// creates it: success is ready, no answer defers to recovery, a refusal
/// needs an inspection. An operation admitted before is never created
/// again: a durable result defers to recovery, otherwise inspect.
pub fn preparation_start(admitted_now: bool, create: CreateAttempt, record_exists: bool) -> (p: Preparation)
    ensures
        p == preparation_start_of(admitted_now, create, record_exists),
        !admitted_now ==> p == if record_exists { Preparation::Query } else { Preparation::Inspect },
        admitted_now ==> (p == Preparation::Ready <==> create == CreateAttempt::Created),
        admitted_now ==> (p == Preparation::Inspect <==> create == CreateAttempt::Refused),
{
    if admitted_now {
        match create {
            CreateAttempt::ControlUnavailable => Preparation::Query,
            CreateAttempt::Refused => Preparation::Inspect,
            CreateAttempt::Created => Preparation::Ready,
        }
    } else if record_exists {
        Preparation::Query
    } else {
        Preparation::Inspect
    }
}

/// An operation admitted before is never created again, so an admitted
/// effect is never restarted from scratch: its durable result alone decides
/// the next step, deferring to recovery when the result exists and
/// inspecting the container that exists when it does not, whatever the
/// create attempt says.
pub proof fn law_admitted_operation_is_not_recreated(create: CreateAttempt, record_exists: bool)
    ensures
        preparation_start_of(false, create, record_exists) != Preparation::Ready,
        record_exists ==> preparation_start_of(false, create, record_exists) == Preparation::Query,
        !record_exists ==> preparation_start_of(false, create, record_exists) == Preparation::Inspect,
        forall|other: CreateAttempt| #[trigger] preparation_start_of(false, other, record_exists)
            == preparation_start_of(false, create, record_exists),
{
}

/// After inspecting during preparation: no container needs reconciliation,
/// another operation's container is a conflict, a container past
/// `created` defers to recovery, and a created one is ready to start.
pub fn preparation_after_inspection(snapshot: &Option<ContainerSnapshot>, digest: &str, fence: &str) -> (r: Result<Preparation, OciError>)
    ensures
        match snapshot {
            None => r == Ok::<Preparation, OciError>(Preparation::Reconcile),
            Some(s) => if !label_is(s.digest_label, digest@) {
                r == Err::<Preparation, OciError>(OciError::DigestConflict)
            } else if !label_is(s.fence_label, fence@) {
                r == Err::<Preparation, OciError>(OciError::FenceConflict)
            } else if status_is_created(s.status) {
                r == Ok::<Preparation, OciError>(Preparation::Ready)
            } else {
                r == Ok::<Preparation, OciError>(Preparation::Query)
            },
        },
{
    let s = match snapshot {
        None => return Ok(Preparation::Reconcile),
        Some(s) => s,
    };
    check_container_labels(s, digest, fence)?;
    if label_matches(&s.status, "created") {
        Ok(Preparation::Ready)
    } else {
        Ok(Preparation::Query)
    }
}

/// How waiting on a started container ended, first of: cancellation, the
/// timeout, output overflow, or the container's exit.
#[derive(Debug, Clone, Copy, PartialEq, Eq, Structural)]
pub enum AttachEnd {
    Cancelled,
    TimedOut,
    OutputOverflow,
    Exited,
}

/// The failure recorded for a run, if waiting already decided one.
#[derive(Debug, Clone, Copy, PartialEq, Eq, Structural)]
pub enum RunFailure {
    /// `execution authority was cancelled before OCI start`.
    CancelledBeforeStart,
    /// `execution authority was cancelled`.
    Cancelled,
    /// `OCI execution timed out`.
    TimedOut,
    /// `OCI output limit exceeded`.
    OutputLimitExceeded,
    /// `OCI output drain failed`.
    DrainFailed,
    /// `OCI orphan was terminated during recovery`.
    OrphanTerminated,
}

impl RunFailure {
    /// The failure message recorded in the step result.
    pub fn reason(&self) -> (r: &'static str)
        ensures
            r@ == match *self {
                RunFailure::CancelledBeforeStart => "execution authority was cancelled before OCI start"@,
                RunFailure::Cancelled => "execution authority was cancelled"@,
                RunFailure::TimedOut => "OCI execution timed out"@,
                RunFailure::OutputLimitExceeded => "OCI output limit exceeded"@,
                RunFailure::DrainFailed => "OCI output drain failed"@,
                RunFailure::OrphanTerminated => "OCI orphan was terminated during recovery"@,
            },
    {
        match self {
            RunFailure::CancelledBeforeStart => "execution authority was cancelled before OCI start",
            RunFailure::Cancelled => "execution authority was cancelled",
            RunFailure::TimedOut => "OCI execution timed out",
            RunFailure::OutputLimitExceeded => "OCI output limit exceeded",
            RunFailure::DrainFailed => "OCI output drain failed",
            RunFailure::OrphanTerminated => "OCI orphan was terminated during recovery",
        }
    }
}

/// The failure that ending this way records; an exit records none.
pub fn attach_failure(end: AttachEnd) -> (f: Option<RunFailure>)
    ensures
        f == match end {
            AttachEnd::Cancelled => Some(RunFailure::Cancelled),
            AttachEnd::TimedOut => Some(RunFailure::TimedOut),
            AttachEnd::OutputOverflow => Some(RunFailure::OutputLimitExceeded),
            AttachEnd::Exited => None::<RunFailure>,
        },
{
    match end {
        AttachEnd::Cancelled => Some(RunFailure::Cancelled),
        AttachEnd::TimedOut => Some(RunFailure::TimedOut),
        AttachEnd::OutputOverflow => Some(RunFailure::OutputLimitExceeded),
        AttachEnd::Exited => None,
    }
}

/// After the container exited: a failed drain of either stream, or output
/// beyond the limit, records a failure; otherwise the result is read back.
pub fn drained_failure(stdout_drained: bool, stderr_drained: bool, total_output: usize, max_output_bytes: usize) -> (f: Option<RunFailure>)
    ensures
        f == if !stdout_drained || !stderr_drained {
            Some(RunFailure::DrainFailed)
        } else if total_output > max_output_bytes {
            Some(RunFailure::OutputLimitExceeded)
        } else {
            None::<RunFailure>
        },
{
    if !stdout_drained || !stderr_drained {
        Some(RunFailure::DrainFailed)
    } else if total_output > max_output_bytes {
        Some(RunFailure::OutputLimitExceeded)
    } else {
        None
    }
}

/// The container name of an operation, `made-oci-` and its key.
pub open spec fn container_name_of(operation_key: Seq<char>) -> Seq<char> {
    "made-oci-"@ + operation_key
}

pub fn container_name(operation_key: &str) -> (n: String)
    ensures
        n@ == container_name_of(operation_key@),
{
    let mut n = "made-oci-".to_owned();
    n.append(operation_key);
    n
}

/// What goes into `docker create`.
pub struct ContainerPlan {
    pub name: String,
    pub image: String,
    pub workspace: String,
    pub network: String,
    /// The CPU share, already rendered.
    pub cpus: String,
    pub uid: u32,
    pub memory_bytes: u64,
    pub pids: u32,
    pub request_digest: String,
    pub claim_fence: String,
    pub timeout: Timeout,
}

/// The `docker create` arguments: no capabilities, no privilege gain, a
/// read-only root, the CPU, memory, swap, process and core limits, no log
/// driver, the workspace bind-mounted as the working directory, labels that
/// tie the container to its operation, and the command run under a
/// watchdog that kills it one second after the timeout.
pub open spec fn create_arguments_of(p: ContainerPlan, argv: Seq<Seq<char>>) -> Seq<Seq<char>> {
    let watchdog = decimal(p.timeout.watchdog_secs() as nat);
    seq![
        "create"@,
        "--name"@,
        p.name@,
        "--pull=never"@,
        "--user"@,
        decimal(p.uid as nat) + ":"@ + decimal(p.uid as nat),
        "--cap-drop=ALL"@,
        "--security-opt=no-new-privileges"@,
        "--read-only"@,
        "--network"@,
        p.network@,
        "--cpus"@,
        p.cpus@,
        "--memory"@,
        decimal(p.memory_bytes as nat),
        "--memory-swap"@,
        decimal(p.memory_bytes as nat),
        "--pids-limit"@,
        decimal(p.pids as nat),
        "--ulimit"@,
        "core=0"@,
        "--log-driver=none"@,
        "--mount"@,
        "type=bind,src="@ + p.workspace@ + ",dst=/workspace"@,
        "--workdir=/workspace"@,
        "--label"@,
        "made.digest="@ + p.request_digest@,
        "--label"@,
        "made.fence="@ + p.claim_fence@,
        "--label"@,
        "made.timeout-seconds="@ + watchdog,
        p.image@,
        "/usr/bin/timeout"@,
        "--signal=KILL"@,
        "--kill-after=1s"@,
        watchdog + "s"@,
    ] + argv
}

fn joined(a: String, b: &str) -> (s: String)
    ensures
        s@ == a@ + b@,
{
    let mut s = a;
    s.append(b);
    s
}

/// Builds the `docker create` arguments.
pub fn create_arguments(plan: &ContainerPlan, request: OciExecutionRequest) -> (args: Vec<String>)
    ensures
        args@.map_values(|s: String| s@) == create_arguments_of(*plan, request.argv@.map_values(|s: String| s@)),
{
    let watchdog = to_decimal(plan.timeout.watchdog_seconds());
    let uid = to_decimal(plan.uid as u64);
    let memory = to_decimal(plan.memory_bytes);
    let mut args: Vec<String> = Vec::new();
    args.push("create".to_owned());
    args.push("--name".to_owned());
    args.push(plan.name.clone());
    args.push("--pull=never".to_owned());
    args.push("--user".to_owned());
    args.push(joined(joined(uid.clone(), ":"), uid.as_str()));
    args.push("--cap-drop=ALL".to_owned());
    args.push("--security-opt=no-new-privileges".to_owned());
    args.push("--read-only".to_owned());
    args.push("--network".to_owned());
    args.push(plan.network.clone());
    args.push("--cpus".to_owned());
    args.push(plan.cpus.clone());
    args.push("--memory".to_owned());
    args.push(memory.clone());
    args.push("--memory-swap".to_owned());
    args.push(memory);
    args.push("--pids-limit".to_owned());
    args.push(to_decimal(plan.pids as u64));
    args.push("--ulimit".to_owned());
    args.push("core=0".to_owned());
    args.push("--log-driver=none".to_owned());
    args.push("--mount".to_owned());
    args.push(joined(joined("type=bind,src=".to_owned(), plan.workspace.as_str()), ",dst=/workspace"));
    args.push("--workdir=/workspace".to_owned());
    args.push("--label".to_owned());
    args.push(joined("made.digest=".to_owned(), plan.request_digest.as_str()));
    args.push("--label".to_owned());
    args.push(joined("made.fence=".to_owned(), plan.claim_fence.as_str()));
    args.push("--label".to_owned());
    args.push(joined("made.timeout-seconds=".to_owned(), watchdog.as_str()));
    args.push(plan.image.clone());
    args.push("/usr/bin/timeout".to_owned());
    args.push("--signal=KILL".to_owned());
    args.push("--kill-after=1s".to_owned());
    args.push(joined(watchdog, "s"));
    let ghost head = args@.map_values(|s: String| s@);
    let ghost argv_view = request.argv@.map_values(|s: String| s@);
    let OciExecutionRequest { argv } = request;
    let mut tail = argv;
    args.append(&mut tail);
    assert(args@.map_values(|s: String| s@) =~= head + argv_view);
    assert(head =~= create_arguments_of(*plan, Seq::<Seq<char>>::empty()));
    assert(args@.map_values(|s: String| s@) =~= create_arguments_of(*plan, argv_view));
    args
}

} // verus!

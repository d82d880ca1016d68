use vstd::prelude::*;

use super::config::LocalExecutionConfig;
use super::error::LocalExecutionError;
use super::policy::LocalExecutionMode;
use super::policy::LocalExecutionOutcome;
use super::policy::LocalNetworkPolicy;
use super::request::LocalExecutionRequest;
use super::termination::direct_kill_wanted;
use super::termination::group_kill_wanted;
use super::termination::termination_evidence;
use super::termination::LocalProcessTermination;
use super::config::ConfigView;
use super::request::request_digest_of;
use crate::paths::is_absolute;
use crate::paths::join;
use crate::paths::path_is_absolute;
use crate::paths::path_join;
use crate::paths::path_starts_with;
use crate::paths::starts_with;

verus! {

/// What the host found at an executable's candidate path.
pub enum ExecutableInspection {
    /// The path could not be canonicalised.
    Unavailable,
    /// The canonical path, and whether it names a regular file.
    Resolved { canonical: String, is_file: bool },
}

/// One observation of an output pipe being drained.
pub enum CaptureEvent {
    /// A read returned this many bytes; zero means the pipe is closed.
    Read { bytes: usize },
    /// A read failed.
    ReadFailed,
}

/// Where draining an output pipe stands after one observation.
#[derive(Debug, Clone, Copy, PartialEq, Eq, Structural)]
pub enum CaptureProgress {
    /// Keep reading; this many bytes were captured from this pipe so far.
    Continue { captured: usize },
    /// The pipe closed within the limit.
    Finished { captured: usize },
    /// The output of the whole process went past the limit.
    LimitExceeded { captured: usize },
    /// Reading failed.
    Failed,
}

/// What draining one pipe came to.
#[derive(Debug, Clone, Copy, PartialEq, Eq, Structural)]
pub enum CaptureSummary {
    /// Reading failed.
    Failed,
    /// The bytes captured, and whether the limit was exceeded.
    Captured { bytes: usize, exceeded: bool },
}

/// How waiting for a process ended, first of: its exit, the output limit,
/// a capture failure, or the timeout.
#[derive(Debug, Clone, Copy, PartialEq, Eq, Structural)]
pub enum ProcessEnd {
    Exited,
    ExitWaitFailed,
    OutputLimitExceeded,
    CaptureFailed,
    TimedOut,
}

pub open spec fn saturating_add(a: usize, b: usize) -> usize {
    if a + b > usize::MAX {
        usize::MAX
    } else {
        (a + b) as usize
    }
}

/// One step of draining an output pipe. `total_before` is the output of
/// all pipes counted before this read; the limit is exceeded when the
/// total after it passes `max_output_bytes`.
pub fn capture_step(captured: usize, total_before: usize, event: CaptureEvent, max_output_bytes: usize) -> (p: CaptureProgress)
    ensures
        p == match event {
            CaptureEvent::ReadFailed => CaptureProgress::Failed,
            CaptureEvent::Read { bytes } => if bytes == 0 {
                CaptureProgress::Finished { captured }
            } else if saturating_add(total_before, bytes) > max_output_bytes {
                CaptureProgress::LimitExceeded { captured: saturating_add(captured, bytes) }
            } else {
                CaptureProgress::Continue { captured: saturating_add(captured, bytes) }
            },
        },
{
    match event {
        CaptureEvent::ReadFailed => CaptureProgress::Failed,
        CaptureEvent::Read { bytes } => {
            if bytes == 0 {
                return CaptureProgress::Finished { captured };
            }
            let captured = captured.saturating_add(bytes);
            let observed = total_before.saturating_add(bytes);
            if observed > max_output_bytes {
                CaptureProgress::LimitExceeded { captured }
            } else {
                CaptureProgress::Continue { captured }
            }
        },
    }
}

/// Whether the child must be stopped once waiting has ended this way.
pub fn termination_required(end: ProcessEnd) -> (b: bool)
    ensures
        b == (end == ProcessEnd::OutputLimitExceeded || end == ProcessEnd::CaptureFailed || end == ProcessEnd::TimedOut),
{
    match end {
        ProcessEnd::Exited | ProcessEnd::ExitWaitFailed => false,
        ProcessEnd::OutputLimitExceeded | ProcessEnd::CaptureFailed | ProcessEnd::TimedOut => true,
    }
}

/// The outcome fixed by how waiting ended, before the output counts are
/// known. `reaped` tells whether waiting for a stopped child succeeded;
/// after a capture failure it does not matter.
pub fn process_end_outcome(end: ProcessEnd, reaped: bool) -> (r: Result<Option<LocalExecutionOutcome>, LocalExecutionError>)
    ensures
        match end {
            ProcessEnd::Exited => r == Ok::<Option<LocalExecutionOutcome>, LocalExecutionError>(None),
            ProcessEnd::ExitWaitFailed => r matches Err(LocalExecutionError::Wait),
            ProcessEnd::CaptureFailed => r matches Err(LocalExecutionError::OutputCapture),
            ProcessEnd::OutputLimitExceeded => if reaped {
                r == Ok::<Option<LocalExecutionOutcome>, LocalExecutionError>(Some(LocalExecutionOutcome::OutputLimitExceeded))
            } else {
                r matches Err(LocalExecutionError::Wait)
            },
            ProcessEnd::TimedOut => if reaped {
                r == Ok::<Option<LocalExecutionOutcome>, LocalExecutionError>(Some(LocalExecutionOutcome::TimedOut))
            } else {
                r matches Err(LocalExecutionError::Wait)
            },
        },
{
    match end {
        ProcessEnd::Exited => Ok(None),
        ProcessEnd::ExitWaitFailed => Err(LocalExecutionError::Wait),
        ProcessEnd::CaptureFailed => Err(LocalExecutionError::OutputCapture),
        ProcessEnd::OutputLimitExceeded => {
            if reaped {
                Ok(Some(LocalExecutionOutcome::OutputLimitExceeded))
            } else {
                Err(LocalExecutionError::Wait)
            }
        },
        ProcessEnd::TimedOut => {
            if reaped {
                Ok(Some(LocalExecutionOutcome::TimedOut))
            } else {
                Err(LocalExecutionError::Wait)
            }
        },
    }
}

/// Why the run stopped: an outcome fixed while waiting stands; otherwise
/// exceeding the output limit on either pipe; otherwise the exit status.
pub open spec fn settled_outcome(
    early: Option<LocalExecutionOutcome>,
    stdout_exceeded: bool,
    stderr_exceeded: bool,
    exit_success: bool,
) -> LocalExecutionOutcome {
    match early {
        Some(o) => o,
        None => if stdout_exceeded || stderr_exceeded {
            LocalExecutionOutcome::OutputLimitExceeded
        } else if exit_success {
            LocalExecutionOutcome::Completed
        } else {
            LocalExecutionOutcome::Failed
        },
    }
}

/// How a run's outcome is settled: an outcome fixed while waiting stands;
/// otherwise a pipe that went past the output limit, stdout or stderr alike,
/// makes it an output-limit outcome; only then does the exit status decide,
/// completed on success and failed otherwise.
pub proof fn law_outcome_settles_in_order(
    early: Option<LocalExecutionOutcome>,
    stdout_exceeded: bool,
    stderr_exceeded: bool,
    exit_success: bool,
)
    ensures
        early matches Some(o) ==> settled_outcome(early, stdout_exceeded, stderr_exceeded, exit_success) == o,
        early is None && (stdout_exceeded || stderr_exceeded) ==> settled_outcome(
            early,
            stdout_exceeded,
            stderr_exceeded,
            exit_success,
        ) == LocalExecutionOutcome::OutputLimitExceeded,
        early is None && settled_outcome(early, stdout_exceeded, stderr_exceeded, exit_success)
            == LocalExecutionOutcome::Completed ==> exit_success && !stdout_exceeded && !stderr_exceeded,
        early is None && !stdout_exceeded && !stderr_exceeded && !exit_success ==> settled_outcome(
            early,
            stdout_exceeded,
            stderr_exceeded,
            exit_success,
        ) == LocalExecutionOutcome::Failed,
{
}

pub open spec fn summary_bytes(s: CaptureSummary) -> usize {
    match s {
        CaptureSummary::Failed => 0,
        CaptureSummary::Captured { bytes, exceeded } => bytes,
    }
}

pub open spec fn summary_exceeded(s: CaptureSummary) -> bool {
    match s {
        CaptureSummary::Failed => false,
        CaptureSummary::Captured { bytes, exceeded } => exceeded,
    }
}

/// What a run produced, for a receipt.
pub struct RunObservation {
    /// The outcome fixed while waiting, if any.
    pub early_outcome: Option<LocalExecutionOutcome>,
    /// Whether the process exited successfully, if an exit status is known.
    pub exit_success: Option<bool>,
    pub exit_code: Option<i32>,
    pub stdout: CaptureSummary,
    pub stderr: CaptureSummary,
    /// The bytes counted over both pipes.
    pub output_bytes: usize,
    pub termination: LocalProcessTermination,
}

/// Safe receipt containing counts and policy, never process output or
/// secrets.
#[derive(Debug, PartialEq, Eq)]
pub struct LocalExecutionReceipt {
    pub mode: LocalExecutionMode,
    pub filesystem_root: String,
    pub network: LocalNetworkPolicy,
    pub timeout_ms: u64,
    pub max_output_bytes: u64,
    pub request_digest: String,
    pub outcome: LocalExecutionOutcome,
    pub exit_code: Option<i32>,
    pub stdout_bytes: u64,
    pub stderr_bytes: u64,
    pub output_bytes: u64,
    pub process_termination: LocalProcessTermination,
}

/// A capture failure with no outcome fixed while waiting: the run cannot be
/// summarised.
pub open spec fn capture_lost(run: RunObservation) -> bool {
    run.early_outcome is None && (run.stdout == CaptureSummary::Failed || run.stderr == CaptureSummary::Failed)
}

/// What a receipt records of a configuration, a request digest and a run:
/// the policy, the timeout in whole milliseconds (saturated), the digest,
/// the settled outcome, the exit code, the counts and the termination
/// evidence, and nothing else.
pub open spec fn receipt_records(receipt: LocalExecutionReceipt, c: ConfigView, request_digest: String, run: RunObservation) -> bool {
    &&& receipt.mode == c.mode
    &&& receipt.filesystem_root@ == c.filesystem_root
    &&& receipt.network == c.network
    &&& receipt.timeout_ms == if c.timeout.total_nanos() / 1_000_000 > u64::MAX as int {
        u64::MAX as int
    } else {
        c.timeout.total_nanos() / 1_000_000
    }
    &&& receipt.max_output_bytes == c.max_output_bytes
    &&& receipt.request_digest == request_digest
    &&& receipt.outcome == settled_outcome(
        run.early_outcome,
        summary_exceeded(run.stdout),
        summary_exceeded(run.stderr),
        run.exit_success == Some(true),
    )
    &&& receipt.exit_code == run.exit_code
    &&& receipt.stdout_bytes == summary_bytes(run.stdout)
    &&& receipt.stderr_bytes == summary_bytes(run.stderr)
    &&& receipt.output_bytes == run.output_bytes
    &&& receipt.process_termination == run.termination
}

/// What stopping a child did, as the host saw it.
#[derive(Debug, Clone, Copy, PartialEq, Eq, Structural)]
pub struct StopReport {
    /// Whether the child still had a process id to signal.
    pub process_id_known: bool,
    /// Whether killing its process group succeeded.
    pub group_killed: bool,
    /// Whether killing the child directly succeeded.
    pub direct_kill_succeeded: bool,
}

/// Everything the host observed of one run of a request.
pub struct ProcessRun {
    /// How waiting ended.
    pub end: ProcessEnd,
    /// Whether waiting for a stopped child succeeded.
    pub reaped: bool,
    /// What stopping the child did; read only when it had to be stopped.
    pub stop: StopReport,
    pub exit_success: Option<bool>,
    pub exit_code: Option<i32>,
    pub stdout: CaptureSummary,
    pub stderr: CaptureSummary,
    /// The bytes counted over both pipes.
    pub output_bytes: usize,
}

/// Whether waiting ended in a way that stops the child.
pub open spec fn stops_child(end: ProcessEnd) -> bool {
    end == ProcessEnd::OutputLimitExceeded || end == ProcessEnd::CaptureFailed || end == ProcessEnd::TimedOut
}

/// The outcome fixed by how waiting ended, before the output is counted.
pub open spec fn early_outcome_of(end: ProcessEnd) -> Option<LocalExecutionOutcome> {
    match end {
        ProcessEnd::OutputLimitExceeded => Some(LocalExecutionOutcome::OutputLimitExceeded),
        ProcessEnd::TimedOut => Some(LocalExecutionOutcome::TimedOut),
        _ => None,
    }
}

/// The termination evidence a run records: for a child that ended by
/// itself, nothing requested or attempted; for a stopped child, the group
/// kill as configured (counted only where the platform supports groups)
/// and what the kills did.
pub open spec fn termination_record(
    end: ProcessEnd,
    group_requested: bool,
    groups_supported: bool,
    stop: StopReport,
) -> LocalProcessTermination {
    if stops_child(end) {
        LocalProcessTermination {
            requested: group_requested,
            supported: stop.process_id_known && groups_supported,
            attempted: stop.process_id_known,
            succeeded: stop.process_id_known && ((group_requested && groups_supported && stop.group_killed)
                || stop.direct_kill_succeeded),
        }
    } else {
        LocalProcessTermination { requested: false, supported: groups_supported, attempted: false, succeeded: false }
    }
}

/// What a run comes to for the receipt: the outcome fixed by how waiting
/// ended, the observed exit and output, and the termination evidence.
pub open spec fn run_observation_of(run: ProcessRun, group_requested: bool, groups_supported: bool) -> RunObservation {
    RunObservation {
        early_outcome: early_outcome_of(run.end),
        exit_success: run.exit_success,
        exit_code: run.exit_code,
        stdout: run.stdout,
        stderr: run.stderr,
        output_bytes: run.output_bytes,
        termination: termination_record(run.end, group_requested, groups_supported, run.stop),
    }
}

/// Waiting could not be finished: the exit could not be awaited, or a
/// stopped child could not be reaped.
pub open spec fn wait_lost(run: ProcessRun) -> bool {
    run.end == ProcessEnd::ExitWaitFailed
        || ((run.end == ProcessEnd::OutputLimitExceeded || run.end == ProcessEnd::TimedOut) && !run.reaped)
}

/// Trusted-local direct process adapter with explicit resource boundaries.
pub struct LocalExecutionAdapter {
    config: LocalExecutionConfig,
}

impl LocalExecutionAdapter {
    pub closed spec fn spec_config(&self) -> LocalExecutionConfig {
        self.config
    }

    /// Wraps a configuration. Every configuration is trusted-local, so this
    /// always succeeds; another mode would be refused.
    pub fn new(config: LocalExecutionConfig) -> (r: Result<Self, LocalExecutionError>)
        ensures
            r matches Ok(a) && a.spec_config() == config,
    {
        if config.mode() != LocalExecutionMode::TrustedLocal {
            let mode = config.mode();
            return Err(LocalExecutionError::UnsupportedMode { mode });
        }
        Ok(LocalExecutionAdapter { config })
    }

    pub fn config(&self) -> (c: &LocalExecutionConfig)
        ensures
            *c == self.spec_config(),
    {
        &self.config
    }

    /// The path at which the executable is looked up: itself when
    /// absolute, otherwise joined onto the filesystem root.
    pub fn executable_candidate(&self, request: &LocalExecutionRequest) -> (p: String)
        ensures
            p@ == if path_is_absolute(request@.executable) {
                request@.executable
            } else {
                path_join(self.spec_config()@.filesystem_root, request@.executable)
            },
    {
        let executable = request.executable();
        if is_absolute(executable) {
            executable.to_owned()
        } else {
            join(self.config.filesystem_root(), executable)
        }
    }

    /// Accepts the canonical executable only if it is a file below the
    /// filesystem root.
    pub fn resolve_executable(&self, inspection: ExecutableInspection) -> (r: Result<String, LocalExecutionError>)
        ensures
            match inspection {
                ExecutableInspection::Unavailable => r matches Err(LocalExecutionError::ExecutableUnavailable),
                ExecutableInspection::Resolved { canonical, is_file } => if !path_starts_with(canonical@, self.spec_config()@.filesystem_root) {
                    r matches Err(LocalExecutionError::ExecutableOutsideRoot)
                } else if !is_file {
                    r matches Err(LocalExecutionError::ExecutableNotFile)
                } else {
                    r matches Ok(p) && p@ == canonical@
                },
            },
    {
        match inspection {
            ExecutableInspection::Unavailable => Err(LocalExecutionError::ExecutableUnavailable),
            ExecutableInspection::Resolved { canonical, is_file } => {
                if !starts_with(canonical.as_str(), self.config.filesystem_root()) {
                    return Err(LocalExecutionError::ExecutableOutsideRoot);
                }
                if !is_file {
                    return Err(LocalExecutionError::ExecutableNotFile);
                }
                Ok(canonical)
            },
        }
    }

    /// Summarises a finished run. A capture failure on either pipe is an
    /// error unless an outcome was already fixed while waiting.
    pub fn receipt(&self, request_digest: String, run: RunObservation) -> (r: Result<LocalExecutionReceipt, LocalExecutionError>)
        ensures
            capture_lost(run) ==> r matches Err(LocalExecutionError::OutputCapture),
            !capture_lost(run) ==> (r matches Ok(receipt) && receipt_records(receipt, self.spec_config()@, request_digest, run)),
            match r {
                Ok(rc) => {
                    &&& run.early_outcome matches Some(o) ==> rc.outcome == o
                    &&& (run.early_outcome is None && (summary_exceeded(run.stdout) || summary_exceeded(run.stderr)))
                        ==> rc.outcome == LocalExecutionOutcome::OutputLimitExceeded
                    &&& (run.early_outcome is None && rc.outcome == LocalExecutionOutcome::Completed) ==> (run.exit_success
                        == Some(true) && !summary_exceeded(run.stdout) && !summary_exceeded(run.stderr))
                    &&& (run.early_outcome is None && !summary_exceeded(run.stdout) && !summary_exceeded(run.stderr)
                        && run.exit_success != Some(true)) ==> rc.outcome == LocalExecutionOutcome::Failed
                },
                Err(_) => true,
            },
    {
        let stdout_failed = match run.stdout {
            CaptureSummary::Failed => true,
            CaptureSummary::Captured { .. } => false,
        };
        let stderr_failed = match run.stderr {
            CaptureSummary::Failed => true,
            CaptureSummary::Captured { .. } => false,
        };
        if run.early_outcome.is_none() && (stdout_failed || stderr_failed) {
            return Err(LocalExecutionError::OutputCapture);
        }
        let (stdout_bytes, stdout_exceeded) = match run.stdout {
            CaptureSummary::Failed => (0usize, false),
            CaptureSummary::Captured { bytes, exceeded } => (bytes, exceeded),
        };
        let (stderr_bytes, stderr_exceeded) = match run.stderr {
            CaptureSummary::Failed => (0usize, false),
            CaptureSummary::Captured { bytes, exceeded } => (bytes, exceeded),
        };
        let outcome = match run.early_outcome {
            Some(o) => o,
            None => {
                if stdout_exceeded || stderr_exceeded {
                    LocalExecutionOutcome::OutputLimitExceeded
                } else if run.exit_success == Some(true) {
                    LocalExecutionOutcome::Completed
                } else {
                    LocalExecutionOutcome::Failed
                }
            },
        };
        let timeout = self.config.timeout();
        Ok(LocalExecutionReceipt {
            mode: self.config.mode(),
            filesystem_root: self.config.filesystem_root().to_owned(),
            network: self.config.network(),
            timeout_ms: timeout.as_millis_saturating(),
            max_output_bytes: self.config.max_output_bytes() as u64,
            request_digest,
            outcome,
            exit_code: run.exit_code,
            stdout_bytes: stdout_bytes as u64,
            stderr_bytes: stderr_bytes as u64,
            output_bytes: run.output_bytes as u64,
            process_termination: run.termination,
        })
    }

    /// The receipt of running `request`: the request's own digest, the
    /// outcome that how waiting ended fixes, and termination evidence that
    /// follows it. A child that ended by itself records nothing requested;
    /// a stopped child records the configured group kill and what the kills
    /// did. Waiting that could not be finished, and a lost capture, are
    /// errors.
    pub fn run_receipt(&self, request: &LocalExecutionRequest, run: ProcessRun, groups_supported: bool) -> (r: Result<
        LocalExecutionReceipt,
        LocalExecutionError,
    >)
        ensures
            wait_lost(run) ==> r matches Err(LocalExecutionError::Wait),
            run.end == ProcessEnd::CaptureFailed ==> r matches Err(LocalExecutionError::OutputCapture),
            !wait_lost(run) && run.end != ProcessEnd::CaptureFailed && capture_lost(
                run_observation_of(run, self.spec_config()@.kill_process_group, groups_supported),
            ) ==> r matches Err(LocalExecutionError::OutputCapture),
            !wait_lost(run) && run.end != ProcessEnd::CaptureFailed && !capture_lost(
                run_observation_of(run, self.spec_config()@.kill_process_group, groups_supported),
            ) ==> r is Ok,
            r matches Ok(rc) ==> {
                &&& rc.request_digest@ == request_digest_of(request@)
                &&& receipt_records(
                    rc,
                    self.spec_config()@,
                    rc.request_digest,
                    run_observation_of(run, self.spec_config()@.kill_process_group, groups_supported),
                )
            },
            match r {
                Ok(rc) => {
                    &&& (rc.outcome == LocalExecutionOutcome::Completed || rc.outcome == LocalExecutionOutcome::Failed)
                        ==> rc.process_termination == LocalProcessTermination::not_requested_spec(groups_supported)
                    &&& rc.outcome == LocalExecutionOutcome::TimedOut ==> {
                        &&& run.end == ProcessEnd::TimedOut
                        &&& rc.process_termination.requested == self.spec_config()@.kill_process_group
                        &&& rc.process_termination.attempted == run.stop.process_id_known
                    }
                    &&& rc.outcome == LocalExecutionOutcome::OutputLimitExceeded ==> (run.end
                        == ProcessEnd::OutputLimitExceeded || summary_exceeded(run.stdout) || summary_exceeded(
                        run.stderr,
                    ))
                },
                Err(_) => true,
            },
    {
        let early = match process_end_outcome(run.end, run.reaped) {
            Ok(early) => early,
            Err(e) => return Err(e),
        };
        let group_requested = self.config.process_group_kill_requested();
        let termination = if termination_required(run.end) {
            let group_killed = group_kill_wanted(group_requested, groups_supported) && run.stop.group_killed;
            let direct = direct_kill_wanted(group_killed) && run.stop.direct_kill_succeeded;
            termination_evidence(run.stop.process_id_known, group_requested, groups_supported, group_killed, direct)
        } else {
            LocalProcessTermination::not_requested(groups_supported)
        };
        let observation = RunObservation {
            early_outcome: early,
            exit_success: run.exit_success,
            exit_code: run.exit_code,
            stdout: run.stdout,
            stderr: run.stderr,
            output_bytes: run.output_bytes,
            termination,
        };
        self.receipt(request.request_digest(), observation)
    }
}

} // verus!

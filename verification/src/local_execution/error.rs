use vstd::prelude::*;

use super::policy::LocalExecutionMode;

verus! {

#[verifier::external_type_specification]
#[verifier::external_body]
pub struct ExIoError(std::io::Error);

/// Why the trusted-local boundary refused a configuration or a run.
#[derive(Debug)]
pub enum LocalExecutionError {
    /// Only the trusted-local mode is implemented; the isolated Linux
    /// runtime is unavailable.
    UnsupportedMode { mode: LocalExecutionMode },
    FilesystemRootUnavailable,
    FilesystemRootNotDirectory,
    InvalidTimeout,
    InvalidOutputLimit,
    ExecutableUnavailable,
    /// The executable must remain below the configured filesystem root.
    ExecutableOutsideRoot,
    ExecutableNotFile,
    OutputPipeUnavailable,
    Spawn { source: std::io::Error },
    Wait,
    OutputCapture,
}

/// The name a mode is shown by in messages.
pub open spec fn mode_name(mode: LocalExecutionMode) -> Seq<char> {
    match mode {
        LocalExecutionMode::TrustedLocal => "TrustedLocal"@,
        LocalExecutionMode::IsolatedLinuxUnavailable => "IsolatedLinuxUnavailable"@,
    }
}

/// The message each error is reported with.
pub open spec fn error_message(e: LocalExecutionError) -> Seq<char> {
    match e {
        LocalExecutionError::UnsupportedMode { mode } =>
            "local execution mode "@ + mode_name(mode) + " is unsupported: isolated Linux runtime is unavailable"@,
        LocalExecutionError::FilesystemRootUnavailable => "local execution filesystem root is unavailable"@,
        LocalExecutionError::FilesystemRootNotDirectory => "local execution filesystem root must be a directory"@,
        LocalExecutionError::InvalidTimeout => "local execution timeout must be non-zero"@,
        LocalExecutionError::InvalidOutputLimit => "local execution output limit must be non-zero"@,
        LocalExecutionError::ExecutableUnavailable => "local execution executable is unavailable"@,
        LocalExecutionError::ExecutableOutsideRoot =>
            "local execution executable must remain below the configured filesystem root"@,
        LocalExecutionError::ExecutableNotFile => "local execution executable is not a file"@,
        LocalExecutionError::OutputPipeUnavailable => "local execution output pipes are unavailable"@,
        LocalExecutionError::Spawn { .. } => "local execution process could not be spawned"@,
        LocalExecutionError::Wait => "local execution process could not be awaited"@,
        LocalExecutionError::OutputCapture => "local execution output capture failed"@,
    }
}

impl LocalExecutionError {
    /// The message this error is reported with.
    pub fn message(&self) -> (m: String)
        ensures
            m@ == error_message(*self),
    {
        match self {
            LocalExecutionError::UnsupportedMode { mode } => {
                let mut m = "local execution mode ".to_owned();
                match mode {
                    LocalExecutionMode::TrustedLocal => m.append("TrustedLocal"),
                    LocalExecutionMode::IsolatedLinuxUnavailable => m.append("IsolatedLinuxUnavailable"),
                }
                m.append(" is unsupported: isolated Linux runtime is unavailable");
                m
            },
            LocalExecutionError::FilesystemRootUnavailable => "local execution filesystem root is unavailable".to_owned(),
            LocalExecutionError::FilesystemRootNotDirectory => "local execution filesystem root must be a directory".to_owned(),
            LocalExecutionError::InvalidTimeout => "local execution timeout must be non-zero".to_owned(),
            LocalExecutionError::InvalidOutputLimit => "local execution output limit must be non-zero".to_owned(),
            LocalExecutionError::ExecutableUnavailable => "local execution executable is unavailable".to_owned(),
            LocalExecutionError::ExecutableOutsideRoot =>
                "local execution executable must remain below the configured filesystem root".to_owned(),
            LocalExecutionError::ExecutableNotFile => "local execution executable is not a file".to_owned(),
            LocalExecutionError::OutputPipeUnavailable => "local execution output pipes are unavailable".to_owned(),
            LocalExecutionError::Spawn { .. } => "local execution process could not be spawned".to_owned(),
            LocalExecutionError::Wait => "local execution process could not be awaited".to_owned(),
            LocalExecutionError::OutputCapture => "local execution output capture failed".to_owned(),
        }
    }
}

} // verus!

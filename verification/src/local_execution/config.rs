use vstd::prelude::*;

use super::error::LocalExecutionError;
use super::policy::LocalExecutionMode;
use super::policy::LocalNetworkPolicy;
use super::timeout::Timeout;

verus! {

/// What the host found at a configured filesystem root.
pub enum RootInspection {
    /// The path could not be canonicalised.
    Unavailable,
    /// The canonical path, and whether it names a directory.
    Resolved { canonical: String, is_directory: bool },
}

/// Limits and host policy used by the trusted-local adapter.
pub struct LocalExecutionConfig {
    mode: LocalExecutionMode,
    filesystem_root: String,
    network: LocalNetworkPolicy,
    timeout: Timeout,
    max_output_bytes: usize,
    kill_process_group: bool,
}

/// What a configuration holds.
pub struct ConfigView {
    pub mode: LocalExecutionMode,
    pub filesystem_root: Seq<char>,
    pub network: LocalNetworkPolicy,
    pub timeout: Timeout,
    pub max_output_bytes: usize,
    pub kill_process_group: bool,
}

impl View for LocalExecutionConfig {
    type V = ConfigView;

    closed spec fn view(&self) -> ConfigView {
        ConfigView {
            mode: self.mode,
            filesystem_root: self.filesystem_root@,
            network: self.network,
            timeout: self.timeout,
            max_output_bytes: self.max_output_bytes,
            kill_process_group: self.kill_process_group,
        }
    }
}

/// The error `LocalExecutionConfig::new` gives, if any, checking in order
/// the mode, the timeout, the output limit and then the root.
pub open spec fn config_refusal(
    mode: LocalExecutionMode,
    root: RootInspection,
    timeout: Timeout,
    max_output_bytes: usize,
) -> Option<LocalExecutionError> {
    if mode != LocalExecutionMode::TrustedLocal {
        Some(LocalExecutionError::UnsupportedMode { mode })
    } else if timeout.total_nanos() == 0 {
        Some(LocalExecutionError::InvalidTimeout)
    } else if max_output_bytes == 0 {
        Some(LocalExecutionError::InvalidOutputLimit)
    } else {
        match root {
            RootInspection::Unavailable => Some(LocalExecutionError::FilesystemRootUnavailable),
            RootInspection::Resolved { canonical, is_directory } => {
                if !is_directory {
                    Some(LocalExecutionError::FilesystemRootNotDirectory)
                } else {
                    None
                }
            },
        }
    }
}

impl LocalExecutionConfig {
    /// Every configuration is trusted-local, with a non-zero timeout and a
    /// non-zero output limit.
    #[verifier::type_invariant]
    closed spec fn admitted(self) -> bool {
        &&& self.mode == LocalExecutionMode::TrustedLocal
        &&& self.timeout.wf()
        &&& self.timeout.total_nanos() > 0
        &&& self.max_output_bytes > 0
    }

    /// A trusted-local configuration.
    pub fn trusted_local(
        filesystem_root: RootInspection,
        network: LocalNetworkPolicy,
        timeout: Timeout,
        max_output_bytes: usize,
    ) -> (r: Result<Self, LocalExecutionError>)
        ensures
            match config_refusal(LocalExecutionMode::TrustedLocal, filesystem_root, timeout, max_output_bytes) {
                Some(e) => r == Err::<Self, LocalExecutionError>(e),
                None => r is Ok,
            },
            r matches Ok(c) ==> c@ == (ConfigView {
                mode: LocalExecutionMode::TrustedLocal,
                filesystem_root: filesystem_root->canonical@,
                network,
                timeout,
                max_output_bytes,
                kill_process_group: true,
            }),
    {
        Self::new(LocalExecutionMode::TrustedLocal, filesystem_root, network, timeout, max_output_bytes)
    }

    /// Admits a configuration: the mode must be trusted-local, the timeout
    /// and the output limit non-zero, and the root an existing directory,
    /// held by its canonical path. Process-group kill starts enabled.
    pub fn new(
        mode: LocalExecutionMode,
        filesystem_root: RootInspection,
        network: LocalNetworkPolicy,
        timeout: Timeout,
        max_output_bytes: usize,
    ) -> (r: Result<Self, LocalExecutionError>)
        ensures
            match config_refusal(mode, filesystem_root, timeout, max_output_bytes) {
                Some(e) => r == Err::<Self, LocalExecutionError>(e),
                None => r is Ok,
            },
            r matches Ok(c) ==> c@ == (ConfigView {
                mode,
                filesystem_root: filesystem_root->canonical@,
                network,
                timeout,
                max_output_bytes,
                kill_process_group: true,
            }),
    {
        proof {
            use_type_invariant(&timeout);
        }
        if mode != LocalExecutionMode::TrustedLocal {
            return Err(LocalExecutionError::UnsupportedMode { mode });
        }
        if timeout.is_zero() {
            return Err(LocalExecutionError::InvalidTimeout);
        }
        if max_output_bytes == 0 {
            return Err(LocalExecutionError::InvalidOutputLimit);
        }
        match filesystem_root {
            RootInspection::Unavailable => Err(LocalExecutionError::FilesystemRootUnavailable),
            RootInspection::Resolved { canonical, is_directory } => {
                if !is_directory {
                    return Err(LocalExecutionError::FilesystemRootNotDirectory);
                }
                Ok(LocalExecutionConfig {
                    mode,
                    filesystem_root: canonical,
                    network,
                    timeout,
                    max_output_bytes,
                    kill_process_group: true,
                })
            },
        }
    }

    /// The same configuration with process-group kill enabled or not.
    pub fn with_process_group_kill(self, enabled: bool) -> (c: Self)
        ensures
            c@ == (ConfigView { kill_process_group: enabled, ..self@ }),
    {
        proof {
            use_type_invariant(&self);
        }
        let LocalExecutionConfig { mode, filesystem_root, network, timeout, max_output_bytes, kill_process_group: _ } = self;
        LocalExecutionConfig { mode, filesystem_root, network, timeout, max_output_bytes, kill_process_group: enabled }
    }

    pub fn mode(&self) -> (m: LocalExecutionMode)
        ensures
            m == self@.mode,
            m == LocalExecutionMode::TrustedLocal,
    {
        proof {
            use_type_invariant(self);
        }
        self.mode
    }

    pub fn filesystem_root(&self) -> (r: &str)
        ensures
            r@ == self@.filesystem_root,
    {
        self.filesystem_root.as_str()
    }

    pub fn network(&self) -> (n: LocalNetworkPolicy)
        ensures
            n == self@.network,
    {
        self.network
    }

    pub fn timeout(&self) -> (t: Timeout)
        ensures
            t == self@.timeout,
            t.wf(),
            t.total_nanos() > 0,
    {
        proof {
            use_type_invariant(self);
        }
        self.timeout
    }

    pub fn max_output_bytes(&self) -> (m: usize)
        ensures
            m == self@.max_output_bytes,
            m > 0,
    {
        proof {
            use_type_invariant(self);
        }
        self.max_output_bytes
    }

    pub fn process_group_kill_requested(&self) -> (b: bool)
        ensures
            b == self@.kill_process_group,
    {
        self.kill_process_group
    }
}

} // verus!

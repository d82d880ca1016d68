//! Trusted-local direct process execution: configuration, requests,
//! process-end decisions and the receipt that summarises a run.

pub mod adapter;
pub mod config;
pub mod error;
pub mod policy;
pub mod request;
pub mod termination;
pub mod timeout;

pub use adapter::{LocalExecutionAdapter, LocalExecutionReceipt};
pub use config::{LocalExecutionConfig, RootInspection};
pub use error::LocalExecutionError;
pub use policy::{LocalExecutionMode, LocalExecutionOutcome, LocalNetworkPolicy};
pub use request::LocalExecutionRequest;
pub use termination::LocalProcessTermination;
pub use timeout::Timeout;

//! Verified core of the MADE execution and wire-mapping adapters.
//!
//! The library holds the decisions that the adapters make: which local
//! execution configurations are admitted, how a direct-exec request is
//! framed and digested, how a process run is summarised into a receipt,
//! which OCI policies and container states are accepted, how durable
//! operation records are checked, and how budget measurements and wire
//! timestamps are read and written.

pub mod bytes;
pub mod digest;
pub mod execution;
pub mod grpc;
pub mod local_execution;
pub mod paths;
pub mod text;
pub mod wire;

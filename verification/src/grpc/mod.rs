//! The gRPC authorization boundary: who is calling, under which request
//! id, and what a refusal is answered with.

pub mod authorization_gate;
pub mod service_wiring;

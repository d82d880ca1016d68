//! Reading and writing the wire forms of domain values.

pub mod budget;
pub mod timestamp;
pub mod authorization;
pub mod choices;
pub mod stage;
pub mod trigger;

//! A teller machine as a pure state machine, with its transition rules stated
//! over a mathematical snapshot and proved; and, beside it, a small state
//! driven by messages and the points of the compass.
//!
//! - [`atm`]: keys, actions, phases, machine states and the transition.
//! - [`hashing`]: the digest by which a keyed-in PIN is compared.
//! - [`laws`]: what holds of every transition and of every run.
//! - [`enums`]: messages, the state they act on, and directions.
//! - [`decimal`]: numbers written out in decimal, as the messages' text needs
//!   them.

pub mod atm;
pub mod decimal;
pub mod enums;
pub mod hashing;
pub mod laws;

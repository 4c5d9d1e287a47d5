//! Lifecycle management for the artifacts of a proving system: setup
//! parameters, circuit keys and proofs are cached in memory, looked up in a
//! directory under canonical file names, and generated and persisted only
//! when neither holds them.
//!
//! The library decides; its caller performs the file and backend work that a
//! decision asks for and reports back what happened.

pub mod lifecycle;
pub mod naming;
pub mod proofs;
pub mod prover;
pub mod seed;
pub mod setup;
pub mod verifying;

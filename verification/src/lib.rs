//! A hash-chain proving library: derives the per-step witnesses that bind a
//! Poseidon hash chain together, states the step-circuit relation that an
//! incrementally-verifiable-computation engine enforces once per fold, and
//! reconstructs the public inputs a verifier checks a compressed proof
//! against.

pub mod chain;
pub mod circuit;
pub mod field;
pub mod prover;
pub mod public_input;
pub mod witness;

pub use prover::Prover;

//! Bookkeeping around a PLONK-style prover: circuit tables and their wiring,
//! witness tables, the folding of earlier proofs into a new one, the shape of
//! a proof, and a set of ready-made example circuits.
//!
//! The prover, the verifier and the gadget constructors are collaborators that
//! live outside this crate. Everything here works on plain values that are
//! handed to them or come back from them.

pub mod assembly;
pub mod bigint;
pub mod circuit;
pub mod examples;
pub mod gate;
pub mod prover;
pub mod prover_proof;
pub mod recursion;
pub mod batch;
pub mod views;
pub mod wires;
pub mod wiring;
pub mod witness;

//! The orchestration layer of a zero-knowledge virtual machine: preprocessing,
//! proving and verifying an execution trace out of four argument systems.

pub mod artifacts;
pub mod chunks;
pub mod commitments;
pub mod determinism;
pub mod device;
pub mod guarantees;
pub mod instruction;
pub mod laws;
pub mod opening;
mod outside;
pub mod poly;
pub mod pow2;
pub mod proving;
pub mod r1cs;
pub mod subprotocols;
pub mod transcript;
pub mod verification;
pub mod vm;

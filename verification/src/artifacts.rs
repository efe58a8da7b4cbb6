//! What passes between preprocessing, prover and verifier.

use crate::commitments::CommitmentScheme;
use crate::device::JoltDevice;
use crate::poly::JoltField;
use crate::subprotocols::R1CSProof;
use crate::subprotocols::ReadWriteMemoryPreprocessing;
use crate::subprotocols::Subprotocols;
use vstd::prelude::*;

verus! {

/// What prover and verifier know of a program before it runs.
#[derive(Clone)]
#[verifier::reject_recursive_types(F)]
#[verifier::reject_recursive_types(PCS)]
#[verifier::reject_recursive_types(P)]
pub struct JoltPreprocessing<const C: usize, const M: usize, F, PCS, P> where
    F: JoltField,
    PCS: CommitmentScheme<Field = F>,
    P: Subprotocols<F, PCS, C, M>,
 {
    pub generators: PCS::Setup,
    pub instruction_lookups: P::LookupsPreprocessing,
    pub bytecode: P::BytecodePreprocessing,
    pub read_write_memory: ReadWriteMemoryPreprocessing<P::MemoryImage>,
}

/// A proof that an execution has the public interface `program_io`.
#[verifier::reject_recursive_types(F)]
#[verifier::reject_recursive_types(PCS)]
#[verifier::reject_recursive_types(P)]
pub struct JoltProof<const C: usize, const M: usize, F, PCS, P> where
    F: JoltField,
    PCS: CommitmentScheme<Field = F>,
    P: Subprotocols<F, PCS, C, M>,
 {
    pub trace_length: usize,
    pub program_io: JoltDevice,
    pub bytecode: P::BytecodeProof,
    pub read_write_memory: P::MemoryProof,
    pub instruction_lookups: P::LookupsProof,
    pub r1cs: R1CSProof<F, P::R1CSConstraints, P::R1CSArgument>,
}

/// Why a proof is rejected.
#[derive(Clone, Debug, PartialEq, Eq)]
pub enum ProofVerifyError<E> {
    /// One of the memory-checking or lookup arguments fails.
    Subprotocol(E),
    /// Inputs or outputs are longer than the memory layout allows.
    ProgramIoTooLarge,
    /// The constraint system is not satisfied.
    SpartanError(String),
}

/// Why the witness of the constraint system cannot be set up.
#[derive(Clone, Debug, PartialEq, Eq)]
pub enum R1CSSetupError<E> {
    /// The field has no element for an operand chunk.
    ChunkOutsideField,
    /// An instruction has a chunk that lies outside the padded trace.
    ChunkOutsideTrace,
    /// The lookups lack query polynomials, or have more evaluations than one column
    /// can hold.
    UnsuitableQueryPolynomials,
    /// The constraint system rejects its inputs.
    Setup(E),
}

/// Why an execution cannot be proved.
#[derive(Clone, Debug, PartialEq, Eq)]
pub enum ProveError<E> {
    /// The lookups lack the flag polynomials of loads and stores.
    MissingFlagPolynomials,
    /// The commitment scheme returned too few commitments.
    MissingCommitments,
    /// The witness of the constraint system cannot be set up.
    R1CSSetup(R1CSSetupError<E>),
    /// The constraint system cannot be proved.
    R1CSProof(E),
}

} // verus!

//! The argument systems that make up a proof, as far as the orchestration calls them.
//!
//! Nothing is promised of their results: each contract of this crate says which
//! values went into a call and what became of the values that came back.

use crate::commitments::BytecodeCommitment;
use crate::commitments::CommitmentScheme;
use crate::commitments::InstructionCommitment;
use crate::commitments::JoltCommitments;
use crate::commitments::MemoryCommitment;
use crate::commitments::RangeCheckCommitment;
use crate::device::JoltDevice;
use crate::device::MEMORY_OPS_PER_INSTRUCTION;
use crate::instruction::JoltInstructionSet;
use crate::instruction::JoltSubtableSet;
use crate::poly::BytecodePolynomials;
use crate::poly::DensePolynomial;
use crate::poly::InstructionPolynomials;
use crate::poly::JoltField;
use crate::poly::JoltPolynomials;
use crate::poly::RangeCheckPolynomials;
use crate::poly::ReadWriteMemory;
use crate::transcript::ProofTranscript;
use vstd::prelude::*;

verus! {

/// What the memory-checking argument derives from the program's memory image (`T`),
/// and the public interface that a verifier checks it against.
#[derive(Clone, Debug, PartialEq, Eq)]
pub struct ReadWriteMemoryPreprocessing<T> {
    pub image: T,
    pub program_io: Option<JoltDevice>,
}

/// The key of the constraint system: its digest, and what else it is made of (`K`).
#[derive(Clone, Debug, PartialEq, Eq)]
pub struct UniformSpartanKey<F, K> {
    pub vk_digest: F,
    pub constraints: K,
}

/// A proof for the constraint system, under the key that it was made with.
#[derive(Clone, Debug, PartialEq, Eq)]
pub struct R1CSProof<F, K, Q> {
    pub key: UniformSpartanKey<F, K>,
    pub argument: Q,
}

/// The witness of the constraint system, by the columns it is put together from.
#[derive(Clone, Debug, PartialEq, Eq)]
pub struct R1CSInputs<F> {
    pub padded_trace_len: usize,
    pub bytecode_a: Vec<F>,
    pub bytecode_v: Vec<F>,
    pub memreg_a_rw: Vec<F>,
    pub memreg_v_reads: Vec<F>,
    pub memreg_v_writes: Vec<F>,
    pub chunks_x: Vec<F>,
    pub chunks_y: Vec<F>,
    pub chunks_query: Vec<F>,
    pub lookup_outputs: Vec<F>,
    pub circuit_flags: Vec<F>,
    pub instruction_flags: Vec<F>,
}

/// The instruction set of a machine and the argument systems that prove its traces,
/// for operands in `C` chunks and tables of size `M`.
///
/// A transcript is handed over by value and comes back.
pub trait Subprotocols<
    F: JoltField,
    PCS: CommitmentScheme<Field = F>,
    const C: usize,
    const M: usize,
>: Sized {
    type InstructionSet: JoltInstructionSet;

    type Subtables: JoltSubtableSet;

    /// Why a proof is rejected.
    type Error;

    // ---- bytecode ----

    /// An instruction as the program's binary holds it.
    type ELFInstruction;

    type BytecodeRow: Send;

    type BytecodePreprocessing: Clone + Send + Sync;

    type BytecodeProof;

    fn bytecode_commit_shapes(max_bytecode_size: usize, max_trace_length: usize) -> Vec<PCS::Shape>;

    fn bytecode_row(instruction: &Self::ELFInstruction) -> Self::BytecodeRow;

    fn bytecode_preprocess(rows: Vec<Self::BytecodeRow>) -> Self::BytecodePreprocessing;

    fn bytecode_polynomials(
        preprocessing: &Self::BytecodePreprocessing,
        trace: Vec<Self::BytecodeRow>,
    ) -> BytecodePolynomials<F>;

    /// The columns that the bytecode contributes to the constraint system.
    fn bytecode_r1cs_polys(polynomials: &BytecodePolynomials<F>) -> (Vec<F>, Vec<F>);

    fn bytecode_append_commitment(
        commitment: &BytecodeCommitment<PCS>,
        label: &'static str,
        transcript: ProofTranscript<F>,
    ) -> ProofTranscript<F>;

    fn bytecode_prove(
        preprocessing: &Self::BytecodePreprocessing,
        generators: &PCS::Setup,
        commitment: &BytecodeCommitment<PCS>,
        polynomials: &BytecodePolynomials<F>,
        transcript: ProofTranscript<F>,
    ) -> (Self::BytecodeProof, ProofTranscript<F>);

    fn bytecode_verify(
        preprocessing: &Self::BytecodePreprocessing,
        generators: &PCS::Setup,
        proof: Self::BytecodeProof,
        commitment: &BytecodeCommitment<PCS>,
        transcript: ProofTranscript<F>,
    ) -> (Result<(), Self::Error>, ProofTranscript<F>);

    // ---- registers and RAM ----

    type MemoryOp: Copy;

    type MemoryImage: Clone;

    type ReadTimestamps: Send;

    type MemoryProof;

    /// The read that leaves no trace.
    fn noop_read() -> Self::MemoryOp;

    /// The write that leaves no trace.
    fn noop_write() -> Self::MemoryOp;

    fn memory_commit_shapes(max_memory_address: usize, max_trace_length: usize) -> Vec<PCS::Shape>;

    fn memory_preprocess(memory_init: Vec<(u64, u8)>) -> ReadWriteMemoryPreprocessing<
        Self::MemoryImage,
    >;

    fn memory_polynomials(
        program_io: &JoltDevice,
        load_store_flags: &[DensePolynomial<F>],
        preprocessing: &ReadWriteMemoryPreprocessing<Self::MemoryImage>,
        memory_trace: Vec<[Self::MemoryOp; MEMORY_OPS_PER_INSTRUCTION]>,
    ) -> (ReadWriteMemory<F>, Self::ReadTimestamps);

    /// The columns that memory contributes to the constraint system.
    fn memory_r1cs_polys(polynomials: &ReadWriteMemory<F>) -> (Vec<F>, Vec<F>, Vec<F>);

    fn memory_append_commitment(
        commitment: &MemoryCommitment<PCS>,
        label: &'static str,
        transcript: ProofTranscript<F>,
    ) -> ProofTranscript<F>;

    fn memory_prove(
        preprocessing: &ReadWriteMemoryPreprocessing<Self::MemoryImage>,
        generators: &PCS::Setup,
        commitments: &JoltCommitments<PCS, Self::R1CSCommitment>,
        polynomials: &JoltPolynomials<F>,
        program_io: &JoltDevice,
        transcript: ProofTranscript<F>,
    ) -> (Self::MemoryProof, ProofTranscript<F>);

    fn memory_verify(
        proof: Self::MemoryProof,
        generators: &PCS::Setup,
        preprocessing: &ReadWriteMemoryPreprocessing<Self::MemoryImage>,
        commitments: &JoltCommitments<PCS, Self::R1CSCommitment>,
        transcript: ProofTranscript<F>,
    ) -> (Result<(), Self::Error>, ProofTranscript<F>);

    // ---- timestamps ----

    fn timestamp_commit_shapes(max_trace_length: usize) -> Vec<PCS::Shape>;

    fn timestamp_polynomials(read_timestamps: Self::ReadTimestamps) -> RangeCheckPolynomials<F>;

    fn timestamp_append_commitment(
        commitment: &RangeCheckCommitment<PCS>,
        label: &'static str,
        transcript: ProofTranscript<F>,
    ) -> ProofTranscript<F>;

    // ---- instruction lookups ----

    type LookupsPreprocessing: Clone;

    type LookupsProof;

    fn lookups_preprocess() -> Self::LookupsPreprocessing;

    fn lookups_commit_shapes(
        preprocessing: &Self::LookupsPreprocessing,
        max_trace_length: usize,
    ) -> Vec<PCS::Shape>;

    fn lookups_polynomials(
        preprocessing: &Self::LookupsPreprocessing,
        instructions: &Vec<Option<Self::InstructionSet>>,
    ) -> InstructionPolynomials<F>;

    fn lookups_append_commitment(
        commitment: &InstructionCommitment<PCS>,
        label: &'static str,
        transcript: ProofTranscript<F>,
    ) -> ProofTranscript<F>;

    fn lookups_prove(
        polynomials: &InstructionPolynomials<F>,
        generators: &PCS::Setup,
        commitment: &InstructionCommitment<PCS>,
        preprocessing: &Self::LookupsPreprocessing,
        transcript: ProofTranscript<F>,
    ) -> (Self::LookupsProof, ProofTranscript<F>);

    fn lookups_verify(
        preprocessing: &Self::LookupsPreprocessing,
        generators: &PCS::Setup,
        proof: Self::LookupsProof,
        commitment: &InstructionCommitment<PCS>,
        transcript: ProofTranscript<F>,
    ) -> (Result<(), Self::Error>, ProofTranscript<F>);

    // ---- constraint system ----

    type R1CSConstraints;

    type R1CSArgument;

    type R1CSCommitment;

    /// Why the constraint system cannot be set up, proved or verified.
    type R1CSError;

    fn r1cs_compute_witness_commit(
        word_size: usize,
        num_chunks: usize,
        padded_trace_length: usize,
        memory_start: u64,
        inputs: &R1CSInputs<F>,
        generators: &PCS::Setup,
    ) -> Result<
        (UniformSpartanKey<F, Self::R1CSConstraints>, Vec<Vec<F>>, Self::R1CSCommitment),
        Self::R1CSError,
    >;

    fn r1cs_append_commitment(
        commitment: &Self::R1CSCommitment,
        label: &'static str,
        transcript: ProofTranscript<F>,
    ) -> ProofTranscript<F>;

    fn r1cs_prove(
        key: UniformSpartanKey<F, Self::R1CSConstraints>,
        generators: &PCS::Setup,
        commitments: &JoltCommitments<PCS, Self::R1CSCommitment>,
        num_chunks: usize,
        witness_segments: Vec<Vec<F>>,
        transcript: ProofTranscript<F>,
    ) -> (
        Result<R1CSProof<F, Self::R1CSConstraints, Self::R1CSArgument>, Self::R1CSError>,
        ProofTranscript<F>,
    );

    fn r1cs_verify(
        proof: R1CSProof<F, Self::R1CSConstraints, Self::R1CSArgument>,
        generators: &PCS::Setup,
        commitments: JoltCommitments<PCS, Self::R1CSCommitment>,
        num_chunks: usize,
        transcript: ProofTranscript<F>,
    ) -> (Result<(), Self::R1CSError>, ProofTranscript<F>);

    /// The error in words.
    fn r1cs_error_message(error: &Self::R1CSError) -> String;
}

} // verus!

//! What one run of the verifier calls, and what it makes of the answers.

use crate::artifacts::JoltPreprocessing;
use crate::artifacts::JoltProof;
use crate::artifacts::ProofVerifyError;
use crate::commitments::CommitmentScheme;
use crate::commitments::JoltCommitments;
use crate::device::JoltDevice;
use crate::opening::is_opened;
use crate::poly::JoltField;
use crate::subprotocols::ReadWriteMemoryPreprocessing;
use crate::subprotocols::Subprotocols;
use crate::transcript::ProofTranscript;
use vstd::prelude::*;

verus! {

/// The answer of a memory-checking or lookup argument as the verifier passes it on.
pub open spec fn subprotocol_result<E>(answer: Result<(), E>) -> Result<
    (),
    ProofVerifyError<E>,
> {
    match answer {
        Ok(()) => Ok(()),
        Err(e) => Err(ProofVerifyError::Subprotocol(e)),
    }
}

/// Passes the answer of a memory-checking or lookup argument on.
pub fn subprotocol_outcome<E>(answer: Result<(), E>) -> (result: Result<(), ProofVerifyError<E>>)
    ensures
        result == subprotocol_result(answer),
{
    match answer {
        Ok(()) => Ok(()),
        Err(e) => Err(ProofVerifyError::Subprotocol(e)),
    }
}

/// The memory preprocessing with the public interface of one execution filled in.
pub open spec fn with_program_io<T>(
    preprocessing: ReadWriteMemoryPreprocessing<T>,
    program_io: JoltDevice,
) -> ReadWriteMemoryPreprocessing<T> {
    ReadWriteMemoryPreprocessing { image: preprocessing.image, program_io: Some(program_io) }
}

/// `result` is what the verifier may make of the memory argument's answer, asked with
/// the transcript `before` and against the public interface of one execution, and
/// `after` is the transcript that the argument may leave.
pub open spec fn is_memory_verified<
    const C: usize,
    const M: usize,
    F: JoltField,
    PCS: CommitmentScheme<Field = F>,
    P: Subprotocols<F, PCS, C, M>,
>(
    preprocessing: ReadWriteMemoryPreprocessing<P::MemoryImage>,
    generators: PCS::Setup,
    proof: P::MemoryProof,
    commitments: JoltCommitments<PCS, P::R1CSCommitment>,
    program_io: JoltDevice,
    before: ProofTranscript<F>,
    after: ProofTranscript<F>,
    result: Result<(), ProofVerifyError<P::Error>>,
) -> bool {
    exists|answer: Result<(), P::Error>|
        {
            &&& #[trigger] call_ensures(
                P::memory_verify,
                (
                    proof,
                    &generators,
                    &with_program_io(preprocessing, program_io),
                    &commitments,
                    before,
                ),
                (answer, after),
            )
            &&& result == subprotocol_result(answer)
        }
}

/// `result` is what the verifier may make of the constraint system's `answer`: an
/// error becomes its message.
pub open spec fn is_r1cs_result<
    const C: usize,
    const M: usize,
    F: JoltField,
    PCS: CommitmentScheme<Field = F>,
    P: Subprotocols<F, PCS, C, M>,
>(
    answer: Result<(), P::R1CSError>,
    result: Result<(), ProofVerifyError<P::Error>>,
) -> bool {
    match answer {
        Ok(()) => result is Ok,
        Err(e) => exists|text: String|
            result == Err::<(), _>(ProofVerifyError::<P::Error>::SpartanError(text))
                && #[trigger] call_ensures(P::r1cs_error_message, (&e,), text),
    }
}

/// The values that come back in one run of the verifier: the transcript once it is
/// opened, then of each argument its answer and the transcript it leaves. Where an
/// argument is not reached, its entry means nothing.
#[verifier::reject_recursive_types(F)]
#[verifier::reject_recursive_types(PCS)]
#[verifier::reject_recursive_types(P)]
pub struct VerifierRun<const C: usize, const M: usize, F, PCS, P> where
    F: JoltField,
    PCS: CommitmentScheme<Field = F>,
    P: Subprotocols<F, PCS, C, M>,
 {
    pub opened: ProofTranscript<F>,
    pub bytecode: (Result<(), P::Error>, ProofTranscript<F>),
    pub lookups: (Result<(), P::Error>, ProofTranscript<F>),
    pub memory: (Result<(), P::Error>, ProofTranscript<F>),
    pub r1cs: (Result<(), P::R1CSError>, ProofTranscript<F>),
}

/// The verifier asks the lookups.
pub open spec fn reaches_lookups<
    const C: usize,
    const M: usize,
    F: JoltField,
    PCS: CommitmentScheme<Field = F>,
    P: Subprotocols<F, PCS, C, M>,
>(
    run: VerifierRun<C, M, F, PCS, P>,
) -> bool {
    run.bytecode.0 is Ok
}

/// The verifier asks the memory argument.
pub open spec fn reaches_memory<
    const C: usize,
    const M: usize,
    F: JoltField,
    PCS: CommitmentScheme<Field = F>,
    P: Subprotocols<F, PCS, C, M>,
>(
    program_io: JoltDevice,
    run: VerifierRun<C, M, F, PCS, P>,
) -> bool {
    reaches_lookups(run) && run.lookups.0 is Ok && program_io.fits_layout()
}

/// The verifier asks the constraint system.
pub open spec fn reaches_r1cs<
    const C: usize,
    const M: usize,
    F: JoltField,
    PCS: CommitmentScheme<Field = F>,
    P: Subprotocols<F, PCS, C, M>,
>(
    program_io: JoltDevice,
    run: VerifierRun<C, M, F, PCS, P>,
) -> bool {
    reaches_memory(program_io, run) && run.memory.0 is Ok
}

/// `run` is a possible run of the verifier on these inputs: the arguments are asked one
/// after the other, each about its own part of the proof and each with the transcript
/// that the one before it left, for as long as the answers are favourable.
pub open spec fn is_verifier_run<
    const C: usize,
    const M: usize,
    F: JoltField,
    PCS: CommitmentScheme<Field = F>,
    P: Subprotocols<F, PCS, C, M>,
>(
    preprocessing: JoltPreprocessing<C, M, F, PCS, P>,
    proof: JoltProof<C, M, F, PCS, P>,
    commitments: JoltCommitments<PCS, P::R1CSCommitment>,
    run: VerifierRun<C, M, F, PCS, P>,
) -> bool {
    &&& is_opened::<C, M, F, PCS, P>(
        proof.program_io,
        proof.trace_length,
        proof.r1cs.key.vk_digest,
        commitments,
        run.opened,
    )
    &&& call_ensures(
        P::bytecode_verify,
        (
            &preprocessing.bytecode,
            &preprocessing.generators,
            proof.bytecode,
            &commitments.bytecode,
            run.opened,
        ),
        run.bytecode,
    )
    &&& reaches_lookups(run) ==> call_ensures(
        P::lookups_verify,
        (
            &preprocessing.instruction_lookups,
            &preprocessing.generators,
            proof.instruction_lookups,
            &commitments.instruction_lookups,
            run.bytecode.1,
        ),
        run.lookups,
    )
    &&& reaches_memory(proof.program_io, run) ==> call_ensures(
        P::memory_verify,
        (
            proof.read_write_memory,
            &preprocessing.generators,
            &with_program_io(preprocessing.read_write_memory, proof.program_io),
            &commitments,
            run.lookups.1,
        ),
        run.memory,
    )
    &&& reaches_r1cs(proof.program_io, run) ==> call_ensures(
        P::r1cs_verify,
        (proof.r1cs, &preprocessing.generators, commitments, C, run.memory.1),
        run.r1cs,
    )
}

/// `result` is what the verifier returns for `run`: the first objection that was
/// raised, and acceptance if and only if there was none.
pub open spec fn is_verdict<
    const C: usize,
    const M: usize,
    F: JoltField,
    PCS: CommitmentScheme<Field = F>,
    P: Subprotocols<F, PCS, C, M>,
>(
    program_io: JoltDevice,
    run: VerifierRun<C, M, F, PCS, P>,
    result: Result<(), ProofVerifyError<P::Error>>,
) -> bool {
    if run.bytecode.0 is Err {
        result == subprotocol_result(run.bytecode.0)
    } else if run.lookups.0 is Err {
        result == subprotocol_result(run.lookups.0)
    } else if !program_io.fits_layout() {
        result == Err::<(), _>(ProofVerifyError::<P::Error>::ProgramIoTooLarge)
    } else if run.memory.0 is Err {
        result == subprotocol_result(run.memory.0)
    } else {
        is_r1cs_result::<C, M, F, PCS, P>(run.r1cs.0, result)
    }
}

/// `result` is what the verifier may return for this proof.
pub open spec fn is_verified<
    const C: usize,
    const M: usize,
    F: JoltField,
    PCS: CommitmentScheme<Field = F>,
    P: Subprotocols<F, PCS, C, M>,
>(
    preprocessing: JoltPreprocessing<C, M, F, PCS, P>,
    proof: JoltProof<C, M, F, PCS, P>,
    commitments: JoltCommitments<PCS, P::R1CSCommitment>,
    result: Result<(), ProofVerifyError<P::Error>>,
) -> bool {
    exists|run: VerifierRun<C, M, F, PCS, P>|
        {
            &&& #[trigger] is_verifier_run(preprocessing, proof, commitments, run)
            &&& is_verdict(proof.program_io, run, result)
        }
}

} // verus!

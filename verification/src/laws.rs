//! What holds of the library as a whole.

use crate::artifacts::JoltPreprocessing;
use crate::artifacts::JoltProof;
use crate::artifacts::ProofVerifyError;
use crate::artifacts::ProveError;
use crate::artifacts::R1CSSetupError;
use crate::chunks::entries_fit;
use crate::chunks::is_entry;
use crate::chunks::is_overwritten;
use crate::chunks::is_scattered;
use crate::chunks::is_written;
use crate::chunks::position;
use crate::commitments::commitments_from;
use crate::commitments::committed;
use crate::commitments::BatchType;
use crate::commitments::CommitmentScheme;
use crate::commitments::JoltCommitments;
use crate::commitments::MissingCommitments;
use crate::device::noop_row;
use crate::device::padded_row;
use crate::device::JoltDevice;
use crate::device::MEMORY_OPS_PER_INSTRUCTION;
use crate::device::RAM_START_ADDRESS;
use crate::instruction::has_chunk_outside_field;
use crate::instruction::is_lifted;
use crate::instruction::is_not_liftable;
use crate::instruction::is_operand_row;
use crate::instruction::pair_count;
use crate::instruction::JoltInstruction;
use crate::instruction::JoltInstructionSet;
use crate::instruction::JoltSubtableSet;
use crate::opening::is_absorbed;
use crate::opening::is_opened;
use crate::opening::opening;
use crate::opening::preamble;
use crate::poly::flat_evals;
use crate::poly::DensePolynomial;
use crate::poly::JoltField;
use crate::poly::JoltPolynomials;
use crate::pow2::ceil_log2;
use crate::pow2::is_ceil_log2;
use crate::pow2::is_next_power_of_two;
use crate::pow2::lemma_ceil_log2_is;
use crate::pow2::padded_length;
use crate::proving::are_arguments_along;
use crate::proving::are_bytecode_rows;
use crate::proving::are_memory_polynomials;
use crate::proving::is_padded_trace;
use crate::proving::is_preprocessed;
use crate::proving::is_proved;
use crate::proving::is_prover_run;
use crate::proving::prover_result;
use crate::proving::Execution;
use crate::proving::ProverRun;
use crate::r1cs::are_chunk_tables;
use crate::r1cs::are_r1cs_inputs;
use crate::r1cs::are_trace_rows;
use crate::r1cs::has_chunk_outside_trace;
use crate::r1cs::is_r1cs_setup;
use crate::r1cs::setup_result;
use crate::r1cs::WORD_SIZE;
use crate::subprotocols::R1CSInputs;
use crate::subprotocols::ReadWriteMemoryPreprocessing;
use crate::subprotocols::Subprotocols;
use crate::subprotocols::UniformSpartanKey;
use crate::transcript::message;
use crate::transcript::ProofTranscript;
use crate::transcript::TranscriptView;
use crate::transcript::ValueView;
use crate::verification::is_memory_verified;
use crate::verification::is_verdict;
use crate::verification::is_verified;
use crate::verification::is_verifier_run;
use crate::verification::with_program_io;
use crate::verification::VerifierRun;
use vstd::arithmetic::power2::lemma_pow2_unfold;
use vstd::arithmetic::power2::pow2;
use vstd::prelude::*;

verus! {

/// The preamble binds the public data: two preambles are equal only if they speak of
/// the same machine, the same trace length, the same limits and the same inputs,
/// outputs and panic bit.
pub proof fn preamble_is_binding<F>(
    program_io1: JoltDevice,
    trace_length1: usize,
    c1: usize,
    m1: usize,
    num_instructions1: usize,
    num_subtables1: usize,
    program_io2: JoltDevice,
    trace_length2: usize,
    c2: usize,
    m2: usize,
    num_instructions2: usize,
    num_subtables2: usize,
)
    requires
        preamble::<F>(
            program_io1,
            trace_length1,
            c1,
            m1,
            num_instructions1,
            num_subtables1,
        ) == preamble::<F>(
            program_io2,
            trace_length2,
            c2,
            m2,
            num_instructions2,
            num_subtables2,
        ),
    ensures
        trace_length1 == trace_length2,
        c1 == c2,
        m1 == m2,
        num_instructions1 == num_instructions2,
        num_subtables1 == num_subtables2,
        program_io1.memory_layout.max_input_size == program_io2.memory_layout.max_input_size,
        program_io1.memory_layout.max_output_size == program_io2.memory_layout.max_output_size,
        program_io1.inputs@ == program_io2.inputs@,
        program_io1.outputs@ == program_io2.outputs@,
        program_io1.panic == program_io2.panic,
{
    let a = preamble::<F>(
        program_io1,
        trace_length1,
        c1,
        m1,
        num_instructions1,
        num_subtables1,
    );
    let b = preamble::<F>(
        program_io2,
        trace_length2,
        c2,
        m2,
        num_instructions2,
        num_subtables2,
    );
    assert(a[0].value == b[0].value);
    assert(a[1].value == b[1].value);
    assert(a[2].value == b[2].value);
    assert(a[3].value == b[3].value);
    assert(a[4].value == b[4].value);
    assert(a[5].value == b[5].value);
    assert(a[6].value == b[6].value);
    assert(a[7].value == b[7].value);
    assert(a[8].value == b[8].value);
    assert(a[9].value == b[9].value);
}

/// The opening of a transcript binds the machine, the public data and the digest of the
/// constraint system's key: two openings are equal only if all of these agree, whatever
/// machines they belong to.
pub proof fn opening_is_binding<
    const C1: usize,
    const M1: usize,
    const C2: usize,
    const M2: usize,
    F: JoltField,
    PCS: CommitmentScheme<Field = F>,
    P1: Subprotocols<F, PCS, C1, M1>,
    P2: Subprotocols<F, PCS, C2, M2>,
>(
    program_io1: JoltDevice,
    trace_length1: usize,
    vk_digest1: F,
    program_io2: JoltDevice,
    trace_length2: usize,
    vk_digest2: F,
)
    requires
        opening::<C1, M1, F, PCS, P1>(program_io1, trace_length1, vk_digest1) == opening::<
            C2,
            M2,
            F,
            PCS,
            P2,
        >(program_io2, trace_length2, vk_digest2),
    ensures
        C1 == C2,
        M1 == M2,
        P1::InstructionSet::COUNT == P2::InstructionSet::COUNT,
        P1::Subtables::COUNT == P2::Subtables::COUNT,
        vk_digest1 == vk_digest2,
        trace_length1 == trace_length2,
        program_io1.memory_layout.max_input_size == program_io2.memory_layout.max_input_size,
        program_io1.memory_layout.max_output_size == program_io2.memory_layout.max_output_size,
        program_io1.inputs@ == program_io2.inputs@,
        program_io1.outputs@ == program_io2.outputs@,
        program_io1.panic == program_io2.panic,
{
    let a = opening::<C1, M1, F, PCS, P1>(program_io1, trace_length1, vk_digest1).messages;
    let b = opening::<C2, M2, F, PCS, P2>(program_io2, trace_length2, vk_digest2).messages;
    let pa = preamble::<F>(
        program_io1,
        trace_length1,
        C1,
        M1,
        P1::InstructionSet::COUNT,
        P1::Subtables::COUNT,
    );
    let pb = preamble::<F>(
        program_io2,
        trace_length2,
        C2,
        M2,
        P2::InstructionSet::COUNT,
        P2::Subtables::COUNT,
    );
    assert(a.take(10) =~= pa);
    assert(b.take(10) =~= pb);
    assert(a[10] == message::<F>("spartan key"@, ValueView::Scalar(vk_digest1)));
    assert(b[10] == message::<F>("spartan key"@, ValueView::Scalar(vk_digest2)));
    preamble_is_binding::<F>(
        program_io1,
        trace_length1,
        C1,
        M1,
        P1::InstructionSet::COUNT,
        P1::Subtables::COUNT,
        program_io2,
        trace_length2,
        C2,
        M2,
        P2::InstructionSet::COUNT,
        P2::Subtables::COUNT,
    );
}

/// What a transcript holds after a commitment is absorbed depends on nothing but the
/// commitment and what the transcript held before.
pub open spec fn absorbs_by_content<
    const C: usize,
    const M: usize,
    F: JoltField,
    PCS: CommitmentScheme<Field = F>,
    P: Subprotocols<F, PCS, C, M>,
>(
    commitments: JoltCommitments<PCS, P::R1CSCommitment>,
) -> bool {
    &&& forall|s: ProofTranscript<F>, t: ProofTranscript<F>, u: ProofTranscript<F>, v: ProofTranscript<F>|
        s@ == t@ && #[trigger] call_ensures(
            P::bytecode_append_commitment,
            (&commitments.bytecode, "bytecode", s),
            u,
        ) && #[trigger] call_ensures(
            P::bytecode_append_commitment,
            (&commitments.bytecode, "bytecode", t),
            v,
        ) ==> u@ == v@
    &&& forall|s: ProofTranscript<F>, t: ProofTranscript<F>, u: ProofTranscript<F>, v: ProofTranscript<F>|
        s@ == t@ && #[trigger] call_ensures(
            P::memory_append_commitment,
            (&commitments.read_write_memory, "read_write_memory", s),
            u,
        ) && #[trigger] call_ensures(
            P::memory_append_commitment,
            (&commitments.read_write_memory, "read_write_memory", t),
            v,
        ) ==> u@ == v@
    &&& forall|s: ProofTranscript<F>, t: ProofTranscript<F>, u: ProofTranscript<F>, v: ProofTranscript<F>|
        s@ == t@ && #[trigger] call_ensures(
            P::timestamp_append_commitment,
            (&commitments.timestamp_range_check, "timestamp_range_check", s),
            u,
        ) && #[trigger] call_ensures(
            P::timestamp_append_commitment,
            (&commitments.timestamp_range_check, "timestamp_range_check", t),
            v,
        ) ==> u@ == v@
    &&& forall|s: ProofTranscript<F>, t: ProofTranscript<F>, u: ProofTranscript<F>, v: ProofTranscript<F>|
        s@ == t@ && #[trigger] call_ensures(
            P::lookups_append_commitment,
            (&commitments.instruction_lookups, "instruction_lookups", s),
            u,
        ) && #[trigger] call_ensures(
            P::lookups_append_commitment,
            (&commitments.instruction_lookups, "instruction_lookups", t),
            v,
        ) ==> u@ == v@
    &&& forall|s: ProofTranscript<F>, t: ProofTranscript<F>, u: ProofTranscript<F>, v: ProofTranscript<F>|
        s@ == t@ && #[trigger] call_ensures(
            P::r1cs_append_commitment,
            (&commitments.r1cs->0, "r1cs", s),
            u,
        ) && #[trigger] call_ensures(
            P::r1cs_append_commitment,
            (&commitments.r1cs->0, "r1cs", t),
            v,
        ) ==> u@ == v@
}

/// Prover and verifier begin their arguments with the same transcript: whoever opens a
/// transcript for the same public data, key digest and commitments gets the same
/// content.
pub proof fn opened_transcripts_agree<
    const C: usize,
    const M: usize,
    F: JoltField,
    PCS: CommitmentScheme<Field = F>,
    P: Subprotocols<F, PCS, C, M>,
>(
    program_io: JoltDevice,
    trace_length: usize,
    vk_digest: F,
    commitments: JoltCommitments<PCS, P::R1CSCommitment>,
    transcript1: ProofTranscript<F>,
    transcript2: ProofTranscript<F>,
)
    requires
        absorbs_by_content::<C, M, F, PCS, P>(commitments),
        is_opened::<C, M, F, PCS, P>(
            program_io,
            trace_length,
            vk_digest,
            commitments,
            transcript1,
        ),
        is_opened::<C, M, F, PCS, P>(
            program_io,
            trace_length,
            vk_digest,
            commitments,
            transcript2,
        ),
    ensures
        transcript1@ == transcript2@,
{
    let start = opening::<C, M, F, PCS, P>(program_io, trace_length, vk_digest);
    let a = choose|a: ProofTranscript<F>|
        a@ == start && #[trigger] is_absorbed::<C, M, F, PCS, P>(commitments, a, transcript1);
    let b = choose|b: ProofTranscript<F>|
        b@ == start && #[trigger] is_absorbed::<C, M, F, PCS, P>(commitments, b, transcript2);
    assert(a@ == b@);
    assert(is_absorbed::<C, M, F, PCS, P>(commitments, a, transcript1));
    assert(is_absorbed::<C, M, F, PCS, P>(commitments, b, transcript2));
}

/// A proof is accepted if and only if inputs and outputs fit the memory layout and all
/// four arguments accept their part.
pub proof fn accepted_iff_all_accept<
    const C: usize,
    const M: usize,
    F: JoltField,
    PCS: CommitmentScheme<Field = F>,
    P: Subprotocols<F, PCS, C, M>,
>(
    program_io: JoltDevice,
    run: VerifierRun<C, M, F, PCS, P>,
    result: Result<(), ProofVerifyError<P::Error>>,
)
    requires
        is_verdict(program_io, run, result),
    ensures
        result is Ok <==> {
            &&& run.bytecode.0 is Ok
            &&& run.lookups.0 is Ok
            &&& program_io.fits_layout()
            &&& run.memory.0 is Ok
            &&& run.r1cs.0 is Ok
        },
{
}

/// An accepted proof went through every check: there is a run of the verifier on it in
/// which all four arguments accept, along one transcript that is bound to the public
/// data and to the commitments, and inputs and outputs fit the memory layout.
pub proof fn accepted_proof_passed_every_check<
    const C: usize,
    const M: usize,
    F: JoltField,
    PCS: CommitmentScheme<Field = F>,
    P: Subprotocols<F, PCS, C, M>,
>(
    preprocessing: JoltPreprocessing<C, M, F, PCS, P>,
    proof: JoltProof<C, M, F, PCS, P>,
    commitments: JoltCommitments<PCS, P::R1CSCommitment>,
)
    requires
        is_verified(preprocessing, proof, commitments, Ok::<(), ProofVerifyError<P::Error>>(())),
    ensures
        proof.program_io.fits_layout(),
        exists|run: VerifierRun<C, M, F, PCS, P>|
            {
                &&& #[trigger] is_verifier_run(preprocessing, proof, commitments, run)
                &&& run.bytecode.0 is Ok
                &&& run.lookups.0 is Ok
                &&& run.memory.0 is Ok
                &&& run.r1cs.0 is Ok
            },
{
}

/// No proof whose inputs or outputs exceed the memory layout is accepted.
pub proof fn oversized_io_is_rejected<
    const C: usize,
    const M: usize,
    F: JoltField,
    PCS: CommitmentScheme<Field = F>,
    P: Subprotocols<F, PCS, C, M>,
>(
    preprocessing: JoltPreprocessing<C, M, F, PCS, P>,
    proof: JoltProof<C, M, F, PCS, P>,
    commitments: JoltCommitments<PCS, P::R1CSCommitment>,
    result: Result<(), ProofVerifyError<P::Error>>,
)
    requires
        is_verified(preprocessing, proof, commitments, result),
        !proof.program_io.fits_layout(),
    ensures
        result is Err,
{
}

/// What the prover returns is of the execution that it was given, with all commitments
/// in place, so that the verifier can be asked about it.
pub proof fn proof_is_of_its_execution<
    const C: usize,
    const M: usize,
    F: JoltField,
    PCS: CommitmentScheme<Field = F>,
    P: Subprotocols<F, PCS, C, M>,
>(
    execution: Execution<C, M, F, PCS, P>,
    preprocessing: JoltPreprocessing<C, M, F, PCS, P>,
    proof: JoltProof<C, M, F, PCS, P>,
    commitments: JoltCommitments<PCS, P::R1CSCommitment>,
)
    requires
        is_proved(
            execution,
            preprocessing,
            Ok::<_, ProveError<P::R1CSError>>((proof, commitments)),
        ),
    ensures
        proof.trace_length == execution.instructions@.len(),
        proof.program_io == execution.program_io,
        commitments.r1cs is Some,
{
}

/// The bytecode verifier accepts the proof's part at any transcript that holds
/// `before`, and leaves `after`.
pub open spec fn bytecode_accepts<
    const C: usize,
    const M: usize,
    F: JoltField,
    PCS: CommitmentScheme<Field = F>,
    P: Subprotocols<F, PCS, C, M>,
>(
    preprocessing: JoltPreprocessing<C, M, F, PCS, P>,
    proof: JoltProof<C, M, F, PCS, P>,
    commitments: JoltCommitments<PCS, P::R1CSCommitment>,
    before: TranscriptView<F>,
    after: TranscriptView<F>,
) -> bool {
    forall|t: ProofTranscript<F>, answer: (Result<(), P::Error>, ProofTranscript<F>)|
        t@ == before && #[trigger] call_ensures(
            P::bytecode_verify,
            (
                &preprocessing.bytecode,
                &preprocessing.generators,
                proof.bytecode,
                &commitments.bytecode,
                t,
            ),
            answer,
        ) ==> answer.0 is Ok && answer.1@ == after
}

/// The lookup verifier accepts the proof's part at any transcript that holds `before`,
/// and leaves `after`.
pub open spec fn lookups_accept<
    const C: usize,
    const M: usize,
    F: JoltField,
    PCS: CommitmentScheme<Field = F>,
    P: Subprotocols<F, PCS, C, M>,
>(
    preprocessing: JoltPreprocessing<C, M, F, PCS, P>,
    proof: JoltProof<C, M, F, PCS, P>,
    commitments: JoltCommitments<PCS, P::R1CSCommitment>,
    before: TranscriptView<F>,
    after: TranscriptView<F>,
) -> bool {
    forall|t: ProofTranscript<F>, answer: (Result<(), P::Error>, ProofTranscript<F>)|
        t@ == before && #[trigger] call_ensures(
            P::lookups_verify,
            (
                &preprocessing.instruction_lookups,
                &preprocessing.generators,
                proof.instruction_lookups,
                &commitments.instruction_lookups,
                t,
            ),
            answer,
        ) ==> answer.0 is Ok && answer.1@ == after
}

/// The memory verifier accepts the proof's part at any transcript that holds `before`,
/// and leaves `after`.
pub open spec fn memory_accepts<
    const C: usize,
    const M: usize,
    F: JoltField,
    PCS: CommitmentScheme<Field = F>,
    P: Subprotocols<F, PCS, C, M>,
>(
    preprocessing: JoltPreprocessing<C, M, F, PCS, P>,
    proof: JoltProof<C, M, F, PCS, P>,
    commitments: JoltCommitments<PCS, P::R1CSCommitment>,
    before: TranscriptView<F>,
    after: TranscriptView<F>,
) -> bool {
    forall|t: ProofTranscript<F>, answer: (Result<(), P::Error>, ProofTranscript<F>)|
        t@ == before && #[trigger] call_ensures(
            P::memory_verify,
            (
                proof.read_write_memory,
                &preprocessing.generators,
                &with_program_io(preprocessing.read_write_memory, proof.program_io),
                &commitments,
                t,
            ),
            answer,
        ) ==> answer.0 is Ok && answer.1@ == after
}

/// The verifier of the constraint system accepts the proof's part at any transcript
/// that holds `before`.
pub open spec fn r1cs_accepts<
    const C: usize,
    const M: usize,
    F: JoltField,
    PCS: CommitmentScheme<Field = F>,
    P: Subprotocols<F, PCS, C, M>,
>(
    preprocessing: JoltPreprocessing<C, M, F, PCS, P>,
    proof: JoltProof<C, M, F, PCS, P>,
    commitments: JoltCommitments<PCS, P::R1CSCommitment>,
    before: TranscriptView<F>,
) -> bool {
    forall|t: ProofTranscript<F>, answer: (Result<(), P::R1CSError>, ProofTranscript<F>)|
        t@ == before && #[trigger] call_ensures(
            P::r1cs_verify,
            (proof.r1cs, &preprocessing.generators, commitments, C, t),
            answer,
        ) ==> answer.0 is Ok
}

/// Each argument of the run is accepted by its own verifier, at the transcript that the
/// prover held when it made the argument, and leaves the transcript that the prover was
/// left with.
pub open spec fn arguments_are_accepted<
    const C: usize,
    const M: usize,
    F: JoltField,
    PCS: CommitmentScheme<Field = F>,
    P: Subprotocols<F, PCS, C, M>,
>(
    execution: Execution<C, M, F, PCS, P>,
    preprocessing: JoltPreprocessing<C, M, F, PCS, P>,
    run: ProverRun<C, M, F, PCS, P>,
    proof: JoltProof<C, M, F, PCS, P>,
) -> bool {
    forall|
        t1: ProofTranscript<F>,
        t2: ProofTranscript<F>,
        t3: ProofTranscript<F>,
        t4: ProofTranscript<F>,
    | #[trigger]
        are_arguments_along(
            preprocessing,
            execution.program_io,
            run.commitments(),
            run.polynomials->0,
            run.setup->Ok_0.0,
            run.setup->Ok_0.1,
            run.opened,
            run.arguments,
            t1,
            t2,
            t3,
            t4,
        ) ==> {
            &&& bytecode_accepts(preprocessing, proof, run.commitments(), run.opened@, t1@)
            &&& lookups_accept(preprocessing, proof, run.commitments(), t1@, t2@)
            &&& memory_accepts(preprocessing, proof, run.commitments(), t2@, t3@)
            &&& r1cs_accepts(preprocessing, proof, run.commitments(), t3@)
        }
}

/// What the prover proves, the verifier accepts: where each argument is accepted by its
/// own verifier at the transcript it was made with, the proof keeps the digest of its
/// key and inputs and outputs fit the memory layout, the proof as a whole is accepted.
pub proof fn proved_execution_is_accepted<
    const C: usize,
    const M: usize,
    F: JoltField,
    PCS: CommitmentScheme<Field = F>,
    P: Subprotocols<F, PCS, C, M>,
>(
    execution: Execution<C, M, F, PCS, P>,
    preprocessing: JoltPreprocessing<C, M, F, PCS, P>,
    run: ProverRun<C, M, F, PCS, P>,
    proof: JoltProof<C, M, F, PCS, P>,
    commitments: JoltCommitments<PCS, P::R1CSCommitment>,
    result: Result<(), ProofVerifyError<P::Error>>,
)
    requires
        is_prover_run(execution, preprocessing, run),
        prover_result(execution, run) == Ok::<_, ProveError<P::R1CSError>>((proof, commitments)),
        is_verified(preprocessing, proof, commitments, result),
        absorbs_by_content::<C, M, F, PCS, P>(commitments),
        arguments_are_accepted(execution, preprocessing, run, proof),
        proof.r1cs.key.vk_digest == run.setup->Ok_0.0.vk_digest,
        execution.program_io.fits_layout(),
    ensures
        result is Ok,
{
    let (t1, t2, t3, t4) = choose|
        t1: ProofTranscript<F>,
        t2: ProofTranscript<F>,
        t3: ProofTranscript<F>,
        t4: ProofTranscript<F>,
    | #[trigger]
        are_arguments_along(
            preprocessing,
            execution.program_io,
            run.commitments(),
            run.polynomials->0,
            run.setup->Ok_0.0,
            run.setup->Ok_0.1,
            run.opened,
            run.arguments,
            t1,
            t2,
            t3,
            t4,
        );
    let v = choose|v: VerifierRun<C, M, F, PCS, P>|
        {
            &&& #[trigger] is_verifier_run(preprocessing, proof, commitments, v)
            &&& is_verdict(proof.program_io, v, result)
        };
    opened_transcripts_agree::<C, M, F, PCS, P>(
        proof.program_io,
        proof.trace_length,
        proof.r1cs.key.vk_digest,
        commitments,
        run.opened,
        v.opened,
    );
}

/// The interface that a preprocessing stores has no effect on the verifier: it may
/// return the same for two preprocessings that differ in nothing else.
pub proof fn stored_interface_has_no_effect<
    const C: usize,
    const M: usize,
    F: JoltField,
    PCS: CommitmentScheme<Field = F>,
    P: Subprotocols<F, PCS, C, M>,
>(
    preprocessing1: JoltPreprocessing<C, M, F, PCS, P>,
    preprocessing2: JoltPreprocessing<C, M, F, PCS, P>,
    proof: JoltProof<C, M, F, PCS, P>,
    commitments: JoltCommitments<PCS, P::R1CSCommitment>,
    result: Result<(), ProofVerifyError<P::Error>>,
)
    requires
        preprocessing1.generators == preprocessing2.generators,
        preprocessing1.instruction_lookups == preprocessing2.instruction_lookups,
        preprocessing1.bytecode == preprocessing2.bytecode,
        preprocessing1.read_write_memory.image == preprocessing2.read_write_memory.image,
    ensures
        is_verified(preprocessing1, proof, commitments, result) <==> is_verified(
            preprocessing2,
            proof,
            commitments,
            result,
        ),
{
    assert forall|run: VerifierRun<C, M, F, PCS, P>| #[trigger]
        is_verifier_run(preprocessing1, proof, commitments, run) == is_verifier_run(
            preprocessing2,
            proof,
            commitments,
            run,
        ) by {
        assert(with_program_io(preprocessing1.read_write_memory, proof.program_io)
            == with_program_io(preprocessing2.read_write_memory, proof.program_io));
    }
    if is_verified(preprocessing2, proof, commitments, result) {
        let run = choose|run: VerifierRun<C, M, F, PCS, P>|
            {
                &&& #[trigger] is_verifier_run(preprocessing2, proof, commitments, run)
                &&& is_verdict(proof.program_io, run, result)
            };
        assert(is_verifier_run(preprocessing1, proof, commitments, run));
    }
}

/// Asking the memory argument again, on the preprocessing that an earlier call left
/// behind, asks what it would be asked on the preprocessing before that call: the
/// interface of the earlier call is replaced.
pub proof fn memory_can_be_verified_again<
    const C: usize,
    const M: usize,
    F: JoltField,
    PCS: CommitmentScheme<Field = F>,
    P: Subprotocols<F, PCS, C, M>,
>(
    preprocessing: ReadWriteMemoryPreprocessing<P::MemoryImage>,
    earlier_io: JoltDevice,
    generators: PCS::Setup,
    proof: P::MemoryProof,
    commitments: JoltCommitments<PCS, P::R1CSCommitment>,
    program_io: JoltDevice,
    before: ProofTranscript<F>,
    after: ProofTranscript<F>,
    result: Result<(), ProofVerifyError<P::Error>>,
)
    ensures
        with_program_io(with_program_io(preprocessing, earlier_io), program_io) == with_program_io(
            preprocessing,
            program_io,
        ),
        is_memory_verified::<C, M, F, PCS, P>(
            with_program_io(preprocessing, earlier_io),
            generators,
            proof,
            commitments,
            program_io,
            before,
            after,
            result,
        ) <==> is_memory_verified::<C, M, F, PCS, P>(
            preprocessing,
            generators,
            proof,
            commitments,
            program_io,
            before,
            after,
            result,
        ),
{
}

/// Two executions are the same but for their memory traces.
pub open spec fn differ_in_memory_trace_only<
    const C: usize,
    const M: usize,
    F: JoltField,
    PCS: CommitmentScheme<Field = F>,
    P: Subprotocols<F, PCS, C, M>,
>(
    execution1: Execution<C, M, F, PCS, P>,
    execution2: Execution<C, M, F, PCS, P>,
) -> bool {
    &&& execution1.program_io == execution2.program_io
    &&& execution1.bytecode_trace == execution2.bytecode_trace
    &&& execution1.instructions == execution2.instructions
    &&& execution1.circuit_flags == execution2.circuit_flags
}

/// The prover reads the memory trace through its padded rows alone.
proof fn lemma_memory_trace_is_read_padded<
    const C: usize,
    const M: usize,
    F: JoltField,
    PCS: CommitmentScheme<Field = F>,
    P: Subprotocols<F, PCS, C, M>,
>(
    execution1: Execution<C, M, F, PCS, P>,
    execution2: Execution<C, M, F, PCS, P>,
    preprocessing: JoltPreprocessing<C, M, F, PCS, P>,
    result: Result<
        (JoltProof<C, M, F, PCS, P>, JoltCommitments<PCS, P::R1CSCommitment>),
        ProveError<P::R1CSError>,
    >,
)
    requires
        differ_in_memory_trace_only(execution1, execution2),
        forall|padded: Seq<[P::MemoryOp; MEMORY_OPS_PER_INSTRUCTION]>| #[trigger]
            is_padded_trace::<C, M, F, PCS, P>(
                execution1.memory_trace@,
                padded_length(execution1.instructions@.len()) as usize,
                padded,
            ) ==> is_padded_trace::<C, M, F, PCS, P>(
                execution2.memory_trace@,
                padded_length(execution1.instructions@.len()) as usize,
                padded,
            ),
        is_proved(execution1, preprocessing, result),
    ensures
        is_proved(execution2, preprocessing, result),
{
    let padded_trace_length = padded_length(execution1.instructions@.len()) as usize;
    let run = choose|run: ProverRun<C, M, F, PCS, P>|
        {
            &&& #[trigger] is_prover_run(execution1, preprocessing, run)
            &&& result == prover_result(execution1, run)
        };
    if run.polynomials is Some {
        let polynomials = run.polynomials->0;
        let read_timestamps = choose|read_timestamps: P::ReadTimestamps|
            {
                &&& are_memory_polynomials(
                    execution1.program_io,
                    execution1.memory_trace@,
                    padded_trace_length,
                    preprocessing,
                    polynomials,
                    read_timestamps,
                )
                &&& #[trigger] call_ensures(
                    P::timestamp_polynomials,
                    (read_timestamps,),
                    polynomials.timestamp_range_check,
                )
            };
        assert(are_memory_polynomials(
            execution2.program_io,
            execution2.memory_trace@,
            padded_trace_length,
            preprocessing,
            polynomials,
            read_timestamps,
        ));
    }
    assert(is_prover_run(execution2, preprocessing, run));
}

/// A missing memory row counts as a no-op row: the prover may return the same for a
/// memory trace and for the trace with any number of no-op rows behind it.
pub proof fn missing_memory_rows_are_noops<
    const C: usize,
    const M: usize,
    F: JoltField,
    PCS: CommitmentScheme<Field = F>,
    P: Subprotocols<F, PCS, C, M>,
>(
    execution1: Execution<C, M, F, PCS, P>,
    execution2: Execution<C, M, F, PCS, P>,
    noop_read: P::MemoryOp,
    noop_write: P::MemoryOp,
    preprocessing: JoltPreprocessing<C, M, F, PCS, P>,
    result: Result<
        (JoltProof<C, M, F, PCS, P>, JoltCommitments<PCS, P::R1CSCommitment>),
        ProveError<P::R1CSError>,
    >,
)
    requires
        forall|op: P::MemoryOp| #[trigger]
            call_ensures(P::noop_read, (), op) ==> op == noop_read,
        forall|op: P::MemoryOp| #[trigger]
            call_ensures(P::noop_write, (), op) ==> op == noop_write,
        differ_in_memory_trace_only(execution1, execution2),
        execution1.memory_trace@.is_prefix_of(execution2.memory_trace@),
        forall|i: int|
            execution1.memory_trace@.len() <= i < execution2.memory_trace@.len()
                ==> (#[trigger] execution2.memory_trace@[i])@ == noop_row(noop_read, noop_write),
    ensures
        is_proved(execution1, preprocessing, result) <==> is_proved(
            execution2,
            preprocessing,
            result,
        ),
{
    let trace1 = execution1.memory_trace@;
    let trace2 = execution2.memory_trace@;
    let len = padded_length(execution1.instructions@.len()) as usize;
    assert forall|i: int| 0 <= i implies #[trigger] padded_row(trace1, noop_read, noop_write, i)
        == padded_row(trace2, noop_read, noop_write, i) by {
        if i < trace1.len() {
            assert(trace1[i] == trace2.subrange(0, trace1.len() as int)[i]);
        }
    }
    lemma_same_padding::<C, M, F, PCS, P>(trace1, trace2, len, noop_read, noop_write);
    lemma_same_padding::<C, M, F, PCS, P>(trace2, trace1, len, noop_read, noop_write);
    if is_proved(execution1, preprocessing, result) {
        lemma_memory_trace_is_read_padded(execution1, execution2, preprocessing, result);
    }
    if is_proved(execution2, preprocessing, result) {
        lemma_memory_trace_is_read_padded(execution2, execution1, preprocessing, result);
    }
}

proof fn lemma_same_padding<
    const C: usize,
    const M: usize,
    F: JoltField,
    PCS: CommitmentScheme<Field = F>,
    P: Subprotocols<F, PCS, C, M>,
>(
    trace1: Seq<[P::MemoryOp; MEMORY_OPS_PER_INSTRUCTION]>,
    trace2: Seq<[P::MemoryOp; MEMORY_OPS_PER_INSTRUCTION]>,
    len: usize,
    noop_read: P::MemoryOp,
    noop_write: P::MemoryOp,
)
    requires
        forall|op: P::MemoryOp| #[trigger]
            call_ensures(P::noop_read, (), op) ==> op == noop_read,
        forall|op: P::MemoryOp| #[trigger]
            call_ensures(P::noop_write, (), op) ==> op == noop_write,
        forall|i: int|
            0 <= i ==> #[trigger] padded_row(trace1, noop_read, noop_write, i) == padded_row(
                trace2,
                noop_read,
                noop_write,
                i,
            ),
    ensures
        forall|padded: Seq<[P::MemoryOp; MEMORY_OPS_PER_INSTRUCTION]>| #[trigger]
            is_padded_trace::<C, M, F, PCS, P>(trace1, len, padded) ==> is_padded_trace::<
                C,
                M,
                F,
                PCS,
                P,
            >(trace2, len, padded),
{
    assert forall|padded: Seq<[P::MemoryOp; MEMORY_OPS_PER_INSTRUCTION]>| #[trigger]
        is_padded_trace::<C, M, F, PCS, P>(trace1, len, padded) implies is_padded_trace::<
        C,
        M,
        F,
        PCS,
        P,
    >(trace2, len, padded) by {
        assert(call_ensures(P::noop_read, (), noop_read));
        assert(call_ensures(P::noop_write, (), noop_write));
        assert forall|i: int| 0 <= i < len implies (#[trigger] padded[i])@ == padded_row(
            trace2,
            noop_read,
            noop_write,
            i,
        ) by {
            assert(padded[i]@ == padded_row(trace1, noop_read, noop_write, i));
        }
    }
}

/// Memory rows behind the padded length have no effect: the prover may return the same
/// for a memory trace and for the trace cut off there.
pub proof fn surplus_memory_rows_have_no_effect<
    const C: usize,
    const M: usize,
    F: JoltField,
    PCS: CommitmentScheme<Field = F>,
    P: Subprotocols<F, PCS, C, M>,
>(
    execution1: Execution<C, M, F, PCS, P>,
    execution2: Execution<C, M, F, PCS, P>,
    preprocessing: JoltPreprocessing<C, M, F, PCS, P>,
    result: Result<
        (JoltProof<C, M, F, PCS, P>, JoltCommitments<PCS, P::R1CSCommitment>),
        ProveError<P::R1CSError>,
    >,
)
    requires
        differ_in_memory_trace_only(execution1, execution2),
        padded_length(execution1.instructions@.len()) <= execution1.memory_trace@.len(),
        execution2.memory_trace@ == execution1.memory_trace@.take(
            padded_length(execution1.instructions@.len()) as int,
        ),
    ensures
        is_proved(execution1, preprocessing, result) <==> is_proved(
            execution2,
            preprocessing,
            result,
        ),
{
    let trace1 = execution1.memory_trace@;
    let trace2 = execution2.memory_trace@;
    let len = padded_length(execution1.instructions@.len()) as usize;
    assert forall|noop_read: P::MemoryOp, noop_write: P::MemoryOp, i: int|
        0 <= i < len implies #[trigger] padded_row(trace1, noop_read, noop_write, i)
        == padded_row(trace2, noop_read, noop_write, i) by {
    }
    assert forall|padded: Seq<[P::MemoryOp; MEMORY_OPS_PER_INSTRUCTION]>| #[trigger]
        is_padded_trace::<C, M, F, PCS, P>(trace1, len, padded) == is_padded_trace::<
            C,
            M,
            F,
            PCS,
            P,
        >(trace2, len, padded) by {
        if is_padded_trace::<C, M, F, PCS, P>(trace2, len, padded) {
            let (r, w) = choose|r: P::MemoryOp, w: P::MemoryOp|
                {
                    &&& #[trigger] call_ensures(P::noop_read, (), r)
                    &&& #[trigger] call_ensures(P::noop_write, (), w)
                    &&& padded.len() == len
                    &&& forall|i: int|
                        0 <= i < len ==> (#[trigger] padded[i])@ == padded_row(trace2, r, w, i)
                };
            assert forall|i: int| 0 <= i < len implies (#[trigger] padded[i])@ == padded_row(
                trace1,
                r,
                w,
                i,
            ) by {
                assert(padded[i]@ == padded_row(trace2, r, w, i));
            }
        }
    }
    assert(forall|padded: Seq<[P::MemoryOp; MEMORY_OPS_PER_INSTRUCTION]>| #[trigger]
        is_padded_trace::<C, M, F, PCS, P>(trace2, len, padded) ==> is_padded_trace::<
            C,
            M,
            F,
            PCS,
            P,
        >(trace1, len, padded));
    if is_proved(execution1, preprocessing, result) {
        lemma_memory_trace_is_read_padded(execution1, execution2, preprocessing, result);
    }
    if is_proved(execution2, preprocessing, result) {
        lemma_memory_trace_is_read_padded(execution2, execution1, preprocessing, result);
    }
}

/// A scheme makes one batch of commitments of the same polynomials under the same setup.
pub open spec fn batch_is_a_function<F: JoltField, PCS: CommitmentScheme<Field = F>>(
    generators: PCS::Setup,
) -> bool {
    forall|
        batch1: Vec<&DensePolynomial<F>>,
        batch2: Vec<&DensePolynomial<F>>,
        trace1: Vec<PCS::Commitment>,
        trace2: Vec<PCS::Commitment>,
    |
        batch1@.unref() == batch2@.unref() && #[trigger] call_ensures(
            PCS::batch_commit_polys_ref,
            (&batch1, &generators, BatchType::Big),
            trace1,
        ) && #[trigger] call_ensures(
            PCS::batch_commit_polys_ref,
            (&batch2, &generators, BatchType::Big),
            trace2,
        ) ==> trace1@ == trace2@
}

/// The final polynomials do not enter the trace commitments: where two executions agree
/// on every polynomial of the trace, committing succeeds for both or for none, and the
/// four parts of the trace commitments agree.
pub proof fn final_polynomials_stay_out_of_the_trace<
    F: JoltField,
    PCS: CommitmentScheme<Field = F>,
    R,
>(
    polynomials1: JoltPolynomials<F>,
    polynomials2: JoltPolynomials<F>,
    generators: PCS::Setup,
    result1: Result<JoltCommitments<PCS, R>, MissingCommitments>,
    result2: Result<JoltCommitments<PCS, R>, MissingCommitments>,
)
    requires
        batch_is_a_function::<F, PCS>(generators),
        polynomials1.bytecode_trace() == polynomials2.bytecode_trace(),
        polynomials1.memory_trace() == polynomials2.memory_trace(),
        polynomials1.range_check() == polynomials2.range_check(),
        polynomials1.instruction_trace() == polynomials2.instruction_trace(),
        committed(polynomials1, generators, result1),
        committed(polynomials2, generators, result2),
    ensures
        result1 is Ok <==> result2 is Ok,
        result1 is Ok && result2 is Ok ==> {
            let commitments1 = result1->Ok_0;
            let commitments2 = result2->Ok_0;
            &&& commitments1.bytecode.trace_commitments@
                == commitments2.bytecode.trace_commitments@
            &&& commitments1.read_write_memory.trace_commitments@
                == commitments2.read_write_memory.trace_commitments@
            &&& commitments1.timestamp_range_check.commitments@
                == commitments2.timestamp_range_check.commitments@
            &&& commitments1.instruction_lookups.trace_commitment@
                == commitments2.instruction_lookups.trace_commitment@
        },
{
}

/// What a program is preprocessed with gives one answer to the same question.
pub open spec fn preprocessing_calls_are_functions<
    const C: usize,
    const M: usize,
    F: JoltField,
    PCS: CommitmentScheme<Field = F>,
    P: Subprotocols<F, PCS, C, M>,
>() -> bool {
    &&& forall|
        size: usize,
        length: usize,
        s: Vec<PCS::Shape>,
        t: Vec<PCS::Shape>,
    |
        #[trigger] call_ensures(P::bytecode_commit_shapes, (size, length), s)
            && #[trigger] call_ensures(P::bytecode_commit_shapes, (size, length), t) ==> s@ == t@
    &&& forall|
        address: usize,
        length: usize,
        s: Vec<PCS::Shape>,
        t: Vec<PCS::Shape>,
    |
        #[trigger] call_ensures(P::memory_commit_shapes, (address, length), s)
            && #[trigger] call_ensures(P::memory_commit_shapes, (address, length), t) ==> s@ == t@
    &&& forall|length: usize, s: Vec<PCS::Shape>, t: Vec<PCS::Shape>|
        #[trigger] call_ensures(P::timestamp_commit_shapes, (length,), s)
            && #[trigger] call_ensures(P::timestamp_commit_shapes, (length,), t) ==> s@ == t@
    &&& forall|l: P::LookupsPreprocessing, m: P::LookupsPreprocessing|
        #[trigger] call_ensures(P::lookups_preprocess, (), l) && #[trigger] call_ensures(
            P::lookups_preprocess,
            (),
            m,
        ) ==> l == m
    &&& forall|
        lookups: P::LookupsPreprocessing,
        length: usize,
        s: Vec<PCS::Shape>,
        t: Vec<PCS::Shape>,
    |
        #[trigger] call_ensures(P::lookups_commit_shapes, (&lookups, length), s)
            && #[trigger] call_ensures(P::lookups_commit_shapes, (&lookups, length), t)
            ==> s@ == t@
    &&& forall|s: Vec<PCS::Shape>, t: Vec<PCS::Shape>, g: PCS::Setup, h: PCS::Setup|
        s@ == t@ && #[trigger] call_ensures(PCS::setup, (&s,), g) && #[trigger] call_ensures(
            PCS::setup,
            (&t,),
            h,
        ) ==> g == h
    &&& forall|instruction: P::ELFInstruction, r: P::BytecodeRow, s: P::BytecodeRow|
        #[trigger] call_ensures(P::bytecode_row, (&instruction,), r) && #[trigger] call_ensures(
            P::bytecode_row,
            (&instruction,),
            s,
        ) ==> r == s
    &&& forall|
        r: Vec<P::BytecodeRow>,
        s: Vec<P::BytecodeRow>,
        b: P::BytecodePreprocessing,
        c: P::BytecodePreprocessing,
    |
        r@ == s@ && #[trigger] call_ensures(P::bytecode_preprocess, (r,), b)
            && #[trigger] call_ensures(P::bytecode_preprocess, (s,), c) ==> b == c
    &&& forall|
        i: Vec<(u64, u8)>,
        j: Vec<(u64, u8)>,
        m: ReadWriteMemoryPreprocessing<P::MemoryImage>,
        n: ReadWriteMemoryPreprocessing<P::MemoryImage>,
    |
        i@ == j@ && #[trigger] call_ensures(P::memory_preprocess, (i,), m)
            && #[trigger] call_ensures(P::memory_preprocess, (j,), n) ==> m == n
}

/// Each part of a preprocessing depends on its own inputs alone: the setup on the three
/// sizes, the bytecode on the program, memory on its image, and the lookups on nothing.
pub proof fn preprocessing_depends_on_its_own_inputs<
    const C: usize,
    const M: usize,
    F: JoltField,
    PCS: CommitmentScheme<Field = F>,
    P: Subprotocols<F, PCS, C, M>,
>(
    bytecode1: Seq<P::ELFInstruction>,
    memory_init1: Vec<(u64, u8)>,
    max_bytecode_size1: usize,
    max_memory_address1: usize,
    max_trace_length1: usize,
    preprocessing1: JoltPreprocessing<C, M, F, PCS, P>,
    bytecode2: Seq<P::ELFInstruction>,
    memory_init2: Vec<(u64, u8)>,
    max_bytecode_size2: usize,
    max_memory_address2: usize,
    max_trace_length2: usize,
    preprocessing2: JoltPreprocessing<C, M, F, PCS, P>,
)
    requires
        preprocessing_calls_are_functions::<C, M, F, PCS, P>(),
        is_preprocessed(
            bytecode1,
            memory_init1,
            max_bytecode_size1,
            max_memory_address1,
            max_trace_length1,
            preprocessing1,
        ),
        is_preprocessed(
            bytecode2,
            memory_init2,
            max_bytecode_size2,
            max_memory_address2,
            max_trace_length2,
            preprocessing2,
        ),
    ensures
        preprocessing1.instruction_lookups == preprocessing2.instruction_lookups,
        max_bytecode_size1 == max_bytecode_size2 && max_memory_address1 == max_memory_address2
            && max_trace_length1 == max_trace_length2 ==> preprocessing1.generators
            == preprocessing2.generators,
        bytecode1 == bytecode2 ==> preprocessing1.bytecode == preprocessing2.bytecode,
        memory_init1@ == memory_init2@ ==> preprocessing1.read_write_memory
            == preprocessing2.read_write_memory,
{
    if bytecode1 == bytecode2 {
        let rows1 = choose|rows: Vec<P::BytecodeRow>|
            {
                &&& are_bytecode_rows::<C, M, F, PCS, P>(bytecode1, rows@)
                &&& #[trigger] call_ensures(
                    P::bytecode_preprocess,
                    (rows,),
                    preprocessing1.bytecode,
                )
            };
        let rows2 = choose|rows: Vec<P::BytecodeRow>|
            {
                &&& are_bytecode_rows::<C, M, F, PCS, P>(bytecode2, rows@)
                &&& #[trigger] call_ensures(
                    P::bytecode_preprocess,
                    (rows,),
                    preprocessing2.bytecode,
                )
            };
        assert forall|i: int| 0 <= i < rows1@.len() implies rows1@[i] == rows2@[i] by {
            assert(call_ensures(P::bytecode_row, (&bytecode1[i],), rows1@[i]));
            assert(call_ensures(P::bytecode_row, (&bytecode1[i],), rows2@[i]));
        }
        assert(rows1@ =~= rows2@);
    }
}

/// Each part of the commitments holds the batch's answers for its own polynomials, in
/// their order.
pub proof fn commitments_follow_polynomials<F: JoltField, PCS: CommitmentScheme<Field = F>, R>(
    polynomials: JoltPolynomials<F>,
    generators: PCS::Setup,
    trace: Seq<PCS::Commitment>,
    commitments: JoltCommitments<PCS, R>,
)
    requires
        commitments_from(polynomials, generators, trace, commitments),
        trace.len() == polynomials.all_trace().len(),
    ensures
        trace == commitments.bytecode.trace_commitments@
            + commitments.read_write_memory.trace_commitments@
            + commitments.timestamp_range_check.commitments@
            + commitments.instruction_lookups.trace_commitment@,
        commitments.bytecode.trace_commitments@.len() == polynomials.bytecode_trace().len(),
        commitments.read_write_memory.trace_commitments@.len()
            == polynomials.memory_trace().len(),
        commitments.timestamp_range_check.commitments@.len() == polynomials.range_check().len(),
        commitments.instruction_lookups.trace_commitment@.len()
            == polynomials.instruction_trace().len(),
{
    assert(trace =~= commitments.bytecode.trace_commitments@
        + commitments.read_write_memory.trace_commitments@
        + commitments.timestamp_range_check.commitments@
        + commitments.instruction_lookups.trace_commitment@);
}

/// Where a scheme commits to the polynomials of a batch one by one, each commitment of
/// an execution is one to the polynomial at its own place.
pub proof fn commitments_are_to_their_polynomials<F: JoltField, PCS: CommitmentScheme<Field = F>, R>(
    polynomials: JoltPolynomials<F>,
    generators: PCS::Setup,
    trace: Seq<PCS::Commitment>,
    commitments: JoltCommitments<PCS, R>,
)
    requires
        commitments_from(polynomials, generators, trace, commitments),
        trace.len() == polynomials.all_trace().len(),
        forall|i: int|
            0 <= i < trace.len() ==> call_ensures(
                PCS::commit,
                (&polynomials.all_trace()[i], &generators),
                #[trigger] trace[i],
            ),
    ensures
        forall|k: int|
            0 <= k < polynomials.bytecode_trace().len() ==> call_ensures(
                PCS::commit,
                (&polynomials.bytecode_trace()[k], &generators),
                #[trigger] commitments.bytecode.trace_commitments@[k],
            ),
        forall|k: int|
            0 <= k < polynomials.memory_trace().len() ==> call_ensures(
                PCS::commit,
                (&polynomials.memory_trace()[k], &generators),
                #[trigger] commitments.read_write_memory.trace_commitments@[k],
            ),
        forall|k: int|
            0 <= k < polynomials.range_check().len() ==> call_ensures(
                PCS::commit,
                (&polynomials.range_check()[k], &generators),
                #[trigger] commitments.timestamp_range_check.commitments@[k],
            ),
        forall|k: int|
            0 <= k < polynomials.instruction_trace().len() ==> call_ensures(
                PCS::commit,
                (&polynomials.instruction_trace()[k], &generators),
                #[trigger] commitments.instruction_lookups.trace_commitment@[k],
            ),
{
    let all = polynomials.all_trace();
    let memory_start = polynomials.bytecode_trace().len() as int;
    let range_start = memory_start + polynomials.memory_trace().len();
    let lookups_start = range_start + polynomials.range_check().len();
    assert forall|k: int| 0 <= k < polynomials.bytecode_trace().len() implies call_ensures(
        PCS::commit,
        (&polynomials.bytecode_trace()[k], &generators),
        #[trigger] commitments.bytecode.trace_commitments@[k],
    ) by {
        assert(all[k] == polynomials.bytecode_trace()[k]);
        assert(trace[k] == commitments.bytecode.trace_commitments@[k]);
    }
    assert forall|k: int| 0 <= k < polynomials.memory_trace().len() implies call_ensures(
        PCS::commit,
        (&polynomials.memory_trace()[k], &generators),
        #[trigger] commitments.read_write_memory.trace_commitments@[k],
    ) by {
        assert(all[memory_start + k] == polynomials.memory_trace()[k]);
        assert(trace[memory_start + k] == commitments.read_write_memory.trace_commitments@[k]);
    }
    assert forall|k: int| 0 <= k < polynomials.range_check().len() implies call_ensures(
        PCS::commit,
        (&polynomials.range_check()[k], &generators),
        #[trigger] commitments.timestamp_range_check.commitments@[k],
    ) by {
        assert(all[range_start + k] == polynomials.range_check()[k]);
        assert(trace[range_start + k] == commitments.timestamp_range_check.commitments@[k]);
    }
    assert forall|k: int| 0 <= k < polynomials.instruction_trace().len() implies call_ensures(
        PCS::commit,
        (&polynomials.instruction_trace()[k], &generators),
        #[trigger] commitments.instruction_lookups.trace_commitment@[k],
    ) by {
        assert(all[lookups_start + k] == polynomials.instruction_trace()[k]);
        assert(trace[lookups_start + k] == commitments.instruction_lookups.trace_commitment@[k]);
    }
}

proof fn lemma_positions_differ(stride: int, i: int, c: int, j: int, d: int)
    requires
        0 <= i < stride,
        0 <= j < stride,
        position(stride, i, c) == position(stride, j, d),
    ensures
        i == j,
        c == d,
{
    assert(c == d) by (nonlinear_arith)
        requires
            0 <= i < stride,
            0 <= j < stride,
            i + c * stride == j + d * stride,
    ;
}

/// In a table that has room for all rows, no entry overwrites another: entry `c` of row
/// `i` stands at `i + c * stride`, and every other place, that of padding cycles
/// included, holds zero.
pub proof fn scattered_table_is_exact<T>(
    rows: Seq<Seq<T>>,
    zero: T,
    stride: int,
    num_chunks: int,
    table: Seq<T>,
)
    requires
        rows.len() <= stride,
        table.len() == stride * num_chunks,
        is_scattered(rows, zero, stride, table),
    ensures
        forall|i: int, c: int|
            0 <= i < stride && 0 <= c < num_chunks ==> {
                &&& 0 <= #[trigger] position(stride, i, c) < table.len()
                &&& table[position(stride, i, c)] == if is_entry(rows, i, c) {
                    rows[i][c]
                } else {
                    zero
                }
            },
{
    assert forall|i: int, c: int| 0 <= i < stride && 0 <= c < num_chunks implies {
        &&& 0 <= #[trigger] position(stride, i, c) < table.len()
        &&& table[position(stride, i, c)] == if is_entry(rows, i, c) {
            rows[i][c]
        } else {
            zero
        }
    } by {
        let p = position(stride, i, c);
        assert(0 <= c * stride && c * stride + stride <= stride * num_chunks) by (nonlinear_arith)
            requires
                0 <= c < num_chunks,
                0 < stride,
        ;
        if is_entry(rows, i, c) {
            assert(!is_overwritten(rows, stride, i, c)) by {
                if is_overwritten(rows, stride, i, c) {
                    let (j, d) = choose|j: int, d: int|
                        i < j && #[trigger] is_entry(rows, j, d) && position(stride, j, d)
                            == position(stride, i, c);
                    lemma_positions_differ(stride, i, c, j, d);
                }
            }
        } else {
            assert(!is_written(rows, stride, p)) by {
                if is_written(rows, stride, p) {
                    let (j, d) = choose|j: int, d: int| #[trigger]
                        is_entry(rows, j, d) && position(stride, j, d) == p;
                    lemma_positions_differ(stride, i, c, j, d);
                }
            }
        }
    }
}

/// Where there are no more rows than the padded trace is long, and no row has more than
/// `num_chunks` entries, every entry has its place in the table.
pub proof fn rows_of_a_trace_fit<T>(rows: Seq<Seq<T>>, stride: int, num_chunks: int)
    requires
        rows.len() <= stride,
        forall|i: int| 0 <= i < rows.len() ==> (#[trigger] rows[i]).len() <= num_chunks,
    ensures
        entries_fit(rows, stride, stride * num_chunks),
{
    assert forall|i: int, c: int| #[trigger] is_entry(rows, i, c) implies position(stride, i, c)
        < stride * num_chunks by {
        assert(rows[i].len() <= num_chunks);
        assert(i + c * stride < stride * num_chunks) by (nonlinear_arith)
            requires
                0 <= i < stride,
                0 <= c < num_chunks,
        ;
    }
}

/// No instruction of the machine has more than `C` pairs of operand chunks.
pub open spec fn operands_have_c_chunks<
    const C: usize,
    const M: usize,
    F: JoltField,
    PCS: CommitmentScheme<Field = F>,
    P: Subprotocols<F, PCS, C, M>,
>() -> bool {
    forall|op: P::InstructionSet, chunks: (Vec<u64>, Vec<u64>)| #[trigger]
        call_ensures(
            P::InstructionSet::operand_chunks,
            (&op, C, ceil_log2(M as nat) as usize),
            chunks,
        ) ==> pair_count(chunks.0@, chunks.1@) <= C
}

/// Where no instruction has more than `C` pairs of operand chunks, and the padded trace
/// is no shorter than the trace, no chunk falls outside the padded trace.
pub proof fn chunks_stay_inside_the_trace<
    const C: usize,
    const M: usize,
    F: JoltField,
    PCS: CommitmentScheme<Field = F>,
    P: Subprotocols<F, PCS, C, M>,
>(
    padded_trace_length: usize,
    memory_start: u64,
    instructions: Seq<Option<P::InstructionSet>>,
    polynomials: JoltPolynomials<F>,
    circuit_flags: Seq<F>,
    generators: PCS::Setup,
    result: Result<
        (UniformSpartanKey<F, P::R1CSConstraints>, Vec<Vec<F>>, P::R1CSCommitment),
        R1CSSetupError<P::R1CSError>,
    >,
)
    requires
        operands_have_c_chunks::<C, M, F, PCS, P>(),
        instructions.len() <= padded_trace_length,
        is_r1cs_setup::<C, M, F, PCS, P>(
            padded_trace_length,
            memory_start,
            instructions,
            polynomials,
            circuit_flags,
            generators,
            result,
        ),
    ensures
        !(result matches Err(R1CSSetupError::ChunkOutsideTrace)),
{
    if result matches Err(R1CSSetupError::ChunkOutsideTrace) {
        let stride = padded_trace_length as int;
        let (zero, rows_x, rows_y) = choose|zero: F, rows_x: Seq<Seq<F>>, rows_y: Seq<Seq<F>>|
            {
                &&& #[trigger] are_trace_rows::<C, M, F, PCS, P>(
                    instructions,
                    zero,
                    rows_x,
                    rows_y,
                )
                &&& !(entries_fit(rows_x, stride, stride * C) && entries_fit(
                    rows_y,
                    stride,
                    stride * C,
                ))
            };
        assert forall|i: int| 0 <= i < instructions.len() implies (#[trigger] rows_x[i]).len() <= C
            && rows_y[i].len() <= C by {
            assert(is_operand_row(
                instructions[i],
                zero,
                C,
                ceil_log2(M as nat) as usize,
                rows_x[i],
                rows_y[i],
            ));
        }
        assert forall|i: int| 0 <= i < instructions.len() implies (#[trigger] rows_y[i]).len()
            <= C by {
            assert(rows_x[i].len() <= C);
        }
        rows_of_a_trace_fit(rows_x, stride, C as int);
        rows_of_a_trace_fit(rows_y, stride, C as int);
    }
}

/// The prover pads every trace far enough: where no instruction has more than `C` pairs
/// of operand chunks, it never fails for a chunk outside the padded trace.
pub proof fn prover_has_room_for_chunks<
    const C: usize,
    const M: usize,
    F: JoltField,
    PCS: CommitmentScheme<Field = F>,
    P: Subprotocols<F, PCS, C, M>,
>(
    execution: Execution<C, M, F, PCS, P>,
    preprocessing: JoltPreprocessing<C, M, F, PCS, P>,
    result: Result<
        (JoltProof<C, M, F, PCS, P>, JoltCommitments<PCS, P::R1CSCommitment>),
        ProveError<P::R1CSError>,
    >,
)
    requires
        operands_have_c_chunks::<C, M, F, PCS, P>(),
        padded_length(execution.instructions@.len()) <= usize::MAX,
        is_proved(execution, preprocessing, result),
    ensures
        !(result matches Err(ProveError::R1CSSetup(R1CSSetupError::ChunkOutsideTrace))),
{
    let run = choose|run: ProverRun<C, M, F, PCS, P>|
        {
            &&& #[trigger] is_prover_run(execution, preprocessing, run)
            &&& result == prover_result(execution, run)
        };
    padded_length_is_least(execution.instructions@.len());
    if run.reaches_setup() {
        chunks_stay_inside_the_trace::<C, M, F, PCS, P>(
            padded_length(execution.instructions@.len()) as usize,
            (RAM_START_ADDRESS - execution.program_io.memory_layout.ram_witness_offset) as u64,
            execution.instructions@,
            run.polynomials->0,
            execution.circuit_flags@,
            preprocessing.generators,
            run.setup,
        );
    }
}

/// A table in which every entry of the rows has its place, and in which every other
/// place holds zero, is the scattered one.
proof fn lemma_exact_table_is_scattered<T>(
    rows: Seq<Seq<T>>,
    zero: T,
    stride: int,
    num_chunks: int,
    table: Seq<T>,
)
    requires
        rows.len() <= stride,
        table.len() == stride * num_chunks,
        entries_fit(rows, stride, stride * num_chunks),
        forall|i: int, c: int|
            0 <= i < stride && 0 <= c < num_chunks ==> table[#[trigger] position(stride, i, c)]
                == if is_entry(rows, i, c) {
                rows[i][c]
            } else {
                zero
            },
    ensures
        is_scattered(rows, zero, stride, table),
{
    assert forall|i: int, c: int| #[trigger]
        is_entry(rows, i, c) && !is_overwritten(rows, stride, i, c) implies table[position(
        stride,
        i,
        c,
    )] == rows[i][c] by {
        assert(position(stride, i, c) < stride * num_chunks);
        assert(c < num_chunks) by (nonlinear_arith)
            requires
                0 <= i < stride,
                i + c * stride < stride * num_chunks,
        ;
    }
    assert forall|p: int|
        0 <= p < table.len() && !is_written(rows, stride, p) implies #[trigger] table[p]
        == zero by {
        assert(stride > 0) by (nonlinear_arith)
            requires
                0 < stride * num_chunks,
                stride >= 0,
        ;
        let i = p % stride;
        let c = p / stride;
        vstd::arithmetic::div_mod::lemma_fundamental_div_mod(p, stride);
        vstd::arithmetic::mul::lemma_mul_is_commutative(c, stride);
        assert(position(stride, i, c) == p);
        assert(0 <= c < num_chunks) by (nonlinear_arith)
            requires
                0 <= i < stride,
                i + c * stride == p,
                0 <= p < stride * num_chunks,
        ;
        assert(!is_entry(rows, i, c));
    }
}

/// Rows of zeros behind the end of the rows change nothing.
proof fn lemma_idle_rows<T>(
    rows: Seq<Seq<T>>,
    all_rows: Seq<Seq<T>>,
    zero: T,
    stride: int,
    num_chunks: int,
)
    requires
        rows.len() <= all_rows.len() <= stride,
        rows == all_rows.take(rows.len() as int),
        0 <= num_chunks,
        forall|i: int|
            rows.len() <= i < all_rows.len() ==> #[trigger] all_rows[i] == Seq::new(
                num_chunks as nat,
                |k: int| zero,
            ),
    ensures
        entries_fit(rows, stride, stride * num_chunks) <==> entries_fit(
            all_rows,
            stride,
            stride * num_chunks,
        ),
        forall|table: Seq<T>|
            table.len() == stride * num_chunks && entries_fit(rows, stride, stride * num_chunks)
                ==> (#[trigger] is_scattered(rows, zero, stride, table) <==> is_scattered(
                all_rows,
                zero,
                stride,
                table,
            )),
{
    let len = stride * num_chunks;
    assert forall|i: int, c: int| #[trigger] is_entry(rows, i, c) implies is_entry(
        all_rows,
        i,
        c,
    ) by {
        assert(rows[i] == all_rows[i]);
    }
    if entries_fit(rows, stride, len) {
        assert forall|i: int, c: int| #[trigger] is_entry(all_rows, i, c) implies position(
            stride,
            i,
            c,
        ) < len by {
            if i < rows.len() {
                assert(is_entry(rows, i, c));
            } else {
                assert(i + c * stride < stride * num_chunks) by (nonlinear_arith)
                    requires
                        0 <= i < stride,
                        0 <= c < num_chunks,
                ;
            }
        }
        assert forall|table: Seq<T>|
            table.len() == len implies (#[trigger] is_scattered(rows, zero, stride, table)
            <==> is_scattered(all_rows, zero, stride, table)) by {
            assert forall|i: int, c: int|
                0 <= i < stride && 0 <= c < num_chunks implies #[trigger] position(stride, i, c)
                == i + c * stride && (if is_entry(rows, i, c) {
                rows[i][c]
            } else {
                zero
            }) == (if is_entry(all_rows, i, c) {
                all_rows[i][c]
            } else {
                zero
            }) by {
                if i < rows.len() {
                    assert(rows[i] == all_rows[i]);
                }
            }
            if is_scattered(rows, zero, stride, table) {
                scattered_table_is_exact(rows, zero, stride, num_chunks, table);
                lemma_exact_table_is_scattered(all_rows, zero, stride, num_chunks, table);
            }
            if is_scattered(all_rows, zero, stride, table) {
                scattered_table_is_exact(all_rows, zero, stride, num_chunks, table);
                lemma_exact_table_is_scattered(rows, zero, stride, num_chunks, table);
            }
        }
    }
}

/// The setup reads the instructions through their chunk tables and through the reasons
/// for which there are none.
proof fn lemma_setup_reads_chunk_tables<
    const C: usize,
    const M: usize,
    F: JoltField,
    PCS: CommitmentScheme<Field = F>,
    P: Subprotocols<F, PCS, C, M>,
>(
    padded_trace_length: usize,
    memory_start: u64,
    instructions1: Seq<Option<P::InstructionSet>>,
    instructions2: Seq<Option<P::InstructionSet>>,
    polynomials: JoltPolynomials<F>,
    circuit_flags: Seq<F>,
    generators: PCS::Setup,
    result: Result<
        (UniformSpartanKey<F, P::R1CSConstraints>, Vec<Vec<F>>, P::R1CSCommitment),
        R1CSSetupError<P::R1CSError>,
    >,
)
    requires
        has_chunk_outside_field::<F, P::InstructionSet>(
            instructions1,
            C,
            ceil_log2(M as nat) as usize,
        ) ==> has_chunk_outside_field::<F, P::InstructionSet>(
            instructions2,
            C,
            ceil_log2(M as nat) as usize,
        ),
        has_chunk_outside_trace::<C, M, F, PCS, P>(padded_trace_length, instructions1)
            ==> has_chunk_outside_trace::<C, M, F, PCS, P>(padded_trace_length, instructions2),
        forall|chunks_x: Seq<F>, chunks_y: Seq<F>| #[trigger]
            are_chunk_tables::<C, M, F, PCS, P>(
                padded_trace_length,
                instructions1,
                chunks_x,
                chunks_y,
            ) ==> are_chunk_tables::<C, M, F, PCS, P>(
                padded_trace_length,
                instructions2,
                chunks_x,
                chunks_y,
            ),
        is_r1cs_setup::<C, M, F, PCS, P>(
            padded_trace_length,
            memory_start,
            instructions1,
            polynomials,
            circuit_flags,
            generators,
            result,
        ),
    ensures
        is_r1cs_setup::<C, M, F, PCS, P>(
            padded_trace_length,
            memory_start,
            instructions2,
            polynomials,
            circuit_flags,
            generators,
            result,
        ),
{
    match result {
        Err(R1CSSetupError::ChunkOutsideField) => {},
        Err(R1CSSetupError::ChunkOutsideTrace) => {},
        Err(R1CSSetupError::UnsuitableQueryPolynomials) => {},
        _ => {
            let (inputs, answer) = choose|
                inputs: R1CSInputs<F>,
                answer: Result<
                    (UniformSpartanKey<F, P::R1CSConstraints>, Vec<Vec<F>>, P::R1CSCommitment),
                    P::R1CSError,
                >,
            |
                {
                    &&& are_r1cs_inputs::<C, M, F, PCS, P>(
                        padded_trace_length,
                        instructions1,
                        polynomials,
                        circuit_flags,
                        inputs,
                    )
                    &&& #[trigger] call_ensures(
                        P::r1cs_compute_witness_commit,
                        (WORD_SIZE, C, padded_trace_length, memory_start, &inputs, &generators),
                        answer,
                    )
                    &&& result == setup_result(answer)
                };
            assert(are_r1cs_inputs::<C, M, F, PCS, P>(
                padded_trace_length,
                instructions2,
                polynomials,
                circuit_flags,
                inputs,
            ));
        },
    }
}

/// The trace `instructions`, followed by `idle` cycles without an instruction.
pub open spec fn with_idle_cycles<I>(instructions: Seq<Option<I>>, idle: nat) -> Seq<Option<I>> {
    instructions + Seq::new(idle, |i: int| None)
}

proof fn lemma_idle_trace_rows<
    const C: usize,
    const M: usize,
    F: JoltField,
    PCS: CommitmentScheme<Field = F>,
    P: Subprotocols<F, PCS, C, M>,
>(
    padded_trace_length: usize,
    instructions: Seq<Option<P::InstructionSet>>,
    idle: nat,
    zero: F,
    rows_x: Seq<Seq<F>>,
    rows_y: Seq<Seq<F>>,
) -> (all_rows: (Seq<Seq<F>>, Seq<Seq<F>>))
    requires
        instructions.len() + idle <= padded_trace_length,
        are_trace_rows::<C, M, F, PCS, P>(instructions, zero, rows_x, rows_y),
    ensures
        are_trace_rows::<C, M, F, PCS, P>(
            with_idle_cycles(instructions, idle),
            zero,
            all_rows.0,
            all_rows.1,
        ),
        all_rows.0.take(instructions.len() as int) == rows_x,
        all_rows.1.take(instructions.len() as int) == rows_y,
{
    let all = with_idle_cycles(instructions, idle);
    let zeros = Seq::new(C as nat, |k: int| zero);
    let all_x = rows_x + Seq::new(idle, |i: int| zeros);
    let all_y = rows_y + Seq::new(idle, |i: int| zeros);
    let log_m = ceil_log2(M as nat) as usize;
    assert forall|i: int|
        #![trigger all_x[i]]
        #![trigger all_y[i]]
        0 <= i < all.len() implies is_operand_row(all[i], zero, C, log_m, all_x[i], all_y[i]) by {
        if i < instructions.len() {
            assert(all_x[i] == rows_x[i] && all_y[i] == rows_y[i]);
        }
    }
    assert(all_x.take(instructions.len() as int) =~= rows_x);
    assert(all_y.take(instructions.len() as int) =~= rows_y);
    (all_x, all_y)
}

/// The rows of a trace with idle cycles behind it: those of the trace, which fill the
/// same tables.
proof fn lemma_trace_rows_of_idle<
    const C: usize,
    const M: usize,
    F: JoltField,
    PCS: CommitmentScheme<Field = F>,
    P: Subprotocols<F, PCS, C, M>,
>(
    padded_trace_length: usize,
    instructions: Seq<Option<P::InstructionSet>>,
    idle: nat,
    zero: F,
    rows_x: Seq<Seq<F>>,
    rows_y: Seq<Seq<F>>,
)
    requires
        instructions.len() + idle <= padded_trace_length,
        are_trace_rows::<C, M, F, PCS, P>(
            with_idle_cycles(instructions, idle),
            zero,
            rows_x,
            rows_y,
        ),
    ensures
        ({
            let n = instructions.len() as int;
            let stride = padded_trace_length as int;
            let len = stride * C;
            &&& are_trace_rows::<C, M, F, PCS, P>(
                instructions,
                zero,
                rows_x.take(n),
                rows_y.take(n),
            )
            &&& entries_fit(rows_x.take(n), stride, len) <==> entries_fit(rows_x, stride, len)
            &&& entries_fit(rows_y.take(n), stride, len) <==> entries_fit(rows_y, stride, len)
            &&& forall|table: Seq<F>|
                table.len() == len && entries_fit(rows_x, stride, len) ==> (
                #[trigger] is_scattered(rows_x.take(n), zero, stride, table) <==> is_scattered(
                    rows_x,
                    zero,
                    stride,
                    table,
                ))
            &&& forall|table: Seq<F>|
                table.len() == len && entries_fit(rows_y, stride, len) ==> (
                #[trigger] is_scattered(rows_y.take(n), zero, stride, table) <==> is_scattered(
                    rows_y,
                    zero,
                    stride,
                    table,
                ))
        }),
{
    let n = instructions.len() as int;
    let stride = padded_trace_length as int;
    let all = with_idle_cycles(instructions, idle);
    let log_m = ceil_log2(M as nat) as usize;
    assert forall|i: int|
        #![trigger rows_x[i]]
        #![trigger rows_y[i]]
        0 <= i < all.len() implies is_operand_row(
        all[i],
        zero,
        C,
        log_m,
        rows_x[i],
        rows_y[i],
    ) by {
    }
    assert forall|i: int|
        #![trigger rows_x.take(n)[i]]
        #![trigger rows_y.take(n)[i]]
        0 <= i < n implies is_operand_row(
        instructions[i],
        zero,
        C,
        log_m,
        rows_x.take(n)[i],
        rows_y.take(n)[i],
    ) by {
        assert(all[i] == instructions[i]);
        assert(is_operand_row(all[i], zero, C, log_m, rows_x[i], rows_y[i]));
    }
    assert forall|i: int| n <= i < all.len() implies #[trigger] rows_x[i] == Seq::new(
        C as nat,
        |k: int| zero,
    ) by {
        assert(all[i] is None);
    }
    assert forall|i: int| n <= i < all.len() implies #[trigger] rows_y[i] == Seq::new(
        C as nat,
        |k: int| zero,
    ) by {
        assert(all[i] is None);
    }
    lemma_idle_rows(rows_x.take(n), rows_x, zero, stride, C as int);
    lemma_idle_rows(rows_y.take(n), rows_y, zero, stride, C as int);
}

/// Idle cycles behind the end of the instructions change nothing: the constraint system
/// may be set up to the same for a trace and for the trace followed by cycles without an
/// instruction, as far as the padded trace has room for them.
pub proof fn idle_cycles_change_nothing<
    const C: usize,
    const M: usize,
    F: JoltField,
    PCS: CommitmentScheme<Field = F>,
    P: Subprotocols<F, PCS, C, M>,
>(
    padded_trace_length: usize,
    memory_start: u64,
    instructions: Seq<Option<P::InstructionSet>>,
    idle: nat,
    polynomials: JoltPolynomials<F>,
    circuit_flags: Seq<F>,
    generators: PCS::Setup,
    result: Result<
        (UniformSpartanKey<F, P::R1CSConstraints>, Vec<Vec<F>>, P::R1CSCommitment),
        R1CSSetupError<P::R1CSError>,
    >,
)
    requires
        instructions.len() + idle <= padded_trace_length,
    ensures
        is_r1cs_setup::<C, M, F, PCS, P>(
            padded_trace_length,
            memory_start,
            instructions,
            polynomials,
            circuit_flags,
            generators,
            result,
        ) <==> is_r1cs_setup::<C, M, F, PCS, P>(
            padded_trace_length,
            memory_start,
            with_idle_cycles(instructions, idle),
            polynomials,
            circuit_flags,
            generators,
            result,
        ),
{
    let all = with_idle_cycles(instructions, idle);
    let log_m = ceil_log2(M as nat) as usize;
    let stride = padded_trace_length as int;
    let len = stride * C;
    if has_chunk_outside_field::<F, P::InstructionSet>(instructions, C, log_m) {
        let (i, op, chunks) = choose|i: int, op: P::InstructionSet, chunks: (Vec<u64>, Vec<u64>)|
            {
                &&& 0 <= i < instructions.len()
                &&& #[trigger] instructions[i] == Some(op)
                &&& #[trigger] call_ensures(
                    P::InstructionSet::operand_chunks,
                    (&op, C, log_m),
                    chunks,
                )
                &&& is_not_liftable::<F>(chunks.0@, chunks.1@)
            };
        assert(all[i] == Some(op));
    }
    if has_chunk_outside_field::<F, P::InstructionSet>(all, C, log_m) {
        let (i, op, chunks) = choose|i: int, op: P::InstructionSet, chunks: (Vec<u64>, Vec<u64>)|
            {
                &&& 0 <= i < all.len()
                &&& #[trigger] all[i] == Some(op)
                &&& #[trigger] call_ensures(
                    P::InstructionSet::operand_chunks,
                    (&op, C, log_m),
                    chunks,
                )
                &&& is_not_liftable::<F>(chunks.0@, chunks.1@)
            };
        assert(instructions[i] == Some(op));
    }
    if has_chunk_outside_trace::<C, M, F, PCS, P>(padded_trace_length, instructions) {
        let (zero, rows_x, rows_y) = choose|zero: F, rows_x: Seq<Seq<F>>, rows_y: Seq<Seq<F>>|
            {
                &&& #[trigger] are_trace_rows::<C, M, F, PCS, P>(
                    instructions,
                    zero,
                    rows_x,
                    rows_y,
                )
                &&& !(entries_fit(rows_x, stride, len) && entries_fit(rows_y, stride, len))
            };
        let (all_x, all_y) = lemma_idle_trace_rows::<C, M, F, PCS, P>(
            padded_trace_length,
            instructions,
            idle,
            zero,
            rows_x,
            rows_y,
        );
        lemma_trace_rows_of_idle::<C, M, F, PCS, P>(
            padded_trace_length,
            instructions,
            idle,
            zero,
            all_x,
            all_y,
        );
    }
    if has_chunk_outside_trace::<C, M, F, PCS, P>(padded_trace_length, all) {
        let (zero, all_x, all_y) = choose|zero: F, all_x: Seq<Seq<F>>, all_y: Seq<Seq<F>>|
            {
                &&& #[trigger] are_trace_rows::<C, M, F, PCS, P>(all, zero, all_x, all_y)
                &&& !(entries_fit(all_x, stride, len) && entries_fit(all_y, stride, len))
            };
        lemma_trace_rows_of_idle::<C, M, F, PCS, P>(
            padded_trace_length,
            instructions,
            idle,
            zero,
            all_x,
            all_y,
        );
    }
    assert forall|chunks_x: Seq<F>, chunks_y: Seq<F>| #[trigger]
        are_chunk_tables::<C, M, F, PCS, P>(
            padded_trace_length,
            instructions,
            chunks_x,
            chunks_y,
        ) implies are_chunk_tables::<C, M, F, PCS, P>(
        padded_trace_length,
        all,
        chunks_x,
        chunks_y,
    ) by {
        let (zero, rows_x, rows_y) = choose|zero: F, rows_x: Seq<Seq<F>>, rows_y: Seq<Seq<F>>|
            {
                &&& #[trigger] are_trace_rows::<C, M, F, PCS, P>(
                    instructions,
                    zero,
                    rows_x,
                    rows_y,
                )
                &&& entries_fit(rows_x, stride, len)
                &&& entries_fit(rows_y, stride, len)
                &&& chunks_x.len() == len
                &&& chunks_y.len() == len
                &&& is_scattered(rows_x, zero, stride, chunks_x)
                &&& is_scattered(rows_y, zero, stride, chunks_y)
            };
        let (all_x, all_y) = lemma_idle_trace_rows::<C, M, F, PCS, P>(
            padded_trace_length,
            instructions,
            idle,
            zero,
            rows_x,
            rows_y,
        );
        lemma_trace_rows_of_idle::<C, M, F, PCS, P>(
            padded_trace_length,
            instructions,
            idle,
            zero,
            all_x,
            all_y,
        );
    }
    assert forall|chunks_x: Seq<F>, chunks_y: Seq<F>| #[trigger]
        are_chunk_tables::<C, M, F, PCS, P>(
            padded_trace_length,
            all,
            chunks_x,
            chunks_y,
        ) implies are_chunk_tables::<C, M, F, PCS, P>(
        padded_trace_length,
        instructions,
        chunks_x,
        chunks_y,
    ) by {
        let (zero, all_x, all_y) = choose|zero: F, all_x: Seq<Seq<F>>, all_y: Seq<Seq<F>>|
            {
                &&& #[trigger] are_trace_rows::<C, M, F, PCS, P>(all, zero, all_x, all_y)
                &&& entries_fit(all_x, stride, len)
                &&& entries_fit(all_y, stride, len)
                &&& chunks_x.len() == len
                &&& chunks_y.len() == len
                &&& is_scattered(all_x, zero, stride, chunks_x)
                &&& is_scattered(all_y, zero, stride, chunks_y)
            };
        lemma_trace_rows_of_idle::<C, M, F, PCS, P>(
            padded_trace_length,
            instructions,
            idle,
            zero,
            all_x,
            all_y,
        );
        assert(is_scattered(
            all_x.take(instructions.len() as int),
            zero,
            stride,
            chunks_x,
        ));
        assert(is_scattered(
            all_y.take(instructions.len() as int),
            zero,
            stride,
            chunks_y,
        ));
    }
    if is_r1cs_setup::<C, M, F, PCS, P>(
        padded_trace_length,
        memory_start,
        instructions,
        polynomials,
        circuit_flags,
        generators,
        result,
    ) {
        lemma_setup_reads_chunk_tables::<C, M, F, PCS, P>(
            padded_trace_length,
            memory_start,
            instructions,
            all,
            polynomials,
            circuit_flags,
            generators,
            result,
        );
    }
    if is_r1cs_setup::<C, M, F, PCS, P>(
        padded_trace_length,
        memory_start,
        all,
        polynomials,
        circuit_flags,
        generators,
        result,
    ) {
        lemma_setup_reads_chunk_tables::<C, M, F, PCS, P>(
            padded_trace_length,
            memory_start,
            all,
            instructions,
            polynomials,
            circuit_flags,
            generators,
            result,
        );
    }
}

/// `xs` and `ys` may be the operand chunks of a cycle. One without an instruction has
/// `c` zeros for either operand.
pub open spec fn may_have_chunks<I: JoltInstruction>(
    instruction: Option<I>,
    c: usize,
    log_m: usize,
    xs: Seq<u64>,
    ys: Seq<u64>,
) -> bool {
    match instruction {
        Some(op) => exists|chunks: (Vec<u64>, Vec<u64>)| #[trigger]
            call_ensures(I::operand_chunks, (&op, c, log_m), chunks) && chunks.0@ == xs
                && chunks.1@ == ys,
        None => {
            &&& xs == Seq::new(c as nat, |k: int| 0u64)
            &&& ys == Seq::new(c as nat, |k: int| 0u64)
        },
    }
}

/// Cycle by cycle, two traces may have the same operand chunks.
pub open spec fn have_same_chunks<I: JoltInstruction>(
    instructions1: Seq<Option<I>>,
    instructions2: Seq<Option<I>>,
    c: usize,
    log_m: usize,
) -> bool {
    &&& instructions1.len() == instructions2.len()
    &&& forall|i: int, xs: Seq<u64>, ys: Seq<u64>|
        0 <= i < instructions1.len() ==> (#[trigger] may_have_chunks(
            instructions1[i],
            c,
            log_m,
            xs,
            ys,
        ) <==> may_have_chunks(instructions2[i], c, log_m, xs, ys))
}

/// `zero` is the field's zero, and its element for the number 0.
pub open spec fn is_zero_of_field<F: JoltField>(zero: F) -> bool {
    &&& forall|z: F| #[trigger] call_ensures(F::zero, (), z) ==> z == zero
    &&& forall|x: Option<F>| #[trigger]
        call_ensures(F::from_u64, (0u64,), x) <==> x == Some(zero)
}

/// Two traces lack an instruction in the same cycles.
pub open spec fn are_idle_together<I>(
    instructions1: Seq<Option<I>>,
    instructions2: Seq<Option<I>>,
) -> bool {
    forall|i: int|
        0 <= i < instructions1.len() ==> (#[trigger] instructions1[i] is None
            <==> instructions2[i] is None)
}

proof fn lemma_operand_row_by_chunks<F: JoltField, I: JoltInstruction>(
    instruction1: Option<I>,
    instruction2: Option<I>,
    zero: F,
    c: usize,
    log_m: usize,
    row_x: Seq<F>,
    row_y: Seq<F>,
)
    requires
        forall|xs: Seq<u64>, ys: Seq<u64>| #[trigger]
            may_have_chunks(instruction1, c, log_m, xs, ys) ==> may_have_chunks(
                instruction2,
                c,
                log_m,
                xs,
                ys,
            ),
        (instruction1 is None <==> instruction2 is None) || is_zero_of_field(zero),
        is_operand_row(instruction1, zero, c, log_m, row_x, row_y),
    ensures
        is_operand_row(instruction2, zero, c, log_m, row_x, row_y),
{
    let zeros = Seq::new(c as nat, |k: int| 0u64);
    match instruction1 {
        Some(op) => {
            let chunks = choose|chunks: (Vec<u64>, Vec<u64>)| #[trigger]
                call_ensures(I::operand_chunks, (&op, c, log_m), chunks) && is_lifted(
                    chunks.0@,
                    chunks.1@,
                    row_x,
                    row_y,
                );
            assert(may_have_chunks(instruction1, c, log_m, chunks.0@, chunks.1@));
            assert(may_have_chunks(instruction2, c, log_m, chunks.0@, chunks.1@));
            if instruction2 is None {
                assert forall|k: int| 0 <= k < c implies row_x[k] == zero && row_y[k] == zero by {
                    assert(call_ensures(F::from_u64, (0u64,), Some(row_x[k])));
                    assert(call_ensures(F::from_u64, (0u64,), Some(row_y[k])));
                }
                assert(row_x =~= Seq::new(c as nat, |k: int| zero));
                assert(row_y =~= Seq::new(c as nat, |k: int| zero));
            }
        },
        None => {
            if instruction2 is Some {
                assert(may_have_chunks(instruction1, c, log_m, zeros, zeros));
                assert(may_have_chunks(instruction2, c, log_m, zeros, zeros));
                assert(call_ensures(F::from_u64, (0u64,), Some(zero)));
                assert(is_lifted(zeros, zeros, row_x, row_y));
            }
        },
    }
}

proof fn lemma_setup_by_chunks<
    const C: usize,
    const M: usize,
    F: JoltField,
    PCS: CommitmentScheme<Field = F>,
    P: Subprotocols<F, PCS, C, M>,
>(
    padded_trace_length: usize,
    memory_start: u64,
    instructions1: Seq<Option<P::InstructionSet>>,
    instructions2: Seq<Option<P::InstructionSet>>,
    zero: F,
    polynomials: JoltPolynomials<F>,
    circuit_flags: Seq<F>,
    generators: PCS::Setup,
    result: Result<
        (UniformSpartanKey<F, P::R1CSConstraints>, Vec<Vec<F>>, P::R1CSCommitment),
        R1CSSetupError<P::R1CSError>,
    >,
)
    requires
        have_same_chunks(instructions1, instructions2, C, ceil_log2(M as nat) as usize),
        are_idle_together(instructions1, instructions2) || is_zero_of_field(zero),
        is_r1cs_setup::<C, M, F, PCS, P>(
            padded_trace_length,
            memory_start,
            instructions1,
            polynomials,
            circuit_flags,
            generators,
            result,
        ),
    ensures
        is_r1cs_setup::<C, M, F, PCS, P>(
            padded_trace_length,
            memory_start,
            instructions2,
            polynomials,
            circuit_flags,
            generators,
            result,
        ),
{
    let log_m = ceil_log2(M as nat) as usize;
    if has_chunk_outside_field::<F, P::InstructionSet>(instructions1, C, log_m) {
        let (i, op, chunks) = choose|i: int, op: P::InstructionSet, chunks: (Vec<u64>, Vec<u64>)|
            {
                &&& 0 <= i < instructions1.len()
                &&& #[trigger] instructions1[i] == Some(op)
                &&& #[trigger] call_ensures(
                    P::InstructionSet::operand_chunks,
                    (&op, C, log_m),
                    chunks,
                )
                &&& is_not_liftable::<F>(chunks.0@, chunks.1@)
            };
        assert(may_have_chunks(instructions1[i], C, log_m, chunks.0@, chunks.1@));
        assert(may_have_chunks(instructions2[i], C, log_m, chunks.0@, chunks.1@));
        if instructions2[i] is None {
            assert(!call_ensures(F::from_u64, (0u64,), None::<F>));
        }
    }
    assert forall|z: F, rows_x: Seq<Seq<F>>, rows_y: Seq<Seq<F>>| #[trigger]
        are_trace_rows::<C, M, F, PCS, P>(
            instructions1,
            z,
            rows_x,
            rows_y,
        ) implies are_trace_rows::<C, M, F, PCS, P>(instructions2, z, rows_x, rows_y) by {
        assert forall|i: int|
            #![trigger rows_x[i]]
            #![trigger rows_y[i]]
            0 <= i < instructions2.len() implies is_operand_row(
            instructions2[i],
            z,
            C,
            log_m,
            rows_x[i],
            rows_y[i],
        ) by {
            assert(is_operand_row(instructions1[i], z, C, log_m, rows_x[i], rows_y[i]));
            lemma_operand_row_by_chunks(
                instructions1[i],
                instructions2[i],
                z,
                C,
                log_m,
                rows_x[i],
                rows_y[i],
            );
        }
    }
    lemma_setup_reads_chunk_tables::<C, M, F, PCS, P>(
        padded_trace_length,
        memory_start,
        instructions1,
        instructions2,
        polynomials,
        circuit_flags,
        generators,
        result,
    );
}

/// Instructions enter the setup of the constraint system through their operand chunks
/// alone: it may be set up to the same for two traces whose cycles have the same chunks.
/// Where a cycle has an instruction in one trace only, the field's zero must be its
/// element for the number 0.
pub proof fn setup_depends_on_operand_chunks<
    const C: usize,
    const M: usize,
    F: JoltField,
    PCS: CommitmentScheme<Field = F>,
    P: Subprotocols<F, PCS, C, M>,
>(
    padded_trace_length: usize,
    memory_start: u64,
    instructions1: Seq<Option<P::InstructionSet>>,
    instructions2: Seq<Option<P::InstructionSet>>,
    zero: F,
    polynomials: JoltPolynomials<F>,
    circuit_flags: Seq<F>,
    generators: PCS::Setup,
    result: Result<
        (UniformSpartanKey<F, P::R1CSConstraints>, Vec<Vec<F>>, P::R1CSCommitment),
        R1CSSetupError<P::R1CSError>,
    >,
)
    requires
        have_same_chunks(instructions1, instructions2, C, ceil_log2(M as nat) as usize),
        are_idle_together(instructions1, instructions2) || is_zero_of_field(zero),
    ensures
        is_r1cs_setup::<C, M, F, PCS, P>(
            padded_trace_length,
            memory_start,
            instructions1,
            polynomials,
            circuit_flags,
            generators,
            result,
        ) <==> is_r1cs_setup::<C, M, F, PCS, P>(
            padded_trace_length,
            memory_start,
            instructions2,
            polynomials,
            circuit_flags,
            generators,
            result,
        ),
{
    if is_r1cs_setup::<C, M, F, PCS, P>(
        padded_trace_length,
        memory_start,
        instructions1,
        polynomials,
        circuit_flags,
        generators,
        result,
    ) {
        lemma_setup_by_chunks::<C, M, F, PCS, P>(
            padded_trace_length,
            memory_start,
            instructions1,
            instructions2,
            zero,
            polynomials,
            circuit_flags,
            generators,
            result,
        );
    }
    if is_r1cs_setup::<C, M, F, PCS, P>(
        padded_trace_length,
        memory_start,
        instructions2,
        polynomials,
        circuit_flags,
        generators,
        result,
    ) {
        assert forall|i: int, xs: Seq<u64>, ys: Seq<u64>|
            0 <= i < instructions2.len() implies (#[trigger] may_have_chunks(
            instructions2[i],
            C,
            ceil_log2(M as nat) as usize,
            xs,
            ys,
        ) <==> may_have_chunks(
            instructions1[i],
            C,
            ceil_log2(M as nat) as usize,
            xs,
            ys,
        )) by {
            assert(may_have_chunks(
                instructions1[i],
                C,
                ceil_log2(M as nat) as usize,
                xs,
                ys,
            ) <==> may_have_chunks(
                instructions2[i],
                C,
                ceil_log2(M as nat) as usize,
                xs,
                ys,
            ));
        }
        if are_idle_together(instructions1, instructions2) {
            assert forall|i: int| 0 <= i < instructions2.len() implies (
            #[trigger] instructions2[i] is None <==> instructions1[i] is None) by {
                assert(instructions1[i] is None <==> instructions2[i] is None);
            }
        }
        lemma_setup_by_chunks::<C, M, F, PCS, P>(
            padded_trace_length,
            memory_start,
            instructions2,
            instructions1,
            zero,
            polynomials,
            circuit_flags,
            generators,
            result,
        );
    }
}

/// Columns that are flattened out of polynomials of one length have the layout of the
/// chunk tables: evaluation `i` of polynomial `c` stands at `i + c * len`.
pub proof fn flat_evals_have_chunk_layout<F>(
    polys: Seq<DensePolynomial<F>>,
    len: int,
    i: int,
    c: int,
)
    requires
        forall|k: int| 0 <= k < polys.len() ==> (#[trigger] polys[k])@.len() == len,
        0 <= c < polys.len(),
        0 <= i < len,
    ensures
        flat_evals(polys).len() == len * polys.len(),
        0 <= position(len, i, c) < flat_evals(polys).len(),
        flat_evals(polys)[position(len, i, c)] == polys[c]@[i],
    decreases polys.len(),
{
    let view = |p: DensePolynomial<F>| p@;
    let head = polys.drop_last();
    assert(polys.map_values(view) =~= head.map_values(view).push(polys.last()@));
    head.map_values(view).lemma_flatten_push(polys.last()@);
    assert(flat_evals(polys) == flat_evals(head) + polys.last()@);
    if head.len() > 0 {
        let d: int = if c < head.len() {
            c
        } else {
            0
        };
        assert(forall|k: int| 0 <= k < head.len() ==> (#[trigger] head[k])@.len() == len);
        flat_evals_have_chunk_layout(head, len, i, d);
    } else {
        assert(head.map_values(view) =~= Seq::empty());
    }
    let n = head.len() as int;
    assert(flat_evals(head).len() == len * n) by {
        if n == 0 {
            assert(len * n == 0) by (nonlinear_arith)
                requires
                    n == 0,
            ;
        }
    }
    assert(len * n + len == len * (n + 1)) by (nonlinear_arith);
    if c == n {
        assert(c * len == len * n) by (nonlinear_arith)
            requires
                c == n,
        ;
    } else {
        assert(c * len + len <= len * n && 0 <= c * len) by (nonlinear_arith)
            requires
                0 <= c < n,
                0 < len,
        ;
    }
}

pub(crate) proof fn lemma_pow2_reaches(n: nat)
    ensures
        n <= pow2(n),
    decreases n,
{
    if n == 0 {
    } else {
        lemma_pow2_reaches((n - 1) as nat);
        lemma_pow2_unfold(n);
        vstd::arithmetic::power2::lemma_pow2_pos((n - 1) as nat);
    }
}

proof fn lemma_ceil_log2_below(n: nat, k: nat) -> (j: nat)
    requires
        n <= pow2(k),
    ensures
        is_ceil_log2(n, j),
    decreases k,
{
    if k == 0 || pow2((k - 1) as nat) < n {
        k
    } else {
        lemma_ceil_log2_below(n, (k - 1) as nat)
    }
}

/// A trace is padded to a power of two that holds it, and to no more than it takes: the
/// padded length is below twice the length.
pub proof fn padded_length_is_least(n: nat)
    ensures
        is_next_power_of_two(n, padded_length(n)),
        n <= padded_length(n),
        n > 0 ==> padded_length(n) < 2 * n,
        n == 0 ==> padded_length(n) == 1,
{
    lemma_pow2_reaches(n);
    let k = lemma_ceil_log2_below(n, n);
    lemma_ceil_log2_is(n, k);
    if k > 0 {
        lemma_pow2_unfold(k);
    } else {
        vstd::arithmetic::power2::lemma2_to64();
    }
}

} // verus!

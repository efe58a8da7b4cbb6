//! What each operation does, in terms of its inputs and its results alone: which calls
//! are made with which values, and where each answer ends up.

use crate::artifacts::JoltPreprocessing;
use crate::artifacts::JoltProof;
use crate::artifacts::ProofVerifyError;
use crate::artifacts::ProveError;
use crate::artifacts::R1CSSetupError;
use crate::chunks::contents;
use crate::chunks::entries_fit;
use crate::chunks::is_entry;
use crate::chunks::is_overwritten;
use crate::chunks::is_scattered;
use crate::chunks::is_written;
use crate::chunks::position;
use crate::chunks::scatter_chunks;
use crate::commitments::commitments_from;
use crate::commitments::committed;
use crate::commitments::split_trace_commitments;
use crate::commitments::BatchType;
use crate::commitments::CommitmentScheme;
use crate::commitments::JoltCommitments;
use crate::commitments::MissingCommitments;
use crate::device::pad_memory_trace;
use crate::device::padded_row;
use crate::device::JoltDevice;
use crate::device::MEMORY_OPS_PER_INSTRUCTION;
use crate::device::RAM_START_ADDRESS;
use crate::instruction::has_chunk_outside_field;
use crate::instruction::is_lifted;
use crate::instruction::is_not_liftable;
use crate::instruction::is_operand_row;
use crate::instruction::lift_chunks;
use crate::instruction::operand_rows;
use crate::instruction::pair_count;
use crate::instruction::JoltInstruction;
use crate::instruction::JoltInstructionSet;
use crate::instruction::JoltSubtableSet;
use crate::laws::lemma_pow2_reaches;
use crate::laws::padded_length_is_least;
use crate::laws::scattered_table_is_exact;
use crate::opening::is_absorbed;
use crate::opening::is_opened;
use crate::opening::opening;
use crate::opening::preamble;
use crate::poly::flat_evals;
use crate::poly::flatten_query;
use crate::poly::DensePolynomial;
use crate::poly::InstructionPolynomials;
use crate::poly::JoltField;
use crate::poly::JoltPolynomials;
use crate::pow2::ceil_log2;
use crate::pow2::is_ceil_log2;
use crate::pow2::lemma_ceil_log2_is;
use crate::pow2::padded_length;
use crate::proving::are_arguments;
use crate::proving::are_arguments_along;
use crate::proving::are_bytecode_rows;
use crate::proving::are_generators;
use crate::proving::are_memory_polynomials;
use crate::proving::bytecode_rows;
use crate::proving::is_padded_trace;
use crate::proving::is_polynomialized;
use crate::proving::is_proved;
use crate::proving::is_prover_run;
use crate::proving::polynomialize;
use crate::proving::prove_arguments;
use crate::proving::prover_result;
use crate::proving::Arguments;
use crate::proving::Execution;
use crate::proving::LOAD_STORE_FLAGS_END;
use crate::proving::LOAD_STORE_FLAGS_START;
use crate::proving::ProverRun;
use crate::r1cs::are_chunk_tables;
use crate::r1cs::are_r1cs_inputs;
use crate::r1cs::are_trace_rows;
use crate::r1cs::is_r1cs_setup;
use crate::r1cs::setup_result;
use crate::r1cs::WORD_SIZE;
use crate::subprotocols::R1CSInputs;
use crate::subprotocols::ReadWriteMemoryPreprocessing;
use crate::subprotocols::Subprotocols;
use crate::subprotocols::UniformSpartanKey;
use crate::transcript::message;
use crate::transcript::MessageView;
use crate::transcript::ProofTranscript;
use crate::transcript::TranscriptMessage;
use crate::transcript::TranscriptValue;
use crate::transcript::TranscriptView;
use crate::transcript::ValueView;
use crate::verification::is_memory_verified;
use crate::verification::is_r1cs_result;
use crate::verification::is_verdict;
use crate::verification::is_verifier_run;
use crate::verification::subprotocol_outcome;
use crate::verification::subprotocol_result;
use crate::verification::with_program_io;
use crate::verification::VerifierRun;
use crate::vm::Jolt;
use vstd::arithmetic::power2::lemma2_to64;
use vstd::arithmetic::power2::lemma_pow2_strictly_increases;
use vstd::arithmetic::power2::lemma_pow2_unfold;
use vstd::arithmetic::power2::pow2;
use vstd::prelude::*;

verus! {

/// Padding a memory trace keeps its rows: the padded trace has the padded length, row `i`
/// is row `i` of the trace as long as both have one, and every further row is made of
/// no-ops, of which the third is the write.
pub proof fn padding_keeps_the_rows<Op: Copy>(
    memory_trace: Vec<[Op; MEMORY_OPS_PER_INSTRUCTION]>,
    padded_trace_length: usize,
    noop_read: Op,
    noop_write: Op,
    padded: Vec<[Op; MEMORY_OPS_PER_INSTRUCTION]>,
)
    requires
        call_ensures(
            pad_memory_trace::<Op>,
            (memory_trace, padded_trace_length, noop_read, noop_write),
            padded,
        ),
    ensures
        padded@.len() == padded_trace_length,
        forall|i: int|
            0 <= i < padded_trace_length && i < memory_trace@.len() ==> #[trigger] padded@[i]
                == memory_trace@[i],
        forall|i: int|
            memory_trace@.len() <= i < padded_trace_length ==> (#[trigger] padded@[i])@ == seq![
                noop_read,
                noop_read,
                noop_write,
                noop_read,
                noop_read,
                noop_read,
                noop_read,
            ],
{
    assert forall|i: int|
        0 <= i < padded_trace_length && i < memory_trace@.len() implies #[trigger] padded@[i]
        == memory_trace@[i] by {
        assert(padded@[i]@ == memory_trace@[i]@);
        assert(padded@[i] =~= memory_trace@[i]);
    }
}

/// Inputs and outputs are found to fit exactly where neither is longer than its limit.
pub proof fn layout_check_compares_lengths(device: JoltDevice, fits: bool)
    requires
        call_ensures(JoltDevice::check_layout, (&device,), fits),
    ensures
        fits <==> device.inputs@.len() <= device.memory_layout.max_input_size as usize
            && device.outputs@.len() <= device.memory_layout.max_output_size as usize,
        fits <==> device.fits_layout(),
{
}

/// A new transcript bears its label and holds nothing.
pub proof fn new_transcript_is_empty<F>(label: &'static str, transcript: ProofTranscript<F>)
    requires
        call_ensures(ProofTranscript::<F>::new, (label,), transcript),
    ensures
        transcript@.label == label@,
        transcript@.messages.len() == 0,
{
}

/// What a transcript shows of itself is what it holds: its label, and its messages one
/// for one, in their order.
pub proof fn transcript_shows_what_it_holds<F>(
    transcript: ProofTranscript<F>,
    label: &'static str,
    messages: &Vec<TranscriptMessage<F>>,
)
    requires
        call_ensures(ProofTranscript::<F>::label, (&transcript,), label),
        call_ensures(ProofTranscript::<F>::messages, (&transcript,), messages),
    ensures
        label@ == transcript@.label,
        messages@.len() == transcript@.messages.len(),
        forall|i: int|
            #![trigger messages@[i]]
            0 <= i < messages@.len() ==> {
                &&& transcript@.messages[i].label == messages@[i].label@
                &&& messages@[i].value matches TranscriptValue::U64(x)
                    ==> transcript@.messages[i].value == ValueView::<F>::U64(x)
                &&& messages@[i].value matches TranscriptValue::Bytes(b)
                    ==> transcript@.messages[i].value == ValueView::<F>::Bytes(b@)
                &&& messages@[i].value matches TranscriptValue::Scalar(x)
                    ==> transcript@.messages[i].value == ValueView::<F>::Scalar(x)
            },
{
    assert forall|i: int|
        #![trigger messages@[i]]
        0 <= i < messages@.len() implies messages@[i]@ == transcript@.messages[i] by {
    }
}

/// Absorbing keeps the label and everything absorbed before, and appends the new
/// messages in their order.
pub proof fn absorbing_appends<F>(transcript: TranscriptView<F>, messages: Seq<MessageView<F>>)
    ensures
        transcript.absorb(messages).label == transcript.label,
        transcript.absorb(messages).messages == transcript.messages + messages,
{
}

/// A message is its label and its value.
pub proof fn message_is_label_and_value<F>(label: Seq<char>, value: ValueView<F>)
    ensures
        message(label, value) == (MessageView { label, value }),
{
}

/// The preamble, message by message.
pub proof fn preamble_is_ten_messages<F>(
    program_io: JoltDevice,
    trace_length: usize,
    c: usize,
    m: usize,
    num_instructions: usize,
    num_subtables: usize,
)
    ensures
        preamble::<F>(program_io, trace_length, c, m, num_instructions, num_subtables) == seq![
            MessageView { label: "Unpadded trace length"@, value: ValueView::<F>::U64(
                trace_length as u64,
            ) },
            MessageView { label: "C"@, value: ValueView::<F>::U64(c as u64) },
            MessageView { label: "M"@, value: ValueView::<F>::U64(m as u64) },
            MessageView { label: "# instructions"@, value: ValueView::<F>::U64(
                num_instructions as u64,
            ) },
            MessageView { label: "# subtables"@, value: ValueView::<F>::U64(num_subtables as u64) },
            MessageView { label: "Max input size"@, value: ValueView::<F>::U64(
                program_io.memory_layout.max_input_size,
            ) },
            MessageView { label: "Max output size"@, value: ValueView::<F>::U64(
                program_io.memory_layout.max_output_size,
            ) },
            MessageView { label: "Program inputs"@, value: ValueView::<F>::Bytes(
                program_io.inputs@,
            ) },
            MessageView { label: "Program outputs"@, value: ValueView::<F>::Bytes(
                program_io.outputs@,
            ) },
            MessageView { label: "Program panic"@, value: ValueView::<F>::U64(
                if program_io.panic { 1u64 } else { 0u64 },
            ) },
        ],
{
}

/// All commitments are absorbed one after the other, each under its own label.
pub proof fn commitments_are_absorbed_in_order<
    const C: usize,
    const M: usize,
    F: JoltField,
    PCS: CommitmentScheme<Field = F>,
    P: Subprotocols<F, PCS, C, M>,
>(
    commitments: JoltCommitments<PCS, P::R1CSCommitment>,
    before: ProofTranscript<F>,
    after: ProofTranscript<F>,
)
    requires
        is_absorbed::<C, M, F, PCS, P>(commitments, before, after),
    ensures
        commitments.r1cs is Some,
        exists|
            t1: ProofTranscript<F>,
            t2: ProofTranscript<F>,
            t3: ProofTranscript<F>,
            t4: ProofTranscript<F>,
        |
            {
                &&& #[trigger] call_ensures(
                    P::bytecode_append_commitment,
                    (&commitments.bytecode, "bytecode", before),
                    t1,
                )
                &&& #[trigger] call_ensures(
                    P::memory_append_commitment,
                    (&commitments.read_write_memory, "read_write_memory", t1),
                    t2,
                )
                &&& #[trigger] call_ensures(
                    P::timestamp_append_commitment,
                    (&commitments.timestamp_range_check, "timestamp_range_check", t2),
                    t3,
                )
                &&& #[trigger] call_ensures(
                    P::lookups_append_commitment,
                    (&commitments.instruction_lookups, "instruction_lookups", t3),
                    t4,
                )
                &&& call_ensures(
                    P::r1cs_append_commitment,
                    (&commitments.r1cs->0, "r1cs", t4),
                    after,
                )
            },
{
}

/// Before the first argument, the transcript holds the machine, the public data and the
/// digest of the key, and then it has absorbed all commitments.
pub proof fn opened_transcript_is_bound<
    const C: usize,
    const M: usize,
    F: JoltField,
    PCS: CommitmentScheme<Field = F>,
    P: Subprotocols<F, PCS, C, M>,
>(
    program_io: JoltDevice,
    trace_length: usize,
    vk_digest: F,
    commitments: JoltCommitments<PCS, P::R1CSCommitment>,
    opened: ProofTranscript<F>,
)
    requires
        is_opened::<C, M, F, PCS, P>(program_io, trace_length, vk_digest, commitments, opened),
    ensures
        commitments.r1cs is Some,
        exists|
            start: ProofTranscript<F>,
            a1: ProofTranscript<F>,
            a2: ProofTranscript<F>,
            a3: ProofTranscript<F>,
            a4: ProofTranscript<F>,
        |
            {
                &&& start@.label == "Jolt transcript"@
                &&& start@.messages == seq![
                    MessageView { label: "Unpadded trace length"@, value: ValueView::<F>::U64(
                        trace_length as u64,
                    ) },
                    MessageView { label: "C"@, value: ValueView::<F>::U64(C as u64) },
                    MessageView { label: "M"@, value: ValueView::<F>::U64(M as u64) },
                    MessageView { label: "# instructions"@, value: ValueView::<F>::U64(
                        P::InstructionSet::COUNT as u64,
                    ) },
                    MessageView { label: "# subtables"@, value: ValueView::<F>::U64(
                        P::Subtables::COUNT as u64,
                    ) },
                    MessageView { label: "Max input size"@, value: ValueView::<F>::U64(
                        program_io.memory_layout.max_input_size,
                    ) },
                    MessageView { label: "Max output size"@, value: ValueView::<F>::U64(
                        program_io.memory_layout.max_output_size,
                    ) },
                    MessageView { label: "Program inputs"@, value: ValueView::<F>::Bytes(
                        program_io.inputs@,
                    ) },
                    MessageView { label: "Program outputs"@, value: ValueView::<F>::Bytes(
                        program_io.outputs@,
                    ) },
                    MessageView { label: "Program panic"@, value: ValueView::<F>::U64(
                        if program_io.panic { 1u64 } else { 0u64 },
                    ) },
                    MessageView { label: "spartan key"@, value: ValueView::<F>::Scalar(vk_digest) },
                ]
                &&& #[trigger] call_ensures(
                    P::bytecode_append_commitment,
                    (&commitments.bytecode, "bytecode", start),
                    a1,
                )
                &&& #[trigger] call_ensures(
                    P::memory_append_commitment,
                    (&commitments.read_write_memory, "read_write_memory", a1),
                    a2,
                )
                &&& #[trigger] call_ensures(
                    P::timestamp_append_commitment,
                    (&commitments.timestamp_range_check, "timestamp_range_check", a2),
                    a3,
                )
                &&& #[trigger] call_ensures(
                    P::lookups_append_commitment,
                    (&commitments.instruction_lookups, "instruction_lookups", a3),
                    a4,
                )
                &&& call_ensures(
                    P::r1cs_append_commitment,
                    (&commitments.r1cs->0, "r1cs", a4),
                    opened,
                )
            },
{
    let start = choose|start: ProofTranscript<F>|
        {
            &&& start@ == opening::<C, M, F, PCS, P>(program_io, trace_length, vk_digest)
            &&& #[trigger] is_absorbed::<C, M, F, PCS, P>(commitments, start, opened)
        };
    assert(start@.messages =~= seq![
        MessageView { label: "Unpadded trace length"@, value: ValueView::<F>::U64(
            trace_length as u64,
        ) },
        MessageView { label: "C"@, value: ValueView::<F>::U64(C as u64) },
        MessageView { label: "M"@, value: ValueView::<F>::U64(M as u64) },
        MessageView { label: "# instructions"@, value: ValueView::<F>::U64(
            P::InstructionSet::COUNT as u64,
        ) },
        MessageView { label: "# subtables"@, value: ValueView::<F>::U64(
            P::Subtables::COUNT as u64,
        ) },
        MessageView { label: "Max input size"@, value: ValueView::<F>::U64(
            program_io.memory_layout.max_input_size,
        ) },
        MessageView { label: "Max output size"@, value: ValueView::<F>::U64(
            program_io.memory_layout.max_output_size,
        ) },
        MessageView { label: "Program inputs"@, value: ValueView::<F>::Bytes(program_io.inputs@) },
        MessageView { label: "Program outputs"@, value: ValueView::<F>::Bytes(
            program_io.outputs@,
        ) },
        MessageView { label: "Program panic"@, value: ValueView::<F>::U64(
            if program_io.panic { 1u64 } else { 0u64 },
        ) },
        MessageView { label: "spartan key"@, value: ValueView::<F>::Scalar(vk_digest) },
    ]);
    assert(is_absorbed::<C, M, F, PCS, P>(commitments, start, opened));
}

/// A proof is accepted only after all four arguments were asked and accepted, whatever
/// it holds: beginning with the opened transcript `t0`, each argument was asked about its
/// own part with the transcript that the one before it left, and answered `Ok`. Inputs
/// and outputs are within their limits.
pub proof fn acceptance_means_four_favourable_answers<
    const C: usize,
    const M: usize,
    F: JoltField,
    PCS: CommitmentScheme<Field = F>,
    P: Jolt<F, PCS, C, M>,
>(
    preprocessing: JoltPreprocessing<C, M, F, PCS, P>,
    proof: JoltProof<C, M, F, PCS, P>,
    commitments: JoltCommitments<PCS, P::R1CSCommitment>,
)
    requires
        commitments.r1cs is Some,
        call_ensures(
            P::verify,
            (preprocessing, proof, commitments),
            Ok::<(), ProofVerifyError<P::Error>>(()),
        ),
    ensures
        proof.program_io.inputs@.len() <= proof.program_io.memory_layout.max_input_size as usize,
        proof.program_io.outputs@.len() <= proof.program_io.memory_layout.max_output_size as usize,
        exists|
            start: ProofTranscript<F>,
            a1: ProofTranscript<F>,
            a2: ProofTranscript<F>,
            a3: ProofTranscript<F>,
            a4: ProofTranscript<F>,
            t0: ProofTranscript<F>,
            t1: ProofTranscript<F>,
            t2: ProofTranscript<F>,
            t3: ProofTranscript<F>,
            t4: ProofTranscript<F>,
        |
            {
                &&& start@.label == "Jolt transcript"@
                &&& start@.messages == seq![
                    MessageView { label: "Unpadded trace length"@, value: ValueView::<F>::U64(
                        proof.trace_length as u64,
                    ) },
                    MessageView { label: "C"@, value: ValueView::<F>::U64(C as u64) },
                    MessageView { label: "M"@, value: ValueView::<F>::U64(M as u64) },
                    MessageView { label: "# instructions"@, value: ValueView::<F>::U64(
                        P::InstructionSet::COUNT as u64,
                    ) },
                    MessageView { label: "# subtables"@, value: ValueView::<F>::U64(
                        P::Subtables::COUNT as u64,
                    ) },
                    MessageView { label: "Max input size"@, value: ValueView::<F>::U64(
                        proof.program_io.memory_layout.max_input_size,
                    ) },
                    MessageView { label: "Max output size"@, value: ValueView::<F>::U64(
                        proof.program_io.memory_layout.max_output_size,
                    ) },
                    MessageView { label: "Program inputs"@, value: ValueView::<F>::Bytes(
                        proof.program_io.inputs@,
                    ) },
                    MessageView { label: "Program outputs"@, value: ValueView::<F>::Bytes(
                        proof.program_io.outputs@,
                    ) },
                    MessageView { label: "Program panic"@, value: ValueView::<F>::U64(
                        if proof.program_io.panic { 1u64 } else { 0u64 },
                    ) },
                    MessageView { label: "spartan key"@, value: ValueView::<F>::Scalar(
                        proof.r1cs.key.vk_digest,
                    ) },
                ]
                &&& #[trigger] call_ensures(
                    P::bytecode_append_commitment,
                    (&commitments.bytecode, "bytecode", start),
                    a1,
                )
                &&& #[trigger] call_ensures(
                    P::memory_append_commitment,
                    (&commitments.read_write_memory, "read_write_memory", a1),
                    a2,
                )
                &&& #[trigger] call_ensures(
                    P::timestamp_append_commitment,
                    (&commitments.timestamp_range_check, "timestamp_range_check", a2),
                    a3,
                )
                &&& #[trigger] call_ensures(
                    P::lookups_append_commitment,
                    (&commitments.instruction_lookups, "instruction_lookups", a3),
                    a4,
                )
                &&& #[trigger] call_ensures(
                    P::r1cs_append_commitment,
                    (&commitments.r1cs->0, "r1cs", a4),
                    t0,
                )
                &&& #[trigger] call_ensures(
                    P::bytecode_verify,
                    (
                        &preprocessing.bytecode,
                        &preprocessing.generators,
                        proof.bytecode,
                        &commitments.bytecode,
                        t0,
                    ),
                    (Ok::<(), P::Error>(()), t1),
                )
                &&& #[trigger] call_ensures(
                    P::lookups_verify,
                    (
                        &preprocessing.instruction_lookups,
                        &preprocessing.generators,
                        proof.instruction_lookups,
                        &commitments.instruction_lookups,
                        t1,
                    ),
                    (Ok::<(), P::Error>(()), t2),
                )
                &&& #[trigger] call_ensures(P::memory_verify, (
                    proof.read_write_memory,
                    &preprocessing.generators,
                    &(ReadWriteMemoryPreprocessing {
                        image: preprocessing.read_write_memory.image,
                        program_io: Some(proof.program_io),
                    }),
                    &commitments,
                    t2,
                ), (Ok::<(), P::Error>(()), t3))
                &&& #[trigger] call_ensures(
                    P::r1cs_verify,
                    (proof.r1cs, &preprocessing.generators, commitments, C, t3),
                    (Ok::<(), P::R1CSError>(()), t4),
                )
            },
{
    let result = Ok::<(), ProofVerifyError<P::Error>>(());
    let run = verifier_reports_the_first_objection(preprocessing, proof, commitments, result);
    let (start, a1, a2, a3, a4) = choose|
        start: ProofTranscript<F>,
        a1: ProofTranscript<F>,
        a2: ProofTranscript<F>,
        a3: ProofTranscript<F>,
        a4: ProofTranscript<F>,
    |
        {
            &&& start@.label == "Jolt transcript"@
            &&& start@.messages == seq![
                MessageView { label: "Unpadded trace length"@, value: ValueView::<F>::U64(
                    proof.trace_length as u64,
                ) },
                MessageView { label: "C"@, value: ValueView::<F>::U64(C as u64) },
                MessageView { label: "M"@, value: ValueView::<F>::U64(M as u64) },
                MessageView { label: "# instructions"@, value: ValueView::<F>::U64(
                    P::InstructionSet::COUNT as u64,
                ) },
                MessageView { label: "# subtables"@, value: ValueView::<F>::U64(
                    P::Subtables::COUNT as u64,
                ) },
                MessageView { label: "Max input size"@, value: ValueView::<F>::U64(
                    proof.program_io.memory_layout.max_input_size,
                ) },
                MessageView { label: "Max output size"@, value: ValueView::<F>::U64(
                    proof.program_io.memory_layout.max_output_size,
                ) },
                MessageView { label: "Program inputs"@, value: ValueView::<F>::Bytes(
                    proof.program_io.inputs@,
                ) },
                MessageView { label: "Program outputs"@, value: ValueView::<F>::Bytes(
                    proof.program_io.outputs@,
                ) },
                MessageView { label: "Program panic"@, value: ValueView::<F>::U64(
                    if proof.program_io.panic { 1u64 } else { 0u64 },
                ) },
                MessageView { label: "spartan key"@, value: ValueView::<F>::Scalar(
                    proof.r1cs.key.vk_digest,
                ) },
            ]
            &&& #[trigger] call_ensures(
                P::bytecode_append_commitment,
                (&commitments.bytecode, "bytecode", start),
                a1,
            )
            &&& #[trigger] call_ensures(
                P::memory_append_commitment,
                (&commitments.read_write_memory, "read_write_memory", a1),
                a2,
            )
            &&& #[trigger] call_ensures(
                P::timestamp_append_commitment,
                (&commitments.timestamp_range_check, "timestamp_range_check", a2),
                a3,
            )
            &&& #[trigger] call_ensures(
                P::lookups_append_commitment,
                (&commitments.instruction_lookups, "instruction_lookups", a3),
                a4,
            )
            &&& call_ensures(
                P::r1cs_append_commitment,
                (&commitments.r1cs->0, "r1cs", a4),
                run.opened,
            )
        };
    assert(run.bytecode.0->Ok_0 == ());
    assert(run.bytecode == (Ok::<(), P::Error>(()), run.bytecode.1));
    assert(run.lookups.0->Ok_0 == ());
    assert(run.lookups == (Ok::<(), P::Error>(()), run.lookups.1));
    assert(run.memory.0->Ok_0 == ());
    assert(run.memory == (Ok::<(), P::Error>(()), run.memory.1));
    assert(run.r1cs.0->Ok_0 == ());
    assert(run.r1cs == (Ok::<(), P::R1CSError>(()), run.r1cs.1));
    assert(
        call_ensures(
            P::bytecode_verify,
            (
                &preprocessing.bytecode,
                &preprocessing.generators,
                proof.bytecode,
                &commitments.bytecode,
                run.opened,
            ),
            (Ok::<(), P::Error>(()), run.bytecode.1),
        )
    );
    assert(
        call_ensures(
            P::lookups_verify,
            (
                &preprocessing.instruction_lookups,
                &preprocessing.generators,
                proof.instruction_lookups,
                &commitments.instruction_lookups,
                run.bytecode.1,
            ),
            (Ok::<(), P::Error>(()), run.lookups.1),
        )
    );
    assert(call_ensures(P::memory_verify, (
                    proof.read_write_memory,
                    &preprocessing.generators,
                    &(ReadWriteMemoryPreprocessing {
                        image: preprocessing.read_write_memory.image,
                        program_io: Some(proof.program_io),
                    }),
                    &commitments,
                    run.lookups.1,
                ), (Ok::<(), P::Error>(()), run.memory.1)));
    assert(
        call_ensures(
            P::r1cs_verify,
            (proof.r1cs, &preprocessing.generators, commitments, C, run.memory.1),
            (Ok::<(), P::R1CSError>(()), run.r1cs.1),
        )
    );
}

/// The verifier asks bytecode, lookups, memory and constraint system in this order, each
/// as long as all before it accepted, and memory only if inputs and outputs are within
/// their limits. It returns the first objection, and accepts where there is none.
pub proof fn verifier_reports_the_first_objection<
    const C: usize,
    const M: usize,
    F: JoltField,
    PCS: CommitmentScheme<Field = F>,
    P: Jolt<F, PCS, C, M>,
>(
    preprocessing: JoltPreprocessing<C, M, F, PCS, P>,
    proof: JoltProof<C, M, F, PCS, P>,
    commitments: JoltCommitments<PCS, P::R1CSCommitment>,
    result: Result<(), ProofVerifyError<P::Error>>,
) -> (run: VerifierRun<C, M, F, PCS, P>)
    requires
        commitments.r1cs is Some,
        call_ensures(P::verify, (preprocessing, proof, commitments), result),
    ensures
        exists|
            start: ProofTranscript<F>,
            a1: ProofTranscript<F>,
            a2: ProofTranscript<F>,
            a3: ProofTranscript<F>,
            a4: ProofTranscript<F>,
        |
            {
                &&& start@.label == "Jolt transcript"@
                &&& start@.messages == seq![
                    MessageView { label: "Unpadded trace length"@, value: ValueView::<F>::U64(
                        proof.trace_length as u64,
                    ) },
                    MessageView { label: "C"@, value: ValueView::<F>::U64(C as u64) },
                    MessageView { label: "M"@, value: ValueView::<F>::U64(M as u64) },
                    MessageView { label: "# instructions"@, value: ValueView::<F>::U64(
                        P::InstructionSet::COUNT as u64,
                    ) },
                    MessageView { label: "# subtables"@, value: ValueView::<F>::U64(
                        P::Subtables::COUNT as u64,
                    ) },
                    MessageView { label: "Max input size"@, value: ValueView::<F>::U64(
                        proof.program_io.memory_layout.max_input_size,
                    ) },
                    MessageView { label: "Max output size"@, value: ValueView::<F>::U64(
                        proof.program_io.memory_layout.max_output_size,
                    ) },
                    MessageView { label: "Program inputs"@, value: ValueView::<F>::Bytes(
                        proof.program_io.inputs@,
                    ) },
                    MessageView { label: "Program outputs"@, value: ValueView::<F>::Bytes(
                        proof.program_io.outputs@,
                    ) },
                    MessageView { label: "Program panic"@, value: ValueView::<F>::U64(
                        if proof.program_io.panic { 1u64 } else { 0u64 },
                    ) },
                    MessageView { label: "spartan key"@, value: ValueView::<F>::Scalar(
                        proof.r1cs.key.vk_digest,
                    ) },
                ]
                &&& #[trigger] call_ensures(
                    P::bytecode_append_commitment,
                    (&commitments.bytecode, "bytecode", start),
                    a1,
                )
                &&& #[trigger] call_ensures(
                    P::memory_append_commitment,
                    (&commitments.read_write_memory, "read_write_memory", a1),
                    a2,
                )
                &&& #[trigger] call_ensures(
                    P::timestamp_append_commitment,
                    (&commitments.timestamp_range_check, "timestamp_range_check", a2),
                    a3,
                )
                &&& #[trigger] call_ensures(
                    P::lookups_append_commitment,
                    (&commitments.instruction_lookups, "instruction_lookups", a3),
                    a4,
                )
                &&& call_ensures(
                    P::r1cs_append_commitment,
                    (&commitments.r1cs->0, "r1cs", a4),
                    run.opened,
                )
            },
        call_ensures(
            P::bytecode_verify,
            (
                &preprocessing.bytecode,
                &preprocessing.generators,
                proof.bytecode,
                &commitments.bytecode,
                run.opened,
            ),
            run.bytecode,
        ),
        run.bytecode.0 is Err ==> result == Err::<(), _>(
            ProofVerifyError::Subprotocol(run.bytecode.0->Err_0),
        ),
        run.bytecode.0 is Ok ==> call_ensures(
            P::lookups_verify,
            (
                &preprocessing.instruction_lookups,
                &preprocessing.generators,
                proof.instruction_lookups,
                &commitments.instruction_lookups,
                run.bytecode.1,
            ),
            run.lookups,
        ),
        run.bytecode.0 is Ok && run.lookups.0 is Err ==> result == Err::<(), _>(
            ProofVerifyError::Subprotocol(run.lookups.0->Err_0),
        ),
        run.bytecode.0 is Ok && run.lookups.0 is Ok
            && !(proof.program_io.inputs@.len()
                <= proof.program_io.memory_layout.max_input_size as usize
            && proof.program_io.outputs@.len()
            <= proof.program_io.memory_layout.max_output_size as usize) ==> result == Err::<(), _>(
            ProofVerifyError::<P::Error>::ProgramIoTooLarge,
        ),
        run.bytecode.0 is Ok && run.lookups.0 is Ok
            && (proof.program_io.inputs@.len()
                <= proof.program_io.memory_layout.max_input_size as usize
            && proof.program_io.outputs@.len()
            <= proof.program_io.memory_layout.max_output_size as usize) ==> call_ensures(P::memory_verify, (
                    proof.read_write_memory,
                    &preprocessing.generators,
                    &(ReadWriteMemoryPreprocessing {
                        image: preprocessing.read_write_memory.image,
                        program_io: Some(proof.program_io),
                    }),
                    &commitments,
                    run.lookups.1,
                ), run.memory),
        run.bytecode.0 is Ok && run.lookups.0 is Ok
            && (proof.program_io.inputs@.len()
                <= proof.program_io.memory_layout.max_input_size as usize
            && proof.program_io.outputs@.len()
            <= proof.program_io.memory_layout.max_output_size as usize)
                && run.memory.0 is Err ==> result
            == Err::<(), _>(ProofVerifyError::Subprotocol(run.memory.0->Err_0)),
        run.bytecode.0 is Ok && run.lookups.0 is Ok
            && (proof.program_io.inputs@.len()
                <= proof.program_io.memory_layout.max_input_size as usize
            && proof.program_io.outputs@.len()
            <= proof.program_io.memory_layout.max_output_size as usize)
                && run.memory.0 is Ok ==> call_ensures(
                    P::r1cs_verify,
                    (proof.r1cs, &preprocessing.generators, commitments, C, run.memory.1),
                    run.r1cs,
                ),
        run.bytecode.0 is Ok && run.lookups.0 is Ok
            && (proof.program_io.inputs@.len()
                <= proof.program_io.memory_layout.max_input_size as usize
            && proof.program_io.outputs@.len()
            <= proof.program_io.memory_layout.max_output_size as usize) && run.memory.0 is Ok
            && run.r1cs.0 is Err ==> exists|text: String| #[trigger]
            call_ensures(P::r1cs_error_message, (&run.r1cs.0->Err_0,), text) && result == Err::<
                (),
                _,
            >(ProofVerifyError::<P::Error>::SpartanError(text)),
        result is Ok
            <==> run.bytecode.0 is Ok && run.lookups.0 is Ok
                && (proof.program_io.inputs@.len()
                    <= proof.program_io.memory_layout.max_input_size as usize
            && proof.program_io.outputs@.len()
            <= proof.program_io.memory_layout.max_output_size as usize) && run.memory.0 is Ok
            && run.r1cs.0 is Ok,
{
    let run = choose|run: VerifierRun<C, M, F, PCS, P>|
        {
            &&& #[trigger] is_verifier_run(preprocessing, proof, commitments, run)
            &&& is_verdict(proof.program_io, run, result)
        };
    opened_transcript_is_bound::<C, M, F, PCS, P>(
        proof.program_io,
        proof.trace_length,
        proof.r1cs.key.vk_digest,
        commitments,
        run.opened,
    );
    assert(with_program_io(preprocessing.read_write_memory, proof.program_io) == (
    ReadWriteMemoryPreprocessing {
        image: preprocessing.read_write_memory.image,
        program_io: Some(proof.program_io),
    }));
    run
}

/// The answer of a memory-checking or lookup argument is passed on: acceptance as
/// acceptance, an error as that error.
pub proof fn answers_are_passed_on<E>(
    answer: Result<(), E>,
    result: Result<(), ProofVerifyError<E>>,
)
    requires
        call_ensures(subprotocol_outcome::<E>, (answer,), result) || result == subprotocol_result(
            answer,
        ),
    ensures
        answer is Ok <==> result is Ok,
        answer matches Err(e) ==> result == Err::<(), _>(ProofVerifyError::Subprotocol(e)),
{
}

/// Filling in the interface of one execution replaces the stored one, and nothing else.
pub proof fn filling_in_replaces_the_interface<T>(
    preprocessing: ReadWriteMemoryPreprocessing<T>,
    program_io: JoltDevice,
)
    ensures
        with_program_io(preprocessing, program_io).image == preprocessing.image,
        with_program_io(preprocessing, program_io).program_io == Some(program_io),
{
}

/// The memory argument is asked against the given interface, and its answer is passed on.
pub proof fn memory_answer_is_passed_on<
    const C: usize,
    const M: usize,
    F: JoltField,
    PCS: CommitmentScheme<Field = F>,
    P: Subprotocols<F, PCS, C, M>,
>(
    preprocessing: ReadWriteMemoryPreprocessing<P::MemoryImage>,
    generators: PCS::Setup,
    proof: P::MemoryProof,
    commitments: JoltCommitments<PCS, P::R1CSCommitment>,
    program_io: JoltDevice,
    before: ProofTranscript<F>,
    after: ProofTranscript<F>,
    result: Result<(), ProofVerifyError<P::Error>>,
)
    requires
        is_memory_verified::<C, M, F, PCS, P>(
            preprocessing,
            generators,
            proof,
            commitments,
            program_io,
            before,
            after,
            result,
        ),
    ensures
        exists|answer: Result<(), P::Error>|
            {
                &&& #[trigger] call_ensures(
                    P::memory_verify,
                    (
                        proof,
                        &generators,
                        &(ReadWriteMemoryPreprocessing {
                            image: preprocessing.image,
                            program_io: Some(program_io),
                        }),
                        &commitments,
                        before,
                    ),
                    (answer, after),
                )
                &&& answer is Ok <==> result is Ok
                &&& answer matches Err(e) ==> result == Err::<(), _>(
                    ProofVerifyError::Subprotocol(e),
                )
            },
{
    assert(with_program_io(preprocessing, program_io) == (ReadWriteMemoryPreprocessing {
        image: preprocessing.image,
        program_io: Some(program_io),
    }));
}

/// The constraint system's answer is passed on: acceptance as acceptance, an error by its
/// message.
pub proof fn r1cs_answer_is_passed_on<
    const C: usize,
    const M: usize,
    F: JoltField,
    PCS: CommitmentScheme<Field = F>,
    P: Subprotocols<F, PCS, C, M>,
>(
    answer: Result<(), P::R1CSError>,
    result: Result<(), ProofVerifyError<P::Error>>,
)
    requires
        is_r1cs_result::<C, M, F, PCS, P>(answer, result),
    ensures
        answer is Ok <==> result is Ok,
        answer matches Err(e) ==> exists|text: String| #[trigger]
            call_ensures(P::r1cs_error_message, (&e,), text) && result == Err::<(), _>(
                ProofVerifyError::<P::Error>::SpartanError(text),
            ),
{
}

/// The polynomials of each part that are as long as the trace, in their order.
pub proof fn parts_list_their_polynomials<F>(
    polynomials: JoltPolynomials<F>,
    bytecode: Vec<&DensePolynomial<F>>,
    memory: Vec<&DensePolynomial<F>>,
    range_check: Vec<&DensePolynomial<F>>,
    lookups: Vec<&DensePolynomial<F>>,
)
    requires
        call_ensures(JoltPolynomials::<F>::bytecode_trace_polys, (&polynomials,), bytecode),
        call_ensures(JoltPolynomials::<F>::memory_trace_polys, (&polynomials,), memory),
        call_ensures(JoltPolynomials::<F>::range_check_polys, (&polynomials,), range_check),
        call_ensures(JoltPolynomials::<F>::instruction_trace_polys, (&polynomials,), lookups),
    ensures
        bytecode@.unref() == seq![
            polynomials.bytecode.a_read_write,
            polynomials.bytecode.t_read,
            polynomials.bytecode.v_read_write@[0],
            polynomials.bytecode.v_read_write@[1],
            polynomials.bytecode.v_read_write@[2],
            polynomials.bytecode.v_read_write@[3],
            polynomials.bytecode.v_read_write@[4],
        ],
        memory@.unref() == seq![polynomials.read_write_memory.a_ram]
            + polynomials.read_write_memory.v_read@ + seq![polynomials.read_write_memory.v_write_rd]
            + polynomials.read_write_memory.v_write_ram@ + polynomials.read_write_memory.t_read@
            + polynomials.read_write_memory.t_write_ram@,
        range_check@.unref() == polynomials.timestamp_range_check.read_cts_read_timestamp@
            + polynomials.timestamp_range_check.read_cts_global_minus_read@
            + polynomials.timestamp_range_check.final_cts_read_timestamp@
            + polynomials.timestamp_range_check.final_cts_global_minus_read@,
        lookups@.unref() == polynomials.instruction_lookups.dim@
            + polynomials.instruction_lookups.read_cts@ + polynomials.instruction_lookups.E_polys@
            + polynomials.instruction_lookups.instruction_flag_polys@ + seq![
            polynomials.instruction_lookups.lookup_outputs,
        ],
{
}

/// The polynomials of the trace are committed to in one batch: the bytecode's seven, then
/// those of memory, of the range check and of the lookups, each part in its own order.
/// The commitments that come back are cut at the same places. Committing fails exactly
/// where the batch comes back too short for the first three parts.
pub proof fn commitments_stand_for_their_polynomials<
    F: JoltField,
    PCS: CommitmentScheme<Field = F>,
    R,
>(
    polynomials: JoltPolynomials<F>,
    generators: PCS::Setup,
    result: Result<JoltCommitments<PCS, R>, MissingCommitments>,
)
    requires
        committed(polynomials, generators, result) || call_ensures(
            JoltPolynomials::<F>::commit::<PCS, R>,
            (&polynomials, &generators),
            result,
        ),
    ensures
        exists|batch: Vec<&DensePolynomial<F>>, trace: Vec<PCS::Commitment>|
            {
                let memory_end = 9 + polynomials.read_write_memory.v_read@.len()
                    + polynomials.read_write_memory.v_write_ram@.len()
                    + polynomials.read_write_memory.t_read@.len()
                    + polynomials.read_write_memory.t_write_ram@.len();
                let range_check_end = memory_end
                    + polynomials.timestamp_range_check.read_cts_read_timestamp@.len()
                    + polynomials.timestamp_range_check.read_cts_global_minus_read@.len()
                    + polynomials.timestamp_range_check.final_cts_read_timestamp@.len()
                    + polynomials.timestamp_range_check.final_cts_global_minus_read@.len();
                &&& batch@.unref() == seq![
                    polynomials.bytecode.a_read_write,
                    polynomials.bytecode.t_read,
                    polynomials.bytecode.v_read_write@[0],
                    polynomials.bytecode.v_read_write@[1],
                    polynomials.bytecode.v_read_write@[2],
                    polynomials.bytecode.v_read_write@[3],
                    polynomials.bytecode.v_read_write@[4],
                    polynomials.read_write_memory.a_ram,
                ] + polynomials.read_write_memory.v_read@ + seq![
                    polynomials.read_write_memory.v_write_rd,
                ]
                    + polynomials.read_write_memory.v_write_ram@
                    + polynomials.read_write_memory.t_read@
                    + polynomials.read_write_memory.t_write_ram@
                    + polynomials.timestamp_range_check.read_cts_read_timestamp@
                    + polynomials.timestamp_range_check.read_cts_global_minus_read@
                    + polynomials.timestamp_range_check.final_cts_read_timestamp@
                    + polynomials.timestamp_range_check.final_cts_global_minus_read@
                    + polynomials.instruction_lookups.dim@
                    + polynomials.instruction_lookups.read_cts@
                    + polynomials.instruction_lookups.E_polys@
                    + polynomials.instruction_lookups.instruction_flag_polys@ + seq![
                    polynomials.instruction_lookups.lookup_outputs,
                ]
                &&& #[trigger] call_ensures(
                    PCS::batch_commit_polys_ref,
                    (&batch, &generators, BatchType::Big),
                    trace,
                )
                &&& result is Err <==> trace@.len() < range_check_end
                &&& result matches Ok(c) ==> {
                    &&& c.bytecode.trace_commitments@ == trace@.subrange(0, 7)
                    &&& c.read_write_memory.trace_commitments@ == trace@.subrange(
                        7,
                        memory_end as int,
                    )
                    &&& c.timestamp_range_check.commitments@ == trace@.subrange(
                        memory_end as int,
                        range_check_end as int,
                    )
                    &&& c.instruction_lookups.trace_commitment@ == trace@.subrange(
                        range_check_end as int,
                        trace@.len() as int,
                    )
                }
            },
        result matches Ok(c) ==> {
            &&& call_ensures(
                PCS::commit,
                (&polynomials.bytecode.t_final, &generators),
                c.bytecode.t_final_commitment,
            )
            &&& call_ensures(
                PCS::commit,
                (&polynomials.read_write_memory.v_final, &generators),
                c.read_write_memory.v_final_commitment,
            )
            &&& call_ensures(
                PCS::commit,
                (&polynomials.read_write_memory.t_final, &generators),
                c.read_write_memory.t_final_commitment,
            )
            &&& call_ensures(
                PCS::batch_commit_polys,
                (&polynomials.instruction_lookups.final_cts, &generators, BatchType::Big),
                c.instruction_lookups.final_commitment,
            )
            &&& c.r1cs is None
        },
{
    assert(committed(polynomials, generators, result));
    let (batch, trace) = choose|batch: Vec<&DensePolynomial<F>>, trace: Vec<PCS::Commitment>|
        {
            &&& batch@.unref() == polynomials.all_trace()
            &&& #[trigger] call_ensures(
                PCS::batch_commit_polys_ref,
                (&batch, &generators, BatchType::Big),
                trace,
            )
            &&& match result {
                Ok(commitments) => commitments_from(polynomials, generators, trace@, commitments),
                Err(MissingCommitments) => trace@.len() < polynomials.all_trace().len()
                    - polynomials.instruction_trace().len(),
            }
        };
    assert(batch@.unref() =~= seq![
        polynomials.bytecode.a_read_write,
        polynomials.bytecode.t_read,
        polynomials.bytecode.v_read_write@[0],
        polynomials.bytecode.v_read_write@[1],
        polynomials.bytecode.v_read_write@[2],
        polynomials.bytecode.v_read_write@[3],
        polynomials.bytecode.v_read_write@[4],
        polynomials.read_write_memory.a_ram,
    ] + polynomials.read_write_memory.v_read@ + seq![polynomials.read_write_memory.v_write_rd]
        + polynomials.read_write_memory.v_write_ram@ + polynomials.read_write_memory.t_read@
        + polynomials.read_write_memory.t_write_ram@
        + polynomials.timestamp_range_check.read_cts_read_timestamp@
        + polynomials.timestamp_range_check.read_cts_global_minus_read@
        + polynomials.timestamp_range_check.final_cts_read_timestamp@
        + polynomials.timestamp_range_check.final_cts_global_minus_read@
        + polynomials.instruction_lookups.dim@
        + polynomials.instruction_lookups.read_cts@ + polynomials.instruction_lookups.E_polys@
        + polynomials.instruction_lookups.instruction_flag_polys@ + seq![
        polynomials.instruction_lookups.lookup_outputs,
    ]);
    assert(polynomials.bytecode_trace().len() == 7);
    assert(
        7 + polynomials.memory_trace().len()
            == 9 + polynomials.read_write_memory.v_read@.len()
            + polynomials.read_write_memory.v_write_ram@.len()
            + polynomials.read_write_memory.t_read@.len()
            + polynomials.read_write_memory.t_write_ram@.len()
    );
}

/// Each final polynomial is committed to in its own field: memory's values, memory's
/// timestamps, the bytecode's timestamps and the lookups' counters.
pub proof fn final_commitments_are_to_their_own_polynomials<
    F: JoltField,
    PCS: CommitmentScheme<Field = F>,
    R,
>(
    polynomials: JoltPolynomials<F>,
    generators: PCS::Setup,
    commitments: JoltCommitments<PCS, R>,
)
    requires
        call_ensures(
            JoltPolynomials::<F>::commit::<PCS, R>,
            (&polynomials, &generators),
            Ok::<JoltCommitments<PCS, R>, MissingCommitments>(commitments),
        ),
    ensures
        call_ensures(
            PCS::commit,
            (&polynomials.bytecode.t_final, &generators),
            commitments.bytecode.t_final_commitment,
        ),
        call_ensures(
            PCS::commit,
            (&polynomials.read_write_memory.v_final, &generators),
            commitments.read_write_memory.v_final_commitment,
        ),
        call_ensures(
            PCS::commit,
            (&polynomials.read_write_memory.t_final, &generators),
            commitments.read_write_memory.t_final_commitment,
        ),
        call_ensures(
            PCS::batch_commit_polys,
            (&polynomials.instruction_lookups.final_cts, &generators, BatchType::Big),
            commitments.instruction_lookups.final_commitment,
        ),
        commitments.r1cs is None,
{
}

/// Cutting a batch of commitments loses and moves none: the four parts are the batch, and
/// the first three have the lengths asked for. There are no parts exactly where the batch
/// is too short for the first three.
pub proof fn cutting_a_batch_keeps_it<T>(
    commitments: Vec<T>,
    bytecode: usize,
    memory: usize,
    range_check: usize,
    parts: Option<(Vec<T>, Vec<T>, Vec<T>, Vec<T>)>,
)
    requires
        call_ensures(
            split_trace_commitments::<T>,
            (commitments, bytecode, memory, range_check),
            parts,
        ),
    ensures
        parts is None <==> commitments@.len() < bytecode + memory + range_check,
        parts matches Some(p) ==> {
            &&& p.0@ + p.1@ + p.2@ + p.3@ == commitments@
            &&& p.0@.len() == bytecode
            &&& p.1@.len() == memory
            &&& p.2@.len() == range_check
        },
{
    if let Some(p) = parts {
        assert(p.0@ + p.1@ + p.2@ + p.3@ =~= commitments@);
    }
}

/// The rows of a program are as many as its instructions, and row `i` is that of
/// instruction `i`.
pub proof fn every_instruction_has_its_row<
    const C: usize,
    const M: usize,
    F: JoltField,
    PCS: CommitmentScheme<Field = F>,
    P: Subprotocols<F, PCS, C, M>,
>(
    bytecode: Vec<P::ELFInstruction>,
    rows: Vec<P::BytecodeRow>,
)
    requires
        call_ensures(bytecode_rows::<C, M, F, PCS, P>, (&bytecode,), rows),
    ensures
        rows@.len() == bytecode@.len(),
        forall|i: int|
            0 <= i < bytecode@.len() ==> call_ensures(
                P::bytecode_row,
                (&bytecode@[i],),
                #[trigger] rows@[i],
            ),
{
}

/// The whole program is preprocessed: the rows given to the bytecode's preprocessing are
/// as many as the instructions, and row `i` is that of instruction `i`. Memory is
/// preprocessed from its image, and the setup is made for the shapes of bytecode, memory,
/// timestamps and lookups, in this order, each for its own sizes.
pub proof fn preprocessing_covers_the_program<
    const C: usize,
    const M: usize,
    F: JoltField,
    PCS: CommitmentScheme<Field = F>,
    P: Jolt<F, PCS, C, M>,
>(
    bytecode: Vec<P::ELFInstruction>,
    memory_init: Vec<(u64, u8)>,
    max_bytecode_size: usize,
    max_memory_address: usize,
    max_trace_length: usize,
    preprocessing: JoltPreprocessing<C, M, F, PCS, P>,
)
    requires
        call_ensures(
            P::preprocess,
            (bytecode, memory_init, max_bytecode_size, max_memory_address, max_trace_length),
            preprocessing,
        ),
    ensures
        exists|rows: Vec<P::BytecodeRow>|
            {
                &&& rows@.len() == bytecode@.len()
                &&& forall|i: int|
                    0 <= i < bytecode@.len() ==> call_ensures(
                        P::bytecode_row,
                        (&bytecode@[i],),
                        #[trigger] rows@[i],
                    )
                &&& #[trigger] call_ensures(P::bytecode_preprocess, (rows,), preprocessing.bytecode)
            },
        call_ensures(P::memory_preprocess, (memory_init,), preprocessing.read_write_memory),
        call_ensures(P::lookups_preprocess, (), preprocessing.instruction_lookups),
        exists|
            bytecode_shapes: Vec<PCS::Shape>,
            memory_shapes: Vec<PCS::Shape>,
            timestamp_shapes: Vec<PCS::Shape>,
            lookups_shapes: Vec<PCS::Shape>,
            shapes: Vec<PCS::Shape>,
        |
            {
                &&& #[trigger] call_ensures(
                    P::bytecode_commit_shapes,
                    (max_bytecode_size, max_trace_length),
                    bytecode_shapes,
                )
                &&& #[trigger] call_ensures(
                    P::memory_commit_shapes,
                    (max_memory_address, max_trace_length),
                    memory_shapes,
                )
                &&& #[trigger] call_ensures(
                    P::timestamp_commit_shapes,
                    (max_trace_length,),
                    timestamp_shapes,
                )
                &&& #[trigger] call_ensures(
                    P::lookups_commit_shapes,
                    (&preprocessing.instruction_lookups, max_trace_length),
                    lookups_shapes,
                )
                &&& shapes@
                    == bytecode_shapes@ + memory_shapes@ + timestamp_shapes@ + lookups_shapes@
                &&& #[trigger] call_ensures(PCS::setup, (&shapes,), preprocessing.generators)
            },
{
    let rows = choose|rows: Vec<P::BytecodeRow>|
        {
            &&& are_bytecode_rows::<C, M, F, PCS, P>(bytecode@, rows@)
            &&& #[trigger] call_ensures(P::bytecode_preprocess, (rows,), preprocessing.bytecode)
        };
    assert(rows@.len() == bytecode@.len());
    assert(are_generators::<C, M, F, PCS, P>(
        preprocessing.instruction_lookups,
        max_bytecode_size,
        max_memory_address,
        max_trace_length,
        preprocessing.generators,
    ));
}

/// A polynomial gives back the evaluations that it was made of.
pub proof fn polynomial_keeps_its_evaluations<F: Copy>(
    given: Vec<F>,
    poly: DensePolynomial<F>,
    len: usize,
    evals: Vec<F>,
    evals_ref: &Vec<F>,
)
    requires
        call_ensures(DensePolynomial::<F>::new, (given,), poly),
        call_ensures(DensePolynomial::<F>::len, (&poly,), len),
        call_ensures(DensePolynomial::<F>::evals, (&poly,), evals),
        call_ensures(DensePolynomial::<F>::evals_ref, (&poly,), evals_ref),
    ensures
        poly@ == given@,
        len == given@.len(),
        evals@ == given@,
        evals_ref@ == given@,
{
}

/// Flattening puts the evaluations of all polynomials one behind the other.
pub proof fn flattening_joins_all<F: Copy>(polys: Vec<DensePolynomial<F>>, flat: Vec<F>)
    requires
        call_ensures(DensePolynomial::<F>::flatten, (&polys,), flat),
    ensures
        flat@ == Seq::new(polys@.len(), |c: int| polys@[c]@).flatten(),
{
    lemma_flat_evals_joins(polys@);
}

proof fn lemma_flat_evals_joins<F>(polys: Seq<DensePolynomial<F>>)
    ensures
        flat_evals(polys) == Seq::new(polys.len(), |c: int| polys[c]@).flatten(),
{
    assert(polys.map_values(|p: DensePolynomial<F>| p@) =~= Seq::new(
        polys.len(),
        |c: int| polys[c]@,
    ));
}

/// A query is the evaluations of the first `count` polynomials, one behind the other. It
/// is missing exactly where there is no polynomial, or fewer than `count`, or where the
/// evaluations are too many for one vector.
pub proof fn query_joins_the_first<F: JoltField>(
    dim: Vec<DensePolynomial<F>>,
    count: usize,
    query: Option<Vec<F>>,
)
    requires
        call_ensures(flatten_query::<F>, (&dim, count), query),
    ensures
        query is None <==> dim@.len() == 0 || dim@.len() < count || Seq::new(
            count as nat,
            |c: int| dim@[c]@,
        ).flatten().len() > usize::MAX,
        query matches Some(flat) ==> flat@ == Seq::new(count as nat, |c: int| dim@[c]@).flatten(),
{
    if count <= dim@.len() {
        lemma_flat_evals_joins(dim@.take(count as int));
        assert(Seq::new(dim@.take(count as int).len(), |c: int| dim@.take(count as int)[c]@)
            =~= Seq::new(count as nat, |c: int| dim@[c]@));
    }
}

/// An exponent that is least has all powers below it short of the number.
pub proof fn least_exponent_is_least(x: nat, k: nat)
    requires
        is_ceil_log2(x, k),
    ensures
        x <= pow2(k),
        forall|j: nat| j < k ==> #[trigger] pow2(j) < x,
{
    assert forall|j: nat| j < k implies #[trigger] pow2(j) < x by {
        if j < k - 1 {
            lemma_pow2_strictly_increases(j, (k - 1) as nat);
        }
    }
}

/// The padded length is a power of two that holds the trace, and no smaller power does.
pub proof fn padded_length_is_the_least_power(n: nat)
    ensures
        exists|k: nat| padded_length(n) == #[trigger] pow2(k),
        n <= padded_length(n),
        forall|j: nat| n <= #[trigger] pow2(j) ==> padded_length(n) <= pow2(j),
{
    padded_length_is_least(n);
    let k = choose|k: nat| padded_length(n) == pow2(k) && #[trigger] is_ceil_log2(n, k);
    least_exponent_is_least(n, k);
    assert forall|j: nat| n <= #[trigger] pow2(j) implies padded_length(n) <= pow2(j) by {
        if k < j {
            lemma_pow2_strictly_increases(k, j);
        }
    }
}

proof fn lemma_ceil_log2_fits(x: usize)
    ensures
        is_ceil_log2(x as nat, ceil_log2(x as nat)),
        ceil_log2(x as nat) <= usize::MAX,
{
    padded_length_is_least(x as nat);
    let k = choose|k: nat|
        padded_length(x as nat) == pow2(k) && #[trigger] is_ceil_log2(x as nat, k);
    lemma_ceil_log2_is(x as nat, k);
    if k > 0 {
        lemma_pow2_reaches((k - 1) as nat);
    }
}

/// An entry fits where its place is inside the table, and where an entry does not fit,
/// its place is outside.
pub proof fn entries_fit_by_their_places<T>(
    rows: Seq<Seq<T>>,
    stride: int,
    len: int,
    i: int,
    k: int,
)
    ensures
        entries_fit(rows, stride, len) && 0 <= i < rows.len() && 0 <= k < rows[i].len() ==> i + k
            * stride < len,
        !entries_fit(rows, stride, len) ==> exists|j: int, l: int|
            #![trigger is_entry(rows, j, l)]
            0 <= j < rows.len() && 0 <= l < rows[j].len() && j + l * stride >= len,
{
    if entries_fit(rows, stride, len) && 0 <= i < rows.len() && 0 <= k < rows[i].len() {
        assert(is_entry(rows, i, k));
        assert(position(stride, i, k) < len);
    }
    if !entries_fit(rows, stride, len) {
        let (j, l) = choose|j: int, l: int| #[trigger]
            is_entry(rows, j, l) && position(stride, j, l) >= len;
        assert(is_entry(rows, j, l));
    }
}

/// A scattered table holds entry `k` of row `i` at `i + k * stride`, unless a later row has
/// an entry at the same place, and zero at every place `p` where no row has an entry.
pub proof fn scattered_table_holds_its_rows<T>(
    rows: Seq<Seq<T>>,
    zero: T,
    stride: int,
    table: Seq<T>,
    i: int,
    k: int,
    p: int,
)
    requires
        is_scattered(rows, zero, stride, table),
    ensures
        0 <= i < rows.len() && 0 <= k < rows[i].len() && (forall|j: int, l: int|
            #![trigger is_entry(rows, j, l)]
            i < j < rows.len() && 0 <= l < rows[j].len() ==> j + l * stride != i + k * stride)
            ==> table[i + k * stride] == rows[i][k],
        0 <= p < table.len() && (forall|j: int, l: int|
            #![trigger is_entry(rows, j, l)]
            0 <= j < rows.len() && 0 <= l < rows[j].len() ==> j + l * stride != p) ==> table[p]
            == zero,
{
    lemma_scattered_entry(rows, zero, stride, table, i, k);
    lemma_scattered_gap(rows, zero, stride, table, p);
}

/// Either entry `k` of row `i` is in its place, or there is a later entry at that place.
proof fn lemma_scattered_entry<T>(
    rows: Seq<Seq<T>>,
    zero: T,
    stride: int,
    table: Seq<T>,
    i: int,
    k: int,
)
    requires
        is_scattered(rows, zero, stride, table),
    ensures
        0 <= i < rows.len() && 0 <= k < rows[i].len()
            ==> table[i + k * stride] == rows[i][k] || exists|
            j: int,
            l: int,
        | #[trigger]
            is_entry(rows, j, l) && i < j && j + l * stride == i + k * stride,
{
    if 0 <= i < rows.len() && 0 <= k < rows[i].len() {
        assert(is_entry(rows, i, k));
        if is_overwritten(rows, stride, i, k) {
            let (j, l) = choose|j: int, l: int|
                i < j && #[trigger] is_entry(rows, j, l) && position(stride, j, l) == position(
                    stride,
                    i,
                    k,
                );
            assert(is_entry(rows, j, l));
        } else {
            assert(table[position(stride, i, k)] == rows[i][k]);
        }
    }
}

/// Either place `p` holds zero, or there is an entry at that place.
proof fn lemma_scattered_gap<T>(rows: Seq<Seq<T>>, zero: T, stride: int, table: Seq<T>, p: int)
    requires
        is_scattered(rows, zero, stride, table),
    ensures
        0 <= p < table.len() ==> table[p] == zero || exists|j: int, l: int| #[trigger]
            is_entry(rows, j, l) && j + l * stride == p,
{
    if 0 <= p < table.len() && is_written(rows, stride, p) {
        let (j, l) = choose|j: int, l: int| #[trigger]
            is_entry(rows, j, l) && position(stride, j, l) == p;
        assert(is_entry(rows, j, l));
    }
}

/// Scattering puts entry `k` of row `i` at `i + k * stride`, unless a later row has an entry
/// there, and leaves zero at every place `p` where no row has one. It fails exactly where an
/// entry has its place outside the table.
pub proof fn scattering_puts_entries_in_place<T: Copy>(
    rows: Vec<Vec<T>>,
    zero: T,
    stride: usize,
    num_chunks: usize,
    table: Option<Vec<T>>,
    i: int,
    k: int,
    p: int,
)
    requires
        stride * num_chunks <= usize::MAX,
        call_ensures(scatter_chunks::<T>, (&rows, zero, stride, num_chunks), table),
    ensures
        table is None ==> exists|j: int, l: int|
            #![trigger is_entry(contents(rows@), j, l)]
            0 <= j < rows@.len() && 0 <= l < rows@[j]@.len()
                && j + l * stride >= stride * num_chunks,
        table matches Some(t) ==> {
            &&& t@.len() == stride * num_chunks
            &&& 0 <= i < rows@.len() && 0 <= k < rows@[i]@.len() ==> i + k * stride < stride
                * num_chunks
            &&& 0 <= i < rows@.len() && 0 <= k < rows@[i]@.len() && (forall|j: int, l: int|
                #![trigger is_entry(contents(rows@), j, l)]
                i < j < rows@.len() && 0 <= l < rows@[j]@.len()
                    ==> j + l * stride != i + k * stride)
                ==> t@[i + k * stride] == rows@[i]@[k]
            &&& 0 <= p < t@.len() && (forall|j: int, l: int|
                #![trigger is_entry(contents(rows@), j, l)]
                0 <= j < rows@.len() && 0 <= l < rows@[j]@.len() ==> j + l * stride != p) ==> t@[p]
                == zero
        },
{
    let all = contents(rows@);
    assert forall|j: int, l: int| #[trigger]
        is_entry(all, j, l) == (0 <= j < rows@.len() && 0 <= l < rows@[j]@.len()) by {
    }
    if let Some(t) = table {
        assert(0 <= i < rows@.len() ==> all[i] == rows@[i]@);
        entries_fit_by_their_places(all, stride as int, stride * num_chunks, i, k);
        lemma_scattered_entry(all, zero, stride as int, t@, i, k);
        lemma_scattered_gap(all, zero, stride as int, t@, p);
    } else {
        let (j, l) = choose|j: int, l: int| #[trigger]
            is_entry(all, j, l) && position(stride as int, j, l) >= stride * num_chunks;
        assert(is_entry(contents(rows@), j, l));
    }
}

/// Chunks are lifted into the field pair by pair, each operand into its own row. Lifting
/// fails exactly where the field has no element for a value of some pair.
pub proof fn lifting_keeps_operands_apart<F: JoltField>(
    xs: Vec<u64>,
    ys: Vec<u64>,
    rows: Option<(Vec<F>, Vec<F>)>,
)
    requires
        call_ensures(lift_chunks::<F>, (&xs, &ys), rows),
    ensures
        match rows {
            Some((row_x, row_y)) => {
                &&& row_x@.len() == row_y@.len()
                &&& row_x@.len() == if xs@.len() <= ys@.len() { xs@.len() } else { ys@.len() }
                &&& forall|k: int|
                    #![trigger row_x@[k]]
                    #![trigger row_y@[k]]
                    0 <= k < row_x@.len() ==> {
                        &&& call_ensures(F::from_u64, (xs@[k],), Some(row_x@[k]))
                        &&& call_ensures(F::from_u64, (ys@[k],), Some(row_y@[k]))
                    }
            },
            None => exists|k: int|
                {
                    &&& 0 <= k < xs@.len()
                    &&& k < ys@.len()
                    &&& call_ensures(F::from_u64, (#[trigger] xs@[k],), None::<F>) || call_ensures(
                        F::from_u64,
                        (ys@[k],),
                        None::<F>,
                    )
                },
        },
{
    if rows is None {
        lemma_not_liftable_pair::<F>(xs@, ys@);
    }
}

proof fn lemma_not_liftable_pair<F: JoltField>(xs: Seq<u64>, ys: Seq<u64>) -> (k: int)
    requires
        is_not_liftable::<F>(xs, ys),
    ensures
        0 <= k < xs.len(),
        k < ys.len(),
        call_ensures(F::from_u64, (xs[k],), None::<F>) || call_ensures(
            F::from_u64,
            (ys[k],),
            None::<F>,
        ),
{
    let n = pair_count(xs, ys);
    if exists|k: int| 0 <= k < n && #[trigger] call_ensures(F::from_u64, (xs[k],), None::<F>) {
        choose|k: int| 0 <= k < n && #[trigger] call_ensures(F::from_u64, (xs[k],), None::<F>)
    } else {
        choose|k: int| 0 <= k < n && #[trigger] call_ensures(F::from_u64, (ys[k],), None::<F>)
    }
}

/// Every cycle has a row for either operand: the field elements of its instruction's
/// chunks, or `c` zeros where it has no instruction. There are no rows exactly where the
/// field lacks a value of some pair of chunks.
pub proof fn every_cycle_has_its_rows<F: JoltField, I: JoltInstruction>(
    instructions: &[Option<I>],
    zero: F,
    c: usize,
    log_m: usize,
    rows: Option<(Vec<Vec<F>>, Vec<Vec<F>>)>,
    i: int,
)
    requires
        call_ensures(operand_rows::<F, I>, (instructions, zero, c, log_m), rows),
    ensures
        rows is None ==> exists|i: int, k: int, op: I, chunks: (Vec<u64>, Vec<u64>)|
            {
                &&& 0 <= i < instructions@.len()
                &&& #[trigger] instructions@[i] == Some(op)
                &&& #[trigger] call_ensures(I::operand_chunks, (&op, c, log_m), chunks)
                &&& 0 <= k < chunks.0@.len()
                &&& k < chunks.1@.len()
                &&& call_ensures(F::from_u64, (#[trigger] chunks.0@[k],), None::<F>)
                    || call_ensures(F::from_u64, (chunks.1@[k],), None::<F>)
            },
        rows matches Some((rows_x, rows_y)) ==> {
            &&& rows_x@.len() == instructions@.len()
            &&& rows_y@.len() == instructions@.len()
            &&& 0 <= i < instructions@.len() ==> match instructions@[i] {
                Some(op) => exists|chunks: (Vec<u64>, Vec<u64>)|
                    {
                        &&& #[trigger] call_ensures(I::operand_chunks, (&op, c, log_m), chunks)
                        &&& rows_x@[i]@.len() == rows_y@[i]@.len()
                        &&& rows_x@[i]@.len()
                            == if chunks.0@.len()
                                <= chunks.1@.len() { chunks.0@.len() } else { chunks.1@.len() }
                        &&& forall|k: int|
                            #![trigger rows_x@[i]@[k]]
                            #![trigger rows_y@[i]@[k]]
                            0 <= k < rows_x@[i]@.len() ==> {
                                &&& call_ensures(F::from_u64, (chunks.0@[k],), Some(rows_x@[i]@[k]))
                                &&& call_ensures(F::from_u64, (chunks.1@[k],), Some(rows_y@[i]@[k]))
                            }
                    },
                None => {
                    &&& rows_x@[i]@.len() == c
                    &&& rows_y@[i]@.len() == c
                    &&& forall|k: int|
                        #![trigger rows_x@[i]@[k]]
                        #![trigger rows_y@[i]@[k]]
                        0 <= k < c ==> rows_x@[i]@[k] == zero && rows_y@[i]@[k] == zero
                },
            }
        },
{
    match rows {
        Some((rows_x, rows_y)) => {
            let all_x = contents(rows_x@);
            let all_y = contents(rows_y@);
            assert(all_x.len() == rows_x@.len() && all_y.len() == rows_y@.len());
            if 0 <= i < instructions@.len() {
                assert(all_x[i] == rows_x@[i]@ && all_y[i] == rows_y@[i]@);
                operand_row_is_of_its_instruction(
                    instructions@[i],
                    zero,
                    c,
                    log_m,
                    all_x[i],
                    all_y[i],
                );
            }
        },
        None => {
            missing_element_is_of_a_chunk::<F, I>(instructions@, c, log_m);
        },
    }
}

/// The operand rows of a cycle hold the field elements of its instruction's chunks, pair by
/// pair, or `c` zeros where it has no instruction.
pub proof fn operand_row_is_of_its_instruction<F: JoltField, I: JoltInstruction>(
    instruction: Option<I>,
    zero: F,
    c: usize,
    log_m: usize,
    row_x: Seq<F>,
    row_y: Seq<F>,
)
    requires
        is_operand_row(instruction, zero, c, log_m, row_x, row_y),
    ensures
        match instruction {
            Some(op) => exists|chunks: (Vec<u64>, Vec<u64>)|
                {
                    &&& #[trigger] call_ensures(I::operand_chunks, (&op, c, log_m), chunks)
                    &&& row_x.len() == row_y.len()
                    &&& row_x.len()
                        == if chunks.0@.len()
                            <= chunks.1@.len() { chunks.0@.len() } else { chunks.1@.len() }
                    &&& forall|k: int|
                        #![trigger row_x[k]]
                        #![trigger row_y[k]]
                        0 <= k < row_x.len() ==> {
                            &&& call_ensures(F::from_u64, (chunks.0@[k],), Some(row_x[k]))
                            &&& call_ensures(F::from_u64, (chunks.1@[k],), Some(row_y[k]))
                        }
                },
            None => {
                &&& row_x.len() == c
                &&& row_y.len() == c
                &&& forall|k: int|
                    #![trigger row_x[k]]
                    #![trigger row_y[k]]
                    0 <= k < c ==> row_x[k] == zero && row_y[k] == zero
            },
        },
{
    if let Some(op) = instruction {
        let chunks = choose|chunks: (Vec<u64>, Vec<u64>)| #[trigger]
            call_ensures(I::operand_chunks, (&op, c, log_m), chunks) && is_lifted(
                chunks.0@,
                chunks.1@,
                row_x,
                row_y,
            );
        assert(call_ensures(I::operand_chunks, (&op, c, log_m), chunks));
    }
}

/// Where a chunk is outside the field, it belongs to a pair of chunks of some instruction.
pub proof fn missing_element_is_of_a_chunk<F: JoltField, I: JoltInstruction>(
    instructions: Seq<Option<I>>,
    c: usize,
    log_m: usize,
)
    requires
        has_chunk_outside_field::<F, I>(instructions, c, log_m),
    ensures
        exists|i: int, k: int, op: I, chunks: (Vec<u64>, Vec<u64>)|
            {
                &&& 0 <= i < instructions.len()
                &&& #[trigger] instructions[i] == Some(op)
                &&& #[trigger] call_ensures(I::operand_chunks, (&op, c, log_m), chunks)
                &&& 0 <= k < chunks.0@.len()
                &&& k < chunks.1@.len()
                &&& call_ensures(F::from_u64, (#[trigger] chunks.0@[k],), None::<F>)
                    || call_ensures(F::from_u64, (chunks.1@[k],), None::<F>)
            },
{
    let (i, op, chunks) = choose|i: int, op: I, chunks: (Vec<u64>, Vec<u64>)|
        {
            &&& 0 <= i < instructions.len()
            &&& #[trigger] instructions[i] == Some(op)
            &&& #[trigger] call_ensures(I::operand_chunks, (&op, c, log_m), chunks)
            &&& is_not_liftable::<F>(chunks.0@, chunks.1@)
        };
    let k = lemma_not_liftable_pair::<F>(chunks.0@, chunks.1@);
    assert(instructions[i] == Some(op));
    assert(chunks.0@[k] == chunks.0@[k]);
}

/// The values that one setup of the constraint system works on: the length of a chunk, the
/// field's zero, for every cycle its chunks and the rows that they give, and the inputs
/// that the constraint system is given.
#[verifier::reject_recursive_types(F)]
pub struct SetupValues<F> {
    pub log_m: usize,
    pub zero: F,
    pub chunks: Seq<(Vec<u64>, Vec<u64>)>,
    pub rows_x: Seq<Seq<F>>,
    pub rows_y: Seq<Seq<F>>,
    pub inputs: R1CSInputs<F>,
}

/// The setup takes the operands of every cycle apart into chunks of `log2(M)` bits, lifts
/// them into the field, scatters each operand into a table of its own, adds the other
/// columns, and passes on what the constraint system answers. Each error comes only for
/// its own reason.
pub proof fn setup_assembles_the_witness<
    const C: usize,
    const M: usize,
    F: JoltField,
    PCS: CommitmentScheme<Field = F>,
    P: Subprotocols<F, PCS, C, M>,
>(
    padded_trace_length: usize,
    memory_start: u64,
    instructions: Seq<Option<P::InstructionSet>>,
    polynomials: JoltPolynomials<F>,
    circuit_flags: Seq<F>,
    generators: PCS::Setup,
    result: Result<
        (UniformSpartanKey<F, P::R1CSConstraints>, Vec<Vec<F>>, P::R1CSCommitment),
        R1CSSetupError<P::R1CSError>,
    >,
) -> (values: SetupValues<F>)
    requires
        is_r1cs_setup::<C, M, F, PCS, P>(
            padded_trace_length,
            memory_start,
            instructions,
            polynomials,
            circuit_flags,
            generators,
            result,
        ),
    ensures
        M <= pow2(values.log_m as nat),
        values.log_m > 0 ==> pow2((values.log_m - 1) as nat) < M,
        (result matches Err(R1CSSetupError::ChunkOutsideField)) ==> exists|
            i: int,
            k: int,
            op: P::InstructionSet,
            chunks: (Vec<u64>, Vec<u64>),
        |
            {
                &&& 0 <= i < instructions.len()
                &&& #[trigger] instructions[i] == Some(op)
                &&& #[trigger] call_ensures(
                    P::InstructionSet::operand_chunks,
                    (&op, C, values.log_m),
                    chunks,
                )
                &&& 0 <= k < chunks.0@.len()
                &&& k < chunks.1@.len()
                &&& call_ensures(F::from_u64, (#[trigger] chunks.0@[k],), None::<F>)
                    || call_ensures(F::from_u64, (chunks.1@[k],), None::<F>)
            },
        !(result matches Err(R1CSSetupError::ChunkOutsideField)) ==> {
            &&& call_ensures(F::zero, (), values.zero)
            &&& values.rows_x.len() == instructions.len()
            &&& values.rows_y.len() == instructions.len()
            &&& forall|i: int|
                #![trigger values.chunks[i]]
                #![trigger instructions[i]]
                0 <= i < instructions.len() && instructions[i] is Some ==> call_ensures(
                    P::InstructionSet::operand_chunks,
                    (&instructions[i]->0, C, values.log_m),
                    values.chunks[i],
                )
            &&& forall|i: int|
                #![trigger values.rows_x[i]]
                #![trigger values.rows_y[i]]
                0 <= i < instructions.len() && instructions[i] is Some ==> {
                    &&& values.rows_x[i].len() == values.rows_y[i].len()
                    &&& values.rows_x[i].len()
                        == if values.chunks[i].0@.len() <= values.chunks[i].1@.len() {
                        values.chunks[i].0@.len()
                    } else {
                        values.chunks[i].1@.len()
                    }
                }
            &&& forall|i: int, k: int|
                #![trigger values.rows_x[i][k]]
                #![trigger values.rows_y[i][k]]
                0 <= i < instructions.len() && instructions[i] is Some
                    && 0 <= k < values.rows_x[i].len() ==> {
                    &&& call_ensures(
                        F::from_u64,
                        (values.chunks[i].0@[k],),
                        Some(values.rows_x[i][k]),
                    )
                    &&& call_ensures(
                        F::from_u64,
                        (values.chunks[i].1@[k],),
                        Some(values.rows_y[i][k]),
                    )
                }
            &&& forall|i: int|
                #![trigger values.rows_x[i]]
                #![trigger values.rows_y[i]]
                0 <= i < instructions.len() && instructions[i] is None ==> {
                    &&& values.rows_x[i] == Seq::new(C as nat, |k: int| values.zero)
                    &&& values.rows_y[i] == Seq::new(C as nat, |k: int| values.zero)
                }
        },
        (result matches Err(R1CSSetupError::ChunkOutsideTrace))
            <==> !(result matches Err(R1CSSetupError::ChunkOutsideField))
                && !(entries_fit(values.rows_x, padded_trace_length as int, padded_trace_length * C)
            && entries_fit(values.rows_y, padded_trace_length as int, padded_trace_length * C)),
        (result matches Err(R1CSSetupError::UnsuitableQueryPolynomials))
            ==> polynomials.instruction_lookups.dim@.len() == 0
            || polynomials.instruction_lookups.dim@.len() < C
            || Seq::new(C as nat, |c: int| polynomials.instruction_lookups.dim@[c]@).flatten().len() > usize::MAX,
        !(result matches Err(R1CSSetupError::ChunkOutsideField))
            && !(result matches Err(R1CSSetupError::ChunkOutsideTrace))
            && !(result matches Err(R1CSSetupError::UnsuitableQueryPolynomials)) ==> {
            &&& result matches Ok(setup) ==> call_ensures(
                P::r1cs_compute_witness_commit,
                (32usize, C, padded_trace_length, memory_start, &values.inputs, &generators),
                Ok::<_, P::R1CSError>(setup),
            )
            &&& result matches Err(R1CSSetupError::Setup(e)) ==> call_ensures(
                P::r1cs_compute_witness_commit,
                (32usize, C, padded_trace_length, memory_start, &values.inputs, &generators),
                Err::<(UniformSpartanKey<F, P::R1CSConstraints>, Vec<Vec<F>>, P::R1CSCommitment), _>(e),
            )
            &&& 0 < polynomials.instruction_lookups.dim@.len()
            &&& C <= polynomials.instruction_lookups.dim@.len()
            &&& values.inputs.padded_trace_len == padded_trace_length
            &&& call_ensures(
                P::bytecode_r1cs_polys,
                (&polynomials.bytecode,),
                (values.inputs.bytecode_a, values.inputs.bytecode_v),
            )
            &&& call_ensures(
                P::memory_r1cs_polys,
                (&polynomials.read_write_memory,),
                (
                    values.inputs.memreg_a_rw,
                    values.inputs.memreg_v_reads,
                    values.inputs.memreg_v_writes,
                ),
            )
            &&& values.inputs.chunks_query@
                == Seq::new(C as nat, |c: int| polynomials.instruction_lookups.dim@[c]@).flatten()
            &&& values.inputs.lookup_outputs@ == polynomials.instruction_lookups.lookup_outputs@
            &&& values.inputs.circuit_flags@ == circuit_flags
            &&& values.inputs.instruction_flags@
                == Seq::new(polynomials.instruction_lookups.instruction_flag_polys@.len(), |c: int| polynomials.instruction_lookups.instruction_flag_polys@[c]@).flatten()
            &&& values.inputs.chunks_x@.len() == padded_trace_length * C
            &&& values.inputs.chunks_y@.len() == padded_trace_length * C
            &&& is_scattered(
                values.rows_x,
                values.zero,
                padded_trace_length as int,
                values.inputs.chunks_x@,
            )
            &&& is_scattered(
                values.rows_y,
                values.zero,
                padded_trace_length as int,
                values.inputs.chunks_y@,
            )
        },
{
    let log_m = ceil_log2(M as nat) as usize;
    let stride = padded_trace_length as int;
    let dim = polynomials.instruction_lookups.dim@;
    lemma_ceil_log2_fits(M);
    if C <= dim.len() {
        lemma_flat_evals_joins(dim.take(C as int));
        assert(Seq::new(dim.take(C as int).len(), |c: int| dim.take(C as int)[c]@) =~= Seq::new(
            C as nat,
            |c: int| dim[c]@,
        ));
    }
    lemma_flat_evals_joins(polynomials.instruction_lookups.instruction_flag_polys@);
    let mut values: SetupValues<F> = arbitrary();
    values.log_m = log_m;
    match result {
        Err(R1CSSetupError::ChunkOutsideField) => {
            missing_element_is_of_a_chunk::<F, P::InstructionSet>(instructions, C, log_m);
        },
        Err(R1CSSetupError::ChunkOutsideTrace) => {
            let (zero, rows_x, rows_y) = choose|zero: F, rows_x: Seq<Seq<F>>, rows_y: Seq<Seq<F>>|
                {
                    &&& #[trigger] are_trace_rows::<C, M, F, PCS, P>(
                        instructions,
                        zero,
                        rows_x,
                        rows_y,
                    )
                    &&& !(
                        entries_fit(rows_x, stride, stride * C) && entries_fit(
                            rows_y,
                            stride,
                            stride * C,
                        )
                    )
                };
            values.zero = zero;
            values.rows_x = rows_x;
            values.rows_y = rows_y;
        },
        Err(R1CSSetupError::UnsuitableQueryPolynomials) => {
            let (chunks_x, chunks_y) = choose|chunks_x: Seq<F>, chunks_y: Seq<F>| #[trigger]
                are_chunk_tables::<C, M, F, PCS, P>(
                    padded_trace_length,
                    instructions,
                    chunks_x,
                    chunks_y,
                );
            let (zero, rows_x, rows_y) = lemma_chunk_tables_have_rows::<C, M, F, PCS, P>(
                padded_trace_length,
                instructions,
                chunks_x,
                chunks_y,
            );
            values.zero = zero;
            values.rows_x = rows_x;
            values.rows_y = rows_y;
        },
        _ => {
            let (inputs, answer) = choose|
                inputs: R1CSInputs<F>,
                answer: Result<(UniformSpartanKey<F, P::R1CSConstraints>, Vec<Vec<F>>, P::R1CSCommitment), P::R1CSError>,
            |
                {
                    &&& are_r1cs_inputs::<C, M, F, PCS, P>(
                        padded_trace_length,
                        instructions,
                        polynomials,
                        circuit_flags,
                        inputs,
                    )
                    &&& #[trigger] call_ensures(
                        P::r1cs_compute_witness_commit,
                        (WORD_SIZE, C, padded_trace_length, memory_start, &inputs, &generators),
                        answer,
                    )
                    &&& result == setup_result(answer)
                };
            let (zero, rows_x, rows_y) = lemma_chunk_tables_have_rows::<C, M, F, PCS, P>(
                padded_trace_length,
                instructions,
                inputs.chunks_x@,
                inputs.chunks_y@,
            );
            values.zero = zero;
            values.rows_x = rows_x;
            values.rows_y = rows_y;
            values.inputs = inputs;
        },
    }
    if !(result matches Err(R1CSSetupError::ChunkOutsideField)) {
        assert(
            are_trace_rows::<C, M, F, PCS, P>(
                instructions,
                values.zero,
                values.rows_x,
                values.rows_y,
            )
        );
        values.chunks = Seq::new(
            instructions.len(),
            |i: int| choose|chunks: (Vec<u64>, Vec<u64>)| #[trigger]
                call_ensures(
                    P::InstructionSet::operand_chunks,
                    (&instructions[i]->0, C, log_m),
                    chunks,
                )
                    && is_lifted(chunks.0@, chunks.1@, values.rows_x[i], values.rows_y[i]),
        );
        assert forall|i: int| 0 <= i < instructions.len()
            && instructions[i] is Some implies call_ensures(
            P::InstructionSet::operand_chunks,
            (&instructions[i]->0, C, log_m),
            #[trigger] values.chunks[i],
        ) && is_lifted(
            values.chunks[i].0@,
            values.chunks[i].1@,
            values.rows_x[i],
            values.rows_y[i],
        ) by {
            assert(is_operand_row(
                instructions[i],
                values.zero,
                C,
                log_m,
                values.rows_x[i],
                values.rows_y[i],
            ));
        }
        assert forall|i: int|
            #![trigger values.rows_x[i]]
            #![trigger values.rows_y[i]]
            0 <= i < instructions.len() && instructions[i] is Some implies is_lifted(
            values.chunks[i].0@,
            values.chunks[i].1@,
            values.rows_x[i],
            values.rows_y[i],
        ) by {
            assert(call_ensures(
                P::InstructionSet::operand_chunks,
                (&instructions[i]->0, C, log_m),
                values.chunks[i],
            ));
        }
    }
    values
}

proof fn lemma_chunk_tables_have_rows<
    const C: usize,
    const M: usize,
    F: JoltField,
    PCS: CommitmentScheme<Field = F>,
    P: Subprotocols<F, PCS, C, M>,
>(
    padded_trace_length: usize,
    instructions: Seq<Option<P::InstructionSet>>,
    chunks_x: Seq<F>,
    chunks_y: Seq<F>,
) -> (rows: (F, Seq<Seq<F>>, Seq<Seq<F>>))
    requires
        are_chunk_tables::<C, M, F, PCS, P>(padded_trace_length, instructions, chunks_x, chunks_y),
    ensures
        are_trace_rows::<C, M, F, PCS, P>(instructions, rows.0, rows.1, rows.2),
        entries_fit(rows.1, padded_trace_length as int, padded_trace_length * C),
        entries_fit(rows.2, padded_trace_length as int, padded_trace_length * C),
        chunks_x.len() == padded_trace_length * C,
        chunks_y.len() == padded_trace_length * C,
        is_scattered(rows.1, rows.0, padded_trace_length as int, chunks_x),
        is_scattered(rows.2, rows.0, padded_trace_length as int, chunks_y),
{
    let stride = padded_trace_length as int;
    choose|zero: F, rows_x: Seq<Seq<F>>, rows_y: Seq<Seq<F>>|
        {
            &&& #[trigger] are_trace_rows::<C, M, F, PCS, P>(instructions, zero, rows_x, rows_y)
            &&& entries_fit(rows_x, stride, stride * C)
            &&& entries_fit(rows_y, stride, stride * C)
            &&& chunks_x.len() == stride * C
            &&& chunks_y.len() == stride * C
            &&& is_scattered(rows_x, zero, stride, chunks_x)
            &&& is_scattered(rows_y, zero, stride, chunks_y)
        }
}

/// For a trace no longer than the padded one: where the chunks of the instruction in cycle
/// `i` are `xs` and `ys`, the inputs that the constraint system is given hold the field
/// element of `xs[k]` at `i + k * padded_trace_length` of `chunks_x`, and that of `ys[k]`
/// at the same place of `chunks_y`, for every pair.
pub proof fn operands_reach_their_own_columns<
    const C: usize,
    const M: usize,
    F: JoltField,
    PCS: CommitmentScheme<Field = F>,
    P: Jolt<F, PCS, C, M>,
>(
    padded_trace_length: usize,
    memory_start: u64,
    instructions: &[Option<P::InstructionSet>],
    polynomials: JoltPolynomials<F>,
    circuit_flags: Vec<F>,
    generators: PCS::Setup,
    setup: (UniformSpartanKey<F, P::R1CSConstraints>, Vec<Vec<F>>, P::R1CSCommitment),
) -> (values: SetupValues<F>)
    requires
        padded_trace_length * C <= usize::MAX,
        instructions@.len() <= padded_trace_length,
        call_ensures(
            P::r1cs_setup,
            (
                padded_trace_length,
                memory_start,
                instructions,
                &polynomials,
                circuit_flags,
                &generators,
            ),
            Ok::<_, R1CSSetupError<P::R1CSError>>(setup),
        ),
    ensures
        M <= pow2(values.log_m as nat),
        values.log_m > 0 ==> pow2((values.log_m - 1) as nat) < M,
        call_ensures(
            P::r1cs_compute_witness_commit,
            (32usize, C, padded_trace_length, memory_start, &values.inputs, &generators),
            Ok::<_, P::R1CSError>(setup),
        ),
        forall|i: int|
            #![trigger values.chunks[i]]
            #![trigger instructions@[i]]
            0 <= i < instructions@.len() && instructions@[i] is Some ==> call_ensures(
                P::InstructionSet::operand_chunks,
                (&instructions@[i]->0, C, values.log_m),
                values.chunks[i],
            ),
        forall|i: int|
            #![trigger values.chunks[i]]
            0 <= i < instructions@.len() && instructions@[i] is Some
                ==> values.chunks[i].0@.len() <= C
                || values.chunks[i].1@.len() <= C,
        forall|i: int, k: int|
            #![trigger values.chunks[i].0@[k]]
            0 <= i < instructions@.len() && instructions@[i] is Some
                && 0 <= k < values.chunks[i].0@.len()
                && k < values.chunks[i].1@.len() ==> call_ensures(
                    F::from_u64,
                    (values.chunks[i].0@[k],),
                    Some(values.inputs.chunks_x@[i + k * padded_trace_length]),
                ),
        forall|i: int, k: int|
            #![trigger values.chunks[i].1@[k]]
            0 <= i < instructions@.len() && instructions@[i] is Some
                && 0 <= k < values.chunks[i].0@.len()
                && k < values.chunks[i].1@.len() ==> call_ensures(
                    F::from_u64,
                    (values.chunks[i].1@[k],),
                    Some(values.inputs.chunks_y@[i + k * padded_trace_length]),
                ),
        values.inputs.chunks_x@.len() == padded_trace_length * C,
        values.inputs.chunks_y@.len() == padded_trace_length * C,
{
    let result = Ok::<_, R1CSSetupError<P::R1CSError>>(setup);
    let values = setup_assembles_the_witness::<C, M, F, PCS, P>(
        padded_trace_length,
        memory_start,
        instructions@,
        polynomials,
        circuit_flags@,
        generators,
        result,
    );
    let stride = padded_trace_length as int;
    scattered_table_is_exact(values.rows_x, values.zero, stride, C as int, values.inputs.chunks_x@);
    scattered_table_is_exact(values.rows_y, values.zero, stride, C as int, values.inputs.chunks_y@);
    assert forall|i: int|
        #![trigger values.chunks[i]]
        0 <= i < instructions@.len()
            && instructions@[i] is Some implies values.chunks[i].0@.len() <= C
        || values.chunks[i].1@.len() <= C by {
        if values.rows_x[i].len() > C {
            entries_fit_by_their_places(values.rows_x, stride, stride * C, i, C as int);
            vstd::arithmetic::mul::lemma_mul_is_commutative(C as int, stride);
        }
    }
    assert forall|i: int, k: int|
        #![trigger values.chunks[i].0@[k]]
        0 <= i < instructions@.len() && instructions@[i] is Some
            && 0 <= k < values.chunks[i].0@.len()
            && k < values.chunks[i].1@.len() implies call_ensures(
                F::from_u64,
                (values.chunks[i].0@[k],),
                Some(values.inputs.chunks_x@[i + k * padded_trace_length]),
            ) by {
        lemma_place_of_pair(values, stride, C as int, i, k);
        assert(call_ensures(F::from_u64, (values.chunks[i].0@[k],), Some(values.rows_x[i][k])));
    }
    assert forall|i: int, k: int|
        #![trigger values.chunks[i].1@[k]]
        0 <= i < instructions@.len() && instructions@[i] is Some
            && 0 <= k < values.chunks[i].0@.len()
            && k < values.chunks[i].1@.len() implies call_ensures(
                F::from_u64,
                (values.chunks[i].1@[k],),
                Some(values.inputs.chunks_y@[i + k * padded_trace_length]),
            ) by {
        lemma_place_of_pair(values, stride, C as int, i, k);
        assert(call_ensures(F::from_u64, (values.chunks[i].1@[k],), Some(values.rows_y[i][k])));
    }
    values
}

proof fn lemma_place_of_pair<F>(
    values: SetupValues<F>,
    stride: int,
    num_chunks: int,
    i: int,
    k: int,
)
    requires
        0 <= i < values.rows_x.len(),
        values.rows_x.len() <= stride,
        values.rows_y.len() == values.rows_x.len(),
        0 <= k < values.rows_x[i].len(),
        k < values.rows_y[i].len(),
        entries_fit(values.rows_x, stride, stride * num_chunks),
        is_scattered(values.rows_x, values.zero, stride, values.inputs.chunks_x@),
        is_scattered(values.rows_y, values.zero, stride, values.inputs.chunks_y@),
        values.inputs.chunks_x@.len() == stride * num_chunks,
        values.inputs.chunks_y@.len() == stride * num_chunks,
    ensures
        i + k * stride < stride * num_chunks,
        values.inputs.chunks_x@[i + k * stride] == values.rows_x[i][k],
        values.inputs.chunks_y@[i + k * stride] == values.rows_y[i][k],
{
    entries_fit_by_their_places(values.rows_x, stride, stride * num_chunks, i, k);
    assert(k < num_chunks) by (nonlinear_arith)
        requires
            0 <= i < stride,
            i + k * stride < stride * num_chunks,
    ;
    scattered_table_is_exact(
        values.rows_x,
        values.zero,
        stride,
        num_chunks,
        values.inputs.chunks_x@,
    );
    scattered_table_is_exact(
        values.rows_y,
        values.zero,
        stride,
        num_chunks,
        values.inputs.chunks_y@,
    );
    assert(position(stride, i, k) == i + k * stride);
    assert(is_entry(values.rows_x, i, k) && is_entry(values.rows_y, i, k));
}

/// For a trace no longer than the padded one, a cycle without an instruction and every
/// cycle behind the trace have zeros in both tables.
pub proof fn idle_cycles_hold_zeros<
    const C: usize,
    const M: usize,
    F: JoltField,
    PCS: CommitmentScheme<Field = F>,
    P: Jolt<F, PCS, C, M>,
>(
    padded_trace_length: usize,
    memory_start: u64,
    instructions: &[Option<P::InstructionSet>],
    polynomials: JoltPolynomials<F>,
    circuit_flags: Vec<F>,
    generators: PCS::Setup,
    setup: (UniformSpartanKey<F, P::R1CSConstraints>, Vec<Vec<F>>, P::R1CSCommitment),
    i: int,
    k: int,
) -> (values: SetupValues<F>)
    requires
        padded_trace_length * C <= usize::MAX,
        instructions@.len() <= padded_trace_length,
        0 <= i < padded_trace_length,
        i < instructions@.len() ==> instructions@[i] is None,
        0 <= k < C,
        call_ensures(
            P::r1cs_setup,
            (
                padded_trace_length,
                memory_start,
                instructions,
                &polynomials,
                circuit_flags,
                &generators,
            ),
            Ok::<_, R1CSSetupError<P::R1CSError>>(setup),
        ),
    ensures
        call_ensures(F::zero, (), values.zero),
        call_ensures(
            P::r1cs_compute_witness_commit,
            (32usize, C, padded_trace_length, memory_start, &values.inputs, &generators),
            Ok::<_, P::R1CSError>(setup),
        ),
        values.inputs.chunks_x@[i + k * padded_trace_length] == values.zero,
        values.inputs.chunks_y@[i + k * padded_trace_length] == values.zero,
{
    let result = Ok::<_, R1CSSetupError<P::R1CSError>>(setup);
    let values = setup_assembles_the_witness::<C, M, F, PCS, P>(
        padded_trace_length,
        memory_start,
        instructions@,
        polynomials,
        circuit_flags@,
        generators,
        result,
    );
    let stride = padded_trace_length as int;
    scattered_table_is_exact(values.rows_x, values.zero, stride, C as int, values.inputs.chunks_x@);
    scattered_table_is_exact(values.rows_y, values.zero, stride, C as int, values.inputs.chunks_y@);
    assert(position(stride, i, k) == i + k * padded_trace_length);
    if i < instructions@.len() {
        assert(values.rows_x[i] == Seq::new(C as nat, |l: int| values.zero));
        assert(values.rows_y[i] == Seq::new(C as nat, |l: int| values.zero));
    }
    values
}

/// The values from which the polynomials of a trace are made: those of the lookups, the
/// no-ops, the memory trace as it is handed on, and the timestamps it leaves.
#[verifier::reject_recursive_types(F)]
#[verifier::reject_recursive_types(PCS)]
#[verifier::reject_recursive_types(P)]
pub struct TraceValues<const C: usize, const M: usize, F, PCS, P> where
    F: JoltField,
    PCS: CommitmentScheme<Field = F>,
    P: Subprotocols<F, PCS, C, M>,
 {
    pub lookups: InstructionPolynomials<F>,
    pub noop_read: P::MemoryOp,
    pub noop_write: P::MemoryOp,
    pub padded: Vec<[P::MemoryOp; MEMORY_OPS_PER_INSTRUCTION]>,
    pub read_timestamps: P::ReadTimestamps,
}

/// The polynomials of a trace: the lookups' from all instructions; memory's from the whole
/// memory trace, padded with no-ops, and from the sixth to the tenth flag polynomial; the
/// timestamps' from what memory leaves; the bytecode's from its trace. There are none
/// exactly where the lookups have fewer than ten flag polynomials.
pub proof fn polynomials_are_of_the_trace<
    const C: usize,
    const M: usize,
    F: JoltField,
    PCS: CommitmentScheme<Field = F>,
    P: Subprotocols<F, PCS, C, M>,
>(
    program_io: JoltDevice,
    bytecode_trace: Vec<P::BytecodeRow>,
    memory_trace: Vec<[P::MemoryOp; MEMORY_OPS_PER_INSTRUCTION]>,
    instructions: Vec<Option<P::InstructionSet>>,
    padded_trace_length: usize,
    preprocessing: JoltPreprocessing<C, M, F, PCS, P>,
    result: Option<JoltPolynomials<F>>,
) -> (values: TraceValues<C, M, F, PCS, P>)
    requires
        is_polynomialized(
            program_io,
            bytecode_trace,
            memory_trace@,
            instructions,
            padded_trace_length,
            preprocessing,
            result,
        ) || call_ensures(
            polynomialize::<C, M, F, PCS, P>,
            (
                &program_io,
                bytecode_trace,
                memory_trace,
                &instructions,
                padded_trace_length,
                &preprocessing,
            ),
            result,
        ),
    ensures
        call_ensures(
            P::lookups_polynomials,
            (&preprocessing.instruction_lookups, &instructions),
            values.lookups,
        ),
        result is None <==> values.lookups.instruction_flag_polys@.len() < 10,
        result matches Some(polynomials) ==> {
            &&& call_ensures(P::noop_read, (), values.noop_read)
            &&& call_ensures(P::noop_write, (), values.noop_write)
            &&& values.padded@.len() == padded_trace_length
            &&& forall|i: int|
                0 <= i < padded_trace_length && i < memory_trace@.len()
                    ==> #[trigger] values.padded@[i] == memory_trace@[i]
            &&& forall|i: int|
                memory_trace@.len() <= i < padded_trace_length
                    ==> (#[trigger] values.padded@[i])@ == seq![
                    values.noop_read,
                    values.noop_read,
                    values.noop_write,
                    values.noop_read,
                    values.noop_read,
                    values.noop_read,
                    values.noop_read,
                ]
            &&& exists|load_store_flags: &[DensePolynomial<F>]|
                {
                    &&& load_store_flags@ == values.lookups.instruction_flag_polys@.subrange(5, 10)
                    &&& #[trigger] call_ensures(
                        P::memory_polynomials,
                        (
                            &program_io,
                            load_store_flags,
                            &preprocessing.read_write_memory,
                            values.padded,
                        ),
                        (polynomials.read_write_memory, values.read_timestamps),
                    )
                }
            &&& call_ensures(
                P::timestamp_polynomials,
                (values.read_timestamps,),
                polynomials.timestamp_range_check,
            )
            &&& call_ensures(
                P::bytecode_polynomials,
                (&preprocessing.bytecode, bytecode_trace),
                polynomials.bytecode,
            )
            &&& polynomials.instruction_lookups == values.lookups
        },
{
    assert(is_polynomialized(
        program_io,
        bytecode_trace,
        memory_trace@,
        instructions,
        padded_trace_length,
        preprocessing,
        result,
    ));
    let mut values: TraceValues<C, M, F, PCS, P> = arbitrary();
    match result {
        Some(polynomials) => {
            values.lookups = polynomials.instruction_lookups;
            let read_timestamps = choose|read_timestamps: P::ReadTimestamps|
                {
                    &&& are_memory_polynomials(
                        program_io,
                        memory_trace@,
                        padded_trace_length,
                        preprocessing,
                        polynomials,
                        read_timestamps,
                    )
                    &&& #[trigger] call_ensures(
                        P::timestamp_polynomials,
                        (read_timestamps,),
                        polynomials.timestamp_range_check,
                    )
                };
            values.read_timestamps = read_timestamps;
            let (flags, padded) = choose|
                flags: &[DensePolynomial<F>],
                padded: Vec<[P::MemoryOp; MEMORY_OPS_PER_INSTRUCTION]>,
            |
                {
                    &&& flags@ == polynomials.instruction_lookups.instruction_flag_polys@.subrange(
                        LOAD_STORE_FLAGS_START as int,
                        LOAD_STORE_FLAGS_END as int,
                    )
                    &&& is_padded_trace::<C, M, F, PCS, P>(
                        memory_trace@,
                        padded_trace_length,
                        padded@,
                    )
                    &&& #[trigger] call_ensures(
                        P::memory_polynomials,
                        (&program_io, flags, &preprocessing.read_write_memory, padded),
                        (polynomials.read_write_memory, read_timestamps),
                    )
                };
            values.padded = padded;
            let (noop_read, noop_write) = choose|noop_read: P::MemoryOp, noop_write: P::MemoryOp|
                {
                    &&& #[trigger] call_ensures(P::noop_read, (), noop_read)
                    &&& #[trigger] call_ensures(P::noop_write, (), noop_write)
                    &&& padded@.len() == padded_trace_length
                    &&& forall|i: int|
                        0 <= i < padded_trace_length ==> (#[trigger] padded@[i])@ == padded_row(
                            memory_trace@,
                            noop_read,
                            noop_write,
                            i,
                        )
                };
            values.noop_read = noop_read;
            values.noop_write = noop_write;
            assert forall|i: int|
                0 <= i < padded_trace_length
                    && i < memory_trace@.len() implies #[trigger] padded@[i]
                == memory_trace@[i] by {
                assert(padded@[i]@ == memory_trace@[i]@);
                assert(padded@[i] =~= memory_trace@[i]);
            }
        },
        None => {
            values.lookups = choose|lookups: InstructionPolynomials<F>|
                {
                    &&& #[trigger] call_ensures(
                        P::lookups_polynomials,
                        (&preprocessing.instruction_lookups, &instructions),
                        lookups,
                    )
                    &&& lookups.instruction_flag_polys@.len() < LOAD_STORE_FLAGS_END
                };
        },
    }
    values
}

/// The four arguments are made in the order bytecode, lookups, memory, constraint system,
/// the first with the given transcript, each further one with the transcript that the one
/// before it left.
pub proof fn arguments_share_one_transcript<
    const C: usize,
    const M: usize,
    F: JoltField,
    PCS: CommitmentScheme<Field = F>,
    P: Subprotocols<F, PCS, C, M>,
>(
    preprocessing: JoltPreprocessing<C, M, F, PCS, P>,
    program_io: JoltDevice,
    commitments: JoltCommitments<PCS, P::R1CSCommitment>,
    polynomials: JoltPolynomials<F>,
    key: UniformSpartanKey<F, P::R1CSConstraints>,
    witness_segments: Vec<Vec<F>>,
    opened: ProofTranscript<F>,
    arguments: Arguments<C, M, F, PCS, P>,
)
    requires
        are_arguments(
            preprocessing,
            program_io,
            commitments,
            polynomials,
            key,
            witness_segments,
            opened,
            arguments,
        ) || call_ensures(
            prove_arguments::<C, M, F, PCS, P>,
            (
                &preprocessing,
                &program_io,
                &commitments,
                &polynomials,
                key,
                witness_segments,
                opened,
            ),
            arguments,
        ),
    ensures
        exists|
            t1: ProofTranscript<F>,
            t2: ProofTranscript<F>,
            t3: ProofTranscript<F>,
            t4: ProofTranscript<F>,
        |
            {
                &&& #[trigger] call_ensures(
                    P::bytecode_prove,
                    (
                        &preprocessing.bytecode,
                        &preprocessing.generators,
                        &commitments.bytecode,
                        &polynomials.bytecode,
                        opened,
                    ),
                    (arguments.bytecode, t1),
                )
                &&& #[trigger] call_ensures(
                    P::lookups_prove,
                    (
                        &polynomials.instruction_lookups,
                        &preprocessing.generators,
                        &commitments.instruction_lookups,
                        &preprocessing.instruction_lookups,
                        t1,
                    ),
                    (arguments.instruction_lookups, t2),
                )
                &&& #[trigger] call_ensures(
                    P::memory_prove,
                    (
                        &preprocessing.read_write_memory,
                        &preprocessing.generators,
                        &commitments,
                        &polynomials,
                        &program_io,
                        t2,
                    ),
                    (arguments.read_write_memory, t3),
                )
                &&& #[trigger] call_ensures(
                    P::r1cs_prove,
                    (key, &preprocessing.generators, &commitments, C, witness_segments, t3),
                    (arguments.r1cs, t4),
                )
            },
{
    assert(are_arguments(
        preprocessing,
        program_io,
        commitments,
        polynomials,
        key,
        witness_segments,
        opened,
        arguments,
    ));
    let (t1, t2, t3, t4) = choose|
        t1: ProofTranscript<F>,
        t2: ProofTranscript<F>,
        t3: ProofTranscript<F>,
        t4: ProofTranscript<F>,
    | #[trigger]
        are_arguments_along(
            preprocessing,
            program_io,
            commitments,
            polynomials,
            key,
            witness_segments,
            opened,
            arguments,
            t1,
            t2,
            t3,
            t4,
        );
    assert(are_arguments_along(
        preprocessing,
        program_io,
        commitments,
        polynomials,
        key,
        witness_segments,
        opened,
        arguments,
        t1,
        t2,
        t3,
        t4,
    ));
}

/// The values of one run of the prover: what its polynomials are made of, the padded
/// length, and the answers that its steps got.
#[verifier::reject_recursive_types(F)]
#[verifier::reject_recursive_types(PCS)]
#[verifier::reject_recursive_types(P)]
pub struct ProverValues<const C: usize, const M: usize, F, PCS, P> where
    F: JoltField,
    PCS: CommitmentScheme<Field = F>,
    P: Subprotocols<F, PCS, C, M>,
 {
    pub trace: TraceValues<C, M, F, PCS, P>,
    pub padded_trace_length: usize,
    pub polynomials: JoltPolynomials<F>,
    pub committed: Result<JoltCommitments<PCS, P::R1CSCommitment>, MissingCommitments>,
    pub setup: Result<
        (UniformSpartanKey<F, P::R1CSConstraints>, Vec<Vec<F>>, P::R1CSCommitment),
        R1CSSetupError<P::R1CSError>,
    >,
    pub commitments: JoltCommitments<PCS, P::R1CSCommitment>,
    pub opened: ProofTranscript<F>,
    pub arguments: Arguments<C, M, F, PCS, P>,
}

/// The prover pads the trace to the least power of two, makes and commits to its
/// polynomials, sets the constraint system up, opens the transcript for the unpadded
/// length, the public data, the key and all commitments, and makes the four arguments
/// along it. What it returns is put together of the answers, or is the first error.
pub proof fn prover_proves_the_whole_execution<
    const C: usize,
    const M: usize,
    F: JoltField,
    PCS: CommitmentScheme<Field = F>,
    P: Jolt<F, PCS, C, M>,
>(
    program_io: JoltDevice,
    bytecode_trace: Vec<P::BytecodeRow>,
    memory_trace: Vec<[P::MemoryOp; MEMORY_OPS_PER_INSTRUCTION]>,
    instructions: Vec<Option<P::InstructionSet>>,
    circuit_flags: Vec<F>,
    preprocessing: JoltPreprocessing<C, M, F, PCS, P>,
    result: Result<(JoltProof<C, M, F, PCS, P>, JoltCommitments<PCS, P::R1CSCommitment>), ProveError<P::R1CSError>>,
) -> (values: ProverValues<C, M, F, PCS, P>)
    requires
        instructions@.len() <= pow2((usize::BITS - 1) as nat),
        padded_length(instructions@.len()) * C <= usize::MAX,
        program_io.memory_layout.ram_witness_offset <= RAM_START_ADDRESS,
        call_ensures(
            P::prove,
            (program_io, bytecode_trace, memory_trace, instructions, circuit_flags, preprocessing),
            result,
        ),
    ensures
        exists|k: nat| values.padded_trace_length == #[trigger] pow2(k),
        instructions@.len() <= values.padded_trace_length,
        forall|k: nat| instructions@.len() <= #[trigger] pow2(k)
            ==> values.padded_trace_length <= pow2(k),
        call_ensures(
            P::lookups_polynomials,
            (&preprocessing.instruction_lookups, &instructions),
            values.trace.lookups,
        ),
        (result matches Err(ProveError::MissingFlagPolynomials))
            <==> values.trace.lookups.instruction_flag_polys@.len() < 10,
        values.trace.lookups.instruction_flag_polys@.len() >= 10 ==> {
            &&& call_ensures(P::noop_read, (), values.trace.noop_read)
            &&& call_ensures(P::noop_write, (), values.trace.noop_write)
            &&& values.trace.padded@.len() == values.padded_trace_length
            &&& forall|i: int|
                0 <= i < values.padded_trace_length && i < memory_trace@.len()
                    ==> #[trigger] values.trace.padded@[i] == memory_trace@[i]
            &&& forall|i: int|
                memory_trace@.len() <= i < values.padded_trace_length
                    ==> (#[trigger] values.trace.padded@[i])@ == seq![
                    values.trace.noop_read,
                    values.trace.noop_read,
                    values.trace.noop_write,
                    values.trace.noop_read,
                    values.trace.noop_read,
                    values.trace.noop_read,
                    values.trace.noop_read,
                ]
            &&& exists|load_store_flags: &[DensePolynomial<F>]|
                {
                    &&& load_store_flags@ == values.trace.lookups.instruction_flag_polys@.subrange(
                        5,
                        10,
                    )
                    &&& #[trigger] call_ensures(
                        P::memory_polynomials,
                        (
                            &program_io,
                            load_store_flags,
                            &preprocessing.read_write_memory,
                            values.trace.padded,
                        ),
                        (values.polynomials.read_write_memory, values.trace.read_timestamps),
                    )
                }
            &&& call_ensures(
                P::timestamp_polynomials,
                (values.trace.read_timestamps,),
                values.polynomials.timestamp_range_check,
            )
            &&& call_ensures(
                P::bytecode_polynomials,
                (&preprocessing.bytecode, bytecode_trace),
                values.polynomials.bytecode,
            )
            &&& values.polynomials.instruction_lookups == values.trace.lookups
            &&& committed(values.polynomials, preprocessing.generators, values.committed)
            &&& (result matches Err(ProveError::MissingCommitments)) <==> values.committed is Err
        },
        values.trace.lookups.instruction_flag_polys@.len() >= 10 && values.committed is Ok ==> {
            &&& is_r1cs_setup::<C, M, F, PCS, P>(
                values.padded_trace_length,
                (0x8000_0000 - program_io.memory_layout.ram_witness_offset) as u64,
                instructions@,
                values.polynomials,
                circuit_flags@,
                preprocessing.generators,
                values.setup,
            )
            &&& values.setup matches Err(e)
                ==> result
                == Err::<(JoltProof<C, M, F, PCS, P>, JoltCommitments<PCS, P::R1CSCommitment>), _>(
                    ProveError::R1CSSetup(e),
                )
        },
        values.trace.lookups.instruction_flag_polys@.len() >= 10 && values.committed is Ok
            && values.setup is Ok ==> {
            &&& values.commitments.bytecode == values.committed->Ok_0.bytecode
            &&& values.commitments.read_write_memory == values.committed->Ok_0.read_write_memory
            &&& values.commitments.timestamp_range_check
                == values.committed->Ok_0.timestamp_range_check
            &&& values.commitments.instruction_lookups == values.committed->Ok_0.instruction_lookups
            &&& values.commitments.r1cs == Some(values.setup->Ok_0.2)
            &&& exists|
                start: ProofTranscript<F>,
                a1: ProofTranscript<F>,
                a2: ProofTranscript<F>,
                a3: ProofTranscript<F>,
                a4: ProofTranscript<F>,
            |
                {
                    &&& start@.label == "Jolt transcript"@
                    &&& start@.messages == seq![
                        MessageView { label: "Unpadded trace length"@, value: ValueView::<F>::U64(
                            instructions@.len() as u64,
                        ) },
                        MessageView { label: "C"@, value: ValueView::<F>::U64(C as u64) },
                        MessageView { label: "M"@, value: ValueView::<F>::U64(M as u64) },
                        MessageView { label: "# instructions"@, value: ValueView::<F>::U64(
                            P::InstructionSet::COUNT as u64,
                        ) },
                        MessageView { label: "# subtables"@, value: ValueView::<F>::U64(
                            P::Subtables::COUNT as u64,
                        ) },
                        MessageView { label: "Max input size"@, value: ValueView::<F>::U64(
                            program_io.memory_layout.max_input_size,
                        ) },
                        MessageView { label: "Max output size"@, value: ValueView::<F>::U64(
                            program_io.memory_layout.max_output_size,
                        ) },
                        MessageView { label: "Program inputs"@, value: ValueView::<F>::Bytes(
                            program_io.inputs@,
                        ) },
                        MessageView { label: "Program outputs"@, value: ValueView::<F>::Bytes(
                            program_io.outputs@,
                        ) },
                        MessageView { label: "Program panic"@, value: ValueView::<F>::U64(
                            if program_io.panic { 1u64 } else { 0u64 },
                        ) },
                        MessageView { label: "spartan key"@, value: ValueView::<F>::Scalar(
                            values.setup->Ok_0.0.vk_digest,
                        ) },
                    ]
                    &&& #[trigger] call_ensures(
                        P::bytecode_append_commitment,
                        (&values.commitments.bytecode, "bytecode", start),
                        a1,
                    )
                    &&& #[trigger] call_ensures(
                        P::memory_append_commitment,
                        (&values.commitments.read_write_memory, "read_write_memory", a1),
                        a2,
                    )
                    &&& #[trigger] call_ensures(
                        P::timestamp_append_commitment,
                        (&values.commitments.timestamp_range_check, "timestamp_range_check", a2),
                        a3,
                    )
                    &&& #[trigger] call_ensures(
                        P::lookups_append_commitment,
                        (&values.commitments.instruction_lookups, "instruction_lookups", a3),
                        a4,
                    )
                    &&& call_ensures(
                        P::r1cs_append_commitment,
                        (&values.commitments.r1cs->0, "r1cs", a4),
                        values.opened,
                    )
                }
            &&& exists|
                t1: ProofTranscript<F>,
                t2: ProofTranscript<F>,
                t3: ProofTranscript<F>,
                t4: ProofTranscript<F>,
            |
                {
                    &&& #[trigger] call_ensures(
                        P::bytecode_prove,
                        (
                            &preprocessing.bytecode,
                            &preprocessing.generators,
                            &values.commitments.bytecode,
                            &values.polynomials.bytecode,
                            values.opened,
                        ),
                        (values.arguments.bytecode, t1),
                    )
                    &&& #[trigger] call_ensures(
                        P::lookups_prove,
                        (
                            &values.polynomials.instruction_lookups,
                            &preprocessing.generators,
                            &values.commitments.instruction_lookups,
                            &preprocessing.instruction_lookups,
                            t1,
                        ),
                        (values.arguments.instruction_lookups, t2),
                    )
                    &&& #[trigger] call_ensures(
                        P::memory_prove,
                        (
                            &preprocessing.read_write_memory,
                            &preprocessing.generators,
                            &values.commitments,
                            &values.polynomials,
                            &program_io,
                            t2,
                        ),
                        (values.arguments.read_write_memory, t3),
                    )
                    &&& #[trigger] call_ensures(
                        P::r1cs_prove,
                        (
                            values.setup->Ok_0.0,
                            &preprocessing.generators,
                            &values.commitments,
                            C,
                            values.setup->Ok_0.1,
                            t3,
                        ),
                        (values.arguments.r1cs, t4),
                    )
                }
            &&& values.arguments.r1cs matches Err(e)
                ==> result
                == Err::<(JoltProof<C, M, F, PCS, P>, JoltCommitments<PCS, P::R1CSCommitment>), _>(
                    ProveError::R1CSProof(e),
                )
            &&& values.arguments.r1cs matches Ok(r1cs) ==> {
                &&& result is Ok
                &&& result->Ok_0.0.trace_length == instructions@.len()
                &&& result->Ok_0.0.program_io == program_io
                &&& result->Ok_0.0.bytecode == values.arguments.bytecode
                &&& result->Ok_0.0.read_write_memory == values.arguments.read_write_memory
                &&& result->Ok_0.0.instruction_lookups == values.arguments.instruction_lookups
                &&& result->Ok_0.0.r1cs == r1cs
                &&& result->Ok_0.1 == values.commitments
            }
        },
        result is Ok ==> {
            &&& values.trace.lookups.instruction_flag_polys@.len() >= 10
            &&& values.committed is Ok
            &&& values.setup is Ok
            &&& values.arguments.r1cs is Ok
        },
{
    let execution = Execution::<C, M, F, PCS, P> {
        program_io,
        bytecode_trace,
        memory_trace,
        instructions,
        circuit_flags,
    };
    assert(is_proved(execution, preprocessing, result));
    let run = choose|run: ProverRun<C, M, F, PCS, P>|
        {
            &&& #[trigger] is_prover_run(execution, preprocessing, run)
            &&& result == prover_result(execution, run)
        };
    let padded_trace_length = padded_length(instructions@.len()) as usize;
    padded_length_is_the_least_power(instructions@.len());
    lemma_top_power_fits();
    let trace = polynomials_are_of_the_trace(
        program_io,
        bytecode_trace,
        memory_trace,
        instructions,
        padded_trace_length,
        preprocessing,
        run.polynomials,
    );
    let values = ProverValues {
        trace,
        padded_trace_length,
        polynomials: run.polynomials->0,
        committed: run.committed,
        setup: run.setup,
        commitments: run.commitments(),
        opened: run.opened,
        arguments: run.arguments,
    };
    if run.reaches_arguments() {
        opened_transcript_is_bound::<C, M, F, PCS, P>(
            program_io,
            instructions.len(),
            run.setup->Ok_0.0.vk_digest,
            run.commitments(),
            run.opened,
        );
        arguments_share_one_transcript(
            preprocessing,
            program_io,
            run.commitments(),
            run.polynomials->0,
            run.setup->Ok_0.0,
            run.setup->Ok_0.1,
            run.opened,
            run.arguments,
        );
    }
    values
}

proof fn lemma_top_power_fits()
    ensures
        pow2((usize::BITS - 1) as nat) <= usize::MAX,
{
    lemma2_to64();
    if usize::BITS == 64 {
        lemma_pow2_unfold(63);
        lemma_pow2_unfold(64);
    }
}

} // verus!

//! How prover and verifier open the transcript, before any argument is run: the
//! preamble, the digest of the constraint system's key, and all commitments.

use crate::commitments::CommitmentScheme;
use crate::commitments::JoltCommitments;
use crate::device::JoltDevice;
use crate::instruction::JoltInstructionSet;
use crate::instruction::JoltSubtableSet;
use crate::poly::JoltField;
use crate::subprotocols::Subprotocols;
use crate::transcript::message;
use crate::transcript::MessageView;
use crate::transcript::ProofTranscript;
use crate::transcript::TranscriptView;
use crate::transcript::ValueView;
use vstd::prelude::*;

verus! {

/// The number that stands for a truth value in a transcript.
pub open spec fn bit(b: bool) -> u64 {
    if b {
        1
    } else {
        0
    }
}

/// The messages that bind a transcript to the machine (`c` chunks per operand, tables
/// of size `m`, so many instructions and subtables) and to the public data of one
/// execution.
pub open spec fn preamble<F>(
    program_io: JoltDevice,
    trace_length: usize,
    c: usize,
    m: usize,
    num_instructions: usize,
    num_subtables: usize,
) -> Seq<MessageView<F>> {
    seq![
        message("Unpadded trace length"@, ValueView::U64(trace_length as u64)),
        message("C"@, ValueView::U64(c as u64)),
        message("M"@, ValueView::U64(m as u64)),
        message("# instructions"@, ValueView::U64(num_instructions as u64)),
        message("# subtables"@, ValueView::U64(num_subtables as u64)),
        message("Max input size"@, ValueView::U64(program_io.memory_layout.max_input_size)),
        message("Max output size"@, ValueView::U64(program_io.memory_layout.max_output_size)),
        message("Program inputs"@, ValueView::Bytes(program_io.inputs@)),
        message("Program outputs"@, ValueView::Bytes(program_io.outputs@)),
        message("Program panic"@, ValueView::U64(bit(program_io.panic))),
    ]
}

/// Absorbs the preamble.
pub fn append_preamble<F>(
    transcript: &mut ProofTranscript<F>,
    program_io: &JoltDevice,
    trace_length: usize,
    c: usize,
    m: usize,
    num_instructions: usize,
    num_subtables: usize,
)
    ensures
        final(transcript)@ == old(transcript)@.absorb(
            preamble(*program_io, trace_length, c, m, num_instructions, num_subtables),
        ),
{
    let panic_bit: u64 = if program_io.panic {
        1
    } else {
        0
    };
    transcript.append_u64("Unpadded trace length", trace_length as u64);
    transcript.append_u64("C", c as u64);
    transcript.append_u64("M", m as u64);
    transcript.append_u64("# instructions", num_instructions as u64);
    transcript.append_u64("# subtables", num_subtables as u64);
    transcript.append_u64("Max input size", program_io.memory_layout.max_input_size);
    transcript.append_u64("Max output size", program_io.memory_layout.max_output_size);
    transcript.append_bytes("Program inputs", &program_io.inputs);
    transcript.append_bytes("Program outputs", &program_io.outputs);
    transcript.append_u64("Program panic", panic_bit);
    assert(transcript@ =~= old(transcript)@.absorb(
        preamble(*program_io, trace_length, c, m, num_instructions, num_subtables),
    ));
}

/// The transcript `after` may come out of `before` when all commitments are absorbed,
/// each under its label, in this order.
pub open spec fn is_absorbed<
    const C: usize,
    const M: usize,
    F: JoltField,
    PCS: CommitmentScheme<Field = F>,
    P: Subprotocols<F, PCS, C, M>,
>(
    commitments: JoltCommitments<PCS, P::R1CSCommitment>,
    before: ProofTranscript<F>,
    after: ProofTranscript<F>,
) -> bool {
    exists|
        t1: ProofTranscript<F>,
        t2: ProofTranscript<F>,
        t3: ProofTranscript<F>,
        t4: ProofTranscript<F>,
    |
        {
            &&& commitments.r1cs is Some
            &&& #[trigger] call_ensures(
                P::bytecode_append_commitment,
                (&commitments.bytecode, "bytecode", before),
                t1,
            )
            &&& #[trigger] call_ensures(
                P::memory_append_commitment,
                (&commitments.read_write_memory, "read_write_memory", t1),
                t2,
            )
            &&& #[trigger] call_ensures(
                P::timestamp_append_commitment,
                (&commitments.timestamp_range_check, "timestamp_range_check", t2),
                t3,
            )
            &&& #[trigger] call_ensures(
                P::lookups_append_commitment,
                (&commitments.instruction_lookups, "instruction_lookups", t3),
                t4,
            )
            &&& call_ensures(
                P::r1cs_append_commitment,
                (&commitments.r1cs->0, "r1cs", t4),
                after,
            )
        }
}

impl<PCS: CommitmentScheme, R> JoltCommitments<PCS, R> {
    /// Absorbs all commitments. Those of the constraint system must be there.
    pub fn append_to_transcript<
        const C: usize,
        const M: usize,
        F: JoltField,
        P: Subprotocols<F, PCS, C, M, R1CSCommitment = R>,
    >(
        &self,
        transcript: &mut ProofTranscript<F>,
    ) where PCS: CommitmentScheme<Field = F>
        requires
            self.r1cs is Some,
        ensures
            is_absorbed::<C, M, F, PCS, P>(*self, *old(transcript), *final(transcript)),
    {
        let mut t0: ProofTranscript<F> = ProofTranscript::new("");
        std::mem::swap(&mut t0, transcript);
        let ghost before = t0;
        let t1 = P::bytecode_append_commitment(&self.bytecode, "bytecode", t0);
        let t2 = P::memory_append_commitment(&self.read_write_memory, "read_write_memory", t1);
        let t3 = P::timestamp_append_commitment(
            &self.timestamp_range_check,
            "timestamp_range_check",
            t2,
        );
        let t4 = P::lookups_append_commitment(
            &self.instruction_lookups,
            "instruction_lookups",
            t3,
        );
        let r1cs = self.r1cs.as_ref().unwrap();
        let t5 = P::r1cs_append_commitment(r1cs, "r1cs", t4);
        assert(is_absorbed::<C, M, F, PCS, P>(*self, before, t5));
        *transcript = t5;
    }
}

/// `transcript` is one that prover and verifier may hold when the first argument
/// starts.
pub open spec fn is_opened<
    const C: usize,
    const M: usize,
    F: JoltField,
    PCS: CommitmentScheme<Field = F>,
    P: Subprotocols<F, PCS, C, M>,
>(
    program_io: JoltDevice,
    trace_length: usize,
    vk_digest: F,
    commitments: JoltCommitments<PCS, P::R1CSCommitment>,
    transcript: ProofTranscript<F>,
) -> bool {
    exists|start: ProofTranscript<F>|
        {
            &&& start@ == opening::<C, M, F, PCS, P>(program_io, trace_length, vk_digest)
            &&& #[trigger] is_absorbed::<C, M, F, PCS, P>(commitments, start, transcript)
        }
}

/// The content of the transcript when the commitments are about to be absorbed.
pub open spec fn opening<
    const C: usize,
    const M: usize,
    F: JoltField,
    PCS: CommitmentScheme<Field = F>,
    P: Subprotocols<F, PCS, C, M>,
>(
    program_io: JoltDevice,
    trace_length: usize,
    vk_digest: F,
) -> TranscriptView<F> {
    TranscriptView::initial("Jolt transcript"@).absorb(
        preamble(
            program_io,
            trace_length,
            C,
            M,
            P::InstructionSet::COUNT,
            P::Subtables::COUNT,
        ),
    ).absorb(seq![message("spartan key"@, ValueView::Scalar(vk_digest))])
}

} // verus!

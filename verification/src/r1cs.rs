//! The inputs of the constraint system, and what becomes of them.

use crate::artifacts::R1CSSetupError;
use crate::chunks::entries_fit;
use crate::chunks::is_scattered;
use crate::commitments::CommitmentScheme;
use crate::instruction::are_operand_rows;
use crate::instruction::has_chunk_outside_field;
use crate::poly::flat_evals;
use crate::poly::query_polys_suffice;
use crate::poly::JoltField;
use crate::poly::JoltPolynomials;
use crate::pow2::ceil_log2;
use crate::subprotocols::R1CSInputs;
use crate::subprotocols::Subprotocols;
use crate::subprotocols::UniformSpartanKey;
use vstd::prelude::*;

verus! {

/// The word size of the machine, in bits.
pub const WORD_SIZE: usize = 32;

/// `rows_x` and `rows_y` may be the operand chunks of the trace, over the field
/// element `zero`.
pub open spec fn are_trace_rows<
    const C: usize,
    const M: usize,
    F: JoltField,
    PCS: CommitmentScheme<Field = F>,
    P: Subprotocols<F, PCS, C, M>,
>(
    instructions: Seq<Option<P::InstructionSet>>,
    zero: F,
    rows_x: Seq<Seq<F>>,
    rows_y: Seq<Seq<F>>,
) -> bool {
    &&& call_ensures(F::zero, (), zero)
    &&& are_operand_rows(
        instructions,
        zero,
        C,
        ceil_log2(M as nat) as usize,
        rows_x,
        rows_y,
    )
}

/// `chunks_x` and `chunks_y` hold the operand chunks of the trace, each in a table of
/// `C * padded_trace_length` elements.
pub open spec fn are_chunk_tables<
    const C: usize,
    const M: usize,
    F: JoltField,
    PCS: CommitmentScheme<Field = F>,
    P: Subprotocols<F, PCS, C, M>,
>(
    padded_trace_length: usize,
    instructions: Seq<Option<P::InstructionSet>>,
    chunks_x: Seq<F>,
    chunks_y: Seq<F>,
) -> bool {
    let stride = padded_trace_length as int;
    exists|zero: F, rows_x: Seq<Seq<F>>, rows_y: Seq<Seq<F>>|
        {
            &&& #[trigger] are_trace_rows::<C, M, F, PCS, P>(instructions, zero, rows_x, rows_y)
            &&& entries_fit(rows_x, stride, stride * C)
            &&& entries_fit(rows_y, stride, stride * C)
            &&& chunks_x.len() == stride * C
            &&& chunks_y.len() == stride * C
            &&& is_scattered(rows_x, zero, stride, chunks_x)
            &&& is_scattered(rows_y, zero, stride, chunks_y)
        }
}

/// Some operand chunk may have its place outside tables of `C * padded_trace_length`
/// elements.
pub open spec fn has_chunk_outside_trace<
    const C: usize,
    const M: usize,
    F: JoltField,
    PCS: CommitmentScheme<Field = F>,
    P: Subprotocols<F, PCS, C, M>,
>(
    padded_trace_length: usize,
    instructions: Seq<Option<P::InstructionSet>>,
) -> bool {
    let stride = padded_trace_length as int;
    exists|zero: F, rows_x: Seq<Seq<F>>, rows_y: Seq<Seq<F>>|
        {
            &&& #[trigger] are_trace_rows::<C, M, F, PCS, P>(instructions, zero, rows_x, rows_y)
            &&& !(entries_fit(rows_x, stride, stride * C) && entries_fit(
                rows_y,
                stride,
                stride * C,
            ))
        }
}

/// `inputs` are the columns that the trace and its polynomials give.
pub open spec fn are_r1cs_inputs<
    const C: usize,
    const M: usize,
    F: JoltField,
    PCS: CommitmentScheme<Field = F>,
    P: Subprotocols<F, PCS, C, M>,
>(
    padded_trace_length: usize,
    instructions: Seq<Option<P::InstructionSet>>,
    polynomials: JoltPolynomials<F>,
    circuit_flags: Seq<F>,
    inputs: R1CSInputs<F>,
) -> bool {
    let lookups = polynomials.instruction_lookups;
    &&& inputs.padded_trace_len == padded_trace_length
    &&& call_ensures(
        P::bytecode_r1cs_polys,
        (&polynomials.bytecode,),
        (inputs.bytecode_a, inputs.bytecode_v),
    )
    &&& call_ensures(
        P::memory_r1cs_polys,
        (&polynomials.read_write_memory,),
        (inputs.memreg_a_rw, inputs.memreg_v_reads, inputs.memreg_v_writes),
    )
    &&& are_chunk_tables::<C, M, F, PCS, P>(
        padded_trace_length,
        instructions,
        inputs.chunks_x@,
        inputs.chunks_y@,
    )
    &&& query_polys_suffice(lookups.dim@, C)
    &&& inputs.chunks_query@ == flat_evals(lookups.dim@.take(C as int))
    &&& inputs.lookup_outputs@ == lookups.lookup_outputs@
    &&& inputs.circuit_flags@ == circuit_flags
    &&& inputs.instruction_flags@ == flat_evals(lookups.instruction_flag_polys@)
}

/// The answer of the constraint system to its inputs, as the setup passes it on.
pub open spec fn setup_result<T, E>(answer: Result<T, E>) -> Result<T, R1CSSetupError<E>> {
    match answer {
        Ok(setup) => Ok(setup),
        Err(e) => Err(R1CSSetupError::Setup(e)),
    }
}

/// `result` is what setting up the constraint system may return: the answer to its
/// inputs, or the reason for which there are none.
pub open spec fn is_r1cs_setup<
    const C: usize,
    const M: usize,
    F: JoltField,
    PCS: CommitmentScheme<Field = F>,
    P: Subprotocols<F, PCS, C, M>,
>(
    padded_trace_length: usize,
    memory_start: u64,
    instructions: Seq<Option<P::InstructionSet>>,
    polynomials: JoltPolynomials<F>,
    circuit_flags: Seq<F>,
    generators: PCS::Setup,
    result: Result<
        (UniformSpartanKey<F, P::R1CSConstraints>, Vec<Vec<F>>, P::R1CSCommitment),
        R1CSSetupError<P::R1CSError>,
    >,
) -> bool {
    match result {
        Err(R1CSSetupError::ChunkOutsideField) => has_chunk_outside_field::<F, P::InstructionSet>(
            instructions,
            C,
            ceil_log2(M as nat) as usize,
        ),
        Err(R1CSSetupError::ChunkOutsideTrace) => has_chunk_outside_trace::<C, M, F, PCS, P>(
            padded_trace_length,
            instructions,
        ),
        Err(R1CSSetupError::UnsuitableQueryPolynomials) => {
            &&& exists|chunks_x: Seq<F>, chunks_y: Seq<F>| #[trigger]
                are_chunk_tables::<C, M, F, PCS, P>(
                    padded_trace_length,
                    instructions,
                    chunks_x,
                    chunks_y,
                )
            &&& !query_polys_suffice(polynomials.instruction_lookups.dim@, C)
        },
        _ => exists|
            inputs: R1CSInputs<F>,
            answer: Result<
                (UniformSpartanKey<F, P::R1CSConstraints>, Vec<Vec<F>>, P::R1CSCommitment),
                P::R1CSError,
            >,
        |
            {
                &&& are_r1cs_inputs::<C, M, F, PCS, P>(
                    padded_trace_length,
                    instructions,
                    polynomials,
                    circuit_flags,
                    inputs,
                )
                &&& #[trigger] call_ensures(
                    P::r1cs_compute_witness_commit,
                    (WORD_SIZE, C, padded_trace_length, memory_start, &inputs, &generators),
                    answer,
                )
                &&& result == setup_result(answer)
            },
    }
}

} // verus!

//! The library makes no choice of its own: where the calls it makes are functions, so
//! are commitments, the setup of the constraint system, the prover and the verifier.

use crate::artifacts::JoltPreprocessing;
use crate::artifacts::JoltProof;
use crate::artifacts::ProofVerifyError;
use crate::artifacts::ProveError;
use crate::artifacts::R1CSSetupError;
use crate::chunks::entries_fit;
use crate::chunks::is_entry;
use crate::chunks::is_overwritten;
use crate::chunks::is_scattered;
use crate::chunks::is_written;
use crate::chunks::position;
use crate::commitments::commitments_from;
use crate::commitments::committed;
use crate::commitments::BatchType;
use crate::commitments::BytecodeCommitment;
use crate::commitments::CommitmentScheme;
use crate::commitments::InstructionCommitment;
use crate::commitments::JoltCommitments;
use crate::commitments::MemoryCommitment;
use crate::commitments::MissingCommitments;
use crate::commitments::RangeCheckCommitment;
use crate::device::noop_row;
use crate::device::JoltDevice;
use crate::device::MEMORY_OPS_PER_INSTRUCTION;
use crate::device::RAM_START_ADDRESS;
use crate::instruction::has_chunk_outside_field;
use crate::instruction::is_lifted;
use crate::instruction::is_not_liftable;
use crate::instruction::is_operand_row;
use crate::instruction::pair_count;
use crate::instruction::JoltInstruction;
use crate::laws::are_idle_together;
use crate::laws::batch_is_a_function;
use crate::laws::differ_in_memory_trace_only;
use crate::laws::final_polynomials_stay_out_of_the_trace;
use crate::laws::have_same_chunks;
use crate::laws::idle_cycles_change_nothing;
use crate::laws::is_zero_of_field;
use crate::laws::missing_memory_rows_are_noops;
use crate::laws::setup_depends_on_operand_chunks;
use crate::laws::stored_interface_has_no_effect;
use crate::laws::surplus_memory_rows_have_no_effect;
use crate::laws::with_idle_cycles;
use crate::opening::is_opened;
use crate::poly::BytecodePolynomials;
use crate::poly::DensePolynomial;
use crate::poly::InstructionPolynomials;
use crate::poly::JoltField;
use crate::poly::JoltPolynomials;
use crate::poly::RangeCheckPolynomials;
use crate::poly::ReadWriteMemory;
use crate::pow2::ceil_log2;
use crate::pow2::padded_length;
use crate::proving::are_arguments;
use crate::proving::are_memory_polynomials;
use crate::proving::is_padded_trace;
use crate::proving::is_polynomialized;
use crate::proving::is_proved;
use crate::proving::is_prover_run;
use crate::proving::prover_result;
use crate::proving::Arguments;
use crate::proving::Execution;
use crate::proving::LOAD_STORE_FLAGS_END;
use crate::proving::LOAD_STORE_FLAGS_START;
use crate::proving::ProverRun;
use crate::r1cs::are_chunk_tables;
use crate::r1cs::are_r1cs_inputs;
use crate::r1cs::are_trace_rows;
use crate::r1cs::has_chunk_outside_trace;
use crate::r1cs::is_r1cs_setup;
use crate::r1cs::WORD_SIZE;
use crate::subprotocols::R1CSInputs;
use crate::subprotocols::R1CSProof;
use crate::subprotocols::ReadWriteMemoryPreprocessing;
use crate::subprotocols::Subprotocols;
use crate::subprotocols::UniformSpartanKey;
use crate::transcript::ProofTranscript;
use crate::verification::is_memory_verified;
use crate::verification::is_verdict;
use crate::verification::is_verified;
use crate::verification::is_verifier_run;
use crate::verification::reaches_lookups;
use crate::verification::reaches_memory;
use crate::verification::reaches_r1cs;
use crate::verification::with_program_io;
use crate::verification::VerifierRun;
use vstd::prelude::*;

verus! {

/// Two inputs of the constraint system hold the same columns.
pub open spec fn are_same_inputs<F>(inputs1: R1CSInputs<F>, inputs2: R1CSInputs<F>) -> bool {
    &&& inputs1.padded_trace_len == inputs2.padded_trace_len
    &&& inputs1.bytecode_a@ == inputs2.bytecode_a@
    &&& inputs1.bytecode_v@ == inputs2.bytecode_v@
    &&& inputs1.memreg_a_rw@ == inputs2.memreg_a_rw@
    &&& inputs1.memreg_v_reads@ == inputs2.memreg_v_reads@
    &&& inputs1.memreg_v_writes@ == inputs2.memreg_v_writes@
    &&& inputs1.chunks_x@ == inputs2.chunks_x@
    &&& inputs1.chunks_y@ == inputs2.chunks_y@
    &&& inputs1.chunks_query@ == inputs2.chunks_query@
    &&& inputs1.lookup_outputs@ == inputs2.lookup_outputs@
    &&& inputs1.circuit_flags@ == inputs2.circuit_flags@
    &&& inputs1.instruction_flags@ == inputs2.instruction_flags@
}

/// The field gives one zero, and one answer for every number.
pub open spec fn field_is_a_function<F: JoltField>() -> bool {
    &&& forall|x: F, y: F|
        #[trigger] call_ensures(F::zero, (), x) && #[trigger] call_ensures(F::zero, (), y) ==> x
            == y
    &&& forall|n: u64, x: Option<F>, y: Option<F>|
        #[trigger] call_ensures(F::from_u64, (n,), x) && #[trigger] call_ensures(
            F::from_u64,
            (n,),
            y,
        ) ==> x == y
}

/// Every instruction has one pair of operand chunks.
pub open spec fn chunking_is_a_function<I: JoltInstruction>() -> bool {
    forall|
        op: I,
        c: usize,
        log_m: usize,
        chunks1: (Vec<u64>, Vec<u64>),
        chunks2: (Vec<u64>, Vec<u64>),
    |
        #[trigger] call_ensures(I::operand_chunks, (&op, c, log_m), chunks1)
            && #[trigger] call_ensures(I::operand_chunks, (&op, c, log_m), chunks2)
            ==> chunks1.0@ == chunks2.0@ && chunks1.1@ == chunks2.1@
}

/// What the setup of the constraint system calls gives one answer to the same question.
pub open spec fn setup_calls_are_functions<
    const C: usize,
    const M: usize,
    F: JoltField,
    PCS: CommitmentScheme<Field = F>,
    P: Subprotocols<F, PCS, C, M>,
>() -> bool {
    &&& field_is_a_function::<F>()
    &&& chunking_is_a_function::<P::InstructionSet>()
    &&& forall|p: BytecodePolynomials<F>, x: (Vec<F>, Vec<F>), y: (Vec<F>, Vec<F>)|
        #[trigger] call_ensures(P::bytecode_r1cs_polys, (&p,), x) && #[trigger] call_ensures(
            P::bytecode_r1cs_polys,
            (&p,),
            y,
        ) ==> x.0@ == y.0@ && x.1@ == y.1@
    &&& forall|
        p: ReadWriteMemory<F>,
        x: (Vec<F>, Vec<F>, Vec<F>),
        y: (Vec<F>, Vec<F>, Vec<F>),
    |
        #[trigger] call_ensures(P::memory_r1cs_polys, (&p,), x) && #[trigger] call_ensures(
            P::memory_r1cs_polys,
            (&p,),
            y,
        ) ==> x.0@ == y.0@ && x.1@ == y.1@ && x.2@ == y.2@
    &&& forall|
        length: usize,
        start: u64,
        generators: PCS::Setup,
        i: R1CSInputs<F>,
        j: R1CSInputs<F>,
        x: Result<
            (UniformSpartanKey<F, P::R1CSConstraints>, Vec<Vec<F>>, P::R1CSCommitment),
            P::R1CSError,
        >,
        y: Result<
            (UniformSpartanKey<F, P::R1CSConstraints>, Vec<Vec<F>>, P::R1CSCommitment),
            P::R1CSError,
        >,
    |
        are_same_inputs(i, j) && #[trigger] call_ensures(
            P::r1cs_compute_witness_commit,
            (WORD_SIZE, C, length, start, &i, &generators),
            x,
        ) && #[trigger] call_ensures(
            P::r1cs_compute_witness_commit,
            (WORD_SIZE, C, length, start, &j, &generators),
            y,
        ) ==> x == y
}

/// Of the entries at a position, that of the last row is not overwritten.
proof fn lemma_last_entry<T>(rows: Seq<Seq<T>>, stride: int, i: int, c: int) -> (last: (int, int))
    requires
        is_entry(rows, i, c),
    ensures
        is_entry(rows, last.0, last.1),
        position(stride, last.0, last.1) == position(stride, i, c),
        !is_overwritten(rows, stride, last.0, last.1),
    decreases rows.len() - i,
{
    if is_overwritten(rows, stride, i, c) {
        let (j, d) = choose|j: int, d: int|
            i < j && #[trigger] is_entry(rows, j, d) && position(stride, j, d) == position(
                stride,
                i,
                c,
            );
        lemma_last_entry(rows, stride, j, d)
    } else {
        (i, c)
    }
}

/// The rows and the length determine the table.
proof fn lemma_scattered_table_is_unique<T>(
    rows: Seq<Seq<T>>,
    zero: T,
    stride: int,
    table1: Seq<T>,
    table2: Seq<T>,
)
    requires
        table1.len() == table2.len(),
        is_scattered(rows, zero, stride, table1),
        is_scattered(rows, zero, stride, table2),
    ensures
        table1 == table2,
{
    assert forall|p: int| 0 <= p < table1.len() implies table1[p] == table2[p] by {
        if is_written(rows, stride, p) {
            let (i, c) = choose|i: int, c: int| #[trigger]
                is_entry(rows, i, c) && position(stride, i, c) == p;
            let last = lemma_last_entry(rows, stride, i, c);
            assert(table1[position(stride, last.0, last.1)] == rows[last.0][last.1]);
            assert(table2[position(stride, last.0, last.1)] == rows[last.0][last.1]);
        }
    }
    assert(table1 =~= table2);
}

proof fn lemma_operand_row_is_unique<F: JoltField, I: JoltInstruction>(
    instruction: Option<I>,
    zero: F,
    c: usize,
    log_m: usize,
    x1: Seq<F>,
    y1: Seq<F>,
    x2: Seq<F>,
    y2: Seq<F>,
)
    requires
        field_is_a_function::<F>(),
        chunking_is_a_function::<I>(),
        is_operand_row(instruction, zero, c, log_m, x1, y1),
        is_operand_row(instruction, zero, c, log_m, x2, y2),
    ensures
        x1 == x2,
        y1 == y2,
{
    if let Some(op) = instruction {
        let chunks1 = choose|chunks: (Vec<u64>, Vec<u64>)| #[trigger]
            call_ensures(I::operand_chunks, (&op, c, log_m), chunks) && is_lifted(
                chunks.0@,
                chunks.1@,
                x1,
                y1,
            );
        let chunks2 = choose|chunks: (Vec<u64>, Vec<u64>)| #[trigger]
            call_ensures(I::operand_chunks, (&op, c, log_m), chunks) && is_lifted(
                chunks.0@,
                chunks.1@,
                x2,
                y2,
            );
        assert(chunks1.0@ == chunks2.0@ && chunks1.1@ == chunks2.1@);
        assert forall|k: int| 0 <= k < x1.len() implies x1[k] == x2[k] && y1[k] == y2[k] by {
            assert(call_ensures(F::from_u64, (chunks1.0@[k],), Some(x1[k])));
            assert(call_ensures(F::from_u64, (chunks1.0@[k],), Some(x2[k])));
            assert(call_ensures(F::from_u64, (chunks1.1@[k],), Some(y1[k])));
            assert(call_ensures(F::from_u64, (chunks1.1@[k],), Some(y2[k])));
        }
        assert(x1 =~= x2);
        assert(y1 =~= y2);
    }
}

proof fn lemma_trace_rows_are_unique<
    const C: usize,
    const M: usize,
    F: JoltField,
    PCS: CommitmentScheme<Field = F>,
    P: Subprotocols<F, PCS, C, M>,
>(
    instructions: Seq<Option<P::InstructionSet>>,
    zero1: F,
    x1: Seq<Seq<F>>,
    y1: Seq<Seq<F>>,
    zero2: F,
    x2: Seq<Seq<F>>,
    y2: Seq<Seq<F>>,
)
    requires
        field_is_a_function::<F>(),
        chunking_is_a_function::<P::InstructionSet>(),
        are_trace_rows::<C, M, F, PCS, P>(instructions, zero1, x1, y1),
        are_trace_rows::<C, M, F, PCS, P>(instructions, zero2, x2, y2),
    ensures
        zero1 == zero2,
        x1 == x2,
        y1 == y2,
{
    let log_m = ceil_log2(M as nat) as usize;
    assert forall|i: int| 0 <= i < instructions.len() implies x1[i] == x2[i] && y1[i]
        == y2[i] by {
        assert(is_operand_row(instructions[i], zero1, C, log_m, x1[i], y1[i]));
        assert(is_operand_row(instructions[i], zero2, C, log_m, x2[i], y2[i]));
        lemma_operand_row_is_unique(
            instructions[i],
            zero1,
            C,
            log_m,
            x1[i],
            y1[i],
            x2[i],
            y2[i],
        );
    }
    assert(x1 =~= x2);
    assert(y1 =~= y2);
}

/// Where the field has an element for every chunk, it lacks none.
proof fn lemma_trace_rows_are_in_field<
    const C: usize,
    const M: usize,
    F: JoltField,
    PCS: CommitmentScheme<Field = F>,
    P: Subprotocols<F, PCS, C, M>,
>(
    instructions: Seq<Option<P::InstructionSet>>,
    zero: F,
    rows_x: Seq<Seq<F>>,
    rows_y: Seq<Seq<F>>,
)
    requires
        field_is_a_function::<F>(),
        chunking_is_a_function::<P::InstructionSet>(),
        are_trace_rows::<C, M, F, PCS, P>(instructions, zero, rows_x, rows_y),
    ensures
        !has_chunk_outside_field::<F, P::InstructionSet>(
            instructions,
            C,
            ceil_log2(M as nat) as usize,
        ),
{
    let log_m = ceil_log2(M as nat) as usize;
    if has_chunk_outside_field::<F, P::InstructionSet>(instructions, C, log_m) {
        let (i, op, chunks) = choose|i: int, op: P::InstructionSet, chunks: (Vec<u64>, Vec<u64>)|
            {
                &&& 0 <= i < instructions.len()
                &&& #[trigger] instructions[i] == Some(op)
                &&& #[trigger] call_ensures(
                    P::InstructionSet::operand_chunks,
                    (&op, C, log_m),
                    chunks,
                )
                &&& is_not_liftable::<F>(chunks.0@, chunks.1@)
            };
        assert(is_operand_row(instructions[i], zero, C, log_m, rows_x[i], rows_y[i]));
        let lifted = choose|lifted: (Vec<u64>, Vec<u64>)| #[trigger]
            call_ensures(P::InstructionSet::operand_chunks, (&op, C, log_m), lifted) && is_lifted(
                lifted.0@,
                lifted.1@,
                rows_x[i],
                rows_y[i],
            );
        assert(chunks.0@ == lifted.0@ && chunks.1@ == lifted.1@);
        let n = pair_count(chunks.0@, chunks.1@);
        if exists|k: int|
            0 <= k < n && #[trigger] call_ensures(F::from_u64, (chunks.0@[k],), None::<F>) {
            let k = choose|k: int|
                0 <= k < n && #[trigger] call_ensures(F::from_u64, (chunks.0@[k],), None::<F>);
            assert(call_ensures(F::from_u64, (chunks.0@[k],), Some(rows_x[i][k])));
        } else {
            let k = choose|k: int|
                0 <= k < n && #[trigger] call_ensures(F::from_u64, (chunks.1@[k],), None::<F>);
            assert(call_ensures(F::from_u64, (chunks.1@[k],), Some(rows_y[i][k])));
        }
    }
}

/// There is one pair of chunk tables at most, and where there is one, nothing stands in
/// the way of it.
proof fn lemma_chunk_tables_are_unique<
    const C: usize,
    const M: usize,
    F: JoltField,
    PCS: CommitmentScheme<Field = F>,
    P: Subprotocols<F, PCS, C, M>,
>(
    padded_trace_length: usize,
    instructions: Seq<Option<P::InstructionSet>>,
    chunks_x: Seq<F>,
    chunks_y: Seq<F>,
)
    requires
        field_is_a_function::<F>(),
        chunking_is_a_function::<P::InstructionSet>(),
        are_chunk_tables::<C, M, F, PCS, P>(padded_trace_length, instructions, chunks_x, chunks_y),
    ensures
        !has_chunk_outside_field::<F, P::InstructionSet>(
            instructions,
            C,
            ceil_log2(M as nat) as usize,
        ),
        !has_chunk_outside_trace::<C, M, F, PCS, P>(padded_trace_length, instructions),
        forall|x: Seq<F>, y: Seq<F>| #[trigger]
            are_chunk_tables::<C, M, F, PCS, P>(padded_trace_length, instructions, x, y) ==> x
                == chunks_x && y == chunks_y,
{
    let stride = padded_trace_length as int;
    let (zero, rows_x, rows_y) = choose|zero: F, rows_x: Seq<Seq<F>>, rows_y: Seq<Seq<F>>|
        {
            &&& #[trigger] are_trace_rows::<C, M, F, PCS, P>(instructions, zero, rows_x, rows_y)
            &&& entries_fit(rows_x, stride, stride * C)
            &&& entries_fit(rows_y, stride, stride * C)
            &&& chunks_x.len() == stride * C
            &&& chunks_y.len() == stride * C
            &&& is_scattered(rows_x, zero, stride, chunks_x)
            &&& is_scattered(rows_y, zero, stride, chunks_y)
        };
    lemma_trace_rows_are_in_field::<C, M, F, PCS, P>(instructions, zero, rows_x, rows_y);
    assert forall|z: F, x: Seq<Seq<F>>, y: Seq<Seq<F>>| #[trigger]
        are_trace_rows::<C, M, F, PCS, P>(instructions, z, x, y) implies z == zero && x == rows_x
        && y == rows_y by {
        lemma_trace_rows_are_unique::<C, M, F, PCS, P>(
            instructions,
            z,
            x,
            y,
            zero,
            rows_x,
            rows_y,
        );
    }
    assert forall|x: Seq<F>, y: Seq<F>| #[trigger]
        are_chunk_tables::<C, M, F, PCS, P>(padded_trace_length, instructions, x, y) implies x
        == chunks_x && y == chunks_y by {
        lemma_scattered_table_is_unique(rows_x, zero, stride, x, chunks_x);
        lemma_scattered_table_is_unique(rows_y, zero, stride, y, chunks_y);
    }
}

/// The setup of the constraint system makes no choice of its own: where the calls it
/// makes are functions, all it may return for the same inputs is the same.
pub proof fn setup_is_a_function<
    const C: usize,
    const M: usize,
    F: JoltField,
    PCS: CommitmentScheme<Field = F>,
    P: Subprotocols<F, PCS, C, M>,
>(
    padded_trace_length: usize,
    memory_start: u64,
    instructions: Seq<Option<P::InstructionSet>>,
    polynomials: JoltPolynomials<F>,
    circuit_flags: Seq<F>,
    generators: PCS::Setup,
    result1: Result<
        (UniformSpartanKey<F, P::R1CSConstraints>, Vec<Vec<F>>, P::R1CSCommitment),
        R1CSSetupError<P::R1CSError>,
    >,
    result2: Result<
        (UniformSpartanKey<F, P::R1CSConstraints>, Vec<Vec<F>>, P::R1CSCommitment),
        R1CSSetupError<P::R1CSError>,
    >,
)
    requires
        setup_calls_are_functions::<C, M, F, PCS, P>(),
        is_r1cs_setup::<C, M, F, PCS, P>(
            padded_trace_length,
            memory_start,
            instructions,
            polynomials,
            circuit_flags,
            generators,
            result1,
        ),
        is_r1cs_setup::<C, M, F, PCS, P>(
            padded_trace_length,
            memory_start,
            instructions,
            polynomials,
            circuit_flags,
            generators,
            result2,
        ),
    ensures
        result1 == result2,
{
    let log_m = ceil_log2(M as nat) as usize;
    if has_chunk_outside_trace::<C, M, F, PCS, P>(padded_trace_length, instructions) {
        let stride = padded_trace_length as int;
        let (zero, rows_x, rows_y) = choose|zero: F, rows_x: Seq<Seq<F>>, rows_y: Seq<Seq<F>>|
            {
                &&& #[trigger] are_trace_rows::<C, M, F, PCS, P>(
                    instructions,
                    zero,
                    rows_x,
                    rows_y,
                )
                &&& !(entries_fit(rows_x, stride, stride * C) && entries_fit(
                    rows_y,
                    stride,
                    stride * C,
                ))
            };
        lemma_trace_rows_are_in_field::<C, M, F, PCS, P>(instructions, zero, rows_x, rows_y);
    }
    assert forall|x: Seq<F>, y: Seq<F>| #[trigger]
        are_chunk_tables::<C, M, F, PCS, P>(
            padded_trace_length,
            instructions,
            x,
            y,
        ) implies !has_chunk_outside_field::<F, P::InstructionSet>(instructions, C, log_m)
        && !has_chunk_outside_trace::<C, M, F, PCS, P>(padded_trace_length, instructions) by {
        lemma_chunk_tables_are_unique::<C, M, F, PCS, P>(padded_trace_length, instructions, x, y);
    }
    assert forall|i: R1CSInputs<F>, j: R1CSInputs<F>|
        #[trigger] are_r1cs_inputs::<C, M, F, PCS, P>(
            padded_trace_length,
            instructions,
            polynomials,
            circuit_flags,
            i,
        ) && #[trigger] are_r1cs_inputs::<C, M, F, PCS, P>(
            padded_trace_length,
            instructions,
            polynomials,
            circuit_flags,
            j,
        ) implies are_same_inputs(i, j) by {
        lemma_chunk_tables_are_unique::<C, M, F, PCS, P>(
            padded_trace_length,
            instructions,
            i.chunks_x@,
            i.chunks_y@,
        );
    }
}

/// A cycle past the end of the instructions counts as one without an instruction: where
/// all calls are functions, the setup returns the same for a trace and for the trace
/// with idle cycles behind it.
pub proof fn setups_with_idle_cycles_agree<
    const C: usize,
    const M: usize,
    F: JoltField,
    PCS: CommitmentScheme<Field = F>,
    P: Subprotocols<F, PCS, C, M>,
>(
    padded_trace_length: usize,
    memory_start: u64,
    instructions: Seq<Option<P::InstructionSet>>,
    idle: nat,
    polynomials: JoltPolynomials<F>,
    circuit_flags: Seq<F>,
    generators: PCS::Setup,
    result1: Result<
        (UniformSpartanKey<F, P::R1CSConstraints>, Vec<Vec<F>>, P::R1CSCommitment),
        R1CSSetupError<P::R1CSError>,
    >,
    result2: Result<
        (UniformSpartanKey<F, P::R1CSConstraints>, Vec<Vec<F>>, P::R1CSCommitment),
        R1CSSetupError<P::R1CSError>,
    >,
)
    requires
        setup_calls_are_functions::<C, M, F, PCS, P>(),
        instructions.len() + idle <= padded_trace_length,
        is_r1cs_setup::<C, M, F, PCS, P>(
            padded_trace_length,
            memory_start,
            instructions,
            polynomials,
            circuit_flags,
            generators,
            result1,
        ),
        is_r1cs_setup::<C, M, F, PCS, P>(
            padded_trace_length,
            memory_start,
            with_idle_cycles(instructions, idle),
            polynomials,
            circuit_flags,
            generators,
            result2,
        ),
    ensures
        result1 == result2,
{
    idle_cycles_change_nothing::<C, M, F, PCS, P>(
        padded_trace_length,
        memory_start,
        instructions,
        idle,
        polynomials,
        circuit_flags,
        generators,
        result2,
    );
    setup_is_a_function::<C, M, F, PCS, P>(
        padded_trace_length,
        memory_start,
        instructions,
        polynomials,
        circuit_flags,
        generators,
        result1,
        result2,
    );
}

/// Where all calls are functions, the setup returns the same for two traces whose cycles
/// have the same operand chunks.
pub proof fn setups_with_same_chunks_agree<
    const C: usize,
    const M: usize,
    F: JoltField,
    PCS: CommitmentScheme<Field = F>,
    P: Subprotocols<F, PCS, C, M>,
>(
    padded_trace_length: usize,
    memory_start: u64,
    instructions1: Seq<Option<P::InstructionSet>>,
    instructions2: Seq<Option<P::InstructionSet>>,
    zero: F,
    polynomials: JoltPolynomials<F>,
    circuit_flags: Seq<F>,
    generators: PCS::Setup,
    result1: Result<
        (UniformSpartanKey<F, P::R1CSConstraints>, Vec<Vec<F>>, P::R1CSCommitment),
        R1CSSetupError<P::R1CSError>,
    >,
    result2: Result<
        (UniformSpartanKey<F, P::R1CSConstraints>, Vec<Vec<F>>, P::R1CSCommitment),
        R1CSSetupError<P::R1CSError>,
    >,
)
    requires
        setup_calls_are_functions::<C, M, F, PCS, P>(),
        have_same_chunks(instructions1, instructions2, C, ceil_log2(M as nat) as usize),
        are_idle_together(instructions1, instructions2) || is_zero_of_field(zero),
        is_r1cs_setup::<C, M, F, PCS, P>(
            padded_trace_length,
            memory_start,
            instructions1,
            polynomials,
            circuit_flags,
            generators,
            result1,
        ),
        is_r1cs_setup::<C, M, F, PCS, P>(
            padded_trace_length,
            memory_start,
            instructions2,
            polynomials,
            circuit_flags,
            generators,
            result2,
        ),
    ensures
        result1 == result2,
{
    setup_depends_on_operand_chunks::<C, M, F, PCS, P>(
        padded_trace_length,
        memory_start,
        instructions1,
        instructions2,
        zero,
        polynomials,
        circuit_flags,
        generators,
        result2,
    );
    setup_is_a_function::<C, M, F, PCS, P>(
        padded_trace_length,
        memory_start,
        instructions1,
        polynomials,
        circuit_flags,
        generators,
        result1,
        result2,
    );
}

/// Two commitments to the bytecode polynomials are the same.
pub open spec fn are_same_bytecode_commitments<PCS: CommitmentScheme>(
    c: BytecodeCommitment<PCS>,
    d: BytecodeCommitment<PCS>,
) -> bool {
    &&& c.trace_commitments@ == d.trace_commitments@
    &&& c.t_final_commitment == d.t_final_commitment
}

/// Two commitments to the memory polynomials are the same.
pub open spec fn are_same_memory_commitments<PCS: CommitmentScheme>(
    c: MemoryCommitment<PCS>,
    d: MemoryCommitment<PCS>,
) -> bool {
    &&& c.trace_commitments@ == d.trace_commitments@
    &&& c.v_final_commitment == d.v_final_commitment
    &&& c.t_final_commitment == d.t_final_commitment
}

/// Two commitments to the range-check polynomials are the same.
pub open spec fn are_same_range_check_commitments<PCS: CommitmentScheme>(
    c: RangeCheckCommitment<PCS>,
    d: RangeCheckCommitment<PCS>,
) -> bool {
    c.commitments@ == d.commitments@
}

/// Two commitments to the lookup polynomials are the same.
pub open spec fn are_same_lookup_commitments<PCS: CommitmentScheme>(
    c: InstructionCommitment<PCS>,
    d: InstructionCommitment<PCS>,
) -> bool {
    &&& c.trace_commitment@ == d.trace_commitment@
    &&& c.final_commitment@ == d.final_commitment@
}

/// The commitments of two executions are the same.
pub open spec fn are_same_commitments<PCS: CommitmentScheme, R>(
    c: JoltCommitments<PCS, R>,
    d: JoltCommitments<PCS, R>,
) -> bool {
    &&& are_same_bytecode_commitments(c.bytecode, d.bytecode)
    &&& are_same_memory_commitments(c.read_write_memory, d.read_write_memory)
    &&& are_same_range_check_commitments(c.timestamp_range_check, d.timestamp_range_check)
    &&& are_same_lookup_commitments(c.instruction_lookups, d.instruction_lookups)
    &&& c.r1cs == d.r1cs
}

/// Two memory traces hold the same operations.
pub open spec fn are_same_rows<Op>(
    rows1: Seq<[Op; MEMORY_OPS_PER_INSTRUCTION]>,
    rows2: Seq<[Op; MEMORY_OPS_PER_INSTRUCTION]>,
) -> bool {
    &&& rows1.len() == rows2.len()
    &&& forall|i: int|
        #![trigger rows1[i]]
        #![trigger rows2[i]]
        0 <= i < rows1.len() ==> rows1[i]@ == rows2[i]@
}

/// What turns a trace into polynomials gives one answer to the same question.
pub open spec fn polynomial_calls_are_functions<
    const C: usize,
    const M: usize,
    F: JoltField,
    PCS: CommitmentScheme<Field = F>,
    P: Subprotocols<F, PCS, C, M>,
>() -> bool {
    &&& forall|
        pre: P::LookupsPreprocessing,
        instructions: Vec<Option<P::InstructionSet>>,
        x: InstructionPolynomials<F>,
        y: InstructionPolynomials<F>,
    |
        #[trigger] call_ensures(P::lookups_polynomials, (&pre, &instructions), x)
            && #[trigger] call_ensures(P::lookups_polynomials, (&pre, &instructions), y) ==> x
            == y
    &&& forall|x: P::MemoryOp, y: P::MemoryOp|
        #[trigger] call_ensures(P::noop_read, (), x) && #[trigger] call_ensures(
            P::noop_read,
            (),
            y,
        ) ==> x == y
    &&& forall|x: P::MemoryOp, y: P::MemoryOp|
        #[trigger] call_ensures(P::noop_write, (), x) && #[trigger] call_ensures(
            P::noop_write,
            (),
            y,
        ) ==> x == y
    &&& forall|
        program_io: JoltDevice,
        flags1: &[DensePolynomial<F>],
        flags2: &[DensePolynomial<F>],
        pre: ReadWriteMemoryPreprocessing<P::MemoryImage>,
        padded1: Vec<[P::MemoryOp; MEMORY_OPS_PER_INSTRUCTION]>,
        padded2: Vec<[P::MemoryOp; MEMORY_OPS_PER_INSTRUCTION]>,
        x: (ReadWriteMemory<F>, P::ReadTimestamps),
        y: (ReadWriteMemory<F>, P::ReadTimestamps),
    |
        flags1@ == flags2@ && are_same_rows(padded1@, padded2@) && #[trigger] call_ensures(
            P::memory_polynomials,
            (&program_io, flags1, &pre, padded1),
            x,
        ) && #[trigger] call_ensures(
            P::memory_polynomials,
            (&program_io, flags2, &pre, padded2),
            y,
        ) ==> x == y
    &&& forall|t: P::ReadTimestamps, x: RangeCheckPolynomials<F>, y: RangeCheckPolynomials<F>|
        #[trigger] call_ensures(P::timestamp_polynomials, (t,), x) && #[trigger] call_ensures(
            P::timestamp_polynomials,
            (t,),
            y,
        ) ==> x == y
    &&& forall|
        pre: P::BytecodePreprocessing,
        trace: Vec<P::BytecodeRow>,
        x: BytecodePolynomials<F>,
        y: BytecodePolynomials<F>,
    |
        #[trigger] call_ensures(P::bytecode_polynomials, (&pre, trace), x)
            && #[trigger] call_ensures(P::bytecode_polynomials, (&pre, trace), y) ==> x == y
}

/// A scheme makes one commitment of the same polynomials under the same setup.
pub open spec fn scheme_is_a_function<F: JoltField, PCS: CommitmentScheme<Field = F>>() -> bool {
    &&& forall|g: PCS::Setup| #[trigger] batch_is_a_function::<F, PCS>(g)
    &&& forall|p: DensePolynomial<F>, g: PCS::Setup, x: PCS::Commitment, y: PCS::Commitment|
        #[trigger] call_ensures(PCS::commit, (&p, &g), x) && #[trigger] call_ensures(
            PCS::commit,
            (&p, &g),
            y,
        ) ==> x == y
    &&& forall|
        p: Vec<DensePolynomial<F>>,
        g: PCS::Setup,
        x: Vec<PCS::Commitment>,
        y: Vec<PCS::Commitment>,
    |
        #[trigger] call_ensures(PCS::batch_commit_polys, (&p, &g, BatchType::Big), x)
            && #[trigger] call_ensures(PCS::batch_commit_polys, (&p, &g, BatchType::Big), y)
            ==> x@ == y@
}

/// What a transcript holds after a commitment is absorbed is a function of the
/// commitment and of what the transcript held before.
pub open spec fn absorbing_is_a_function<
    const C: usize,
    const M: usize,
    F: JoltField,
    PCS: CommitmentScheme<Field = F>,
    P: Subprotocols<F, PCS, C, M>,
>() -> bool {
    &&& forall|
        label: &'static str,
        c: BytecodeCommitment<PCS>,
        d: BytecodeCommitment<PCS>,
        s: ProofTranscript<F>,
        t: ProofTranscript<F>,
        u: ProofTranscript<F>,
        v: ProofTranscript<F>,
    |
        are_same_bytecode_commitments(c, d) && s@ == t@ && #[trigger] call_ensures(
            P::bytecode_append_commitment,
            (&c, label, s),
            u,
        ) && #[trigger] call_ensures(P::bytecode_append_commitment, (&d, label, t), v) ==> u@ == v@
    &&& forall|
        label: &'static str,
        c: MemoryCommitment<PCS>,
        d: MemoryCommitment<PCS>,
        s: ProofTranscript<F>,
        t: ProofTranscript<F>,
        u: ProofTranscript<F>,
        v: ProofTranscript<F>,
    |
        are_same_memory_commitments(c, d) && s@ == t@ && #[trigger] call_ensures(
            P::memory_append_commitment,
            (&c, label, s),
            u,
        ) && #[trigger] call_ensures(P::memory_append_commitment, (&d, label, t), v) ==> u@ == v@
    &&& forall|
        label: &'static str,
        c: RangeCheckCommitment<PCS>,
        d: RangeCheckCommitment<PCS>,
        s: ProofTranscript<F>,
        t: ProofTranscript<F>,
        u: ProofTranscript<F>,
        v: ProofTranscript<F>,
    |
        are_same_range_check_commitments(c, d) && s@ == t@ && #[trigger] call_ensures(
            P::timestamp_append_commitment,
            (&c, label, s),
            u,
        ) && #[trigger] call_ensures(P::timestamp_append_commitment, (&d, label, t), v) ==> u@ == v@
    &&& forall|
        label: &'static str,
        c: InstructionCommitment<PCS>,
        d: InstructionCommitment<PCS>,
        s: ProofTranscript<F>,
        t: ProofTranscript<F>,
        u: ProofTranscript<F>,
        v: ProofTranscript<F>,
    |
        are_same_lookup_commitments(c, d) && s@ == t@ && #[trigger] call_ensures(
            P::lookups_append_commitment,
            (&c, label, s),
            u,
        ) && #[trigger] call_ensures(P::lookups_append_commitment, (&d, label, t), v) ==> u@ == v@
    &&& forall|
        label: &'static str,
        c: P::R1CSCommitment,
        d: P::R1CSCommitment,
        s: ProofTranscript<F>,
        t: ProofTranscript<F>,
        u: ProofTranscript<F>,
        v: ProofTranscript<F>,
    |
        c == d && s@ == t@ && #[trigger] call_ensures(
            P::r1cs_append_commitment,
            (&c, label, s),
            u,
        ) && #[trigger] call_ensures(P::r1cs_append_commitment, (&d, label, t), v) ==> u@ == v@
}

/// What an argument returns, and what its transcript holds then, is a function of what
/// it is given and of what the transcript held before.
pub open spec fn arguments_are_functions<
    const C: usize,
    const M: usize,
    F: JoltField,
    PCS: CommitmentScheme<Field = F>,
    P: Subprotocols<F, PCS, C, M>,
>() -> bool {
    &&& forall|
        pre: P::BytecodePreprocessing,
        g: PCS::Setup,
        c: BytecodeCommitment<PCS>,
        d: BytecodeCommitment<PCS>,
        p: BytecodePolynomials<F>,
        s: ProofTranscript<F>,
        t: ProofTranscript<F>,
        x: (P::BytecodeProof, ProofTranscript<F>),
        y: (P::BytecodeProof, ProofTranscript<F>),
    |
        are_same_bytecode_commitments(c, d) && s@ == t@ && #[trigger] call_ensures(
            P::bytecode_prove,
            (&pre, &g, &c, &p, s),
            x,
        ) && #[trigger] call_ensures(P::bytecode_prove, (&pre, &g, &d, &p, t), y) ==> x.0 == y.0
            && x.1@ == y.1@
    &&& forall|
        p: InstructionPolynomials<F>,
        g: PCS::Setup,
        c: InstructionCommitment<PCS>,
        d: InstructionCommitment<PCS>,
        pre: P::LookupsPreprocessing,
        s: ProofTranscript<F>,
        t: ProofTranscript<F>,
        x: (P::LookupsProof, ProofTranscript<F>),
        y: (P::LookupsProof, ProofTranscript<F>),
    |
        are_same_lookup_commitments(c, d) && s@ == t@ && #[trigger] call_ensures(
            P::lookups_prove,
            (&p, &g, &c, &pre, s),
            x,
        ) && #[trigger] call_ensures(P::lookups_prove, (&p, &g, &d, &pre, t), y) ==> x.0 == y.0
            && x.1@ == y.1@
    &&& forall|
        pre: ReadWriteMemoryPreprocessing<P::MemoryImage>,
        g: PCS::Setup,
        c: JoltCommitments<PCS, P::R1CSCommitment>,
        d: JoltCommitments<PCS, P::R1CSCommitment>,
        p: JoltPolynomials<F>,
        program_io: JoltDevice,
        s: ProofTranscript<F>,
        t: ProofTranscript<F>,
        x: (P::MemoryProof, ProofTranscript<F>),
        y: (P::MemoryProof, ProofTranscript<F>),
    |
        are_same_commitments(c, d) && s@ == t@ && #[trigger] call_ensures(
            P::memory_prove,
            (&pre, &g, &c, &p, &program_io, s),
            x,
        ) && #[trigger] call_ensures(P::memory_prove, (&pre, &g, &d, &p, &program_io, t), y)
            ==> x.0 == y.0 && x.1@ == y.1@
    &&& forall|
        key: UniformSpartanKey<F, P::R1CSConstraints>,
        g: PCS::Setup,
        c: JoltCommitments<PCS, P::R1CSCommitment>,
        d: JoltCommitments<PCS, P::R1CSCommitment>,
        segments: Vec<Vec<F>>,
        s: ProofTranscript<F>,
        t: ProofTranscript<F>,
        x: (
            Result<R1CSProof<F, P::R1CSConstraints, P::R1CSArgument>, P::R1CSError>,
            ProofTranscript<F>,
        ),
        y: (
            Result<R1CSProof<F, P::R1CSConstraints, P::R1CSArgument>, P::R1CSError>,
            ProofTranscript<F>,
        ),
    |
        are_same_commitments(c, d) && s@ == t@ && #[trigger] call_ensures(
            P::r1cs_prove,
            (key, &g, &c, C, segments, s),
            x,
        ) && #[trigger] call_ensures(P::r1cs_prove, (key, &g, &d, C, segments, t), y) ==> x.0
            == y.0
}

/// All calls that the prover makes are functions.
pub open spec fn prover_calls_are_functions<
    const C: usize,
    const M: usize,
    F: JoltField,
    PCS: CommitmentScheme<Field = F>,
    P: Subprotocols<F, PCS, C, M>,
>() -> bool {
    &&& polynomial_calls_are_functions::<C, M, F, PCS, P>()
    &&& scheme_is_a_function::<F, PCS>()
    &&& setup_calls_are_functions::<C, M, F, PCS, P>()
    &&& absorbing_is_a_function::<C, M, F, PCS, P>()
    &&& arguments_are_functions::<C, M, F, PCS, P>()
}

/// Two results of the prover are the same: the same proof with the same commitments, or
/// the same error.
pub open spec fn are_same_results<
    const C: usize,
    const M: usize,
    F: JoltField,
    PCS: CommitmentScheme<Field = F>,
    P: Subprotocols<F, PCS, C, M>,
>(
    result1: Result<
        (JoltProof<C, M, F, PCS, P>, JoltCommitments<PCS, P::R1CSCommitment>),
        ProveError<P::R1CSError>,
    >,
    result2: Result<
        (JoltProof<C, M, F, PCS, P>, JoltCommitments<PCS, P::R1CSCommitment>),
        ProveError<P::R1CSError>,
    >,
) -> bool {
    match (result1, result2) {
        (Ok((proof1, commitments1)), Ok((proof2, commitments2))) => {
            &&& proof1 == proof2
            &&& are_same_commitments(commitments1, commitments2)
        },
        (Err(e1), Err(e2)) => e1 == e2,
        _ => false,
    }
}

proof fn lemma_memory_polynomials_are_unique<
    const C: usize,
    const M: usize,
    F: JoltField,
    PCS: CommitmentScheme<Field = F>,
    P: Subprotocols<F, PCS, C, M>,
>(
    program_io: JoltDevice,
    memory_trace: Seq<[P::MemoryOp; MEMORY_OPS_PER_INSTRUCTION]>,
    padded_trace_length: usize,
    preprocessing: JoltPreprocessing<C, M, F, PCS, P>,
    p1: JoltPolynomials<F>,
    p2: JoltPolynomials<F>,
    t1: P::ReadTimestamps,
    t2: P::ReadTimestamps,
)
    requires
        polynomial_calls_are_functions::<C, M, F, PCS, P>(),
        p1.instruction_lookups == p2.instruction_lookups,
        are_memory_polynomials(
            program_io,
            memory_trace,
            padded_trace_length,
            preprocessing,
            p1,
            t1,
        ),
        are_memory_polynomials(
            program_io,
            memory_trace,
            padded_trace_length,
            preprocessing,
            p2,
            t2,
        ),
    ensures
        p1.read_write_memory == p2.read_write_memory,
        t1 == t2,
{
    let (flags1, padded1) = choose|
        flags: &[DensePolynomial<F>],
        padded: Vec<[P::MemoryOp; MEMORY_OPS_PER_INSTRUCTION]>,
    |
        {
            &&& flags@ == p1.instruction_lookups.instruction_flag_polys@.subrange(
                LOAD_STORE_FLAGS_START as int,
                LOAD_STORE_FLAGS_END as int,
            )
            &&& is_padded_trace::<C, M, F, PCS, P>(memory_trace, padded_trace_length, padded@)
            &&& #[trigger] call_ensures(
                P::memory_polynomials,
                (&program_io, flags, &preprocessing.read_write_memory, padded),
                (p1.read_write_memory, t1),
            )
        };
    let (flags2, padded2) = choose|
        flags: &[DensePolynomial<F>],
        padded: Vec<[P::MemoryOp; MEMORY_OPS_PER_INSTRUCTION]>,
    |
        {
            &&& flags@ == p2.instruction_lookups.instruction_flag_polys@.subrange(
                LOAD_STORE_FLAGS_START as int,
                LOAD_STORE_FLAGS_END as int,
            )
            &&& is_padded_trace::<C, M, F, PCS, P>(memory_trace, padded_trace_length, padded@)
            &&& #[trigger] call_ensures(
                P::memory_polynomials,
                (&program_io, flags, &preprocessing.read_write_memory, padded),
                (p2.read_write_memory, t2),
            )
        };
    assert(are_same_rows(padded1@, padded2@));
}

proof fn lemma_polynomials_are_unique<
    const C: usize,
    const M: usize,
    F: JoltField,
    PCS: CommitmentScheme<Field = F>,
    P: Subprotocols<F, PCS, C, M>,
>(
    program_io: JoltDevice,
    bytecode_trace: Vec<P::BytecodeRow>,
    memory_trace: Seq<[P::MemoryOp; MEMORY_OPS_PER_INSTRUCTION]>,
    instructions: Vec<Option<P::InstructionSet>>,
    padded_trace_length: usize,
    preprocessing: JoltPreprocessing<C, M, F, PCS, P>,
    result1: Option<JoltPolynomials<F>>,
    result2: Option<JoltPolynomials<F>>,
)
    requires
        polynomial_calls_are_functions::<C, M, F, PCS, P>(),
        is_polynomialized(
            program_io,
            bytecode_trace,
            memory_trace,
            instructions,
            padded_trace_length,
            preprocessing,
            result1,
        ),
        is_polynomialized(
            program_io,
            bytecode_trace,
            memory_trace,
            instructions,
            padded_trace_length,
            preprocessing,
            result2,
        ),
    ensures
        result1 == result2,
{
    if result1 is Some && result2 is Some {
        let p1 = result1->0;
        let p2 = result2->0;
        let t1 = choose|t: P::ReadTimestamps|
            {
                &&& are_memory_polynomials(
                    program_io,
                    memory_trace,
                    padded_trace_length,
                    preprocessing,
                    p1,
                    t,
                )
                &&& #[trigger] call_ensures(
                    P::timestamp_polynomials,
                    (t,),
                    p1.timestamp_range_check,
                )
            };
        let t2 = choose|t: P::ReadTimestamps|
            {
                &&& are_memory_polynomials(
                    program_io,
                    memory_trace,
                    padded_trace_length,
                    preprocessing,
                    p2,
                    t,
                )
                &&& #[trigger] call_ensures(
                    P::timestamp_polynomials,
                    (t,),
                    p2.timestamp_range_check,
                )
            };
        lemma_memory_polynomials_are_unique(
            program_io,
            memory_trace,
            padded_trace_length,
            preprocessing,
            p1,
            p2,
            t1,
            t2,
        );
    }
}

proof fn lemma_commitments_are_unique<F: JoltField, PCS: CommitmentScheme<Field = F>, R>(
    polynomials: JoltPolynomials<F>,
    generators: PCS::Setup,
    result1: Result<JoltCommitments<PCS, R>, MissingCommitments>,
    result2: Result<JoltCommitments<PCS, R>, MissingCommitments>,
)
    requires
        scheme_is_a_function::<F, PCS>(),
        committed(polynomials, generators, result1),
        committed(polynomials, generators, result2),
    ensures
        result1 is Ok <==> result2 is Ok,
        result1 is Ok && result2 is Ok ==> are_same_commitments(result1->Ok_0, result2->Ok_0),
{
    assert(batch_is_a_function::<F, PCS>(generators));
    final_polynomials_stay_out_of_the_trace(
        polynomials,
        polynomials,
        generators,
        result1,
        result2,
    );
}

proof fn lemma_opened_transcripts_are_the_same<
    const C: usize,
    const M: usize,
    F: JoltField,
    PCS: CommitmentScheme<Field = F>,
    P: Subprotocols<F, PCS, C, M>,
>(
    program_io: JoltDevice,
    trace_length: usize,
    vk_digest: F,
    commitments1: JoltCommitments<PCS, P::R1CSCommitment>,
    commitments2: JoltCommitments<PCS, P::R1CSCommitment>,
    transcript1: ProofTranscript<F>,
    transcript2: ProofTranscript<F>,
)
    requires
        absorbing_is_a_function::<C, M, F, PCS, P>(),
        are_same_commitments(commitments1, commitments2),
        is_opened::<C, M, F, PCS, P>(
            program_io,
            trace_length,
            vk_digest,
            commitments1,
            transcript1,
        ),
        is_opened::<C, M, F, PCS, P>(
            program_io,
            trace_length,
            vk_digest,
            commitments2,
            transcript2,
        ),
    ensures
        transcript1@ == transcript2@,
{
}

proof fn lemma_arguments_are_unique<
    const C: usize,
    const M: usize,
    F: JoltField,
    PCS: CommitmentScheme<Field = F>,
    P: Subprotocols<F, PCS, C, M>,
>(
    preprocessing: JoltPreprocessing<C, M, F, PCS, P>,
    program_io: JoltDevice,
    commitments1: JoltCommitments<PCS, P::R1CSCommitment>,
    commitments2: JoltCommitments<PCS, P::R1CSCommitment>,
    polynomials: JoltPolynomials<F>,
    key: UniformSpartanKey<F, P::R1CSConstraints>,
    witness_segments: Vec<Vec<F>>,
    opened1: ProofTranscript<F>,
    opened2: ProofTranscript<F>,
    arguments1: Arguments<C, M, F, PCS, P>,
    arguments2: Arguments<C, M, F, PCS, P>,
)
    requires
        arguments_are_functions::<C, M, F, PCS, P>(),
        are_same_commitments(commitments1, commitments2),
        opened1@ == opened2@,
        are_arguments(
            preprocessing,
            program_io,
            commitments1,
            polynomials,
            key,
            witness_segments,
            opened1,
            arguments1,
        ),
        are_arguments(
            preprocessing,
            program_io,
            commitments2,
            polynomials,
            key,
            witness_segments,
            opened2,
            arguments2,
        ),
    ensures
        arguments1 == arguments2,
{
}

/// The prover makes no choice of its own: where the calls it makes are functions, all it
/// may return for the same execution is the same.
pub proof fn prover_is_a_function<
    const C: usize,
    const M: usize,
    F: JoltField,
    PCS: CommitmentScheme<Field = F>,
    P: Subprotocols<F, PCS, C, M>,
>(
    execution: Execution<C, M, F, PCS, P>,
    preprocessing: JoltPreprocessing<C, M, F, PCS, P>,
    result1: Result<
        (JoltProof<C, M, F, PCS, P>, JoltCommitments<PCS, P::R1CSCommitment>),
        ProveError<P::R1CSError>,
    >,
    result2: Result<
        (JoltProof<C, M, F, PCS, P>, JoltCommitments<PCS, P::R1CSCommitment>),
        ProveError<P::R1CSError>,
    >,
)
    requires
        prover_calls_are_functions::<C, M, F, PCS, P>(),
        is_proved(execution, preprocessing, result1),
        is_proved(execution, preprocessing, result2),
    ensures
        are_same_results(result1, result2),
{
    let run1 = choose|run: ProverRun<C, M, F, PCS, P>|
        {
            &&& #[trigger] is_prover_run(execution, preprocessing, run)
            &&& result1 == prover_result(execution, run)
        };
    let run2 = choose|run: ProverRun<C, M, F, PCS, P>|
        {
            &&& #[trigger] is_prover_run(execution, preprocessing, run)
            &&& result2 == prover_result(execution, run)
        };
    let padded_trace_length = padded_length(execution.instructions@.len()) as usize;
    lemma_polynomials_are_unique(
        execution.program_io,
        execution.bytecode_trace,
        execution.memory_trace@,
        execution.instructions,
        padded_trace_length,
        preprocessing,
        run1.polynomials,
        run2.polynomials,
    );
    if run1.polynomials is Some {
        lemma_commitments_are_unique(
            run1.polynomials->0,
            preprocessing.generators,
            run1.committed,
            run2.committed,
        );
    }
    if run1.reaches_setup() {
        setup_is_a_function::<C, M, F, PCS, P>(
            padded_trace_length,
            (RAM_START_ADDRESS - execution.program_io.memory_layout.ram_witness_offset) as u64,
            execution.instructions@,
            run1.polynomials->0,
            execution.circuit_flags@,
            preprocessing.generators,
            run1.setup,
            run2.setup,
        );
    }
    if run1.reaches_arguments() {
        lemma_opened_transcripts_are_the_same::<C, M, F, PCS, P>(
            execution.program_io,
            execution.instructions.len(),
            run1.setup->Ok_0.0.vk_digest,
            run1.commitments(),
            run2.commitments(),
            run1.opened,
            run2.opened,
        );
        lemma_arguments_are_unique(
            preprocessing,
            execution.program_io,
            run1.commitments(),
            run2.commitments(),
            run1.polynomials->0,
            run1.setup->Ok_0.0,
            run1.setup->Ok_0.1,
            run1.opened,
            run2.opened,
            run1.arguments,
            run2.arguments,
        );
    }
}

/// A missing memory row counts as a no-op row: where all calls are functions, the prover
/// returns the same proof and the same commitments for a memory trace and for the trace
/// with no-op rows behind it.
pub proof fn proofs_with_noop_rows_agree<
    const C: usize,
    const M: usize,
    F: JoltField,
    PCS: CommitmentScheme<Field = F>,
    P: Subprotocols<F, PCS, C, M>,
>(
    execution1: Execution<C, M, F, PCS, P>,
    execution2: Execution<C, M, F, PCS, P>,
    noop_read: P::MemoryOp,
    noop_write: P::MemoryOp,
    preprocessing: JoltPreprocessing<C, M, F, PCS, P>,
    result1: Result<
        (JoltProof<C, M, F, PCS, P>, JoltCommitments<PCS, P::R1CSCommitment>),
        ProveError<P::R1CSError>,
    >,
    result2: Result<
        (JoltProof<C, M, F, PCS, P>, JoltCommitments<PCS, P::R1CSCommitment>),
        ProveError<P::R1CSError>,
    >,
)
    requires
        prover_calls_are_functions::<C, M, F, PCS, P>(),
        call_ensures(P::noop_read, (), noop_read),
        call_ensures(P::noop_write, (), noop_write),
        differ_in_memory_trace_only(execution1, execution2),
        execution1.memory_trace@.is_prefix_of(execution2.memory_trace@),
        forall|i: int|
            execution1.memory_trace@.len() <= i < execution2.memory_trace@.len()
                ==> (#[trigger] execution2.memory_trace@[i])@ == noop_row(noop_read, noop_write),
        is_proved(execution1, preprocessing, result1),
        is_proved(execution2, preprocessing, result2),
    ensures
        are_same_results(result1, result2),
{
    missing_memory_rows_are_noops(
        execution1,
        execution2,
        noop_read,
        noop_write,
        preprocessing,
        result2,
    );
    prover_is_a_function(execution1, preprocessing, result1, result2);
}

/// Where all calls are functions, the prover returns the same proof and the same
/// commitments for a memory trace and for the trace cut off at the padded length.
pub proof fn proofs_with_surplus_rows_agree<
    const C: usize,
    const M: usize,
    F: JoltField,
    PCS: CommitmentScheme<Field = F>,
    P: Subprotocols<F, PCS, C, M>,
>(
    execution1: Execution<C, M, F, PCS, P>,
    execution2: Execution<C, M, F, PCS, P>,
    preprocessing: JoltPreprocessing<C, M, F, PCS, P>,
    result1: Result<
        (JoltProof<C, M, F, PCS, P>, JoltCommitments<PCS, P::R1CSCommitment>),
        ProveError<P::R1CSError>,
    >,
    result2: Result<
        (JoltProof<C, M, F, PCS, P>, JoltCommitments<PCS, P::R1CSCommitment>),
        ProveError<P::R1CSError>,
    >,
)
    requires
        prover_calls_are_functions::<C, M, F, PCS, P>(),
        differ_in_memory_trace_only(execution1, execution2),
        padded_length(execution1.instructions@.len()) <= execution1.memory_trace@.len(),
        execution2.memory_trace@ == execution1.memory_trace@.take(
            padded_length(execution1.instructions@.len()) as int,
        ),
        is_proved(execution1, preprocessing, result1),
        is_proved(execution2, preprocessing, result2),
    ensures
        are_same_results(result1, result2),
{
    surplus_memory_rows_have_no_effect(execution1, execution2, preprocessing, result2);
    prover_is_a_function(execution1, preprocessing, result1, result2);
}

/// The memory argument gives one answer about the same proof, at transcripts that hold
/// the same, and leaves transcripts that hold the same.
pub open spec fn memory_verify_is_a_function<
    const C: usize,
    const M: usize,
    F: JoltField,
    PCS: CommitmentScheme<Field = F>,
    P: Subprotocols<F, PCS, C, M>,
>() -> bool {
    forall|
        proof: P::MemoryProof,
        g: PCS::Setup,
        pre: ReadWriteMemoryPreprocessing<P::MemoryImage>,
        c: JoltCommitments<PCS, P::R1CSCommitment>,
        s: ProofTranscript<F>,
        t: ProofTranscript<F>,
        x: (Result<(), P::Error>, ProofTranscript<F>),
        y: (Result<(), P::Error>, ProofTranscript<F>),
    |
        s@ == t@ && #[trigger] call_ensures(P::memory_verify, (proof, &g, &pre, &c, s), x)
            && #[trigger] call_ensures(P::memory_verify, (proof, &g, &pre, &c, t), y) ==> x.0
            == y.0 && x.1@ == y.1@
}

/// All calls that the verifier makes are functions.
pub open spec fn verifier_calls_are_functions<
    const C: usize,
    const M: usize,
    F: JoltField,
    PCS: CommitmentScheme<Field = F>,
    P: Subprotocols<F, PCS, C, M>,
>() -> bool {
    &&& absorbing_is_a_function::<C, M, F, PCS, P>()
    &&& forall|
        pre: P::BytecodePreprocessing,
        g: PCS::Setup,
        proof: P::BytecodeProof,
        c: BytecodeCommitment<PCS>,
        s: ProofTranscript<F>,
        t: ProofTranscript<F>,
        x: (Result<(), P::Error>, ProofTranscript<F>),
        y: (Result<(), P::Error>, ProofTranscript<F>),
    |
        s@ == t@ && #[trigger] call_ensures(P::bytecode_verify, (&pre, &g, proof, &c, s), x)
            && #[trigger] call_ensures(P::bytecode_verify, (&pre, &g, proof, &c, t), y) ==> x.0
            == y.0 && x.1@ == y.1@
    &&& forall|
        pre: P::LookupsPreprocessing,
        g: PCS::Setup,
        proof: P::LookupsProof,
        c: InstructionCommitment<PCS>,
        s: ProofTranscript<F>,
        t: ProofTranscript<F>,
        x: (Result<(), P::Error>, ProofTranscript<F>),
        y: (Result<(), P::Error>, ProofTranscript<F>),
    |
        s@ == t@ && #[trigger] call_ensures(P::lookups_verify, (&pre, &g, proof, &c, s), x)
            && #[trigger] call_ensures(P::lookups_verify, (&pre, &g, proof, &c, t), y) ==> x.0
            == y.0 && x.1@ == y.1@
    &&& memory_verify_is_a_function::<C, M, F, PCS, P>()
    &&& forall|
        proof: R1CSProof<F, P::R1CSConstraints, P::R1CSArgument>,
        g: PCS::Setup,
        c: JoltCommitments<PCS, P::R1CSCommitment>,
        s: ProofTranscript<F>,
        t: ProofTranscript<F>,
        x: (Result<(), P::R1CSError>, ProofTranscript<F>),
        y: (Result<(), P::R1CSError>, ProofTranscript<F>),
    |
        s@ == t@ && #[trigger] call_ensures(P::r1cs_verify, (proof, &g, c, C, s), x)
            && #[trigger] call_ensures(P::r1cs_verify, (proof, &g, c, C, t), y) ==> x.0 == y.0
    &&& forall|e: P::R1CSError, x: String, y: String|
        #[trigger] call_ensures(P::r1cs_error_message, (&e,), x) && #[trigger] call_ensures(
            P::r1cs_error_message,
            (&e,),
            y,
        ) ==> x == y
}

/// The verifier makes no choice of its own: where the calls it makes are functions, all
/// it may return for the same proof is the same.
pub proof fn verifier_is_a_function<
    const C: usize,
    const M: usize,
    F: JoltField,
    PCS: CommitmentScheme<Field = F>,
    P: Subprotocols<F, PCS, C, M>,
>(
    preprocessing: JoltPreprocessing<C, M, F, PCS, P>,
    proof: JoltProof<C, M, F, PCS, P>,
    commitments: JoltCommitments<PCS, P::R1CSCommitment>,
    result1: Result<(), ProofVerifyError<P::Error>>,
    result2: Result<(), ProofVerifyError<P::Error>>,
)
    requires
        verifier_calls_are_functions::<C, M, F, PCS, P>(),
        is_verified(preprocessing, proof, commitments, result1),
        is_verified(preprocessing, proof, commitments, result2),
    ensures
        result1 == result2,
{
    let run1 = choose|run: VerifierRun<C, M, F, PCS, P>|
        {
            &&& #[trigger] is_verifier_run(preprocessing, proof, commitments, run)
            &&& is_verdict(proof.program_io, run, result1)
        };
    let run2 = choose|run: VerifierRun<C, M, F, PCS, P>|
        {
            &&& #[trigger] is_verifier_run(preprocessing, proof, commitments, run)
            &&& is_verdict(proof.program_io, run, result2)
        };
    lemma_opened_transcripts_are_the_same::<C, M, F, PCS, P>(
        proof.program_io,
        proof.trace_length,
        proof.r1cs.key.vk_digest,
        commitments,
        commitments,
        run1.opened,
        run2.opened,
    );
    assert(run1.bytecode.0 == run2.bytecode.0 && run1.bytecode.1@ == run2.bytecode.1@);
    if reaches_lookups(run1) {
        assert(run1.lookups.0 == run2.lookups.0 && run1.lookups.1@ == run2.lookups.1@);
    }
    if reaches_memory(proof.program_io, run1) {
        assert(run1.memory.0 == run2.memory.0 && run1.memory.1@ == run2.memory.1@);
    }
    if reaches_r1cs(proof.program_io, run1) {
        assert(run1.r1cs.0 == run2.r1cs.0);
    }
    if result1 is Ok {
        assert(result1->Ok_0 == result2->Ok_0);
    }
}

/// The interface that a preprocessing stores is overridden by that of the proof: where
/// all calls are functions, the verifier returns the same for two preprocessings that
/// differ in nothing else.
pub proof fn verdicts_with_stored_interfaces_agree<
    const C: usize,
    const M: usize,
    F: JoltField,
    PCS: CommitmentScheme<Field = F>,
    P: Subprotocols<F, PCS, C, M>,
>(
    preprocessing1: JoltPreprocessing<C, M, F, PCS, P>,
    preprocessing2: JoltPreprocessing<C, M, F, PCS, P>,
    proof: JoltProof<C, M, F, PCS, P>,
    commitments: JoltCommitments<PCS, P::R1CSCommitment>,
    result1: Result<(), ProofVerifyError<P::Error>>,
    result2: Result<(), ProofVerifyError<P::Error>>,
)
    requires
        verifier_calls_are_functions::<C, M, F, PCS, P>(),
        preprocessing1.generators == preprocessing2.generators,
        preprocessing1.instruction_lookups == preprocessing2.instruction_lookups,
        preprocessing1.bytecode == preprocessing2.bytecode,
        preprocessing1.read_write_memory.image == preprocessing2.read_write_memory.image,
        is_verified(preprocessing1, proof, commitments, result1),
        is_verified(preprocessing2, proof, commitments, result2),
    ensures
        result1 == result2,
{
    stored_interface_has_no_effect(preprocessing1, preprocessing2, proof, commitments, result2);
    verifier_is_a_function(preprocessing1, proof, commitments, result1, result2);
}

/// Two calls of the memory check, with the same other arguments, on preprocessings that
/// hold the same memory image: where the memory argument is a function, both give the
/// same result and the same transcript, and they leave equal preprocessings, whatever
/// interfaces the preprocessings held before. A preprocessing that an earlier call left
/// behind is one of these.
pub proof fn memory_checks_of_one_image_agree<
    const C: usize,
    const M: usize,
    F: JoltField,
    PCS: CommitmentScheme<Field = F>,
    P: Subprotocols<F, PCS, C, M>,
>(
    preprocessing1: ReadWriteMemoryPreprocessing<P::MemoryImage>,
    preprocessing2: ReadWriteMemoryPreprocessing<P::MemoryImage>,
    generators: PCS::Setup,
    proof: P::MemoryProof,
    commitments: JoltCommitments<PCS, P::R1CSCommitment>,
    program_io: JoltDevice,
    before1: ProofTranscript<F>,
    before2: ProofTranscript<F>,
    after1: ProofTranscript<F>,
    after2: ProofTranscript<F>,
    result1: Result<(), ProofVerifyError<P::Error>>,
    result2: Result<(), ProofVerifyError<P::Error>>,
)
    requires
        memory_verify_is_a_function::<C, M, F, PCS, P>(),
        preprocessing1.image == preprocessing2.image,
        before1@ == before2@,
        is_memory_verified::<C, M, F, PCS, P>(
            preprocessing1,
            generators,
            proof,
            commitments,
            program_io,
            before1,
            after1,
            result1,
        ),
        is_memory_verified::<C, M, F, PCS, P>(
            preprocessing2,
            generators,
            proof,
            commitments,
            program_io,
            before2,
            after2,
            result2,
        ),
    ensures
        result1 == result2,
        after1@ == after2@,
        with_program_io(preprocessing1, program_io) == with_program_io(
            preprocessing2,
            program_io,
        ),
{
    assert(with_program_io(preprocessing1, program_io) == with_program_io(
        preprocessing2,
        program_io,
    ));
}

/// A scheme commits to the polynomials of a batch one by one: there are as many
/// commitments as polynomials, and each depends on its own polynomial alone, wherever
/// that stands in the batch.
pub open spec fn batch_is_elementwise<F: JoltField, PCS: CommitmentScheme<Field = F>>(
    generators: PCS::Setup,
) -> bool {
    &&& forall|batch: Vec<&DensePolynomial<F>>, trace: Vec<PCS::Commitment>| #[trigger]
        call_ensures(
            PCS::batch_commit_polys_ref,
            (&batch, &generators, BatchType::Big),
            trace,
        ) ==> trace@.len() == batch@.unref().len()
    &&& forall|
        batch1: Vec<&DensePolynomial<F>>,
        batch2: Vec<&DensePolynomial<F>>,
        trace1: Vec<PCS::Commitment>,
        trace2: Vec<PCS::Commitment>,
        i: int,
        j: int,
    |
        0 <= i < batch1@.unref().len() && 0 <= j < batch2@.unref().len() && batch1@.unref()[i]
            == batch2@.unref()[j] && #[trigger] call_ensures(
            PCS::batch_commit_polys_ref,
            (&batch1, &generators, BatchType::Big),
            trace1,
        ) && #[trigger] call_ensures(
            PCS::batch_commit_polys_ref,
            (&batch2, &generators, BatchType::Big),
            trace2,
        ) ==> #[trigger] trace1@[i] == #[trigger] trace2@[j]
}

/// Outside the batch of the trace, a scheme makes one commitment of the same polynomials
/// under the same setup.
pub open spec fn final_commitments_are_functions<F: JoltField, PCS: CommitmentScheme<Field = F>>(
    generators: PCS::Setup,
) -> bool {
    &&& forall|p: DensePolynomial<F>, x: PCS::Commitment, y: PCS::Commitment|
        #[trigger] call_ensures(PCS::commit, (&p, &generators), x) && #[trigger] call_ensures(
            PCS::commit,
            (&p, &generators),
            y,
        ) ==> x == y
    &&& forall|
        p: Vec<DensePolynomial<F>>,
        q: Vec<DensePolynomial<F>>,
        x: Vec<PCS::Commitment>,
        y: Vec<PCS::Commitment>,
    |
        p@ == q@ && #[trigger] call_ensures(
            PCS::batch_commit_polys,
            (&p, &generators, BatchType::Big),
            x,
        ) && #[trigger] call_ensures(
            PCS::batch_commit_polys,
            (&q, &generators, BatchType::Big),
            y,
        ) ==> x@ == y@
}

proof fn lemma_part_of_batch_agrees<T, U>(
    all1: Seq<T>,
    all2: Seq<T>,
    trace1: Seq<U>,
    trace2: Seq<U>,
    start1: int,
    start2: int,
    len: int,
)
    requires
        trace1.len() == all1.len(),
        trace2.len() == all2.len(),
        forall|i: int, j: int|
            0 <= i < all1.len() && 0 <= j < all2.len() && all1[i] == all2[j]
                ==> #[trigger] trace1[i] == #[trigger] trace2[j],
        0 <= start1,
        0 <= start2,
        0 <= len,
        start1 + len <= all1.len(),
        start2 + len <= all2.len(),
        all1.subrange(start1, start1 + len) == all2.subrange(start2, start2 + len),
    ensures
        trace1.subrange(start1, start1 + len) == trace2.subrange(start2, start2 + len),
{
    let part1 = trace1.subrange(start1, start1 + len);
    let part2 = trace2.subrange(start2, start2 + len);
    assert forall|k: int| 0 <= k < len implies #[trigger] part1[k] == part2[k] by {
        assert(all1[start1 + k] == all1.subrange(start1, start1 + len)[k]);
        assert(all2[start2 + k] == all2.subrange(start2, start2 + len)[k]);
        assert(trace1[start1 + k] == trace2[start2 + k]);
    }
    assert(part1 =~= part2);
}

/// The commitments of a part depend on the polynomials of that part alone: where a
/// scheme commits one by one, committing succeeds, and two executions that agree in one
/// of the four parts have the same commitments there, however much they differ in the
/// others, the number of their polynomials included.
pub proof fn parts_are_committed_to_on_their_own<
    F: JoltField,
    PCS: CommitmentScheme<Field = F>,
    R,
>(
    polynomials1: JoltPolynomials<F>,
    polynomials2: JoltPolynomials<F>,
    generators: PCS::Setup,
    result1: Result<JoltCommitments<PCS, R>, MissingCommitments>,
    result2: Result<JoltCommitments<PCS, R>, MissingCommitments>,
)
    requires
        batch_is_elementwise::<F, PCS>(generators),
        final_commitments_are_functions::<F, PCS>(generators),
        committed(polynomials1, generators, result1),
        committed(polynomials2, generators, result2),
    ensures
        result1 is Ok,
        result2 is Ok,
        polynomials1.bytecode_trace() == polynomials2.bytecode_trace()
            && polynomials1.bytecode.t_final == polynomials2.bytecode.t_final
            ==> are_same_bytecode_commitments(result1->Ok_0.bytecode, result2->Ok_0.bytecode),
        polynomials1.memory_trace() == polynomials2.memory_trace()
            && polynomials1.read_write_memory.v_final == polynomials2.read_write_memory.v_final
            && polynomials1.read_write_memory.t_final == polynomials2.read_write_memory.t_final
            ==> are_same_memory_commitments(
            result1->Ok_0.read_write_memory,
            result2->Ok_0.read_write_memory,
        ),
        polynomials1.range_check() == polynomials2.range_check()
            ==> are_same_range_check_commitments(
            result1->Ok_0.timestamp_range_check,
            result2->Ok_0.timestamp_range_check,
        ),
        polynomials1.instruction_trace() == polynomials2.instruction_trace()
            && polynomials1.instruction_lookups.final_cts@
            == polynomials2.instruction_lookups.final_cts@ ==> are_same_lookup_commitments(
            result1->Ok_0.instruction_lookups,
            result2->Ok_0.instruction_lookups,
        ),
{
    let all1 = polynomials1.all_trace();
    let all2 = polynomials2.all_trace();
    let (batch1, trace1) = choose|batch: Vec<&DensePolynomial<F>>, trace: Vec<PCS::Commitment>|
        {
            &&& batch@.unref() == all1
            &&& #[trigger] call_ensures(
                PCS::batch_commit_polys_ref,
                (&batch, &generators, BatchType::Big),
                trace,
            )
            &&& match result1 {
                Ok(commitments) => commitments_from(
                    polynomials1,
                    generators,
                    trace@,
                    commitments,
                ),
                Err(MissingCommitments) => trace@.len() < all1.len()
                    - polynomials1.instruction_trace().len(),
            }
        };
    let (batch2, trace2) = choose|batch: Vec<&DensePolynomial<F>>, trace: Vec<PCS::Commitment>|
        {
            &&& batch@.unref() == all2
            &&& #[trigger] call_ensures(
                PCS::batch_commit_polys_ref,
                (&batch, &generators, BatchType::Big),
                trace,
            )
            &&& match result2 {
                Ok(commitments) => commitments_from(
                    polynomials2,
                    generators,
                    trace@,
                    commitments,
                ),
                Err(MissingCommitments) => trace@.len() < all2.len()
                    - polynomials2.instruction_trace().len(),
            }
        };
    assert(trace1@.len() == all1.len());
    assert(trace2@.len() == all2.len());
    let memory1 = polynomials1.bytecode_trace().len() as int;
    let memory2 = polynomials2.bytecode_trace().len() as int;
    let range1 = memory1 + polynomials1.memory_trace().len();
    let range2 = memory2 + polynomials2.memory_trace().len();
    let lookups1 = range1 + polynomials1.range_check().len();
    let lookups2 = range2 + polynomials2.range_check().len();
    assert(all1.subrange(0, memory1) =~= polynomials1.bytecode_trace());
    assert(all2.subrange(0, memory2) =~= polynomials2.bytecode_trace());
    assert(all1.subrange(memory1, range1) =~= polynomials1.memory_trace());
    assert(all2.subrange(memory2, range2) =~= polynomials2.memory_trace());
    assert(all1.subrange(range1, lookups1) =~= polynomials1.range_check());
    assert(all2.subrange(range2, lookups2) =~= polynomials2.range_check());
    assert(all1.subrange(lookups1, all1.len() as int) =~= polynomials1.instruction_trace());
    assert(all2.subrange(lookups2, all2.len() as int) =~= polynomials2.instruction_trace());
    if polynomials1.bytecode_trace() == polynomials2.bytecode_trace() {
        lemma_part_of_batch_agrees(all1, all2, trace1@, trace2@, 0, 0, memory1);
    }
    if polynomials1.memory_trace() == polynomials2.memory_trace() {
        lemma_part_of_batch_agrees(
            all1,
            all2,
            trace1@,
            trace2@,
            memory1,
            memory2,
            range1 - memory1,
        );
    }
    if polynomials1.range_check() == polynomials2.range_check() {
        lemma_part_of_batch_agrees(
            all1,
            all2,
            trace1@,
            trace2@,
            range1,
            range2,
            lookups1 - range1,
        );
    }
    if polynomials1.instruction_trace() == polynomials2.instruction_trace() {
        lemma_part_of_batch_agrees(
            all1,
            all2,
            trace1@,
            trace2@,
            lookups1,
            lookups2,
            all1.len() - lookups1,
        );
    }
}

} // verus!

//! What preprocessing and one run of the prover call, and what they make of the
//! answers.

use crate::artifacts::JoltPreprocessing;
use crate::artifacts::JoltProof;
use crate::artifacts::ProveError;
use crate::artifacts::R1CSSetupError;
use crate::commitments::committed;
use crate::commitments::CommitmentScheme;
use crate::commitments::JoltCommitments;
use crate::commitments::MissingCommitments;
use crate::device::pad_memory_trace;
use crate::device::padded_row;
use crate::device::JoltDevice;
use crate::device::MEMORY_OPS_PER_INSTRUCTION;
use crate::device::RAM_START_ADDRESS;
use crate::opening::is_opened;
use crate::poly::BytecodePolynomials;
use crate::poly::DensePolynomial;
use crate::poly::InstructionPolynomials;
use crate::poly::JoltField;
use crate::poly::JoltPolynomials;
use crate::poly::RangeCheckPolynomials;
use crate::pow2::padded_length;
use crate::r1cs::is_r1cs_setup;
use crate::subprotocols::R1CSProof;
use crate::subprotocols::Subprotocols;
use crate::subprotocols::UniformSpartanKey;
use crate::transcript::ProofTranscript;
use vstd::prelude::*;

verus! {

/// Where the flag polynomials of loads and stores begin among those of all
/// instructions.
pub const LOAD_STORE_FLAGS_START: usize = 5;

/// Where the flag polynomials of loads and stores end.
pub const LOAD_STORE_FLAGS_END: usize = 10;

/// `rows` hold a row for every instruction of the program, in order.
pub open spec fn are_bytecode_rows<
    const C: usize,
    const M: usize,
    F: JoltField,
    PCS: CommitmentScheme<Field = F>,
    P: Subprotocols<F, PCS, C, M>,
>(
    bytecode: Seq<P::ELFInstruction>,
    rows: Seq<P::BytecodeRow>,
) -> bool {
    &&& rows.len() == bytecode.len()
    &&& forall|i: int|
        0 <= i < rows.len() ==> call_ensures(P::bytecode_row, (&bytecode[i],), #[trigger] rows[i])
}

/// The rows of a program's instructions, in order.
pub fn bytecode_rows<
    const C: usize,
    const M: usize,
    F: JoltField,
    PCS: CommitmentScheme<Field = F>,
    P: Subprotocols<F, PCS, C, M>,
>(
    bytecode: &Vec<P::ELFInstruction>,
) -> (rows: Vec<P::BytecodeRow>)
    ensures
        are_bytecode_rows::<C, M, F, PCS, P>(bytecode@, rows@),
{
    let mut rows: Vec<P::BytecodeRow> = Vec::new();
    for i in 0..bytecode.len()
        invariant
            rows@.len() == i,
            forall|j: int|
                0 <= j < i ==> call_ensures(
                    P::bytecode_row,
                    (&bytecode@[j],),
                    #[trigger] rows@[j],
                ),
    {
        let row = P::bytecode_row(&bytecode[i]);
        assert(call_ensures(P::bytecode_row, (&bytecode@[i as int],), row));
        rows.push(row);
    }
    rows
}

/// `generators` may be the setup for programs and traces of the given sizes: it is made
/// for the shapes of all arguments, one after the other.
pub open spec fn are_generators<
    const C: usize,
    const M: usize,
    F: JoltField,
    PCS: CommitmentScheme<Field = F>,
    P: Subprotocols<F, PCS, C, M>,
>(
    lookups: P::LookupsPreprocessing,
    max_bytecode_size: usize,
    max_memory_address: usize,
    max_trace_length: usize,
    generators: PCS::Setup,
) -> bool {
    exists|
        bytecode_shapes: Vec<PCS::Shape>,
        memory_shapes: Vec<PCS::Shape>,
        timestamp_shapes: Vec<PCS::Shape>,
        lookups_shapes: Vec<PCS::Shape>,
        shapes: Vec<PCS::Shape>,
    |
        {
            &&& #[trigger] call_ensures(
                P::bytecode_commit_shapes,
                (max_bytecode_size, max_trace_length),
                bytecode_shapes,
            )
            &&& #[trigger] call_ensures(
                P::memory_commit_shapes,
                (max_memory_address, max_trace_length),
                memory_shapes,
            )
            &&& #[trigger] call_ensures(
                P::timestamp_commit_shapes,
                (max_trace_length,),
                timestamp_shapes,
            )
            &&& #[trigger] call_ensures(
                P::lookups_commit_shapes,
                (&lookups, max_trace_length),
                lookups_shapes,
            )
            &&& shapes@ == bytecode_shapes@ + memory_shapes@ + timestamp_shapes@ + lookups_shapes@
            &&& #[trigger] call_ensures(PCS::setup, (&shapes,), generators)
        }
}

/// `preprocessing` may be what a program and its memory image are preprocessed to.
pub open spec fn is_preprocessed<
    const C: usize,
    const M: usize,
    F: JoltField,
    PCS: CommitmentScheme<Field = F>,
    P: Subprotocols<F, PCS, C, M>,
>(
    bytecode: Seq<P::ELFInstruction>,
    memory_init: Vec<(u64, u8)>,
    max_bytecode_size: usize,
    max_memory_address: usize,
    max_trace_length: usize,
    preprocessing: JoltPreprocessing<C, M, F, PCS, P>,
) -> bool {
    &&& are_generators::<C, M, F, PCS, P>(
        preprocessing.instruction_lookups,
        max_bytecode_size,
        max_memory_address,
        max_trace_length,
        preprocessing.generators,
    )
    &&& call_ensures(P::lookups_preprocess, (), preprocessing.instruction_lookups)
    &&& call_ensures(P::memory_preprocess, (memory_init,), preprocessing.read_write_memory)
    &&& exists|rows: Vec<P::BytecodeRow>|
        {
            &&& are_bytecode_rows::<C, M, F, PCS, P>(bytecode, rows@)
            &&& #[trigger] call_ensures(P::bytecode_preprocess, (rows,), preprocessing.bytecode)
        }
}

/// `padded` is `memory_trace`, padded with no-ops to `padded_trace_length` rows.
pub open spec fn is_padded_trace<
    const C: usize,
    const M: usize,
    F: JoltField,
    PCS: CommitmentScheme<Field = F>,
    P: Subprotocols<F, PCS, C, M>,
>(
    memory_trace: Seq<[P::MemoryOp; MEMORY_OPS_PER_INSTRUCTION]>,
    padded_trace_length: usize,
    padded: Seq<[P::MemoryOp; MEMORY_OPS_PER_INSTRUCTION]>,
) -> bool {
    exists|noop_read: P::MemoryOp, noop_write: P::MemoryOp|
        {
            &&& #[trigger] call_ensures(P::noop_read, (), noop_read)
            &&& #[trigger] call_ensures(P::noop_write, (), noop_write)
            &&& padded.len() == padded_trace_length
            &&& forall|i: int|
                0 <= i < padded_trace_length ==> (#[trigger] padded[i])@ == padded_row(
                    memory_trace,
                    noop_read,
                    noop_write,
                    i,
                )
        }
}

/// The memory polynomials and the timestamps they leave to be checked may be those of
/// this memory trace.
pub open spec fn are_memory_polynomials<
    const C: usize,
    const M: usize,
    F: JoltField,
    PCS: CommitmentScheme<Field = F>,
    P: Subprotocols<F, PCS, C, M>,
>(
    program_io: JoltDevice,
    memory_trace: Seq<[P::MemoryOp; MEMORY_OPS_PER_INSTRUCTION]>,
    padded_trace_length: usize,
    preprocessing: JoltPreprocessing<C, M, F, PCS, P>,
    polynomials: JoltPolynomials<F>,
    read_timestamps: P::ReadTimestamps,
) -> bool {
    exists|
        load_store_flags: &[DensePolynomial<F>],
        padded: Vec<[P::MemoryOp; MEMORY_OPS_PER_INSTRUCTION]>,
    |
        {
            &&& load_store_flags@
                == polynomials.instruction_lookups.instruction_flag_polys@.subrange(
                LOAD_STORE_FLAGS_START as int,
                LOAD_STORE_FLAGS_END as int,
            )
            &&& is_padded_trace::<C, M, F, PCS, P>(memory_trace, padded_trace_length, padded@)
            &&& #[trigger] call_ensures(
                P::memory_polynomials,
                (&program_io, load_store_flags, &preprocessing.read_write_memory, padded),
                (polynomials.read_write_memory, read_timestamps),
            )
        }
}

/// `result` may be the polynomials of this trace; there are none if and only if the
/// lookups lack the flag polynomials of loads and stores.
pub open spec fn is_polynomialized<
    const C: usize,
    const M: usize,
    F: JoltField,
    PCS: CommitmentScheme<Field = F>,
    P: Subprotocols<F, PCS, C, M>,
>(
    program_io: JoltDevice,
    bytecode_trace: Vec<P::BytecodeRow>,
    memory_trace: Seq<[P::MemoryOp; MEMORY_OPS_PER_INSTRUCTION]>,
    instructions: Vec<Option<P::InstructionSet>>,
    padded_trace_length: usize,
    preprocessing: JoltPreprocessing<C, M, F, PCS, P>,
    result: Option<JoltPolynomials<F>>,
) -> bool {
    match result {
        Some(polynomials) => {
            &&& call_ensures(
                P::lookups_polynomials,
                (&preprocessing.instruction_lookups, &instructions),
                polynomials.instruction_lookups,
            )
            &&& polynomials.instruction_lookups.instruction_flag_polys@.len()
                >= LOAD_STORE_FLAGS_END
            &&& exists|read_timestamps: P::ReadTimestamps|
                {
                    &&& are_memory_polynomials(
                        program_io,
                        memory_trace,
                        padded_trace_length,
                        preprocessing,
                        polynomials,
                        read_timestamps,
                    )
                    &&& #[trigger] call_ensures(
                        P::timestamp_polynomials,
                        (read_timestamps,),
                        polynomials.timestamp_range_check,
                    )
                }
            &&& call_ensures(
                P::bytecode_polynomials,
                (&preprocessing.bytecode, bytecode_trace),
                polynomials.bytecode,
            )
        },
        None => exists|lookups: InstructionPolynomials<F>|
            {
                &&& #[trigger] call_ensures(
                    P::lookups_polynomials,
                    (&preprocessing.instruction_lookups, &instructions),
                    lookups,
                )
                &&& lookups.instruction_flag_polys@.len() < LOAD_STORE_FLAGS_END
            },
    }
}

/// The polynomials of a trace, unless the lookups lack the flag polynomials of loads
/// and stores.
pub fn polynomialize<
    const C: usize,
    const M: usize,
    F: JoltField,
    PCS: CommitmentScheme<Field = F>,
    P: Subprotocols<F, PCS, C, M>,
>(
    program_io: &JoltDevice,
    bytecode_trace: Vec<P::BytecodeRow>,
    memory_trace: Vec<[P::MemoryOp; MEMORY_OPS_PER_INSTRUCTION]>,
    instructions: &Vec<Option<P::InstructionSet>>,
    padded_trace_length: usize,
    preprocessing: &JoltPreprocessing<C, M, F, PCS, P>,
) -> (result: Option<JoltPolynomials<F>>)
    ensures
        is_polynomialized(
            *program_io,
            bytecode_trace,
            memory_trace@,
            *instructions,
            padded_trace_length,
            *preprocessing,
            result,
        ),
{
    let lookups = P::lookups_polynomials(&preprocessing.instruction_lookups, instructions);
    assert(call_ensures(
        P::lookups_polynomials,
        (&preprocessing.instruction_lookups, instructions),
        lookups,
    ));
    if lookups.instruction_flag_polys.len() < LOAD_STORE_FLAGS_END {
        return None;
    }
    let noop_read = P::noop_read();
    let noop_write = P::noop_write();
    assert(call_ensures(P::noop_read, (), noop_read));
    assert(call_ensures(P::noop_write, (), noop_write));
    let padded = pad_memory_trace(memory_trace, padded_trace_length, noop_read, noop_write);
    assert(is_padded_trace::<C, M, F, PCS, P>(memory_trace@, padded_trace_length, padded@));
    let ghost padded_trace = padded;
    let load_store_flags = vstd::slice::slice_subrange(
        lookups.instruction_flag_polys.as_slice(),
        LOAD_STORE_FLAGS_START,
        LOAD_STORE_FLAGS_END,
    );
    let (memory, read_timestamps) = P::memory_polynomials(
        program_io,
        load_store_flags,
        &preprocessing.read_write_memory,
        padded,
    );
    let ghost timestamps = read_timestamps;
    let ghost flags = load_store_flags;
    assert(call_ensures(
        P::memory_polynomials,
        (program_io, flags, &preprocessing.read_write_memory, padded_trace),
        (memory, timestamps),
    ));

    let bytecode_preprocessing = &preprocessing.bytecode;
    let bytecode_polynomials = || -> (p: BytecodePolynomials<F>)
        ensures
            call_ensures(P::bytecode_polynomials, (bytecode_preprocessing, bytecode_trace), p),
    {
        P::bytecode_polynomials(bytecode_preprocessing, bytecode_trace)
    };
    let timestamp_polynomials = || -> (p: RangeCheckPolynomials<F>)
        ensures
            call_ensures(P::timestamp_polynomials, (read_timestamps,), p),
    {
        P::timestamp_polynomials(read_timestamps)
    };
    let (bytecode, timestamp_range_check) = rayon::join(
        bytecode_polynomials,
        timestamp_polynomials,
    );

    let polynomials = JoltPolynomials {
        bytecode,
        read_write_memory: memory,
        timestamp_range_check,
        instruction_lookups: lookups,
    };
    assert(are_memory_polynomials(
        *program_io,
        memory_trace@,
        padded_trace_length,
        *preprocessing,
        polynomials,
        timestamps,
    ));
    assert(call_ensures(
        P::timestamp_polynomials,
        (timestamps,),
        polynomials.timestamp_range_check,
    ));
    Some(polynomials)
}

/// What the four arguments return.
#[verifier::reject_recursive_types(F)]
#[verifier::reject_recursive_types(PCS)]
#[verifier::reject_recursive_types(P)]
pub struct Arguments<const C: usize, const M: usize, F, PCS, P> where
    F: JoltField,
    PCS: CommitmentScheme<Field = F>,
    P: Subprotocols<F, PCS, C, M>,
 {
    pub bytecode: P::BytecodeProof,
    pub instruction_lookups: P::LookupsProof,
    pub read_write_memory: P::MemoryProof,
    pub r1cs: Result<R1CSProof<F, P::R1CSConstraints, P::R1CSArgument>, P::R1CSError>,
}

/// `arguments` may come out of the four arguments, run one after the other, the first
/// with the transcript `opened`, and each further one with the transcript that the one
/// before it left: `t1` after the bytecode, `t2` after the lookups, `t3` after memory
/// and `t4` after the constraint system.
pub open spec fn are_arguments_along<
    const C: usize,
    const M: usize,
    F: JoltField,
    PCS: CommitmentScheme<Field = F>,
    P: Subprotocols<F, PCS, C, M>,
>(
    preprocessing: JoltPreprocessing<C, M, F, PCS, P>,
    program_io: JoltDevice,
    commitments: JoltCommitments<PCS, P::R1CSCommitment>,
    polynomials: JoltPolynomials<F>,
    key: UniformSpartanKey<F, P::R1CSConstraints>,
    witness_segments: Vec<Vec<F>>,
    opened: ProofTranscript<F>,
    arguments: Arguments<C, M, F, PCS, P>,
    t1: ProofTranscript<F>,
    t2: ProofTranscript<F>,
    t3: ProofTranscript<F>,
    t4: ProofTranscript<F>,
) -> bool {
    &&& call_ensures(
        P::bytecode_prove,
        (
            &preprocessing.bytecode,
            &preprocessing.generators,
            &commitments.bytecode,
            &polynomials.bytecode,
            opened,
        ),
        (arguments.bytecode, t1),
    )
    &&& call_ensures(
        P::lookups_prove,
        (
            &polynomials.instruction_lookups,
            &preprocessing.generators,
            &commitments.instruction_lookups,
            &preprocessing.instruction_lookups,
            t1,
        ),
        (arguments.instruction_lookups, t2),
    )
    &&& call_ensures(
        P::memory_prove,
        (
            &preprocessing.read_write_memory,
            &preprocessing.generators,
            &commitments,
            &polynomials,
            &program_io,
            t2,
        ),
        (arguments.read_write_memory, t3),
    )
    &&& call_ensures(
        P::r1cs_prove,
        (key, &preprocessing.generators, &commitments, C, witness_segments, t3),
        (arguments.r1cs, t4),
    )
}

/// `arguments` may come out of the four arguments, run one after the other, beginning
/// with the transcript `opened`.
pub open spec fn are_arguments<
    const C: usize,
    const M: usize,
    F: JoltField,
    PCS: CommitmentScheme<Field = F>,
    P: Subprotocols<F, PCS, C, M>,
>(
    preprocessing: JoltPreprocessing<C, M, F, PCS, P>,
    program_io: JoltDevice,
    commitments: JoltCommitments<PCS, P::R1CSCommitment>,
    polynomials: JoltPolynomials<F>,
    key: UniformSpartanKey<F, P::R1CSConstraints>,
    witness_segments: Vec<Vec<F>>,
    opened: ProofTranscript<F>,
    arguments: Arguments<C, M, F, PCS, P>,
) -> bool {
    exists|
        t1: ProofTranscript<F>,
        t2: ProofTranscript<F>,
        t3: ProofTranscript<F>,
        t4: ProofTranscript<F>,
    | #[trigger]
        are_arguments_along(
            preprocessing,
            program_io,
            commitments,
            polynomials,
            key,
            witness_segments,
            opened,
            arguments,
            t1,
            t2,
            t3,
            t4,
        )
}

/// Runs the four arguments one after the other over one transcript.
pub fn prove_arguments<
    const C: usize,
    const M: usize,
    F: JoltField,
    PCS: CommitmentScheme<Field = F>,
    P: Subprotocols<F, PCS, C, M>,
>(
    preprocessing: &JoltPreprocessing<C, M, F, PCS, P>,
    program_io: &JoltDevice,
    commitments: &JoltCommitments<PCS, P::R1CSCommitment>,
    polynomials: &JoltPolynomials<F>,
    key: UniformSpartanKey<F, P::R1CSConstraints>,
    witness_segments: Vec<Vec<F>>,
    transcript: ProofTranscript<F>,
) -> (arguments: Arguments<C, M, F, PCS, P>)
    ensures
        are_arguments(
            *preprocessing,
            *program_io,
            *commitments,
            *polynomials,
            key,
            witness_segments,
            transcript,
            arguments,
        ),
{
    let (bytecode, t1) = P::bytecode_prove(
        &preprocessing.bytecode,
        &preprocessing.generators,
        &commitments.bytecode,
        &polynomials.bytecode,
        transcript,
    );
    let (instruction_lookups, t2) = P::lookups_prove(
        &polynomials.instruction_lookups,
        &preprocessing.generators,
        &commitments.instruction_lookups,
        &preprocessing.instruction_lookups,
        t1,
    );
    let (read_write_memory, t3) = P::memory_prove(
        &preprocessing.read_write_memory,
        &preprocessing.generators,
        commitments,
        polynomials,
        program_io,
        t2,
    );
    let (r1cs, t4) = P::r1cs_prove(
        key,
        &preprocessing.generators,
        commitments,
        C,
        witness_segments,
        t3,
    );
    let arguments = Arguments { bytecode, instruction_lookups, read_write_memory, r1cs };
    assert(are_arguments_along(
        *preprocessing,
        *program_io,
        *commitments,
        *polynomials,
        key,
        witness_segments,
        transcript,
        arguments,
        t1,
        t2,
        t3,
        t4,
    ));
    arguments
}

/// The commitments once those of the constraint system are added.
pub open spec fn with_r1cs<PCS: CommitmentScheme, R>(
    commitments: JoltCommitments<PCS, R>,
    r1cs: R,
) -> JoltCommitments<PCS, R> {
    JoltCommitments {
        bytecode: commitments.bytecode,
        read_write_memory: commitments.read_write_memory,
        timestamp_range_check: commitments.timestamp_range_check,
        instruction_lookups: commitments.instruction_lookups,
        r1cs: Some(r1cs),
    }
}

/// The data of one execution that the prover is given.
#[verifier::reject_recursive_types(F)]
#[verifier::reject_recursive_types(PCS)]
#[verifier::reject_recursive_types(P)]
pub struct Execution<const C: usize, const M: usize, F, PCS, P> where
    F: JoltField,
    PCS: CommitmentScheme<Field = F>,
    P: Subprotocols<F, PCS, C, M>,
 {
    pub program_io: JoltDevice,
    pub bytecode_trace: Vec<P::BytecodeRow>,
    pub memory_trace: Vec<[P::MemoryOp; MEMORY_OPS_PER_INSTRUCTION]>,
    pub instructions: Vec<Option<P::InstructionSet>>,
    pub circuit_flags: Vec<F>,
}

/// The values that come back in one run of the prover. Where a step is not reached,
/// its entry means nothing.
#[verifier::reject_recursive_types(F)]
#[verifier::reject_recursive_types(PCS)]
#[verifier::reject_recursive_types(P)]
pub struct ProverRun<const C: usize, const M: usize, F, PCS, P> where
    F: JoltField,
    PCS: CommitmentScheme<Field = F>,
    P: Subprotocols<F, PCS, C, M>,
 {
    pub polynomials: Option<JoltPolynomials<F>>,
    pub committed: Result<JoltCommitments<PCS, P::R1CSCommitment>, MissingCommitments>,
    pub setup: Result<
        (UniformSpartanKey<F, P::R1CSConstraints>, Vec<Vec<F>>, P::R1CSCommitment),
        R1CSSetupError<P::R1CSError>,
    >,
    pub opened: ProofTranscript<F>,
    pub arguments: Arguments<C, M, F, PCS, P>,
}

impl<
    const C: usize,
    const M: usize,
    F: JoltField,
    PCS: CommitmentScheme<Field = F>,
    P: Subprotocols<F, PCS, C, M>,
> ProverRun<C, M, F, PCS, P> {
    /// The prover sets the constraint system up.
    pub open spec fn reaches_setup(self) -> bool {
        self.polynomials is Some && self.committed is Ok
    }

    /// The prover opens the transcript and runs the arguments.
    pub open spec fn reaches_arguments(self) -> bool {
        self.reaches_setup() && self.setup is Ok
    }

    /// All commitments of the execution.
    pub open spec fn commitments(self) -> JoltCommitments<PCS, P::R1CSCommitment> {
        with_r1cs(self.committed->Ok_0, self.setup->Ok_0.2)
    }
}

/// `run` is a possible run of the prover on this execution: polynomials, commitments to
/// them, the constraint system over the padded trace, and the four arguments over a
/// transcript that is bound to the public data and to all commitments.
pub open spec fn is_prover_run<
    const C: usize,
    const M: usize,
    F: JoltField,
    PCS: CommitmentScheme<Field = F>,
    P: Subprotocols<F, PCS, C, M>,
>(
    execution: Execution<C, M, F, PCS, P>,
    preprocessing: JoltPreprocessing<C, M, F, PCS, P>,
    run: ProverRun<C, M, F, PCS, P>,
) -> bool {
    let program_io = execution.program_io;
    let trace_length = execution.instructions.len();
    let padded_trace_length = padded_length(trace_length as nat) as usize;
    &&& is_polynomialized(
        program_io,
        execution.bytecode_trace,
        execution.memory_trace@,
        execution.instructions,
        padded_trace_length,
        preprocessing,
        run.polynomials,
    )
    &&& run.polynomials is Some ==> committed(
        run.polynomials->0,
        preprocessing.generators,
        run.committed,
    )
    &&& run.reaches_setup() ==> is_r1cs_setup::<C, M, F, PCS, P>(
        padded_trace_length,
        (RAM_START_ADDRESS - program_io.memory_layout.ram_witness_offset) as u64,
        execution.instructions@,
        run.polynomials->0,
        execution.circuit_flags@,
        preprocessing.generators,
        run.setup,
    )
    &&& run.reaches_arguments() ==> {
        &&& is_opened::<C, M, F, PCS, P>(
            program_io,
            trace_length,
            run.setup->Ok_0.0.vk_digest,
            run.commitments(),
            run.opened,
        )
        &&& are_arguments(
            preprocessing,
            program_io,
            run.commitments(),
            run.polynomials->0,
            run.setup->Ok_0.0,
            run.setup->Ok_0.1,
            run.opened,
            run.arguments,
        )
    }
}

/// What the prover returns for `run`: the proof and the commitments, or what stood in
/// the way first.
pub open spec fn prover_result<
    const C: usize,
    const M: usize,
    F: JoltField,
    PCS: CommitmentScheme<Field = F>,
    P: Subprotocols<F, PCS, C, M>,
>(
    execution: Execution<C, M, F, PCS, P>,
    run: ProverRun<C, M, F, PCS, P>,
) -> Result<
    (JoltProof<C, M, F, PCS, P>, JoltCommitments<PCS, P::R1CSCommitment>),
    ProveError<P::R1CSError>,
> {
    if run.polynomials is None {
        Err(ProveError::MissingFlagPolynomials)
    } else if run.committed is Err {
        Err(ProveError::MissingCommitments)
    } else if run.setup is Err {
        Err(ProveError::R1CSSetup(run.setup->Err_0))
    } else {
        match run.arguments.r1cs {
            Ok(r1cs) => Ok(
                (
                    JoltProof {
                        trace_length: execution.instructions.len(),
                        program_io: execution.program_io,
                        bytecode: run.arguments.bytecode,
                        read_write_memory: run.arguments.read_write_memory,
                        instruction_lookups: run.arguments.instruction_lookups,
                        r1cs,
                    },
                    run.commitments(),
                ),
            ),
            Err(e) => Err(ProveError::R1CSProof(e)),
        }
    }
}

/// `result` is what the prover may return for this execution.
pub open spec fn is_proved<
    const C: usize,
    const M: usize,
    F: JoltField,
    PCS: CommitmentScheme<Field = F>,
    P: Subprotocols<F, PCS, C, M>,
>(
    execution: Execution<C, M, F, PCS, P>,
    preprocessing: JoltPreprocessing<C, M, F, PCS, P>,
    result: Result<
        (JoltProof<C, M, F, PCS, P>, JoltCommitments<PCS, P::R1CSCommitment>),
        ProveError<P::R1CSError>,
    >,
) -> bool {
    exists|run: ProverRun<C, M, F, PCS, P>|
        {
            &&& #[trigger] is_prover_run(execution, preprocessing, run)
            &&& result == prover_result(execution, run)
        }
}

} // verus!

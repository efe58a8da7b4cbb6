//! The machine: preprocessing, prover and verifier.

use crate::artifacts::JoltPreprocessing;
use crate::artifacts::JoltProof;
use crate::artifacts::ProofVerifyError;
use crate::artifacts::ProveError;
use crate::artifacts::R1CSSetupError;
use crate::chunks::contents;
use crate::chunks::scatter_chunks;
use crate::commitments::BytecodeCommitment;
use crate::commitments::CommitmentScheme;
use crate::commitments::InstructionCommitment;
use crate::commitments::JoltCommitments;
use crate::commitments::MissingCommitments;
use crate::device::JoltDevice;
use crate::device::MEMORY_OPS_PER_INSTRUCTION;
use crate::device::RAM_START_ADDRESS;
use crate::instruction::operand_rows;
use crate::instruction::JoltInstructionSet;
use crate::instruction::JoltSubtableSet;
use crate::opening::append_preamble;
use crate::opening::opening;
use crate::opening::preamble;
use crate::poly::flatten_query;
use crate::poly::DensePolynomial;
use crate::poly::JoltField;
use crate::poly::JoltPolynomials;
use crate::pow2::is_ceil_log2;
use crate::pow2::lemma_ceil_log2_is;
use crate::pow2::padded_length;
use crate::proving::are_generators;
use crate::proving::bytecode_rows;
use crate::proving::is_preprocessed;
use crate::proving::is_proved;
use crate::proving::is_prover_run;
use crate::proving::polynomialize;
use crate::proving::prove_arguments;
use crate::proving::Execution;
use crate::proving::ProverRun;
use crate::r1cs::are_chunk_tables;
use crate::r1cs::are_r1cs_inputs;
use crate::r1cs::are_trace_rows;
use crate::r1cs::is_r1cs_setup;
use crate::r1cs::WORD_SIZE;
use crate::subprotocols::R1CSInputs;
use crate::subprotocols::R1CSProof;
use crate::subprotocols::ReadWriteMemoryPreprocessing;
use crate::subprotocols::Subprotocols;
use crate::subprotocols::UniformSpartanKey;
use crate::transcript::ProofTranscript;
use crate::verification::is_memory_verified;
use crate::verification::is_r1cs_result;
use crate::verification::is_verified;
use crate::verification::is_verifier_run;
use crate::verification::subprotocol_outcome;
use crate::verification::subprotocol_result;
use crate::verification::with_program_io;
use crate::verification::VerifierRun;
use vstd::arithmetic::power2::pow2;
use vstd::prelude::*;

verus! {

/// A virtual machine whose instructions take their operands in `C` chunks and look
/// them up in tables of size `M`.
pub trait Jolt<
    F: JoltField,
    PCS: CommitmentScheme<Field = F>,
    const C: usize,
    const M: usize,
>: Subprotocols<F, PCS, C, M> {
    /// Prepares a program for proofs of executions up to the given sizes.
    fn preprocess(
        bytecode: Vec<Self::ELFInstruction>,
        memory_init: Vec<(u64, u8)>,
        max_bytecode_size: usize,
        max_memory_address: usize,
        max_trace_length: usize,
    ) -> (preprocessing: JoltPreprocessing<C, M, F, PCS, Self>)
        ensures
            is_preprocessed(
                bytecode@,
                memory_init,
                max_bytecode_size,
                max_memory_address,
                max_trace_length,
                preprocessing,
            ),
    {
        let mut shapes = Self::bytecode_commit_shapes(max_bytecode_size, max_trace_length);
        let ghost bytecode_shapes = shapes;
        let mut memory_shapes = Self::memory_commit_shapes(max_memory_address, max_trace_length);
        let ghost ram_shapes = memory_shapes;
        let mut timestamp_shapes = Self::timestamp_commit_shapes(max_trace_length);
        let ghost range_shapes = timestamp_shapes;
        let instruction_lookups = Self::lookups_preprocess();
        let mut lookups_shapes = Self::lookups_commit_shapes(
            &instruction_lookups,
            max_trace_length,
        );
        let ghost table_shapes = lookups_shapes;
        let read_write_memory = Self::memory_preprocess(memory_init);
        let rows = bytecode_rows::<C, M, F, PCS, Self>(&bytecode);
        let bytecode_preprocessing = Self::bytecode_preprocess(rows);

        shapes.append(&mut memory_shapes);
        shapes.append(&mut timestamp_shapes);
        shapes.append(&mut lookups_shapes);
        let generators = PCS::setup(&shapes);
        assert(are_generators::<C, M, F, PCS, Self>(
            instruction_lookups,
            max_bytecode_size,
            max_memory_address,
            max_trace_length,
            generators,
        ));
        let preprocessing = JoltPreprocessing {
            generators,
            instruction_lookups,
            bytecode: bytecode_preprocessing,
            read_write_memory,
        };
        assert(call_ensures(Self::bytecode_preprocess, (rows,), preprocessing.bytecode));
        preprocessing
    }

    /// Proves an execution. The trace is padded to a power of two; the transcript is
    /// bound to its unpadded length.
    fn prove(
        program_io: JoltDevice,
        bytecode_trace: Vec<Self::BytecodeRow>,
        memory_trace: Vec<[Self::MemoryOp; MEMORY_OPS_PER_INSTRUCTION]>,
        instructions: Vec<Option<Self::InstructionSet>>,
        circuit_flags: Vec<F>,
        preprocessing: JoltPreprocessing<C, M, F, PCS, Self>,
    ) -> (result: Result<
        (JoltProof<C, M, F, PCS, Self>, JoltCommitments<PCS, Self::R1CSCommitment>),
        ProveError<Self::R1CSError>,
    >)
        requires
            instructions@.len() <= pow2((usize::BITS - 1) as nat),
            padded_length(instructions@.len()) * C <= usize::MAX,
            program_io.memory_layout.ram_witness_offset <= RAM_START_ADDRESS,
        ensures
            is_proved(
                (Execution::<C, M, F, PCS, Self> {
                    program_io,
                    bytecode_trace,
                    memory_trace,
                    instructions,
                    circuit_flags,
                }),
                preprocessing,
                result,
            ),
    {
        let ghost execution = Execution::<C, M, F, PCS, Self> {
            program_io,
            bytecode_trace,
            memory_trace,
            instructions,
            circuit_flags,
        };
        let ghost mut run: ProverRun<C, M, F, PCS, Self> = arbitrary();
        let trace_length = instructions.len();
        let padded_trace_length = trace_length.next_power_of_two();
        proof {
            let k = choose|k: nat|
                padded_trace_length == pow2(k) && #[trigger] is_ceil_log2(trace_length as nat, k);
            lemma_ceil_log2_is(trace_length as nat, k);
        }

        let mut transcript: ProofTranscript<F> = ProofTranscript::new("Jolt transcript");
        Self::fiat_shamir_preamble(&mut transcript, &program_io, trace_length);

        let polynomialized = polynomialize(
            &program_io,
            bytecode_trace,
            memory_trace,
            &instructions,
            padded_trace_length,
            &preprocessing,
        );
        proof {
            run.polynomials = polynomialized;
        }
        let polynomials = match polynomialized {
            Some(polynomials) => polynomials,
            None => {
                assert(is_prover_run(execution, preprocessing, run));
                return Err(ProveError::MissingFlagPolynomials);
            },
        };

        let committed = polynomials.commit::<PCS, Self::R1CSCommitment>(&preprocessing.generators);
        proof {
            run.committed = committed;
        }
        let mut commitments = match committed {
            Ok(commitments) => commitments,
            Err(MissingCommitments) => {
                assert(is_prover_run(execution, preprocessing, run));
                return Err(ProveError::MissingCommitments);
            },
        };

        let setup = Self::r1cs_setup(
            padded_trace_length,
            RAM_START_ADDRESS - program_io.memory_layout.ram_witness_offset,
            instructions.as_slice(),
            &polynomials,
            circuit_flags,
            &preprocessing.generators,
        );
        proof {
            run.setup = setup;
        }
        let (spartan_key, witness_segments, r1cs_commitments) = match setup {
            Ok(setup) => setup,
            Err(e) => {
                assert(is_prover_run(execution, preprocessing, run));
                return Err(ProveError::R1CSSetup(e));
            },
        };

        transcript.append_scalar("spartan key", &spartan_key.vk_digest);
        assert(transcript@ == opening::<C, M, F, PCS, Self>(
            program_io,
            trace_length,
            spartan_key.vk_digest,
        ));
        commitments.r1cs = Some(r1cs_commitments);
        commitments.append_to_transcript::<C, M, F, Self>(&mut transcript);
        proof {
            run.opened = transcript;
        }

        let arguments = prove_arguments(
            &preprocessing,
            &program_io,
            &commitments,
            &polynomials,
            spartan_key,
            witness_segments,
            transcript,
        );
        proof {
            run.arguments = arguments;
            assert(run.commitments() == commitments);
        }
        assert(is_prover_run(execution, preprocessing, run));
        match arguments.r1cs {
            Ok(r1cs) => Ok(
                (
                    JoltProof {
                        trace_length,
                        program_io,
                        bytecode: arguments.bytecode,
                        read_write_memory: arguments.read_write_memory,
                        instruction_lookups: arguments.instruction_lookups,
                        r1cs,
                    },
                    commitments,
                ),
            ),
            Err(e) => Err(ProveError::R1CSProof(e)),
        }
    }

    /// Checks a proof: binds a fresh transcript to the public data and to the
    /// commitments, then asks the four arguments in turn and stops at the first
    /// objection.
    fn verify(
        preprocessing: JoltPreprocessing<C, M, F, PCS, Self>,
        proof: JoltProof<C, M, F, PCS, Self>,
        commitments: JoltCommitments<PCS, Self::R1CSCommitment>,
    ) -> (result: Result<(), ProofVerifyError<Self::Error>>)
        requires
            commitments.r1cs is Some,
        ensures
            is_verified(preprocessing, proof, commitments, result),
    {
        let mut transcript: ProofTranscript<F> = ProofTranscript::new("Jolt transcript");
        Self::fiat_shamir_preamble(&mut transcript, &proof.program_io, proof.trace_length);
        transcript.append_scalar("spartan key", &proof.r1cs.key.vk_digest);
        let ghost start = transcript;
        assert(start@ == opening::<C, M, F, PCS, Self>(
            proof.program_io,
            proof.trace_length,
            proof.r1cs.key.vk_digest,
        ));
        commitments.append_to_transcript::<C, M, F, Self>(&mut transcript);
        let ghost opened = transcript;
        let ghost mut run: VerifierRun<C, M, F, PCS, Self> = arbitrary();
        proof {
            run.opened = opened;
        }

        let result = Self::verify_bytecode(
            &preprocessing.bytecode,
            &preprocessing.generators,
            proof.bytecode,
            &commitments.bytecode,
            &mut transcript,
        );
        proof {
            let answer = choose|answer: Result<(), Self::Error>|
                {
                    &&& #[trigger] call_ensures(
                        Self::bytecode_verify,
                        (
                            &preprocessing.bytecode,
                            &preprocessing.generators,
                            proof.bytecode,
                            &commitments.bytecode,
                            opened,
                        ),
                        (answer, transcript),
                    )
                    &&& result == subprotocol_result(answer)
                };
            run.bytecode = (answer, transcript);
        }
        if result.is_err() {
            assert(is_verifier_run(preprocessing, proof, commitments, run));
            return result;
        }
        let result = Self::verify_instruction_lookups(
            &preprocessing.instruction_lookups,
            &preprocessing.generators,
            proof.instruction_lookups,
            &commitments.instruction_lookups,
            &mut transcript,
        );
        proof {
            let answer = choose|answer: Result<(), Self::Error>|
                {
                    &&& #[trigger] call_ensures(
                        Self::lookups_verify,
                        (
                            &preprocessing.instruction_lookups,
                            &preprocessing.generators,
                            proof.instruction_lookups,
                            &commitments.instruction_lookups,
                            run.bytecode.1,
                        ),
                        (answer, transcript),
                    )
                    &&& result == subprotocol_result(answer)
                };
            run.lookups = (answer, transcript);
        }
        if result.is_err() {
            assert(is_verifier_run(preprocessing, proof, commitments, run));
            return result;
        }
        if !proof.program_io.check_layout() {
            assert(is_verifier_run(preprocessing, proof, commitments, run));
            return Err(ProofVerifyError::ProgramIoTooLarge);
        }
        let mut memory_preprocessing = preprocessing.read_write_memory;
        let result = Self::verify_memory(
            &mut memory_preprocessing,
            &preprocessing.generators,
            proof.read_write_memory,
            &commitments,
            proof.program_io,
            &mut transcript,
        );
        proof {
            let answer = choose|answer: Result<(), Self::Error>|
                {
                    &&& #[trigger] call_ensures(
                        Self::memory_verify,
                        (
                            proof.read_write_memory,
                            &preprocessing.generators,
                            &with_program_io(preprocessing.read_write_memory, proof.program_io),
                            &commitments,
                            run.lookups.1,
                        ),
                        (answer, transcript),
                    )
                    &&& result == subprotocol_result(answer)
                };
            run.memory = (answer, transcript);
        }
        if result.is_err() {
            assert(is_verifier_run(preprocessing, proof, commitments, run));
            return result;
        }
        let ghost given = commitments;
        let result = Self::verify_r1cs(
            &preprocessing.generators,
            proof.r1cs,
            commitments,
            &mut transcript,
        );
        proof {
            let answer = choose|answer: Result<(), Self::R1CSError>|
                {
                    &&& #[trigger] call_ensures(
                        Self::r1cs_verify,
                        (proof.r1cs, &preprocessing.generators, given, C, run.memory.1),
                        (answer, transcript),
                    )
                    &&& is_r1cs_result::<C, M, F, PCS, Self>(answer, result)
                };
            run.r1cs = (answer, transcript);
            assert(is_verifier_run(preprocessing, proof, given, run));
        }
        result
    }

    /// Checks the instruction lookups.
    fn verify_instruction_lookups(
        preprocessing: &Self::LookupsPreprocessing,
        generators: &PCS::Setup,
        proof: Self::LookupsProof,
        commitment: &InstructionCommitment<PCS>,
        transcript: &mut ProofTranscript<F>,
    ) -> (result: Result<(), ProofVerifyError<Self::Error>>)
        ensures
            exists|answer: Result<(), Self::Error>|
                {
                    &&& #[trigger] call_ensures(
                        Self::lookups_verify,
                        (preprocessing, generators, proof, commitment, *old(transcript)),
                        (answer, *final(transcript)),
                    )
                    &&& result == subprotocol_result(answer)
                },
    {
        let mut before: ProofTranscript<F> = ProofTranscript::new("");
        std::mem::swap(&mut before, transcript);
        let (answer, after) = Self::lookups_verify(
            preprocessing,
            generators,
            proof,
            commitment,
            before,
        );
        *transcript = after;
        subprotocol_outcome(answer)
    }

    /// Checks the memory-checking argument of the bytecode.
    fn verify_bytecode(
        preprocessing: &Self::BytecodePreprocessing,
        generators: &PCS::Setup,
        proof: Self::BytecodeProof,
        commitment: &BytecodeCommitment<PCS>,
        transcript: &mut ProofTranscript<F>,
    ) -> (result: Result<(), ProofVerifyError<Self::Error>>)
        ensures
            exists|answer: Result<(), Self::Error>|
                {
                    &&& #[trigger] call_ensures(
                        Self::bytecode_verify,
                        (preprocessing, generators, proof, commitment, *old(transcript)),
                        (answer, *final(transcript)),
                    )
                    &&& result == subprotocol_result(answer)
                },
    {
        let mut before: ProofTranscript<F> = ProofTranscript::new("");
        std::mem::swap(&mut before, transcript);
        let (answer, after) = Self::bytecode_verify(
            preprocessing,
            generators,
            proof,
            commitment,
            before,
        );
        *transcript = after;
        subprotocol_outcome(answer)
    }

    /// Checks the memory-checking argument of registers and RAM, against the public
    /// interface of the execution. Inputs and outputs must fit the memory layout.
    fn verify_memory(
        preprocessing: &mut ReadWriteMemoryPreprocessing<Self::MemoryImage>,
        generators: &PCS::Setup,
        proof: Self::MemoryProof,
        commitment: &JoltCommitments<PCS, Self::R1CSCommitment>,
        program_io: JoltDevice,
        transcript: &mut ProofTranscript<F>,
    ) -> (result: Result<(), ProofVerifyError<Self::Error>>)
        requires
            program_io.fits_layout(),
        ensures
            *final(preprocessing) == with_program_io(*old(preprocessing), program_io),
            is_memory_verified::<C, M, F, PCS, Self>(
                *old(preprocessing),
                *generators,
                proof,
                *commitment,
                program_io,
                *old(transcript),
                *final(transcript),
                result,
            ),
    {
        preprocessing.program_io = Some(program_io);
        let mut before: ProofTranscript<F> = ProofTranscript::new("");
        std::mem::swap(&mut before, transcript);
        let (answer, after) = Self::memory_verify(
            proof,
            generators,
            &*preprocessing,
            commitment,
            before,
        );
        *transcript = after;
        subprotocol_outcome(answer)
    }

    /// Checks the constraint system. An error is reported by its message.
    fn verify_r1cs(
        generators: &PCS::Setup,
        proof: R1CSProof<F, Self::R1CSConstraints, Self::R1CSArgument>,
        commitments: JoltCommitments<PCS, Self::R1CSCommitment>,
        transcript: &mut ProofTranscript<F>,
    ) -> (result: Result<(), ProofVerifyError<Self::Error>>)
        ensures
            exists|answer: Result<(), Self::R1CSError>|
                {
                    &&& #[trigger] call_ensures(
                        Self::r1cs_verify,
                        (proof, generators, commitments, C, *old(transcript)),
                        (answer, *final(transcript)),
                    )
                    &&& is_r1cs_result::<C, M, F, PCS, Self>(answer, result)
                },
    {
        let mut before: ProofTranscript<F> = ProofTranscript::new("");
        std::mem::swap(&mut before, transcript);
        let (answer, after) = Self::r1cs_verify(proof, generators, commitments, C, before);
        *transcript = after;
        match answer {
            Ok(()) => Ok(()),
            Err(e) => {
                let text = Self::r1cs_error_message(&e);
                assert(call_ensures(Self::r1cs_error_message, (&e,), text));
                Err(ProofVerifyError::SpartanError(text))
            },
        }
    }

    /// Puts the witness of the constraint system together and has it committed to.
    fn r1cs_setup(
        padded_trace_length: usize,
        memory_start: u64,
        instructions: &[Option<Self::InstructionSet>],
        polynomials: &JoltPolynomials<F>,
        circuit_flags: Vec<F>,
        generators: &PCS::Setup,
    ) -> (result: Result<
        (UniformSpartanKey<F, Self::R1CSConstraints>, Vec<Vec<F>>, Self::R1CSCommitment),
        R1CSSetupError<Self::R1CSError>,
    >)
        requires
            padded_trace_length * C <= usize::MAX,
        ensures
            is_r1cs_setup::<C, M, F, PCS, Self>(
                padded_trace_length,
                memory_start,
                instructions@,
                *polynomials,
                circuit_flags@,
                *generators,
                result,
            ),
    {
        let log_m: usize = ark_std::log2(M) as usize;
        proof {
            lemma_ceil_log2_is(M as nat, log_m as nat);
        }

        let zero = F::zero();
        let (rows_x, rows_y) = match operand_rows(instructions, zero, C, log_m) {
            Some(rows) => rows,
            None => {
                return Err(R1CSSetupError::ChunkOutsideField);
            },
        };
        assert(are_trace_rows::<C, M, F, PCS, Self>(
            instructions@,
            zero,
            contents(rows_x@),
            contents(rows_y@),
        ));
        let (chunks_x, chunks_y) = match (
            scatter_chunks(&rows_x, zero, padded_trace_length, C),
            scatter_chunks(&rows_y, zero, padded_trace_length, C),
        ) {
            (Some(chunks_x), Some(chunks_y)) => (chunks_x, chunks_y),
            _ => {
                return Err(R1CSSetupError::ChunkOutsideTrace);
            },
        };

        assert(are_chunk_tables::<C, M, F, PCS, Self>(
            padded_trace_length,
            instructions@,
            chunks_x@,
            chunks_y@,
        ));

        let lookups = &polynomials.instruction_lookups;
        let instruction_flags = DensePolynomial::flatten(&lookups.instruction_flag_polys);
        let (bytecode_a, bytecode_v) = Self::bytecode_r1cs_polys(&polynomials.bytecode);
        let (memreg_a_rw, memreg_v_reads, memreg_v_writes) = Self::memory_r1cs_polys(
            &polynomials.read_write_memory,
        );
        let chunks_query = match flatten_query(&lookups.dim, C) {
            Some(query) => query,
            None => {
                return Err(R1CSSetupError::UnsuitableQueryPolynomials);
            },
        };
        let inputs = R1CSInputs {
            padded_trace_len: padded_trace_length,
            bytecode_a,
            bytecode_v,
            memreg_a_rw,
            memreg_v_reads,
            memreg_v_writes,
            chunks_x,
            chunks_y,
            chunks_query,
            lookup_outputs: lookups.lookup_outputs.evals(),
            circuit_flags,
            instruction_flags,
        };
        assert(are_r1cs_inputs::<C, M, F, PCS, Self>(
            padded_trace_length,
            instructions@,
            *polynomials,
            circuit_flags@,
            inputs,
        ));
        let answer = Self::r1cs_compute_witness_commit(
            WORD_SIZE,
            C,
            padded_trace_length,
            memory_start,
            &inputs,
            generators,
        );
        assert(call_ensures(
            Self::r1cs_compute_witness_commit,
            (WORD_SIZE, C, padded_trace_length, memory_start, &inputs, generators),
            answer,
        ));
        let result = match answer {
            Ok(setup) => Ok(setup),
            Err(e) => Err(R1CSSetupError::Setup(e)),
        };
        assert(is_r1cs_setup::<C, M, F, PCS, Self>(
            padded_trace_length,
            memory_start,
            instructions@,
            *polynomials,
            circuit_flags@,
            *generators,
            result,
        ));
        result
    }

    /// Binds the transcript to the machine and to the public data of one execution.
    fn fiat_shamir_preamble(
        transcript: &mut ProofTranscript<F>,
        program_io: &JoltDevice,
        trace_length: usize,
    )
        ensures
            final(transcript)@ == old(transcript)@.absorb(
                preamble(
                    *program_io,
                    trace_length,
                    C,
                    M,
                    Self::InstructionSet::COUNT,
                    Self::Subtables::COUNT,
                ),
            ),
    {
        append_preamble(
            transcript,
            program_io,
            trace_length,
            C,
            M,
            Self::InstructionSet::COUNT,
            Self::Subtables::COUNT,
        );
    }
}

} // verus!

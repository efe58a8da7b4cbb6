use jolt_vm::artifacts::JoltPreprocessing;
use jolt_vm::artifacts::JoltProof;
use jolt_vm::artifacts::ProofVerifyError;
use jolt_vm::artifacts::ProveError;
use jolt_vm::artifacts::R1CSSetupError;
use jolt_vm::commitments::BatchType;
use jolt_vm::commitments::BytecodeCommitment;
use jolt_vm::commitments::CommitmentScheme;
use jolt_vm::commitments::InstructionCommitment;
use jolt_vm::commitments::JoltCommitments;
use jolt_vm::commitments::MemoryCommitment;
use jolt_vm::commitments::MissingCommitments;
use jolt_vm::commitments::RangeCheckCommitment;
use jolt_vm::device::JoltDevice;
use jolt_vm::device::MemoryLayout;
use jolt_vm::instruction::JoltInstruction;
use jolt_vm::instruction::JoltInstructionSet;
use jolt_vm::instruction::JoltSubtableSet;
use jolt_vm::poly::BytecodePolynomials;
use jolt_vm::poly::DensePolynomial;
use jolt_vm::poly::InstructionPolynomials;
use jolt_vm::poly::JoltField;
use jolt_vm::poly::JoltPolynomials;
use jolt_vm::poly::RangeCheckPolynomials;
use jolt_vm::poly::ReadWriteMemory;
use jolt_vm::subprotocols::R1CSInputs;
use jolt_vm::subprotocols::R1CSProof;
use jolt_vm::subprotocols::ReadWriteMemoryPreprocessing;
use jolt_vm::subprotocols::Subprotocols;
use jolt_vm::subprotocols::UniformSpartanKey;
use jolt_vm::transcript::ProofTranscript;
use jolt_vm::transcript::TranscriptMessage;
use jolt_vm::transcript::TranscriptValue;
use jolt_vm::vm::Jolt;

// A machine small enough to be followed by hand. A commitment is a tag and the
// evaluations it commits to; a proof is a tag and the transcript it was made with, and
// it is accepted with that transcript only.

#[derive(Clone, Copy, Debug, PartialEq, Eq)]
struct Fp(u64);

const MODULUS: u64 = 1 << 32;

impl JoltField for Fp {
    fn zero() -> Self {
        Fp(0)
    }

    fn from_u64(n: u64) -> Option<Self> {
        if n < MODULUS {
            Some(Fp(n))
        } else {
            None
        }
    }
}

#[derive(Clone, Debug, PartialEq, Eq)]
struct Commitment(&'static str, Vec<u64>);

#[derive(Clone, Debug, PartialEq, Eq)]
struct Tagged;

fn words(poly: &DensePolynomial<Fp>) -> Vec<u64> {
    poly.evals_ref().iter().map(|e| e.0).collect()
}

/// A setup with this shape loses all but three commitments of a batch.
const LOSSY: u64 = 666;

impl CommitmentScheme for Tagged {
    type Field = Fp;
    type Shape = u64;
    type Setup = Vec<u64>;
    type Commitment = Commitment;

    fn setup(shapes: &Vec<u64>) -> Vec<u64> {
        shapes.clone()
    }

    fn commit(poly: &DensePolynomial<Fp>, _setup: &Vec<u64>) -> Commitment {
        Commitment("single", words(poly))
    }

    fn batch_commit_polys(
        polys: &Vec<DensePolynomial<Fp>>,
        _setup: &Vec<u64>,
        batch_type: BatchType,
    ) -> Vec<Commitment> {
        assert_eq!(batch_type, BatchType::Big);
        polys.iter().map(|p| Commitment("final", words(p))).collect()
    }

    fn batch_commit_polys_ref(
        polys: &Vec<&DensePolynomial<Fp>>,
        setup: &Vec<u64>,
        batch_type: BatchType,
    ) -> Vec<Commitment> {
        assert_eq!(batch_type, BatchType::Big);
        let kept = if setup.contains(&LOSSY) { 3 } else { polys.len() };
        polys.iter().take(kept).map(|p| Commitment("trace", words(p))).collect()
    }
}

#[derive(Clone, Debug, PartialEq, Eq)]
enum Op {
    /// Two operands, cut into chunks from the most significant one down.
    Add(u64, u64),
    /// Chunks as they are.
    Raw(Vec<u64>, Vec<u64>),
}

impl JoltInstruction for Op {
    fn operand_chunks(&self, c: usize, log_m: usize) -> (Vec<u64>, Vec<u64>) {
        match self {
            Op::Add(x, y) => {
                let chunk = |v: u64, i: usize| (v >> (log_m * (c - i - 1))) & ((1 << log_m) - 1);
                (
                    (0..c).map(|i| chunk(*x, i)).collect(),
                    (0..c).map(|i| chunk(*y, i)).collect(),
                )
            }
            Op::Raw(x, y) => (x.clone(), y.clone()),
        }
    }
}

impl JoltInstructionSet for Op {
    const COUNT: usize = 2;
}

struct Tables;

impl JoltSubtableSet for Tables {
    const COUNT: usize = 3;
}

#[derive(Clone, Debug, PartialEq, Eq)]
struct Tag {
    name: &'static str,
    transcript: ProofTranscript<Fp>,
    note: Vec<u64>,
}

fn check(
    name: &'static str,
    tag: Tag,
    mut transcript: ProofTranscript<Fp>,
) -> (Result<(), String>, ProofTranscript<Fp>) {
    let result = if tag.name == name && tag.transcript == transcript {
        Ok(())
    } else {
        Err(format!("{} rejected", name))
    };
    transcript.append_u64(name, 1);
    (result, transcript)
}

fn make(name: &'static str, mut transcript: ProofTranscript<Fp>, note: Vec<u64>) -> (Tag, ProofTranscript<Fp>) {
    let tag = Tag { name, transcript: transcript.clone(), note };
    transcript.append_u64(name, 1);
    (tag, transcript)
}

fn absorb(
    label: &'static str,
    commitments: &Vec<Commitment>,
    mut transcript: ProofTranscript<Fp>,
) -> ProofTranscript<Fp> {
    transcript.append_u64(label, commitments.len() as u64);
    for c in commitments {
        transcript.append_bytes(label, &c.1.iter().map(|w| *w as u8).collect());
    }
    transcript
}

fn poly(evals: &[u64]) -> DensePolynomial<Fp> {
    DensePolynomial::new(evals.iter().map(|e| Fp(*e)).collect())
}

fn elements(values: &[u64]) -> Vec<Fp> {
    values.iter().map(|e| Fp(*e)).collect()
}

#[derive(Clone, Copy, Debug, PartialEq, Eq)]
enum Access {
    Read(u64),
    Write(u64),
}

#[derive(Clone, Debug, PartialEq, Eq)]
struct Constraints {
    word_size: usize,
    num_chunks: usize,
    padded: usize,
    memory_start: u64,
    inputs: R1CSInputs<Fp>,
    setup: Vec<u64>,
}

#[derive(Clone, Debug, PartialEq, Eq)]
struct Machine;

/// How many flag polynomials the lookups make of a preprocessing.
#[derive(Clone, Debug, PartialEq, Eq)]
struct LookupsPre {
    num_flags: usize,
    num_dims: usize,
}

const REJECTED_FLAG: u64 = 77;
const UNPROVABLE_FLAG: u64 = 78;

impl<const C: usize, const M: usize> Subprotocols<Fp, Tagged, C, M> for Machine {
    type InstructionSet = Op;
    type Subtables = Tables;
    type Error = String;

    type ELFInstruction = u64;
    type BytecodeRow = u64;
    type BytecodePreprocessing = Vec<u64>;
    type BytecodeProof = Tag;

    fn bytecode_commit_shapes(max_bytecode_size: usize, max_trace_length: usize) -> Vec<u64> {
        vec![1, max_bytecode_size as u64, max_trace_length as u64]
    }

    fn bytecode_row(instruction: &u64) -> u64 {
        instruction + 1000
    }

    fn bytecode_preprocess(rows: Vec<u64>) -> Vec<u64> {
        rows
    }

    fn bytecode_polynomials(preprocessing: &Vec<u64>, trace: Vec<u64>) -> BytecodePolynomials<Fp> {
        BytecodePolynomials {
            a_read_write: poly(&trace),
            v_read_write: [poly(&[10]), poly(&[11]), poly(&[12]), poly(&[13]), poly(&[14])],
            t_read: poly(&[15]),
            t_final: poly(preprocessing),
        }
    }

    fn bytecode_r1cs_polys(polynomials: &BytecodePolynomials<Fp>) -> (Vec<Fp>, Vec<Fp>) {
        (polynomials.a_read_write.evals(), polynomials.v_read_write[0].evals())
    }

    fn bytecode_append_commitment(
        commitment: &BytecodeCommitment<Tagged>,
        label: &'static str,
        transcript: ProofTranscript<Fp>,
    ) -> ProofTranscript<Fp> {
        absorb(label, &commitment.trace_commitments, transcript)
    }

    fn bytecode_prove(
        preprocessing: &Vec<u64>,
        _generators: &Vec<u64>,
        _commitment: &BytecodeCommitment<Tagged>,
        _polynomials: &BytecodePolynomials<Fp>,
        transcript: ProofTranscript<Fp>,
    ) -> (Tag, ProofTranscript<Fp>) {
        make("bytecode", transcript, preprocessing.clone())
    }

    fn bytecode_verify(
        _preprocessing: &Vec<u64>,
        _generators: &Vec<u64>,
        proof: Tag,
        _commitment: &BytecodeCommitment<Tagged>,
        transcript: ProofTranscript<Fp>,
    ) -> (Result<(), String>, ProofTranscript<Fp>) {
        check("bytecode", proof, transcript)
    }

    type MemoryOp = Access;
    type MemoryImage = Vec<(u64, u8)>;
    type ReadTimestamps = Vec<u64>;
    type MemoryProof = Tag;

    fn noop_read() -> Access {
        Access::Read(0)
    }

    fn noop_write() -> Access {
        Access::Write(0)
    }

    fn memory_commit_shapes(max_memory_address: usize, max_trace_length: usize) -> Vec<u64> {
        vec![2, max_memory_address as u64, max_trace_length as u64]
    }

    fn memory_preprocess(memory_init: Vec<(u64, u8)>) -> ReadWriteMemoryPreprocessing<Vec<(u64, u8)>> {
        ReadWriteMemoryPreprocessing { image: memory_init, program_io: None }
    }

    fn memory_polynomials(
        program_io: &JoltDevice,
        load_store_flags: &[DensePolynomial<Fp>],
        _preprocessing: &ReadWriteMemoryPreprocessing<Vec<(u64, u8)>>,
        memory_trace: Vec<[Access; 7]>,
    ) -> (ReadWriteMemory<Fp>, Vec<u64>) {
        let flags: Vec<u64> = load_store_flags.iter().flat_map(|p| words(p)).collect();
        let rows: Vec<u64> = memory_trace
            .iter()
            .map(|row| match row[0] {
                Access::Read(a) => a,
                Access::Write(a) => 500 + a,
            })
            .collect();
        let writes: Vec<u64> = memory_trace
            .iter()
            .map(|row| row.iter().position(|op| matches!(op, Access::Write(_))).unwrap_or(99) as u64)
            .collect();
        let memory = ReadWriteMemory {
            a_ram: poly(&rows),
            v_read: vec![poly(&flags), poly(&[21])],
            v_write_rd: poly(&writes),
            v_write_ram: vec![poly(&[22])],
            v_final: poly(&[23]),
            t_read: vec![poly(&[24])],
            t_write_ram: vec![poly(&[25]), poly(&[26])],
            t_final: poly(&[program_io.outputs.len() as u64]),
        };
        (memory, vec![31, 32])
    }

    fn memory_r1cs_polys(polynomials: &ReadWriteMemory<Fp>) -> (Vec<Fp>, Vec<Fp>, Vec<Fp>) {
        (
            polynomials.a_ram.evals(),
            DensePolynomial::flatten(&polynomials.v_read),
            polynomials.v_write_rd.evals(),
        )
    }

    fn memory_append_commitment(
        commitment: &MemoryCommitment<Tagged>,
        label: &'static str,
        transcript: ProofTranscript<Fp>,
    ) -> ProofTranscript<Fp> {
        absorb(label, &commitment.trace_commitments, transcript)
    }

    fn memory_prove(
        preprocessing: &ReadWriteMemoryPreprocessing<Vec<(u64, u8)>>,
        _generators: &Vec<u64>,
        commitments: &JoltCommitments<Tagged, u64>,
        _polynomials: &JoltPolynomials<Fp>,
        _program_io: &JoltDevice,
        transcript: ProofTranscript<Fp>,
    ) -> (Tag, ProofTranscript<Fp>) {
        assert_eq!(preprocessing.program_io, None);
        make("memory", transcript, vec![commitments.r1cs.unwrap()])
    }

    fn memory_verify(
        proof: Tag,
        _generators: &Vec<u64>,
        preprocessing: &ReadWriteMemoryPreprocessing<Vec<(u64, u8)>>,
        _commitments: &JoltCommitments<Tagged, u64>,
        transcript: ProofTranscript<Fp>,
    ) -> (Result<(), String>, ProofTranscript<Fp>) {
        assert!(preprocessing.program_io.is_some());
        check("memory", proof, transcript)
    }

    fn timestamp_commit_shapes(max_trace_length: usize) -> Vec<u64> {
        vec![3, max_trace_length as u64]
    }

    fn timestamp_polynomials(read_timestamps: Vec<u64>) -> RangeCheckPolynomials<Fp> {
        RangeCheckPolynomials {
            read_cts_read_timestamp: vec![poly(&read_timestamps)],
            read_cts_global_minus_read: vec![poly(&[33])],
            final_cts_read_timestamp: vec![poly(&[34])],
            final_cts_global_minus_read: vec![poly(&[35])],
        }
    }

    fn timestamp_append_commitment(
        commitment: &RangeCheckCommitment<Tagged>,
        label: &'static str,
        transcript: ProofTranscript<Fp>,
    ) -> ProofTranscript<Fp> {
        absorb(label, &commitment.commitments, transcript)
    }

    type LookupsPreprocessing = LookupsPre;
    type LookupsProof = Tag;

    fn lookups_preprocess() -> LookupsPre {
        LookupsPre { num_flags: 11, num_dims: 2 }
    }

    fn lookups_commit_shapes(preprocessing: &LookupsPre, max_trace_length: usize) -> Vec<u64> {
        vec![4, preprocessing.num_flags as u64, max_trace_length as u64]
    }

    fn lookups_polynomials(
        preprocessing: &LookupsPre,
        instructions: &Vec<Option<Op>>,
    ) -> InstructionPolynomials<Fp> {
        InstructionPolynomials {
            dim: (0..preprocessing.num_dims as u64).map(|d| poly(&[40 + d, 50 + d])).collect(),
            read_cts: vec![poly(&[42])],
            final_cts: vec![poly(&[43]), poly(&[44])],
            E_polys: vec![poly(&[45])],
            instruction_flag_polys: (0..preprocessing.num_flags as u64)
                .map(|f| poly(&[60 + f]))
                .collect(),
            lookup_outputs: poly(&[instructions.len() as u64]),
        }
    }

    fn lookups_append_commitment(
        commitment: &InstructionCommitment<Tagged>,
        label: &'static str,
        transcript: ProofTranscript<Fp>,
    ) -> ProofTranscript<Fp> {
        absorb(label, &commitment.trace_commitment, transcript)
    }

    fn lookups_prove(
        _polynomials: &InstructionPolynomials<Fp>,
        _generators: &Vec<u64>,
        _commitment: &InstructionCommitment<Tagged>,
        _preprocessing: &LookupsPre,
        transcript: ProofTranscript<Fp>,
    ) -> (Tag, ProofTranscript<Fp>) {
        make("lookups", transcript, vec![C as u64, M as u64])
    }

    fn lookups_verify(
        _preprocessing: &LookupsPre,
        _generators: &Vec<u64>,
        proof: Tag,
        _commitment: &InstructionCommitment<Tagged>,
        transcript: ProofTranscript<Fp>,
    ) -> (Result<(), String>, ProofTranscript<Fp>) {
        check("lookups", proof, transcript)
    }

    type R1CSConstraints = Constraints;
    type R1CSArgument = Tag;
    type R1CSCommitment = u64;
    type R1CSError = u64;

    fn r1cs_compute_witness_commit(
        word_size: usize,
        num_chunks: usize,
        padded_trace_length: usize,
        memory_start: u64,
        inputs: &R1CSInputs<Fp>,
        generators: &Vec<u64>,
    ) -> Result<(UniformSpartanKey<Fp, Constraints>, Vec<Vec<Fp>>, u64), u64> {
        if inputs.circuit_flags.contains(&Fp(REJECTED_FLAG)) {
            return Err(REJECTED_FLAG);
        }
        let constraints = Constraints {
            word_size,
            num_chunks,
            padded: padded_trace_length,
            memory_start,
            inputs: inputs.clone(),
            setup: generators.clone(),
        };
        let key = UniformSpartanKey { vk_digest: Fp(12345), constraints };
        Ok((key, vec![inputs.circuit_flags.clone()], 4242))
    }

    fn r1cs_append_commitment(
        commitment: &u64,
        label: &'static str,
        mut transcript: ProofTranscript<Fp>,
    ) -> ProofTranscript<Fp> {
        transcript.append_u64(label, *commitment);
        transcript
    }

    fn r1cs_prove(
        key: UniformSpartanKey<Fp, Constraints>,
        _generators: &Vec<u64>,
        _commitments: &JoltCommitments<Tagged, u64>,
        num_chunks: usize,
        witness_segments: Vec<Vec<Fp>>,
        transcript: ProofTranscript<Fp>,
    ) -> (Result<R1CSProof<Fp, Constraints, Tag>, u64>, ProofTranscript<Fp>) {
        if witness_segments[0].contains(&Fp(UNPROVABLE_FLAG)) {
            return (Err(UNPROVABLE_FLAG), transcript);
        }
        let (argument, transcript) = make("r1cs", transcript, vec![num_chunks as u64]);
        (Ok(R1CSProof { key, argument }), transcript)
    }

    fn r1cs_verify(
        proof: R1CSProof<Fp, Constraints, Tag>,
        _generators: &Vec<u64>,
        commitments: JoltCommitments<Tagged, u64>,
        num_chunks: usize,
        transcript: ProofTranscript<Fp>,
    ) -> (Result<(), u64>, ProofTranscript<Fp>) {
        assert_eq!(commitments.r1cs, Some(4242));
        assert_eq!(proof.argument.note, vec![num_chunks as u64]);
        let (result, transcript) = check("r1cs", proof.argument, transcript);
        (result.map_err(|_| 7), transcript)
    }

    fn r1cs_error_message(error: &u64) -> String {
        format!("r1cs error {}", error)
    }
}

impl<const C: usize, const M: usize> Jolt<Fp, Tagged, C, M> for Machine {}

fn device() -> JoltDevice {
    JoltDevice {
        inputs: vec![1, 2, 3],
        outputs: vec![9],
        panic: true,
        memory_layout: MemoryLayout {
            max_input_size: 4,
            max_output_size: 1,
            ram_witness_offset: 0x7000_0000,
        },
    }
}

fn preprocessing() -> JoltPreprocessing<2, 16, Fp, Tagged, Machine> {
    <Machine as Jolt<Fp, Tagged, 2, 16>>::preprocess(
        vec![5, 6],
        vec![(0x100, 1)],
        64,
        128,
        256,
    )
}

fn program() -> Vec<Option<Op>> {
    vec![Some(Op::Add(0xab, 0xcd)), None, Some(Op::Add(0x12, 0x34))]
}

fn row(address: u64) -> [Access; 7] {
    [Access::Read(address); 7]
}

type Outcome =
    Result<(JoltProof<2, 16, Fp, Tagged, Machine>, JoltCommitments<Tagged, u64>), ProveError<u64>>;

fn prove_with(
    io: JoltDevice,
    instructions: Vec<Option<Op>>,
    circuit_flags: &[u64],
    preprocessing: JoltPreprocessing<2, 16, Fp, Tagged, Machine>,
) -> Outcome {
    <Machine as Jolt<Fp, Tagged, 2, 16>>::prove(
        io,
        vec![1005, 1006, 1005],
        vec![row(3), row(4)],
        instructions,
        elements(circuit_flags),
        preprocessing,
    )
}

fn proved() -> (JoltProof<2, 16, Fp, Tagged, Machine>, JoltCommitments<Tagged, u64>) {
    match prove_with(device(), program(), &[1, 0, 1], preprocessing()) {
        Ok(pair) => pair,
        Err(e) => panic!("{:?}", e),
    }
}

fn verify(
    proof: JoltProof<2, 16, Fp, Tagged, Machine>,
    commitments: JoltCommitments<Tagged, u64>,
) -> Result<(), ProofVerifyError<String>> {
    <Machine as Jolt<Fp, Tagged, 2, 16>>::verify(preprocessing(), proof, commitments)
}

fn u64_message(label: &'static str, x: u64) -> TranscriptMessage<Fp> {
    TranscriptMessage { label, value: TranscriptValue::U64(x) }
}

fn bytes_message(label: &'static str, bytes: &[u8]) -> TranscriptMessage<Fp> {
    TranscriptMessage { label, value: TranscriptValue::Bytes(bytes.to_vec()) }
}

#[test]
fn preprocess_collects_shapes_in_order() {
    let pre = preprocessing();
    assert_eq!(pre.generators, vec![1, 64, 256, 2, 128, 256, 3, 256, 4, 11, 256]);
    assert_eq!(pre.bytecode, vec![1005, 1006]);
    assert_eq!(pre.read_write_memory.image, vec![(0x100, 1)]);
    assert_eq!(pre.read_write_memory.program_io, None);
    assert_eq!(pre.instruction_lookups, LookupsPre { num_flags: 11, num_dims: 2 });
}

#[test]
fn preprocessing_can_be_cloned() {
    let pre = preprocessing();
    assert_eq!(pre.clone().generators, pre.generators);
}

#[test]
fn what_is_proved_is_accepted() {
    let (proof, commitments) = proved();
    assert_eq!(proof.trace_length, 3);
    assert_eq!(proof.program_io, device());
    assert_eq!(verify(proof, commitments), Ok(()));
}

#[test]
fn transcript_is_opened_by_preamble_key_and_commitments() {
    let (proof, _) = proved();
    let opened = proof.bytecode.transcript;
    assert_eq!(opened.label(), "Jolt transcript");
    let messages = opened.messages();
    let expected = vec![
        u64_message("Unpadded trace length", 3),
        u64_message("C", 2),
        u64_message("M", 16),
        u64_message("# instructions", 2),
        u64_message("# subtables", 3),
        u64_message("Max input size", 4),
        u64_message("Max output size", 1),
        bytes_message("Program inputs", &[1, 2, 3]),
        bytes_message("Program outputs", &[9]),
        u64_message("Program panic", 1),
        TranscriptMessage { label: "spartan key", value: TranscriptValue::Scalar(Fp(12345)) },
    ];
    assert_eq!(messages[..11], expected[..]);
    let labels: Vec<&str> = messages[11..].iter().map(|m| m.label).collect();
    let mut expected_labels = vec!["bytecode"; 8];
    expected_labels.extend(vec!["read_write_memory"; 9]);
    expected_labels.extend(vec!["timestamp_range_check"; 5]);
    expected_labels.extend(vec!["instruction_lookups"; 17]);
    expected_labels.push("r1cs");
    assert_eq!(labels, expected_labels);
    assert_eq!(messages[messages.len() - 1], u64_message("r1cs", 4242));
}

#[test]
fn arguments_share_one_transcript() {
    let (proof, _) = proved();
    let opened = proof.bytecode.transcript.messages().len();
    assert_eq!(proof.instruction_lookups.transcript.messages().len(), opened + 1);
    assert_eq!(proof.read_write_memory.transcript.messages().len(), opened + 2);
    assert_eq!(proof.r1cs.argument.transcript.messages().len(), opened + 3);
    assert_eq!(
        proof.r1cs.argument.transcript.messages()[opened..],
        vec![u64_message("bytecode", 1), u64_message("lookups", 1), u64_message("memory", 1)][..]
    );
}

#[test]
fn memory_trace_is_padded_to_a_power_of_two() {
    let (proof, _) = proved();
    let key = proof.r1cs.key.constraints;
    assert_eq!(key.padded, 4);
    // Two rows of the trace, then no-ops, whose third operation is the write.
    assert_eq!(key.inputs.memreg_a_rw, elements(&[3, 4, 0, 0]));
    assert_eq!(key.inputs.memreg_v_writes, elements(&[99, 99, 2, 2]));
}

#[test]
fn memory_gets_the_load_and_store_flags() {
    let (proof, _) = proved();
    let reads = proof.r1cs.key.constraints.inputs.memreg_v_reads;
    assert_eq!(reads, elements(&[65, 66, 67, 68, 69, 21]));
}

#[test]
fn constraint_system_gets_its_inputs() {
    let (proof, _) = proved();
    let key = proof.r1cs.key.constraints;
    assert_eq!(key.word_size, 32);
    assert_eq!(key.num_chunks, 2);
    assert_eq!(key.memory_start, 0x1000_0000);
    assert_eq!(key.setup, preprocessing().generators);
    let inputs = key.inputs;
    assert_eq!(inputs.padded_trace_len, 4);
    assert_eq!(inputs.bytecode_a, elements(&[1005, 1006, 1005]));
    assert_eq!(inputs.bytecode_v, elements(&[10]));
    // Chunk 0 of the four cycles, then chunk 1.
    assert_eq!(inputs.chunks_x, elements(&[0xa, 0, 1, 0, 0xb, 0, 2, 0]));
    assert_eq!(inputs.chunks_y, elements(&[0xc, 0, 3, 0, 0xd, 0, 4, 0]));
    assert_eq!(inputs.chunks_query, elements(&[40, 50, 41, 51]));
    assert_eq!(inputs.lookup_outputs, elements(&[3]));
    assert_eq!(inputs.circuit_flags, elements(&[1, 0, 1]));
    assert_eq!(
        inputs.instruction_flags,
        elements(&[60, 61, 62, 63, 64, 65, 66, 67, 68, 69, 70])
    );
}

#[test]
fn chunks_of_tables_that_are_no_power_of_two_round_up() {
    let outcome = <Machine as Jolt<Fp, Tagged, 2, 5>>::prove(
        device(),
        vec![1],
        vec![row(3)],
        vec![Some(Op::Add(0o31, 0o24))],
        elements(&[1]),
        <Machine as Jolt<Fp, Tagged, 2, 5>>::preprocess(vec![5], Vec::new(), 1, 1, 1),
    );
    match outcome {
        Ok((proof, _)) => {
            let inputs = proof.r1cs.key.constraints.inputs;
            assert_eq!(inputs.padded_trace_len, 1);
            assert_eq!(inputs.chunks_x, elements(&[3, 1]));
            assert_eq!(inputs.chunks_y, elements(&[2, 4]));
            assert_eq!(proof.instruction_lookups.note, vec![2, 5]);
        }
        Err(e) => panic!("{:?}", e),
    }
}

#[test]
fn empty_trace_is_padded_to_one_row() {
    match prove_with(device(), Vec::new(), &[], preprocessing()) {
        Ok((proof, commitments)) => {
            assert_eq!(proof.trace_length, 0);
            assert_eq!(proof.r1cs.key.constraints.padded, 1);
            // The second row of the memory trace is cut off.
            assert_eq!(proof.r1cs.key.constraints.inputs.memreg_a_rw, elements(&[3]));
            assert_eq!(verify(proof, commitments), Ok(()));
        }
        Err(e) => panic!("{:?}", e),
    }
}

#[test]
fn commitments_stand_with_their_polynomials() {
    let (_, commitments) = proved();
    let trace = |values: &[u64]| Commitment("trace", values.to_vec());
    assert_eq!(
        commitments.bytecode.trace_commitments,
        vec![
            trace(&[1005, 1006, 1005]),
            trace(&[15]),
            trace(&[10]),
            trace(&[11]),
            trace(&[12]),
            trace(&[13]),
            trace(&[14]),
        ]
    );
    assert_eq!(commitments.bytecode.t_final_commitment, Commitment("single", vec![1005, 1006]));
    assert_eq!(
        commitments.read_write_memory.trace_commitments,
        vec![
            trace(&[3, 4, 0, 0]),
            trace(&[65, 66, 67, 68, 69]),
            trace(&[21]),
            trace(&[99, 99, 2, 2]),
            trace(&[22]),
            trace(&[24]),
            trace(&[25]),
            trace(&[26]),
        ]
    );
    assert_eq!(commitments.read_write_memory.v_final_commitment, Commitment("single", vec![23]));
    assert_eq!(commitments.read_write_memory.t_final_commitment, Commitment("single", vec![1]));
    assert_eq!(
        commitments.timestamp_range_check.commitments,
        vec![trace(&[31, 32]), trace(&[33]), trace(&[34]), trace(&[35])]
    );
    let lookups = &commitments.instruction_lookups;
    assert_eq!(lookups.trace_commitment.len(), 16);
    assert_eq!(lookups.trace_commitment[..5], [
        trace(&[40, 50]),
        trace(&[41, 51]),
        trace(&[42]),
        trace(&[45]),
        trace(&[60]),
    ]);
    assert_eq!(lookups.trace_commitment[15], trace(&[3]));
    assert_eq!(
        lookups.final_commitment,
        vec![Commitment("final", vec![43]), Commitment("final", vec![44])]
    );
    assert_eq!(commitments.r1cs, Some(4242));
}

#[test]
fn changed_public_data_is_rejected() {
    let (mut proof, commitments) = proved();
    proof.program_io.outputs = vec![8];
    assert_eq!(
        verify(proof, commitments),
        Err(ProofVerifyError::Subprotocol("bytecode rejected".to_string()))
    );
    let (mut proof, commitments) = proved();
    proof.trace_length = 4;
    assert!(verify(proof, commitments).is_err());
    let (mut proof, commitments) = proved();
    proof.program_io.panic = false;
    assert!(verify(proof, commitments).is_err());
    let (mut proof, commitments) = proved();
    proof.r1cs.key.vk_digest = Fp(1);
    assert!(verify(proof, commitments).is_err());
    let (proof, mut commitments) = proved();
    commitments.timestamp_range_check.commitments[0] = Commitment("trace", vec![0]);
    assert!(verify(proof, commitments).is_err());
}

#[test]
fn each_argument_can_object() {
    let (mut proof, commitments) = proved();
    proof.bytecode.name = "forged";
    proof.instruction_lookups.name = "forged";
    assert_eq!(
        verify(proof, commitments),
        Err(ProofVerifyError::Subprotocol("bytecode rejected".to_string()))
    );
    let (mut proof, commitments) = proved();
    proof.instruction_lookups.name = "forged";
    proof.read_write_memory.name = "forged";
    assert_eq!(
        verify(proof, commitments),
        Err(ProofVerifyError::Subprotocol("lookups rejected".to_string()))
    );
    let (mut proof, commitments) = proved();
    proof.read_write_memory.name = "forged";
    proof.r1cs.argument.name = "forged";
    assert_eq!(
        verify(proof, commitments),
        Err(ProofVerifyError::Subprotocol("memory rejected".to_string()))
    );
    let (mut proof, commitments) = proved();
    proof.r1cs.argument.name = "forged";
    assert_eq!(
        verify(proof, commitments),
        Err(ProofVerifyError::SpartanError("r1cs error 7".to_string()))
    );
}

#[test]
fn oversized_inputs_and_outputs_are_rejected() {
    let mut io = device();
    io.inputs = vec![1, 2, 3, 4, 5];
    match prove_with(io, program(), &[1], preprocessing()) {
        Ok((proof, commitments)) => {
            assert_eq!(verify(proof, commitments), Err(ProofVerifyError::ProgramIoTooLarge));
        }
        Err(e) => panic!("{:?}", e),
    }
    let mut io = device();
    io.outputs = vec![1, 2];
    match prove_with(io, program(), &[1], preprocessing()) {
        Ok((mut proof, commitments)) => {
            // An earlier objection comes first.
            proof.instruction_lookups.name = "forged";
            assert_eq!(
                verify(proof, commitments),
                Err(ProofVerifyError::Subprotocol("lookups rejected".to_string()))
            );
        }
        Err(e) => panic!("{:?}", e),
    }
}

#[test]
fn verify_memory_fills_in_the_program_io() {
    let (proof, commitments) = proved();
    let pre = preprocessing();
    let mut memory = pre.read_write_memory;
    let mut transcript = proof.read_write_memory.transcript.clone();
    let result = <Machine as Jolt<Fp, Tagged, 2, 16>>::verify_memory(
        &mut memory,
        &pre.generators,
        proof.read_write_memory,
        &commitments,
        device(),
        &mut transcript,
    );
    assert_eq!(result, Ok(()));
    assert_eq!(memory.program_io, Some(device()));
    assert_eq!(memory.image, vec![(0x100, 1)]);
    assert_eq!(transcript, proof.r1cs.argument.transcript);
}

#[test]
fn too_few_flag_polynomials_cannot_be_proved() {
    let mut pre = preprocessing();
    pre.instruction_lookups.num_flags = 9;
    let outcome = prove_with(device(), program(), &[1], pre);
    assert_eq!(outcome.err(), Some(ProveError::MissingFlagPolynomials));
    let mut pre = preprocessing();
    pre.instruction_lookups.num_flags = 10;
    assert!(prove_with(device(), program(), &[1], pre).is_ok());
}

#[test]
fn too_few_commitments_cannot_be_proved() {
    let mut pre = preprocessing();
    pre.generators.push(LOSSY);
    let outcome = prove_with(device(), program(), &[1], pre);
    assert_eq!(outcome.err(), Some(ProveError::MissingCommitments));
}

#[test]
fn unusable_traces_cannot_be_set_up() {
    let setup_error = |instructions: Vec<Option<Op>>, flags: &[u64], dims: usize| {
        let mut pre = preprocessing();
        pre.instruction_lookups.num_dims = dims;
        match prove_with(device(), instructions, flags, pre) {
            Err(ProveError::R1CSSetup(e)) => Some(e),
            _ => None,
        }
    };
    assert_eq!(setup_error(program(), &[1], 2), None);
    assert_eq!(
        setup_error(vec![Some(Op::Raw(vec![1, 2], vec![3, MODULUS]))], &[1], 2),
        Some(R1CSSetupError::ChunkOutsideField)
    );
    // A chunk without a partner is not looked at.
    assert_eq!(setup_error(vec![Some(Op::Raw(vec![1, MODULUS], vec![3]))], &[1], 2), None);
    assert_eq!(
        setup_error(vec![Some(Op::Raw(vec![1, 2, 3], vec![4, 5, 6]))], &[1], 2),
        Some(R1CSSetupError::ChunkOutsideTrace)
    );
    assert_eq!(
        setup_error(program(), &[1], 1),
        Some(R1CSSetupError::UnsuitableQueryPolynomials)
    );
    assert_eq!(
        setup_error(program(), &[REJECTED_FLAG], 2),
        Some(R1CSSetupError::Setup(REJECTED_FLAG))
    );
}

#[test]
fn unsatisfied_constraints_cannot_be_proved() {
    let outcome = prove_with(device(), program(), &[UNPROVABLE_FLAG], preprocessing());
    assert_eq!(outcome.err(), Some(ProveError::R1CSProof(UNPROVABLE_FLAG)));
}

#[test]
fn polynomials_are_committed_to_without_the_constraint_system() {
    let bytecode = <Machine as Subprotocols<Fp, Tagged, 2, 16>>::bytecode_polynomials(&vec![1], vec![2]);
    let (memory, timestamps) =
        <Machine as Subprotocols<Fp, Tagged, 2, 16>>::memory_polynomials(&device(), &[], &preprocessing().read_write_memory, Vec::new());
    let polynomials = JoltPolynomials {
        bytecode,
        read_write_memory: memory,
        timestamp_range_check: <Machine as Subprotocols<Fp, Tagged, 2, 16>>::timestamp_polynomials(timestamps),
        instruction_lookups: <Machine as Subprotocols<Fp, Tagged, 2, 16>>::lookups_polynomials(
            &LookupsPre { num_flags: 1, num_dims: 1 },
            &Vec::new(),
        ),
    };
    let result: Result<JoltCommitments<Tagged, u64>, MissingCommitments> =
        polynomials.commit::<Tagged, u64>(&vec![LOSSY]);
    assert_eq!(result.err(), Some(MissingCommitments));
    let result: Result<JoltCommitments<Tagged, u64>, MissingCommitments> =
        polynomials.commit::<Tagged, u64>(&Vec::new());
    match result {
        Ok(commitments) => {
            assert_eq!(commitments.r1cs, None);
            assert_eq!(commitments.instruction_lookups.trace_commitment.len(), 5);
        }
        Err(e) => panic!("{:?}", e),
    }
}

#[test]
fn traces_are_padded_to_the_least_power_of_two() {
    let padded = [1, 1, 2, 4, 4, 8, 8, 8, 8, 16];
    for length in 0..10 {
        match prove_with(device(), vec![None; length], &[1], preprocessing()) {
            Ok((proof, commitments)) => {
                assert_eq!(proof.trace_length, length);
                assert_eq!(proof.r1cs.key.constraints.padded, padded[length]);
                assert_eq!(verify(proof, commitments), Ok(()));
            }
            Err(e) => panic!("{:?}", e),
        }
    }
}

#[test]
fn openings_of_different_machines_differ() {
    let mut opened = Vec::new();
    let mut transcript: ProofTranscript<Fp> = ProofTranscript::new("Jolt transcript");
    <Machine as Jolt<Fp, Tagged, 2, 16>>::fiat_shamir_preamble(&mut transcript, &device(), 3);
    opened.push(transcript);
    let mut transcript: ProofTranscript<Fp> = ProofTranscript::new("Jolt transcript");
    <Machine as Jolt<Fp, Tagged, 2, 5>>::fiat_shamir_preamble(&mut transcript, &device(), 3);
    opened.push(transcript);
    let mut transcript: ProofTranscript<Fp> = ProofTranscript::new("Jolt transcript");
    <Machine as Jolt<Fp, Tagged, 4, 16>>::fiat_shamir_preamble(&mut transcript, &device(), 3);
    opened.push(transcript);
    assert_ne!(opened[0], opened[1]);
    assert_ne!(opened[0], opened[2]);
    assert_ne!(opened[1], opened[2]);
}

#[test]
fn instructions_of_c_chunks_have_room() {
    let op = Op::Raw(vec![1, 2], vec![3, 4]);
    match prove_with(device(), vec![Some(op); 5], &[1], preprocessing()) {
        Ok((proof, _)) => {
            let inputs = proof.r1cs.key.constraints.inputs;
            assert_eq!(inputs.chunks_x, elements(&[1, 1, 1, 1, 1, 0, 0, 0, 2, 2, 2, 2, 2, 0, 0, 0]));
            assert_eq!(inputs.chunks_y, elements(&[3, 3, 3, 3, 3, 0, 0, 0, 4, 4, 4, 4, 4, 0, 0, 0]));
        }
        Err(e) => panic!("{:?}", e),
    }
}

fn prove_memory(
    memory_trace: Vec<[Access; 7]>,
) -> (JoltProof<2, 16, Fp, Tagged, Machine>, JoltCommitments<Tagged, u64>) {
    let outcome = <Machine as Jolt<Fp, Tagged, 2, 16>>::prove(
        device(),
        vec![1005, 1006, 1005],
        memory_trace,
        program(),
        elements(&[1, 0, 1]),
        preprocessing(),
    );
    match outcome {
        Ok(pair) => pair,
        Err(e) => panic!("{:?}", e),
    }
}

fn assert_same(
    one: (JoltProof<2, 16, Fp, Tagged, Machine>, JoltCommitments<Tagged, u64>),
    other: (JoltProof<2, 16, Fp, Tagged, Machine>, JoltCommitments<Tagged, u64>),
) {
    assert_eq!(one.0.trace_length, other.0.trace_length);
    assert_eq!(one.0.program_io, other.0.program_io);
    assert_eq!(one.0.bytecode, other.0.bytecode);
    assert_eq!(one.0.read_write_memory, other.0.read_write_memory);
    assert_eq!(one.0.instruction_lookups, other.0.instruction_lookups);
    assert_eq!(one.0.r1cs, other.0.r1cs);
    assert_eq!(one.1.bytecode.trace_commitments, other.1.bytecode.trace_commitments);
    assert_eq!(one.1.bytecode.t_final_commitment, other.1.bytecode.t_final_commitment);
    let (m, n) = (one.1.read_write_memory, other.1.read_write_memory);
    assert_eq!(m.trace_commitments, n.trace_commitments);
    assert_eq!(m.v_final_commitment, n.v_final_commitment);
    assert_eq!(m.t_final_commitment, n.t_final_commitment);
    assert_eq!(one.1.timestamp_range_check.commitments, other.1.timestamp_range_check.commitments);
    let (l, k) = (one.1.instruction_lookups, other.1.instruction_lookups);
    assert_eq!(l.trace_commitment, k.trace_commitment);
    assert_eq!(l.final_commitment, k.final_commitment);
    assert_eq!(one.1.r1cs, other.1.r1cs);
}

fn noops() -> [Access; 7] {
    let (r, w) = (Access::Read(0), Access::Write(0));
    [r, r, w, r, r, r, r]
}

#[test]
fn missing_memory_rows_count_as_noops() {
    let filled = vec![row(3), row(4), noops(), noops()];
    assert_same(prove_memory(vec![row(3), row(4)]), prove_memory(filled));
    let partly = vec![row(3), row(4), noops()];
    assert_same(prove_memory(vec![row(3), row(4)]), prove_memory(partly));
}

#[test]
fn memory_rows_behind_the_padded_length_are_ignored() {
    let cut = vec![row(3), row(4), row(5), row(6)];
    let mut long = cut.clone();
    long.push(row(7));
    long.push(row(8));
    assert_same(prove_memory(cut), prove_memory(long));
}

#[test]
fn proving_twice_gives_the_same() {
    assert_same(proved(), proved());
}

fn small_polynomials() -> JoltPolynomials<Fp> {
    let (memory, timestamps) = <Machine as Subprotocols<Fp, Tagged, 2, 16>>::memory_polynomials(
        &device(),
        &[],
        &preprocessing().read_write_memory,
        vec![row(3)],
    );
    JoltPolynomials {
        bytecode: <Machine as Subprotocols<Fp, Tagged, 2, 16>>::bytecode_polynomials(
            &vec![1],
            vec![2],
        ),
        read_write_memory: memory,
        timestamp_range_check: <Machine as Subprotocols<Fp, Tagged, 2, 16>>::timestamp_polynomials(
            timestamps,
        ),
        instruction_lookups: <Machine as Subprotocols<Fp, Tagged, 2, 16>>::lookups_polynomials(
            &LookupsPre { num_flags: 10, num_dims: 2 },
            &Vec::new(),
        ),
    }
}

#[test]
fn final_polynomials_do_not_enter_the_trace_commitments() {
    let one = small_polynomials();
    let mut other = small_polynomials();
    other.bytecode.t_final = poly(&[91]);
    other.read_write_memory.v_final = poly(&[92]);
    other.read_write_memory.t_final = poly(&[93]);
    other.instruction_lookups.final_cts = vec![poly(&[94])];
    let one: Result<JoltCommitments<Tagged, u64>, MissingCommitments> = one.commit(&Vec::new());
    let other: Result<JoltCommitments<Tagged, u64>, MissingCommitments> = other.commit(&Vec::new());
    match (one, other) {
        (Ok(c), Ok(d)) => {
            assert_eq!(c.bytecode.trace_commitments, d.bytecode.trace_commitments);
            assert_eq!(
                c.read_write_memory.trace_commitments,
                d.read_write_memory.trace_commitments
            );
            assert_eq!(c.timestamp_range_check.commitments, d.timestamp_range_check.commitments);
            assert_eq!(
                c.instruction_lookups.trace_commitment,
                d.instruction_lookups.trace_commitment
            );
            assert_ne!(c.bytecode.t_final_commitment, d.bytecode.t_final_commitment);
            assert_eq!(d.read_write_memory.v_final_commitment, Commitment("single", vec![92]));
            assert_eq!(d.read_write_memory.t_final_commitment, Commitment("single", vec![93]));
            assert_eq!(
                d.instruction_lookups.final_commitment,
                vec![Commitment("final", vec![94])]
            );
        }
        _ => panic!("commitments are missing"),
    }
}

type Setup = Result<(UniformSpartanKey<Fp, Constraints>, Vec<Vec<Fp>>, u64), R1CSSetupError<u64>>;

fn set_up(instructions: &[Option<Op>]) -> Setup {
    <Machine as Jolt<Fp, Tagged, 2, 16>>::r1cs_setup(
        4,
        0x100,
        instructions,
        &small_polynomials(),
        elements(&[1]),
        &vec![8],
    )
}

#[test]
fn idle_cycles_behind_the_end_change_nothing() {
    let mut instructions = vec![Some(Op::Add(0xab, 0xcd)), None];
    let short = set_up(&instructions);
    assert!(short.is_ok());
    instructions.push(None);
    assert_eq!(set_up(&instructions), short);
    instructions.push(None);
    assert_eq!(set_up(&instructions), short);
    // There is no room for a fifth cycle.
    instructions.push(None);
    assert_eq!(set_up(&instructions).err(), Some(R1CSSetupError::ChunkOutsideTrace));
    let refused = vec![Some(Op::Raw(vec![1, 2, 3], vec![4, 5, 6]))];
    assert_eq!(set_up(&refused).err(), Some(R1CSSetupError::ChunkOutsideTrace));
    let idle = vec![Some(Op::Raw(vec![1, 2, 3], vec![4, 5, 6])), None, None];
    assert_eq!(set_up(&idle).err(), Some(R1CSSetupError::ChunkOutsideTrace));
}

#[test]
fn instructions_enter_the_setup_through_their_chunks() {
    let one = set_up(&[Some(Op::Add(0xab, 0xcd)), None, Some(Op::Raw(vec![0, 0], vec![0, 0]))]);
    let other = set_up(&[
        Some(Op::Raw(vec![0xa, 0xb], vec![0xc, 0xd])),
        Some(Op::Add(0, 0)),
        None,
    ]);
    assert!(one.is_ok());
    assert_eq!(one, other);
    let third = set_up(&[Some(Op::Add(0xab, 0xce))]);
    assert_ne!(one, third);
}

#[test]
fn preprocessing_parts_depend_on_their_own_inputs() {
    let one = preprocessing();
    let sizes = <Machine as Jolt<Fp, Tagged, 2, 16>>::preprocess(
        vec![7],
        vec![(0x200, 2)],
        64,
        128,
        256,
    );
    assert_eq!(one.generators, sizes.generators);
    assert_ne!(one.bytecode, sizes.bytecode);
    assert_ne!(one.read_write_memory, sizes.read_write_memory);
    let program = <Machine as Jolt<Fp, Tagged, 2, 16>>::preprocess(
        vec![5, 6],
        vec![(0x100, 1)],
        1,
        2,
        3,
    );
    assert_eq!(one.bytecode, program.bytecode);
    assert_eq!(one.read_write_memory, program.read_write_memory);
    assert_ne!(one.generators, program.generators);
    assert_eq!(one.instruction_lookups, program.instruction_lookups);
}

#[test]
fn interface_stored_in_the_preprocessing_is_ignored() {
    let mut other = device();
    other.outputs = vec![77; 100];
    for forged in [false, true] {
        let (mut proof, commitments) = proved();
        if forged {
            proof.read_write_memory.name = "forged";
        }
        let mut pre = preprocessing();
        pre.read_write_memory.program_io = Some(other.clone());
        let result = <Machine as Jolt<Fp, Tagged, 2, 16>>::verify(pre, proof, commitments);
        let expected = if forged {
            Err(ProofVerifyError::Subprotocol("memory rejected".to_string()))
        } else {
            Ok(())
        };
        assert_eq!(result, expected);
    }
}

#[test]
fn memory_is_verified_again_on_what_was_left() {
    let (proof, commitments) = proved();
    let pre = preprocessing();
    let mut memory = pre.read_write_memory;
    let mut earlier = device();
    earlier.outputs = Vec::new();
    let mut first = proof.read_write_memory.transcript.clone();
    let ask = |memory: &mut ReadWriteMemoryPreprocessing<Vec<(u64, u8)>>,
               io: JoltDevice,
               transcript: &mut ProofTranscript<Fp>| {
        <Machine as Jolt<Fp, Tagged, 2, 16>>::verify_memory(
            memory,
            &pre.generators,
            proof.read_write_memory.clone(),
            &commitments,
            io,
            transcript,
        )
    };
    assert_eq!(ask(&mut memory, earlier.clone(), &mut first), Ok(()));
    assert_eq!(memory.program_io, Some(earlier));
    let mut second = proof.read_write_memory.transcript.clone();
    assert_eq!(ask(&mut memory, device(), &mut second), Ok(()));
    assert_eq!(memory.program_io, Some(device()));
    assert_eq!(memory.image, vec![(0x100, 1)]);
    assert_eq!(first, second);
    // A transcript that has moved on is another question.
    assert!(ask(&mut memory, device(), &mut second).is_err());
}

#[test]
fn verifying_twice_gives_the_same() {
    for part in ["none", "bytecode", "lookups", "memory", "r1cs"] {
        let run = || {
            let (mut proof, commitments) = proved();
            match part {
                "bytecode" => proof.bytecode.name = "forged",
                "lookups" => proof.instruction_lookups.name = "forged",
                "memory" => proof.read_write_memory.name = "forged",
                "r1cs" => proof.r1cs.argument.name = "forged",
                _ => {}
            }
            verify(proof, commitments)
        };
        assert_eq!(run(), run());
        assert_eq!(run().is_ok(), part == "none");
    }
}

#[test]
fn memory_checks_of_one_image_give_the_same() {
    let (proof, commitments) = proved();
    let mut other = device();
    other.inputs = Vec::new();
    let mut outcomes = Vec::new();
    for stored in [None, Some(device()), Some(other)] {
        let mut memory =
            ReadWriteMemoryPreprocessing { image: vec![(0x100, 1)], program_io: stored };
        let mut transcript = proof.read_write_memory.transcript.clone();
        let result = <Machine as Jolt<Fp, Tagged, 2, 16>>::verify_memory(
            &mut memory,
            &preprocessing().generators,
            proof.read_write_memory.clone(),
            &commitments,
            device(),
            &mut transcript,
        );
        outcomes.push((result, transcript, memory));
    }
    assert_eq!(outcomes[0].0, Ok(()));
    assert_eq!(outcomes[0].2.program_io, Some(device()));
    assert_eq!(outcomes[0], outcomes[1]);
    assert_eq!(outcomes[0], outcomes[2]);
}

#[test]
fn commitments_of_a_part_depend_on_that_part_alone() {
    let commit = |polynomials: JoltPolynomials<Fp>| -> JoltCommitments<Tagged, u64> {
        match polynomials.commit(&Vec::new()) {
            Ok(commitments) => commitments,
            Err(e) => panic!("{:?}", e),
        }
    };
    let one = commit(small_polynomials());
    // More memory polynomials, and other ones.
    let mut polynomials = small_polynomials();
    polynomials.read_write_memory.v_read = vec![poly(&[70]), poly(&[71]), poly(&[72])];
    let other = commit(polynomials);
    assert_ne!(
        one.read_write_memory.trace_commitments,
        other.read_write_memory.trace_commitments
    );
    assert_eq!(one.bytecode.trace_commitments, other.bytecode.trace_commitments);
    assert_eq!(one.bytecode.t_final_commitment, other.bytecode.t_final_commitment);
    assert_eq!(one.timestamp_range_check.commitments, other.timestamp_range_check.commitments);
    assert_eq!(
        one.instruction_lookups.trace_commitment,
        other.instruction_lookups.trace_commitment
    );
    assert_eq!(
        one.instruction_lookups.final_commitment,
        other.instruction_lookups.final_commitment
    );
    // Fewer polynomials in every part but memory.
    let mut polynomials = small_polynomials();
    polynomials.bytecode.a_read_write = poly(&[80]);
    polynomials.timestamp_range_check.read_cts_read_timestamp = Vec::new();
    polynomials.instruction_lookups.dim = Vec::new();
    let third = commit(polynomials);
    let (m, n) = (one.read_write_memory, third.read_write_memory);
    assert_eq!(m.trace_commitments, n.trace_commitments);
    assert_eq!(m.v_final_commitment, n.v_final_commitment);
    assert_eq!(m.t_final_commitment, n.t_final_commitment);
    assert_ne!(one.bytecode.trace_commitments, third.bytecode.trace_commitments);
}

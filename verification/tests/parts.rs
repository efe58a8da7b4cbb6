use jolt_vm::chunks::scatter_chunks;
use jolt_vm::commitments::split_trace_commitments;
use jolt_vm::device::pad_memory_trace;
use jolt_vm::device::JoltDevice;
use jolt_vm::device::MemoryLayout;
use jolt_vm::device::MEMORY_OPS_PER_INSTRUCTION;
use jolt_vm::device::RAM_START_ADDRESS;
use jolt_vm::instruction::lift_chunks;
use jolt_vm::instruction::operand_rows;
use jolt_vm::instruction::JoltInstruction;
use jolt_vm::opening::append_preamble;
use jolt_vm::poly::flatten_query;
use jolt_vm::poly::DensePolynomial;
use jolt_vm::poly::JoltField;
use jolt_vm::artifacts::ProofVerifyError;
use jolt_vm::transcript::ProofTranscript;
use jolt_vm::transcript::TranscriptMessage;
use jolt_vm::transcript::TranscriptValue;
use jolt_vm::verification::subprotocol_outcome;

#[derive(Clone, Copy, Debug, PartialEq, Eq)]
struct Small(u8);

impl JoltField for Small {
    fn zero() -> Self {
        Small(0)
    }

    fn from_u64(n: u64) -> Option<Self> {
        if n < 101 {
            Some(Small(n as u8))
        } else {
            None
        }
    }
}

struct Pair(Vec<u64>, Vec<u64>);

impl JoltInstruction for Pair {
    fn operand_chunks(&self, _c: usize, _log_m: usize) -> (Vec<u64>, Vec<u64>) {
        (self.0.clone(), self.1.clone())
    }
}

fn io(inputs: usize, outputs: usize) -> JoltDevice {
    JoltDevice {
        inputs: vec![7; inputs],
        outputs: vec![8; outputs],
        panic: false,
        memory_layout: MemoryLayout {
            max_input_size: 2,
            max_output_size: 3,
            ram_witness_offset: 0,
        },
    }
}

#[test]
fn memory_constants() {
    assert_eq!(RAM_START_ADDRESS, 0x8000_0000);
    assert_eq!(MEMORY_OPS_PER_INSTRUCTION, 7);
}

#[test]
fn layout_bounds_are_inclusive() {
    assert!(io(2, 3).check_layout());
    assert!(io(0, 0).check_layout());
    assert!(!io(3, 3).check_layout());
    assert!(!io(2, 4).check_layout());
}

#[test]
fn padding_fills_with_noops() {
    let trace = vec![[1u8; 7], [2u8; 7]];
    let padded = pad_memory_trace(trace, 4, 50, 60);
    assert_eq!(padded, vec![
        [1, 1, 1, 1, 1, 1, 1],
        [2, 2, 2, 2, 2, 2, 2],
        [50, 50, 60, 50, 50, 50, 50],
        [50, 50, 60, 50, 50, 50, 50],
    ]);
}

#[test]
fn padding_cuts_a_long_trace() {
    let trace = vec![[1u8; 7], [2u8; 7], [3u8; 7]];
    assert_eq!(pad_memory_trace(trace, 2, 0, 0), vec![[1u8; 7], [2u8; 7]]);
    assert_eq!(pad_memory_trace(Vec::new(), 0, 0u8, 0u8), Vec::<[u8; 7]>::new());
}

#[test]
fn scatter_puts_chunk_c_of_row_i_at_i_plus_c_strides() {
    let rows = vec![vec![1, 2], vec![3, 4], vec![5, 6]];
    let table = scatter_chunks(&rows, 0, 4, 2);
    assert_eq!(table, Some(vec![1, 3, 5, 0, 2, 4, 6, 0]));
}

#[test]
fn scatter_leaves_zero_for_short_rows() {
    let rows = vec![vec![1], vec![], vec![5, 6]];
    assert_eq!(scatter_chunks(&rows, 9, 4, 2), Some(vec![1, 9, 5, 9, 9, 9, 6, 9]));
}

#[test]
fn scatter_lets_a_later_row_win() {
    // Row 2 begins where chunk 1 of row 0 stands.
    let rows = vec![vec![1, 2], vec![3], vec![7]];
    assert_eq!(scatter_chunks(&rows, 0, 2, 2), Some(vec![1, 3, 7, 0]));
}

#[test]
fn scatter_refuses_entries_outside_the_table() {
    assert_eq!(scatter_chunks(&vec![vec![1, 2, 3]], 0, 4, 2), None);
    assert_eq!(scatter_chunks(&vec![vec![], vec![], vec![1, 2]], 0, 2, 2), None);
    assert_eq!(scatter_chunks(&vec![vec![1]], 0, 0, 2), None);
    assert_eq!(scatter_chunks(&vec![Vec::<u8>::new()], 0, 0, 2), Some(Vec::new()));
}

#[test]
fn split_cuts_a_batch_in_order() {
    let parts = split_trace_commitments(vec![1, 2, 3, 4, 5, 6], 2, 1, 2);
    assert_eq!(parts, Some((vec![1, 2], vec![3], vec![4, 5], vec![6])));
    let parts = split_trace_commitments(vec![1, 2, 3], 1, 1, 1);
    assert_eq!(parts, Some((vec![1], vec![2], vec![3], vec![])));
    assert_eq!(split_trace_commitments(vec![1, 2], 1, 1, 1), None);
    assert_eq!(split_trace_commitments(vec![1, 2], 1, 2, 0), None);
    assert_eq!(split_trace_commitments(vec![1, 2], 3, 0, 0), None);
}

#[test]
fn flatten_joins_polynomials() {
    let polys = vec![
        DensePolynomial::new(vec![1, 2]),
        DensePolynomial::new(vec![]),
        DensePolynomial::new(vec![3]),
    ];
    assert_eq!(DensePolynomial::flatten(&polys), vec![1, 2, 3]);
    assert_eq!(DensePolynomial::<u8>::flatten(&Vec::new()), Vec::<u8>::new());
    assert_eq!(polys[0].len(), 2);
    assert_eq!(polys[0].evals(), vec![1, 2]);
    assert_eq!(polys[0].evals_ref(), &vec![1, 2]);
}

#[test]
fn flattened_polynomials_have_the_layout_of_chunk_tables() {
    let polys = vec![DensePolynomial::new(vec![1, 3]), DensePolynomial::new(vec![2, 4])];
    let rows = vec![vec![1, 2], vec![3, 4]];
    assert_eq!(Some(DensePolynomial::flatten(&polys)), scatter_chunks(&rows, 0, 2, 2));
}

#[test]
fn query_takes_the_first_polynomials() {
    let dim = vec![
        DensePolynomial::new(vec![Small(1), Small(2)]),
        DensePolynomial::new(vec![Small(3)]),
        DensePolynomial::new(vec![Small(4)]),
    ];
    assert_eq!(flatten_query(&dim, 2), Some(vec![Small(1), Small(2), Small(3)]));
    assert_eq!(flatten_query(&dim, 0), Some(Vec::new()));
    assert_eq!(flatten_query(&dim, 4), None);
    assert_eq!(flatten_query::<Small>(&Vec::new(), 0), None);
}

#[test]
fn lifting_pairs_the_chunks() {
    let rows = lift_chunks::<Small>(&vec![1, 2, 3], &vec![4, 100]);
    assert_eq!(rows, Some((vec![Small(1), Small(2)], vec![Small(4), Small(100)])));
    assert_eq!(lift_chunks::<Small>(&vec![1, 101], &vec![4, 5]), None);
    assert_eq!(lift_chunks::<Small>(&vec![1, 2], &vec![101, 5]), None);
    assert!(lift_chunks::<Small>(&vec![1, 101], &vec![4]).is_some());
}

#[test]
fn cycles_without_an_instruction_have_zeros() {
    let instructions = vec![None, Some(Pair(vec![1], vec![2]))];
    let rows = operand_rows(&instructions, Small(0), 3, 4);
    assert_eq!(
        rows,
        Some((
            vec![vec![Small(0), Small(0), Small(0)], vec![Small(1)]],
            vec![vec![Small(0), Small(0), Small(0)], vec![Small(2)]],
        ))
    );
    assert_eq!(operand_rows(&vec![Some(Pair(vec![300], vec![2]))], Small(0), 3, 4), None);
}

#[test]
fn preamble_has_ten_messages() {
    let mut transcript: ProofTranscript<u64> = ProofTranscript::new("test");
    transcript.append_scalar("before", &5);
    append_preamble(&mut transcript, &io(1, 2), 10, 4, 65536, 20, 30);
    let u = |label: &'static str, x: u64| TranscriptMessage { label, value: TranscriptValue::U64(x) };
    let expected = vec![
        TranscriptMessage { label: "before", value: TranscriptValue::Scalar(5) },
        u("Unpadded trace length", 10),
        u("C", 4),
        u("M", 65536),
        u("# instructions", 20),
        u("# subtables", 30),
        u("Max input size", 2),
        u("Max output size", 3),
        TranscriptMessage { label: "Program inputs", value: TranscriptValue::Bytes(vec![7]) },
        TranscriptMessage { label: "Program outputs", value: TranscriptValue::Bytes(vec![8, 8]) },
        u("Program panic", 0),
    ];
    assert_eq!(transcript.messages(), &expected);
    assert_eq!(transcript.label(), "test");
}

#[test]
fn preambles_of_different_executions_differ() {
    let preamble = |device: &JoltDevice, trace_length: usize| {
        let mut transcript: ProofTranscript<u64> = ProofTranscript::new("test");
        append_preamble(&mut transcript, device, trace_length, 4, 16, 2, 3);
        transcript
    };
    let base = preamble(&io(1, 2), 10);
    assert_eq!(base, preamble(&io(1, 2), 10));
    assert_ne!(base, preamble(&io(1, 2), 11));
    assert_ne!(base, preamble(&io(2, 2), 10));
    assert_ne!(base, preamble(&io(1, 1), 10));
    let mut panicked = io(1, 2);
    panicked.panic = true;
    assert_ne!(base, preamble(&panicked, 10));
}

#[test]
fn answers_are_passed_on() {
    assert_eq!(subprotocol_outcome::<u8>(Ok(())), Ok(()));
    assert_eq!(subprotocol_outcome(Err(3u8)), Err(ProofVerifyError::Subprotocol(3u8)));
}

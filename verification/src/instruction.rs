//! Instructions and the field elements of their operands.

use crate::chunks::contents;
use crate::poly::JoltField;
use vstd::prelude::*;

verus! {

/// An instruction, by the chunks in which a lookup takes its two operands.
pub trait JoltInstruction {
    /// The first `c` chunks, of `log_m` bits each, of either operand.
    fn operand_chunks(&self, c: usize, log_m: usize) -> (Vec<u64>, Vec<u64>);
}

/// An instruction set, as one type with a variant for every instruction.
pub trait JoltInstructionSet: JoltInstruction {
    /// How many instructions there are.
    const COUNT: usize;
}

/// The set of lookup tables that the instructions are decomposed into.
pub trait JoltSubtableSet {
    /// How many tables there are.
    const COUNT: usize;
}

/// How many pairs `xs` and `ys` make.
pub open spec fn pair_count(xs: Seq<u64>, ys: Seq<u64>) -> int {
    if xs.len() <= ys.len() {
        xs.len() as int
    } else {
        ys.len() as int
    }
}

/// `row_x` and `row_y` are the field elements of the pairs that `xs` and `ys` make.
pub open spec fn is_lifted<F: JoltField>(
    xs: Seq<u64>,
    ys: Seq<u64>,
    row_x: Seq<F>,
    row_y: Seq<F>,
) -> bool {
    &&& row_x.len() == pair_count(xs, ys)
    &&& row_y.len() == pair_count(xs, ys)
    &&& forall|k: int|
        #![trigger row_x[k]]
        #![trigger row_y[k]]
        0 <= k < pair_count(xs, ys) ==> {
            &&& call_ensures(F::from_u64, (xs[k],), Some(row_x[k]))
            &&& call_ensures(F::from_u64, (ys[k],), Some(row_y[k]))
        }
}

/// The field has no element for the value that a pair of `xs` and `ys` holds.
pub open spec fn is_not_liftable<F: JoltField>(xs: Seq<u64>, ys: Seq<u64>) -> bool {
    ||| exists|k: int|
        0 <= k < pair_count(xs, ys) && #[trigger] call_ensures(F::from_u64, (xs[k],), None::<F>)
    ||| exists|k: int|
        0 <= k < pair_count(xs, ys) && #[trigger] call_ensures(F::from_u64, (ys[k],), None::<F>)
}

/// The field elements of the pairs that `xs` and `ys` make. `None` where the field
/// has none for one of the values.
pub fn lift_chunks<F: JoltField>(xs: &Vec<u64>, ys: &Vec<u64>) -> (rows: Option<
    (Vec<F>, Vec<F>),
>)
    ensures
        match rows {
            Some((row_x, row_y)) => is_lifted(xs@, ys@, row_x@, row_y@),
            None => is_not_liftable::<F>(xs@, ys@),
        },
{
    let n: usize = if xs.len() <= ys.len() {
        xs.len()
    } else {
        ys.len()
    };
    let mut row_x: Vec<F> = Vec::new();
    let mut row_y: Vec<F> = Vec::new();
    for k in 0..n
        invariant
            n == pair_count(xs@, ys@),
            row_x@.len() == k,
            row_y@.len() == k,
            forall|j: int|
                #![trigger row_x@[j]]
                #![trigger row_y@[j]]
                0 <= j < k ==> {
                    &&& call_ensures(F::from_u64, (xs@[j],), Some(row_x@[j]))
                    &&& call_ensures(F::from_u64, (ys@[j],), Some(row_y@[j]))
                },
    {
        let x = F::from_u64(xs[k]);
        let y = F::from_u64(ys[k]);
        assert(call_ensures(F::from_u64, (xs@[k as int],), x));
        assert(call_ensures(F::from_u64, (ys@[k as int],), y));
        match (x, y) {
            (Some(x), Some(y)) => {
                row_x.push(x);
                row_y.push(y);
            },
            _ => {
                assert(x is None ==> call_ensures(F::from_u64, (xs@[k as int],), None::<F>));
                assert(y is None ==> call_ensures(F::from_u64, (ys@[k as int],), None::<F>));
                return None;
            },
        }
    }
    Some((row_x, row_y))
}

/// `row_x` and `row_y` are the operand chunks of `instruction` as field elements; a
/// cycle without an instruction has `c` zeros for either operand.
pub open spec fn is_operand_row<F: JoltField, I: JoltInstruction>(
    instruction: Option<I>,
    zero: F,
    c: usize,
    log_m: usize,
    row_x: Seq<F>,
    row_y: Seq<F>,
) -> bool {
    match instruction {
        Some(op) => exists|chunks: (Vec<u64>, Vec<u64>)| #[trigger]
            call_ensures(I::operand_chunks, (&op, c, log_m), chunks) && is_lifted(
                chunks.0@,
                chunks.1@,
                row_x,
                row_y,
            ),
        None => {
            &&& row_x == Seq::new(c as nat, |k: int| zero)
            &&& row_y == Seq::new(c as nat, |k: int| zero)
        },
    }
}

/// `rows_x` and `rows_y` hold an operand row for every cycle.
pub open spec fn are_operand_rows<F: JoltField, I: JoltInstruction>(
    instructions: Seq<Option<I>>,
    zero: F,
    c: usize,
    log_m: usize,
    rows_x: Seq<Seq<F>>,
    rows_y: Seq<Seq<F>>,
) -> bool {
    &&& rows_x.len() == instructions.len()
    &&& rows_y.len() == instructions.len()
    &&& forall|i: int|
        #![trigger rows_x[i]]
        #![trigger rows_y[i]]
        0 <= i < instructions.len() ==> is_operand_row(
            instructions[i],
            zero,
            c,
            log_m,
            rows_x[i],
            rows_y[i],
        )
}

/// The field lacks a value that occurs in the operand chunks of some instruction.
pub open spec fn has_chunk_outside_field<F: JoltField, I: JoltInstruction>(
    instructions: Seq<Option<I>>,
    c: usize,
    log_m: usize,
) -> bool {
    exists|i: int, op: I, chunks: (Vec<u64>, Vec<u64>)|
        {
            &&& 0 <= i < instructions.len()
            &&& #[trigger] instructions[i] == Some(op)
            &&& #[trigger] call_ensures(I::operand_chunks, (&op, c, log_m), chunks)
            &&& is_not_liftable::<F>(chunks.0@, chunks.1@)
        }
}

/// The operand chunks of every cycle as field elements. `None` where the field lacks
/// one of the values.
pub fn operand_rows<F: JoltField, I: JoltInstruction>(
    instructions: &[Option<I>],
    zero: F,
    c: usize,
    log_m: usize,
) -> (rows: Option<(Vec<Vec<F>>, Vec<Vec<F>>)>)
    ensures
        match rows {
            Some((rows_x, rows_y)) => are_operand_rows(
                instructions@,
                zero,
                c,
                log_m,
                contents(rows_x@),
                contents(rows_y@),
            ),
            None => has_chunk_outside_field::<F, I>(instructions@, c, log_m),
        },
{
    let mut rows_x: Vec<Vec<F>> = Vec::new();
    let mut rows_y: Vec<Vec<F>> = Vec::new();
    for i in 0..instructions.len()
        invariant
            rows_x@.len() == i,
            rows_y@.len() == i,
            forall|j: int|
                #![trigger rows_x@[j]]
                #![trigger rows_y@[j]]
                0 <= j < i ==> is_operand_row(
                    instructions@[j],
                    zero,
                    c,
                    log_m,
                    rows_x@[j]@,
                    rows_y@[j]@,
                ),
    {
        match &instructions[i] {
            Some(op) => {
                let chunks = op.operand_chunks(c, log_m);
                assert(call_ensures(I::operand_chunks, (op, c, log_m), chunks));
                match lift_chunks::<F>(&chunks.0, &chunks.1) {
                    Some((row_x, row_y)) => {
                        rows_x.push(row_x);
                        rows_y.push(row_y);
                    },
                    None => {
                        assert(instructions@[i as int] == Some(*op));
                        return None;
                    },
                }
            },
            None => {
                rows_x.push(zeros(zero, c));
                rows_y.push(zeros(zero, c));
            },
        }
    }
    Some((rows_x, rows_y))
}

fn zeros<F: Copy>(zero: F, c: usize) -> (row: Vec<F>)
    ensures
        row@ == Seq::new(c as nat, |k: int| zero),
{
    let mut row: Vec<F> = Vec::new();
    for k in 0..c
        invariant
            row@ == Seq::new(k as nat, |j: int| zero),
    {
        row.push(zero);
        assert(row@ =~= Seq::new((k + 1) as nat, |j: int| zero));
    }
    row
}

} // verus!

//! Commitments to the polynomials of an execution.

use crate::poly::DensePolynomial;
use crate::poly::JoltField;
use crate::poly::JoltPolynomials;
use vstd::prelude::*;

verus! {

/// How large the polynomials of a batch are expected to be.
#[derive(Clone, Copy, Debug, PartialEq, Eq)]
#[non_exhaustive]
pub enum BatchType {
    Big,
}

/// A polynomial commitment scheme.
pub trait CommitmentScheme: Sized {
    type Field: JoltField;

    /// What a setup has to know of the polynomials that will be committed to.
    type Shape;

    type Setup: Clone + Send + Sync;

    type Commitment: Send + Sync;

    fn setup(shapes: &Vec<Self::Shape>) -> Self::Setup;

    fn commit(poly: &DensePolynomial<Self::Field>, setup: &Self::Setup) -> Self::Commitment;

    fn batch_commit_polys(
        polys: &Vec<DensePolynomial<Self::Field>>,
        setup: &Self::Setup,
        batch_type: BatchType,
    ) -> Vec<Self::Commitment>;

    fn batch_commit_polys_ref(
        polys: &Vec<&DensePolynomial<Self::Field>>,
        setup: &Self::Setup,
        batch_type: BatchType,
    ) -> Vec<Self::Commitment>;
}

/// Commitments to the bytecode polynomials.
#[verifier::reject_recursive_types(PCS)]
pub struct BytecodeCommitment<PCS: CommitmentScheme> {
    pub trace_commitments: Vec<PCS::Commitment>,
    pub t_final_commitment: PCS::Commitment,
}

/// Commitments to the memory polynomials.
#[verifier::reject_recursive_types(PCS)]
pub struct MemoryCommitment<PCS: CommitmentScheme> {
    pub trace_commitments: Vec<PCS::Commitment>,
    pub v_final_commitment: PCS::Commitment,
    pub t_final_commitment: PCS::Commitment,
}

/// Commitments to the range-check polynomials.
#[verifier::reject_recursive_types(PCS)]
pub struct RangeCheckCommitment<PCS: CommitmentScheme> {
    pub commitments: Vec<PCS::Commitment>,
}

/// Commitments to the lookup polynomials.
#[verifier::reject_recursive_types(PCS)]
pub struct InstructionCommitment<PCS: CommitmentScheme> {
    pub trace_commitment: Vec<PCS::Commitment>,
    pub final_commitment: Vec<PCS::Commitment>,
}

/// All commitments of one execution. Those of the constraint system (of type `R`)
/// are added once its witness is known.
#[verifier::reject_recursive_types(PCS)]
#[verifier::reject_recursive_types(R)]
pub struct JoltCommitments<PCS: CommitmentScheme, R> {
    pub bytecode: BytecodeCommitment<PCS>,
    pub read_write_memory: MemoryCommitment<PCS>,
    pub timestamp_range_check: RangeCheckCommitment<PCS>,
    pub instruction_lookups: InstructionCommitment<PCS>,
    pub r1cs: Option<R>,
}

/// The scheme returned fewer commitments than there were polynomials in a batch.
#[derive(Clone, Copy, Debug, PartialEq, Eq, Structural)]
pub struct MissingCommitments;

fn push_ref<'a, T>(out: &mut Vec<&'a T>, item: &'a T)
    ensures
        final(out)@.unref() == old(out)@.unref().push(*item),
{
    out.push(item);
    assert(out@.unref() =~= old(out)@.unref().push(*item));
}

fn push_refs<'a, T>(out: &mut Vec<&'a T>, items: &'a Vec<T>)
    ensures
        final(out)@.unref() == old(out)@.unref() + items@,
{
    for i in 0..items.len()
        invariant
            out@.unref() == old(out)@.unref() + items@.take(i as int),
    {
        push_ref(out, &items[i]);
        assert(out@.unref() =~= old(out)@.unref() + items@.take(i + 1));
    }
    assert(items@.take(items@.len() as int) =~= items@);
}

impl<F> JoltPolynomials<F> {
    /// The bytecode polynomials that are as long as the trace.
    pub open spec fn bytecode_trace(self) -> Seq<DensePolynomial<F>> {
        seq![
            self.bytecode.a_read_write,
            self.bytecode.t_read,
            self.bytecode.v_read_write@[0],
            self.bytecode.v_read_write@[1],
            self.bytecode.v_read_write@[2],
            self.bytecode.v_read_write@[3],
            self.bytecode.v_read_write@[4],
        ]
    }

    /// The memory polynomials that are as long as the trace.
    pub open spec fn memory_trace(self) -> Seq<DensePolynomial<F>> {
        seq![self.read_write_memory.a_ram] + self.read_write_memory.v_read@ + seq![
            self.read_write_memory.v_write_rd,
        ] + self.read_write_memory.v_write_ram@ + self.read_write_memory.t_read@
            + self.read_write_memory.t_write_ram@
    }

    /// The polynomials of the timestamp range check.
    pub open spec fn range_check(self) -> Seq<DensePolynomial<F>> {
        self.timestamp_range_check.read_cts_read_timestamp@
            + self.timestamp_range_check.read_cts_global_minus_read@
            + self.timestamp_range_check.final_cts_read_timestamp@
            + self.timestamp_range_check.final_cts_global_minus_read@
    }

    /// The lookup polynomials that are as long as the trace.
    pub open spec fn instruction_trace(self) -> Seq<DensePolynomial<F>> {
        self.instruction_lookups.dim@ + self.instruction_lookups.read_cts@
            + self.instruction_lookups.E_polys@ + self.instruction_lookups.instruction_flag_polys@
            + seq![self.instruction_lookups.lookup_outputs]
    }

    /// All polynomials that are committed to in one batch, in the order of the batch.
    pub open spec fn all_trace(self) -> Seq<DensePolynomial<F>> {
        self.bytecode_trace() + self.memory_trace() + self.range_check() + self.instruction_trace()
    }

    /// The bytecode polynomials that are as long as the trace.
    pub fn bytecode_trace_polys(&self) -> (polys: Vec<&DensePolynomial<F>>)
        ensures
            polys@.unref() == self.bytecode_trace(),
    {
        let mut polys: Vec<&DensePolynomial<F>> = Vec::new();
        push_ref(&mut polys, &self.bytecode.a_read_write);
        push_ref(&mut polys, &self.bytecode.t_read);
        assert(polys@.unref() =~= self.bytecode_trace().take(2));
        for i in 0..5usize
            invariant
                polys@.unref() == self.bytecode_trace().take(2 + i),
        {
            push_ref(&mut polys, &self.bytecode.v_read_write[i]);
            assert(polys@.unref() =~= self.bytecode_trace().take(3 + i));
        }
        assert(polys@.unref() =~= self.bytecode_trace());
        polys
    }

    /// The memory polynomials that are as long as the trace.
    pub fn memory_trace_polys(&self) -> (polys: Vec<&DensePolynomial<F>>)
        ensures
            polys@.unref() == self.memory_trace(),
    {
        let mut polys: Vec<&DensePolynomial<F>> = Vec::new();
        push_ref(&mut polys, &self.read_write_memory.a_ram);
        push_refs(&mut polys, &self.read_write_memory.v_read);
        push_ref(&mut polys, &self.read_write_memory.v_write_rd);
        push_refs(&mut polys, &self.read_write_memory.v_write_ram);
        push_refs(&mut polys, &self.read_write_memory.t_read);
        push_refs(&mut polys, &self.read_write_memory.t_write_ram);
        assert(polys@.unref() =~= self.memory_trace());
        polys
    }

    /// The polynomials of the timestamp range check.
    pub fn range_check_polys(&self) -> (polys: Vec<&DensePolynomial<F>>)
        ensures
            polys@.unref() == self.range_check(),
    {
        let mut polys: Vec<&DensePolynomial<F>> = Vec::new();
        push_refs(&mut polys, &self.timestamp_range_check.read_cts_read_timestamp);
        push_refs(&mut polys, &self.timestamp_range_check.read_cts_global_minus_read);
        push_refs(&mut polys, &self.timestamp_range_check.final_cts_read_timestamp);
        push_refs(&mut polys, &self.timestamp_range_check.final_cts_global_minus_read);
        assert(polys@.unref() =~= self.range_check());
        polys
    }

    /// The lookup polynomials that are as long as the trace.
    pub fn instruction_trace_polys(&self) -> (polys: Vec<&DensePolynomial<F>>)
        ensures
            polys@.unref() == self.instruction_trace(),
    {
        let mut polys: Vec<&DensePolynomial<F>> = Vec::new();
        push_refs(&mut polys, &self.instruction_lookups.dim);
        push_refs(&mut polys, &self.instruction_lookups.read_cts);
        push_refs(&mut polys, &self.instruction_lookups.E_polys);
        push_refs(&mut polys, &self.instruction_lookups.instruction_flag_polys);
        push_ref(&mut polys, &self.instruction_lookups.lookup_outputs);
        assert(polys@.unref() =~= self.instruction_trace());
        polys
    }
}

/// Cuts a batch of commitments after `bytecode`, after `memory` more and after
/// `range_check` more. What is left makes the fourth part.
pub fn split_trace_commitments<T>(
    commitments: Vec<T>,
    bytecode: usize,
    memory: usize,
    range_check: usize,
) -> (parts: Option<(Vec<T>, Vec<T>, Vec<T>, Vec<T>)>)
    ensures
        parts is Some <==> bytecode + memory + range_check <= commitments@.len(),
        parts matches Some(p) ==> {
            &&& p.0@ == commitments@.subrange(0, bytecode as int)
            &&& p.1@ == commitments@.subrange(bytecode as int, bytecode + memory)
            &&& p.2@ == commitments@.subrange(bytecode + memory, bytecode + memory + range_check)
            &&& p.3@ == commitments@.skip(bytecode + memory + range_check)
        },
{
    let mut first = commitments;
    if first.len() < bytecode {
        return None;
    }
    let mut second = first.split_off(bytecode);
    if second.len() < memory {
        return None;
    }
    let mut third = second.split_off(memory);
    if third.len() < range_check {
        return None;
    }
    let fourth = third.split_off(range_check);
    assert(second@ =~= commitments@.subrange(bytecode as int, bytecode + memory));
    assert(third@ =~= commitments@.subrange(bytecode + memory, bytecode + memory + range_check));
    assert(fourth@ =~= commitments@.skip(bytecode + memory + range_check));
    Some((first, second, third, fourth))
}

/// `commitments` hold the batch `trace` of commitments to [`JoltPolynomials::all_trace`],
/// each at the place of its polynomial, beside commitments to the polynomials that
/// are not in the batch. Those of the constraint system are still missing.
pub open spec fn commitments_from<F: JoltField, PCS: CommitmentScheme<Field = F>, R>(
    polynomials: JoltPolynomials<F>,
    generators: PCS::Setup,
    trace: Seq<PCS::Commitment>,
    commitments: JoltCommitments<PCS, R>,
) -> bool {
    let memory_start = polynomials.bytecode_trace().len() as int;
    let range_check_start = memory_start + polynomials.memory_trace().len();
    let instruction_start = range_check_start + polynomials.range_check().len();
    let memory = polynomials.read_write_memory;
    &&& instruction_start <= trace.len()
    &&& commitments.bytecode.trace_commitments@ == trace.subrange(0, memory_start)
    &&& commitments.read_write_memory.trace_commitments@ == trace.subrange(
        memory_start,
        range_check_start,
    )
    &&& commitments.timestamp_range_check.commitments@ == trace.subrange(
        range_check_start,
        instruction_start,
    )
    &&& commitments.instruction_lookups.trace_commitment@ == trace.skip(instruction_start)
    &&& call_ensures(
        PCS::commit,
        (&polynomials.bytecode.t_final, &generators),
        commitments.bytecode.t_final_commitment,
    )
    &&& call_ensures(
        PCS::commit,
        (&memory.v_final, &generators),
        commitments.read_write_memory.v_final_commitment,
    )
    &&& call_ensures(
        PCS::commit,
        (&memory.t_final, &generators),
        commitments.read_write_memory.t_final_commitment,
    )
    &&& call_ensures(
        PCS::batch_commit_polys,
        (&polynomials.instruction_lookups.final_cts, &generators, BatchType::Big),
        commitments.instruction_lookups.final_commitment,
    )
    &&& commitments.r1cs is None
}

/// `result` is what committing to `polynomials` may return: the commitments, or the
/// error if and only if the batch came back too short to fill the first three parts.
pub open spec fn committed<F: JoltField, PCS: CommitmentScheme<Field = F>, R>(
    polynomials: JoltPolynomials<F>,
    generators: PCS::Setup,
    result: Result<JoltCommitments<PCS, R>, MissingCommitments>,
) -> bool {
    exists|batch: Vec<&DensePolynomial<F>>, trace: Vec<PCS::Commitment>|
        {
            &&& batch@.unref() == polynomials.all_trace()
            &&& #[trigger] call_ensures(
                PCS::batch_commit_polys_ref,
                (&batch, &generators, BatchType::Big),
                trace,
            )
            &&& match result {
                Ok(commitments) => commitments_from(
                    polynomials,
                    generators,
                    trace@,
                    commitments,
                ),
                Err(MissingCommitments) => trace@.len() < polynomials.all_trace().len()
                    - polynomials.instruction_trace().len(),
            }
        }
}

impl<F: JoltField> JoltPolynomials<F> {
    /// Commits to all polynomials: to those of the trace in one batch, to the others
    /// on their own.
    pub fn commit<PCS: CommitmentScheme<Field = F>, R>(&self, generators: &PCS::Setup) -> (result:
        Result<JoltCommitments<PCS, R>, MissingCommitments>)
        ensures
            committed(*self, *generators, result),
    {
        let mut all_trace_polys = self.bytecode_trace_polys();
        let num_bytecode_trace_polys = all_trace_polys.len();
        let mut memory_trace_polys = self.memory_trace_polys();
        let num_memory_trace_polys = memory_trace_polys.len();
        let mut range_check_polys = self.range_check_polys();
        let num_range_check_polys = range_check_polys.len();
        let mut instruction_trace_polys = self.instruction_trace_polys();
        all_trace_polys.append(&mut memory_trace_polys);
        all_trace_polys.append(&mut range_check_polys);
        all_trace_polys.append(&mut instruction_trace_polys);
        assert(all_trace_polys@.unref() =~= self.all_trace());

        let trace_commitments = PCS::batch_commit_polys_ref(
            &all_trace_polys,
            generators,
            BatchType::Big,
        );
        let ghost trace = trace_commitments;
        assert(call_ensures(
            PCS::batch_commit_polys_ref,
            (&all_trace_polys, generators, BatchType::Big),
            trace,
        ));
        let (bytecode_trace, memory_trace, range_check, instruction_trace) =
            match split_trace_commitments(
            trace_commitments,
            num_bytecode_trace_polys,
            num_memory_trace_polys,
            num_range_check_polys,
        ) {
            Some(parts) => parts,
            None => {
                return Err(MissingCommitments);
            },
        };

        let bytecode_t_final = PCS::commit(&self.bytecode.t_final, generators);
        let memory = &self.read_write_memory;
        let commit_v_final = || -> (c: PCS::Commitment)
            ensures
                call_ensures(PCS::commit, (&memory.v_final, generators), c),
        {
            PCS::commit(&memory.v_final, generators)
        };
        let commit_t_final = || -> (c: PCS::Commitment)
            ensures
                call_ensures(PCS::commit, (&memory.t_final, generators), c),
        {
            PCS::commit(&memory.t_final, generators)
        };
        let (memory_v_final, memory_t_final) = rayon::join(commit_v_final, commit_t_final);
        let instruction_final = PCS::batch_commit_polys(
            &self.instruction_lookups.final_cts,
            generators,
            BatchType::Big,
        );

        let commitments = JoltCommitments {
            bytecode: BytecodeCommitment {
                trace_commitments: bytecode_trace,
                t_final_commitment: bytecode_t_final,
            },
            read_write_memory: MemoryCommitment {
                trace_commitments: memory_trace,
                v_final_commitment: memory_v_final,
                t_final_commitment: memory_t_final,
            },
            timestamp_range_check: RangeCheckCommitment { commitments: range_check },
            instruction_lookups: InstructionCommitment {
                trace_commitment: instruction_trace,
                final_commitment: instruction_final,
            },
            r1cs: None,
        };
        assert(commitments_from(*self, *generators, trace@, commitments));
        Ok(commitments)
    }
}

} // verus!

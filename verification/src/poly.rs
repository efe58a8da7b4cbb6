//! Polynomials of the trace, as the argument systems produce them.

use crate::outside::par_extend;
use vstd::prelude::*;

verus! {

/// What the crate asks of a field: its zero, and the element of a machine word, if
/// the field has one.
pub trait JoltField: Copy + Send + Sync {
    fn zero() -> Self;

    fn from_u64(n: u64) -> Option<Self>;
}

/// A multilinear polynomial, by its evaluations over the boolean hypercube.
#[derive(Clone, Debug, PartialEq, Eq)]
pub struct DensePolynomial<F> {
    evals: Vec<F>,
}

impl<F> View for DensePolynomial<F> {
    type V = Seq<F>;

    closed spec fn view(&self) -> Seq<F> {
        self.evals@
    }
}

/// The evaluations of all `polys`, one polynomial after the other.
pub open spec fn flat_evals<F>(polys: Seq<DensePolynomial<F>>) -> Seq<F> {
    polys.map_values(|p: DensePolynomial<F>| p@).flatten()
}

proof fn lemma_flat_evals_step<F>(polys: Seq<DensePolynomial<F>>, i: int)
    requires
        0 <= i < polys.len(),
    ensures
        flat_evals(polys.take(i + 1)) == flat_evals(polys.take(i)) + polys[i]@,
{
    let view = |p: DensePolynomial<F>| p@;
    let head = polys.take(i).map_values(view);
    assert(polys.take(i + 1).map_values(view) =~= head.push(polys[i]@));
    head.lemma_flatten_push(polys[i]@);
}

proof fn lemma_flat_evals_mono<F>(polys: Seq<DensePolynomial<F>>, i: int, j: int)
    requires
        0 <= i <= j <= polys.len(),
    ensures
        flat_evals(polys.take(i)).len() <= flat_evals(polys.take(j)).len(),
    decreases j - i,
{
    if i < j {
        lemma_flat_evals_step(polys, j - 1);
        lemma_flat_evals_mono(polys, i, j - 1);
    }
}

impl<F> DensePolynomial<F> {
    /// The polynomial with the given evaluations.
    pub fn new(evals: Vec<F>) -> (poly: Self)
        ensures
            poly@ == evals@,
    {
        DensePolynomial { evals }
    }

    /// How many evaluations the polynomial has.
    pub fn len(&self) -> (len: usize)
        ensures
            len == self@.len(),
    {
        self.evals.len()
    }

    /// The evaluations.
    pub fn evals_ref(&self) -> (evals: &Vec<F>)
        ensures
            evals@ == self@,
    {
        &self.evals
    }
}

impl<F: Copy> DensePolynomial<F> {
    /// A copy of the evaluations.
    pub fn evals(&self) -> (evals: Vec<F>)
        ensures
            evals@ == self@,
    {
        vstd::slice::slice_to_vec(self.evals.as_slice())
    }

    /// The evaluations of all `polys`, one polynomial after the other.
    pub fn flatten(polys: &Vec<DensePolynomial<F>>) -> (flat: Vec<F>)
        ensures
            flat@ == flat_evals(polys@),
    {
        let mut flat: Vec<F> = Vec::new();
        assert(polys@.take(0).map_values(|p: DensePolynomial<F>| p@) =~= Seq::empty());
        for i in 0..polys.len()
            invariant
                flat@ == flat_evals(polys@.take(i as int)),
        {
            let mut evals = polys[i].evals();
            flat.append(&mut evals);
            proof {
                lemma_flat_evals_step(polys@, i as int);
            }
        }
        assert(polys@.take(polys@.len() as int) =~= polys@);
        flat
    }
}

/// The first `count` of the polynomials exist, there is at least one polynomial,
/// and the evaluations of those `count` fit in one vector.
pub open spec fn query_polys_suffice<F>(dim: Seq<DensePolynomial<F>>, count: usize) -> bool {
    &&& 0 < dim.len()
    &&& count <= dim.len()
    &&& flat_evals(dim.take(count as int)).len() <= usize::MAX
}

/// The evaluations of the first `count` polynomials, one polynomial after the other.
/// `None` where there is no polynomial at all, where there are fewer than `count`,
/// and where their evaluations are too many for one vector.
pub fn flatten_query<F: JoltField>(dim: &Vec<DensePolynomial<F>>, count: usize) -> (query: Option<
    Vec<F>,
>)
    ensures
        query is Some <==> query_polys_suffice(dim@, count),
        query matches Some(flat) ==> flat@ == flat_evals(dim@.take(count as int)),
{
    if dim.len() == 0 || dim.len() < count {
        return None;
    }
    let mut query: Vec<F> = Vec::new();
    assert(dim@.take(0).map_values(|p: DensePolynomial<F>| p@) =~= Seq::empty());
    for i in 0..count
        invariant
            count <= dim@.len(),
            query@ == flat_evals(dim@.take(i as int)),
            query@.len() <= usize::MAX,
    {
        let evals = dim[i].evals_ref();
        proof {
            lemma_flat_evals_step(dim@, i as int);
            lemma_flat_evals_mono(dim@, i + 1, count as int);
        }
        if evals.len() > usize::MAX - query.len() {
            return None;
        }
        par_extend(&mut query, evals.as_slice());
    }
    Some(query)
}

/// Polynomials of the bytecode's memory-checking argument.
pub struct BytecodePolynomials<F> {
    pub a_read_write: DensePolynomial<F>,
    pub v_read_write: [DensePolynomial<F>; 5],
    pub t_read: DensePolynomial<F>,
    pub t_final: DensePolynomial<F>,
}

/// Polynomials of the memory-checking argument for registers and RAM.
pub struct ReadWriteMemory<F> {
    pub a_ram: DensePolynomial<F>,
    pub v_read: Vec<DensePolynomial<F>>,
    pub v_write_rd: DensePolynomial<F>,
    pub v_write_ram: Vec<DensePolynomial<F>>,
    pub v_final: DensePolynomial<F>,
    pub t_read: Vec<DensePolynomial<F>>,
    pub t_write_ram: Vec<DensePolynomial<F>>,
    pub t_final: DensePolynomial<F>,
}

/// Polynomials of the range check on timestamps.
pub struct RangeCheckPolynomials<F> {
    pub read_cts_read_timestamp: Vec<DensePolynomial<F>>,
    pub read_cts_global_minus_read: Vec<DensePolynomial<F>>,
    pub final_cts_read_timestamp: Vec<DensePolynomial<F>>,
    pub final_cts_global_minus_read: Vec<DensePolynomial<F>>,
}

/// Polynomials of the instruction lookups.
#[allow(non_snake_case)]
pub struct InstructionPolynomials<F> {
    pub dim: Vec<DensePolynomial<F>>,
    pub read_cts: Vec<DensePolynomial<F>>,
    pub final_cts: Vec<DensePolynomial<F>>,
    pub E_polys: Vec<DensePolynomial<F>>,
    pub instruction_flag_polys: Vec<DensePolynomial<F>>,
    pub lookup_outputs: DensePolynomial<F>,
}

/// All polynomials of one execution.
pub struct JoltPolynomials<F> {
    pub bytecode: BytecodePolynomials<F>,
    pub read_write_memory: ReadWriteMemory<F>,
    pub timestamp_range_check: RangeCheckPolynomials<F>,
    pub instruction_lookups: InstructionPolynomials<F>,
}

} // verus!

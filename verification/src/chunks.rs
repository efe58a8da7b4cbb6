//! The layout of operand chunks: chunk `c` of instruction `i` stands at position
//! `i + c * stride` of one flat table, where `stride` is the padded trace length.

use vstd::prelude::*;

verus! {

/// The rows, each by its entries.
pub open spec fn contents<T>(rows: Seq<Vec<T>>) -> Seq<Seq<T>> {
    rows.map_values(|row: Vec<T>| row@)
}

/// Row `i` exists and has an entry `c`.
pub open spec fn is_entry<T>(rows: Seq<Seq<T>>, i: int, c: int) -> bool {
    0 <= i < rows.len() && 0 <= c < rows[i].len()
}

/// The position of entry `c` of row `i`.
pub open spec fn position(stride: int, i: int, c: int) -> int {
    i + c * stride
}

/// Some row has an entry at position `p`.
pub open spec fn is_written<T>(rows: Seq<Seq<T>>, stride: int, p: int) -> bool {
    exists|i: int, c: int| #[trigger] is_entry(rows, i, c) && position(stride, i, c) == p
}

/// A row behind row `i` has an entry at the position of entry `c` of row `i`.
pub open spec fn is_overwritten<T>(rows: Seq<Seq<T>>, stride: int, i: int, c: int) -> bool {
    exists|j: int, d: int|
        i < j && #[trigger] is_entry(rows, j, d) && position(stride, j, d) == position(stride, i, c)
}

/// Every entry has its position inside a table of length `len`.
pub open spec fn entries_fit<T>(rows: Seq<Seq<T>>, stride: int, len: int) -> bool {
    forall|i: int, c: int| #[trigger] is_entry(rows, i, c) ==> position(stride, i, c) < len
}

/// `table` holds every entry at its position, where a later row wins over an earlier
/// one, and `zero` everywhere else.
pub open spec fn is_scattered<T>(
    rows: Seq<Seq<T>>,
    zero: T,
    stride: int,
    table: Seq<T>,
) -> bool {
    &&& forall|i: int, c: int| #[trigger]
        is_entry(rows, i, c) && !is_overwritten(rows, stride, i, c) ==> table[position(
            stride,
            i,
            c,
        )] == rows[i][c]
    &&& forall|p: int|
        0 <= p < table.len() && !is_written(rows, stride, p) ==> #[trigger] table[p] == zero
}

/// Two entries of one row never share a position.
proof fn lemma_position_injective(stride: int, i: int, c: int, d: int)
    requires
        stride > 0,
        position(stride, i, c) == position(stride, i, d),
    ensures
        c == d,
{
    assert(c == d) by (nonlinear_arith)
        requires
            stride > 0,
            c * stride == d * stride,
    ;
}

/// Writing row `i` into the table of the rows before it gives the table of the rows
/// up to it.
proof fn lemma_scatter_row<T>(
    rows: Seq<Seq<T>>,
    zero: T,
    stride: int,
    i: int,
    before: Seq<T>,
    after: Seq<T>,
)
    requires
        0 <= i < rows.len(),
        is_scattered(rows.take(i), zero, stride, before),
        after.len() == before.len(),
        forall|c: int|
            0 <= c < rows[i].len() ==> after[#[trigger] position(stride, i, c)] == rows[i][c],
        forall|p: int|
            0 <= p < after.len() && (forall|c: int|
                0 <= c < rows[i].len() ==> p != #[trigger] position(stride, i, c))
                ==> #[trigger] after[p] == before[p],
        entries_fit(rows.take(i), stride, before.len() as int),
        stride >= 0,
    ensures
        is_scattered(rows.take(i + 1), zero, stride, after),
{
    let head = rows.take(i);
    let next = rows.take(i + 1);
    assert forall|j: int, d: int| #[trigger]
        is_entry(next, j, d) && !is_overwritten(next, stride, j, d) implies after[position(
        stride,
        j,
        d,
    )] == next[j][d] by {
        if j < i {
            let p = position(stride, j, d);
            assert(is_entry(head, j, d));
            assert(p >= 0) by {
                assert(d * stride >= 0) by (nonlinear_arith)
                    requires
                        d >= 0,
                        stride >= 0,
                ;
            }
            assert forall|c: int| 0 <= c < rows[i].len() implies p != #[trigger] position(
                stride,
                i,
                c,
            ) by {
                assert(is_entry(next, i, c));
            }
            assert(!is_overwritten(head, stride, j, d)) by {
                if is_overwritten(head, stride, j, d) {
                    let (k, e) = choose|k: int, e: int|
                        j < k && #[trigger] is_entry(head, k, e) && position(stride, k, e)
                            == position(stride, j, d);
                    assert(is_entry(next, k, e));
                }
            }
            assert(after[p] == before[p]);
        }
    }
    assert forall|p: int|
        0 <= p < after.len() && !is_written(next, stride, p) implies #[trigger] after[p]
        == zero by {
        assert forall|c: int| 0 <= c < rows[i].len() implies p != #[trigger] position(
            stride,
            i,
            c,
        ) by {
            assert(is_entry(next, i, c));
        }
        assert(!is_written(head, stride, p)) by {
            if is_written(head, stride, p) {
                let (k, e) = choose|k: int, e: int| #[trigger]
                    is_entry(head, k, e) && position(stride, k, e) == p;
                assert(is_entry(next, k, e));
            }
        }
    }
}

/// Writes the entries of all rows into one table of `num_chunks * stride` elements
/// that holds `zero` elsewhere. `None` where some entry has its position outside the
/// table.
pub fn scatter_chunks<T: Copy>(
    rows: &Vec<Vec<T>>,
    zero: T,
    stride: usize,
    num_chunks: usize,
) -> (table: Option<Vec<T>>)
    requires
        stride * num_chunks <= usize::MAX,
    ensures
        table is Some <==> entries_fit(contents(rows@), stride as int, stride * num_chunks),
        table matches Some(t) ==> {
            &&& t@.len() == stride * num_chunks
            &&& is_scattered(contents(rows@), zero, stride as int, t@)
        },
{
    let ghost all = contents(rows@);
    let len: usize = stride * num_chunks;
    let mut table: Vec<T> = Vec::new();
    for p in 0..len
        invariant
            table@.len() == p,
            forall|q: int| 0 <= q < p ==> table@[q] == zero,
    {
        table.push(zero);
    }
    for i in 0..rows.len()
        invariant
            all == contents(rows@),
            len == stride * num_chunks,
            table@.len() == len,
            is_scattered(all.take(i as int), zero, stride as int, table@),
            entries_fit(all.take(i as int), stride as int, len as int),
    {
        let row = &rows[i];
        let ghost before = table@;
        for c in 0..row.len()
            invariant
                0 <= i < rows@.len(),
                all == contents(rows@),
                row@ == all[i as int],
                len == stride * num_chunks,
                table@.len() == len,
                before.len() == len,
                forall|d: int| 0 <= d < c ==> #[trigger] position(stride as int, i as int, d) < len,
                forall|d: int|
                    0 <= d < c ==> table@[#[trigger] position(stride as int, i as int, d)]
                        == row@[d],
                forall|p: int|
                    0 <= p < len && (forall|d: int|
                        0 <= d < c ==> p != #[trigger] position(stride as int, i as int, d))
                        ==> #[trigger] table@[p] == before[p],
        {
            assert(is_entry(all, i as int, c as int));
            if c >= num_chunks {
                assert(stride * num_chunks <= position(stride as int, i as int, c as int))
                    by (nonlinear_arith)
                    requires
                        c >= num_chunks,
                        position(stride as int, i as int, c as int) == i + c * stride,
                ;
                return None;
            }
            assert(c * stride <= stride * num_chunks) by (nonlinear_arith)
                requires
                    c < num_chunks,
            ;
            let offset: usize = c * stride;
            if i >= len - offset {
                return None;
            }
            let p: usize = i + offset;
            assert(stride > 0) by (nonlinear_arith)
                requires
                    i + c * stride < stride * num_chunks,
                    i >= 0,
                    c >= 0,
                    stride >= 0,
            ;
            assert(p == position(stride as int, i as int, c as int));
            proof {
                assert forall|d: int| 0 <= d < c implies #[trigger] position(
                    stride as int,
                    i as int,
                    d,
                ) != p by {
                    if position(stride as int, i as int, d) == p {
                        lemma_position_injective(stride as int, i as int, c as int, d);
                    }
                }
            }
            table.set(p, row[c]);
        }
        proof {
            assert forall|j: int, d: int| #[trigger]
                is_entry(all.take(i + 1), j, d) implies position(stride as int, j, d) < len by {
                if j < i {
                    assert(is_entry(all.take(i as int), j, d));
                }
            }
            lemma_scatter_row(all, zero, stride as int, i as int, before, table@);
        }
    }
    assert(all.take(rows@.len() as int) =~= all);
    Some(table)
}

} // verus!

//! Cursor positions over the two-level layout: a position is a (row group,
//! column) index pair, ranked by the number of positions before it in
//! row-group-major, column-minor order. Advancing is a pure function of the
//! position and the layout shape alone.

use vstd::prelude::*;

use crate::file_meta::{shape_of, RowGroupMeta};

verus! {

/// A layout shape: every row group has a non-negative column count.
pub open spec fn wf_shape(shape: Seq<int>) -> bool {
    forall|i: int| 0 <= i < shape.len() ==> #[trigger] shape[i] >= 0
}

/// The total number of column chunks: the sum of the column counts over all
/// row groups.
pub open spec fn total_chunks(shape: Seq<int>) -> int
    decreases shape.len(),
{
    if shape.len() == 0 {
        0
    } else {
        shape[0] + total_chunks(shape.drop_first())
    }
}

/// The number of column chunks in the first `k` row groups.
pub open spec fn prefix_chunks(shape: Seq<int>, k: int) -> int {
    total_chunks(shape.take(k))
}

/// A position that addresses a column chunk.
pub open spec fn valid_pos(shape: Seq<int>, rg: int, col: int) -> bool {
    0 <= rg < shape.len() && 0 <= col < shape[rg]
}

/// How many positions precede `(rg, col)` in row-group-major, column-minor
/// order.
pub open spec fn rank_of(shape: Seq<int>, rg: int, col: int) -> int {
    prefix_chunks(shape, rg) + col
}

/// Adding row group `k` to a prefix adds its column count.
pub proof fn lemma_prefix_step(shape: Seq<int>, k: int)
    requires
        0 <= k < shape.len(),
    ensures
        prefix_chunks(shape, k + 1) == prefix_chunks(shape, k) + shape[k],
    decreases k,
{
    if k == 0 {
        assert(shape.take(0) =~= Seq::<int>::empty());
        assert(shape.take(1).drop_first() =~= Seq::<int>::empty());
        assert(shape.take(1)[0] == shape[0]);
    } else {
        lemma_prefix_step(shape.drop_first(), k - 1);
        assert(shape.take(k + 1).drop_first() =~= shape.drop_first().take(k));
        assert(shape.take(k).drop_first() =~= shape.drop_first().take(k - 1));
        assert(shape.take(k + 1)[0] == shape[0]);
        assert(shape.take(k)[0] == shape[0]);
    }
}

/// Longer prefixes hold at least as many chunks.
pub proof fn lemma_prefix_monotone(shape: Seq<int>, k1: int, k2: int)
    requires
        wf_shape(shape),
        0 <= k1 <= k2 <= shape.len(),
    ensures
        prefix_chunks(shape, k1) <= prefix_chunks(shape, k2),
    decreases k2 - k1,
{
    if k1 < k2 {
        lemma_prefix_monotone(shape, k1, k2 - 1);
        lemma_prefix_step(shape, k2 - 1);
    }
}

/// The rank of a position that addresses a chunk lies in
/// `[0, total_chunks)`.
pub proof fn lemma_rank_bounds(shape: Seq<int>, rg: int, col: int)
    requires
        wf_shape(shape),
        valid_pos(shape, rg, col),
    ensures
        0 <= rank_of(shape, rg, col) < total_chunks(shape),
{
    assert(shape.take(0) =~= Seq::<int>::empty());
    lemma_prefix_monotone(shape, 0, rg);
    lemma_prefix_step(shape, rg);
    lemma_prefix_monotone(shape, rg + 1, shape.len() as int);
    assert(shape.take(shape.len() as int) =~= shape);
}

/// Rank order never decreases the row-group index, and within one row group
/// it orders the columns: chunk rows are yielded in non-decreasing row-group
/// index and, within a row group, in increasing column index.
pub proof fn lemma_rank_orders_row_groups(shape: Seq<int>, rg1: int, col1: int, rg2: int, col2: int)
    requires
        wf_shape(shape),
        valid_pos(shape, rg1, col1),
        valid_pos(shape, rg2, col2),
        rank_of(shape, rg1, col1) <= rank_of(shape, rg2, col2),
    ensures
        rg1 <= rg2,
        rg1 == rg2 ==> col1 <= col2,
{
    if rg1 > rg2 {
        lemma_prefix_step(shape, rg2);
        lemma_prefix_monotone(shape, rg2 + 1, rg1);
        assert(rank_of(shape, rg1, col1) > rank_of(shape, rg2, col2));
    }
}

/// One cursor position: indices into the two-level layout.
#[derive(Debug, Clone, Copy, PartialEq, Eq, Structural)]
pub struct ChunkPos {
    pub row_group: usize,
    pub column: usize,
}

pub open spec fn pos_valid(shape: Seq<int>, p: ChunkPos) -> bool {
    valid_pos(shape, p.row_group as int, p.column as int)
}

pub open spec fn pos_rank(shape: Seq<int>, p: ChunkPos) -> int {
    rank_of(shape, p.row_group as int, p.column as int)
}

/// The shape of a row-group sequence is well formed, with one entry per row
/// group holding its column count.
pub proof fn lemma_shape_of_wf(row_groups: Seq<RowGroupMeta>)
    ensures
        wf_shape(shape_of(row_groups)),
        shape_of(row_groups).len() == row_groups.len(),
{
}

/// The first position of a layout: the first column of the first non-empty
/// row group, or `None` when the layout holds no chunk at all.
pub fn first_position(row_groups: &Vec<RowGroupMeta>) -> (r: Option<ChunkPos>)
    ensures
        r matches Some(p) ==> pos_valid(shape_of(row_groups@), p) && pos_rank(
            shape_of(row_groups@),
            p,
        ) == 0,
        r is None <==> total_chunks(shape_of(row_groups@)) == 0,
{
    let ghost shape = shape_of(row_groups@);
    proof {
        lemma_shape_of_wf(row_groups@);
    }
    let mut rg: usize = 0;
    while rg < row_groups.len()
        invariant
            shape == shape_of(row_groups@),
            wf_shape(shape),
            rg <= row_groups@.len(),
            prefix_chunks(shape, rg as int) == 0,
        decreases row_groups@.len() - rg,
    {
        if row_groups[rg].columns.len() > 0 {
            let p = ChunkPos { row_group: rg, column: 0 };
            proof {
                lemma_rank_bounds(shape, rg as int, 0);
            }
            return Some(p);
        }
        proof {
            lemma_prefix_step(shape, rg as int);
        }
        rg = rg + 1;
    }
    proof {
        assert(shape.take(shape.len() as int) =~= shape);
    }
    None
}

/// Advance a position by one rank: the next column of the same row group,
/// or the first column of the next non-empty row group, or `None` exactly
/// when the position was the last one.
pub fn advance_position(row_groups: &Vec<RowGroupMeta>, pos: ChunkPos) -> (r: Option<ChunkPos>)
    requires
        pos_valid(shape_of(row_groups@), pos),
    ensures
        r matches Some(p) ==> pos_valid(shape_of(row_groups@), p) && pos_rank(
            shape_of(row_groups@),
            p,
        ) == pos_rank(shape_of(row_groups@), pos) + 1 && p.row_group >= pos.row_group,
        r is None <==> pos_rank(shape_of(row_groups@), pos) == total_chunks(shape_of(row_groups@))
            - 1,
{
    let ghost shape = shape_of(row_groups@);
    proof {
        lemma_shape_of_wf(row_groups@);
        lemma_rank_bounds(shape, pos.row_group as int, pos.column as int);
        assert(shape[pos.row_group as int] == row_groups@[pos.row_group as int].columns@.len());
    }
    let nrg = row_groups.len();
    let rg0 = pos.row_group;
    let col0 = pos.column;
    let ncols = row_groups[rg0].columns.len();
    if col0 + 1 < ncols {
        let p = ChunkPos { row_group: rg0, column: col0 + 1 };
        proof {
            lemma_rank_bounds(shape, rg0 as int, col0 + 1 as int);
        }
        return Some(p);
    }
    let mut rg: usize = rg0 + 1;
    proof {
        lemma_prefix_step(shape, rg0 as int);
    }
    while rg < nrg
        invariant
            nrg == row_groups@.len(),
            shape == shape_of(row_groups@),
            wf_shape(shape),
            pos_valid(shape, pos),
            rg <= row_groups@.len(),
            pos.row_group < rg,
            prefix_chunks(shape, rg as int) == pos_rank(shape, pos) + 1,
        decreases row_groups@.len() - rg,
    {
        if row_groups[rg].columns.len() > 0 {
            let p = ChunkPos { row_group: rg, column: 0 };
            proof {
                lemma_rank_bounds(shape, rg as int, 0);
            }
            return Some(p);
        }
        proof {
            lemma_prefix_step(shape, rg as int);
        }
        rg = rg + 1;
    }
    proof {
        assert(shape.take(shape.len() as int) =~= shape);
    }
    None
}

} // verus!

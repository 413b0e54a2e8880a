//! The per-column-chunk statistics introspection table: one row per
//! (row group, column) pair of the queried file, in row-group-major,
//! column-minor order.

use vstd::prelude::*;

use crate::coerce::copy_bytes;
use crate::file_meta::{shape_of, ChunkStats, ColumnChunkMeta, FileMeta, StatsMinMax};
use crate::layout::{
    advance_position, first_position, lemma_rank_bounds, lemma_shape_of_wf, pos_rank, pos_valid,
    total_chunks, ChunkPos,
};
use crate::plan::{negotiate_path_filter, path_negotiation_post, IndexPlan, PlannerConstraint, PlanRejection};
use crate::text::{decode_utf8, utf8_decoded};
use crate::values::{SinkModel, SinkOp};

verus! {

pub const CHUNK_COL_SOURCE: usize = 0;

pub const CHUNK_COL_ROW_GROUP: usize = 1;

pub const CHUNK_COL_COLUMN_NAME: usize = 2;

pub const CHUNK_COL_COLUMN_TYPE: usize = 3;

pub const CHUNK_COL_NUM_VALUES: usize = 4;

pub const CHUNK_COL_COMPRESSED_SIZE: usize = 5;

pub const CHUNK_COL_UNCOMPRESSED_SIZE: usize = 6;

pub const CHUNK_COL_STATS_MIN: usize = 7;

pub const CHUNK_COL_STATS_MAX: usize = 8;

pub const CHUNK_COL_STATS_DISTINCT: usize = 9;

pub const CHUNK_COL_STATS_NULL_COUNT: usize = 10;

/// Number of columns the column-chunk table declares.
pub const CHUNK_COLUMN_COUNT: usize = 11;

/// The declared schema of the column-chunk table; column order is part of
/// the contract, and the leading path column is hidden.
pub open spec fn chunk_schema_sql() -> Seq<char> {
    "CREATE TABLE x(source hidden, row_group integer, column_name text, column_type text, num_values integer, compressed_size integer, uncompressed_size integer, stats_min, stats_max, stats_distinct, stats_null_count)"@
}

/// What a statistics minimum renders as: numeric variants directly, a
/// byte-array variant as UTF-8 text when valid (and as a raw blob when not),
/// anything else as null. An absent statistics object is null.
pub open spec fn stats_min_model(stats: Option<ChunkStats>) -> SinkModel {
    match stats {
        None => SinkModel::Null,
        Some(s) => match s.min_max {
            StatsMinMax::Int32 { min, .. } => SinkModel::Int32(min),
            StatsMinMax::Int64 { min, .. } => SinkModel::Int64(min),
            StatsMinMax::Double { min_bits, .. } => SinkModel::Double { bits: min_bits },
            StatsMinMax::Single { min_bits, .. } => SinkModel::DoubleFromSingle { bits: min_bits },
            StatsMinMax::ByteArray { min, .. } => match utf8_decoded(min@) {
                Some(t) => SinkModel::Text(t),
                None => SinkModel::Blob(min@),
            },
            StatsMinMax::Unsupported => SinkModel::Null,
        },
    }
}

/// The statistics maximum, rendered exactly as the minimum is.
pub open spec fn stats_max_model(stats: Option<ChunkStats>) -> SinkModel {
    match stats {
        None => SinkModel::Null,
        Some(s) => match s.min_max {
            StatsMinMax::Int32 { max, .. } => SinkModel::Int32(max),
            StatsMinMax::Int64 { max, .. } => SinkModel::Int64(max),
            StatsMinMax::Double { max_bits, .. } => SinkModel::Double { bits: max_bits },
            StatsMinMax::Single { max_bits, .. } => SinkModel::DoubleFromSingle { bits: max_bits },
            StatsMinMax::ByteArray { max, .. } => match utf8_decoded(max@) {
                Some(t) => SinkModel::Text(t),
                None => SinkModel::Blob(max@),
            },
            StatsMinMax::Unsupported => SinkModel::Null,
        },
    }
}

/// A count column: null whenever the statistics object is absent or does not
/// report the count, never zero.
pub open spec fn stats_count_model(count: Option<Option<i64>>) -> SinkModel {
    match count {
        Some(Some(c)) => SinkModel::Int64(c),
        _ => SinkModel::Null,
    }
}

/// What each column of the row for `chunk`, at row-group index `rg_index`,
/// holds. The path column itself always yields null: it is input, never
/// echoed back.
pub open spec fn chunk_column_spec(chunk: ColumnChunkMeta, rg_index: int, i: int) -> SinkModel {
    if i == CHUNK_COL_SOURCE as int {
        SinkModel::Null
    } else if i == CHUNK_COL_ROW_GROUP as int {
        SinkModel::Int32(rg_index as i32)
    } else if i == CHUNK_COL_COLUMN_NAME as int {
        SinkModel::Text(chunk.column_name@)
    } else if i == CHUNK_COL_COLUMN_TYPE as int {
        SinkModel::Text(chunk.column_type@)
    } else if i == CHUNK_COL_NUM_VALUES as int {
        SinkModel::Int64(chunk.num_values)
    } else if i == CHUNK_COL_COMPRESSED_SIZE as int {
        SinkModel::Int64(chunk.compressed_size)
    } else if i == CHUNK_COL_UNCOMPRESSED_SIZE as int {
        SinkModel::Int64(chunk.uncompressed_size)
    } else if i == CHUNK_COL_STATS_MIN as int {
        stats_min_model(chunk.statistics)
    } else if i == CHUNK_COL_STATS_MAX as int {
        stats_max_model(chunk.statistics)
    } else if i == CHUNK_COL_STATS_DISTINCT as int {
        stats_count_model(match chunk.statistics {
            Some(s) => Some(s.distinct_count),
            None => None,
        })
    } else if i == CHUNK_COL_STATS_NULL_COUNT as int {
        stats_count_model(match chunk.statistics {
            Some(s) => Some(s.null_count),
            None => None,
        })
    } else {
        SinkModel::Null
    }
}

/// The column-chunk table object. It carries no state of its own: the
/// queried file is bound per scan, through the path filter.
pub struct ColumnChunksTable {}

impl ColumnChunksTable {
    /// Declare the table: the fixed schema text and the table object.
    pub fn connect() -> (r: (String, ColumnChunksTable))
        ensures
            r.0@ == chunk_schema_sql(),
    {
        ("CREATE TABLE x(source hidden, row_group integer, column_name text, column_type text, num_values integer, compressed_size integer, uncompressed_size integer, stats_min, stats_max, stats_distinct, stats_null_count)".to_owned(),
        ColumnChunksTable {})
    }

    /// Negotiate a scan: only a usable equality on the hidden path column is
    /// accepted.
    pub fn best_index(&self, constraints: &Vec<PlannerConstraint>) -> (r: Result<
        IndexPlan,
        PlanRejection,
    >)
        ensures
            path_negotiation_post(constraints@, r),
    {
        negotiate_path_filter(constraints)
    }

    /// Open a cursor, positioned nowhere until a filter binds a path.
    pub fn open(&self) -> (c: ColumnChunksCursor)
        ensures
            c.meta is None,
            c.at_end,
            c.wf(),
    {
        ColumnChunksCursor::new()
    }
}

/// The column-chunk cursor: a decoded snapshot plus a position in its
/// two-level layout and an end-of-stream flag.
pub struct ColumnChunksCursor {
    /// The snapshot of the queried file, owned by this cursor alone; absent
    /// until the first filter call binds a path.
    pub meta: Option<FileMeta>,
    pub pos: ChunkPos,
    pub at_end: bool,
}

impl ColumnChunksCursor {
    /// The layout shape the cursor walks.
    pub open spec fn shape(&self) -> Seq<int>
        recommends
            self.meta is Some,
    {
        shape_of(self.meta->0.row_groups@)
    }

    /// Whenever the cursor is not at end-of-stream, its position addresses a
    /// column chunk of the loaded snapshot.
    pub open spec fn wf(&self) -> bool {
        match self.meta {
            None => self.at_end,
            Some(m) => m.wf() && (!self.at_end ==> pos_valid(
                shape_of(m.row_groups@),
                self.pos,
            )),
        }
    }

    /// A fresh cursor: at end-of-stream until a filter binds a path.
    pub fn new() -> (c: ColumnChunksCursor)
        ensures
            c.meta is None,
            c.at_end,
            c.wf(),
    {
        ColumnChunksCursor { meta: None, pos: ChunkPos { row_group: 0, column: 0 }, at_end: true }
    }

    /// Load the snapshot decoded for the bound path and rewind to the first
    /// column chunk; a file with no chunk at all is immediately at
    /// end-of-stream.
    pub fn filter(&mut self, meta: FileMeta)
        requires
            meta.wf(),
        ensures
            final(self).meta == Some(meta),
            final(self).wf(),
            final(self).at_end <==> total_chunks(shape_of(meta.row_groups@)) == 0,
            !final(self).at_end ==> pos_rank(shape_of(meta.row_groups@), final(self).pos) == 0,
    {
        let first = first_position(&meta.row_groups);
        self.meta = Some(meta);
        match first {
            Some(p) => {
                self.pos = p;
                self.at_end = false;
            },
            None => {
                self.pos = ChunkPos { row_group: 0, column: 0 };
                self.at_end = true;
            },
        }
    }

    /// Advance to the next column chunk: the next column of the current row
    /// group, or the first column of the next non-empty row group; past the
    /// last chunk, end-of-stream. Each advance increases the rank by exactly
    /// one and never decreases the row-group index.
    pub fn next(&mut self)
        requires
            old(self).wf(),
            !old(self).at_end,
        ensures
            final(self).meta == old(self).meta,
            final(self).wf(),
            final(self).at_end <==> pos_rank(old(self).shape(), old(self).pos) == total_chunks(
                old(self).shape(),
            ) - 1,
            !final(self).at_end ==> pos_rank(final(self).shape(), final(self).pos) == pos_rank(
                old(self).shape(),
                old(self).pos,
            ) + 1 && final(self).pos.row_group >= old(self).pos.row_group,
    {
        let stepped = match &self.meta {
            Some(m) => advance_position(&m.row_groups, self.pos),
            None => None,  // unreachable: not at end-of-stream, so a snapshot is loaded
        };
        match stepped {
            Some(p) => {
                self.pos = p;
            },
            None => {
                self.at_end = true;
            },
        }
    }

    /// Whether the scan is exhausted.
    pub fn eof(&self) -> (b: bool)
        ensures
            b == self.at_end,
    {
        self.at_end
    }

    /// Read column `i` of the row for the current column chunk.
    pub fn column(&self, i: usize) -> (r: SinkOp)
        requires
            self.wf(),
            !self.at_end,
            i < CHUNK_COLUMN_COUNT,
        ensures
            r@ == chunk_column_spec(
                self.meta->0.row_groups@[self.pos.row_group as int].columns@[self.pos.column as int],
                self.pos.row_group as int,
                i as int,
            ),
    {
        let meta = match &self.meta {
            Some(m) => m,
            None => {
                return SinkOp::Null;  // unreachable: not at end-of-stream
            },
        };
        let chunk = &meta.row_groups[self.pos.row_group].columns[self.pos.column];
        if i == CHUNK_COL_SOURCE {
            SinkOp::Null
        } else if i == CHUNK_COL_ROW_GROUP {
            SinkOp::Int32(self.pos.row_group as i32)
        } else if i == CHUNK_COL_COLUMN_NAME {
            SinkOp::Text(chunk.column_name.clone())
        } else if i == CHUNK_COL_COLUMN_TYPE {
            SinkOp::Text(chunk.column_type.clone())
        } else if i == CHUNK_COL_NUM_VALUES {
            SinkOp::Int64(chunk.num_values)
        } else if i == CHUNK_COL_COMPRESSED_SIZE {
            SinkOp::Int64(chunk.compressed_size)
        } else if i == CHUNK_COL_UNCOMPRESSED_SIZE {
            SinkOp::Int64(chunk.uncompressed_size)
        } else if i == CHUNK_COL_STATS_MIN {
            match &chunk.statistics {
                None => SinkOp::Null,
                Some(s) => match &s.min_max {
                    StatsMinMax::Int32 { min, .. } => SinkOp::Int32(*min),
                    StatsMinMax::Int64 { min, .. } => SinkOp::Int64(*min),
                    StatsMinMax::Double { min_bits, .. } => SinkOp::Double { bits: *min_bits },
                    StatsMinMax::Single { min_bits, .. } => (SinkOp::DoubleFromSingle {
                        bits: *min_bits,
                    }),
                    StatsMinMax::ByteArray { min, .. } => match decode_utf8(min) {
                        Some(t) => SinkOp::Text(t),
                        None => SinkOp::Blob(copy_bytes(min)),
                    },
                    StatsMinMax::Unsupported => SinkOp::Null,
                },
            }
        } else if i == CHUNK_COL_STATS_MAX {
            match &chunk.statistics {
                None => SinkOp::Null,
                Some(s) => match &s.min_max {
                    StatsMinMax::Int32 { max, .. } => SinkOp::Int32(*max),
                    StatsMinMax::Int64 { max, .. } => SinkOp::Int64(*max),
                    StatsMinMax::Double { max_bits, .. } => SinkOp::Double { bits: *max_bits },
                    StatsMinMax::Single { max_bits, .. } => (SinkOp::DoubleFromSingle {
                        bits: *max_bits,
                    }),
                    StatsMinMax::ByteArray { max, .. } => match decode_utf8(max) {
                        Some(t) => SinkOp::Text(t),
                        None => SinkOp::Blob(copy_bytes(max)),
                    },
                    StatsMinMax::Unsupported => SinkOp::Null,
                },
            }
        } else if i == CHUNK_COL_STATS_DISTINCT {
            match &chunk.statistics {
                None => SinkOp::Null,
                Some(s) => match s.distinct_count {
                    Some(c) => SinkOp::Int64(c),
                    None => SinkOp::Null,
                },
            }
        } else {
            match &chunk.statistics {
                None => SinkOp::Null,
                Some(s) => match s.null_count {
                    Some(c) => SinkOp::Int64(c),
                    None => SinkOp::Null,
                },
            }
        }
    }

    /// This source format provides no stable row identity; the constant is a
    /// placeholder the host engine never relies on (there is no update or
    /// delete path).
    pub fn rowid(&self) -> (r: i64)
        ensures
            r == 1,
    {
        1
    }
}

/// A column chunk with no statistics object yields null for all four
/// statistics columns, and still yields its value count and sizes as
/// non-null integers.
pub proof fn lemma_absent_statistics_yield_null(chunk: ColumnChunkMeta, rg_index: int)
    requires
        chunk.statistics is None,
    ensures
        chunk_column_spec(chunk, rg_index, CHUNK_COL_STATS_MIN as int) == SinkModel::Null,
        chunk_column_spec(chunk, rg_index, CHUNK_COL_STATS_MAX as int) == SinkModel::Null,
        chunk_column_spec(chunk, rg_index, CHUNK_COL_STATS_DISTINCT as int) == SinkModel::Null,
        chunk_column_spec(chunk, rg_index, CHUNK_COL_STATS_NULL_COUNT as int) == SinkModel::Null,
        chunk_column_spec(chunk, rg_index, CHUNK_COL_NUM_VALUES as int) == SinkModel::Int64(
            chunk.num_values,
        ),
        chunk_column_spec(chunk, rg_index, CHUNK_COL_COMPRESSED_SIZE as int) == SinkModel::Int64(
            chunk.compressed_size,
        ),
        chunk_column_spec(chunk, rg_index, CHUNK_COL_UNCOMPRESSED_SIZE as int) == SinkModel::Int64(
            chunk.uncompressed_size,
        ),
{
}

/// Whenever the cursor is not at end-of-stream, its rank — the number of
/// rows already yielded — lies in `[0, total_chunks)`. A filter starts the
/// rank at zero and each advance increases it by exactly one until the last
/// rank is passed, so a full scan yields exactly one row per column chunk:
/// `total_chunks`, the sum of the column counts over all row groups.
pub proof fn lemma_chunk_cursor_rank_in_bounds(c: ColumnChunksCursor)
    requires
        c.wf(),
        !c.at_end,
    ensures
        0 <= pos_rank(c.shape(), c.pos) < total_chunks(c.shape()),
{
    lemma_shape_of_wf(c.meta->0.row_groups@);
    lemma_rank_bounds(c.shape(), c.pos.row_group as int, c.pos.column as int);
}

/// A statistics object that reports no distinct count surfaces null for the
/// distinct-count column, never zero, whatever else it reports.
pub proof fn lemma_unknown_distinct_count_is_null(chunk: ColumnChunkMeta, rg_index: int)
    requires
        chunk.statistics matches Some(s) && s.distinct_count is None,
    ensures
        chunk_column_spec(chunk, rg_index, CHUNK_COL_STATS_DISTINCT as int) == SinkModel::Null,
{
}

} // verus!

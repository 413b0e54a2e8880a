//! The decoded file-metadata snapshot a cursor owns: schema and writer
//! identity, row counts, and the two-level row-group / column-chunk layout
//! with per-chunk sizes and statistics.
//!
//! The snapshot holds plain values only; the file decoder (an external
//! collaborator) fills it at the unverified boundary.

use vstd::prelude::*;

verus! {

/// Per-chunk minimum and maximum, dispatched on the statistics variant of
/// the chunk's physical type. A statistics object whose minimum or maximum
/// is unavailable, and a variant the tables do not render, are both
/// `Unsupported` (they surface as null).
#[derive(Debug, Clone, PartialEq)]
pub enum StatsMinMax {
    Int32 { min: i32, max: i32 },
    Int64 { min: i64, max: i64 },
    /// Double-precision bounds, as raw IEEE 754 bit patterns.
    Double { min_bits: u64, max_bits: u64 },
    /// Single-precision bounds, as raw IEEE 754 bit patterns; they surface
    /// as doubles (the widening is exact).
    Single { min_bits: u32, max_bits: u32 },
    /// Byte-array bounds; they surface as UTF-8 text when valid, and as raw
    /// blobs when not.
    ByteArray { min: Vec<u8>, max: Vec<u8> },
    Unsupported,
}

/// The statistics object of one column chunk. A count the file does not
/// report is `None` and surfaces as null, never as zero.
#[derive(Debug, Clone, PartialEq)]
pub struct ChunkStats {
    pub min_max: StatsMinMax,
    pub distinct_count: Option<i64>,
    pub null_count: Option<i64>,
}

/// One column chunk: the contiguous storage for one column within one row
/// group.
#[derive(Debug, Clone, PartialEq)]
pub struct ColumnChunkMeta {
    /// The column's dotted path name.
    pub column_name: String,
    /// The column's physical type name.
    pub column_type: String,
    pub num_values: i64,
    pub compressed_size: i64,
    pub uncompressed_size: i64,
    /// Absent when the file carries no statistics for this chunk.
    pub statistics: Option<ChunkStats>,
}

/// One row group: a horizontal partition of the file's rows, subdivided by
/// column.
#[derive(Debug, Clone, PartialEq)]
pub struct RowGroupMeta {
    pub columns: Vec<ColumnChunkMeta>,
}

/// The decoded metadata snapshot of one file.
#[derive(Debug, Clone, PartialEq)]
pub struct FileMeta {
    /// Writer format version.
    pub version: i32,
    /// Writer identity, when the file records one.
    pub created_by: Option<String>,
    /// The decoder's deterministic textual rendering of the schema tree.
    pub schema_text: String,
    /// Total logical rows in the file.
    pub num_rows: i64,
    /// Total leaf columns in the schema.
    pub num_columns: i64,
    pub row_groups: Vec<RowGroupMeta>,
}

impl FileMeta {
    /// A snapshot the cursors can walk: the row-group count fits the 32-bit
    /// index column they render.
    pub open spec fn wf(&self) -> bool {
        self.row_groups@.len() <= i32::MAX as int
    }
}

/// The layout shape of a snapshot: the column count of each row group, in
/// row-group order.
pub open spec fn shape_of(row_groups: Seq<RowGroupMeta>) -> Seq<int> {
    row_groups.map_values(|rg: RowGroupMeta| rg.columns@.len() as int)
}

} // verus!

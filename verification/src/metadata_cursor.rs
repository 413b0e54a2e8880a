//! The file-level metadata introspection table: one synthetic row per
//! queried file, summarizing writer version and identity, schema text, and
//! row/column/row-group counts.

use vstd::prelude::*;

use crate::file_meta::FileMeta;
use crate::plan::{negotiate_path_filter, path_negotiation_post, IndexPlan, PlannerConstraint, PlanRejection};
use crate::values::{SinkModel, SinkOp};

verus! {

pub const METADATA_COL_SOURCE: usize = 0;

pub const METADATA_COL_VERSION: usize = 1;

pub const METADATA_COL_CREATED_BY: usize = 2;

pub const METADATA_COL_SCHEMA: usize = 3;

pub const METADATA_COL_NUM_ROWS: usize = 4;

pub const METADATA_COL_NUM_COLUMNS: usize = 5;

pub const METADATA_COL_NUM_ROW_GROUPS: usize = 6;

/// Number of columns the metadata table declares.
pub const METADATA_COLUMN_COUNT: usize = 7;

/// The declared schema of the metadata table; column order is part of the
/// contract, and the leading path column is hidden.
pub open spec fn metadata_schema_sql() -> Seq<char> {
    "CREATE TABLE x(source hidden, version integer, created_by text, schema text, num_rows integer, num_columns integer, num_row_groups integer)"@
}

/// What each column of the one synthetic row holds. The path column itself
/// always yields null: it is input, never echoed back.
pub open spec fn metadata_column_spec(meta: FileMeta, i: int) -> SinkModel {
    if i == METADATA_COL_SOURCE as int {
        SinkModel::Null
    } else if i == METADATA_COL_VERSION as int {
        SinkModel::Int32(meta.version)
    } else if i == METADATA_COL_CREATED_BY as int {
        match meta.created_by {
            Some(s) => SinkModel::Text(s@),
            None => SinkModel::Null,
        }
    } else if i == METADATA_COL_SCHEMA as int {
        SinkModel::Text(meta.schema_text@)
    } else if i == METADATA_COL_NUM_ROWS as int {
        SinkModel::Int64(meta.num_rows)
    } else if i == METADATA_COL_NUM_COLUMNS as int {
        SinkModel::Int64(meta.num_columns)
    } else if i == METADATA_COL_NUM_ROW_GROUPS as int {
        SinkModel::Int64(meta.row_groups@.len() as i64)
    } else {
        SinkModel::Null
    }
}

/// The metadata table object. It carries no state of its own: the queried
/// file is bound per scan, through the path filter.
pub struct MetadataTable {}

impl MetadataTable {
    /// Declare the table: the fixed schema text and the table object.
    pub fn connect() -> (r: (String, MetadataTable))
        ensures
            r.0@ == metadata_schema_sql(),
    {
        ("CREATE TABLE x(source hidden, version integer, created_by text, schema text, num_rows integer, num_columns integer, num_row_groups integer)".to_owned(),
        MetadataTable {})
    }

    /// Negotiate a scan: only a usable equality on the hidden path column is
    /// accepted.
    pub fn best_index(&self, constraints: &Vec<PlannerConstraint>) -> (r: Result<
        IndexPlan,
        PlanRejection,
    >)
        ensures
            path_negotiation_post(constraints@, r),
    {
        negotiate_path_filter(constraints)
    }

    /// Open a cursor, positioned nowhere until a filter binds a path.
    pub fn open(&self) -> (c: MetadataCursor)
        ensures
            c.meta is None,
            c.done,
    {
        MetadataCursor::new()
    }
}

/// The metadata cursor: a decoded snapshot plus a single-row "done" flag.
pub struct MetadataCursor {
    /// The snapshot of the queried file, owned by this cursor alone; absent
    /// until the first filter call binds a path.
    pub meta: Option<FileMeta>,
    /// Whether the one synthetic row has been yielded.
    pub done: bool,
}

/// The cursor state right after a filter loads a snapshot: the one row is
/// pending.
pub open spec fn filtered_metadata_cursor(meta: FileMeta) -> MetadataCursor {
    MetadataCursor { meta: Some(meta), done: false }
}

/// The cursor state after an advance: the one row has been yielded,
/// whatever the state before.
pub open spec fn advanced_metadata_cursor(c: MetadataCursor) -> MetadataCursor {
    MetadataCursor { meta: c.meta, done: true }
}

impl MetadataCursor {
    /// A fresh cursor: at end-of-stream until a filter binds a path.
    pub fn new() -> (c: MetadataCursor)
        ensures
            c.meta is None,
            c.done,
    {
        MetadataCursor { meta: None, done: true }
    }

    /// Load the snapshot decoded for the bound path and rewind: the one
    /// synthetic row is pending again.
    pub fn filter(&mut self, meta: FileMeta)
        ensures
            *final(self) == filtered_metadata_cursor(meta),
    {
        self.meta = Some(meta);
        self.done = false;
    }

    /// Advance past the one synthetic row.
    pub fn next(&mut self)
        ensures
            *final(self) == advanced_metadata_cursor(*old(self)),
    {
        self.done = true;
    }

    /// Whether the scan is exhausted.
    pub fn eof(&self) -> (b: bool)
        ensures
            b == self.done,
    {
        self.done
    }

    /// Read column `i` of the synthetic row off the snapshot.
    pub fn column(&self, i: usize) -> (r: SinkOp)
        requires
            self.meta matches Some(m) && m.wf(),
            i < METADATA_COLUMN_COUNT,
        ensures
            r@ == metadata_column_spec(self.meta->0, i as int),
    {
        let meta = match &self.meta {
            Some(m) => m,
            None => {
                return SinkOp::Null;  // unreachable: a snapshot is loaded
            },
        };
        if i == METADATA_COL_SOURCE {
            SinkOp::Null
        } else if i == METADATA_COL_VERSION {
            SinkOp::Int32(meta.version)
        } else if i == METADATA_COL_CREATED_BY {
            match &meta.created_by {
                Some(s) => SinkOp::Text(s.clone()),
                None => SinkOp::Null,
            }
        } else if i == METADATA_COL_SCHEMA {
            SinkOp::Text(meta.schema_text.clone())
        } else if i == METADATA_COL_NUM_ROWS {
            SinkOp::Int64(meta.num_rows)
        } else if i == METADATA_COL_NUM_COLUMNS {
            SinkOp::Int64(meta.num_columns)
        } else {
            SinkOp::Int64(meta.row_groups.len() as i64)
        }
    }

    /// This source format provides no stable row identity; the constant is a
    /// placeholder the host engine never relies on (there is no update or
    /// delete path).
    pub fn rowid(&self) -> (r: i64)
        ensures
            r == 1,
    {
        1
    }
}

/// The metadata cursor yields exactly one row per queried file, whatever the
/// file's size or row-group count: right after a filter the row is pending,
/// after one advance the cursor is at end-of-stream, and any further advance
/// keeps it there.
pub proof fn lemma_metadata_exactly_one_row(meta: FileMeta, c: MetadataCursor)
    ensures
        !filtered_metadata_cursor(meta).done,
        advanced_metadata_cursor(filtered_metadata_cursor(meta)).done,
        advanced_metadata_cursor(c).done,
{
}

} // verus!

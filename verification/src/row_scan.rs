//! The whole-file row-scan table: every row and every column of one file,
//! each field coerced through the value coercion layer.
//!
//! The file path is fixed when the table is created (extracted from the
//! module arguments), so this table is exempt from the path-filter policy of
//! the two introspection tables. The row iterator itself lives at the decode
//! boundary: each advance hands the cursor the next decoded row, or nothing
//! at end of stream.

use vstd::prelude::*;

use crate::coerce::{coerce_field, coerce_result_model, coerce_spec};
use crate::connect::{create_table_sql, create_table_sql_spec, path_from_args, path_of_args};
use crate::plan::{row_scan_plan, row_scan_plan_shape, IndexPlan};
use crate::values::{CoerceError, FieldValue, SinkOp};

verus! {

/// The row-scan table object: the queried file's path, fixed at creation.
pub struct ParquetTable {
    pub path: Vec<u8>,
}

impl ParquetTable {
    /// Create the table for the path the module arguments bind; `None`
    /// rejects a proposal with no or malformed arguments.
    pub fn from_args(args: &Vec<Vec<u8>>) -> (r: Option<ParquetTable>)
        ensures
            r is Some <==> path_of_args(args@) is Some,
            r matches Some(t) ==> Some(t.path@) == path_of_args(args@),
    {
        match path_from_args(args) {
            Some(p) => Some(ParquetTable { path: p }),
            None => None,
        }
    }

    /// The declared schema for the given top-level field names of the file:
    /// one untyped column per field, named verbatim, in file order.
    pub fn schema_sql(field_names: &Vec<Vec<u8>>) -> (r: Vec<u8>)
        ensures
            r@ == create_table_sql_spec(field_names@),
    {
        create_table_sql(field_names)
    }

    /// The path of the file this table scans.
    pub fn path(&self) -> (r: &Vec<u8>)
        ensures
            r@ == self.path@,
    {
        &self.path
    }

    /// Negotiate a scan: always accepted, since the path is already fixed
    /// and no column of this table is filterable by the path pushdown.
    pub fn best_index(&self, n_constraints: usize) -> (plan: IndexPlan)
        ensures
            row_scan_plan_shape(plan, n_constraints as int),
    {
        row_scan_plan(n_constraints)
    }

    /// Open a cursor over this table's file, with no row materialized yet.
    pub fn open(&self) -> (c: ParquetCursor)
        ensures
            c.current is None,
    {
        ParquetCursor::new()
    }
}

/// The row-scan cursor: the currently materialized row, or none at end of
/// stream (and before the first advance).
pub struct ParquetCursor {
    /// The fields of the current row, in file order.
    pub current: Option<Vec<FieldValue>>,
}

impl ParquetCursor {
    /// A fresh cursor, with no row materialized.
    pub fn new() -> (c: ParquetCursor)
        ensures
            c.current is None,
    {
        ParquetCursor { current: None }
    }

    /// Materialize the next decoded row, or none when the decoder's iterator
    /// is exhausted: the cursor is at end-of-stream exactly when the
    /// iterator yields no further row.
    pub fn advance(&mut self, row: Option<Vec<FieldValue>>)
        ensures
            final(self).current == row,
    {
        self.current = row;
    }

    /// Whether the scan is exhausted.
    pub fn eof(&self) -> (b: bool)
        ensures
            b == (self.current is None),
    {
        match &self.current {
            Some(_) => false,
            None => true,
        }
    }

    /// Coerce field `i` of the current row into one sink write operation,
    /// exactly as `coerce_spec` says.
    pub fn column(&self, i: usize) -> (r: Result<SinkOp, CoerceError>)
        requires
            self.current matches Some(row) && i < row@.len(),
        ensures
            coerce_result_model(r) == coerce_spec(self.current->0@[i as int]@),
    {
        match &self.current {
            Some(row) => coerce_field(&row[i]),
            None => Ok(SinkOp::Null),  // unreachable: a row is materialized
        }
    }

    /// This source format provides no stable row identity; the constant is a
    /// placeholder the host engine never relies on (there is no update or
    /// delete path).
    pub fn rowid(&self) -> (r: i64)
        ensures
            r == 1,
    {
        1
    }
}

} // verus!

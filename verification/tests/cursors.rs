//! Tests for the three tables: plan negotiation, cursor iteration order,
//! the single metadata row, and per-chunk statistics rendering.

use parquet_vtab::chunk_cursor::{ColumnChunksCursor, ColumnChunksTable};
use parquet_vtab::file_meta::{ChunkStats, ColumnChunkMeta, FileMeta, RowGroupMeta, StatsMinMax};
use parquet_vtab::metadata_cursor::{MetadataCursor, MetadataTable};
use parquet_vtab::plan::{ConstraintOp, ConstraintUsage, PlanRejection, PlannerConstraint};
use parquet_vtab::row_scan::{ParquetCursor, ParquetTable};
use parquet_vtab::values::{CoerceError, FieldValue, SinkOp};

fn chunk(name: &str) -> ColumnChunkMeta {
    ColumnChunkMeta {
        column_name: name.to_string(),
        column_type: "INT32".to_string(),
        num_values: 10,
        compressed_size: 100,
        uncompressed_size: 200,
        statistics: None,
    }
}

fn meta_with_shape(shape: &[usize]) -> FileMeta {
    let row_groups = shape
        .iter()
        .map(|n| RowGroupMeta {
            columns: (0..*n).map(|c| chunk(&format!("c{}", c))).collect(),
        })
        .collect();
    FileMeta {
        version: 2,
        created_by: Some("test writer".to_string()),
        schema_text: "message schema { }".to_string(),
        num_rows: 6,
        num_columns: 3,
        row_groups,
    }
}

fn path_eq() -> PlannerConstraint {
    PlannerConstraint { column_index: 0, usable: true, op: Some(ConstraintOp::Eq) }
}

#[test]
fn negotiation_accepts_a_usable_path_equality() {
    let table = MetadataTable {};
    let plan = table.best_index(&vec![path_eq()]).unwrap();
    assert_eq!(plan.idx_num, 1);
    assert_eq!(plan.estimated_cost, 100000);
    assert_eq!(plan.estimated_rows, 100000);
    assert_eq!(plan.usages, vec![ConstraintUsage { argv_index: Some(1), omit: true }]);
}

#[test]
fn negotiation_rejects_a_missing_path_filter() {
    let table = MetadataTable {};
    assert_eq!(table.best_index(&vec![]), Err(PlanRejection::MissingPathFilter));
    let chunks = ColumnChunksTable {};
    assert_eq!(chunks.best_index(&vec![]), Err(PlanRejection::MissingPathFilter));
}

#[test]
fn negotiation_rejects_non_equality_on_path() {
    let table = ColumnChunksTable {};
    let lt = PlannerConstraint { column_index: 0, usable: true, op: Some(ConstraintOp::Lt) };
    assert_eq!(table.best_index(&vec![lt]), Err(PlanRejection::UnsupportedConstraint));
}

#[test]
fn negotiation_rejects_an_unusable_path_equality() {
    let table = MetadataTable {};
    let unusable = PlannerConstraint { column_index: 0, usable: false, op: Some(ConstraintOp::Eq) };
    assert_eq!(table.best_index(&vec![unusable]), Err(PlanRejection::UnsupportedConstraint));
}

#[test]
fn negotiation_rejects_predicates_on_other_columns() {
    let table = MetadataTable {};
    let other = PlannerConstraint { column_index: 2, usable: true, op: Some(ConstraintOp::Eq) };
    assert_eq!(
        table.best_index(&vec![path_eq(), other]),
        Err(PlanRejection::UnsupportedConstraint)
    );
}

#[test]
fn row_scan_accepts_plans_without_predicates() {
    let table = ParquetTable::from_args(&vec![b"source='/tmp/a.parquet'".to_vec()]).unwrap();
    let plan = table.best_index(0);
    assert_eq!(plan.idx_num, 1);
    assert!(plan.usages.is_empty());
    let plan2 = table.best_index(2);
    assert_eq!(plan2.usages, vec![
        ConstraintUsage { argv_index: None, omit: false };
        2
    ]);
}

#[test]
fn metadata_cursor_yields_exactly_one_row() {
    let table = MetadataTable {};
    let mut cursor = table.open();
    assert!(cursor.eof());
    cursor.filter(meta_with_shape(&[2, 3]));
    assert!(!cursor.eof());
    cursor.next();
    assert!(cursor.eof());
    cursor.next();
    assert!(cursor.eof());
    // a zero-row-group file still yields its one row
    cursor.filter(meta_with_shape(&[]));
    assert!(!cursor.eof());
    cursor.next();
    assert!(cursor.eof());
}

#[test]
fn metadata_columns_read_off_the_snapshot() {
    let mut cursor = MetadataCursor::new();
    cursor.filter(meta_with_shape(&[2, 3]));
    assert_eq!(cursor.column(0), SinkOp::Null); // the path is never echoed back
    assert_eq!(cursor.column(1), SinkOp::Int32(2));
    assert_eq!(cursor.column(2), SinkOp::Text("test writer".to_string()));
    assert_eq!(cursor.column(3), SinkOp::Text("message schema { }".to_string()));
    assert_eq!(cursor.column(4), SinkOp::Int64(6));
    assert_eq!(cursor.column(5), SinkOp::Int64(3));
    assert_eq!(cursor.column(6), SinkOp::Int64(2));
    assert_eq!(cursor.rowid(), 1);
}

#[test]
fn metadata_missing_writer_identity_is_null() {
    let mut meta = meta_with_shape(&[1]);
    meta.created_by = None;
    let mut cursor = MetadataCursor::new();
    cursor.filter(meta);
    assert_eq!(cursor.column(2), SinkOp::Null);
}

#[test]
fn chunk_cursor_walks_row_group_major_column_minor() {
    let table = ColumnChunksTable {};
    let mut cursor = table.open();
    assert!(cursor.eof());
    cursor.filter(meta_with_shape(&[2, 3]));
    let mut seen = Vec::new();
    while !cursor.eof() {
        seen.push((cursor.pos.row_group, cursor.pos.column));
        cursor.next();
    }
    assert_eq!(seen, vec![(0, 0), (0, 1), (1, 0), (1, 1), (1, 2)]);
}

#[test]
fn chunk_cursor_on_an_empty_file_is_immediately_done() {
    let mut cursor = ColumnChunksCursor::new();
    cursor.filter(meta_with_shape(&[]));
    assert!(cursor.eof());
}

#[test]
fn chunk_cursor_skips_row_groups_without_columns() {
    let mut cursor = ColumnChunksCursor::new();
    cursor.filter(meta_with_shape(&[2, 0, 1]));
    let mut seen = Vec::new();
    while !cursor.eof() {
        seen.push((cursor.pos.row_group, cursor.pos.column));
        cursor.next();
    }
    assert_eq!(seen, vec![(0, 0), (0, 1), (2, 0)]);
}

#[test]
fn chunk_row_count_is_the_sum_over_row_groups() {
    let mut cursor = ColumnChunksCursor::new();
    cursor.filter(meta_with_shape(&[3, 1, 0, 4]));
    let mut count = 0;
    while !cursor.eof() {
        count += 1;
        cursor.next();
    }
    assert_eq!(count, 8);
}

#[test]
fn chunk_columns_read_off_the_current_chunk() {
    let mut cursor = ColumnChunksCursor::new();
    cursor.filter(meta_with_shape(&[1, 2]));
    cursor.next(); // to (1, 0)
    cursor.next(); // to (1, 1)
    assert_eq!(cursor.column(0), SinkOp::Null); // the path is never echoed back
    assert_eq!(cursor.column(1), SinkOp::Int32(1));
    assert_eq!(cursor.column(2), SinkOp::Text("c1".to_string()));
    assert_eq!(cursor.column(3), SinkOp::Text("INT32".to_string()));
    assert_eq!(cursor.column(4), SinkOp::Int64(10));
    assert_eq!(cursor.column(5), SinkOp::Int64(100));
    assert_eq!(cursor.column(6), SinkOp::Int64(200));
    assert_eq!(cursor.rowid(), 1);
}

#[test]
fn absent_statistics_yield_null_but_sizes_stay() {
    let mut cursor = ColumnChunksCursor::new();
    cursor.filter(meta_with_shape(&[1]));
    assert_eq!(cursor.column(7), SinkOp::Null);
    assert_eq!(cursor.column(8), SinkOp::Null);
    assert_eq!(cursor.column(9), SinkOp::Null);
    assert_eq!(cursor.column(10), SinkOp::Null);
    assert_eq!(cursor.column(4), SinkOp::Int64(10));
    assert_eq!(cursor.column(5), SinkOp::Int64(100));
    assert_eq!(cursor.column(6), SinkOp::Int64(200));
}

fn meta_with_stats(min_max: StatsMinMax, distinct: Option<i64>, nulls: Option<i64>) -> FileMeta {
    let mut meta = meta_with_shape(&[1]);
    meta.row_groups[0].columns[0].statistics =
        Some(ChunkStats { min_max, distinct_count: distinct, null_count: nulls });
    meta
}

#[test]
fn numeric_statistics_render_directly() {
    let mut cursor = ColumnChunksCursor::new();
    cursor.filter(meta_with_stats(StatsMinMax::Int32 { min: -3, max: 9 }, Some(4), Some(1)));
    assert_eq!(cursor.column(7), SinkOp::Int32(-3));
    assert_eq!(cursor.column(8), SinkOp::Int32(9));
    assert_eq!(cursor.column(9), SinkOp::Int64(4));
    assert_eq!(cursor.column(10), SinkOp::Int64(1));

    cursor.filter(meta_with_stats(StatsMinMax::Int64 { min: -7, max: 70 }, None, Some(0)));
    assert_eq!(cursor.column(7), SinkOp::Int64(-7));
    assert_eq!(cursor.column(8), SinkOp::Int64(70));
    // an unreported distinct count surfaces as null, never zero
    assert_eq!(cursor.column(9), SinkOp::Null);
    assert_eq!(cursor.column(10), SinkOp::Int64(0));
}

#[test]
fn float_statistics_render_as_doubles() {
    let (minb, maxb) = (1.5f64.to_bits(), 2.5f64.to_bits());
    let mut cursor = ColumnChunksCursor::new();
    cursor.filter(meta_with_stats(
        StatsMinMax::Double { min_bits: minb, max_bits: maxb },
        None,
        None,
    ));
    assert_eq!(cursor.column(7), SinkOp::Double { bits: minb });
    assert_eq!(cursor.column(8), SinkOp::Double { bits: maxb });
    assert_eq!(cursor.column(9), SinkOp::Null);
    assert_eq!(cursor.column(10), SinkOp::Null);

    let (sminb, smaxb) = (0.5f32.to_bits(), 4.5f32.to_bits());
    cursor.filter(meta_with_stats(
        StatsMinMax::Single { min_bits: sminb, max_bits: smaxb },
        None,
        None,
    ));
    assert_eq!(cursor.column(7), SinkOp::DoubleFromSingle { bits: sminb });
    assert_eq!(cursor.column(8), SinkOp::DoubleFromSingle { bits: smaxb });
}

#[test]
fn byte_array_statistics_render_as_text_or_blob() {
    let mut cursor = ColumnChunksCursor::new();
    cursor.filter(meta_with_stats(
        StatsMinMax::ByteArray { min: b"ba".to_vec(), max: b"zz".to_vec() },
        None,
        None,
    ));
    assert_eq!(cursor.column(7), SinkOp::Text("ba".to_string()));
    assert_eq!(cursor.column(8), SinkOp::Text("zz".to_string()));
    // bounds that are not valid UTF-8 stay raw rather than failing the scan
    cursor.filter(meta_with_stats(
        StatsMinMax::ByteArray { min: vec![0xff, 0xfe], max: b"ok".to_vec() },
        None,
        None,
    ));
    assert_eq!(cursor.column(7), SinkOp::Blob(vec![0xff, 0xfe]));
    assert_eq!(cursor.column(8), SinkOp::Text("ok".to_string()));
}

#[test]
fn unsupported_statistics_variants_yield_null_bounds() {
    let mut cursor = ColumnChunksCursor::new();
    cursor.filter(meta_with_stats(StatsMinMax::Unsupported, Some(2), Some(3)));
    assert_eq!(cursor.column(7), SinkOp::Null);
    assert_eq!(cursor.column(8), SinkOp::Null);
    assert_eq!(cursor.column(9), SinkOp::Int64(2));
    assert_eq!(cursor.column(10), SinkOp::Int64(3));
}

#[test]
fn table_schemas_declare_the_contracted_columns() {
    let (sql, _table) = MetadataTable::connect();
    assert_eq!(
        sql,
        "CREATE TABLE x(source hidden, version integer, created_by text, schema text, \
         num_rows integer, num_columns integer, num_row_groups integer)"
    );
    let (sql, _table) = ColumnChunksTable::connect();
    assert_eq!(
        sql,
        "CREATE TABLE x(source hidden, row_group integer, column_name text, column_type text, \
         num_values integer, compressed_size integer, uncompressed_size integer, stats_min, \
         stats_max, stats_distinct, stats_null_count)"
    );
}

#[test]
fn row_scan_schema_quotes_field_names_in_file_order() {
    let sql = ParquetTable::schema_sql(&vec![b"id".to_vec(), b"name two".to_vec()]);
    assert_eq!(sql, b"create table x(\"id\",\"name two\")".to_vec());
    let empty = ParquetTable::schema_sql(&vec![]);
    assert_eq!(empty, b"create table x()".to_vec());
    let one = ParquetTable::schema_sql(&vec![b"only".to_vec()]);
    assert_eq!(one, b"create table x(\"only\")".to_vec());
}

#[test]
fn table_path_comes_from_the_last_argument_value() {
    let table = ParquetTable::from_args(&vec![b"  source='/data/x.parquet'  ".to_vec()]).unwrap();
    assert_eq!(table.path(), &b"/data/x.parquet".to_vec());
    // the last argument wins
    let table = ParquetTable::from_args(&vec![
        b"a='first'".to_vec(),
        b"b='second'".to_vec(),
    ])
    .unwrap();
    assert_eq!(table.path(), &b"second".to_vec());
    // a bare or empty value strips to nothing
    let table = ParquetTable::from_args(&vec![b"src=''".to_vec()]).unwrap();
    assert_eq!(table.path(), &b"".to_vec());
}

#[test]
fn malformed_or_missing_arguments_are_rejected() {
    assert!(ParquetTable::from_args(&vec![]).is_none());
    assert!(ParquetTable::from_args(&vec![b"no equals sign".to_vec()]).is_none());
    assert!(
        ParquetTable::from_args(&vec![b"good='x'".to_vec(), b"bad".to_vec()]).is_none()
    );
}

#[test]
fn row_scan_cursor_reflects_the_handed_rows() {
    let table = ParquetTable::from_args(&vec![b"source='f'".to_vec()]).unwrap();
    let mut cursor = table.open();
    assert!(cursor.eof());
    cursor.advance(Some(vec![FieldValue::Int32(7), FieldValue::Str("x".to_string())]));
    assert!(!cursor.eof());
    assert_eq!(cursor.column(0), Ok(SinkOp::Int32(7)));
    assert_eq!(cursor.column(1), Ok(SinkOp::Text("x".to_string())));
    assert_eq!(cursor.rowid(), 1);
    cursor.advance(Some(vec![FieldValue::UInt64(u64::MAX)]));
    assert_eq!(cursor.column(0), Err(CoerceError::ValueTooLarge));
    cursor.advance(None);
    assert!(cursor.eof());
}

#[test]
fn parquet_cursor_is_empty_until_a_row_arrives() {
    let mut cursor = ParquetCursor::new();
    assert!(cursor.eof());
    cursor.advance(Some(vec![FieldValue::Null]));
    assert!(!cursor.eof());
    assert_eq!(cursor.column(0), Ok(SinkOp::Null));
}

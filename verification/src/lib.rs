//! A columnar-file virtual-table engine: constraint negotiation, cursor
//! state machines over a two-level (row group / column chunk) layout, and
//! coercion of a variant-typed field value model into a dynamic sink value
//! model.

pub mod chunk_cursor;
pub mod coerce;
pub mod connect;
pub mod file_meta;
pub mod layout;
pub mod metadata_cursor;
pub mod plan;
pub mod row_scan;
pub mod text;
pub mod values;

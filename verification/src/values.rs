//! The variant-typed field value model of the decoded file format, the sink
//! write operations of the host query engine, and their mathematical views.
//!
//! The verified core holds no floating-point values: a single- or
//! double-precision payload is carried as its raw IEEE 754 bit pattern, which
//! the unverified boundary produces and consumes. Widening a single-precision
//! value to double is exact, so nothing is lost by deferring it to the sink.

use vstd::prelude::*;

verus! {

/// One decoded field value, as handed in by the file decoder.
#[derive(Debug, Clone, PartialEq)]
pub enum FieldValue {
    Null,
    Bool(bool),
    Int8(i8),
    Int16(i16),
    Int32(i32),
    Int64(i64),
    UInt8(u8),
    UInt16(u16),
    UInt32(u32),
    UInt64(u64),
    /// Single-precision float, as its raw bit pattern.
    Single { bits: u32 },
    /// Double-precision float, as its raw bit pattern.
    Double { bits: u64 },
    /// Fixed-point decimal: the raw unscaled big-endian bytes with the
    /// declared precision and scale.
    Decimal { unscaled: Vec<u8>, precision: i32, scale: i32 },
    Str(String),
    Bytes(Vec<u8>),
    /// Days since the Unix epoch (1970-01-01).
    Date { days: i32 },
    /// Milliseconds since the Unix epoch.
    TimestampMillis { millis: i64 },
    /// Microseconds since the Unix epoch.
    TimestampMicros { micros: i64 },
    /// A list, map or nested record, already rendered by the decoder's own
    /// JSON printer; the cursor passes the rendering through unchanged.
    Compound { json: String },
}

/// Mathematical view of a `FieldValue`.
pub enum FieldModel {
    Null,
    Bool(bool),
    Int8(i8),
    Int16(i16),
    Int32(i32),
    Int64(i64),
    UInt8(u8),
    UInt16(u16),
    UInt32(u32),
    UInt64(u64),
    Single { bits: u32 },
    Double { bits: u64 },
    Decimal { unscaled: Seq<u8>, precision: i32, scale: i32 },
    Str(Seq<char>),
    Bytes(Seq<u8>),
    Date { days: i32 },
    TimestampMillis { millis: i64 },
    TimestampMicros { micros: i64 },
    Compound { json: Seq<char> },
}

impl View for FieldValue {
    type V = FieldModel;

    open spec fn view(&self) -> FieldModel {
        match self {
            FieldValue::Null => FieldModel::Null,
            FieldValue::Bool(b) => FieldModel::Bool(*b),
            FieldValue::Int8(x) => FieldModel::Int8(*x),
            FieldValue::Int16(x) => FieldModel::Int16(*x),
            FieldValue::Int32(x) => FieldModel::Int32(*x),
            FieldValue::Int64(x) => FieldModel::Int64(*x),
            FieldValue::UInt8(x) => FieldModel::UInt8(*x),
            FieldValue::UInt16(x) => FieldModel::UInt16(*x),
            FieldValue::UInt32(x) => FieldModel::UInt32(*x),
            FieldValue::UInt64(x) => FieldModel::UInt64(*x),
            FieldValue::Single { bits } => FieldModel::Single { bits: *bits },
            FieldValue::Double { bits } => FieldModel::Double { bits: *bits },
            FieldValue::Decimal { unscaled, precision, scale } => (FieldModel::Decimal {
                unscaled: unscaled@,
                precision: *precision,
                scale: *scale,
            }),
            FieldValue::Str(s) => FieldModel::Str(s@),
            FieldValue::Bytes(b) => FieldModel::Bytes(b@),
            FieldValue::Date { days } => FieldModel::Date { days: *days },
            FieldValue::TimestampMillis { millis } => (FieldModel::TimestampMillis {
                millis: *millis,
            }),
            FieldValue::TimestampMicros { micros } => (FieldModel::TimestampMicros {
                micros: *micros,
            }),
            FieldValue::Compound { json } => FieldModel::Compound { json: json@ },
        }
    }
}

/// One typed write through the host engine's output sink.
#[derive(Debug, Clone, PartialEq)]
pub enum SinkOp {
    Null,
    Bool(bool),
    Int32(i32),
    Int64(i64),
    /// Write a double, given as its raw bit pattern.
    Double { bits: u64 },
    /// Write a double that originates from a single-precision value, given as
    /// the single-precision bit pattern; the sink widens it exactly.
    DoubleFromSingle { bits: u32 },
    Text(String),
    Blob(Vec<u8>),
    /// Write a JSON document, given as its text.
    Json(String),
}

/// Mathematical view of a `SinkOp`.
pub enum SinkModel {
    Null,
    Bool(bool),
    Int32(i32),
    Int64(i64),
    Double { bits: u64 },
    DoubleFromSingle { bits: u32 },
    Text(Seq<char>),
    Blob(Seq<u8>),
    Json(Seq<char>),
}

impl View for SinkOp {
    type V = SinkModel;

    open spec fn view(&self) -> SinkModel {
        match self {
            SinkOp::Null => SinkModel::Null,
            SinkOp::Bool(b) => SinkModel::Bool(*b),
            SinkOp::Int32(x) => SinkModel::Int32(*x),
            SinkOp::Int64(x) => SinkModel::Int64(*x),
            SinkOp::Double { bits } => SinkModel::Double { bits: *bits },
            SinkOp::DoubleFromSingle { bits } => SinkModel::DoubleFromSingle { bits: *bits },
            SinkOp::Text(s) => SinkModel::Text(s@),
            SinkOp::Blob(b) => SinkModel::Blob(b@),
            SinkOp::Json(s) => SinkModel::Json(s@),
        }
    }
}

/// Why a coercion failed. Every failure is terminal for the current scan.
#[derive(Debug, Clone, Copy, PartialEq, Eq, Structural)]
pub enum CoerceError {
    /// An unsigned 64-bit value above the signed 64-bit range.
    ValueTooLarge,
    /// A day number outside the calendar range the renderer supports.
    DateOutOfRange,
    /// A timestamp outside the calendar range the renderer supports.
    TimestampOutOfRange,
}

} // verus!

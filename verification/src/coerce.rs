//! The value coercion layer: a pure, exhaustive mapping from a decoded field
//! value to one sink write operation (or a hard error, never a silent
//! truncation).

use vstd::prelude::*;

use crate::text::{civil_date_text, civil_datetime_text, render_ce_date, render_timestamp};
use crate::values::{CoerceError, FieldModel, FieldValue, SinkModel, SinkOp};

verus! {

/// Day number of the Unix epoch (1970-01-01) in the proleptic Gregorian
/// calendar counted from the common era, the fixed offset between the file
/// format's date epoch and the calendar renderer's.
pub const CE_DAYS_AT_UNIX_EPOCH: i32 = 719163;

pub const MICROS_PER_SECOND: i64 = 1000000;

/// What coercing a field value yields, for every field value.
///
/// - 8- and 16-bit integers widen to the 32-bit sink integer; 32-bit unsigned
///   values that no longer fit widen to the 64-bit one.
/// - An unsigned 64-bit value above the signed 64-bit range is a hard error.
/// - Floats pass through as doubles; a decimal passes through as its raw
///   unscaled bytes; a compound value passes through as its JSON rendering.
/// - A date renders as a calendar date; a microsecond timestamp renders as a
///   date-time with a millisecond fraction (truncated); a millisecond
///   timestamp passes through as a raw integer.
pub open spec fn coerce_spec(v: FieldModel) -> Result<SinkModel, CoerceError> {
    match v {
        FieldModel::Null => Ok(SinkModel::Null),
        FieldModel::Bool(b) => Ok(SinkModel::Bool(b)),
        FieldModel::Int8(x) => Ok(SinkModel::Int32(x as i32)),
        FieldModel::Int16(x) => Ok(SinkModel::Int32(x as i32)),
        FieldModel::Int32(x) => Ok(SinkModel::Int32(x)),
        FieldModel::Int64(x) => Ok(SinkModel::Int64(x)),
        FieldModel::UInt8(x) => Ok(SinkModel::Int32(x as i32)),
        FieldModel::UInt16(x) => Ok(SinkModel::Int32(x as i32)),
        FieldModel::UInt32(x) => if x <= i32::MAX as u32 {
            Ok(SinkModel::Int32(x as i32))
        } else {
            Ok(SinkModel::Int64(x as i64))
        },
        FieldModel::UInt64(x) => if x <= i64::MAX as u64 {
            Ok(SinkModel::Int64(x as i64))
        } else {
            Err(CoerceError::ValueTooLarge)
        },
        FieldModel::Single { bits } => Ok(SinkModel::DoubleFromSingle { bits }),
        FieldModel::Double { bits } => Ok(SinkModel::Double { bits }),
        FieldModel::Decimal { unscaled, precision, scale } => Ok(SinkModel::Blob(unscaled)),
        FieldModel::Str(s) => Ok(SinkModel::Text(s)),
        FieldModel::Bytes(b) => Ok(SinkModel::Blob(b)),
        FieldModel::Date { days } => {
            let ce = days as int + CE_DAYS_AT_UNIX_EPOCH as int;
            if ce > i32::MAX as int {
                Err(CoerceError::DateOutOfRange)
            } else {
                match civil_date_text(ce) {
                    Some(t) => Ok(SinkModel::Text(t)),
                    None => Err(CoerceError::DateOutOfRange),
                }
            }
        },
        FieldModel::TimestampMillis { millis } => Ok(SinkModel::Int64(millis)),
        FieldModel::TimestampMicros { micros } => {
            let secs = micros as int / MICROS_PER_SECOND as int;
            let nanos = (micros as int % MICROS_PER_SECOND as int) * 1000;
            match civil_datetime_text(secs, nanos) {
                Some(t) => Ok(SinkModel::Text(t)),
                None => Err(CoerceError::TimestampOutOfRange),
            }
        },
        FieldModel::Compound { json } => Ok(SinkModel::Json(json)),
    }
}

/// The view of a coercion result.
pub open spec fn coerce_result_model(r: Result<SinkOp, CoerceError>) -> Result<
    SinkModel,
    CoerceError,
> {
    match r {
        Ok(op) => Ok(op@),
        Err(e) => Err(e),
    }
}

/// Coerce one field value into one sink write operation, exactly as
/// `coerce_spec` says.
pub fn coerce_field(v: &FieldValue) -> (r: Result<SinkOp, CoerceError>)
    ensures
        coerce_result_model(r) == coerce_spec(v@),
{
    match v {
        FieldValue::Null => Ok(SinkOp::Null),
        FieldValue::Bool(b) => Ok(SinkOp::Bool(*b)),
        FieldValue::Int8(x) => Ok(SinkOp::Int32(*x as i32)),
        FieldValue::Int16(x) => Ok(SinkOp::Int32(*x as i32)),
        FieldValue::Int32(x) => Ok(SinkOp::Int32(*x)),
        FieldValue::Int64(x) => Ok(SinkOp::Int64(*x)),
        FieldValue::UInt8(x) => Ok(SinkOp::Int32(*x as i32)),
        FieldValue::UInt16(x) => Ok(SinkOp::Int32(*x as i32)),
        FieldValue::UInt32(x) => {
            if *x <= i32::MAX as u32 {
                Ok(SinkOp::Int32(*x as i32))
            } else {
                Ok(SinkOp::Int64(*x as i64))
            }
        },
        FieldValue::UInt64(x) => {
            if *x <= i64::MAX as u64 {
                Ok(SinkOp::Int64(*x as i64))
            } else {
                Err(CoerceError::ValueTooLarge)
            }
        },
        FieldValue::Single { bits } => Ok(SinkOp::DoubleFromSingle { bits: *bits }),
        FieldValue::Double { bits } => Ok(SinkOp::Double { bits: *bits }),
        FieldValue::Decimal { unscaled, .. } => Ok(SinkOp::Blob(copy_bytes(unscaled))),
        FieldValue::Str(s) => Ok(SinkOp::Text(s.clone())),
        FieldValue::Bytes(b) => Ok(SinkOp::Blob(copy_bytes(b))),
        FieldValue::Date { days } => {
            let ce: i64 = *days as i64 + CE_DAYS_AT_UNIX_EPOCH as i64;
            if ce > i32::MAX as i64 {
                Err(CoerceError::DateOutOfRange)
            } else {
                match render_ce_date(ce as i32) {
                    Some(t) => Ok(SinkOp::Text(t)),
                    None => Err(CoerceError::DateOutOfRange),
                }
            }
        },
        FieldValue::TimestampMillis { millis } => Ok(SinkOp::Int64(*millis)),
        FieldValue::TimestampMicros { micros } => {
            let secs: i64 = micros.checked_div_euclid(MICROS_PER_SECOND).unwrap();
            let frac: i64 = micros.checked_rem_euclid(MICROS_PER_SECOND).unwrap();
            let nanos: u32 = (frac as u32) * 1000;
            match render_timestamp(secs, nanos) {
                Some(t) => Ok(SinkOp::Text(t)),
                None => Err(CoerceError::TimestampOutOfRange),
            }
        },
        FieldValue::Compound { json } => Ok(SinkOp::Json(json.clone())),
    }
}

/// Coercion is a pure mapping: any two coercions of one field value agree.
/// Each call of `coerce_field` yields `coerce_spec` of its argument and of
/// nothing else, so decoding the same field value twice yields identical
/// sink operations.
pub proof fn lemma_coercion_deterministic(
    v: FieldModel,
    r1: Result<SinkModel, CoerceError>,
    r2: Result<SinkModel, CoerceError>,
)
    requires
        r1 == coerce_spec(v),
        r2 == coerce_spec(v),
    ensures
        r1 == r2,
{
}

/// Copy a byte vector. Written out so that the contract over the bytes'
/// sequence is proved rather than taken from a derived `Clone`.
pub(crate) fn copy_bytes(src: &Vec<u8>) -> (r: Vec<u8>)
    ensures
        r@ == src@,
{
    let mut out: Vec<u8> = Vec::new();
    let mut i: usize = 0;
    while i < src.len()
        invariant
            i <= src.len(),
            out@ == src@.subrange(0, i as int),
        decreases src.len() - i,
    {
        out.push(src[i]);
        i = i + 1;
    }
    proof {
        assert(out@ == src@);
    }
    out
}

} // verus!

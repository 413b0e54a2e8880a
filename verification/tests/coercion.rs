//! Tests for the value coercion layer: widening, range errors, calendar
//! renderings, and pass-through payloads.

use parquet_vtab::coerce::coerce_field;
use parquet_vtab::values::{CoerceError, FieldValue, SinkOp};

#[test]
fn null_and_bool_pass_through() {
    assert_eq!(coerce_field(&FieldValue::Null), Ok(SinkOp::Null));
    assert_eq!(coerce_field(&FieldValue::Bool(true)), Ok(SinkOp::Bool(true)));
    assert_eq!(coerce_field(&FieldValue::Bool(false)), Ok(SinkOp::Bool(false)));
}

#[test]
fn narrow_integers_widen_to_int32() {
    assert_eq!(coerce_field(&FieldValue::Int8(-7)), Ok(SinkOp::Int32(-7)));
    assert_eq!(coerce_field(&FieldValue::UInt8(200)), Ok(SinkOp::Int32(200)));
    assert_eq!(coerce_field(&FieldValue::Int16(-30000)), Ok(SinkOp::Int32(-30000)));
    assert_eq!(coerce_field(&FieldValue::UInt16(65535)), Ok(SinkOp::Int32(65535)));
    assert_eq!(coerce_field(&FieldValue::Int32(123456)), Ok(SinkOp::Int32(123456)));
}

#[test]
fn uint32_widens_to_int64_only_when_needed() {
    assert_eq!(coerce_field(&FieldValue::UInt32(2147483647)), Ok(SinkOp::Int32(2147483647)));
    assert_eq!(coerce_field(&FieldValue::UInt32(2147483648)), Ok(SinkOp::Int64(2147483648)));
}

#[test]
fn uint64_at_the_signed_boundary() {
    // 2^63 - 1 still fits the signed 64-bit sink integer
    assert_eq!(
        coerce_field(&FieldValue::UInt64(9223372036854775807)),
        Ok(SinkOp::Int64(9223372036854775807))
    );
    // exactly 2^63 is a hard error, not a wrapped or truncated value
    assert_eq!(
        coerce_field(&FieldValue::UInt64(9223372036854775808)),
        Err(CoerceError::ValueTooLarge)
    );
}

#[test]
fn coercion_is_deterministic() {
    let v = FieldValue::TimestampMicros { micros: 1_500_000 };
    assert_eq!(coerce_field(&v), coerce_field(&v));
    let w = FieldValue::Str("same".to_string());
    assert_eq!(coerce_field(&w), coerce_field(&w));
}

#[test]
fn floats_pass_through_as_bit_patterns() {
    let bits = 2.5f64.to_bits();
    assert_eq!(coerce_field(&FieldValue::Double { bits }), Ok(SinkOp::Double { bits }));
    let sbits = 1.25f32.to_bits();
    assert_eq!(
        coerce_field(&FieldValue::Single { bits: sbits }),
        Ok(SinkOp::DoubleFromSingle { bits: sbits })
    );
}

#[test]
fn decimal_passes_through_raw_unscaled_bytes() {
    let v = FieldValue::Decimal { unscaled: vec![1, 2, 3], precision: 9, scale: 2 };
    assert_eq!(coerce_field(&v), Ok(SinkOp::Blob(vec![1, 2, 3])));
}

#[test]
fn text_bytes_and_compound_pass_through() {
    assert_eq!(
        coerce_field(&FieldValue::Str("hello".to_string())),
        Ok(SinkOp::Text("hello".to_string()))
    );
    assert_eq!(coerce_field(&FieldValue::Bytes(vec![0, 255])), Ok(SinkOp::Blob(vec![0, 255])));
    assert_eq!(
        coerce_field(&FieldValue::Compound { json: "[1,2]".to_string() }),
        Ok(SinkOp::Json("[1,2]".to_string()))
    );
}

#[test]
fn date_zero_renders_as_the_epoch_date() {
    assert_eq!(
        coerce_field(&FieldValue::Date { days: 0 }),
        Ok(SinkOp::Text("1970-01-01".to_string()))
    );
}

#[test]
fn dates_render_from_the_epoch_offset() {
    assert_eq!(
        coerce_field(&FieldValue::Date { days: -1 }),
        Ok(SinkOp::Text("1969-12-31".to_string()))
    );
    assert_eq!(
        coerce_field(&FieldValue::Date { days: 19000 }),
        Ok(SinkOp::Text("2022-01-08".to_string()))
    );
}

#[test]
fn date_out_of_calendar_range_is_an_error() {
    assert_eq!(
        coerce_field(&FieldValue::Date { days: i32::MAX }),
        Err(CoerceError::DateOutOfRange)
    );
    assert_eq!(
        coerce_field(&FieldValue::Date { days: 200_000_000 }),
        Err(CoerceError::DateOutOfRange)
    );
}

#[test]
fn millisecond_timestamps_pass_through_as_integers() {
    assert_eq!(
        coerce_field(&FieldValue::TimestampMillis { millis: 1_500 }),
        Ok(SinkOp::Int64(1_500))
    );
    assert_eq!(
        coerce_field(&FieldValue::TimestampMillis { millis: -42 }),
        Ok(SinkOp::Int64(-42))
    );
}

#[test]
fn microsecond_timestamp_renders_three_truncated_fraction_digits() {
    // 1.5 s: exactly three fractional digits
    assert_eq!(
        coerce_field(&FieldValue::TimestampMicros { micros: 1_500_000 }),
        Ok(SinkOp::Text("1970-01-01 00:00:01.500".to_string()))
    );
    // 1.999999 s truncates to .999; it must not round up to 02.000
    assert_eq!(
        coerce_field(&FieldValue::TimestampMicros { micros: 1_999_999 }),
        Ok(SinkOp::Text("1970-01-01 00:00:01.999".to_string()))
    );
}

#[test]
fn negative_microsecond_timestamp_renders_before_the_epoch() {
    assert_eq!(
        coerce_field(&FieldValue::TimestampMicros { micros: -1_000_000 }),
        Ok(SinkOp::Text("1969-12-31 23:59:59.000".to_string()))
    );
}

#[test]
fn microsecond_timestamp_out_of_calendar_range_is_an_error() {
    assert_eq!(
        coerce_field(&FieldValue::TimestampMicros { micros: i64::MAX }),
        Err(CoerceError::TimestampOutOfRange)
    );
}

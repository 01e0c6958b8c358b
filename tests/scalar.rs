use hangouts_rs::{
    decode_integer, decode_timestamp, decode_unsigned, encode_timestamp, parse_timestamp,
    AbsoluteTime, ConversionError, IntErrorKind, TimestampUnit, MAX_UTC_SECS, MIN_UTC_SECS,
};

#[test]
fn integer_plain_and_signed() {
    assert_eq!(decode_integer("0"), Ok(0));
    assert_eq!(decode_integer("42"), Ok(42));
    assert_eq!(decode_integer("+42"), Ok(42));
    assert_eq!(decode_integer("-42"), Ok(-42));
    assert_eq!(decode_integer("007"), Ok(7));
}

#[test]
fn integer_extremes() {
    assert_eq!(decode_integer("9223372036854775807"), Ok(i64::MAX));
    assert_eq!(decode_integer("-9223372036854775808"), Ok(i64::MIN));
    assert_eq!(decode_integer("9223372036854775808"), Err(IntErrorKind::PosOverflow));
    assert_eq!(decode_integer("-9223372036854775809"), Err(IntErrorKind::NegOverflow));
}

#[test]
fn integer_rejects_non_numeric() {
    assert_eq!(decode_integer(""), Err(IntErrorKind::Empty));
    assert_eq!(decode_integer("-"), Err(IntErrorKind::InvalidDigit));
    assert_eq!(decode_integer("+"), Err(IntErrorKind::InvalidDigit));
    assert_eq!(decode_integer("12a"), Err(IntErrorKind::InvalidDigit));
    assert_eq!(decode_integer(" 1"), Err(IntErrorKind::InvalidDigit));
    assert_eq!(decode_integer("1.5"), Err(IntErrorKind::InvalidDigit));
}

#[test]
fn unsigned_decoding() {
    assert_eq!(decode_unsigned("3600"), Ok(3600));
    assert_eq!(decode_unsigned("+5"), Ok(5));
    assert_eq!(decode_unsigned("18446744073709551615"), Ok(u64::MAX));
    assert_eq!(decode_unsigned("18446744073709551616"), Err(IntErrorKind::PosOverflow));
    assert_eq!(decode_unsigned("-1"), Err(IntErrorKind::InvalidDigit));
    assert_eq!(decode_unsigned(""), Err(IntErrorKind::Empty));
}

fn parts(t: &AbsoluteTime) -> (i64, u32) {
    (t.timestamp(), t.timestamp_subsec_nanos())
}

#[test]
fn timestamp_units_split() {
    let t = decode_timestamp(1_500_000_123, TimestampUnit::Microseconds).unwrap();
    assert_eq!(parts(&t), (1500, 123_000));
    let t = decode_timestamp(1_500_123, TimestampUnit::Milliseconds).unwrap();
    assert_eq!(parts(&t), (1500, 123_000_000));
    let t = decode_timestamp(1_500, TimestampUnit::Seconds).unwrap();
    assert_eq!(parts(&t), (1500, 0));
}

#[test]
fn timestamp_before_epoch() {
    let t = decode_timestamp(-1, TimestampUnit::Microseconds).unwrap();
    assert_eq!(parts(&t), (-1, 999_999_000));
    let t = decode_timestamp(-1_500, TimestampUnit::Milliseconds).unwrap();
    assert_eq!(parts(&t), (-2, 500_000_000));
}

#[test]
fn timestamp_round_trip_each_unit() {
    let units = [TimestampUnit::Seconds, TimestampUnit::Milliseconds, TimestampUnit::Microseconds];
    let values: [i64; 7] = [0, 1, -1, 1_431_648_000_123_456, -987_654_321, 999_999, -1_000_000];
    for unit in units {
        for v in values {
            if let Ok(t) = decode_timestamp(v, unit) {
                assert_eq!(encode_timestamp(&t, unit), v);
            }
        }
    }
    let largest = MAX_UTC_SECS * 1_000_000 + 999_999;
    let t = decode_timestamp(largest, TimestampUnit::Microseconds).unwrap();
    assert_eq!(encode_timestamp(&t, TimestampUnit::Microseconds), largest);
    let smallest = MIN_UTC_SECS * 1_000_000;
    let t = decode_timestamp(smallest, TimestampUnit::Microseconds).unwrap();
    assert_eq!(encode_timestamp(&t, TimestampUnit::Microseconds), smallest);
    let e = decode_timestamp(i64::MAX, TimestampUnit::Microseconds).unwrap_err();
    assert_eq!(e, ConversionError::TimestampOutOfRange { value: i64::MAX });
    let e = decode_timestamp(i64::MIN, TimestampUnit::Microseconds).unwrap_err();
    assert_eq!(e, ConversionError::TimestampOutOfRange { value: i64::MIN });
}

#[test]
fn timestamp_range_limits() {
    assert!(decode_timestamp(MAX_UTC_SECS, TimestampUnit::Seconds).is_ok());
    assert!(decode_timestamp(MIN_UTC_SECS, TimestampUnit::Seconds).is_ok());
    assert_eq!(
        decode_timestamp(MAX_UTC_SECS + 1, TimestampUnit::Seconds).unwrap_err(),
        ConversionError::TimestampOutOfRange { value: MAX_UTC_SECS + 1 }
    );
    assert_eq!(
        decode_timestamp(MIN_UTC_SECS - 1, TimestampUnit::Seconds).unwrap_err(),
        ConversionError::TimestampOutOfRange { value: MIN_UTC_SECS - 1 }
    );
}

#[test]
fn timestamp_from_text() {
    let t = parse_timestamp("1431648000000000", TimestampUnit::Microseconds).unwrap();
    assert_eq!(parts(&t), (1_431_648_000, 0));
    assert_eq!(
        parse_timestamp("soon", TimestampUnit::Microseconds).unwrap_err(),
        ConversionError::ParseInt(IntErrorKind::InvalidDigit)
    );
    assert_eq!(
        parse_timestamp("", TimestampUnit::Seconds).unwrap_err(),
        ConversionError::ParseInt(IntErrorKind::Empty)
    );
}

#[test]
fn instant_from_parts() {
    let t = AbsoluteTime::from_parts(10, 5).unwrap();
    assert_eq!(parts(&t), (10, 5));
    assert!(AbsoluteTime::from_parts(10, 1_000_000_000).is_none());
    assert!(AbsoluteTime::from_parts(MAX_UTC_SECS + 1, 0).is_none());
}

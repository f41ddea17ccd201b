use yandex_pay_api::decimal::{decode_decimal, encode_decimal, Decimal, DecodeError};
use yandex_pay_api::json::{get_member, read_document, read_timestamp};
use yandex_pay_api::timestamp::{
    decode_timestamp, encode_timestamp, midnight_utc, settle_reading, CalendarDate, Rfc3339Failure, Timestamp,
};

fn dec(mantissa: i64, scale: u32) -> Decimal {
    Decimal { mantissa, scale }
}

fn ts(year: i32, month: u32, day: u32, hour: u32, minute: u32, second: u32, nanosecond: u32) -> Timestamp {
    Timestamp { year, month, day, hour, minute, second, nanosecond }
}

#[test]
fn decimal_decodes_amount() {
    assert_eq!(decode_decimal("123.45"), Ok(dec(12345, 2)));
}

#[test]
fn decimal_rejects_letters() {
    assert_eq!(decode_decimal("abc"), Err(DecodeError::MalformedNumber));
}

#[test]
fn decimal_encodes_canonical_text() {
    assert_eq!(encode_decimal(dec(12345, 2)), "123.45");
    assert_eq!(encode_decimal(dec(100, 0)), "100");
    assert_eq!(encode_decimal(dec(-5, 1)), "-0.5");
    assert_eq!(encode_decimal(dec(5, 3)), "0.005");
    assert_eq!(encode_decimal(dec(0, 0)), "0");
    assert_eq!(encode_decimal(dec(i64::MIN, 0)), "-9223372036854775808");
    assert_eq!(encode_decimal(dec(2999999, 2)), "29999.99");
}

#[test]
fn decimal_round_trips() {
    let values = [
        dec(12345, 2),
        dec(100, 0),
        dec(-5, 1),
        dec(50, 3),
        dec(0, 4),
        dec(i64::MAX, 0),
        dec(i64::MIN, 2),
        dec(7, 30),
    ];
    for v in values {
        assert_eq!(decode_decimal(&encode_decimal(v)), Ok(v));
    }
}

#[test]
fn decimal_keeps_trailing_zeros_as_scale() {
    assert_eq!(decode_decimal("0.050"), Ok(dec(50, 3)));
    assert_eq!(decode_decimal("100.00"), Ok(dec(10000, 2)));
    assert_eq!(decode_decimal("007"), Ok(dec(7, 0)));
    assert_eq!(decode_decimal("-0"), Ok(dec(0, 0)));
}

#[test]
fn decimal_rejects_malformed_text() {
    for text in ["", "-", "1.", ".5", "1.2.3", "+1", "1e5", " 1", "1 ", "--1", "12a", "1.a", "١٢"] {
        assert_eq!(decode_decimal(text), Err(DecodeError::MalformedNumber), "{}", text);
    }
}

#[test]
fn decimal_limits_of_mantissa() {
    assert_eq!(decode_decimal("9223372036854775807"), Ok(dec(i64::MAX, 0)));
    assert_eq!(decode_decimal("-9223372036854775808"), Ok(dec(i64::MIN, 0)));
    assert_eq!(decode_decimal("9223372036854775808"), Err(DecodeError::MalformedNumber));
    assert_eq!(decode_decimal("-9223372036854775809"), Err(DecodeError::MalformedNumber));
    assert_eq!(decode_decimal("92233720368547758.08"), Err(DecodeError::MalformedNumber));
    assert_eq!(decode_decimal("99999999999999999999999"), Err(DecodeError::MalformedNumber));
}

#[test]
fn timestamp_bare_date_is_midnight_utc() {
    assert_eq!(decode_timestamp("2022-12-29"), Ok(ts(2022, 12, 29, 0, 0, 0, 0)));
}

#[test]
fn timestamp_rejects_non_dates() {
    assert_eq!(decode_timestamp("not-a-date"), Err(DecodeError::MalformedTimestamp));
    assert_eq!(decode_timestamp("2022-13-45"), Err(DecodeError::MalformedTimestamp));
    assert_eq!(decode_timestamp("2025-05-11X19:21:09Z"), Err(DecodeError::MalformedTimestamp));
    assert_eq!(decode_timestamp(""), Err(DecodeError::MalformedTimestamp));
}

#[test]
fn timestamp_reads_rfc3339() {
    assert_eq!(decode_timestamp("2025-05-11T19:21:09Z"), Ok(ts(2025, 5, 11, 19, 21, 9, 0)));
    assert_eq!(decode_timestamp("2025-05-11T22:21:09.5+03:00"), Ok(ts(2025, 5, 11, 19, 21, 9, 500_000_000)));
}

#[test]
fn timestamp_writes_full_rfc3339() {
    assert_eq!(encode_timestamp(&ts(2025, 5, 11, 19, 21, 9, 0)), "2025-05-11T19:21:09Z");
    assert_eq!(encode_timestamp(&ts(2022, 12, 29, 0, 0, 0, 0)), "2022-12-29T00:00:00Z");
    assert_eq!(encode_timestamp(&ts(2024, 2, 29, 23, 59, 59, 250_000_000)), "2024-02-29T23:59:59.250Z");
}

#[test]
fn timestamp_rfc3339_keeps_instant() {
    for text in ["2025-05-11T19:21:09Z", "2025-05-11T22:21:09+03:00", "1999-12-31T23:59:59.123456789-00:30"] {
        let t = decode_timestamp(text).unwrap();
        let again = decode_timestamp(&encode_timestamp(&t)).unwrap();
        assert_eq!(again, t, "{}", text);
    }
}

#[test]
fn timestamp_settles_readings() {
    let date = CalendarDate { year: 2022, month: 12, day: 29 };
    let t = ts(2025, 5, 11, 19, 21, 9, 0);
    assert_eq!(settle_reading(Ok(t), Some(date)), Ok(t));
    assert_eq!(settle_reading(Err(Rfc3339Failure::TooShort), Some(date)), Ok(midnight_utc(date)));
    assert_eq!(settle_reading(Err(Rfc3339Failure::TooShort), None), Err(DecodeError::MalformedTimestamp));
    assert_eq!(settle_reading(Err(Rfc3339Failure::Invalid), Some(date)), Err(DecodeError::MalformedTimestamp));
}

#[test]
fn test_option_iso8601() {
    let json = r#"
        {
            "from_date": "2022-12-29",
            "from_date2": "2025-05-11T19:21:09Z"
        }
        "#;
    let doc = read_document(json).unwrap();
    let from_date = get_member(&doc, "from_date").map(|j| read_timestamp(j).unwrap());
    let from_date2 = read_timestamp(get_member(&doc, "from_date2").unwrap()).unwrap();
    println!("{:?} {:?}", from_date, from_date2);
    assert_eq!(from_date, Some(ts(2022, 12, 29, 0, 0, 0, 0)));
    assert_eq!(from_date2, ts(2025, 5, 11, 19, 21, 9, 0));
}

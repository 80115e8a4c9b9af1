//! Round trips and edge cases of the value codec.

use mimerrust::types::{MimerDatatype, ToSql, FromSql, Uuid, Point, GisLocation};
use mimerrust::temporal::{Date, Time, Timestamp, format_date, parse_date, format_time, parse_time,
    format_timestamp, parse_timestamp, is_leap_year, days_in_month};
use mimerrust::codes::ERR_UNSUPPORTED_CONVERSION;

#[test]
fn round_trip_integer() {
    let v: i32 = 1;
    assert_eq!(i32::from_sql(v.to_sql()).unwrap(), 1);
    let v: i32 = -2147483648;
    assert_eq!(i32::from_sql(v.to_sql()).unwrap(), -2147483648);
}

#[test]
fn round_trip_big_integer() {
    let v: i64 = 9223372036854775807;
    assert_eq!(i64::from_sql(v.to_sql()).unwrap(), 9223372036854775807);
}

#[test]
fn round_trip_string() {
    let v = String::from("hello world");
    assert_eq!(String::from_sql(v.to_sql()).unwrap(), "hello world");
}

#[test]
fn round_trip_bool() {
    assert_eq!(bool::from_sql(true.to_sql()).unwrap(), true);
    assert_eq!(bool::from_sql(false.to_sql()).unwrap(), false);
}

#[test]
fn round_trip_binary() {
    let v: Vec<u8> = vec![1, 2, 3, 4];
    assert_eq!(Vec::<u8>::from_sql(v.to_sql()).unwrap(), vec![1, 2, 3, 4]);
}

#[test]
fn round_trip_uuid() {
    let bytes: Vec<u8> = vec![0, 1, 2, 3, 4, 5, 6, 7, 8, 9, 10, 11, 12, 13, 14, 15];
    let u = Uuid::from_bytes(bytes.clone());
    let back = Uuid::from_sql(u.to_sql()).unwrap();
    assert_eq!(back.bytes, bytes);
}

#[test]
fn uuid_wrong_length_is_rejected() {
    let r = Uuid::from_sql(MimerDatatype::BinaryArray(vec![1, 2, 3]));
    assert_eq!(r.unwrap_err(), ERR_UNSUPPORTED_CONVERSION);
}

#[test]
fn round_trip_point() {
    let p = Point::new(43, -32);
    let back = Point::from_sql(p.to_sql()).unwrap();
    assert_eq!(back, p);
    // The encoding is eight little-endian bytes, first coordinate first.
    match p.to_sql() {
        MimerDatatype::BinaryArray(b) => {
            assert_eq!(b.len(), 8);
            assert_eq!(b[0], 43);
        }
        _ => panic!("expected binary data"),
    }
}

#[test]
fn round_trip_gis_location() {
    let g = GisLocation { first_bits: 0x42280000, second_bits: 0xC2000000 };
    let back = GisLocation::from_sql(g.to_sql()).unwrap();
    assert_eq!(back, g);
}

#[test]
fn float_bit_patterns_cross_the_boundary_losslessly() {
    let x: f64 = 2.5;
    let tagged = MimerDatatype::Double(x.to_bits());
    match tagged {
        MimerDatatype::Double(bits) => assert_eq!(f64::from_bits(bits), 2.5),
        _ => unreachable!(),
    }
    let y: f32 = -0.125;
    let tagged = MimerDatatype::Real(y.to_bits());
    match tagged {
        MimerDatatype::Real(bits) => assert_eq!(f32::from_bits(bits), -0.125),
        _ => unreachable!(),
    }
}

#[test]
fn none_encodes_null() {
    let v: Option<String> = None;
    assert_eq!(v.to_sql(), MimerDatatype::Null);
    let v: Option<i32> = None;
    assert_eq!(v.to_sql(), MimerDatatype::Null);
    let v: Option<i32> = Some(7);
    assert_eq!(v.to_sql(), MimerDatatype::Int(7));
}

#[test]
fn mismatched_conversions_are_rejected() {
    assert_eq!(
        i32::from_sql(MimerDatatype::String(String::from("1"))).unwrap_err(),
        ERR_UNSUPPORTED_CONVERSION
    );
    assert_eq!(i64::from_sql(MimerDatatype::Int(1)).unwrap_err(), ERR_UNSUPPORTED_CONVERSION);
    assert_eq!(String::from_sql(MimerDatatype::Null).unwrap_err(), ERR_UNSUPPORTED_CONVERSION);
    assert_eq!(bool::from_sql(MimerDatatype::Int(1)).unwrap_err(), ERR_UNSUPPORTED_CONVERSION);
}

#[test]
fn date_formats_and_parses() {
    let d = Date::from_ymd(2024, 7, 9).unwrap();
    let s = format_date(&d);
    assert_eq!(s, "2024-07-09");
    let back = parse_date(&s).unwrap();
    assert_eq!(back, d);
}

#[test]
fn round_trip_date_through_tagged_value() {
    let d = Date::from_ymd(2024, 7, 9).unwrap();
    match d.to_sql() {
        MimerDatatype::String(ref s) => assert_eq!(s, "2024-07-09"),
        _ => panic!("expected character data"),
    }
    let back = Date::from_sql(d.to_sql()).unwrap();
    assert_eq!(back, d);
}

#[test]
fn date_rejects_days_outside_the_calendar() {
    assert!(Date::from_ymd(2023, 2, 29).is_none());
    assert!(Date::from_ymd(2024, 2, 29).is_some());
    assert!(Date::from_ymd(1900, 2, 29).is_none());
    assert!(Date::from_ymd(2000, 2, 29).is_some());
    assert!(Date::from_ymd(2024, 4, 31).is_none());
    assert!(Date::from_ymd(2024, 0, 1).is_none());
    assert!(Date::from_ymd(2024, 13, 1).is_none());
    assert!(Date::from_ymd(0, 1, 1).is_none());
    assert!(Date::from_ymd(10000, 1, 1).is_none());
    assert!(Date::from_ymd(2024, 1, 0).is_none());
}

#[test]
fn leap_years_follow_the_century_rules() {
    assert!(is_leap_year(2024));
    assert!(!is_leap_year(2023));
    assert!(!is_leap_year(1900));
    assert!(is_leap_year(2000));
    assert_eq!(days_in_month(2024, 2), 29);
    assert_eq!(days_in_month(2023, 2), 28);
    assert_eq!(days_in_month(2024, 4), 30);
    assert_eq!(days_in_month(2024, 12), 31);
}

#[test]
fn date_parsing_rejects_bad_shapes() {
    assert!(parse_date("2024-7-9").is_none());
    assert!(parse_date("2024/07/09").is_none());
    assert!(parse_date("2024-07-09 ").is_none());
    assert!(parse_date("2024-02-30").is_none());
    assert!(parse_date("abcd-ef-gh").is_none());
    assert!(parse_date("").is_none());
}

#[test]
fn time_formats_and_parses() {
    let t = Time::from_hms(17, 12, 34).unwrap();
    let s = format_time(&t);
    assert_eq!(s, "17:12:34");
    assert_eq!(parse_time(&s).unwrap(), t);
    assert!(Time::from_hms(24, 0, 0).is_none());
    assert!(Time::from_hms(0, 60, 0).is_none());
    assert!(Time::from_hms(0, 0, 60).is_none());
    assert!(parse_time("17:12").is_none());
    assert!(parse_time("25:00:00").is_none());
}

#[test]
fn test_temporal() {
    // A timestamp's parts survive the store-and-fetch textual form.
    let date = Date::from_ymd(2024, 12, 17).unwrap();
    let time = Time::from_hms(17, 12, 34).unwrap();
    let ts = Timestamp { date, time };
    let s = format_timestamp(&ts);
    assert_eq!(s, "2024-12-17 17:12:34");
    let back = parse_timestamp(&s).unwrap();
    assert_eq!(back.date.year(), 2024);
    assert_eq!(back.time.second(), 34);
    assert_eq!(Timestamp::from_sql(ts.to_sql()).unwrap(), ts);
}

#[test]
fn timestamp_parsing_rejects_bad_shapes() {
    assert!(parse_timestamp("2024-12-17T17:12:34").is_none());
    assert!(parse_timestamp("2024-12-17 17:12").is_none());
    assert!(parse_timestamp("2024-13-17 17:12:34").is_none());
}

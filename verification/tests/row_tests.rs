//! The value decoder: tag dispatch, null handling and large objects.

use mimerrust::driver::Driver;
use mimerrust::common::CursorMode;
use mimerrust::row::{Row, RawFetch};
use mimerrust::types::MimerDatatype;
use mimerrust::codes::{MIMER_SUCCESS, MIMER_SQL_NULL_VALUE, ERR_CONNECTION_DROPPED,
    ERR_STATEMENT_DROPPED, ERR_UNSUPPORTED_COLUMN_TYPE, ERR_UTF8_FROM_NATIVE,
    MIMER_CHARACTER_VARYING, MIMER_NATIVE_INTEGER_NULLABLE, MIMER_NATIVE_BIGINT_NULLABLE,
    MIMER_BOOLEAN, MIMER_BINARY, MIMER_BLOB, MIMER_NCLOB, MIMER_DATE,
    MIMER_NATIVE_DOUBLE_NULLABLE, MIMER_NATIVE_REAL_NULLABLE};

fn fetched_row() -> (Driver, Row) {
    let mut driver = Driver::new();
    let sid = driver
        .open_session("testdb", "RUSTUSER", "RUSTPASSWORD", MIMER_SUCCESS, false)
        .unwrap();
    let j = driver
        .prepare(sid, "SELECT * FROM test_table", CursorMode::Forward, MIMER_SUCCESS, false,
            MIMER_SUCCESS)
        .unwrap();
    let c = driver.open_cursor(j, MIMER_SUCCESS, 1).unwrap();
    let row = driver.next_row(c, MIMER_SUCCESS).unwrap().unwrap();
    (driver, row)
}

fn text_fetch(s: &str) -> RawFetch {
    let len = s.len() as i32;
    RawFetch::Text { probe: len, fill_rc: len, text: Some(String::from(s)) }
}

#[test]
fn row_get_type() {
    let (driver, row) = fetched_row();
    let v = driver.row_get_type(&row, MIMER_CHARACTER_VARYING, text_fetch("the number one"))
        .unwrap();
    assert!(matches!(v, MimerDatatype::String(_)), "Expected string");
    let v = driver
        .row_get_type(
            &row,
            MIMER_NATIVE_INTEGER_NULLABLE,
            RawFetch::Int32 { rc: MIMER_SUCCESS, value: 1 },
        )
        .unwrap();
    assert!(matches!(v, MimerDatatype::Int(1)), "Expected small int");
}

#[test]
fn row_get() {
    let (driver, row) = fetched_row();
    let s: String = driver
        .row_get(&row, MIMER_CHARACTER_VARYING, text_fetch("the number one"))
        .unwrap()
        .unwrap();
    assert_eq!(s, "the number one");
    let i: i32 = driver
        .row_get(&row, MIMER_NATIVE_INTEGER_NULLABLE,
            RawFetch::Int32 { rc: MIMER_SUCCESS, value: 1 })
        .unwrap()
        .unwrap();
    assert_eq!(i, 1);
}

#[test]
fn row_get_fail() {
    // Asking for the wrong host type is an unsupported conversion.
    let (driver, row) = fetched_row();
    let r: Result<Option<i32>, i32> = driver.row_get(&row, MIMER_CHARACTER_VARYING,
        text_fetch("the number one"));
    assert_eq!(r.unwrap_err(), mimerrust::codes::ERR_UNSUPPORTED_CONVERSION);
}

#[test]
fn test_get_null() {
    // A fetched SQL NULL yields an absent value, not an error, whatever the
    // requested type; a non-null neighbour still decodes.
    let (driver, row) = fetched_row();
    let fetched_int: Option<i32> = driver
        .row_get(&row, MIMER_NATIVE_INTEGER_NULLABLE,
            RawFetch::Int32 { rc: MIMER_SUCCESS, value: 1 })
        .unwrap();
    assert_eq!(fetched_int.unwrap(), 1);
    let null_string: Option<String> = driver
        .row_get(&row, MIMER_CHARACTER_VARYING,
            RawFetch::Text { probe: MIMER_SQL_NULL_VALUE, fill_rc: 0, text: None })
        .unwrap();
    assert!(null_string.is_none());
    let fetched_str2: Option<String> = driver
        .row_get(&row, MIMER_CHARACTER_VARYING, text_fetch("test"))
        .unwrap();
    assert_eq!(fetched_str2.unwrap(), "test");
}

#[test]
fn test_row_singleton() {
    // The null tagged value collapses the same way as the sentinel status.
    let (driver, row) = fetched_row();
    let null_int: Option<i32> = driver
        .row_get(&row, MIMER_NATIVE_INTEGER_NULLABLE,
            RawFetch::Int32 { rc: MIMER_SQL_NULL_VALUE, value: 0 })
        .unwrap();
    assert!(null_int.is_none());
    let null_bool: Option<bool> = driver
        .row_get(&row, MIMER_BOOLEAN, RawFetch::Boolean { value: MIMER_SQL_NULL_VALUE })
        .unwrap();
    assert!(null_bool.is_none());
    let v: Option<bool> = driver.row_get(&row, MIMER_BOOLEAN, RawFetch::Boolean { value: 1 })
        .unwrap();
    assert_eq!(v.unwrap(), true);
}

#[test]
fn is_null_follows_the_tri_state_convention() {
    let (driver, row) = fetched_row();
    assert!(driver.row_is_null(&row, 1).unwrap());
    assert!(!driver.row_is_null(&row, 0).unwrap());
    assert_eq!(driver.row_is_null(&row, -24108).unwrap_err(), -24108);
}

#[test]
fn row_get_blob() {
    let (driver, row) = fetched_row();
    let blob: Vec<u8> = vec![10; 1024];
    let v = driver
        .row_get_type(&row, MIMER_BLOB,
            RawFetch::Lob { rc: MIMER_SUCCESS, data: Ok(blob.clone()) })
        .unwrap();
    match v {
        MimerDatatype::BinaryArray(b) => assert_eq!(b, blob),
        _ => panic!("expected binary data"),
    }
    // A failing chunk read aborts the whole decode.
    let r = driver.row_get_type(&row, MIMER_BLOB,
        RawFetch::Lob { rc: MIMER_SUCCESS, data: Err(-24501) });
    assert_eq!(r.unwrap_err(), -24501);
}

#[test]
fn row_get_clob_small() {
    // The over-allocated character buffer is stripped of its zero padding
    // before the text is decoded.
    let (driver, row) = fetched_row();
    let mut buffer: Vec<u8> = Vec::from("Hello, this is a clob".as_bytes());
    buffer.extend_from_slice(&[0, 0, 0, 0, 0]);
    let v = driver
        .row_get_type(&row, MIMER_NCLOB, RawFetch::Clob { rc: MIMER_SUCCESS, data: Ok(buffer) })
        .unwrap();
    match v {
        MimerDatatype::String(s) => assert_eq!(s, "Hello, this is a clob"),
        _ => panic!("expected character data"),
    }
}

#[test]
fn temporal_columns_decode_as_text() {
    let (driver, row) = fetched_row();
    let v = driver.row_get_type(&row, MIMER_DATE, text_fetch("2024-07-09")).unwrap();
    match v {
        MimerDatatype::String(s) => assert_eq!(s, "2024-07-09"),
        _ => panic!("expected character data"),
    }
}

#[test]
fn floating_point_columns_carry_bit_patterns() {
    let (driver, row) = fetched_row();
    let x: f64 = 1.5;
    let v = driver
        .row_get_type(&row, MIMER_NATIVE_DOUBLE_NULLABLE,
            RawFetch::Double { rc: MIMER_SUCCESS, bits: x.to_bits() })
        .unwrap();
    match v {
        MimerDatatype::Double(bits) => assert_eq!(f64::from_bits(bits), 1.5),
        _ => panic!("expected a double"),
    }
    let y: f32 = 0.25;
    let v = driver
        .row_get_type(&row, MIMER_NATIVE_REAL_NULLABLE,
            RawFetch::Real { rc: MIMER_SUCCESS, bits: y.to_bits() })
        .unwrap();
    match v {
        MimerDatatype::Real(bits) => assert_eq!(f32::from_bits(bits), 0.25),
        _ => panic!("expected a real"),
    }
}

#[test]
fn unknown_tags_are_unsupported() {
    let (driver, row) = fetched_row();
    let r = driver.row_get_type(&row, 9999, RawFetch::Boolean { value: 0 });
    assert_eq!(r.unwrap_err(), ERR_UNSUPPORTED_COLUMN_TYPE);
}

#[test]
fn size_mismatch_in_the_fill_call_is_an_error() {
    let (driver, row) = fetched_row();
    // The fill call reported fewer characters than the probe promised.
    let r = driver.row_get_type(&row, MIMER_CHARACTER_VARYING,
        RawFetch::Text { probe: 10, fill_rc: 7, text: Some(String::from("short")) });
    assert_eq!(r.unwrap_err(), 11);
    // A buffer that is not valid UTF-8 is the conversion error.
    let r = driver.row_get_type(&row, MIMER_CHARACTER_VARYING,
        RawFetch::Text { probe: 5, fill_rc: 5, text: None });
    assert_eq!(r.unwrap_err(), ERR_UTF8_FROM_NATIVE);
}

#[test]
fn big_integers_decode_through_the_wide_getter() {
    let (driver, row) = fetched_row();
    let v = driver
        .row_get_type(&row, MIMER_NATIVE_BIGINT_NULLABLE,
            RawFetch::Int64 { rc: MIMER_SUCCESS, value: 9223372036854775807 })
        .unwrap();
    assert!(matches!(v, MimerDatatype::BigInt(9223372036854775807)));
}

#[test]
fn test_get_binary() {
    // A four-byte value survives the store-and-fetch cycle; a shorter one
    // comes back padded to the fixed column width; a longer one is the
    // native truncation error at bind time.
    let (mut driver, row) = fetched_row();
    let binary: Vec<u8> = vec![b't', b'e', b's', b't'];
    let v: Option<Vec<u8>> = driver
        .row_get(&row, MIMER_BINARY,
            RawFetch::Binary { probe: 4, fill_rc: MIMER_SUCCESS, bytes: binary.clone() })
        .unwrap();
    assert_eq!(v.unwrap(), binary);

    let mut shorter_binary: Vec<u8> = vec![1, 2, 3];
    shorter_binary.push(0);
    let v: Option<Vec<u8>> = driver
        .row_get(&row, MIMER_BINARY,
            RawFetch::Binary { probe: 4, fill_rc: MIMER_SUCCESS, bytes: shorter_binary.clone() })
        .unwrap();
    assert_eq!(v.unwrap(), shorter_binary);

    let j = row.statement;
    let too_long = vec![b't', b'o', b'o', b' ', b'l', b'o', b'n', b'g'];
    let params = vec![MimerDatatype::BinaryArray(too_long)];
    let tags = vec![MIMER_BINARY];
    let rc = driver.execute_bind(j, &params, &tags, -24003, MIMER_SUCCESS).unwrap_err();
    assert_eq!(rc, -24003, "Should have failed. Binary is to long!");
}

#[test]
fn test_get_varbinary() {
    let (driver, row) = fetched_row();
    let binary_test: Vec<u8> = vec![b't', b'e', b's', b't'];
    let binary_msg: Vec<u8> = vec![
        b'M', b'i', b'm', b'e', b'r', b' ', b'R', b'u', b's', b't', b' ', b'A', b'P', b'I',
    ];
    let v: Option<Vec<u8>> = driver
        .row_get(&row, mimerrust::codes::MIMER_BINARY_VARYING,
            RawFetch::Binary { probe: 4, fill_rc: MIMER_SUCCESS, bytes: binary_test.clone() })
        .unwrap();
    assert_eq!(v.unwrap(), binary_test);
    let v: Option<Vec<u8>> = driver
        .row_get(&row, mimerrust::codes::MIMER_BINARY_VARYING,
            RawFetch::Binary { probe: 14, fill_rc: MIMER_SUCCESS, bytes: binary_msg.clone() })
        .unwrap();
    assert_eq!(v.unwrap(), binary_msg);
}

#[test]
fn test_get_uuid() {
    let (driver, row) = fetched_row();
    let u1: Vec<u8> = vec![7, 1, 2, 3, 4, 5, 6, 7, 8, 9, 10, 11, 12, 13, 14, 15];
    let u2: Vec<u8> = vec![9, 9, 9, 9, 4, 5, 6, 7, 8, 9, 10, 11, 12, 13, 14, 15];
    // An identifier column hands its value back through the binary getter.
    let u1_fetched: mimerrust::types::Uuid = driver
        .row_get(&row, MIMER_BINARY,
            RawFetch::Binary { probe: 16, fill_rc: MIMER_SUCCESS, bytes: u1.clone() })
        .unwrap()
        .unwrap();
    let u2_fetched: mimerrust::types::Uuid = driver
        .row_get(&row, MIMER_BINARY,
            RawFetch::Binary { probe: 16, fill_rc: MIMER_SUCCESS, bytes: u2.clone() })
        .unwrap()
        .unwrap();
    assert_eq!(u1_fetched.bytes, u1);
    assert_eq!(u2_fetched.bytes, u2);
}

#[test]
fn row_get_clob_big() {
    let (driver, row) = fetched_row();
    let text: String = std::iter::repeat('y').take(25000).collect();
    let mut buffer: Vec<u8> = Vec::from(text.as_bytes());
    buffer.extend_from_slice(&vec![0u8; 100]);
    let v = driver
        .row_get_type(&row, MIMER_NCLOB, RawFetch::Clob { rc: MIMER_SUCCESS, data: Ok(buffer) })
        .unwrap();
    match v {
        MimerDatatype::String(s) => {
            assert_eq!(s.len(), 25000);
            assert_eq!(s, text);
        }
        _ => panic!("expected character data"),
    }
}

#[test]
fn check_statement_get() {
    let (mut driver, row) = fetched_row();
    driver.drop_statement(row.statement);
    let r = driver.row_get_type(&row, MIMER_CHARACTER_VARYING, text_fetch("x"));
    assert_eq!(r.unwrap_err(), ERR_STATEMENT_DROPPED);
}

#[test]
fn check_connection_get() {
    let (mut driver, row) = fetched_row();
    let sid = driver.statements[row.statement].session;
    driver.close_session(sid);
    let r = driver.row_get_type(&row, MIMER_CHARACTER_VARYING, text_fetch("x"));
    assert_eq!(r.unwrap_err(), ERR_CONNECTION_DROPPED);
}

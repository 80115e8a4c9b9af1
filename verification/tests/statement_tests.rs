//! Parameter binding, batching and execution.

use mimerrust::driver::Driver;
use mimerrust::common::{CursorMode, ParameterMode};
use mimerrust::statement::{BindPlan, plan_bind, set_params};
use mimerrust::types::{MimerDatatype, ToSql, FromSql, Point, GisLocation};
use mimerrust::codes::{MIMER_SUCCESS, ERR_WRONG_PARAMETER_COUNT, ERR_INVALID_PARAMETER_TYPE,
    ERR_STRING_TO_NATIVE, MIMER_CHARACTER_VARYING, MIMER_T_INTEGER, MIMER_UUID, MIMER_BINARY,
    MIMER_BLOB, MIMER_CLOB, MIMER_GIS_LATITUDE, MIMER_NATIVE_REAL_NULLABLE};

fn insert_statement(num_params: i32) -> (Driver, usize) {
    let mut driver = Driver::new();
    let sid = driver
        .open_session("testdb", "RUSTUSER", "RUSTPASSWORD", MIMER_SUCCESS, false)
        .unwrap();
    let j = driver
        .prepare(sid, "INSERT INTO test_table VALUES(:string,:int)", CursorMode::Forward,
            MIMER_SUCCESS, false, num_params)
        .unwrap();
    (driver, j)
}

#[test]
fn statement_set_params_not_null() {
    let params = vec![
        String::from("Hello").to_sql(),
        15i32.to_sql(),
        16i64.to_sql(),
        true.to_sql(),
    ];
    let tags = vec![MIMER_CHARACTER_VARYING, MIMER_T_INTEGER, MIMER_T_INTEGER, MIMER_T_INTEGER];
    let plans = set_params(&params, &tags).unwrap();
    assert_eq!(plans.len(), 4);
    assert!(matches!(plans[0], BindPlan::SetString(_)));
    assert!(matches!(plans[1], BindPlan::SetInt32(15)));
    assert!(matches!(plans[2], BindPlan::SetInt64(16)));
    assert!(matches!(plans[3], BindPlan::SetBoolean(1)));
}

#[test]
fn execute_option_statement() {
    // Binding an absent optional value selects the null setter.
    let v: Option<String> = None;
    let plan = plan_bind(&v.to_sql(), MIMER_CHARACTER_VARYING).unwrap();
    assert!(matches!(plan, BindPlan::SetNull));
    let v: Option<String> = Some(String::from("test"));
    let plan = plan_bind(&v.to_sql(), MIMER_CHARACTER_VARYING).unwrap();
    match plan {
        BindPlan::SetString(s) => assert_eq!(s, "test"),
        _ => panic!("expected the string setter"),
    }
}

#[test]
fn test_binary() {
    // A sixteen-byte value destined for an identifier column takes the
    // identifier setter; other binary columns take the plain setter.
    let bytes: Vec<u8> = vec![10, 11, 12, 13, 14, 15, 16, 10, 11, 12, 13, 14, 15, 16, 10, 11];
    let plan = plan_bind(&bytes.to_sql(), MIMER_UUID).unwrap();
    assert!(matches!(plan, BindPlan::SetUuid(_)));
    let plan = plan_bind(&bytes.to_sql(), MIMER_BINARY).unwrap();
    assert!(matches!(plan, BindPlan::SetBinary(_)));
    let plan = plan_bind(&bytes.to_sql(), MIMER_BLOB).unwrap();
    assert!(matches!(plan, BindPlan::SetBlob(_)));
    // Binary data bound to a column of no binary kind is rejected.
    let r = plan_bind(&bytes.to_sql(), MIMER_T_INTEGER);
    assert_eq!(r.unwrap_err(), ERR_INVALID_PARAMETER_TYPE);
}

#[test]
fn spatial_coordinates_bind_as_four_bytes() {
    let bits: u32 = 0x42280000;
    let plan = plan_bind(&MimerDatatype::Real(bits), MIMER_GIS_LATITUDE).unwrap();
    match plan {
        BindPlan::SetFloatAsBinary(b) => assert_eq!(b, vec![0x00, 0x00, 0x28, 0x42]),
        _ => panic!("expected the binary coordinate setter"),
    }
    let plan = plan_bind(&MimerDatatype::Real(bits), MIMER_NATIVE_REAL_NULLABLE).unwrap();
    assert!(matches!(plan, BindPlan::SetFloat(_)));
}

#[test]
fn character_data_with_interior_nul_is_rejected() {
    let v = MimerDatatype::String(String::from("he\u{0}llo"));
    assert_eq!(plan_bind(&v, MIMER_CHARACTER_VARYING).unwrap_err(), ERR_STRING_TO_NATIVE);
    // A large-object column takes the text whole, NUL and all: the chunked
    // transfer carries bytes, not a terminated buffer.
    assert!(plan_bind(&v, MIMER_CLOB).is_ok());
}

#[test]
fn prepare_execute_with_params_set() {
    let (mut driver, j) = insert_statement(2);
    let params = vec![String::from("the number one").to_sql(), 1i32.to_sql()];
    let tags = vec![MIMER_CHARACTER_VARYING, MIMER_T_INTEGER];
    let r = driver.execute_bind(j, &params, &tags, MIMER_SUCCESS, MIMER_SUCCESS);
    assert_eq!(r.unwrap(), MIMER_SUCCESS);
}

#[test]
fn execute_with_params_unset() {
    // Executing with no parameters given leaves binding to earlier calls;
    // the native execute decides.
    let (mut driver, j) = insert_statement(2);
    let params: Vec<MimerDatatype> = vec![];
    let tags: Vec<i32> = vec![];
    let r = driver.execute_bind(j, &params, &tags, MIMER_SUCCESS, -24103);
    assert_eq!(r.unwrap_err(), -24103);
}

#[test]
fn statement_get_error() {
    let (mut driver, j) = insert_statement(3);
    let ec = driver.execute(j, -24102).unwrap_err();
    assert_eq!(ec, -24102);
    let err = driver.get_statement_error(j, ec, 30, MIMER_SUCCESS, -24102,
        Some(String::from("Nonexistent column or parameter")));
    assert_eq!(err.get_error_code(), -24102);
}

#[test]
fn test_batch() {
    // Two parameter rows added, one execute: exactly two rows submitted.
    let (mut driver, j) = insert_statement(2);
    let tags = vec![MIMER_CHARACTER_VARYING, MIMER_T_INTEGER];
    let row1 = vec![String::from("hello").to_sql(), 1i32.to_sql()];
    let row2 = vec![String::from("world").to_sql(), 2i32.to_sql()];
    driver.add_batch(j, &row1, &tags, MIMER_SUCCESS).unwrap();
    assert!(driver.statements[j].pending);
    assert_eq!(driver.statements[j].batched, 0);
    driver.add_batch(j, &row2, &tags, MIMER_SUCCESS).unwrap();
    assert!(driver.statements[j].pending);
    assert_eq!(driver.statements[j].batched, 1);
    driver.execute(j, 2).unwrap();
    assert!(!driver.statements[j].pending);
    assert_eq!(driver.statements[j].batched, 0);
}

#[test]
fn batch_counts_are_exact() {
    // N adds leave exactly N rows to submit: not N + 1 and not N - 1.
    let (mut driver, j) = insert_statement(1);
    let tags = vec![MIMER_T_INTEGER];
    for i in 0..5i32 {
        driver.add_batch(j, &vec![i.to_sql()], &tags, MIMER_SUCCESS).unwrap();
        let submitted = driver.statements[j].batched + if driver.statements[j].pending { 1 } else { 0 };
        assert_eq!(submitted, (i + 1) as usize);
    }
}

#[test]
fn wrong_parameter_count_is_rejected_without_batch_effects() {
    let (mut driver, j) = insert_statement(2);
    let tags = vec![MIMER_T_INTEGER];
    let short_row = vec![1i32.to_sql()];
    let r = driver.add_batch(j, &short_row, &tags, MIMER_SUCCESS);
    assert_eq!(r.unwrap_err(), ERR_WRONG_PARAMETER_COUNT);
    assert!(!driver.statements[j].pending);
    assert_eq!(driver.statements[j].batched, 0);
}

#[test]
fn bind_selects_the_setter() {
    let (driver, j) = insert_statement(2);
    let s = String::from("the number one");
    let plan = driver.bind(j, &s.to_sql(), 1, MIMER_CHARACTER_VARYING).unwrap();
    match plan {
        BindPlan::SetString(t) => assert_eq!(t, "the number one"),
        _ => panic!("expected the string setter"),
    }
    let plan = driver.bind(j, &1i32.to_sql(), 2, MIMER_T_INTEGER).unwrap();
    assert!(matches!(plan, BindPlan::SetInt32(1)));
}

#[test]
fn test_get_parameter_mode() {
    let (driver, j) = insert_statement(3);
    assert_eq!(driver.get_parameter_mode(j, 1, 1).unwrap(), ParameterMode::IN);
    assert_eq!(driver.get_parameter_mode(j, 2, 2).unwrap(), ParameterMode::OUT);
    assert_eq!(driver.get_parameter_mode(j, 3, 3).unwrap(), ParameterMode::INOUT);
    assert_eq!(driver.get_parameter_mode(j, 4, -24107).unwrap_err(), -24107);
}

#[test]
fn array_size_follows_the_native_status() {
    let (driver, j) = insert_statement(0);
    assert_eq!(driver.set_array_size(j, 10, MIMER_SUCCESS).unwrap(), MIMER_SUCCESS);
    assert_eq!(driver.set_array_size(j, 10, -24101).unwrap_err(), -24101);
}

#[test]
fn null_statement_handles_are_detected() {
    let mut driver = Driver::new();
    let sid = driver
        .open_session("testdb", "RUSTUSER", "RUSTPASSWORD", MIMER_SUCCESS, false)
        .unwrap();
    let j = driver
        .prepare(sid, "SELECT * FROM t", CursorMode::Forward, MIMER_SUCCESS, true, MIMER_SUCCESS)
        .unwrap();
    assert_eq!(driver.execute(j, MIMER_SUCCESS).unwrap_err(), mimerrust::codes::ERR_NULL_HANDLE);
}

#[test]
fn execute_carries_the_affected_row_count() {
    let (mut driver, j) = insert_statement(0);
    assert_eq!(driver.execute(j, 7).unwrap(), 7);
    assert_eq!(driver.execute(j, -12112).unwrap_err(), -12112);
}

#[test]
fn test_geo() {
    // Spatial data: an integer point through a binary column, coordinates
    // through the spatial setters, as bit patterns.
    let (driver, j) = insert_statement(4);
    let p = Point::new(1, 2);
    let plan = driver.bind(j, &p.to_sql(), 1, MIMER_BINARY).unwrap();
    assert!(matches!(plan, BindPlan::SetBinary(_)));
    let location = GisLocation { first_bits: 43, second_bits: 32 };
    let plan = driver.bind(j, &location.to_sql(), 4, MIMER_BINARY).unwrap();
    assert!(matches!(plan, BindPlan::SetBinary(_)));
    // Fetching them back inverts the encodings.
    assert_eq!(Point::from_sql(p.to_sql()).unwrap(), p);
    assert_eq!(GisLocation::from_sql(location.to_sql()).unwrap(), location);
}

//! Whole flows through the driver core: connect, prepare, insert, fetch and
//! tear down, with scripted native outcomes.

use mimerrust::driver::Driver;
use mimerrust::common::CursorMode;
use mimerrust::row::RawFetch;
use mimerrust::types::ToSql;
use mimerrust::codes::{MIMER_SUCCESS, MIMER_NO_DATA, MIMER_T_INTEGER,
    MIMER_NATIVE_BIGINT_NULLABLE, MIMER_CHARACTER_VARYING};

#[test]
fn integration_test_1() {
    let mut driver = Driver::new();
    let sid = driver
        .open_session("testdb", "RUSTUSER", "RUSTPASSWORD", MIMER_SUCCESS, false)
        .unwrap();
    driver.execute_statement(sid, "DROP TABLE test_table", -12501).ok();
    driver
        .execute_statement(sid, "CREATE TABLE test_table (column_1 VARCHAR(30), column_2 INT)",
            MIMER_SUCCESS)
        .unwrap();
    driver
        .execute_statement(sid,
            "INSERT INTO test_table (column_1, column_2) VALUES('the number one',1)",
            MIMER_SUCCESS)
        .unwrap();
    let stmt = driver
        .prepare(sid, "SELECT * FROM test_table", CursorMode::Forward, MIMER_SUCCESS, false, 0)
        .unwrap();
    let cursor = driver.open_cursor(stmt, MIMER_SUCCESS, 1).unwrap();
    let row = driver.next_row(cursor, MIMER_SUCCESS).unwrap().expect(
        "Select didn't find any entries");
    let text: String = driver
        .row_get(&row, MIMER_CHARACTER_VARYING,
            RawFetch::Text { probe: 14, fill_rc: 14, text: Some(String::from("the number one")) })
        .unwrap()
        .unwrap();
    assert_eq!(text, "the number one");
    let number: i32 = driver
        .row_get(&row, MIMER_T_INTEGER, RawFetch::Int32 { rc: MIMER_SUCCESS, value: 1 })
        .unwrap()
        .unwrap();
    assert_eq!(number, 1);
    driver.close_cursor(cursor, MIMER_SUCCESS).unwrap();
    driver.drop_statement(stmt);
    driver.close_session(sid);
}

#[test]
fn test_main() {
    let mut driver = Driver::new();
    let sid = driver
        .open_session("testdb", "RUSTUSER", "RUSTPASSWORD", MIMER_SUCCESS, false)
        .unwrap();
    let drop_err = driver
        .execute_statement(sid, "DROP TABLE temp_integration", -12517)
        .unwrap_err();
    assert!(drop_err == -12517 || drop_err == -12501);
    driver
        .execute_statement(sid, "CREATE TABLE temp_integration (column_1 BIGINT, column_2 INT)",
            MIMER_SUCCESS)
        .unwrap();
    let insert = driver
        .prepare(sid, "INSERT INTO temp_integration (column_1, column_2) VALUES(:i1, :i2)",
            CursorMode::Forward, MIMER_SUCCESS, false, 2)
        .unwrap();
    let tags = vec![MIMER_NATIVE_BIGINT_NULLABLE, MIMER_T_INTEGER];
    for i in 0..3i32 {
        let params = vec![(i as i64).to_sql(), i.to_sql()];
        driver.execute_bind(insert, &params, &tags, MIMER_SUCCESS, MIMER_SUCCESS).unwrap();
    }
    let select = driver
        .prepare(sid, "SELECT * FROM temp_integration", CursorMode::Forward, MIMER_SUCCESS,
            false, 0)
        .unwrap();
    let cursor = driver.open_cursor(select, MIMER_SUCCESS, 3).unwrap();
    let mut count: i64 = 0;
    for _ in 0..3 {
        let row = driver.next_row(cursor, MIMER_SUCCESS).unwrap().unwrap();
        let big: i64 = driver
            .row_get(&row, MIMER_NATIVE_BIGINT_NULLABLE,
                RawFetch::Int64 { rc: MIMER_SUCCESS, value: count })
            .unwrap()
            .unwrap();
        assert_eq!(big, count);
        count += 1;
    }
    assert!(driver.next_row(cursor, MIMER_NO_DATA).unwrap().is_none());
    assert_eq!(count, 3);
    driver.close_cursor(cursor, MIMER_SUCCESS).unwrap();
    driver.drop_statement(select);
    driver.drop_statement(insert);
    driver.close_session(sid);
}

//! Transactions: exclusive begin, consuming ends, rollback on abandonment.

use mimerrust::driver::Driver;
use mimerrust::transaction::Transaction;
use mimerrust::common::TransactionMode;
use mimerrust::codes::{MIMER_SUCCESS, MIMER_SEQUENCE_ERROR, MIMER_TRANSACTION_OPEN};

fn connected_driver() -> (Driver, usize) {
    let mut driver = Driver::new();
    let sid = driver
        .open_session("testdb", "RUSTUSER", "RUSTPASSWORD", MIMER_SUCCESS, false)
        .unwrap();
    (driver, sid)
}

#[test]
fn connection_create_transaction() {
    let (mut driver, sid) = connected_driver();
    let trans = driver.begin_transaction(sid, TransactionMode::ReadWrite, MIMER_SUCCESS).unwrap();
    assert!(driver.sessions[sid].transaction_open);
    trans.commit(&mut driver, MIMER_SUCCESS).unwrap();
    assert!(!driver.sessions[sid].transaction_open);
}

#[test]
fn transaction_create_transaction() {
    let (mut driver, sid) = connected_driver();
    let trans = driver.begin_transaction(sid, TransactionMode::ReadOnly, MIMER_SUCCESS).unwrap();
    assert_eq!(trans.session, sid);
    trans.rollback(&mut driver, MIMER_SUCCESS).unwrap();
}

#[test]
fn transaction_drop() {
    // An abandoned transaction behaves as a rollback.
    let (mut driver, sid) = connected_driver();
    let trans = driver.begin_transaction(sid, TransactionMode::ReadWrite, MIMER_SUCCESS).unwrap();
    trans.abandon(&mut driver, MIMER_SUCCESS).unwrap();
    assert!(!driver.sessions[sid].transaction_open);
    // The session is free for a new transaction afterwards.
    let trans = driver.begin_transaction(sid, TransactionMode::ReadWrite, MIMER_SUCCESS).unwrap();
    trans.commit(&mut driver, MIMER_SUCCESS).unwrap();
}

#[test]
fn rollback_on_drop() {
    let (mut driver, sid) = connected_driver();
    let trans = driver.begin_transaction(sid, TransactionMode::ReadWrite, MIMER_SUCCESS).unwrap();
    trans.rollback(&mut driver, MIMER_SUCCESS).unwrap();
    // Ending the same transaction twice is an illegal sequence of calls;
    // this interface only reaches it through a hand-built value.
    let forged = Transaction { session: sid };
    assert_eq!(
        forged.rollback(&mut driver, MIMER_SUCCESS).unwrap_err(),
        MIMER_SEQUENCE_ERROR,
        "Should not be able to end transaction twice"
    );
}

#[test]
fn execute_while_transaction() {
    let (mut driver, sid) = connected_driver();
    let trans = driver.begin_transaction(sid, TransactionMode::ReadWrite, MIMER_SUCCESS).unwrap();
    driver
        .execute_statement(sid, "INSERT INTO test_table (column_1, column_2) VALUES ('x', 1)",
            MIMER_SUCCESS)
        .unwrap();
    trans.commit(&mut driver, MIMER_SUCCESS).unwrap();
}

#[test]
fn transaction_rollback() {
    let (mut driver, sid) = connected_driver();
    let trans = driver.begin_transaction(sid, TransactionMode::ReadWrite, MIMER_SUCCESS).unwrap();
    driver
        .execute_statement(sid, "INSERT INTO test_table (column_1, column_2) VALUES ('x', 1)",
            MIMER_SUCCESS)
        .unwrap();
    let r = trans.rollback(&mut driver, MIMER_SUCCESS);
    assert_eq!(r.unwrap(), MIMER_SUCCESS);
    assert!(!driver.sessions[sid].transaction_open);
}

#[test]
fn transaction_commit() {
    let (mut driver, sid) = connected_driver();
    let trans = driver.begin_transaction(sid, TransactionMode::ReadWrite, MIMER_SUCCESS).unwrap();
    driver
        .execute_statement(sid,
            "INSERT INTO test_table (column_1, column_2) VALUES ('some value', 42)",
            MIMER_SUCCESS)
        .unwrap();
    let r = trans.commit(&mut driver, MIMER_SUCCESS);
    assert_eq!(r.unwrap(), MIMER_SUCCESS);
    assert!(!driver.sessions[sid].transaction_open);
}

#[test]
fn transaction_read_only() {
    let (mut driver, sid) = connected_driver();
    let trans = driver.begin_transaction(sid, TransactionMode::ReadOnly, MIMER_SUCCESS).unwrap();
    // A write inside a read-only transaction is the server's error to raise.
    let r = driver.execute_statement(sid,
        "INSERT INTO test_table (column_1, column_2) VALUES ('some value', 42)", -14012);
    assert!(r.is_err());
    trans.commit(&mut driver, MIMER_SUCCESS).unwrap();
}

#[test]
fn transaction_begin_deref() {
    // Only one transaction may be open on a session at a time.
    let (mut driver, sid) = connected_driver();
    let trans = driver.begin_transaction(sid, TransactionMode::ReadWrite, MIMER_SUCCESS).unwrap();
    let second = driver.begin_transaction(sid, TransactionMode::ReadWrite, MIMER_SUCCESS);
    assert_eq!(
        second.unwrap_err(),
        MIMER_TRANSACTION_OPEN,
        "Should not be able to create another transaction"
    );
    trans.rollback(&mut driver, MIMER_SUCCESS).unwrap();
}

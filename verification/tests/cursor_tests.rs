//! Cursor positioning: scrollable repositioning, the forward-only pass and
//! the end of the result set.

use mimerrust::driver::Driver;
use mimerrust::common::{CursorMode, ScrollOption};
use mimerrust::codes::{MIMER_SUCCESS, MIMER_NO_DATA, MIMER_SEQUENCE_ERROR,
    ERR_CONNECTION_DROPPED, ERR_STATEMENT_DROPPED};

fn select_cursor(mode: CursorMode, rows: usize) -> (Driver, usize, usize) {
    let mut driver = Driver::new();
    let sid = driver
        .open_session("testdb", "RUSTUSER", "RUSTPASSWORD", MIMER_SUCCESS, false)
        .unwrap();
    let j = driver
        .prepare(sid, "SELECT * FROM test_table", mode, MIMER_SUCCESS, false, MIMER_SUCCESS)
        .unwrap();
    let c = driver.open_cursor(j, MIMER_SUCCESS, rows).unwrap();
    (driver, c, sid)
}

#[test]
fn cursor_open_close() {
    let (mut driver, c, _sid) = select_cursor(CursorMode::Forward, 0);
    assert_eq!(driver.close_cursor(c, MIMER_SUCCESS).unwrap(), MIMER_SUCCESS);
}

#[test]
fn cursor_fetch_empty() {
    let (mut driver, c, _sid) = select_cursor(CursorMode::Forward, 0);
    assert!(driver.next_row(c, MIMER_NO_DATA).unwrap().is_none(), "Expected no data");
}

#[test]
fn cursor_fetch() {
    let (mut driver, c, _sid) = select_cursor(CursorMode::Forward, 1);
    assert!(driver.next_row(c, MIMER_SUCCESS).unwrap().is_some(), "Expected data");
}

#[test]
fn cursor_iter_get_once() {
    let (mut driver, c, _sid) = select_cursor(CursorMode::Forward, 1);
    assert!(driver.cursor_get(c).is_none());
    assert!(driver.next_row(c, MIMER_SUCCESS).unwrap().is_some());
    assert!(driver.cursor_get(c).is_some());
    assert!(driver.next_row(c, MIMER_NO_DATA).unwrap().is_none());
    assert!(driver.cursor_get(c).is_none());
}

#[test]
fn cursor_iter_map_many() {
    let (mut driver, c, _sid) = select_cursor(CursorMode::Forward, 10);
    let mut seen: usize = 0;
    for _ in 0..10 {
        assert!(driver.next_row(c, MIMER_SUCCESS).unwrap().is_some());
        seen += 1;
    }
    assert!(driver.next_row(c, MIMER_NO_DATA).unwrap().is_none());
    assert_eq!(seen, 10);
}

#[test]
fn end_of_result_reports_no_data_without_error() {
    // Advancing past the last row yields no row once, and every later
    // advance keeps yielding no row, still without error.
    let (mut driver, c, _sid) = select_cursor(CursorMode::Forward, 2);
    assert!(driver.next_row(c, MIMER_SUCCESS).unwrap().is_some());
    assert!(driver.next_row(c, MIMER_SUCCESS).unwrap().is_some());
    assert!(driver.next_row(c, MIMER_NO_DATA).unwrap().is_none());
    assert!(driver.next_row(c, MIMER_NO_DATA).unwrap().is_none());
    assert!(driver.next_row(c, MIMER_NO_DATA).unwrap().is_none());
    assert_eq!(driver.current_row(c).unwrap(), 3);
}

#[test]
fn test_scrolloption() {
    // A five-row result set: LAST, PREVIOUS, FIRST, NEXT, RELATIVE(+2) and
    // RELATIVE(-3) visit the rows 5, 4, 1, 2, 4 and 1.
    let (mut driver, c, _sid) = select_cursor(CursorMode::Scrollable, 5);

    driver.set_scroll_option(c, ScrollOption::LAST);
    assert!(driver.scroll(c, 0, MIMER_SUCCESS).unwrap().is_some());
    assert_eq!(driver.current_row(c).unwrap(), 5);

    driver.set_scroll_option(c, ScrollOption::PREVIOUS);
    assert!(driver.scroll(c, 0, MIMER_SUCCESS).unwrap().is_some());
    assert_eq!(driver.current_row(c).unwrap(), 4);

    driver.set_scroll_option(c, ScrollOption::FIRST);
    assert!(driver.scroll(c, 0, MIMER_SUCCESS).unwrap().is_some());
    assert_eq!(driver.current_row(c).unwrap(), 1);

    driver.set_scroll_option(c, ScrollOption::NEXT);
    assert!(driver.scroll(c, 0, MIMER_SUCCESS).unwrap().is_some());
    assert_eq!(driver.current_row(c).unwrap(), 2);

    driver.set_scroll_option(c, ScrollOption::RELATIVE);
    assert!(driver.scroll(c, 2, MIMER_SUCCESS).unwrap().is_some());
    assert_eq!(driver.current_row(c).unwrap(), 4);

    assert!(driver.scroll(c, -3, MIMER_SUCCESS).unwrap().is_some());
    assert_eq!(driver.current_row(c).unwrap(), 1);

    driver.set_scroll_option(c, ScrollOption::ABSOLUTE);
    assert!(driver.scroll(c, 5, MIMER_SUCCESS).unwrap().is_some());
    assert_eq!(driver.current_row(c).unwrap(), 5);
}

#[test]
fn test_scroll_option_fail() {
    // Scrolling a forward-only cursor is an illegal sequence of calls.
    let (mut driver, c, _sid) = select_cursor(CursorMode::Forward, 5);
    driver.set_scroll_option(c, ScrollOption::ABSOLUTE);
    assert_eq!(driver.scroll(c, 2, MIMER_SUCCESS).unwrap_err(), MIMER_SEQUENCE_ERROR);
    driver.set_scroll_option(c, ScrollOption::RELATIVE);
    assert_eq!(driver.scroll(c, 1, MIMER_SUCCESS).unwrap_err(), MIMER_SEQUENCE_ERROR);
}

#[test]
fn scrolling_outside_the_result_set_yields_no_row() {
    let (mut driver, c, _sid) = select_cursor(CursorMode::Scrollable, 3);
    driver.set_scroll_option(c, ScrollOption::ABSOLUTE);
    assert!(driver.scroll(c, 9, MIMER_NO_DATA).unwrap().is_none());
    assert_eq!(driver.current_row(c).unwrap(), 4);
    assert!(driver.scroll(c, 0, MIMER_NO_DATA).unwrap().is_none());
    assert_eq!(driver.current_row(c).unwrap(), 0);
    // An absolute position counted from the end.
    assert!(driver.scroll(c, -1, MIMER_SUCCESS).unwrap().is_some());
    assert_eq!(driver.current_row(c).unwrap(), 3);
}

#[test]
fn check_connection_next_row() {
    let (mut driver, c, sid) = select_cursor(CursorMode::Forward, 1);
    driver.close_session(sid);
    assert_eq!(driver.next_row(c, MIMER_SUCCESS).unwrap_err(), ERR_CONNECTION_DROPPED);
}

#[test]
fn check_statement_next_row() {
    let mut driver = Driver::new();
    let sid = driver
        .open_session("testdb", "RUSTUSER", "RUSTPASSWORD", MIMER_SUCCESS, false)
        .unwrap();
    let j = driver
        .prepare(sid, "SELECT * FROM test_table", CursorMode::Forward, MIMER_SUCCESS, false,
            MIMER_SUCCESS)
        .unwrap();
    let c = driver.open_cursor(j, MIMER_SUCCESS, 1).unwrap();
    driver.drop_statement(j);
    assert_eq!(driver.next_row(c, MIMER_SUCCESS).unwrap_err(), ERR_STATEMENT_DROPPED);
}

#[test]
fn test_current_row() {
    let (mut driver, c, _sid) = select_cursor(CursorMode::Forward, 3);
    assert_eq!(driver.current_row(c).unwrap(), 0);
    driver.next_row(c, MIMER_SUCCESS).unwrap();
    assert_eq!(driver.current_row(c).unwrap(), 1);
    driver.next_row(c, MIMER_SUCCESS).unwrap();
    assert_eq!(driver.current_row(c).unwrap(), 2);
}

#[test]
fn test_row_size() {
    let (driver, c, _sid) = select_cursor(CursorMode::Forward, 1);
    assert_eq!(driver.get_row_size(c, 16).unwrap(), 16);
    assert_eq!(driver.get_row_size(c, -24108).unwrap_err(), -24108);
}

#[test]
fn closing_an_orphaned_cursor_is_benign() {
    let (mut driver, c, sid) = select_cursor(CursorMode::Forward, 1);
    driver.close_session(sid);
    // The parents are gone: close reports it, and the embedding treats the
    // condition as an already-closed cursor.
    assert_eq!(driver.close_cursor(c, MIMER_SUCCESS).unwrap_err(), ERR_CONNECTION_DROPPED);
    assert!(!driver.cursors[c].open);
}

#[test]
fn cursor_modes_are_observable() {
    let (driver, c, _sid) = select_cursor(CursorMode::Scrollable, 1);
    assert_eq!(driver.get_mode(c), CursorMode::Scrollable);
    assert!(driver.check_is_mode(c, CursorMode::Scrollable));
    assert!(!driver.check_is_mode(c, CursorMode::Forward));
}

#[test]
fn fetch_errors_pass_through_and_leave_the_cursor_alone() {
    // A failing native fetch — neither success nor no-data — is returned as
    // the error, and the cursor does not move.
    let (mut driver, c, _sid) = select_cursor(CursorMode::Scrollable, 3);
    assert!(driver.next_row(c, MIMER_SUCCESS).unwrap().is_some());
    assert_eq!(driver.current_row(c).unwrap(), 1);
    assert_eq!(driver.next_row(c, -24501).unwrap_err(), -24501);
    assert_eq!(driver.current_row(c).unwrap(), 1);
    assert!(driver.cursor_get(c).is_some());
    driver.set_scroll_option(c, ScrollOption::LAST);
    assert_eq!(driver.scroll(c, 0, -24501).unwrap_err(), -24501);
    assert_eq!(driver.current_row(c).unwrap(), 1);
    // The same fetch retried with a healthy status proceeds.
    assert!(driver.scroll(c, 0, MIMER_SUCCESS).unwrap().is_some());
    assert_eq!(driver.current_row(c).unwrap(), 3);
}

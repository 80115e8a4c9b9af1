//! The error mapper, its rendering, and large-object transfer planning.

use mimerrust::error::MimerError;
use mimerrust::text::{u32_to_string, i32_to_string};
use mimerrust::lob::{lob_chunk_plan, clob_chunk_len, is_continuation};
use mimerrust::codes::{LOB_CHUNK_MAXSIZE, ERR_CONNECTION_DROPPED, ERR_STATEMENT_DROPPED,
    ERR_NULL_HANDLE, ERR_WRONG_PARAMETER_COUNT, ERR_UTF8_FROM_NATIVE, ERR_STRING_TO_NATIVE,
    ERR_NULL_SESSION, ERR_NOT_A_HANDLE, ERR_UNSUPPORTED_CONVERSION, ERR_UNSUPPORTED_COLUMN_TYPE,
    ERR_INVALID_PARAMETER_TYPE, ERR_INTERNAL, MIMER_SUCCESS};

#[test]
fn error_dropping_table() {
    // A native error pairs the fetched description with the native code.
    let err = MimerError::describe(-12501, Ok(()), 20, MIMER_SUCCESS, -12501,
        Some(String::from("Table does not exist")));
    assert!(err.get_error_code() == -12501 || err.get_error_code() == -12517);
    assert_eq!(err.get_error_message(), "Table does not exist");
}

#[test]
fn error_prepare() {
    let err = MimerError::describe(-12103, Ok(()), 12, MIMER_SUCCESS, -12103,
        Some(String::from("Syntax error")));
    assert!(err.get_error_code() == -12102 || err.get_error_code() == -12103);
}

#[test]
fn the_local_table_names_every_driver_error() {
    let cases: Vec<(i32, &str)> = vec![
        (-14006, "Login failure"),
        (-18500, "Database name not found in SQLHOSTS file"),
        (-24101, "An illegal sequence of API calls was detected"),
        (ERR_UTF8_FROM_NATIVE, "Error converting from utf-8 vector of bytes to String"),
        (ERR_NULL_SESSION, "Invalid session pointer was returned from C API"),
        (ERR_CONNECTION_DROPPED, "Connection is dropped"),
        (ERR_STATEMENT_DROPPED, "Statement is dropped"),
        (ERR_NULL_HANDLE, "Handle is NULL"),
        (ERR_WRONG_PARAMETER_COUNT, "Wrong number of parameters"),
        (ERR_STRING_TO_NATIVE, "Could not convert UTF-8 string to CString"),
        (ERR_NOT_A_HANDLE, "Failed to get handle, handle is not a connection or statement"),
        (ERR_UNSUPPORTED_CONVERSION,
            "Unsupported type conversion between MimerDatatype and Rust type"),
        (ERR_UNSUPPORTED_COLUMN_TYPE, "Unsupported type in Row::get_type()"),
        (ERR_INVALID_PARAMETER_TYPE, "Invalid parameter type for MimerDatatype-variant"),
        (ERR_INTERNAL, "Rust error"),
        (-1, "Unknown error"),
    ];
    for (code, message) in cases {
        let err = MimerError::mimer_error_from_code(code);
        assert_eq!(err.get_error_code(), code);
        assert_eq!(err.get_error_message(), message);
    }
}

#[test]
fn describing_without_a_handle_falls_back_to_the_table() {
    let err = MimerError::describe(-12501, Err(ERR_CONNECTION_DROPPED), 0, 0, 0, None);
    assert_eq!(err.get_error_code(), ERR_CONNECTION_DROPPED);
    assert_eq!(err.get_error_message(), "Connection is dropped");
}

#[test]
fn describe_classifies_each_step_of_the_fetch() {
    // A failing size probe.
    let err = MimerError::describe(-12501, Ok(()), -24108, 0, 0, None);
    assert_eq!(err.get_error_code(), -24108);
    // A failing fill call.
    let err = MimerError::describe(-12501, Ok(()), 9, -24108, 0, None);
    assert_eq!(err.get_error_code(), -24108);
    // A buffer that is not valid UTF-8.
    let err = MimerError::describe(-12501, Ok(()), 9, MIMER_SUCCESS, -12501, None);
    assert_eq!(err.get_error_code(), ERR_UTF8_FROM_NATIVE);
}

#[test]
fn errors_render_as_one_line() {
    let err = MimerError::mimer_error_from_code(ERR_CONNECTION_DROPPED);
    assert_eq!(err.to_text(), "MimerError: -26003, Connection is dropped");
}

#[test]
fn decimal_rendering_is_exact() {
    assert_eq!(u32_to_string(0), "0");
    assert_eq!(u32_to_string(7), "7");
    assert_eq!(u32_to_string(105), "105");
    assert_eq!(u32_to_string(4294967295), "4294967295");
    assert_eq!(i32_to_string(0), "0");
    assert_eq!(i32_to_string(-1), "-1");
    assert_eq!(i32_to_string(-26003), "-26003");
    assert_eq!(i32_to_string(2147483647), "2147483647");
    assert_eq!(i32_to_string(-2147483648), "-2147483648");
}

#[test]
fn chunk_plans_move_every_byte() {
    assert_eq!(lob_chunk_plan(0), Vec::<usize>::new());
    assert_eq!(lob_chunk_plan(10), vec![10]);
    assert_eq!(lob_chunk_plan(LOB_CHUNK_MAXSIZE), vec![LOB_CHUNK_MAXSIZE]);
    assert_eq!(lob_chunk_plan(LOB_CHUNK_MAXSIZE + 1), vec![LOB_CHUNK_MAXSIZE, 1]);
    let plan = lob_chunk_plan(2 * LOB_CHUNK_MAXSIZE + 500);
    assert_eq!(plan, vec![LOB_CHUNK_MAXSIZE, LOB_CHUNK_MAXSIZE, 500]);
    let total: usize = plan.iter().sum();
    assert_eq!(total, 2 * LOB_CHUNK_MAXSIZE + 500);
}

#[test]
fn character_chunks_do_not_split_characters() {
    // A buffer whose bytes around the native bound belong to one multi-byte
    // character: the cut steps back to its start.
    let mut bytes: Vec<u8> = vec![b'a'; LOB_CHUNK_MAXSIZE + 16];
    // Place a four-byte character so that it straddles the bound.
    let start = LOB_CHUNK_MAXSIZE - 2;
    bytes[start] = 0xF0;
    bytes[start + 1] = 0x9F;
    bytes[start + 2] = 0x98;
    bytes[start + 3] = 0x80;
    let n = clob_chunk_len(&bytes, 0);
    assert_eq!(n, start);
    // A pure ASCII buffer cuts exactly at the bound.
    let ascii: Vec<u8> = vec![b'x'; LOB_CHUNK_MAXSIZE + 16];
    assert_eq!(clob_chunk_len(&ascii, 0), LOB_CHUNK_MAXSIZE);
}

#[test]
fn continuation_bytes_are_recognized() {
    assert!(is_continuation(0x80));
    assert!(is_continuation(0xBF));
    assert!(!is_continuation(0x7F));
    assert!(!is_continuation(0xC0));
    assert!(!is_continuation(b'a'));
}

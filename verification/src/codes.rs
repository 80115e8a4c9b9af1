//! Status codes, column-type tags and counter identifiers of the native
//! call-level interface, together with the driver-local error codes.
//!
//! The native convention: a returned status of `0` is success, a negative
//! status is an error, and for a small set of calls a positive status carries
//! auxiliary success information such as an affected-row count.

use vstd::prelude::*;

verus! {

// ---------------------------------------------------------------------------
// Native status codes.
// ---------------------------------------------------------------------------

/// The native success status.
pub const MIMER_SUCCESS: i32 = 0;

/// Returned by fetch and scroll calls positioned outside the result set.
pub const MIMER_NO_DATA: i32 = 100;

/// Returned by typed getters when the fetched value is SQL NULL.
pub const MIMER_SQL_NULL_VALUE: i32 = -24002;

/// The native "illegal sequence of API calls" error.
pub const MIMER_SEQUENCE_ERROR: i32 = -24101;

/// The native "transaction already open" error raised by a second begin.
pub const MIMER_TRANSACTION_OPEN: i32 = -14011;

// ---------------------------------------------------------------------------
// Driver-local error codes. These never reach the native layer: they are
// produced by this library itself and resolved by its own error table.
// ---------------------------------------------------------------------------

/// Error converting a native byte buffer to a host string.
pub const ERR_UTF8_FROM_NATIVE: i32 = -26001;

/// The native session pointer returned by a successful connect was null.
pub const ERR_NULL_SESSION: i32 = -26002;

/// The parent session has been dropped.
pub const ERR_CONNECTION_DROPPED: i32 = -26003;

/// The parent statement has been dropped.
pub const ERR_STATEMENT_DROPPED: i32 = -26004;

/// The native handle is null.
pub const ERR_NULL_HANDLE: i32 = -26005;

/// A parameter list's length differs from the statement's parameter count.
pub const ERR_WRONG_PARAMETER_COUNT: i32 = -26006;

/// A host string could not be encoded for the native layer.
pub const ERR_STRING_TO_NATIVE: i32 = -26007;

/// A handle was requested from a value that is neither session nor statement.
pub const ERR_NOT_A_HANDLE: i32 = -26100;

/// Unsupported conversion between a tagged value and the requested host type.
pub const ERR_UNSUPPORTED_CONVERSION: i32 = -26200;

/// The column's type tag is not supported by the decoder.
pub const ERR_UNSUPPORTED_COLUMN_TYPE: i32 = -26201;

/// The parameter's declared type cannot take the given tagged value.
pub const ERR_INVALID_PARAMETER_TYPE: i32 = -26203;

/// A driver-internal failure with no more precise code.
pub const ERR_INTERNAL: i32 = -26999;

/// The driver-local error codes occupy one fixed negative range; codes in it
/// are resolved from the local table without touching the native layer.
pub open spec fn spec_is_driver_local(code: i32) -> bool {
    -26999 <= code <= -26000
}

/// Decides whether a status code lies in the driver-local reserved range.
pub fn is_driver_local(code: i32) -> (r: bool)
    ensures
        r == spec_is_driver_local(code),
{
    -26999 <= code && code <= -26000
}

/// A negative native status is an error.
pub open spec fn spec_is_error(code: i32) -> bool {
    code < 0
}

// ---------------------------------------------------------------------------
// Column-type tags, as the native layer reports them.
// ---------------------------------------------------------------------------

pub const MIMER_CHARACTER: i32 = 1;
pub const MIMER_T_INTEGER: i32 = 6;
pub const MIMER_T_DOUBLE: i32 = 10;
pub const MIMER_CHARACTER_VARYING: i32 = 11;
pub const MIMER_DATE: i32 = 12;
pub const MIMER_TIME: i32 = 13;
pub const MIMER_TIMESTAMP: i32 = 14;
pub const MIMER_INTERVAL_YEAR: i32 = 15;
pub const MIMER_INTERVAL_MONTH: i32 = 16;
pub const MIMER_INTERVAL_DAY: i32 = 17;
pub const MIMER_INTERVAL_HOUR: i32 = 18;
pub const MIMER_INTERVAL_MINUTE: i32 = 19;
pub const MIMER_INTERVAL_SECOND: i32 = 20;
pub const MIMER_INTERVAL_YEAR_TO_MONTH: i32 = 21;
pub const MIMER_INTERVAL_DAY_TO_HOUR: i32 = 22;
pub const MIMER_INTERVAL_DAY_TO_MINUTE: i32 = 23;
pub const MIMER_INTERVAL_DAY_TO_SECOND: i32 = 24;
pub const MIMER_INTERVAL_HOUR_TO_MINUTE: i32 = 25;
pub const MIMER_INTERVAL_HOUR_TO_SECOND: i32 = 26;
pub const MIMER_INTERVAL_MINUTE_TO_SECOND: i32 = 27;
pub const MIMER_BINARY: i32 = 34;
pub const MIMER_BINARY_VARYING: i32 = 35;
pub const MIMER_BLOB: i32 = 37;
pub const MIMER_CLOB: i32 = 38;
pub const MIMER_NCHAR: i32 = 39;
pub const MIMER_NCHAR_VARYING: i32 = 40;
pub const MIMER_NCLOB: i32 = 41;
pub const MIMER_BOOLEAN: i32 = 42;
pub const MIMER_NATIVE_SMALLINT_NULLABLE: i32 = 48;
pub const MIMER_NATIVE_INTEGER_NULLABLE: i32 = 50;
pub const MIMER_NATIVE_BIGINT_NULLABLE: i32 = 52;
pub const MIMER_NATIVE_REAL_NULLABLE: i32 = 54;
pub const MIMER_NATIVE_DOUBLE_NULLABLE: i32 = 56;
pub const MIMER_NATIVE_BLOB: i32 = 57;
pub const MIMER_NATIVE_CLOB: i32 = 58;
pub const MIMER_NATIVE_NCLOB: i32 = 59;
pub const MIMER_UTF8: i32 = 63;
pub const MIMER_GIS_LONGITUDE: i32 = 8004;
pub const MIMER_GIS_LATITUDE: i32 = 8020;
pub const MIMER_GIS_LOCATION: i32 = 8036;
pub const MIMER_GIS_COORDINATE: i32 = 8063;
pub const MIMER_UUID: i32 = 8104;

// ---------------------------------------------------------------------------
// Column-type tag families, as the decoder and the binder dispatch on them.
// ---------------------------------------------------------------------------

/// Tags fetched through the 64-bit integer getter.
pub open spec fn spec_is_big_int_tag(t: i32) -> bool {
    t == MIMER_NATIVE_BIGINT_NULLABLE
}

/// Decides membership in the 64-bit integer family.
pub fn is_big_int_tag(t: i32) -> (r: bool)
    ensures
        r == spec_is_big_int_tag(t),
{
    t == MIMER_NATIVE_BIGINT_NULLABLE
}

/// Tags fetched through the 32-bit integer getter.
pub open spec fn spec_is_small_int_tag(t: i32) -> bool {
    t == MIMER_T_INTEGER || t == MIMER_NATIVE_SMALLINT_NULLABLE || t
        == MIMER_NATIVE_INTEGER_NULLABLE
}

/// Decides membership in the 32-bit integer family.
pub fn is_small_int_tag(t: i32) -> (r: bool)
    ensures
        r == spec_is_small_int_tag(t),
{
    t == MIMER_T_INTEGER || t == MIMER_NATIVE_SMALLINT_NULLABLE || t
        == MIMER_NATIVE_INTEGER_NULLABLE
}

/// Tags fetched through the string getter.
pub open spec fn spec_is_string_tag(t: i32) -> bool {
    t == MIMER_CHARACTER_VARYING || t == MIMER_CHARACTER || t == MIMER_NCHAR || t
        == MIMER_NCHAR_VARYING || t == MIMER_UTF8
}

/// Decides membership in the string family.
pub fn is_string_tag(t: i32) -> (r: bool)
    ensures
        r == spec_is_string_tag(t),
{
    t == MIMER_CHARACTER_VARYING || t == MIMER_CHARACTER || t == MIMER_NCHAR || t
        == MIMER_NCHAR_VARYING || t == MIMER_UTF8
}

/// Tags fetched through the single-precision getter.
pub open spec fn spec_is_real_tag(t: i32) -> bool {
    t == MIMER_NATIVE_REAL_NULLABLE
}

/// Decides membership in the single-precision family.
pub fn is_real_tag(t: i32) -> (r: bool)
    ensures
        r == spec_is_real_tag(t),
{
    t == MIMER_NATIVE_REAL_NULLABLE
}

/// Tags fetched through the double-precision getter.
pub open spec fn spec_is_double_tag(t: i32) -> bool {
    t == MIMER_T_DOUBLE || t == MIMER_NATIVE_DOUBLE_NULLABLE
}

/// Decides membership in the double-precision family.
pub fn is_double_tag(t: i32) -> (r: bool)
    ensures
        r == spec_is_double_tag(t),
{
    t == MIMER_T_DOUBLE || t == MIMER_NATIVE_DOUBLE_NULLABLE
}

/// The boolean tag.
pub open spec fn spec_is_boolean_tag(t: i32) -> bool {
    t == MIMER_BOOLEAN
}

/// Decides membership in the boolean family.
pub fn is_boolean_tag(t: i32) -> (r: bool)
    ensures
        r == spec_is_boolean_tag(t),
{
    t == MIMER_BOOLEAN
}

/// The plain binary tags.
pub open spec fn spec_is_binary_tag(t: i32) -> bool {
    t == MIMER_BINARY || t == MIMER_BINARY_VARYING
}

/// Decides membership in the plain binary family.
pub fn is_binary_tag(t: i32) -> (r: bool)
    ensures
        r == spec_is_binary_tag(t),
{
    t == MIMER_BINARY || t == MIMER_BINARY_VARYING
}

/// Spatial tags, represented as binary data.
pub open spec fn spec_is_spatial_tag(t: i32) -> bool {
    t == MIMER_GIS_LOCATION || t == MIMER_GIS_LATITUDE || t == MIMER_GIS_LONGITUDE || t
        == MIMER_GIS_COORDINATE
}

/// Decides membership in the spatial family.
pub fn is_spatial_tag(t: i32) -> (r: bool)
    ensures
        r == spec_is_spatial_tag(t),
{
    t == MIMER_GIS_LOCATION || t == MIMER_GIS_LATITUDE || t == MIMER_GIS_LONGITUDE || t
        == MIMER_GIS_COORDINATE
}

/// Binary large-object tags.
pub open spec fn spec_is_blob_tag(t: i32) -> bool {
    t == MIMER_BLOB || t == MIMER_NATIVE_BLOB
}

/// Decides membership in the binary large-object family.
pub fn is_blob_tag(t: i32) -> (r: bool)
    ensures
        r == spec_is_blob_tag(t),
{
    t == MIMER_BLOB || t == MIMER_NATIVE_BLOB
}

/// Character large-object tags.
pub open spec fn spec_is_clob_tag(t: i32) -> bool {
    t == MIMER_CLOB || t == MIMER_NCLOB || t == MIMER_NATIVE_CLOB || t == MIMER_NATIVE_NCLOB
}

/// Decides membership in the character large-object family.
pub fn is_clob_tag(t: i32) -> (r: bool)
    ensures
        r == spec_is_clob_tag(t),
{
    t == MIMER_CLOB || t == MIMER_NCLOB || t == MIMER_NATIVE_CLOB || t == MIMER_NATIVE_NCLOB
}

/// Temporal tags, marshalled as character data.
pub open spec fn spec_is_temporal_tag(t: i32) -> bool {
    t == MIMER_DATE || t == MIMER_TIME || t == MIMER_TIMESTAMP || (MIMER_INTERVAL_YEAR <= t
        && t <= MIMER_INTERVAL_MINUTE_TO_SECOND)
}

/// Decides membership in the temporal family.
pub fn is_temporal_tag(t: i32) -> (r: bool)
    ensures
        r == spec_is_temporal_tag(t),
{
    t == MIMER_DATE || t == MIMER_TIME || t == MIMER_TIMESTAMP || (MIMER_INTERVAL_YEAR <= t
        && t <= MIMER_INTERVAL_MINUTE_TO_SECOND)
}

// ---------------------------------------------------------------------------
// Statistics counter identifiers.
// ---------------------------------------------------------------------------

/// The number of 4K pages available in the system.
pub const BSI_4K: i32 = 56;

/// The number of 32K pages available in the system.
pub const BSI_32K: i32 = 57;

/// The number of 128K pages available in the system.
pub const BSI_128K: i32 = 58;

/// The total number of pages in use.
pub const BSI_PAGES_USED: i32 = 61;

/// The number of 4K pages in use.
pub const BSI_4K_USED: i32 = 62;

/// The number of 32K pages in use.
pub const BSI_32K_USED: i32 = 63;

/// The number of 128K pages in use.
pub const BSI_128K_USED: i32 = 64;

// ---------------------------------------------------------------------------
// Large-object transfer.
// ---------------------------------------------------------------------------

/// The fixed maximum number of bytes moved by one large-object chunk call.
pub const LOB_CHUNK_MAXSIZE: usize = 1048500;

} // verus!

//! Rows and the value decoder.
//!
//! A row is a transient, read-only view bound to its statement's current
//! fetch position: it carries no data of its own and holds only a non-owning
//! back-reference to the statement, so every accessor re-validates the
//! parent chain and then reads live from the current fetch buffer. A held
//! row is valid only for the fetch position active when it was produced;
//! after the cursor advances again it silently reflects the new current
//! position.
//!
//! Decoding dispatches on the column's native type tag: integer width by
//! tag, strings through the two-call size-then-fill buffer protocol, binary
//! through the same size-then-fill pattern, large objects through chunked
//! reads, booleans through a tri-state integer convention whose sentinel
//! means SQL NULL. The native getters' outcomes enter as arguments; what
//! they mean is decided, with proof, here.

use vstd::prelude::*;
use vstd::seq_lib::*;
use crate::codes::{MIMER_SQL_NULL_VALUE, ERR_STATEMENT_DROPPED, ERR_CONNECTION_DROPPED,
    ERR_UTF8_FROM_NATIVE, ERR_UNSUPPORTED_COLUMN_TYPE, ERR_INTERNAL, spec_is_big_int_tag,
    is_big_int_tag, spec_is_small_int_tag, is_small_int_tag, spec_is_string_tag, is_string_tag,
    spec_is_temporal_tag, is_temporal_tag, spec_is_real_tag, is_real_tag, spec_is_double_tag,
    is_double_tag, spec_is_boolean_tag, is_boolean_tag, spec_is_binary_tag, is_binary_tag,
    spec_is_spatial_tag, is_spatial_tag, spec_is_blob_tag, is_blob_tag, spec_is_clob_tag,
    is_clob_tag};
use crate::driver::{Driver, DriverModel};
use crate::types::{MimerDatatype, SqlValue, FromSql};

verus! {

/// A row of a result set: a non-owning back-reference to the statement whose
/// fetch buffer it reads.
#[derive(Clone, Debug)]
pub struct Row {
    /// The identity of the statement this row reads from.
    pub statement: usize,
}

// ---------------------------------------------------------------------------
// What the native getters handed back.
// ---------------------------------------------------------------------------

/// The outcome of the native getter calls for one column, as the embedding
/// observed them. Which variant applies is fixed by the column's type tag.
pub enum RawFetch {
    /// The 64-bit integer getter: its status and the value it wrote.
    Int64 { rc: i32, value: i64 },
    /// The 32-bit integer getter: its status and the value it wrote.
    Int32 { rc: i32, value: i32 },
    /// The string getter, called once with no buffer to learn the size and
    /// once to fill; `text` is the filled buffer as a host string, `None`
    /// where it was not valid UTF-8.
    Text { probe: i32, fill_rc: i32, text: Option<String> },
    /// The single-precision getter: its status and the value's bit pattern.
    Real { rc: i32, bits: u32 },
    /// The double-precision getter: its status and the value's bit pattern.
    Double { rc: i32, bits: u64 },
    /// The boolean getter's tri-state integer.
    Boolean { value: i32 },
    /// The binary getter, size probe then fill.
    Binary { probe: i32, fill_rc: i32, bytes: Vec<u8> },
    /// A binary large object: the open status and the accumulated chunked
    /// reads, or the first failing chunk status.
    Lob { rc: i32, data: Result<Vec<u8>, i32> },
    /// A character large object: as a binary one, before padding bytes are
    /// stripped and the text is decoded.
    Clob { rc: i32, data: Result<Vec<u8>, i32> },
}

/// The model of a getter outcome.
pub enum RawFetchModel {
    Int64 { rc: i32, value: i64 },
    Int32 { rc: i32, value: i32 },
    Text { probe: i32, fill_rc: i32, text: Option<Seq<char>> },
    Real { rc: i32, bits: u32 },
    Double { rc: i32, bits: u64 },
    Boolean { value: i32 },
    Binary { probe: i32, fill_rc: i32, bytes: Seq<u8> },
    Lob { rc: i32, data: Result<Seq<u8>, i32> },
    Clob { rc: i32, data: Result<Seq<u8>, i32> },
}

impl DeepView for RawFetch {
    type V = RawFetchModel;

    open spec fn deep_view(&self) -> RawFetchModel {
        match self {
            RawFetch::Int64 { rc, value } => RawFetchModel::Int64 { rc: *rc, value: *value },
            RawFetch::Int32 { rc, value } => RawFetchModel::Int32 { rc: *rc, value: *value },
            RawFetch::Text { probe, fill_rc, text } => RawFetchModel::Text {
                probe: *probe,
                fill_rc: *fill_rc,
                text: match text {
                    Some(s) => Some(s@),
                    None => None,
                },
            },
            RawFetch::Real { rc, bits } => RawFetchModel::Real { rc: *rc, bits: *bits },
            RawFetch::Double { rc, bits } => RawFetchModel::Double { rc: *rc, bits: *bits },
            RawFetch::Boolean { value } => RawFetchModel::Boolean { value: *value },
            RawFetch::Binary { probe, fill_rc, bytes } => RawFetchModel::Binary {
                probe: *probe,
                fill_rc: *fill_rc,
                bytes: bytes@,
            },
            RawFetch::Lob { rc, data } => RawFetchModel::Lob {
                rc: *rc,
                data: match data {
                    Ok(v) => Ok(v@),
                    Err(e) => Err(*e),
                },
            },
            RawFetch::Clob { rc, data } => RawFetchModel::Clob {
                rc: *rc,
                data: match data {
                    Ok(v) => Ok(v@),
                    Err(e) => Err(*e),
                },
            },
        }
    }
}

/// The getter outcome fits the family the column's type tag selects.
pub open spec fn spec_family_matches(tag: i32, raw: RawFetchModel) -> bool {
    if tag < 0 {
        true
    } else if spec_is_big_int_tag(tag) {
        raw is Int64
    } else if spec_is_small_int_tag(tag) {
        raw is Int32
    } else if spec_is_string_tag(tag) || spec_is_temporal_tag(tag) {
        raw matches RawFetchModel::Text { probe, fill_rc, text } && probe < i32::MAX
    } else if spec_is_real_tag(tag) {
        raw is Real
    } else if spec_is_double_tag(tag) {
        raw is Double
    } else if spec_is_boolean_tag(tag) {
        raw is Boolean
    } else if spec_is_binary_tag(tag) || spec_is_spatial_tag(tag) {
        raw matches RawFetchModel::Binary { probe, fill_rc, bytes } && (probe >= 0 ==> bytes.len()
            == probe)
    } else if spec_is_blob_tag(tag) || spec_is_clob_tag(tag) {
        (raw is Lob || raw is Clob) && (spec_is_blob_tag(tag) ==> raw is Lob) && (spec_is_clob_tag(
            tag,
        ) ==> raw is Clob)
    } else {
        true
    }
}

// ---------------------------------------------------------------------------
// UTF-8 decoding of native buffers.
// ---------------------------------------------------------------------------

/// The characters that a byte sequence decodes to under UTF-8, or nothing
/// where the bytes are not valid UTF-8.
pub uninterp spec fn spec_utf8_decode(bytes: Seq<u8>) -> Option<Seq<char>>;

/// Relies on String::from_utf8: decodes the bytes as UTF-8, returning an
/// error if and only if they are not valid UTF-8; bytes that are all ASCII
/// are valid and decode to themselves, character for character.
#[verifier::external_body]
fn utf8_to_string(v: Vec<u8>) -> (r: Result<String, ()>)
    ensures
        match r {
            Ok(s) => spec_utf8_decode(v@) == Some(s@),
            Err(u) => spec_utf8_decode(v@) == Option::<Seq<char>>::None,
        },
        (forall|i: int| 0 <= i < v@.len() ==> v@[i] < 128) ==> r is Ok,
        (forall|i: int| 0 <= i < v@.len() ==> v@[i] < 128) && r is Ok ==> (match r {
            Ok(s) => s@ == v@.map_values(|b: u8| b as char),
            Err(u) => false,
        }),
{
    match String::from_utf8(v) {
        Ok(s) => Ok(s),
        Err(_) => Err(()),
    }
}

/// The padding predicate: character-large-object buffers are over-allocated
/// for multi-byte expansion and padded with zero bytes.
pub open spec fn keep_nonzero() -> spec_fn(u8) -> bool {
    |b: u8| b != 0
}

/// Strips the embedded zero padding bytes out of a character-large-object
/// buffer before the text is decoded.
pub fn strip_zero_bytes(v: &Vec<u8>) -> (r: Vec<u8>)
    ensures
        r@ == v@.filter(keep_nonzero()),
{
    let mut out: Vec<u8> = Vec::new();
    let n = v.len();
    let mut i: usize = 0;
    while i < n
        invariant
            n == v@.len(),
            i <= n,
            out@ == v@.take(i as int).filter(keep_nonzero()),
        decreases n - i,
    {
        let b = v[i];
        proof {
            let prefix = v@.take(i as int);
            let next = v@.take(i as int + 1);
            assert(next =~= prefix.push(b));
            prefix.lemma_filter_push(b, keep_nonzero());
            assert(keep_nonzero()(b) == (b != 0));
        }
        if b != 0 {
            out.push(b);
        }
        i += 1;
    }
    proof {
        assert(v@.take(n as int) =~= v@);
    }
    out
}

// ---------------------------------------------------------------------------
// The decoder.
// ---------------------------------------------------------------------------

/// What decoding one column yields, after the liveness gates have passed:
/// the tag picks the family, the family's getter outcome is classified, and
/// the SQL NULL sentinel collapses to the null tagged value.
pub open spec fn spec_decode_column(tag: i32, raw: RawFetchModel) -> Result<SqlValue, i32> {
    if tag < 0 {
        Err(tag)
    } else if spec_is_big_int_tag(tag) {
        match raw {
            RawFetchModel::Int64 { rc, value } => if rc == 0 {
                Ok(SqlValue::BigInt(value))
            } else if rc == MIMER_SQL_NULL_VALUE {
                Ok(SqlValue::Null)
            } else {
                Err(rc)
            },
            _ => Err(ERR_UNSUPPORTED_COLUMN_TYPE),
        }
    } else if spec_is_small_int_tag(tag) {
        match raw {
            RawFetchModel::Int32 { rc, value } => if rc == 0 {
                Ok(SqlValue::Int(value))
            } else if rc == MIMER_SQL_NULL_VALUE {
                Ok(SqlValue::Null)
            } else {
                Err(rc)
            },
            _ => Err(ERR_UNSUPPORTED_COLUMN_TYPE),
        }
    } else if spec_is_string_tag(tag) || spec_is_temporal_tag(tag) {
        match raw {
            RawFetchModel::Text { probe, fill_rc, text } => if probe < 0 {
                Err(probe)
            } else {
                match text {
                    Some(t) => if fill_rc == probe {
                        Ok(SqlValue::Text(t))
                    } else if fill_rc == MIMER_SQL_NULL_VALUE {
                        Ok(SqlValue::Null)
                    } else {
                        Err((probe + 1) as i32)
                    },
                    None => Err(ERR_UTF8_FROM_NATIVE),
                }
            },
            _ => Err(ERR_UNSUPPORTED_COLUMN_TYPE),
        }
    } else if spec_is_real_tag(tag) {
        match raw {
            RawFetchModel::Real { rc, bits } => if rc == 0 {
                Ok(SqlValue::Real(bits))
            } else if rc == MIMER_SQL_NULL_VALUE {
                Ok(SqlValue::Null)
            } else {
                Err(rc)
            },
            _ => Err(ERR_UNSUPPORTED_COLUMN_TYPE),
        }
    } else if spec_is_double_tag(tag) {
        match raw {
            RawFetchModel::Double { rc, bits } => if rc == 0 {
                Ok(SqlValue::Double(bits))
            } else if rc == MIMER_SQL_NULL_VALUE {
                Ok(SqlValue::Null)
            } else {
                Err(rc)
            },
            _ => Err(ERR_UNSUPPORTED_COLUMN_TYPE),
        }
    } else if spec_is_boolean_tag(tag) {
        match raw {
            RawFetchModel::Boolean { value } => if value == 1 {
                Ok(SqlValue::Bool(true))
            } else if value == 0 {
                Ok(SqlValue::Bool(false))
            } else if value == MIMER_SQL_NULL_VALUE {
                Ok(SqlValue::Null)
            } else {
                Err(value)
            },
            _ => Err(ERR_UNSUPPORTED_COLUMN_TYPE),
        }
    } else if spec_is_binary_tag(tag) || spec_is_spatial_tag(tag) {
        match raw {
            RawFetchModel::Binary { probe, fill_rc, bytes } => if probe < 0 {
                Err(probe)
            } else if fill_rc < 0 {
                Err(fill_rc)
            } else {
                Ok(SqlValue::Binary(bytes))
            },
            _ => Err(ERR_UNSUPPORTED_COLUMN_TYPE),
        }
    } else if spec_is_blob_tag(tag) {
        match raw {
            RawFetchModel::Lob { rc, data } => if rc < 0 {
                Err(rc)
            } else {
                match data {
                    Ok(bytes) => Ok(SqlValue::Binary(bytes)),
                    Err(e) => Err(e),
                }
            },
            _ => Err(ERR_UNSUPPORTED_COLUMN_TYPE),
        }
    } else if spec_is_clob_tag(tag) {
        match raw {
            RawFetchModel::Clob { rc, data } => if rc < 0 {
                Err(rc)
            } else {
                match data {
                    Ok(bytes) => match spec_utf8_decode(bytes.filter(keep_nonzero())) {
                        Some(t) => Ok(SqlValue::Text(t)),
                        None => Err(ERR_INTERNAL),
                    },
                    Err(e) => Err(e),
                }
            },
            _ => Err(ERR_UNSUPPORTED_COLUMN_TYPE),
        }
    } else {
        Err(ERR_UNSUPPORTED_COLUMN_TYPE)
    }
}

/// What a raw-type read of one column yields, gates included: a dropped
/// statement, then a dropped session, fail before any native handle is
/// touched; then the column decodes by its tag.
pub open spec fn spec_row_get_type(m: DriverModel, j: int, tag: i32, raw: RawFetchModel) -> Result<
    SqlValue,
    i32,
> {
    if !m.statements[j].live {
        Err(ERR_STATEMENT_DROPPED)
    } else if !m.parent_session_live(j) {
        Err(ERR_CONNECTION_DROPPED)
    } else {
        spec_decode_column(tag, raw)
    }
}

/// What a typed read of one column yields: a raw read, then the requested
/// host type's conversion — except that SQL NULL, whether it arrived as the
/// null tagged value or as the sentinel status, collapses to an absent value
/// rather than an error.
pub open spec fn spec_row_get<T: FromSql>(
    m: DriverModel,
    j: int,
    tag: i32,
    raw: RawFetchModel,
) -> Result<Option<T::V>, i32> {
    match spec_row_get_type(m, j, tag, raw) {
        Ok(v) => if v is Null {
            Ok(None)
        } else {
            match T::from_sql_spec(v) {
                Ok(x) => Ok(Some(x)),
                Err(e) => Err(e),
            }
        },
        Err(e) => if e == MIMER_SQL_NULL_VALUE {
            Ok(None)
        } else {
            Err(e)
        },
    }
}

impl Driver {
    /// Reads the tagged value of one column at the row's fetch position,
    /// dispatching on the column's native type tag. The getter outcomes come
    /// from the embedding; an unknown tag yields the unsupported-column-type
    /// error.
    pub fn row_get_type(&self, row: &Row, tag: i32, raw: RawFetch) -> (r: Result<
        MimerDatatype,
        i32,
    >)
        requires
            self@.wf(),
            row.statement < self@.statements.len(),
            spec_family_matches(tag, raw.deep_view()),
        ensures
            match r {
                Ok(v) => spec_row_get_type(self@, row.statement as int, tag, raw.deep_view())
                    == Ok::<SqlValue, i32>(v.deep_view()),
                Err(e) => spec_row_get_type(self@, row.statement as int, tag, raw.deep_view())
                    == Err::<SqlValue, i32>(e),
            },
    {
        let j = row.statement;
        if !self.statements[j].live {
            return Err(ERR_STATEMENT_DROPPED);
        }
        proof {
            assert(self@.stmt_in_range(j as int));
        }
        let sid = self.statements[j].session;
        if !self.sessions[sid].live {
            return Err(ERR_CONNECTION_DROPPED);
        }
        if tag < 0 {
            return Err(tag);
        }
        if is_big_int_tag(tag) {
            match raw {
                RawFetch::Int64 { rc, value } => {
                    if rc == 0 {
                        Ok(MimerDatatype::BigInt(value))
                    } else if rc == MIMER_SQL_NULL_VALUE {
                        Ok(MimerDatatype::Null)
                    } else {
                        Err(rc)
                    }
                },
                _ => Err(ERR_UNSUPPORTED_COLUMN_TYPE),
            }
        } else if is_small_int_tag(tag) {
            match raw {
                RawFetch::Int32 { rc, value } => {
                    if rc == 0 {
                        Ok(MimerDatatype::Int(value))
                    } else if rc == MIMER_SQL_NULL_VALUE {
                        Ok(MimerDatatype::Null)
                    } else {
                        Err(rc)
                    }
                },
                _ => Err(ERR_UNSUPPORTED_COLUMN_TYPE),
            }
        } else if is_string_tag(tag) || is_temporal_tag(tag) {
            match raw {
                RawFetch::Text { probe, fill_rc, text } => {
                    if probe < 0 {
                        return Err(probe);
                    }
                    match text {
                        Some(t) => {
                            if fill_rc == probe {
                                Ok(MimerDatatype::String(t))
                            } else if fill_rc == MIMER_SQL_NULL_VALUE {
                                Ok(MimerDatatype::Null)
                            } else {
                                Err(probe + 1)
                            }
                        },
                        None => Err(ERR_UTF8_FROM_NATIVE),
                    }
                },
                _ => Err(ERR_UNSUPPORTED_COLUMN_TYPE),
            }
        } else if is_real_tag(tag) {
            match raw {
                RawFetch::Real { rc, bits } => {
                    if rc == 0 {
                        Ok(MimerDatatype::Real(bits))
                    } else if rc == MIMER_SQL_NULL_VALUE {
                        Ok(MimerDatatype::Null)
                    } else {
                        Err(rc)
                    }
                },
                _ => Err(ERR_UNSUPPORTED_COLUMN_TYPE),
            }
        } else if is_double_tag(tag) {
            match raw {
                RawFetch::Double { rc, bits } => {
                    if rc == 0 {
                        Ok(MimerDatatype::Double(bits))
                    } else if rc == MIMER_SQL_NULL_VALUE {
                        Ok(MimerDatatype::Null)
                    } else {
                        Err(rc)
                    }
                },
                _ => Err(ERR_UNSUPPORTED_COLUMN_TYPE),
            }
        } else if is_boolean_tag(tag) {
            match raw {
                RawFetch::Boolean { value } => {
                    if value == 1 {
                        Ok(MimerDatatype::Bool(true))
                    } else if value == 0 {
                        Ok(MimerDatatype::Bool(false))
                    } else if value == MIMER_SQL_NULL_VALUE {
                        Ok(MimerDatatype::Null)
                    } else {
                        Err(value)
                    }
                },
                _ => Err(ERR_UNSUPPORTED_COLUMN_TYPE),
            }
        } else if is_binary_tag(tag) || is_spatial_tag(tag) {
            match raw {
                RawFetch::Binary { probe, fill_rc, bytes } => {
                    if probe < 0 {
                        Err(probe)
                    } else if fill_rc < 0 {
                        Err(fill_rc)
                    } else {
                        Ok(MimerDatatype::BinaryArray(bytes))
                    }
                },
                _ => Err(ERR_UNSUPPORTED_COLUMN_TYPE),
            }
        } else if is_blob_tag(tag) {
            match raw {
                RawFetch::Lob { rc, data } => {
                    if rc < 0 {
                        return Err(rc);
                    }
                    match data {
                        Ok(bytes) => Ok(MimerDatatype::BinaryArray(bytes)),
                        Err(e) => Err(e),
                    }
                },
                _ => Err(ERR_UNSUPPORTED_COLUMN_TYPE),
            }
        } else if is_clob_tag(tag) {
            match raw {
                RawFetch::Clob { rc, data } => {
                    if rc < 0 {
                        return Err(rc);
                    }
                    match data {
                        Ok(bytes) => {
                            let stripped = strip_zero_bytes(&bytes);
                            match utf8_to_string(stripped) {
                                Ok(s) => Ok(MimerDatatype::String(s)),
                                Err(u) => Err(ERR_INTERNAL),
                            }
                        },
                        Err(e) => Err(e),
                    }
                },
                _ => Err(ERR_UNSUPPORTED_COLUMN_TYPE),
            }
        } else {
            Err(ERR_UNSUPPORTED_COLUMN_TYPE)
        }
    }

    /// Reads one column at the row's fetch position and converts it to the
    /// requested host type. A fetched SQL NULL yields an absent value rather
    /// than an error; a conversion the host type rejects propagates its
    /// error.
    pub fn row_get<T: FromSql>(&self, row: &Row, tag: i32, raw: RawFetch) -> (r: Result<
        Option<T>,
        i32,
    >)
        requires
            self@.wf(),
            row.statement < self@.statements.len(),
            spec_family_matches(tag, raw.deep_view()),
        ensures
            match r {
                Ok(Some(x)) => spec_row_get::<T>(self@, row.statement as int, tag, raw.deep_view())
                    == Ok::<Option<T::V>, i32>(Some(x.deep_view())),
                Ok(None) => spec_row_get::<T>(self@, row.statement as int, tag, raw.deep_view())
                    == Ok::<Option<T::V>, i32>(None),
                Err(e) => spec_row_get::<T>(self@, row.statement as int, tag, raw.deep_view())
                    == Err::<Option<T::V>, i32>(e),
            },
    {
        match self.row_get_type(row, tag, raw) {
            Ok(v) => {
                if matches!(v, MimerDatatype::Null) {
                    return Ok(None);
                }
                match T::from_sql(v) {
                    Ok(x) => Ok(Some(x)),
                    Err(e) => Err(e),
                }
            },
            Err(e) => {
                if e == MIMER_SQL_NULL_VALUE {
                    Ok(None)
                } else {
                    Err(e)
                }
            },
        }
    }

    /// Decides whether the value at the row's fetch position is SQL NULL,
    /// from the native null-check's tri-state status: positive means null,
    /// zero means not null, negative is the error.
    pub fn row_is_null(&self, row: &Row, rc: i32) -> (r: Result<bool, i32>)
        requires
            self@.wf(),
            row.statement < self@.statements.len(),
        ensures
            r == (if !self@.statements[row.statement as int].live {
                Err::<bool, i32>(ERR_STATEMENT_DROPPED)
            } else if !self@.parent_session_live(row.statement as int) {
                Err::<bool, i32>(ERR_CONNECTION_DROPPED)
            } else if rc > 0 {
                Ok::<bool, i32>(true)
            } else if rc == 0 {
                Ok::<bool, i32>(false)
            } else {
                Err::<bool, i32>(rc)
            }),
    {
        let j = row.statement;
        if !self.statements[j].live {
            return Err(ERR_STATEMENT_DROPPED);
        }
        proof {
            assert(self@.stmt_in_range(j as int));
        }
        let sid = self.statements[j].session;
        if !self.sessions[sid].live {
            return Err(ERR_CONNECTION_DROPPED);
        }
        if rc > 0 {
            Ok(true)
        } else if rc == 0 {
            Ok(false)
        } else {
            Err(rc)
        }
    }
}

// ---------------------------------------------------------------------------
// Laws.
// ---------------------------------------------------------------------------

/// Null handling: whenever the raw read of a column yields SQL NULL — as the
/// null tagged value or as the sentinel status — the typed read yields an
/// absent value, for every host type.
pub proof fn lemma_null_yields_none<T: FromSql>(
    m: DriverModel,
    j: int,
    tag: i32,
    raw: RawFetchModel,
)
    requires
        spec_row_get_type(m, j, tag, raw) == Ok::<SqlValue, i32>(SqlValue::Null)
            || spec_row_get_type(m, j, tag, raw) == Err::<SqlValue, i32>(MIMER_SQL_NULL_VALUE),
    ensures
        spec_row_get::<T>(m, j, tag, raw) == Ok::<Option<T::V>, i32>(None),
{
}

} // verus!

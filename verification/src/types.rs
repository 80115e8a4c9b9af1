//! The tagged interchange values used for type conversion between host types
//! and the native layer, and the conversion capability pair ([`ToSql`],
//! [`FromSql`]) that application code may also implement for its own types.
//!
//! Floating-point columns are carried as their IEEE 754 bit patterns, since
//! this library states nothing about floating-point arithmetic; the pattern
//! converts losslessly at the boundary.

use vstd::prelude::*;
use vstd::bytes::{spec_u32_to_le_bytes, spec_u32_from_le_bytes, u32_to_le_bytes, u32_from_le_bytes,
    lemma_auto_spec_u32_to_from_le_bytes};
use vstd::slice::{slice_to_vec, slice_subrange};
use crate::codes::ERR_UNSUPPORTED_CONVERSION;

verus! {

/// A tagged value: the interchange union between host values and the native
/// layer's typed setters and getters.
#[derive(Debug, Clone, PartialEq)]
pub enum MimerDatatype {
    /// SQL NULL.
    Null,
    /// A 64-bit integer.
    BigInt(i64),
    /// A 32-bit integer.
    Int(i32),
    /// A double-precision floating-point value, as its IEEE 754 bit pattern.
    Double(u64),
    /// A single-precision floating-point value, as its IEEE 754 bit pattern.
    Real(u32),
    /// Character data.
    String(String),
    /// A boolean.
    Bool(bool),
    /// Binary data.
    BinaryArray(Vec<u8>),
}

/// The mathematical model of a tagged value: character data as a sequence of
/// characters, binary data as a sequence of bytes.
pub enum SqlValue {
    Null,
    BigInt(i64),
    Int(i32),
    Double(u64),
    Real(u32),
    Text(Seq<char>),
    Bool(bool),
    Binary(Seq<u8>),
}

impl DeepView for MimerDatatype {
    type V = SqlValue;

    open spec fn deep_view(&self) -> SqlValue {
        match self {
            MimerDatatype::Null => SqlValue::Null,
            MimerDatatype::BigInt(v) => SqlValue::BigInt(*v),
            MimerDatatype::Int(v) => SqlValue::Int(*v),
            MimerDatatype::Double(v) => SqlValue::Double(*v),
            MimerDatatype::Real(v) => SqlValue::Real(*v),
            MimerDatatype::String(v) => SqlValue::Text(v@),
            MimerDatatype::Bool(v) => SqlValue::Bool(*v),
            MimerDatatype::BinaryArray(v) => SqlValue::Binary(v@),
        }
    }
}

/// Translation of a host type into a tagged value.
pub trait ToSql {
    /// The model of the tagged value this host value encodes to.
    spec fn to_sql_spec(&self) -> SqlValue;

    /// Encodes this host value as a tagged value.
    fn to_sql(&self) -> (r: MimerDatatype)
        ensures
            r.deep_view() == self.to_sql_spec(),
    ;
}

/// Translation of a tagged value back into a host type.
pub trait FromSql: Sized + DeepView {
    /// The model of the host value a tagged value's model decodes to, or the
    /// error rejecting it.
    spec fn from_sql_spec(value: SqlValue) -> Result<Self::V, i32>;

    /// Decodes a tagged value into this host type.
    fn from_sql(value: MimerDatatype) -> (r: Result<Self, i32>)
        ensures
            match r {
                Ok(v) => Self::from_sql_spec(value.deep_view()) == Ok::<Self::V, i32>(
                    v.deep_view(),
                ),
                Err(e) => Self::from_sql_spec(value.deep_view()) == Err::<Self::V, i32>(e),
            },
    ;
}

impl<T: ToSql> ToSql for Option<T> {
    open spec fn to_sql_spec(&self) -> SqlValue {
        match self {
            Some(v) => v.to_sql_spec(),
            None => SqlValue::Null,
        }
    }

    fn to_sql(&self) -> (r: MimerDatatype) {
        match self {
            Some(v) => v.to_sql(),
            None => MimerDatatype::Null,
        }
    }
}

impl ToSql for i32 {
    open spec fn to_sql_spec(&self) -> SqlValue {
        SqlValue::Int(*self)
    }

    fn to_sql(&self) -> (r: MimerDatatype) {
        MimerDatatype::Int(*self)
    }
}

impl FromSql for i32 {
    open spec fn from_sql_spec(value: SqlValue) -> Result<i32, i32> {
        match value {
            SqlValue::Int(val) => Ok(val),
            _ => Err(ERR_UNSUPPORTED_CONVERSION),
        }
    }

    fn from_sql(value: MimerDatatype) -> (r: Result<i32, i32>) {
        match value {
            MimerDatatype::Int(val) => Ok(val),
            _ => Err(ERR_UNSUPPORTED_CONVERSION),
        }
    }
}

impl ToSql for i64 {
    open spec fn to_sql_spec(&self) -> SqlValue {
        SqlValue::BigInt(*self)
    }

    fn to_sql(&self) -> (r: MimerDatatype) {
        MimerDatatype::BigInt(*self)
    }
}

impl FromSql for i64 {
    open spec fn from_sql_spec(value: SqlValue) -> Result<i64, i32> {
        match value {
            SqlValue::BigInt(val) => Ok(val),
            _ => Err(ERR_UNSUPPORTED_CONVERSION),
        }
    }

    fn from_sql(value: MimerDatatype) -> (r: Result<i64, i32>) {
        match value {
            MimerDatatype::BigInt(val) => Ok(val),
            _ => Err(ERR_UNSUPPORTED_CONVERSION),
        }
    }
}

impl ToSql for String {
    open spec fn to_sql_spec(&self) -> SqlValue {
        SqlValue::Text(self@)
    }

    fn to_sql(&self) -> (r: MimerDatatype) {
        MimerDatatype::String(self.clone())
    }
}

impl FromSql for String {
    open spec fn from_sql_spec(value: SqlValue) -> Result<Seq<char>, i32> {
        match value {
            SqlValue::Text(val) => Ok(val),
            _ => Err(ERR_UNSUPPORTED_CONVERSION),
        }
    }

    fn from_sql(value: MimerDatatype) -> (r: Result<String, i32>) {
        match value {
            MimerDatatype::String(val) => Ok(val),
            _ => Err(ERR_UNSUPPORTED_CONVERSION),
        }
    }
}

impl ToSql for bool {
    open spec fn to_sql_spec(&self) -> SqlValue {
        SqlValue::Bool(*self)
    }

    fn to_sql(&self) -> (r: MimerDatatype) {
        MimerDatatype::Bool(*self)
    }
}

impl FromSql for bool {
    open spec fn from_sql_spec(value: SqlValue) -> Result<bool, i32> {
        match value {
            SqlValue::Bool(val) => Ok(val),
            _ => Err(ERR_UNSUPPORTED_CONVERSION),
        }
    }

    fn from_sql(value: MimerDatatype) -> (r: Result<bool, i32>) {
        match value {
            MimerDatatype::Bool(val) => Ok(val),
            _ => Err(ERR_UNSUPPORTED_CONVERSION),
        }
    }
}

impl ToSql for Vec<u8> {
    open spec fn to_sql_spec(&self) -> SqlValue {
        SqlValue::Binary(self@)
    }

    fn to_sql(&self) -> (r: MimerDatatype) {
        let copy = slice_to_vec(self.as_slice());
        proof {
            assert(copy@ =~= self@);
        }
        MimerDatatype::BinaryArray(copy)
    }
}

impl FromSql for Vec<u8> {
    open spec fn from_sql_spec(value: SqlValue) -> Result<Seq<u8>, i32> {
        match value {
            SqlValue::Binary(val) => Ok(val),
            _ => Err(ERR_UNSUPPORTED_CONVERSION),
        }
    }

    fn from_sql(value: MimerDatatype) -> (r: Result<Vec<u8>, i32>) {
        match value {
            MimerDatatype::BinaryArray(val) => {
                proof {
                    assert(val.deep_view() =~= val@);
                }
                Ok(val)
            },
            _ => Err(ERR_UNSUPPORTED_CONVERSION),
        }
    }
}

// ---------------------------------------------------------------------------
// Host types of this library that marshal through binary columns.
// ---------------------------------------------------------------------------

/// A universally unique identifier, as its sixteen bytes.
#[derive(Debug, Clone, PartialEq)]
pub struct Uuid {
    pub bytes: Vec<u8>,
}

impl Uuid {
    /// A well-formed identifier holds exactly sixteen bytes.
    pub open spec fn wf(self) -> bool {
        self.bytes@.len() == 16
    }

    /// Builds an identifier from its sixteen bytes.
    pub fn from_bytes(bytes: Vec<u8>) -> (r: Uuid)
        requires
            bytes@.len() == 16,
        ensures
            r.bytes == bytes,
            r.wf(),
    {
        Uuid { bytes }
    }
}

impl DeepView for Uuid {
    type V = Seq<u8>;

    open spec fn deep_view(&self) -> Seq<u8> {
        self.bytes@
    }
}

impl ToSql for Uuid {
    open spec fn to_sql_spec(&self) -> SqlValue {
        SqlValue::Binary(self.bytes@)
    }

    fn to_sql(&self) -> (r: MimerDatatype) {
        let copy = slice_to_vec(self.bytes.as_slice());
        proof {
            assert(copy@ =~= self.bytes@);
        }
        MimerDatatype::BinaryArray(copy)
    }
}

impl FromSql for Uuid {
    open spec fn from_sql_spec(value: SqlValue) -> Result<Seq<u8>, i32> {
        match value {
            SqlValue::Binary(val) => if val.len() == 16 {
                Ok(val)
            } else {
                Err(ERR_UNSUPPORTED_CONVERSION)
            },
            _ => Err(ERR_UNSUPPORTED_CONVERSION),
        }
    }

    fn from_sql(value: MimerDatatype) -> (r: Result<Uuid, i32>) {
        match value {
            MimerDatatype::BinaryArray(val) => if val.len() == 16 {
                Ok(Uuid { bytes: val })
            } else {
                Err(ERR_UNSUPPORTED_CONVERSION)
            },
            _ => Err(ERR_UNSUPPORTED_CONVERSION),
        }
    }
}

/// A point with two integer coordinates, marshalled as eight bytes: each
/// coordinate in little-endian order, the first coordinate first.
#[derive(Debug, Clone, Copy, PartialEq, Eq, Structural)]
pub struct Point {
    pub x: i32,
    pub y: i32,
}

impl Point {
    /// Builds a point from its coordinates.
    pub fn new(x: i32, y: i32) -> (r: Point)
        ensures
            r == (Point { x, y }),
    {
        Point { x, y }
    }
}

impl DeepView for Point {
    type V = Point;

    open spec fn deep_view(&self) -> Point {
        *self
    }
}

/// The eight-byte little-endian encoding of two 32-bit values.
pub open spec fn spec_pair_le_bytes(a: u32, b: u32) -> Seq<u8> {
    spec_u32_to_le_bytes(a) + spec_u32_to_le_bytes(b)
}

/// Reading back the halves of an eight-byte pair encoding yields the values.
proof fn lemma_pair_le_bytes(a: u32, b: u32)
    ensures
        spec_pair_le_bytes(a, b).len() == 8,
        spec_u32_from_le_bytes(spec_pair_le_bytes(a, b).subrange(0, 4)) == a,
        spec_u32_from_le_bytes(spec_pair_le_bytes(a, b).subrange(4, 8)) == b,
{
    lemma_auto_spec_u32_to_from_le_bytes();
    assert(spec_pair_le_bytes(a, b).subrange(0, 4) =~= spec_u32_to_le_bytes(a));
    assert(spec_pair_le_bytes(a, b).subrange(4, 8) =~= spec_u32_to_le_bytes(b));
}

/// A 32-bit value keeps its bits across the signed/unsigned reinterpretation.
proof fn lemma_i32_bits_round_trip(x: i32)
    ensures
        (x as u32) as i32 == x,
{
    assert((x as u32) as i32 == x) by (bit_vector);
}

/// Builds the eight-byte encoding of two 32-bit values.
fn pair_le_bytes(a: u32, b: u32) -> (r: Vec<u8>)
    ensures
        r@ == spec_pair_le_bytes(a, b),
{
    let mut out = u32_to_le_bytes(a);
    let mut second = u32_to_le_bytes(b);
    out.append(&mut second);
    proof {
        assert(out@ =~= spec_pair_le_bytes(a, b));
    }
    out
}

impl ToSql for Point {
    open spec fn to_sql_spec(&self) -> SqlValue {
        SqlValue::Binary(spec_pair_le_bytes(self.x as u32, self.y as u32))
    }

    fn to_sql(&self) -> (r: MimerDatatype) {
        MimerDatatype::BinaryArray(pair_le_bytes(self.x as u32, self.y as u32))
    }
}

impl FromSql for Point {
    open spec fn from_sql_spec(value: SqlValue) -> Result<Point, i32> {
        match value {
            SqlValue::Binary(val) => if val.len() == 8 {
                Ok(
                    Point {
                        x: spec_u32_from_le_bytes(val.subrange(0, 4)) as i32,
                        y: spec_u32_from_le_bytes(val.subrange(4, 8)) as i32,
                    },
                )
            } else {
                Err(ERR_UNSUPPORTED_CONVERSION)
            },
            _ => Err(ERR_UNSUPPORTED_CONVERSION),
        }
    }

    fn from_sql(value: MimerDatatype) -> (r: Result<Point, i32>) {
        match value {
            MimerDatatype::BinaryArray(val) => if val.len() == 8 {
                let s = val.as_slice();
                let x = u32_from_le_bytes(slice_subrange(s, 0, 4)) as i32;
                let y = u32_from_le_bytes(slice_subrange(s, 4, 8)) as i32;
                Ok(Point { x, y })
            } else {
                Err(ERR_UNSUPPORTED_CONVERSION)
            },
            _ => Err(ERR_UNSUPPORTED_CONVERSION),
        }
    }
}

/// A pair of single-precision floating-point values carried as bit patterns,
/// marshalled as eight bytes for the native location type: four little-endian
/// bytes per value, the first value first.
#[derive(Debug, Clone, Copy, PartialEq, Eq, Structural)]
pub struct GisLocation {
    pub first_bits: u32,
    pub second_bits: u32,
}

impl DeepView for GisLocation {
    type V = GisLocation;

    open spec fn deep_view(&self) -> GisLocation {
        *self
    }
}

impl ToSql for GisLocation {
    open spec fn to_sql_spec(&self) -> SqlValue {
        SqlValue::Binary(spec_pair_le_bytes(self.first_bits, self.second_bits))
    }

    fn to_sql(&self) -> (r: MimerDatatype) {
        MimerDatatype::BinaryArray(pair_le_bytes(self.first_bits, self.second_bits))
    }
}

impl FromSql for GisLocation {
    open spec fn from_sql_spec(value: SqlValue) -> Result<GisLocation, i32> {
        match value {
            SqlValue::Binary(val) => if val.len() == 8 {
                Ok(
                    GisLocation {
                        first_bits: spec_u32_from_le_bytes(val.subrange(0, 4)),
                        second_bits: spec_u32_from_le_bytes(val.subrange(4, 8)),
                    },
                )
            } else {
                Err(ERR_UNSUPPORTED_CONVERSION)
            },
            _ => Err(ERR_UNSUPPORTED_CONVERSION),
        }
    }

    fn from_sql(value: MimerDatatype) -> (r: Result<GisLocation, i32>) {
        match value {
            MimerDatatype::BinaryArray(val) => if val.len() == 8 {
                let s = val.as_slice();
                let first_bits = u32_from_le_bytes(slice_subrange(s, 0, 4));
                let second_bits = u32_from_le_bytes(slice_subrange(s, 4, 8));
                Ok(GisLocation { first_bits, second_bits })
            } else {
                Err(ERR_UNSUPPORTED_CONVERSION)
            },
            _ => Err(ERR_UNSUPPORTED_CONVERSION),
        }
    }
}

// ---------------------------------------------------------------------------
// Laws: decoding inverts encoding.
// ---------------------------------------------------------------------------

/// Decoding an encoded identifier yields its bytes back.
pub proof fn lemma_round_trip_uuid(v: Uuid)
    requires
        v.wf(),
    ensures
        <Uuid as FromSql>::from_sql_spec(v.to_sql_spec()) == Ok::<Seq<u8>, i32>(v.bytes@),
{
}

/// Decoding an encoded point yields the point back.
pub proof fn lemma_round_trip_point(v: Point)
    ensures
        <Point as FromSql>::from_sql_spec(v.to_sql_spec()) == Ok::<Point, i32>(v),
{
    lemma_pair_le_bytes(v.x as u32, v.y as u32);
    lemma_i32_bits_round_trip(v.x);
    lemma_i32_bits_round_trip(v.y);
}

/// Decoding an encoded location pair yields the pair back.
pub proof fn lemma_round_trip_gis_location(v: GisLocation)
    ensures
        <GisLocation as FromSql>::from_sql_spec(v.to_sql_spec()) == Ok::<GisLocation, i32>(v),
{
    lemma_pair_le_bytes(v.first_bits, v.second_bits);
}

/// Decoding an encoded 32-bit integer yields the value back.
pub proof fn lemma_round_trip_i32(v: i32)
    ensures
        <i32 as FromSql>::from_sql_spec(v.to_sql_spec()) == Ok::<i32, i32>(v),
{
}

/// Decoding an encoded 64-bit integer yields the value back.
pub proof fn lemma_round_trip_i64(v: i64)
    ensures
        <i64 as FromSql>::from_sql_spec(v.to_sql_spec()) == Ok::<i64, i32>(v),
{
}

/// Decoding an encoded string yields its characters back.
pub proof fn lemma_round_trip_string(v: String)
    ensures
        <String as FromSql>::from_sql_spec(v.to_sql_spec()) == Ok::<Seq<char>, i32>(v@),
{
}

/// Decoding an encoded boolean yields the value back.
pub proof fn lemma_round_trip_bool(v: bool)
    ensures
        <bool as FromSql>::from_sql_spec(v.to_sql_spec()) == Ok::<bool, i32>(v),
{
}

/// Decoding an encoded byte vector yields its bytes back.
pub proof fn lemma_round_trip_bytes(v: Vec<u8>)
    ensures
        <Vec<u8> as FromSql>::from_sql_spec(v.to_sql_spec()) == Ok::<Seq<u8>, i32>(v@),
{
}

/// Binding an absent optional value encodes SQL NULL.
pub proof fn lemma_none_encodes_null<T: ToSql>(v: Option<T>)
    requires
        v is None,
    ensures
        v.to_sql_spec() == SqlValue::Null,
{
}

} // verus!

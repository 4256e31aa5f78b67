//! The identifiers of the wire protocol's types, as `pgwire` hands them out.

use pgwire::api::Type;
use vstd::prelude::*;

verus! {

/// The scalar types of the wire protocol that a column can be reported as.
#[derive(Clone, Copy, Debug, PartialEq, Eq, Structural)]
pub enum WireElement {
    Bool,
    Char,
    Int2,
    Int4,
    Int8,
    Float4,
    Float8,
    Varchar,
    Text,
    Date,
    Time,
    Timestamp,
    Timestamptz,
    Interval,
    Bytea,
    Numeric,
}

/// A type of the wire protocol: a scalar, the array of a scalar, or the
/// placeholder for what has no mapping.
#[derive(Clone, Copy, Debug, PartialEq, Eq, Structural)]
pub enum WireType {
    Unknown,
    Scalar(WireElement),
    Array(WireElement),
}

/// Identifier of the placeholder type.
pub const UNKNOWN_TYPE_OID: u32 = 705;

impl WireElement {
    /// Identifier of the scalar type.
    pub open spec fn scalar_oid(self) -> u32 {
        match self {
            WireElement::Bool => 16,
            WireElement::Char => 18,
            WireElement::Int2 => 21,
            WireElement::Int4 => 23,
            WireElement::Int8 => 20,
            WireElement::Float4 => 700,
            WireElement::Float8 => 701,
            WireElement::Varchar => 1043,
            WireElement::Text => 25,
            WireElement::Date => 1082,
            WireElement::Time => 1083,
            WireElement::Timestamp => 1114,
            WireElement::Timestamptz => 1184,
            WireElement::Interval => 1186,
            WireElement::Bytea => 17,
            WireElement::Numeric => 1700,
        }
    }

    /// Identifier of the array type whose elements have this scalar type.
    pub open spec fn array_oid(self) -> u32 {
        match self {
            WireElement::Bool => 1000,
            WireElement::Char => 1002,
            WireElement::Int2 => 1005,
            WireElement::Int4 => 1007,
            WireElement::Int8 => 1016,
            WireElement::Float4 => 1021,
            WireElement::Float8 => 1022,
            WireElement::Varchar => 1015,
            WireElement::Text => 1009,
            WireElement::Date => 1182,
            WireElement::Time => 1183,
            WireElement::Timestamp => 1115,
            WireElement::Timestamptz => 1185,
            WireElement::Interval => 1187,
            WireElement::Bytea => 1001,
            WireElement::Numeric => 1231,
        }
    }
}

impl WireType {
    /// Identifier that tags a value of this type on the wire.
    pub open spec fn oid_spec(self) -> u32 {
        match self {
            WireType::Unknown => UNKNOWN_TYPE_OID,
            WireType::Scalar(element) => element.scalar_oid(),
            WireType::Array(element) => element.array_oid(),
        }
    }

    /// Identifier that tags a value of this type on the wire, read from the
    /// protocol library's own table.
    pub fn oid(self) -> (oid: u32)
        ensures
            oid == self.oid_spec(),
    {
        match self {
            WireType::Unknown => unknown_type_oid(),
            WireType::Scalar(element) => scalar_type_oid(element),
            WireType::Array(element) => array_type_oid(element),
        }
    }
}

/// `postgres_types::Type::oid` (re-exported as `pgwire::api::Type`) on the
/// constant `Type::UNKNOWN`. Trusted: the constant carries the identifier 705.
#[verifier::external_body]
fn unknown_type_oid() -> (oid: u32)
    ensures
        oid == UNKNOWN_TYPE_OID,
{
    Type::UNKNOWN.oid()
}

/// `postgres_types::Type::oid` on the constant of each scalar type. Trusted:
/// the constant that stands for `element` carries the identifier that
/// `scalar_oid` lists for it.
#[verifier::external_body]
fn scalar_type_oid(element: WireElement) -> (oid: u32)
    ensures
        oid == element.scalar_oid(),
{
    let wire = match element {
        WireElement::Bool => Type::BOOL, WireElement::Char => Type::CHAR,
        WireElement::Int2 => Type::INT2, WireElement::Int4 => Type::INT4,
        WireElement::Int8 => Type::INT8, WireElement::Float4 => Type::FLOAT4,
        WireElement::Float8 => Type::FLOAT8, WireElement::Varchar => Type::VARCHAR,
        WireElement::Text => Type::TEXT, WireElement::Date => Type::DATE,
        WireElement::Time => Type::TIME, WireElement::Timestamp => Type::TIMESTAMP,
        WireElement::Timestamptz => Type::TIMESTAMPTZ, WireElement::Interval => Type::INTERVAL,
        WireElement::Bytea => Type::BYTEA, WireElement::Numeric => Type::NUMERIC,
    };
    wire.oid()
}

/// `postgres_types::Type::oid` on the constant of each array type. Trusted:
/// the constant that stands for the array of `element` carries the identifier
/// that `array_oid` lists for it.
#[verifier::external_body]
fn array_type_oid(element: WireElement) -> (oid: u32)
    ensures
        oid == element.array_oid(),
{
    let wire = match element {
        WireElement::Bool => Type::BOOL_ARRAY, WireElement::Char => Type::CHAR_ARRAY,
        WireElement::Int2 => Type::INT2_ARRAY, WireElement::Int4 => Type::INT4_ARRAY,
        WireElement::Int8 => Type::INT8_ARRAY, WireElement::Float4 => Type::FLOAT4_ARRAY,
        WireElement::Float8 => Type::FLOAT8_ARRAY, WireElement::Varchar => Type::VARCHAR_ARRAY,
        WireElement::Text => Type::TEXT_ARRAY, WireElement::Date => Type::DATE_ARRAY,
        WireElement::Time => Type::TIME_ARRAY, WireElement::Timestamp => Type::TIMESTAMP_ARRAY,
        WireElement::Timestamptz => Type::TIMESTAMPTZ_ARRAY,
        WireElement::Interval => Type::INTERVAL_ARRAY,
        WireElement::Bytea => Type::BYTEA_ARRAY, WireElement::Numeric => Type::NUMERIC_ARRAY,
    };
    wire.oid()
}

} // verus!

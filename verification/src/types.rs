//! Native column types and their description in the wire protocol's terms.

use crate::wire::{WireElement, WireType};
use vstd::prelude::*;

verus! {

/// A native type that is not a list.
#[derive(Clone, Copy, Debug, PartialEq, Eq, Structural)]
pub enum ScalarType {
    Null,
    Boolean,
    Int8,
    Int16,
    Int32,
    Int64,
    UInt8,
    UInt16,
    UInt32,
    UInt64,
    Float16,
    Float32,
    Float64,
    /// A timestamp, with or without a time zone.
    Timestamp { zoned: bool },
    Date32,
    Date64,
    Time32,
    Time64,
    Duration,
    Interval,
    Binary,
    FixedSizeBinary,
    LargeBinary,
    BinaryView,
    Utf8,
    LargeUtf8,
    Utf8View,
    Decimal128,
    Decimal256,
    /// Any other type: structs, unions, maps, dictionaries, nested lists.
    Other,
}

/// The native type of a column: a scalar, or one of the three list forms
/// with the type of its elements.
#[derive(Clone, Copy, Debug, PartialEq, Eq, Structural)]
pub enum NativeType {
    Scalar(ScalarType),
    List(ScalarType),
    LargeList(ScalarType),
    FixedSizeList(ScalarType),
}

/// How values of a type are aligned in storage. The description of a
/// column knows three of the four: only the type relation lists a type
/// that is aligned as a two-byte integer.
#[derive(Clone, Copy, Debug, PartialEq, Eq, Structural)]
pub enum Alignment {
    /// As a one-byte integer (`c`).
    Char,
    /// As a two-byte integer (`s`).
    Short,
    /// As a four-byte integer (`i`).
    Int,
    /// On eight bytes (`d`).
    Double,
}

/// How values of a type are stored.
#[derive(Clone, Copy, Debug, PartialEq, Eq, Structural)]
pub enum Storage {
    /// In line, uncompressed (`p`).
    Plain,
    /// Out of line, compressed (`x`).
    Extended,
    /// In line, compressed (`m`).
    Main,
}

/// What the attribute relation says of a column's type.
#[derive(Clone, Copy, Debug, PartialEq, Eq, Structural)]
pub struct TypeDescriptor {
    pub type_oid: i32,
    /// Width in bytes, or -1 for a type of variable length.
    pub byte_length: i16,
    pub pass_by_value: bool,
    pub alignment: Alignment,
    pub storage: Storage,
    pub is_array: bool,
}

impl Alignment {
    /// The letter that stands for the alignment in a relation.
    pub fn code(self) -> (letter: &'static str)
        ensures
            letter@ == self.code_spec(),
    {
        match self {
            Alignment::Char => "c",
            Alignment::Short => "s",
            Alignment::Int => "i",
            Alignment::Double => "d",
        }
    }

    /// The letter that stands for the alignment in a relation.
    pub open spec fn code_spec(self) -> Seq<char> {
        match self {
            Alignment::Char => "c"@,
            Alignment::Short => "s"@,
            Alignment::Int => "i"@,
            Alignment::Double => "d"@,
        }
    }
}

impl Storage {
    /// The letter that stands for the strategy in a relation.
    pub fn code(self) -> (letter: &'static str)
        ensures
            letter@ == self.code_spec(),
    {
        match self {
            Storage::Plain => "p",
            Storage::Extended => "x",
            Storage::Main => "m",
        }
    }

    /// The letter that stands for the strategy in a relation.
    pub open spec fn code_spec(self) -> Seq<char> {
        match self {
            Storage::Plain => "p"@,
            Storage::Extended => "x"@,
            Storage::Main => "m"@,
        }
    }
}

impl ScalarType {
    /// The scalar wire type that values of this type travel as, if there is one.
    pub open spec fn wire_element(self) -> Option<WireElement> {
        match self {
            ScalarType::Boolean => Some(WireElement::Bool),
            ScalarType::Int8 | ScalarType::UInt8 => Some(WireElement::Char),
            ScalarType::Int16 | ScalarType::UInt16 => Some(WireElement::Int2),
            ScalarType::Int32 | ScalarType::UInt32 => Some(WireElement::Int4),
            ScalarType::Int64 | ScalarType::UInt64 => Some(WireElement::Int8),
            ScalarType::Float16 | ScalarType::Float32 => Some(WireElement::Float4),
            ScalarType::Float64 => Some(WireElement::Float8),
            ScalarType::Timestamp { zoned } => Some(
                if zoned {
                    WireElement::Timestamptz
                } else {
                    WireElement::Timestamp
                },
            ),
            ScalarType::Date32 | ScalarType::Date64 => Some(WireElement::Date),
            ScalarType::Time32 | ScalarType::Time64 => Some(WireElement::Time),
            ScalarType::Interval => Some(WireElement::Interval),
            ScalarType::Binary | ScalarType::FixedSizeBinary | ScalarType::LargeBinary => Some(
                WireElement::Bytea,
            ),
            ScalarType::Utf8 => Some(WireElement::Varchar),
            ScalarType::LargeUtf8 | ScalarType::Utf8View => Some(WireElement::Text),
            ScalarType::Decimal128 => Some(WireElement::Numeric),
            ScalarType::Null | ScalarType::Duration | ScalarType::BinaryView
            | ScalarType::Decimal256 | ScalarType::Other => None,
        }
    }

    /// Width in bytes of a value that is passed by value; `None` for the
    /// types that are passed by reference.
    pub open spec fn fixed_width(self) -> Option<i16> {
        match self {
            ScalarType::Boolean | ScalarType::Int8 | ScalarType::UInt8 => Some(1i16),
            ScalarType::Int16 | ScalarType::UInt16 => Some(2i16),
            ScalarType::Int32 | ScalarType::UInt32 | ScalarType::Float32 | ScalarType::Date32 => Some(
                4i16,
            ),
            ScalarType::Int64 | ScalarType::UInt64 | ScalarType::Float64 | ScalarType::Date64
            | ScalarType::Timestamp { .. } => Some(8i16),
            _ => None,
        }
    }

    /// Whether values are text or binary strings of variable length.
    pub open spec fn is_variable_length_string(self) -> bool {
        self == ScalarType::Utf8 || self == ScalarType::LargeUtf8 || self == ScalarType::Binary
            || self == ScalarType::LargeBinary
    }

    fn to_wire_element(self) -> (element: Option<WireElement>)
        ensures
            element == self.wire_element(),
    {
        match self {
            ScalarType::Boolean => Some(WireElement::Bool),
            ScalarType::Int8 | ScalarType::UInt8 => Some(WireElement::Char),
            ScalarType::Int16 | ScalarType::UInt16 => Some(WireElement::Int2),
            ScalarType::Int32 | ScalarType::UInt32 => Some(WireElement::Int4),
            ScalarType::Int64 | ScalarType::UInt64 => Some(WireElement::Int8),
            ScalarType::Float16 | ScalarType::Float32 => Some(WireElement::Float4),
            ScalarType::Float64 => Some(WireElement::Float8),
            ScalarType::Timestamp { zoned } => {
                if zoned {
                    Some(WireElement::Timestamptz)
                } else {
                    Some(WireElement::Timestamp)
                }
            },
            ScalarType::Date32 | ScalarType::Date64 => Some(WireElement::Date),
            ScalarType::Time32 | ScalarType::Time64 => Some(WireElement::Time),
            ScalarType::Interval => Some(WireElement::Interval),
            ScalarType::Binary | ScalarType::FixedSizeBinary | ScalarType::LargeBinary => Some(
                WireElement::Bytea,
            ),
            ScalarType::Utf8 => Some(WireElement::Varchar),
            ScalarType::LargeUtf8 | ScalarType::Utf8View => Some(WireElement::Text),
            ScalarType::Decimal128 => Some(WireElement::Numeric),
            ScalarType::Null | ScalarType::Duration | ScalarType::BinaryView
            | ScalarType::Decimal256 | ScalarType::Other => None,
        }
    }
}

impl NativeType {
    /// Whether the type is one of the three list forms.
    pub open spec fn is_list(self) -> bool {
        !(self is Scalar)
    }

    /// The wire type that has a mapping for this native type, if any:
    /// a scalar travels as its scalar wire type, a list as the array of its
    /// elements' scalar wire type.
    pub open spec fn wire_type(self) -> Option<WireType> {
        match self {
            NativeType::Scalar(scalar) => match scalar.wire_element() {
                Some(element) => Some(WireType::Scalar(element)),
                None => None,
            },
            NativeType::List(item) | NativeType::LargeList(item) | NativeType::FixedSizeList(
                item,
            ) => match item.wire_element() {
                Some(element) => Some(WireType::Array(element)),
                None => None,
            },
        }
    }

    /// The wire type a column of this type is reported as: the mapped one,
    /// or the placeholder where there is no mapping.
    pub open spec fn reported_wire_type(self) -> WireType {
        match self.wire_type() {
            Some(wire) => wire,
            None => WireType::Unknown,
        }
    }

    /// Width in bytes, -1 where the width varies.
    pub open spec fn byte_length(self) -> i16 {
        match self {
            NativeType::Scalar(scalar) => match scalar.fixed_width() {
                Some(width) => width,
                None => -1i16,
            },
            _ => -1i16,
        }
    }

    /// By value are passed the scalars of a fixed width of one, two, four or
    /// eight bytes: booleans, integers, floats of four and eight bytes, dates
    /// and timestamps.
    pub open spec fn pass_by_value(self) -> bool {
        self matches NativeType::Scalar(scalar) && scalar.fixed_width() is Some
    }

    /// A scalar of eight bytes is aligned on eight bytes and a boolean as a
    /// one-byte integer; everything else, the integers of one and two bytes
    /// among it, as a four-byte integer.
    pub open spec fn alignment(self) -> Alignment {
        match self {
            NativeType::Scalar(ScalarType::Boolean) => Alignment::Char,
            NativeType::Scalar(scalar) => if scalar.fixed_width() == Some(8i16) {
                Alignment::Double
            } else {
                Alignment::Int
            },
            _ => Alignment::Int,
        }
    }

    /// Text and binary strings of variable length are stored extended,
    /// everything else plain.
    pub open spec fn storage(self) -> Storage {
        if self matches NativeType::Scalar(scalar) && scalar.is_variable_length_string() {
            Storage::Extended
        } else {
            Storage::Plain
        }
    }

    /// The whole description of the type.
    pub open spec fn descriptor(self) -> TypeDescriptor {
        TypeDescriptor {
            type_oid: self.reported_wire_type().oid_spec() as i32,
            byte_length: self.byte_length(),
            pass_by_value: self.pass_by_value(),
            alignment: self.alignment(),
            storage: self.storage(),
            is_array: self.is_list(),
        }
    }
}

/// The wire type that a native type maps to; `None` where it has no mapping.
pub fn into_pg_type(native: NativeType) -> (wire: Option<WireType>)
    ensures
        wire == native.wire_type(),
{
    match native {
        NativeType::Scalar(scalar) => match scalar.to_wire_element() {
            Some(element) => Some(WireType::Scalar(element)),
            None => None,
        },
        NativeType::List(item) | NativeType::LargeList(item) | NativeType::FixedSizeList(item) => {
            match item.to_wire_element() {
                Some(element) => Some(WireType::Array(element)),
                None => None,
            }
        },
    }
}

/// Describes a native type in the wire protocol's terms. Total: a type
/// without a mapping is described as the placeholder type.
pub fn map_type(native: NativeType) -> (descriptor: TypeDescriptor)
    ensures
        descriptor == native.descriptor(),
        native.wire_type() is None ==> descriptor.type_oid == crate::wire::UNKNOWN_TYPE_OID,
{
    let wire = match into_pg_type(native) {
        Some(wire) => wire,
        None => WireType::Unknown,
    };
    let oid = wire.oid();
    let byte_length: i16 = match native {
        NativeType::Scalar(ScalarType::Boolean)
        | NativeType::Scalar(ScalarType::Int8)
        | NativeType::Scalar(ScalarType::UInt8) => 1,
        NativeType::Scalar(ScalarType::Int16) | NativeType::Scalar(ScalarType::UInt16) => 2,
        NativeType::Scalar(ScalarType::Int32)
        | NativeType::Scalar(ScalarType::UInt32)
        | NativeType::Scalar(ScalarType::Float32)
        | NativeType::Scalar(ScalarType::Date32) => 4,
        NativeType::Scalar(ScalarType::Int64)
        | NativeType::Scalar(ScalarType::UInt64)
        | NativeType::Scalar(ScalarType::Float64)
        | NativeType::Scalar(ScalarType::Date64)
        | NativeType::Scalar(ScalarType::Timestamp { .. }) => 8,
        _ => -1,
    };
    let alignment = match native {
        NativeType::Scalar(ScalarType::Boolean) => Alignment::Char,
        _ => if byte_length == 8 {
            Alignment::Double
        } else {
            Alignment::Int
        },
    };
    let storage = match native {
        NativeType::Scalar(ScalarType::Utf8)
        | NativeType::Scalar(ScalarType::LargeUtf8)
        | NativeType::Scalar(ScalarType::Binary)
        | NativeType::Scalar(ScalarType::LargeBinary) => Storage::Extended,
        _ => Storage::Plain,
    };
    let is_array = match native {
        NativeType::Scalar(_) => false,
        _ => true,
    };
    TypeDescriptor {
        type_oid: oid as i32,
        byte_length,
        pass_by_value: byte_length != -1,
        alignment,
        storage,
        is_array,
    }
}

/// The rules of the description. Integers of one, two and four bytes and
/// floats of four bytes are passed by value, have their own width and are
/// aligned as four-byte integers; integers and floats of eight bytes, dates
/// with a time and timestamps are passed by value and aligned on eight
/// bytes; text and binary strings of variable length are passed by
/// reference and stored extended. Every other type is aligned as a
/// four-byte integer, but for booleans, which are aligned as one-byte
/// integers; and whatever is no such string is stored plain. A type
/// without a mapping is described as the placeholder type, and lists, no
/// other types, are arrays.
pub proof fn law_descriptions_follow_the_rules(native: NativeType)
    ensures
        ({
            let d = native.descriptor();
            let small = native == NativeType::Scalar(ScalarType::Int8) || native
                == NativeType::Scalar(ScalarType::UInt8) || native == NativeType::Scalar(
                ScalarType::Int16,
            ) || native == NativeType::Scalar(ScalarType::UInt16) || native
                == NativeType::Scalar(ScalarType::Int32) || native == NativeType::Scalar(
                ScalarType::UInt32,
            ) || native == NativeType::Scalar(ScalarType::Float32);
            let wide = native == NativeType::Scalar(ScalarType::Int64) || native
                == NativeType::Scalar(ScalarType::UInt64) || native == NativeType::Scalar(
                ScalarType::Float64,
            ) || native == NativeType::Scalar(ScalarType::Date64) || (
            native matches NativeType::Scalar(ScalarType::Timestamp { .. }));
            let string = native == NativeType::Scalar(ScalarType::Utf8) || native
                == NativeType::Scalar(ScalarType::LargeUtf8) || native == NativeType::Scalar(
                ScalarType::Binary,
            ) || native == NativeType::Scalar(ScalarType::LargeBinary);
            &&& small ==> d.pass_by_value && d.alignment == Alignment::Int && d.storage
                == Storage::Plain
            &&& (native == NativeType::Scalar(ScalarType::Int8) || native == NativeType::Scalar(
                ScalarType::UInt8,
            )) ==> d.byte_length == 1
            &&& (native == NativeType::Scalar(ScalarType::Int16) || native == NativeType::Scalar(
                ScalarType::UInt16,
            )) ==> d.byte_length == 2
            &&& (native == NativeType::Scalar(ScalarType::Int32) || native == NativeType::Scalar(
                ScalarType::UInt32,
            ) || native == NativeType::Scalar(ScalarType::Float32)) ==> d.byte_length == 4
            &&& native == NativeType::Scalar(ScalarType::Boolean) ==> d.pass_by_value
                && d.alignment == Alignment::Char && d.byte_length == 1
            &&& !(wide || native == NativeType::Scalar(ScalarType::Boolean)) ==> d.alignment
                == Alignment::Int
            &&& wide ==> d.pass_by_value && d.alignment == Alignment::Double && d.byte_length == 8
            &&& string ==> !d.pass_by_value && d.storage == Storage::Extended && d.byte_length
                == -1
            &&& !d.pass_by_value ==> d.alignment == Alignment::Int && d.byte_length == -1
            &&& !string ==> d.storage == Storage::Plain
            &&& d.pass_by_value ==> d.byte_length == 1 || d.byte_length == 2 || d.byte_length == 4
                || d.byte_length == 8
            &&& native.wire_type() is None ==> d.type_oid == crate::wire::UNKNOWN_TYPE_OID
            &&& d.is_array <==> !(native is Scalar)
        }),
{
}

} // verus!

//! The type relation: a fixed row for each scalar type of the wire protocol
//! that a column can be reported as, one for the placeholder type, and one
//! for the array of each scalar type.

use crate::relation::{
    field_models, optional, required, row_conforms, row_models, rows_conform, value_models,
    ColumnType, Field, FieldModel, Relation, Value, ValueModel,
};
use crate::types::{Alignment, NativeType, Storage};
use crate::wire::{WireElement, WireType, UNKNOWN_TYPE_OID};
use vstd::prelude::*;

verus! {

/// Whether a type holds values or only stands in for something.
#[derive(Clone, Copy, Debug, PartialEq, Eq, Structural)]
pub enum TypeKind {
    /// A base type (`b`).
    Base,
    /// A pseudo-type (`p`).
    Pseudo,
}

/// The family that a type belongs to.
#[derive(Clone, Copy, Debug, PartialEq, Eq, Structural)]
pub enum TypeCategory {
    Array,
    Boolean,
    DateTime,
    Numeric,
    String,
    Timespan,
    UserDefined,
    Unknown,
}

impl TypeKind {
    /// The letter that stands for the kind in the relation.
    pub open spec fn code_spec(self) -> Seq<char> {
        match self {
            TypeKind::Base => "b"@,
            TypeKind::Pseudo => "p"@,
        }
    }

    /// The letter that stands for the kind in the relation.
    pub fn code(self) -> (letter: &'static str)
        ensures
            letter@ == self.code_spec(),
    {
        match self {
            TypeKind::Base => "b",
            TypeKind::Pseudo => "p",
        }
    }
}

impl TypeCategory {
    /// The letter that stands for the family in the relation.
    pub open spec fn code_spec(self) -> Seq<char> {
        match self {
            TypeCategory::Array => "A"@,
            TypeCategory::Boolean => "B"@,
            TypeCategory::DateTime => "D"@,
            TypeCategory::Numeric => "N"@,
            TypeCategory::String => "S"@,
            TypeCategory::Timespan => "T"@,
            TypeCategory::UserDefined => "U"@,
            TypeCategory::Unknown => "X"@,
        }
    }

    /// The letter that stands for the family in the relation.
    pub fn code(self) -> (letter: &'static str)
        ensures
            letter@ == self.code_spec(),
    {
        match self {
            TypeCategory::Array => "A",
            TypeCategory::Boolean => "B",
            TypeCategory::DateTime => "D",
            TypeCategory::Numeric => "N",
            TypeCategory::String => "S",
            TypeCategory::Timespan => "T",
            TypeCategory::UserDefined => "U",
            TypeCategory::Unknown => "X",
        }
    }
}

/// The namespace that holds every type.
pub const TYPE_NAMESPACE: i32 = 11;

/// The user that owns every type.
pub const TYPE_OWNER: i32 = 10;

/// The function that subscripts every array type.
pub const ARRAY_SUBSCRIPT_HANDLER: i32 = 2750;

/// The collation of the string types.
pub const DEFAULT_COLLATION: i32 = 100;

/// One type.
#[derive(Clone, Debug, PartialEq, Eq)]
pub struct TypeRow {
    pub oid: i32,
    pub name: String,
    /// Width in bytes; -1 for a type of variable length, -2 for the
    /// placeholder type.
    pub byte_length: i16,
    pub pass_by_value: bool,
    pub kind: TypeKind,
    pub category: TypeCategory,
    pub preferred: bool,
    /// The function that subscripts an array; 0 for every other type.
    pub subscript: i32,
    /// For an array, the type of its elements; 0 for every other type.
    pub element_oid: i32,
    /// For a scalar, the type of its arrays; 0 for every other type.
    pub array_oid: i32,
    pub receive: i32,
    pub send: i32,
    pub alignment: Alignment,
    pub storage: Storage,
    pub collation: i32,
}

/// A type row, as a value of mathematics.
pub struct TypeRowModel {
    pub oid: int,
    pub name: Seq<char>,
    pub byte_length: int,
    pub pass_by_value: bool,
    pub kind: TypeKind,
    pub category: TypeCategory,
    pub preferred: bool,
    pub subscript: int,
    pub element_oid: int,
    pub array_oid: int,
    pub receive: int,
    pub send: int,
    pub alignment: Alignment,
    pub storage: Storage,
    pub collation: int,
}

impl View for TypeRow {
    type V = TypeRowModel;

    open spec fn view(&self) -> TypeRowModel {
        TypeRowModel {
            oid: self.oid as int,
            name: self.name@,
            byte_length: self.byte_length as int,
            pass_by_value: self.pass_by_value,
            kind: self.kind,
            category: self.category,
            preferred: self.preferred,
            subscript: self.subscript as int,
            element_oid: self.element_oid as int,
            array_oid: self.array_oid as int,
            receive: self.receive as int,
            send: self.send as int,
            alignment: self.alignment,
            storage: self.storage,
            collation: self.collation as int,
        }
    }
}

/// The rows as values of mathematics.
pub open spec fn type_row_models(rows: Seq<TypeRow>) -> Seq<TypeRowModel> {
    Seq::new(rows.len(), |i: int| rows[i]@)
}

impl WireElement {
    /// The name of the scalar type.
    pub open spec fn name_spec(self) -> Seq<char> {
        match self {
            WireElement::Bool => "bool"@,
            WireElement::Char => "char"@,
            WireElement::Int2 => "int2"@,
            WireElement::Int4 => "int4"@,
            WireElement::Int8 => "int8"@,
            WireElement::Float4 => "float4"@,
            WireElement::Float8 => "float8"@,
            WireElement::Varchar => "varchar"@,
            WireElement::Text => "text"@,
            WireElement::Date => "date"@,
            WireElement::Time => "time"@,
            WireElement::Timestamp => "timestamp"@,
            WireElement::Timestamptz => "timestamptz"@,
            WireElement::Interval => "interval"@,
            WireElement::Bytea => "bytea"@,
            WireElement::Numeric => "numeric"@,
        }
    }

    /// Width of the scalar type in bytes, -1 where it varies.
    pub open spec fn width_spec(self) -> i16 {
        match self {
            WireElement::Bool | WireElement::Char => 1i16,
            WireElement::Int2 => 2i16,
            WireElement::Int4 | WireElement::Float4 | WireElement::Date => 4i16,
            WireElement::Int8 | WireElement::Float8 | WireElement::Time | WireElement::Timestamp
            | WireElement::Timestamptz => 8i16,
            WireElement::Interval => 16i16,
            WireElement::Varchar | WireElement::Text | WireElement::Bytea
            | WireElement::Numeric => -1i16,
        }
    }

    /// The family of the scalar type.
    pub open spec fn category_spec(self) -> TypeCategory {
        match self {
            WireElement::Bool => TypeCategory::Boolean,
            WireElement::Int2 | WireElement::Int4 | WireElement::Int8 | WireElement::Float4
            | WireElement::Float8 | WireElement::Numeric => TypeCategory::Numeric,
            WireElement::Varchar | WireElement::Text | WireElement::Char => TypeCategory::String,
            WireElement::Date | WireElement::Time | WireElement::Timestamp
            | WireElement::Timestamptz => TypeCategory::DateTime,
            WireElement::Interval => TypeCategory::Timespan,
            WireElement::Bytea => TypeCategory::UserDefined,
        }
    }

    /// Whether the scalar type is the preferred one of its family.
    pub open spec fn preferred_spec(self) -> bool {
        self == WireElement::Bool || self == WireElement::Int4 || self == WireElement::Float8
            || self == WireElement::Text || self == WireElement::Timestamptz
    }

    /// How the scalar type is stored.
    pub open spec fn storage_spec(self) -> Storage {
        match self {
            WireElement::Varchar | WireElement::Text | WireElement::Bytea => Storage::Extended,
            WireElement::Numeric => Storage::Main,
            _ => Storage::Plain,
        }
    }

    /// The row of the scalar type. By value are passed the types of at most
    /// four bytes; a type of a fixed width is aligned on its width, on eight
    /// bytes at most, every other as a four-byte integer; only the string
    /// types have a collation; only booleans have send and receive functions
    /// of their own.
    pub open spec fn scalar_row(self) -> TypeRowModel {
        let width = self.width_spec();
        TypeRowModel {
            oid: self.scalar_oid() as int,
            name: self.name_spec(),
            byte_length: width as int,
            pass_by_value: 1 <= width <= 4,
            kind: TypeKind::Base,
            category: self.category_spec(),
            preferred: self.preferred_spec(),
            subscript: 0,
            element_oid: 0,
            array_oid: self.array_oid() as int,
            receive: if self == WireElement::Bool {
                2556
            } else {
                2562
            },
            send: if self == WireElement::Bool {
                2557
            } else {
                2563
            },
            alignment: if width == 1 {
                Alignment::Char
            } else if width == 2 {
                Alignment::Short
            } else if width >= 8 {
                Alignment::Double
            } else {
                Alignment::Int
            },
            storage: self.storage_spec(),
            collation: if self.category_spec() == TypeCategory::String {
                DEFAULT_COLLATION as int
            } else {
                0
            },
        }
    }

    /// The row of the array type whose elements have this scalar type: named
    /// after the scalar with an underscore before it, of variable length,
    /// stored extended, and pointing at the scalar as its element.
    pub open spec fn array_row(self) -> TypeRowModel {
        TypeRowModel {
            oid: self.array_oid() as int,
            name: "_"@ + self.name_spec(),
            byte_length: -1,
            pass_by_value: false,
            kind: TypeKind::Base,
            category: TypeCategory::Array,
            preferred: false,
            subscript: ARRAY_SUBSCRIPT_HANDLER as int,
            element_oid: self.scalar_oid() as int,
            array_oid: 0,
            receive: 2562,
            send: 2563,
            alignment: Alignment::Int,
            storage: Storage::Extended,
            collation: 0,
        }
    }

    fn name(self) -> (name: &'static str)
        ensures
            name@ == self.name_spec(),
    {
        match self {
            WireElement::Bool => "bool",
            WireElement::Char => "char",
            WireElement::Int2 => "int2",
            WireElement::Int4 => "int4",
            WireElement::Int8 => "int8",
            WireElement::Float4 => "float4",
            WireElement::Float8 => "float8",
            WireElement::Varchar => "varchar",
            WireElement::Text => "text",
            WireElement::Date => "date",
            WireElement::Time => "time",
            WireElement::Timestamp => "timestamp",
            WireElement::Timestamptz => "timestamptz",
            WireElement::Interval => "interval",
            WireElement::Bytea => "bytea",
            WireElement::Numeric => "numeric",
        }
    }

    fn width(self) -> (width: i16)
        ensures
            width == self.width_spec(),
    {
        match self {
            WireElement::Bool | WireElement::Char => 1,
            WireElement::Int2 => 2,
            WireElement::Int4 | WireElement::Float4 | WireElement::Date => 4,
            WireElement::Int8 | WireElement::Float8 | WireElement::Time | WireElement::Timestamp
            | WireElement::Timestamptz => 8,
            WireElement::Interval => 16,
            WireElement::Varchar | WireElement::Text | WireElement::Bytea
            | WireElement::Numeric => -1,
        }
    }

    fn category(self) -> (category: TypeCategory)
        ensures
            category == self.category_spec(),
    {
        match self {
            WireElement::Bool => TypeCategory::Boolean,
            WireElement::Int2 | WireElement::Int4 | WireElement::Int8 | WireElement::Float4
            | WireElement::Float8 | WireElement::Numeric => TypeCategory::Numeric,
            WireElement::Varchar | WireElement::Text | WireElement::Char => TypeCategory::String,
            WireElement::Date | WireElement::Time | WireElement::Timestamp
            | WireElement::Timestamptz => TypeCategory::DateTime,
            WireElement::Interval => TypeCategory::Timespan,
            WireElement::Bytea => TypeCategory::UserDefined,
        }
    }

    fn to_scalar_row(self) -> (row: TypeRow)
        ensures
            row@ == self.scalar_row(),
    {
        let width = self.width();
        let category = self.category();
        let is_bool = self == WireElement::Bool;
        TypeRow {
            oid: WireType::Scalar(self).oid() as i32,
            name: String::from_str(self.name()),
            byte_length: width,
            pass_by_value: 1 <= width && width <= 4,
            kind: TypeKind::Base,
            category,
            preferred: self == WireElement::Bool || self == WireElement::Int4 || self
                == WireElement::Float8 || self == WireElement::Text || self
                == WireElement::Timestamptz,
            subscript: 0,
            element_oid: 0,
            array_oid: WireType::Array(self).oid() as i32,
            receive: if is_bool {
                2556
            } else {
                2562
            },
            send: if is_bool {
                2557
            } else {
                2563
            },
            alignment: if width == 1 {
                Alignment::Char
            } else if width == 2 {
                Alignment::Short
            } else if width >= 8 {
                Alignment::Double
            } else {
                Alignment::Int
            },
            storage: match self {
                WireElement::Varchar | WireElement::Text | WireElement::Bytea => Storage::Extended,
                WireElement::Numeric => Storage::Main,
                _ => Storage::Plain,
            },
            collation: if category == TypeCategory::String {
                DEFAULT_COLLATION
            } else {
                0
            },
        }
    }

    fn to_array_row(self) -> (row: TypeRow)
        ensures
            row@ == self.array_row(),
    {
        TypeRow {
            oid: WireType::Array(self).oid() as i32,
            name: String::from_str("_").concat(self.name()),
            byte_length: -1,
            pass_by_value: false,
            kind: TypeKind::Base,
            category: TypeCategory::Array,
            preferred: false,
            subscript: ARRAY_SUBSCRIPT_HANDLER,
            element_oid: WireType::Scalar(self).oid() as i32,
            array_oid: 0,
            receive: 2562,
            send: 2563,
            alignment: Alignment::Int,
            storage: Storage::Extended,
            collation: 0,
        }
    }
}

/// The row of the placeholder type: a pseudo-type of its own family, with
/// the length -2 and no array type.
pub open spec fn unknown_type_row() -> TypeRowModel {
    TypeRowModel {
        oid: UNKNOWN_TYPE_OID as int,
        name: "unknown"@,
        byte_length: -2,
        pass_by_value: false,
        kind: TypeKind::Pseudo,
        category: TypeCategory::Unknown,
        preferred: false,
        subscript: 0,
        element_oid: 0,
        array_oid: 0,
        receive: 2562,
        send: 2563,
        alignment: Alignment::Char,
        storage: Storage::Plain,
        collation: 0,
    }
}

/// The scalar types in the order of their rows.
pub open spec fn listed_elements() -> Seq<WireElement> {
    seq![
        WireElement::Bool,
        WireElement::Int2,
        WireElement::Int4,
        WireElement::Int8,
        WireElement::Float4,
        WireElement::Float8,
        WireElement::Varchar,
        WireElement::Text,
        WireElement::Date,
        WireElement::Timestamp,
        WireElement::Timestamptz,
        WireElement::Time,
        WireElement::Interval,
        WireElement::Bytea,
        WireElement::Numeric,
        WireElement::Char,
    ]
}

/// The rows of the scalar types, in their order.
pub open spec fn scalar_type_rows() -> Seq<TypeRowModel> {
    Seq::new(listed_elements().len(), |i: int| listed_elements()[i].scalar_row())
}

/// The rows of the array types, in the order of their scalars.
pub open spec fn array_type_rows() -> Seq<TypeRowModel> {
    Seq::new(listed_elements().len(), |i: int| listed_elements()[i].array_row())
}

/// The type relation: the scalar types, the placeholder type, then the
/// array types.
pub open spec fn type_rows() -> Seq<TypeRowModel> {
    scalar_type_rows().push(unknown_type_row()) + array_type_rows()
}

/// The columns of the type relation.
pub open spec fn type_fields() -> Seq<FieldModel> {
    seq![
        required("oid"@, ColumnType::Int32),
        required("typname"@, ColumnType::Utf8),
        required("typnamespace"@, ColumnType::Int32),
        required("typowner"@, ColumnType::Int32),
        required("typlen"@, ColumnType::Int16),
        required("typbyval"@, ColumnType::Boolean),
        required("typtype"@, ColumnType::Utf8),
        required("typcategory"@, ColumnType::Utf8),
        required("typispreferred"@, ColumnType::Boolean),
        required("typisdefined"@, ColumnType::Boolean),
        required("typdelim"@, ColumnType::Utf8),
        required("typrelid"@, ColumnType::Int32),
        required("typsubscript"@, ColumnType::Int32),
        required("typelem"@, ColumnType::Int32),
        required("typarray"@, ColumnType::Int32),
        required("typinput"@, ColumnType::Int32),
        required("typoutput"@, ColumnType::Int32),
        required("typreceive"@, ColumnType::Int32),
        required("typsend"@, ColumnType::Int32),
        required("typmodin"@, ColumnType::Int32),
        required("typmodout"@, ColumnType::Int32),
        required("typanalyze"@, ColumnType::Int32),
        required("typalign"@, ColumnType::Utf8),
        required("typstorage"@, ColumnType::Utf8),
        required("typnotnull"@, ColumnType::Boolean),
        required("typbasetype"@, ColumnType::Int32),
        required("typtypmod"@, ColumnType::Int32),
        required("typndims"@, ColumnType::Int32),
        required("typcollation"@, ColumnType::Int32),
        optional("typdefaultbin"@, ColumnType::Utf8),
        optional("typdefault"@, ColumnType::Utf8),
        optional("typacl"@, ColumnType::Utf8),
    ]
}

impl TypeRowModel {
    /// The row as the relation holds it. Every type is defined, lives in
    /// namespace 11, is owned by user 10, is delimited by a comma and shares
    /// its input and output functions; none is a domain or has a default.
    pub open spec fn cells(self) -> Seq<ValueModel> {
        seq![
            ValueModel::Int32(self.oid as i32),
            ValueModel::Text(self.name),
            ValueModel::Int32(TYPE_NAMESPACE),
            ValueModel::Int32(TYPE_OWNER),
            ValueModel::Int16(self.byte_length as i16),
            ValueModel::Boolean(self.pass_by_value),
            ValueModel::Text(self.kind.code_spec()),
            ValueModel::Text(self.category.code_spec()),
            ValueModel::Boolean(self.preferred),
            ValueModel::Boolean(true),
            ValueModel::Text(","@),
            ValueModel::Int32(0),
            ValueModel::Int32(self.subscript as i32),
            ValueModel::Int32(self.element_oid as i32),
            ValueModel::Int32(self.array_oid as i32),
            ValueModel::Int32(1242),
            ValueModel::Int32(1243),
            ValueModel::Int32(self.receive as i32),
            ValueModel::Int32(self.send as i32),
            ValueModel::Int32(0),
            ValueModel::Int32(0),
            ValueModel::Int32(0),
            ValueModel::Text(self.alignment.code_spec()),
            ValueModel::Text(self.storage.code_spec()),
            ValueModel::Boolean(false),
            ValueModel::Int32(0),
            ValueModel::Int32(-1i32),
            ValueModel::Int32(0),
            ValueModel::Int32(self.collation as i32),
            ValueModel::Null,
            ValueModel::Null,
            ValueModel::Null,
        ]
    }
}

/// The rows as the relation holds them.
pub open spec fn type_cells(rows: Seq<TypeRowModel>) -> Seq<Seq<ValueModel>> {
    Seq::new(rows.len(), |i: int| rows[i].cells())
}

impl TypeRow {
    /// The row as the relation holds it.
    pub fn to_values(&self) -> (values: Vec<Value>)
        ensures
            value_models(values@) == self@.cells(),
            row_conforms(self@.cells(), type_fields()),
    {
        let values = vec![
            Value::Int32(self.oid),
            Value::Text(self.name.clone()),
            Value::Int32(TYPE_NAMESPACE),
            Value::Int32(TYPE_OWNER),
            Value::Int16(self.byte_length),
            Value::Boolean(self.pass_by_value),
            Value::Text(String::from_str(self.kind.code())),
            Value::Text(String::from_str(self.category.code())),
            Value::Boolean(self.preferred),
            Value::Boolean(true),
            Value::Text(String::from_str(",")),
            Value::Int32(0),
            Value::Int32(self.subscript),
            Value::Int32(self.element_oid),
            Value::Int32(self.array_oid),
            Value::Int32(1242),
            Value::Int32(1243),
            Value::Int32(self.receive),
            Value::Int32(self.send),
            Value::Int32(0),
            Value::Int32(0),
            Value::Int32(0),
            Value::Text(String::from_str(self.alignment.code())),
            Value::Text(String::from_str(self.storage.code())),
            Value::Boolean(false),
            Value::Int32(0),
            Value::Int32(-1),
            Value::Int32(0),
            Value::Int32(self.collation),
            Value::Null,
            Value::Null,
            Value::Null,
        ];
        assert(value_models(values@) =~= self@.cells());
        values
    }
}

/// The columns of the type relation.
pub fn pg_type_schema() -> (fields: Vec<Field>)
    ensures
        field_models(fields@) == type_fields(),
{
    let fields = vec![
        Field::required("oid", ColumnType::Int32),
        Field::required("typname", ColumnType::Utf8),
        Field::required("typnamespace", ColumnType::Int32),
        Field::required("typowner", ColumnType::Int32),
        Field::required("typlen", ColumnType::Int16),
        Field::required("typbyval", ColumnType::Boolean),
        Field::required("typtype", ColumnType::Utf8),
        Field::required("typcategory", ColumnType::Utf8),
        Field::required("typispreferred", ColumnType::Boolean),
        Field::required("typisdefined", ColumnType::Boolean),
        Field::required("typdelim", ColumnType::Utf8),
        Field::required("typrelid", ColumnType::Int32),
        Field::required("typsubscript", ColumnType::Int32),
        Field::required("typelem", ColumnType::Int32),
        Field::required("typarray", ColumnType::Int32),
        Field::required("typinput", ColumnType::Int32),
        Field::required("typoutput", ColumnType::Int32),
        Field::required("typreceive", ColumnType::Int32),
        Field::required("typsend", ColumnType::Int32),
        Field::required("typmodin", ColumnType::Int32),
        Field::required("typmodout", ColumnType::Int32),
        Field::required("typanalyze", ColumnType::Int32),
        Field::required("typalign", ColumnType::Utf8),
        Field::required("typstorage", ColumnType::Utf8),
        Field::required("typnotnull", ColumnType::Boolean),
        Field::required("typbasetype", ColumnType::Int32),
        Field::required("typtypmod", ColumnType::Int32),
        Field::required("typndims", ColumnType::Int32),
        Field::required("typcollation", ColumnType::Int32),
        Field::optional("typdefaultbin", ColumnType::Utf8),
        Field::optional("typdefault", ColumnType::Utf8),
        Field::optional("typacl", ColumnType::Utf8),
    ];
    assert(field_models(fields@) =~= type_fields());
    fields
}

fn elements_in_order() -> (elements: Vec<WireElement>)
    ensures
        elements@ == listed_elements(),
{
    let elements = vec![
        WireElement::Bool,
        WireElement::Int2,
        WireElement::Int4,
        WireElement::Int8,
        WireElement::Float4,
        WireElement::Float8,
        WireElement::Varchar,
        WireElement::Text,
        WireElement::Date,
        WireElement::Timestamp,
        WireElement::Timestamptz,
        WireElement::Time,
        WireElement::Interval,
        WireElement::Bytea,
        WireElement::Numeric,
        WireElement::Char,
    ];
    assert(elements@ =~= listed_elements());
    elements
}

/// The rows of the type relation.
pub fn pg_type_rows() -> (rows: Vec<TypeRow>)
    ensures
        type_row_models(rows@) == type_rows(),
{
    let elements = elements_in_order();
    let ghost scalars = scalar_type_rows();
    let ghost arrays = array_type_rows();
    let mut rows: Vec<TypeRow> = Vec::new();
    let mut i: usize = 0;
    while i < elements.len()
        invariant
            0 <= i <= elements.len(),
            elements@ == listed_elements(),
            scalars == scalar_type_rows(),
            type_row_models(rows@) == scalars.take(i as int),
        decreases elements.len() - i,
    {
        let ghost listed = type_row_models(rows@);
        let row = elements[i].to_scalar_row();
        rows.push(row);
        assert(type_row_models(rows@) == listed.push(row@));
        assert(scalars.take(i as int + 1) == scalars.take(i as int).push(row@));
        i = i + 1;
    }
    assert(scalars.take(i as int) == scalars);
    let unknown = TypeRow {
        oid: WireType::Unknown.oid() as i32,
        name: String::from_str("unknown"),
        byte_length: -2,
        pass_by_value: false,
        kind: TypeKind::Pseudo,
        category: TypeCategory::Unknown,
        preferred: false,
        subscript: 0,
        element_oid: 0,
        array_oid: 0,
        receive: 2562,
        send: 2563,
        alignment: Alignment::Char,
        storage: Storage::Plain,
        collation: 0,
    };
    rows.push(unknown);
    assert(type_row_models(rows@) == scalars.push(unknown_type_row()));
    let mut k: usize = 0;
    while k < elements.len()
        invariant
            0 <= k <= elements.len(),
            elements@ == listed_elements(),
            arrays == array_type_rows(),
            type_row_models(rows@) == scalars.push(unknown_type_row()) + arrays.take(k as int),
        decreases elements.len() - k,
    {
        let ghost listed = type_row_models(rows@);
        let row = elements[k].to_array_row();
        rows.push(row);
        assert(type_row_models(rows@) == listed.push(row@));
        assert(arrays.take(k as int + 1) == arrays.take(k as int).push(row@));
        k = k + 1;
    }
    assert(arrays.take(k as int) == arrays);
    rows
}

/// The type relation.
pub fn create_pg_type_data() -> (relation: Relation)
    ensures
        relation@.fields == type_fields(),
        relation@.rows == type_cells(type_rows()),
{
    let rows = pg_type_rows();
    let mut cells: Vec<Vec<Value>> = Vec::new();
    let mut i: usize = 0;
    while i < rows.len()
        invariant
            0 <= i <= rows.len(),
            row_models(cells@) == type_cells(type_row_models(rows@).take(i as int)),
            rows_conform(row_models(cells@), type_fields()),
        decreases rows.len() - i,
    {
        let ghost done = row_models(cells@);
        let values = rows[i].to_values();
        cells.push(values);
        assert(row_models(cells@) == done.push(rows@[i as int]@.cells()));
        assert(row_models(cells@) == type_cells(type_row_models(rows@).take(i as int + 1)));
        i = i + 1;
    }
    assert(type_row_models(rows@).take(i as int) == type_row_models(rows@));
    Relation::new(pg_type_schema(), cells)
}

/// Every identifier that the type mapping reports for a column is the
/// identifier of a row of the type relation.
pub proof fn law_mapped_types_are_listed(native: NativeType)
    ensures
        exists|i: int|
            0 <= i < type_rows().len() && (#[trigger] type_rows()[i]).oid
                == native.descriptor().type_oid,
{
    let elements = listed_elements();
    let wire = native.reported_wire_type();
    match wire {
        WireType::Unknown => {
            assert(type_rows()[16].oid == native.descriptor().type_oid);
        },
        WireType::Scalar(element) => {
            let k = choose|k: int| 0 <= k < elements.len() && elements[k] == element;
            lemma_element_is_listed(element);
            assert(type_rows()[k].oid == native.descriptor().type_oid);
        },
        WireType::Array(element) => {
            let k = choose|k: int| 0 <= k < elements.len() && elements[k] == element;
            lemma_element_is_listed(element);
            assert(type_rows()[17 + k].oid == native.descriptor().type_oid);
        },
    }
}

/// Every scalar wire type has its place in the list of rows.
proof fn lemma_element_is_listed(element: WireElement)
    ensures
        exists|k: int| 0 <= k < listed_elements().len() && listed_elements()[k] == element,
{
    let elements = listed_elements();
    match element {
        WireElement::Bool => assert(elements[0] == element),
        WireElement::Int2 => assert(elements[1] == element),
        WireElement::Int4 => assert(elements[2] == element),
        WireElement::Int8 => assert(elements[3] == element),
        WireElement::Float4 => assert(elements[4] == element),
        WireElement::Float8 => assert(elements[5] == element),
        WireElement::Varchar => assert(elements[6] == element),
        WireElement::Text => assert(elements[7] == element),
        WireElement::Date => assert(elements[8] == element),
        WireElement::Timestamp => assert(elements[9] == element),
        WireElement::Timestamptz => assert(elements[10] == element),
        WireElement::Time => assert(elements[11] == element),
        WireElement::Interval => assert(elements[12] == element),
        WireElement::Bytea => assert(elements[13] == element),
        WireElement::Numeric => assert(elements[14] == element),
        WireElement::Char => assert(elements[15] == element),
    }
}

} // verus!

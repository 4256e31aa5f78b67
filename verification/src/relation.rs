//! Relations as the host engine takes them: a fixed list of columns and
//! rows of values that conform to it.

use vstd::prelude::*;

verus! {

/// The semantic type of a column.
#[derive(Clone, Copy, Debug, PartialEq, Eq, Structural)]
pub enum ColumnType {
    Boolean,
    Int16,
    Int32,
    Float32,
    Float64,
    Utf8,
}

/// A column of a relation: its name, its type and whether it may hold null.
#[derive(Clone, Copy, Debug, PartialEq, Eq)]
pub struct Field {
    pub name: &'static str,
    pub data_type: ColumnType,
    pub nullable: bool,
}

/// A column of a relation, with its name as a sequence of characters.
pub struct FieldModel {
    pub name: Seq<char>,
    pub data_type: ColumnType,
    pub nullable: bool,
}

impl View for Field {
    type V = FieldModel;

    open spec fn view(&self) -> FieldModel {
        FieldModel { name: self.name@, data_type: self.data_type, nullable: self.nullable }
    }
}

/// A column that must hold a value.
pub open spec fn required(name: Seq<char>, data_type: ColumnType) -> FieldModel {
    FieldModel { name, data_type, nullable: false }
}

/// A column that may hold null.
pub open spec fn optional(name: Seq<char>, data_type: ColumnType) -> FieldModel {
    FieldModel { name, data_type, nullable: true }
}

impl Field {
    /// A column that must hold a value.
    pub fn required(name: &'static str, data_type: ColumnType) -> (field: Field)
        ensures
            field@ == required(name@, data_type),
    {
        Field { name, data_type, nullable: false }
    }

    /// A column that may hold null.
    pub fn optional(name: &'static str, data_type: ColumnType) -> (field: Field)
        ensures
            field@ == optional(name@, data_type),
    {
        Field { name, data_type, nullable: true }
    }
}

/// One value of a row.
#[derive(Clone, Debug, PartialEq, Eq)]
pub enum Value {
    Null,
    Boolean(bool),
    Int16(i16),
    Int32(i32),
    /// The value of a floating-point column. The relations of this library
    /// hold whole numbers only in such columns.
    Number(i32),
    Text(String),
}

/// A value of a row, with a text as a sequence of characters.
pub enum ValueModel {
    Null,
    Boolean(bool),
    Int16(i16),
    Int32(i32),
    Number(i32),
    Text(Seq<char>),
}

impl View for Value {
    type V = ValueModel;

    open spec fn view(&self) -> ValueModel {
        match *self {
            Value::Null => ValueModel::Null,
            Value::Boolean(b) => ValueModel::Boolean(b),
            Value::Int16(n) => ValueModel::Int16(n),
            Value::Int32(n) => ValueModel::Int32(n),
            Value::Number(n) => ValueModel::Number(n),
            Value::Text(s) => ValueModel::Text(s@),
        }
    }
}

/// The columns as values of mathematics.
pub open spec fn field_models(fields: Seq<Field>) -> Seq<FieldModel> {
    Seq::new(fields.len(), |i: int| fields[i]@)
}

/// The values as values of mathematics.
pub open spec fn value_models(values: Seq<Value>) -> Seq<ValueModel> {
    Seq::new(values.len(), |i: int| values[i]@)
}

/// The rows as values of mathematics.
pub open spec fn row_models(rows: Seq<Vec<Value>>) -> Seq<Seq<ValueModel>> {
    Seq::new(rows.len(), |i: int| value_models(rows[i]@))
}

/// Whether a column of this declaration can hold the value.
pub open spec fn value_conforms(value: ValueModel, field: FieldModel) -> bool {
    match value {
        ValueModel::Null => field.nullable,
        ValueModel::Boolean(_) => field.data_type == ColumnType::Boolean,
        ValueModel::Int16(_) => field.data_type == ColumnType::Int16,
        ValueModel::Int32(_) => field.data_type == ColumnType::Int32,
        ValueModel::Number(_) => field.data_type == ColumnType::Float32 || field.data_type
            == ColumnType::Float64,
        ValueModel::Text(_) => field.data_type == ColumnType::Utf8,
    }
}

/// Whether the row has one value for each column, of the column's type.
pub open spec fn row_conforms(row: Seq<ValueModel>, fields: Seq<FieldModel>) -> bool {
    &&& row.len() == fields.len()
    &&& forall|i: int| 0 <= i < row.len() ==> value_conforms(#[trigger] row[i], fields[i])
}

/// Whether every row conforms to the columns.
pub open spec fn rows_conform(rows: Seq<Seq<ValueModel>>, fields: Seq<FieldModel>) -> bool {
    forall|r: int| 0 <= r < rows.len() ==> row_conforms(#[trigger] rows[r], fields)
}

/// A relation, as a value of mathematics.
pub struct RelationModel {
    pub fields: Seq<FieldModel>,
    pub rows: Seq<Seq<ValueModel>>,
}

/// A complete relation: the unit in which a fetch is delivered.
pub struct Relation {
    fields: Vec<Field>,
    rows: Vec<Vec<Value>>,
}

impl View for Relation {
    type V = RelationModel;

    closed spec fn view(&self) -> RelationModel {
        RelationModel { fields: field_models(self.fields@), rows: row_models(self.rows@) }
    }
}

fn check_value(value: &Value, field: &Field) -> (ok: bool)
    ensures
        ok == value_conforms(value@, field@),
{
    match value {
        Value::Null => field.nullable,
        Value::Boolean(_) => field.data_type == ColumnType::Boolean,
        Value::Int16(_) => field.data_type == ColumnType::Int16,
        Value::Int32(_) => field.data_type == ColumnType::Int32,
        Value::Number(_) => field.data_type == ColumnType::Float32 || field.data_type
            == ColumnType::Float64,
        Value::Text(_) => field.data_type == ColumnType::Utf8,
    }
}

fn check_row(row: &Vec<Value>, fields: &Vec<Field>) -> (ok: bool)
    ensures
        ok == row_conforms(value_models(row@), field_models(fields@)),
{
    if row.len() != fields.len() {
        return false;
    }
    let mut i: usize = 0;
    while i < row.len()
        invariant
            0 <= i <= row.len(),
            row.len() == fields.len(),
            forall|k: int|
                0 <= k < i ==> value_conforms(
                    #[trigger] value_models(row@)[k],
                    field_models(fields@)[k],
                ),
        decreases row.len() - i,
    {
        if !check_value(&row[i], &fields[i]) {
            assert(!value_conforms(value_models(row@)[i as int], field_models(fields@)[i as int]));
            return false;
        }
        i = i + 1;
    }
    true
}

impl Relation {
    #[verifier::type_invariant]
    closed spec fn well_formed(self) -> bool {
        rows_conform(row_models(self.rows@), field_models(self.fields@))
    }

    /// Puts columns and rows together. `None` where a row has not one
    /// value of the column's type for each column.
    pub fn try_new(fields: Vec<Field>, rows: Vec<Vec<Value>>) -> (relation: Option<Relation>)
        ensures
            relation is Some <==> rows_conform(row_models(rows@), field_models(fields@)),
            relation matches Some(r) ==> r@.fields == field_models(fields@) && r@.rows
                == row_models(rows@),
    {
        let mut r: usize = 0;
        while r < rows.len()
            invariant
                0 <= r <= rows.len(),
                forall|k: int|
                    0 <= k < r ==> row_conforms(
                        #[trigger] row_models(rows@)[k],
                        field_models(fields@),
                    ),
            decreases rows.len() - r,
        {
            if !check_row(&rows[r], &fields) {
                assert(!row_conforms(row_models(rows@)[r as int], field_models(fields@)));
                return None;
            }
            r = r + 1;
        }
        Some(Relation { fields, rows })
    }

    /// Puts together columns and rows that are known to conform.
    pub fn new(fields: Vec<Field>, rows: Vec<Vec<Value>>) -> (relation: Relation)
        requires
            rows_conform(row_models(rows@), field_models(fields@)),
        ensures
            relation@.fields == field_models(fields@),
            relation@.rows == row_models(rows@),
    {
        Relation { fields, rows }
    }

    /// The columns, in their declared order.
    pub fn fields(&self) -> (fields: &Vec<Field>)
        ensures
            field_models(fields@) == self@.fields,
    {
        &self.fields
    }

    /// The rows, in the order of the fetch.
    pub fn rows(&self) -> (rows: &Vec<Vec<Value>>)
        ensures
            row_models(rows@) == self@.rows,
            rows_conform(self@.rows, self@.fields),
    {
        proof {
            use_type_invariant(self);
        }
        &self.rows
    }

    /// How many rows the relation has.
    pub fn num_rows(&self) -> (n: usize)
        ensures
            n == self@.rows.len(),
    {
        self.rows.len()
    }

    /// How many columns the relation has.
    pub fn num_columns(&self) -> (n: usize)
        ensures
            n == self@.fields.len(),
    {
        self.fields.len()
    }
}

} // verus!

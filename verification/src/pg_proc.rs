//! The procedure relation: a fixed row for each introspection function.

use crate::functions::IntrospectionFunction;
use crate::relation::{
    field_models, optional, required, row_conforms, row_models, rows_conform, value_models,
    ColumnType, Field, FieldModel, Relation, Value, ValueModel,
};
use crate::wire::{WireElement, WireType};
use vstd::prelude::*;

verus! {

/// The identifier of the first listed function; the others follow it.
pub const FIRST_PROCEDURE_OID: i32 = 2200;

/// One function.
#[derive(Clone, Debug, PartialEq, Eq)]
pub struct ProcRow {
    pub oid: i32,
    pub name: String,
    pub argument_count: i16,
    pub return_type: i32,
    /// The identifiers of the argument types, as text.
    pub argument_types: String,
    pub argument_names: Option<String>,
    pub source: String,
}

/// A procedure row, as a value of mathematics.
pub struct ProcRowModel {
    pub oid: int,
    pub name: Seq<char>,
    pub argument_count: int,
    pub return_type: int,
    pub argument_types: Seq<char>,
    pub argument_names: Option<Seq<char>>,
    pub source: Seq<char>,
}

impl View for ProcRow {
    type V = ProcRowModel;

    open spec fn view(&self) -> ProcRowModel {
        ProcRowModel {
            oid: self.oid as int,
            name: self.name@,
            argument_count: self.argument_count as int,
            return_type: self.return_type as int,
            argument_types: self.argument_types@,
            argument_names: match self.argument_names {
                Some(names) => Some(names@),
                None => None,
            },
            source: self.source@,
        }
    }
}

/// The rows as values of mathematics.
pub open spec fn proc_row_models(rows: Seq<ProcRow>) -> Seq<ProcRowModel> {
    Seq::new(rows.len(), |i: int| rows[i]@)
}

/// The functions in the order of their rows.
pub open spec fn listed_functions() -> Seq<IntrospectionFunction> {
    seq![
        IntrospectionFunction::Version,
        IntrospectionFunction::PgVersionNum,
        IntrospectionFunction::CurrentDatabase,
        IntrospectionFunction::CurrentUser,
        IntrospectionFunction::SessionUser,
        IntrospectionFunction::User,
        IntrospectionFunction::CurrentSchema,
        IntrospectionFunction::CurrentSchemas,
        IntrospectionFunction::GetDatabaseEncoding,
        IntrospectionFunction::PgEncodingToChar,
    ]
}

impl IntrospectionFunction {
    /// The statement that stands for the function's body.
    pub open spec fn source_spec(self) -> Seq<char> {
        match self {
            IntrospectionFunction::Version => "SELECT 'DataFusion-Postgres 0.5.1'"@,
            IntrospectionFunction::PgVersionNum => "SELECT '160100'"@,
            IntrospectionFunction::CurrentDatabase => "SELECT 'datafusion'"@,
            IntrospectionFunction::CurrentUser => "SELECT 'postgres'"@,
            IntrospectionFunction::SessionUser => "SELECT 'postgres'"@,
            IntrospectionFunction::User => "SELECT 'postgres'"@,
            IntrospectionFunction::CurrentSchema => "SELECT 'public'"@,
            IntrospectionFunction::CurrentSchemas => "SELECT ARRAY['public']"@,
            IntrospectionFunction::GetDatabaseEncoding => "SELECT 'UTF8'"@,
            IntrospectionFunction::PgEncodingToChar => "SELECT 'UTF8'"@,
        }
    }

    /// The identifiers of the argument types as text: that of booleans for
    /// the search path, that of four-byte integers for the encoding's name.
    pub open spec fn argument_types_spec(self) -> Seq<char> {
        match self {
            IntrospectionFunction::CurrentSchemas => "16"@,
            IntrospectionFunction::PgEncodingToChar => "23"@,
            _ => Seq::empty(),
        }
    }

    /// The name of the one argument, for the two functions that take one.
    pub open spec fn argument_names_spec(self) -> Option<Seq<char>> {
        match self {
            IntrospectionFunction::CurrentSchemas => Some("implicit"@),
            IntrospectionFunction::PgEncodingToChar => Some("encoding_id"@),
            _ => None,
        }
    }

    /// The row of the function that stands at `place` in the list: a text
    /// is returned by every function but the search path, which returns an
    /// array of texts.
    pub open spec fn proc_row(self, place: int) -> ProcRowModel {
        ProcRowModel {
            oid: FIRST_PROCEDURE_OID + place,
            name: self.name_spec(),
            argument_count: self.signature_spec().len() as int,
            return_type: if self == IntrospectionFunction::CurrentSchemas {
                WireElement::Text.array_oid() as int
            } else {
                WireElement::Text.scalar_oid() as int
            },
            argument_types: self.argument_types_spec(),
            argument_names: self.argument_names_spec(),
            source: self.source_spec(),
        }
    }

    fn source(self) -> (source: &'static str)
        ensures
            source@ == self.source_spec(),
    {
        match self {
            IntrospectionFunction::Version => "SELECT 'DataFusion-Postgres 0.5.1'",
            IntrospectionFunction::PgVersionNum => "SELECT '160100'",
            IntrospectionFunction::CurrentDatabase => "SELECT 'datafusion'",
            IntrospectionFunction::CurrentUser => "SELECT 'postgres'",
            IntrospectionFunction::SessionUser => "SELECT 'postgres'",
            IntrospectionFunction::User => "SELECT 'postgres'",
            IntrospectionFunction::CurrentSchema => "SELECT 'public'",
            IntrospectionFunction::CurrentSchemas => "SELECT ARRAY['public']",
            IntrospectionFunction::GetDatabaseEncoding => "SELECT 'UTF8'",
            IntrospectionFunction::PgEncodingToChar => "SELECT 'UTF8'",
        }
    }

    fn to_proc_row(self, place: usize) -> (row: ProcRow)
        requires
            place < 10,
        ensures
            row@ == self.proc_row(place as int),
    {
        let (argument_count, argument_types, argument_names): (i16, String, Option<String>) =
            match self {
            IntrospectionFunction::CurrentSchemas => (
                1,
                String::from_str("16"),
                Some(String::from_str("implicit")),
            ),
            IntrospectionFunction::PgEncodingToChar => (
                1,
                String::from_str("23"),
                Some(String::from_str("encoding_id")),
            ),
            _ => (0, String::new(), None),
        };
        let return_type = if self == IntrospectionFunction::CurrentSchemas {
            WireType::Array(WireElement::Text).oid()
        } else {
            WireType::Scalar(WireElement::Text).oid()
        };
        ProcRow {
            oid: FIRST_PROCEDURE_OID + place as i32,
            name: String::from_str(self.name()),
            argument_count,
            return_type: return_type as i32,
            argument_types,
            argument_names,
            source: String::from_str(self.source()),
        }
    }
}

/// The procedure relation: the functions in their order, numbered from
/// `FIRST_PROCEDURE_OID` on.
pub open spec fn proc_rows() -> Seq<ProcRowModel> {
    Seq::new(listed_functions().len(), |i: int| listed_functions()[i].proc_row(i))
}

/// The columns of the procedure relation.
pub open spec fn proc_fields() -> Seq<FieldModel> {
    seq![
        required("oid"@, ColumnType::Int32),
        required("proname"@, ColumnType::Utf8),
        required("pronamespace"@, ColumnType::Int32),
        required("proowner"@, ColumnType::Int32),
        required("prolang"@, ColumnType::Int32),
        required("procost"@, ColumnType::Float32),
        required("prorows"@, ColumnType::Float32),
        required("provariadic"@, ColumnType::Int32),
        required("prosupport"@, ColumnType::Int32),
        required("prokind"@, ColumnType::Utf8),
        required("prosecdef"@, ColumnType::Boolean),
        required("proleakproof"@, ColumnType::Boolean),
        required("proisstrict"@, ColumnType::Boolean),
        required("proretset"@, ColumnType::Boolean),
        required("provolatile"@, ColumnType::Utf8),
        required("proparallel"@, ColumnType::Utf8),
        required("pronargs"@, ColumnType::Int16),
        required("pronargdefaults"@, ColumnType::Int16),
        required("prorettype"@, ColumnType::Int32),
        required("proargtypes"@, ColumnType::Utf8),
        optional("proallargtypes"@, ColumnType::Utf8),
        optional("proargmodes"@, ColumnType::Utf8),
        optional("proargnames"@, ColumnType::Utf8),
        optional("proargdefaults"@, ColumnType::Utf8),
        optional("protrftypes"@, ColumnType::Utf8),
        required("prosrc"@, ColumnType::Utf8),
        optional("probin"@, ColumnType::Utf8),
        optional("prosqlbody"@, ColumnType::Utf8),
        optional("proconfig"@, ColumnType::Utf8),
        optional("proacl"@, ColumnType::Utf8),
    ]
}

impl ProcRowModel {
    /// The row as the relation holds it: a plain function (`f`) in
    /// namespace 11, owned by user 10, written in language 12, of cost 1,
    /// leakproof, strict, immutable (`i`) and safe to run in parallel (`s`).
    pub open spec fn cells(self) -> Seq<ValueModel> {
        seq![
            ValueModel::Int32(self.oid as i32),
            ValueModel::Text(self.name),
            ValueModel::Int32(11),
            ValueModel::Int32(10),
            ValueModel::Int32(12),
            ValueModel::Number(1),
            ValueModel::Number(0),
            ValueModel::Int32(0),
            ValueModel::Int32(0),
            ValueModel::Text("f"@),
            ValueModel::Boolean(false),
            ValueModel::Boolean(true),
            ValueModel::Boolean(true),
            ValueModel::Boolean(false),
            ValueModel::Text("i"@),
            ValueModel::Text("s"@),
            ValueModel::Int16(self.argument_count as i16),
            ValueModel::Int16(0),
            ValueModel::Int32(self.return_type as i32),
            ValueModel::Text(self.argument_types),
            ValueModel::Null,
            ValueModel::Null,
            match self.argument_names {
                Some(names) => ValueModel::Text(names),
                None => ValueModel::Null,
            },
            ValueModel::Null,
            ValueModel::Null,
            ValueModel::Text(self.source),
            ValueModel::Null,
            ValueModel::Null,
            ValueModel::Null,
            ValueModel::Null,
        ]
    }
}

/// The rows as the relation holds them.
pub open spec fn proc_cells(rows: Seq<ProcRowModel>) -> Seq<Seq<ValueModel>> {
    Seq::new(rows.len(), |i: int| rows[i].cells())
}

impl ProcRow {
    /// The row as the relation holds it.
    pub fn to_values(&self) -> (values: Vec<Value>)
        ensures
            value_models(values@) == self@.cells(),
            row_conforms(self@.cells(), proc_fields()),
    {
        let names = match &self.argument_names {
            Some(names) => Value::Text(names.clone()),
            None => Value::Null,
        };
        let values = vec![
            Value::Int32(self.oid),
            Value::Text(self.name.clone()),
            Value::Int32(11),
            Value::Int32(10),
            Value::Int32(12),
            Value::Number(1),
            Value::Number(0),
            Value::Int32(0),
            Value::Int32(0),
            Value::Text(String::from_str("f")),
            Value::Boolean(false),
            Value::Boolean(true),
            Value::Boolean(true),
            Value::Boolean(false),
            Value::Text(String::from_str("i")),
            Value::Text(String::from_str("s")),
            Value::Int16(self.argument_count),
            Value::Int16(0),
            Value::Int32(self.return_type),
            Value::Text(self.argument_types.clone()),
            Value::Null,
            Value::Null,
            names,
            Value::Null,
            Value::Null,
            Value::Text(self.source.clone()),
            Value::Null,
            Value::Null,
            Value::Null,
            Value::Null,
        ];
        assert(value_models(values@) =~= self@.cells());
        values
    }
}

/// The columns of the procedure relation.
pub fn proc_schema() -> (fields: Vec<Field>)
    ensures
        field_models(fields@) == proc_fields(),
{
    let fields = vec![
        Field::required("oid", ColumnType::Int32),
        Field::required("proname", ColumnType::Utf8),
        Field::required("pronamespace", ColumnType::Int32),
        Field::required("proowner", ColumnType::Int32),
        Field::required("prolang", ColumnType::Int32),
        Field::required("procost", ColumnType::Float32),
        Field::required("prorows", ColumnType::Float32),
        Field::required("provariadic", ColumnType::Int32),
        Field::required("prosupport", ColumnType::Int32),
        Field::required("prokind", ColumnType::Utf8),
        Field::required("prosecdef", ColumnType::Boolean),
        Field::required("proleakproof", ColumnType::Boolean),
        Field::required("proisstrict", ColumnType::Boolean),
        Field::required("proretset", ColumnType::Boolean),
        Field::required("provolatile", ColumnType::Utf8),
        Field::required("proparallel", ColumnType::Utf8),
        Field::required("pronargs", ColumnType::Int16),
        Field::required("pronargdefaults", ColumnType::Int16),
        Field::required("prorettype", ColumnType::Int32),
        Field::required("proargtypes", ColumnType::Utf8),
        Field::optional("proallargtypes", ColumnType::Utf8),
        Field::optional("proargmodes", ColumnType::Utf8),
        Field::optional("proargnames", ColumnType::Utf8),
        Field::optional("proargdefaults", ColumnType::Utf8),
        Field::optional("protrftypes", ColumnType::Utf8),
        Field::required("prosrc", ColumnType::Utf8),
        Field::optional("probin", ColumnType::Utf8),
        Field::optional("prosqlbody", ColumnType::Utf8),
        Field::optional("proconfig", ColumnType::Utf8),
        Field::optional("proacl", ColumnType::Utf8),
    ];
    assert(field_models(fields@) =~= proc_fields());
    fields
}

fn functions_in_order() -> (functions: Vec<IntrospectionFunction>)
    ensures
        functions@ == listed_functions(),
{
    let functions = vec![
        IntrospectionFunction::Version,
        IntrospectionFunction::PgVersionNum,
        IntrospectionFunction::CurrentDatabase,
        IntrospectionFunction::CurrentUser,
        IntrospectionFunction::SessionUser,
        IntrospectionFunction::User,
        IntrospectionFunction::CurrentSchema,
        IntrospectionFunction::CurrentSchemas,
        IntrospectionFunction::GetDatabaseEncoding,
        IntrospectionFunction::PgEncodingToChar,
    ];
    assert(functions@ =~= listed_functions());
    functions
}

/// The procedure relation as a producer of one relation per fetch.
pub struct PgProcTable {
    schema: Vec<Field>,
}

impl PgProcTable {
    #[verifier::type_invariant]
    closed spec fn well_formed(self) -> bool {
        field_models(self.schema@) == proc_fields()
    }

    /// The columns that the producer declares.
    pub closed spec fn fields(&self) -> Seq<FieldModel> {
        field_models(self.schema@)
    }

    /// A producer that declares the columns of the relation.
    pub fn new() -> (table: PgProcTable)
        ensures
            table.fields() == proc_fields(),
    {
        PgProcTable { schema: proc_schema() }
    }

    /// The columns of the relation.
    pub fn schema(&self) -> (fields: &Vec<Field>)
        ensures
            field_models(fields@) == self.fields(),
            self.fields() == proc_fields(),
    {
        proof {
            use_type_invariant(self);
        }
        &self.schema
    }

    /// The rows of the relation.
    pub fn rows() -> (rows: Vec<ProcRow>)
        ensures
            proc_row_models(rows@) == proc_rows(),
    {
        let functions = functions_in_order();
        let mut rows: Vec<ProcRow> = Vec::new();
        let mut i: usize = 0;
        while i < functions.len()
            invariant
                0 <= i <= functions.len(),
                functions@ == listed_functions(),
                proc_row_models(rows@) == proc_rows().take(i as int),
            decreases functions.len() - i,
        {
            let ghost listed = proc_row_models(rows@);
            let row = functions[i].to_proc_row(i);
            rows.push(row);
            assert(proc_row_models(rows@) == listed.push(row@));
            assert(proc_rows().take(i as int + 1) == proc_rows().take(i as int).push(row@));
            i = i + 1;
        }
        assert(proc_rows().take(i as int) == proc_rows());
        rows
    }

    /// The relation.
    pub fn get_data() -> (relation: Relation)
        ensures
            relation@.fields == proc_fields(),
            relation@.rows == proc_cells(proc_rows()),
    {
        let rows = Self::rows();
        let mut cells: Vec<Vec<Value>> = Vec::new();
        let mut i: usize = 0;
        while i < rows.len()
            invariant
                0 <= i <= rows.len(),
                row_models(cells@) == proc_cells(proc_row_models(rows@).take(i as int)),
                rows_conform(row_models(cells@), proc_fields()),
            decreases rows.len() - i,
        {
            let ghost done = row_models(cells@);
            let values = rows[i].to_values();
            cells.push(values);
            assert(row_models(cells@) == done.push(rows@[i as int]@.cells()));
            assert(row_models(cells@) == proc_cells(proc_row_models(rows@).take(i as int + 1)));
            i = i + 1;
        }
        assert(proc_row_models(rows@).take(i as int) == proc_row_models(rows@));
        Relation::new(proc_schema(), cells)
    }
}

} // verus!

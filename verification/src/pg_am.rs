//! The access-method relation: declared in full, and always empty.

use crate::relation::{
    field_models, required, row_models, ColumnType, Field, FieldModel, Relation, Value, ValueModel,
};
use vstd::prelude::*;

verus! {

/// The columns of the access-method relation.
pub open spec fn am_fields() -> Seq<FieldModel> {
    seq![
        required("oid"@, ColumnType::Int32),
        required("amname"@, ColumnType::Utf8),
        required("amhandler"@, ColumnType::Int32),
        required("amtype"@, ColumnType::Utf8),
        required("amstrategies"@, ColumnType::Int32),
        required("amsupport"@, ColumnType::Int32),
        required("amcanorder"@, ColumnType::Boolean),
        required("amcanorderbyop"@, ColumnType::Boolean),
        required("amcanbackward"@, ColumnType::Boolean),
        required("amcanunique"@, ColumnType::Boolean),
        required("amcanmulticol"@, ColumnType::Boolean),
        required("amoptionalkey"@, ColumnType::Boolean),
        required("amsearcharray"@, ColumnType::Boolean),
        required("amsearchnulls"@, ColumnType::Boolean),
        required("amstorage"@, ColumnType::Boolean),
        required("amclusterable"@, ColumnType::Boolean),
        required("ampredlocks"@, ColumnType::Boolean),
        required("amcanparallel"@, ColumnType::Boolean),
        required("amcanbeginscan"@, ColumnType::Boolean),
        required("amcanmarkpos"@, ColumnType::Boolean),
        required("amcanfetch"@, ColumnType::Boolean),
        required("amkeytype"@, ColumnType::Int32),
    ]
}

/// The columns of the access-method relation.
pub fn pg_am_schema() -> (fields: Vec<Field>)
    ensures
        field_models(fields@) == am_fields(),
        fields.len() == 22,
{
    let fields = vec![
        Field::required("oid", ColumnType::Int32),
        Field::required("amname", ColumnType::Utf8),
        Field::required("amhandler", ColumnType::Int32),
        Field::required("amtype", ColumnType::Utf8),
        Field::required("amstrategies", ColumnType::Int32),
        Field::required("amsupport", ColumnType::Int32),
        Field::required("amcanorder", ColumnType::Boolean),
        Field::required("amcanorderbyop", ColumnType::Boolean),
        Field::required("amcanbackward", ColumnType::Boolean),
        Field::required("amcanunique", ColumnType::Boolean),
        Field::required("amcanmulticol", ColumnType::Boolean),
        Field::required("amoptionalkey", ColumnType::Boolean),
        Field::required("amsearcharray", ColumnType::Boolean),
        Field::required("amsearchnulls", ColumnType::Boolean),
        Field::required("amstorage", ColumnType::Boolean),
        Field::required("amclusterable", ColumnType::Boolean),
        Field::required("ampredlocks", ColumnType::Boolean),
        Field::required("amcanparallel", ColumnType::Boolean),
        Field::required("amcanbeginscan", ColumnType::Boolean),
        Field::required("amcanmarkpos", ColumnType::Boolean),
        Field::required("amcanfetch", ColumnType::Boolean),
        Field::required("amkeytype", ColumnType::Int32),
    ];
    assert(field_models(fields@) =~= am_fields());
    fields
}

/// The access-method relation: all of its columns, none of its rows.
pub fn create_pg_am_data() -> (relation: Relation)
    ensures
        relation@.fields == am_fields(),
        relation@.rows == Seq::<Seq<ValueModel>>::empty(),
{
    let rows: Vec<Vec<Value>> = Vec::new();
    assert(row_models(rows@) =~= Seq::<Seq<ValueModel>>::empty());
    Relation::new(pg_am_schema(), rows)
}

} // verus!

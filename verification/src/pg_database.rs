//! The database relation: one row for each catalog, and a row for the
//! database `postgres` where no catalog has that name.

use crate::catalog::text_models;
use crate::oid::{OidAssigner, FIRST_DATABASE_OID};
use crate::relation::{
    field_models, optional, required, row_conforms, row_models, rows_conform, value_models,
    ColumnType, Field, FieldModel, Relation, Value, ValueModel,
};
use vstd::prelude::*;

verus! {

/// The most catalogs that a fetch can number.
pub const MAX_DATABASES: usize = 2147467263;

/// One database.
#[derive(Clone, Debug, PartialEq, Eq)]
pub struct DatabaseRow {
    pub oid: i32,
    pub name: String,
}

/// A database row, as a value of mathematics.
pub struct DatabaseRowModel {
    pub oid: int,
    pub name: Seq<char>,
}

impl View for DatabaseRow {
    type V = DatabaseRowModel;

    open spec fn view(&self) -> DatabaseRowModel {
        DatabaseRowModel { oid: self.oid as int, name: self.name@ }
    }
}

/// The rows as values of mathematics.
pub open spec fn database_row_models(rows: Seq<DatabaseRow>) -> Seq<DatabaseRowModel> {
    Seq::new(rows.len(), |i: int| rows[i]@)
}

/// The rows of the catalogs: each is a database, numbered from
/// `FIRST_DATABASE_OID` on in the catalogs' order.
pub open spec fn listed_database_rows(names: Seq<Seq<char>>) -> Seq<DatabaseRowModel> {
    Seq::new(
        names.len(),
        |i: int| DatabaseRowModel { oid: FIRST_DATABASE_OID + i, name: names[i] },
    )
}

/// The database relation of a list of catalog names: the catalogs, then
/// the database `postgres` with the next identifier unless a catalog has
/// that name.
pub open spec fn database_rows(names: Seq<Seq<char>>) -> Seq<DatabaseRowModel> {
    if names.contains("postgres"@) {
        listed_database_rows(names)
    } else {
        listed_database_rows(names).push(
            DatabaseRowModel { oid: FIRST_DATABASE_OID + names.len(), name: "postgres"@ },
        )
    }
}

/// The columns of the database relation.
pub open spec fn database_fields() -> Seq<FieldModel> {
    seq![
        required("oid"@, ColumnType::Int32),
        required("datname"@, ColumnType::Utf8),
        required("datdba"@, ColumnType::Int32),
        required("encoding"@, ColumnType::Int32),
        required("datcollate"@, ColumnType::Utf8),
        required("datctype"@, ColumnType::Utf8),
        required("datistemplate"@, ColumnType::Boolean),
        required("datallowconn"@, ColumnType::Boolean),
        required("datconnlimit"@, ColumnType::Int32),
        required("datlastsysoid"@, ColumnType::Int32),
        required("datfrozenxid"@, ColumnType::Int32),
        required("datminmxid"@, ColumnType::Int32),
        required("dattablespace"@, ColumnType::Int32),
        optional("datacl"@, ColumnType::Utf8),
    ]
}

impl DatabaseRowModel {
    /// The row as the relation holds it: owned by user 10, encoded in UTF-8
    /// (6) with the locale `en_US.UTF-8`, no template, open to connections
    /// without a limit, in the default tablespace (1663).
    pub open spec fn cells(self) -> Seq<ValueModel> {
        seq![
            ValueModel::Int32(self.oid as i32),
            ValueModel::Text(self.name),
            ValueModel::Int32(10),
            ValueModel::Int32(6),
            ValueModel::Text("en_US.UTF-8"@),
            ValueModel::Text("en_US.UTF-8"@),
            ValueModel::Boolean(false),
            ValueModel::Boolean(true),
            ValueModel::Int32(-1i32),
            ValueModel::Int32(100000),
            ValueModel::Int32(1),
            ValueModel::Int32(1),
            ValueModel::Int32(1663),
            ValueModel::Null,
        ]
    }
}

/// The rows as the relation holds them.
pub open spec fn database_cells(rows: Seq<DatabaseRowModel>) -> Seq<Seq<ValueModel>> {
    Seq::new(rows.len(), |i: int| rows[i].cells())
}

impl DatabaseRow {
    /// The row as the relation holds it.
    pub fn to_values(&self) -> (values: Vec<Value>)
        ensures
            value_models(values@) == self@.cells(),
            row_conforms(self@.cells(), database_fields()),
    {
        let values = vec![
            Value::Int32(self.oid),
            Value::Text(self.name.clone()),
            Value::Int32(10),
            Value::Int32(6),
            Value::Text(String::from_str("en_US.UTF-8")),
            Value::Text(String::from_str("en_US.UTF-8")),
            Value::Boolean(false),
            Value::Boolean(true),
            Value::Int32(-1),
            Value::Int32(100000),
            Value::Int32(1),
            Value::Int32(1),
            Value::Int32(1663),
            Value::Null,
        ];
        assert(value_models(values@) =~= self@.cells());
        values
    }
}

/// The columns of the database relation.
pub fn database_schema() -> (fields: Vec<Field>)
    ensures
        field_models(fields@) == database_fields(),
{
    let fields = vec![
        Field::required("oid", ColumnType::Int32),
        Field::required("datname", ColumnType::Utf8),
        Field::required("datdba", ColumnType::Int32),
        Field::required("encoding", ColumnType::Int32),
        Field::required("datcollate", ColumnType::Utf8),
        Field::required("datctype", ColumnType::Utf8),
        Field::required("datistemplate", ColumnType::Boolean),
        Field::required("datallowconn", ColumnType::Boolean),
        Field::required("datconnlimit", ColumnType::Int32),
        Field::required("datlastsysoid", ColumnType::Int32),
        Field::required("datfrozenxid", ColumnType::Int32),
        Field::required("datminmxid", ColumnType::Int32),
        Field::required("dattablespace", ColumnType::Int32),
        Field::optional("datacl", ColumnType::Utf8),
    ];
    assert(field_models(fields@) =~= database_fields());
    fields
}

/// The database relation as a producer of one relation per fetch.
pub struct PgDatabaseTable {
    schema: Vec<Field>,
}

impl PgDatabaseTable {
    #[verifier::type_invariant]
    closed spec fn well_formed(self) -> bool {
        field_models(self.schema@) == database_fields()
    }

    /// The columns that the producer declares.
    pub closed spec fn fields(&self) -> Seq<FieldModel> {
        field_models(self.schema@)
    }

    /// A producer that declares the columns of the relation.
    pub fn new() -> (table: PgDatabaseTable)
        ensures
            table.fields() == database_fields(),
    {
        PgDatabaseTable { schema: database_schema() }
    }

    /// The columns of the relation.
    pub fn schema(&self) -> (fields: &Vec<Field>)
        ensures
            field_models(fields@) == self.fields(),
            self.fields() == database_fields(),
    {
        proof {
            use_type_invariant(self);
        }
        &self.schema
    }

    /// The rows of the relation for the catalogs' names in the order in
    /// which the catalog list enumerates them.
    pub fn rows(catalog_names: &Vec<String>) -> (rows: Vec<DatabaseRow>)
        requires
            catalog_names.len() <= MAX_DATABASES,
        ensures
            database_row_models(rows@) == database_rows(text_models(catalog_names@)),
    {
        let ghost names = text_models(catalog_names@);
        let postgres = String::from_str("postgres");
        let mut rows: Vec<DatabaseRow> = Vec::new();
        let mut assigner = OidAssigner::for_databases();
        let mut found = false;
        let mut i: usize = 0;
        assert(database_row_models(rows@) == listed_database_rows(names).take(0));
        while i < catalog_names.len()
            invariant
                0 <= i <= catalog_names.len(),
                catalog_names.len() <= MAX_DATABASES,
                names == text_models(catalog_names@),
                postgres@ == "postgres"@,
                assigner@ == FIRST_DATABASE_OID + i,
                found == names.take(i as int).contains("postgres"@),
                database_row_models(rows@) == listed_database_rows(names).take(i as int),
            decreases catalog_names.len() - i,
        {
            let name = &catalog_names[i];
            let ghost listed = database_row_models(rows@);
            let oid = assigner.next();
            let row = DatabaseRow { oid, name: name.clone() };
            rows.push(row);
            assert(database_row_models(rows@) == listed.push(row@));
            assert(listed_database_rows(names).take(i as int + 1) == listed_database_rows(
                names,
            ).take(i as int).push(row@));
            proof {
                let seen = names.take(i as int);
                let next = names.take(i as int + 1);
                assert(next == seen.push(name@));
                if seen.contains("postgres"@) {
                    let k = choose|k: int| 0 <= k < seen.len() && seen[k] == "postgres"@;
                    assert(next[k] == "postgres"@);
                }
                if name@ == "postgres"@ {
                    assert(next[i as int] == "postgres"@);
                }
            }
            if *name == postgres {
                found = true;
            }
            i = i + 1;
        }
        assert(names.take(i as int) == names);
        assert(listed_database_rows(names).take(i as int) == listed_database_rows(names));
        if !found {
            let ghost listed = database_row_models(rows@);
            let row = DatabaseRow { oid: assigner.peek(), name: postgres };
            rows.push(row);
            assert(database_row_models(rows@) == listed.push(row@));
        }
        rows
    }

    /// The relation for the catalogs' names.
    pub fn get_data(catalog_names: &Vec<String>) -> (relation: Relation)
        requires
            catalog_names.len() <= MAX_DATABASES,
        ensures
            relation@.fields == database_fields(),
            relation@.rows == database_cells(database_rows(text_models(catalog_names@))),
    {
        let rows = Self::rows(catalog_names);
        let mut cells: Vec<Vec<Value>> = Vec::new();
        let mut i: usize = 0;
        while i < rows.len()
            invariant
                0 <= i <= rows.len(),
                row_models(cells@) == database_cells(database_row_models(rows@).take(i as int)),
                rows_conform(row_models(cells@), database_fields()),
            decreases rows.len() - i,
        {
            let ghost done = row_models(cells@);
            let values = rows[i].to_values();
            cells.push(values);
            assert(row_models(cells@) == done.push(rows@[i as int]@.cells()));
            assert(row_models(cells@) == database_cells(
                database_row_models(rows@).take(i as int + 1),
            ));
            i = i + 1;
        }
        assert(database_row_models(rows@).take(i as int) == database_row_models(rows@));
        Relation::new(database_schema(), cells)
    }
}

/// The database relation always holds a database named `postgres`. The
/// catalogs come first, numbered from `FIRST_DATABASE_OID` on in their
/// order, so that no two rows share an identifier; and where there is no
/// catalog at all, the relation is the one row of `postgres`.
pub proof fn law_postgres_is_always_listed(names: Seq<Seq<char>>) -> (place: int)
    ensures
        0 <= place < database_rows(names).len(),
        database_rows(names)[place].name == "postgres"@,
        names.len() <= database_rows(names).len() <= names.len() + 1,
        forall|i: int|
            0 <= i < database_rows(names).len() ==> (#[trigger] database_rows(names)[i]).oid
                == FIRST_DATABASE_OID + i,
        forall|i: int|
            0 <= i < names.len() ==> (#[trigger] database_rows(names)[i]).name == names[i],
        names.len() == 0 ==> database_rows(names) == seq![
            DatabaseRowModel { oid: FIRST_DATABASE_OID as int, name: "postgres"@ },
        ],
{
    if names.contains("postgres"@) {
        choose|i: int| 0 <= i < names.len() && names[i] == "postgres"@
    } else {
        if names.len() == 0 {
            assert(database_rows(names) =~= seq![
                DatabaseRowModel { oid: FIRST_DATABASE_OID as int, name: "postgres"@ },
            ]);
        }
        names.len() as int
    }
}

} // verus!

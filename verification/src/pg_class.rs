//! The class relation: one row for each table that the walk numbered.

use crate::catalog::{
    catalog_models, catalogs_span, is_system_namespace, lemma_catalogs_span_prefix,
    lemma_schemas_span_prefix, names_system_namespace, schema_models, schemas_fit, schemas_span,
    table_models, tables_fit, columns_fit, CatalogEntry, CatalogModel, CatalogWalk, SchemaEntry,
    SchemaModel, TableEntry, TableModel, MAX_COLUMNS,
};
use crate::oid::{OidAssigner, FIRST_RELATION_OID};
use crate::relation::{
    field_models, optional, required, row_conforms, row_models, rows_conform, value_models,
    ColumnType, Field, FieldModel, Relation, Value, ValueModel,
};
use vstd::prelude::*;

verus! {

/// What kind of relation a row of the class relation stands for. Every
/// table of the catalog is listed as an ordinary table.
#[derive(Clone, Copy, Debug, PartialEq, Eq, Structural)]
pub enum RelationKind {
    OrdinaryTable,
}

impl RelationKind {
    /// The letter that stands for the kind in the relation.
    pub open spec fn code_spec(self) -> Seq<char> {
        "r"@
    }

    /// The letter that stands for the kind in the relation.
    pub fn code(self) -> (letter: &'static str)
        ensures
            letter@ == self.code_spec(),
    {
        "r"
    }
}

/// One table.
#[derive(Clone, Debug, PartialEq, Eq)]
pub struct ClassRow {
    pub oid: i32,
    pub name: String,
    pub namespace_oid: i32,
    pub kind: RelationKind,
    pub attribute_count: i16,
}

/// A class row, as a value of mathematics.
pub struct ClassRowModel {
    pub oid: int,
    pub name: Seq<char>,
    pub namespace_oid: int,
    pub kind: RelationKind,
    pub attribute_count: int,
}

impl View for ClassRow {
    type V = ClassRowModel;

    open spec fn view(&self) -> ClassRowModel {
        ClassRowModel {
            oid: self.oid as int,
            name: self.name@,
            namespace_oid: self.namespace_oid as int,
            kind: self.kind,
            attribute_count: self.attribute_count as int,
        }
    }
}

/// The rows as values of mathematics.
pub open spec fn class_row_models(rows: Seq<ClassRow>) -> Seq<ClassRowModel> {
    Seq::new(rows.len(), |i: int| rows[i]@)
}

/// The row of a table with the identifier `oid` in the namespace
/// `namespace_oid`: an ordinary table with as many attributes as the table
/// has columns.
pub open spec fn class_row(oid: int, table: TableModel, namespace_oid: int) -> ClassRowModel {
    ClassRowModel {
        oid,
        name: table.name,
        namespace_oid,
        kind: RelationKind::OrdinaryTable,
        attribute_count: table.columns.len() as int,
    }
}

/// The rows of the tables of one schema: the tables take the identifiers
/// from `first` on, in their order.
pub open spec fn table_class_rows(tables: Seq<TableModel>, first: int, namespace_oid: int) -> Seq<
    ClassRowModel,
> {
    Seq::new(tables.len(), |t: int| class_row(first + t, tables[t], namespace_oid))
}

/// The rows of a run of schemas whose first identifier is `base`: a schema
/// that the walk numbers takes the next identifier, and its tables those
/// that follow.
pub open spec fn schema_class_rows(schemas: Seq<SchemaModel>, base: int) -> Seq<ClassRowModel>
    decreases schemas.len(),
{
    if schemas.len() == 0 {
        Seq::empty()
    } else {
        let before = schema_class_rows(schemas.drop_last(), base);
        let namespace_oid = base + schemas_span(schemas.drop_last());
        if is_system_namespace(schemas.last().name) {
            before
        } else {
            before + table_class_rows(schemas.last().tables, namespace_oid + 1, namespace_oid)
        }
    }
}

/// The rows of a run of catalogs whose first identifier is `base`.
pub open spec fn catalog_class_rows(catalogs: Seq<CatalogModel>, base: int) -> Seq<ClassRowModel>
    decreases catalogs.len(),
{
    if catalogs.len() == 0 {
        Seq::empty()
    } else {
        catalog_class_rows(catalogs.drop_last(), base) + schema_class_rows(
            catalogs.last().schemas,
            base + catalogs_span(catalogs.drop_last()),
        )
    }
}

/// The class relation of a walk.
pub open spec fn class_rows(walk: Seq<CatalogModel>) -> Seq<ClassRowModel> {
    catalog_class_rows(walk, FIRST_RELATION_OID as int)
}

/// The columns of the class relation.
pub open spec fn class_fields() -> Seq<FieldModel> {
    seq![
        required("oid"@, ColumnType::Int32),
        required("relname"@, ColumnType::Utf8),
        required("relnamespace"@, ColumnType::Int32),
        required("reltype"@, ColumnType::Int32),
        optional("reloftype"@, ColumnType::Int32),
        required("relowner"@, ColumnType::Int32),
        required("relam"@, ColumnType::Int32),
        required("relfilenode"@, ColumnType::Int32),
        required("reltablespace"@, ColumnType::Int32),
        required("relpages"@, ColumnType::Int32),
        required("reltuples"@, ColumnType::Float64),
        required("relallvisible"@, ColumnType::Int32),
        required("reltoastrelid"@, ColumnType::Int32),
        required("relhasindex"@, ColumnType::Boolean),
        required("relisshared"@, ColumnType::Boolean),
        required("relpersistence"@, ColumnType::Utf8),
        required("relkind"@, ColumnType::Utf8),
        required("relnatts"@, ColumnType::Int16),
        required("relchecks"@, ColumnType::Int16),
        required("relhasrules"@, ColumnType::Boolean),
        required("relhastriggers"@, ColumnType::Boolean),
        required("relhassubclass"@, ColumnType::Boolean),
        required("relrowsecurity"@, ColumnType::Boolean),
        required("relforcerowsecurity"@, ColumnType::Boolean),
        required("relispopulated"@, ColumnType::Boolean),
        required("relreplident"@, ColumnType::Utf8),
        required("relispartition"@, ColumnType::Boolean),
        optional("relrewrite"@, ColumnType::Int32),
        required("relfrozenxid"@, ColumnType::Int32),
        required("relminmxid"@, ColumnType::Int32),
    ]
}

impl ClassRowModel {
    /// The row as the relation holds it. The file node is the table's own
    /// identifier; the table is permanent, populated, one page long and
    /// without tuples; every other column holds its placeholder.
    pub open spec fn cells(self) -> Seq<ValueModel> {
        seq![
            ValueModel::Int32(self.oid as i32),
            ValueModel::Text(self.name),
            ValueModel::Int32(self.namespace_oid as i32),
            ValueModel::Int32(0),
            ValueModel::Null,
            ValueModel::Int32(0),
            ValueModel::Int32(0),
            ValueModel::Int32(self.oid as i32),
            ValueModel::Int32(0),
            ValueModel::Int32(1),
            ValueModel::Number(0),
            ValueModel::Int32(0),
            ValueModel::Int32(0),
            ValueModel::Boolean(false),
            ValueModel::Boolean(false),
            ValueModel::Text("p"@),
            ValueModel::Text(self.kind.code_spec()),
            ValueModel::Int16(self.attribute_count as i16),
            ValueModel::Int16(0),
            ValueModel::Boolean(false),
            ValueModel::Boolean(false),
            ValueModel::Boolean(false),
            ValueModel::Boolean(false),
            ValueModel::Boolean(false),
            ValueModel::Boolean(true),
            ValueModel::Text("d"@),
            ValueModel::Boolean(false),
            ValueModel::Null,
            ValueModel::Int32(0),
            ValueModel::Int32(0),
        ]
    }
}

/// The rows as the relation holds them.
pub open spec fn class_cells(rows: Seq<ClassRowModel>) -> Seq<Seq<ValueModel>> {
    Seq::new(rows.len(), |i: int| rows[i].cells())
}

impl ClassRow {
    /// The row as the relation holds it.
    pub fn to_values(&self) -> (values: Vec<Value>)
        ensures
            value_models(values@) == self@.cells(),
            row_conforms(self@.cells(), class_fields()),
    {
        let values = vec![
            Value::Int32(self.oid),
            Value::Text(self.name.clone()),
            Value::Int32(self.namespace_oid),
            Value::Int32(0),
            Value::Null,
            Value::Int32(0),
            Value::Int32(0),
            Value::Int32(self.oid),
            Value::Int32(0),
            Value::Int32(1),
            Value::Number(0),
            Value::Int32(0),
            Value::Int32(0),
            Value::Boolean(false),
            Value::Boolean(false),
            Value::Text(String::from_str("p")),
            Value::Text(String::from_str(self.kind.code())),
            Value::Int16(self.attribute_count),
            Value::Int16(0),
            Value::Boolean(false),
            Value::Boolean(false),
            Value::Boolean(false),
            Value::Boolean(false),
            Value::Boolean(false),
            Value::Boolean(true),
            Value::Text(String::from_str("d")),
            Value::Boolean(false),
            Value::Null,
            Value::Int32(0),
            Value::Int32(0),
        ];
        assert(value_models(values@) =~= self@.cells());
        values
    }
}

/// The columns of the class relation.
pub fn class_schema() -> (fields: Vec<Field>)
    ensures
        field_models(fields@) == class_fields(),
{
    let fields = vec![
        Field::required("oid", ColumnType::Int32),
        Field::required("relname", ColumnType::Utf8),
        Field::required("relnamespace", ColumnType::Int32),
        Field::required("reltype", ColumnType::Int32),
        Field::optional("reloftype", ColumnType::Int32),
        Field::required("relowner", ColumnType::Int32),
        Field::required("relam", ColumnType::Int32),
        Field::required("relfilenode", ColumnType::Int32),
        Field::required("reltablespace", ColumnType::Int32),
        Field::required("relpages", ColumnType::Int32),
        Field::required("reltuples", ColumnType::Float64),
        Field::required("relallvisible", ColumnType::Int32),
        Field::required("reltoastrelid", ColumnType::Int32),
        Field::required("relhasindex", ColumnType::Boolean),
        Field::required("relisshared", ColumnType::Boolean),
        Field::required("relpersistence", ColumnType::Utf8),
        Field::required("relkind", ColumnType::Utf8),
        Field::required("relnatts", ColumnType::Int16),
        Field::required("relchecks", ColumnType::Int16),
        Field::required("relhasrules", ColumnType::Boolean),
        Field::required("relhastriggers", ColumnType::Boolean),
        Field::required("relhassubclass", ColumnType::Boolean),
        Field::required("relrowsecurity", ColumnType::Boolean),
        Field::required("relforcerowsecurity", ColumnType::Boolean),
        Field::required("relispopulated", ColumnType::Boolean),
        Field::required("relreplident", ColumnType::Utf8),
        Field::required("relispartition", ColumnType::Boolean),
        Field::optional("relrewrite", ColumnType::Int32),
        Field::required("relfrozenxid", ColumnType::Int32),
        Field::required("relminmxid", ColumnType::Int32),
    ];
    assert(field_models(fields@) =~= class_fields());
    fields
}

/// Adds the rows of one schema's tables and moves the counter past their
/// identifiers.
fn push_table_rows(
    tables: &Vec<TableEntry>,
    namespace_oid: i32,
    assigner: &mut OidAssigner,
    rows: &mut Vec<ClassRow>,
)
    requires
        old(assigner)@ + tables.len() <= i32::MAX,
        tables_fit(table_models(tables@)),
    ensures
        final(assigner)@ == old(assigner)@ + tables.len(),
        class_row_models(final(rows)@) == class_row_models(old(rows)@) + table_class_rows(
            table_models(tables@),
            old(assigner)@,
            namespace_oid as int,
        ),
{
    let ghost models = table_models(tables@);
    let ghost first = assigner@;
    let ghost before = class_row_models(rows@);
    let mut t: usize = 0;
    assert(class_row_models(rows@) == before + table_class_rows(
        models,
        first,
        namespace_oid as int,
    ).take(0));
    while t < tables.len()
        invariant
            0 <= t <= tables.len(),
            models == table_models(tables@),
            tables_fit(models),
            first + tables.len() <= i32::MAX,
            assigner@ == first + t,
            class_row_models(rows@) == before + table_class_rows(
                models,
                first,
                namespace_oid as int,
            ).take(t as int),
        decreases tables.len() - t,
    {
        let table = &tables[t];
        let ghost listed = class_row_models(rows@);
        assert(models[t as int].columns.len() <= MAX_COLUMNS);
        let oid = assigner.next();
        let row = ClassRow {
            oid,
            name: table.name.clone(),
            namespace_oid,
            kind: RelationKind::OrdinaryTable,
            attribute_count: table.columns.len() as i16,
        };
        rows.push(row);
        assert(row@ == class_row(first + t, models[t as int], namespace_oid as int));
        assert(class_row_models(rows@) == listed.push(row@));
        assert(table_class_rows(models, first, namespace_oid as int).take(t as int + 1)
            == table_class_rows(models, first, namespace_oid as int).take(t as int).push(row@));
        t = t + 1;
    }
    assert(table_class_rows(models, first, namespace_oid as int).take(t as int)
        == table_class_rows(models, first, namespace_oid as int));
}

/// Adds the rows of one catalog's schemas.
fn push_schema_rows(
    schemas: &Vec<SchemaEntry>,
    assigner: &mut OidAssigner,
    rows: &mut Vec<ClassRow>,
)
    requires
        old(assigner)@ + schemas_span(schema_models(schemas@)) <= i32::MAX,
        schemas_fit(schema_models(schemas@)),
    ensures
        final(assigner)@ == old(assigner)@ + schemas_span(schema_models(schemas@)),
        class_row_models(final(rows)@) == class_row_models(old(rows)@) + schema_class_rows(
            schema_models(schemas@),
            old(assigner)@,
        ),
{
    let ghost models = schema_models(schemas@);
    let ghost base = assigner@;
    let ghost before = class_row_models(rows@);
    let mut i: usize = 0;
    assert(models.take(0) == Seq::<SchemaModel>::empty());
    assert(class_row_models(rows@) == before + schema_class_rows(models.take(0), base));
    while i < schemas.len()
        invariant
            0 <= i <= schemas.len(),
            models == schema_models(schemas@),
            schemas_fit(models),
            base + schemas_span(models) <= i32::MAX,
            assigner@ == base + schemas_span(models.take(i as int)),
            class_row_models(rows@) == before + schema_class_rows(models.take(i as int), base),
        decreases schemas.len() - i,
    {
        let schema = &schemas[i];
        proof {
            lemma_schemas_span_prefix(models, i as int);
            lemma_schemas_span_prefix(models, i as int + 1);
            assert(models.take(i as int + 1).drop_last() == models.take(i as int));
            assert(models.take(i as int + 1).last() == schema@);
            assert(tables_fit(models[i as int].tables));
        }
        if !names_system_namespace(&schema.name) {
            let namespace_oid = assigner.next();
            push_table_rows(&schema.tables, namespace_oid, assigner, rows);
        }
        i = i + 1;
    }
    assert(models.take(i as int) == models);
}

/// Adds the rows of the catalogs' tables.
fn push_catalog_rows(
    catalogs: &Vec<CatalogEntry>,
    assigner: &mut OidAssigner,
    rows: &mut Vec<ClassRow>,
)
    requires
        old(assigner)@ + catalogs_span(catalog_models(catalogs@)) <= i32::MAX,
        columns_fit(catalog_models(catalogs@)),
    ensures
        final(assigner)@ == old(assigner)@ + catalogs_span(catalog_models(catalogs@)),
        class_row_models(final(rows)@) == class_row_models(old(rows)@) + catalog_class_rows(
            catalog_models(catalogs@),
            old(assigner)@,
        ),
{
    let ghost models = catalog_models(catalogs@);
    let ghost base = assigner@;
    let ghost before = class_row_models(rows@);
    let mut i: usize = 0;
    assert(models.take(0) == Seq::<CatalogModel>::empty());
    assert(class_row_models(rows@) == before + catalog_class_rows(models.take(0), base));
    while i < catalogs.len()
        invariant
            0 <= i <= catalogs.len(),
            models == catalog_models(catalogs@),
            columns_fit(models),
            base + catalogs_span(models) <= i32::MAX,
            assigner@ == base + catalogs_span(models.take(i as int)),
            class_row_models(rows@) == before + catalog_class_rows(models.take(i as int), base),
        decreases catalogs.len() - i,
    {
        proof {
            lemma_catalogs_span_prefix(models, i as int);
            lemma_catalogs_span_prefix(models, i as int + 1);
            assert(models.take(i as int + 1).drop_last() == models.take(i as int));
            assert(models.take(i as int + 1).last() == catalogs@[i as int]@);
            assert(schemas_fit(models[i as int].schemas));
        }
        push_schema_rows(&catalogs[i].schemas, assigner, rows);
        i = i + 1;
    }
    assert(models.take(i as int) == models);
}

/// The class relation as a producer of one relation per fetch.
pub struct PgClassTable {
    schema: Vec<Field>,
}

impl PgClassTable {
    #[verifier::type_invariant]
    closed spec fn well_formed(self) -> bool {
        field_models(self.schema@) == class_fields()
    }

    /// The columns that the producer declares.
    pub closed spec fn fields(&self) -> Seq<FieldModel> {
        field_models(self.schema@)
    }

    /// A producer that declares the columns of the relation.
    pub fn new() -> (table: PgClassTable)
        ensures
            table.fields() == class_fields(),
    {
        PgClassTable { schema: class_schema() }
    }

    /// The columns of the relation.
    pub fn schema(&self) -> (fields: &Vec<Field>)
        ensures
            field_models(fields@) == self.fields(),
            self.fields() == class_fields(),
    {
        proof {
            use_type_invariant(self);
        }
        &self.schema
    }

    /// The rows of the relation for a walk: the tables in the walk's order,
    /// each with its identifier and with the identifier of its schema.
    pub fn rows(walk: &CatalogWalk) -> (rows: Vec<ClassRow>)
        ensures
            class_row_models(rows@) == class_rows(walk@),
    {
        let catalogs = walk.catalogs();
        let mut rows: Vec<ClassRow> = Vec::new();
        assert(class_row_models(rows@) == Seq::<ClassRowModel>::empty());
        let mut assigner = OidAssigner::for_relations();
        push_catalog_rows(catalogs, &mut assigner, &mut rows);
        rows
    }

    /// The relation for a walk.
    pub fn get_data(walk: &CatalogWalk) -> (relation: Relation)
        ensures
            relation@.fields == class_fields(),
            relation@.rows == class_cells(class_rows(walk@)),
    {
        let rows = Self::rows(walk);
        let mut cells: Vec<Vec<Value>> = Vec::new();
        let mut i: usize = 0;
        while i < rows.len()
            invariant
                0 <= i <= rows.len(),
                row_models(cells@) == class_cells(class_row_models(rows@).take(i as int)),
                rows_conform(row_models(cells@), class_fields()),
            decreases rows.len() - i,
        {
            let ghost done = row_models(cells@);
            let values = rows[i].to_values();
            cells.push(values);
            assert(row_models(cells@) == done.push(rows@[i as int]@.cells()));
            assert(row_models(cells@) == class_cells(
                class_row_models(rows@).take(i as int + 1),
            ));
            i = i + 1;
        }
        assert(class_row_models(rows@).take(i as int) == class_row_models(rows@));
        Relation::new(class_schema(), cells)
    }
}

} // verus!

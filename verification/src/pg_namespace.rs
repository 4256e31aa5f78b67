//! The namespace relation: three namespaces with fixed identifiers, then one
//! row for each schema that the walk numbered.

use crate::catalog::{
    catalog_models, catalogs_span, is_system_namespace, lemma_catalogs_span_prefix,
    lemma_schemas_span_prefix, names_system_namespace, schema_models, schemas_span, CatalogEntry,
    CatalogModel, CatalogWalk, SchemaEntry, SchemaModel,
};
use crate::oid::{
    OidAssigner, FIRST_RELATION_OID, INFORMATION_SCHEMA_NAMESPACE_OID, PG_CATALOG_NAMESPACE_OID,
    PUBLIC_NAMESPACE_OID,
};
use crate::relation::{
    field_models, optional, required, row_conforms, row_models, rows_conform, value_models,
    ColumnType, Field, FieldModel, Relation, Value, ValueModel,
};
use vstd::prelude::*;

verus! {

/// The user that owns every namespace.
pub const NAMESPACE_OWNER: i32 = 10;

/// One namespace.
#[derive(Clone, Debug, PartialEq, Eq)]
pub struct NamespaceRow {
    pub oid: i32,
    pub name: String,
    pub owner: i32,
}

/// A namespace row, as a value of mathematics.
pub struct NamespaceRowModel {
    pub oid: int,
    pub name: Seq<char>,
    pub owner: int,
}

impl View for NamespaceRow {
    type V = NamespaceRowModel;

    open spec fn view(&self) -> NamespaceRowModel {
        NamespaceRowModel { oid: self.oid as int, name: self.name@, owner: self.owner as int }
    }
}

/// The rows as values of mathematics.
pub open spec fn namespace_row_models(rows: Seq<NamespaceRow>) -> Seq<NamespaceRowModel> {
    Seq::new(rows.len(), |i: int| rows[i]@)
}

/// The row of the namespace `name` with the identifier `oid`.
pub open spec fn namespace_row(oid: int, name: Seq<char>) -> NamespaceRowModel {
    NamespaceRowModel { oid, name, owner: NAMESPACE_OWNER as int }
}

/// The three namespaces that every fetch lists first.
pub open spec fn system_namespace_rows() -> Seq<NamespaceRowModel> {
    seq![
        namespace_row(PG_CATALOG_NAMESPACE_OID as int, "pg_catalog"@),
        namespace_row(PUBLIC_NAMESPACE_OID as int, "public"@),
        namespace_row(INFORMATION_SCHEMA_NAMESPACE_OID as int, "information_schema"@),
    ]
}

/// The rows of a run of schemas whose first identifier is `base`: each
/// schema that the walk numbers has the identifier that follows those of the
/// schemas and tables before it.
pub open spec fn schema_namespace_rows(schemas: Seq<SchemaModel>, base: int) -> Seq<
    NamespaceRowModel,
>
    decreases schemas.len(),
{
    if schemas.len() == 0 {
        Seq::empty()
    } else {
        let before = schema_namespace_rows(schemas.drop_last(), base);
        if is_system_namespace(schemas.last().name) {
            before
        } else {
            before.push(
                namespace_row(base + schemas_span(schemas.drop_last()), schemas.last().name),
            )
        }
    }
}

/// The rows of a run of catalogs whose first identifier is `base`.
pub open spec fn catalog_namespace_rows(catalogs: Seq<CatalogModel>, base: int) -> Seq<
    NamespaceRowModel,
>
    decreases catalogs.len(),
{
    if catalogs.len() == 0 {
        Seq::empty()
    } else {
        catalog_namespace_rows(catalogs.drop_last(), base) + schema_namespace_rows(
            catalogs.last().schemas,
            base + catalogs_span(catalogs.drop_last()),
        )
    }
}

/// The namespace relation of a walk.
pub open spec fn namespace_rows(walk: Seq<CatalogModel>) -> Seq<NamespaceRowModel> {
    system_namespace_rows() + catalog_namespace_rows(walk, FIRST_RELATION_OID as int)
}

/// The columns of the namespace relation.
pub open spec fn namespace_fields() -> Seq<FieldModel> {
    seq![
        required("oid"@, ColumnType::Int32),
        required("nspname"@, ColumnType::Utf8),
        required("nspowner"@, ColumnType::Int32),
        optional("nspacl"@, ColumnType::Utf8),
        optional("options"@, ColumnType::Utf8),
    ]
}

impl NamespaceRowModel {
    /// The row as the relation holds it: access privileges and options are
    /// null.
    pub open spec fn cells(self) -> Seq<ValueModel> {
        seq![
            ValueModel::Int32(self.oid as i32),
            ValueModel::Text(self.name),
            ValueModel::Int32(self.owner as i32),
            ValueModel::Null,
            ValueModel::Null,
        ]
    }
}

/// The rows as the relation holds them.
pub open spec fn namespace_cells(rows: Seq<NamespaceRowModel>) -> Seq<Seq<ValueModel>> {
    Seq::new(rows.len(), |i: int| rows[i].cells())
}

impl NamespaceRow {
    /// The row as the relation holds it.
    pub fn to_values(&self) -> (values: Vec<Value>)
        ensures
            value_models(values@) == self@.cells(),
            row_conforms(self@.cells(), namespace_fields()),
    {
        let values = vec![
            Value::Int32(self.oid),
            Value::Text(self.name.clone()),
            Value::Int32(self.owner),
            Value::Null,
            Value::Null,
        ];
        assert(value_models(values@) =~= self@.cells());
        values
    }
}

/// The columns of the namespace relation.
pub fn namespace_schema() -> (fields: Vec<Field>)
    ensures
        field_models(fields@) == namespace_fields(),
{
    let fields = vec![
        Field::required("oid", ColumnType::Int32),
        Field::required("nspname", ColumnType::Utf8),
        Field::required("nspowner", ColumnType::Int32),
        Field::optional("nspacl", ColumnType::Utf8),
        Field::optional("options", ColumnType::Utf8),
    ];
    assert(field_models(fields@) =~= namespace_fields());
    fields
}

fn system_row(oid: i32, name: &str) -> (row: NamespaceRow)
    ensures
        row@ == namespace_row(oid as int, name@),
{
    NamespaceRow { oid, name: String::from_str(name), owner: NAMESPACE_OWNER }
}

/// Adds the rows of one catalog's schemas and moves the counter past the
/// identifiers of the schemas and of their tables.
fn push_schema_rows(
    schemas: &Vec<SchemaEntry>,
    assigner: &mut OidAssigner,
    rows: &mut Vec<NamespaceRow>,
)
    requires
        old(assigner)@ + schemas_span(schema_models(schemas@)) <= i32::MAX,
    ensures
        final(assigner)@ == old(assigner)@ + schemas_span(schema_models(schemas@)),
        namespace_row_models(final(rows)@) == namespace_row_models(old(rows)@)
            + schema_namespace_rows(schema_models(schemas@), old(assigner)@),
{
    let ghost models = schema_models(schemas@);
    let ghost base = assigner@;
    let ghost before = namespace_row_models(rows@);
    let mut i: usize = 0;
    assert(models.take(0) == Seq::<SchemaModel>::empty());
    assert(namespace_row_models(rows@) == before + schema_namespace_rows(models.take(0), base));
    while i < schemas.len()
        invariant
            0 <= i <= schemas.len(),
            models == schema_models(schemas@),
            base + schemas_span(models) <= i32::MAX,
            assigner@ == base + schemas_span(models.take(i as int)),
            namespace_row_models(rows@) == before + schema_namespace_rows(
                models.take(i as int),
                base,
            ),
        decreases schemas.len() - i,
    {
        let schema = &schemas[i];
        proof {
            lemma_schemas_span_prefix(models, i as int);
            lemma_schemas_span_prefix(models, i as int + 1);
            assert(models.take(i as int + 1).drop_last() == models.take(i as int));
            assert(models.take(i as int + 1).last() == schema@);
        }
        if !names_system_namespace(&schema.name) {
            let ghost listed = namespace_row_models(rows@);
            let oid = assigner.next();
            let row = NamespaceRow { oid, name: schema.name.clone(), owner: NAMESPACE_OWNER };
            rows.push(row);
            assigner.reserve(schema.tables.len() as u32);
            assert(namespace_row_models(rows@) == listed.push(row@));
        }
        i = i + 1;
    }
    assert(models.take(i as int) == models);
}

/// Adds the rows of the catalogs' schemas.
fn push_catalog_rows(
    catalogs: &Vec<CatalogEntry>,
    assigner: &mut OidAssigner,
    rows: &mut Vec<NamespaceRow>,
)
    requires
        old(assigner)@ + catalogs_span(catalog_models(catalogs@)) <= i32::MAX,
    ensures
        final(assigner)@ == old(assigner)@ + catalogs_span(catalog_models(catalogs@)),
        namespace_row_models(final(rows)@) == namespace_row_models(old(rows)@)
            + catalog_namespace_rows(catalog_models(catalogs@), old(assigner)@),
{
    let ghost models = catalog_models(catalogs@);
    let ghost base = assigner@;
    let ghost before = namespace_row_models(rows@);
    let mut i: usize = 0;
    assert(models.take(0) == Seq::<CatalogModel>::empty());
    assert(namespace_row_models(rows@) == before + catalog_namespace_rows(models.take(0), base));
    while i < catalogs.len()
        invariant
            0 <= i <= catalogs.len(),
            models == catalog_models(catalogs@),
            base + catalogs_span(models) <= i32::MAX,
            assigner@ == base + catalogs_span(models.take(i as int)),
            namespace_row_models(rows@) == before + catalog_namespace_rows(
                models.take(i as int),
                base,
            ),
        decreases catalogs.len() - i,
    {
        proof {
            lemma_catalogs_span_prefix(models, i as int);
            lemma_catalogs_span_prefix(models, i as int + 1);
            assert(models.take(i as int + 1).drop_last() == models.take(i as int));
            assert(models.take(i as int + 1).last() == catalogs@[i as int]@);
        }
        push_schema_rows(&catalogs[i].schemas, assigner, rows);
        i = i + 1;
    }
    assert(models.take(i as int) == models);
}

/// The namespace relation as a producer of one relation per fetch.
pub struct PgNamespaceTable {
    schema: Vec<Field>,
}

impl PgNamespaceTable {
    #[verifier::type_invariant]
    closed spec fn well_formed(self) -> bool {
        field_models(self.schema@) == namespace_fields()
    }

    /// The columns that the producer declares.
    pub closed spec fn fields(&self) -> Seq<FieldModel> {
        field_models(self.schema@)
    }

    /// A producer that declares the columns of the relation.
    pub fn new() -> (table: PgNamespaceTable)
        ensures
            table.fields() == namespace_fields(),
    {
        PgNamespaceTable { schema: namespace_schema() }
    }

    /// The columns of the relation.
    pub fn schema(&self) -> (fields: &Vec<Field>)
        ensures
            field_models(fields@) == self.fields(),
            self.fields() == namespace_fields(),
    {
        proof {
            use_type_invariant(self);
        }
        &self.schema
    }

    /// The rows of the relation for a walk: the three fixed namespaces, then
    /// the schemas in the walk's order, each with the identifier that the
    /// walk's numbering gives it.
    pub fn rows(walk: &CatalogWalk) -> (rows: Vec<NamespaceRow>)
        ensures
            namespace_row_models(rows@) == namespace_rows(walk@),
    {
        let catalogs = walk.catalogs();
        let mut rows: Vec<NamespaceRow> = Vec::new();
        rows.push(system_row(PG_CATALOG_NAMESPACE_OID, "pg_catalog"));
        rows.push(system_row(PUBLIC_NAMESPACE_OID, "public"));
        rows.push(system_row(INFORMATION_SCHEMA_NAMESPACE_OID, "information_schema"));
        assert(namespace_row_models(rows@) == system_namespace_rows());
        let mut assigner = OidAssigner::for_relations();
        push_catalog_rows(catalogs, &mut assigner, &mut rows);
        rows
    }

    /// The relation for a walk.
    pub fn get_data(walk: &CatalogWalk) -> (relation: Relation)
        ensures
            relation@.fields == namespace_fields(),
            relation@.rows == namespace_cells(namespace_rows(walk@)),
    {
        let rows = Self::rows(walk);
        let mut cells: Vec<Vec<Value>> = Vec::new();
        let mut i: usize = 0;
        while i < rows.len()
            invariant
                0 <= i <= rows.len(),
                row_models(cells@) == namespace_cells(namespace_row_models(rows@).take(i as int)),
                rows_conform(row_models(cells@), namespace_fields()),
            decreases rows.len() - i,
        {
            let ghost done = row_models(cells@);
            let values = rows[i].to_values();
            cells.push(values);
            assert(row_models(cells@) == done.push(rows@[i as int]@.cells()));
            assert(row_models(cells@) == namespace_cells(
                namespace_row_models(rows@).take(i as int + 1),
            ));
            i = i + 1;
        }
        assert(namespace_row_models(rows@).take(i as int) == namespace_row_models(rows@));
        Relation::new(namespace_schema(), cells)
    }
}

} // verus!

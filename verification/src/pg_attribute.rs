//! The attribute relation: one row for each column of each table that the
//! walk numbered.

use crate::catalog::{
    catalog_models, catalogs_span, column_models, columns_fit, is_system_namespace,
    lemma_catalogs_span_prefix, lemma_schemas_span_prefix, names_system_namespace, schema_models,
    schemas_fit, schemas_span, table_models, tables_fit, CatalogEntry, CatalogModel, CatalogWalk,
    Column, ColumnModel, SchemaEntry, SchemaModel, TableEntry, TableModel, MAX_COLUMNS,
};
use crate::oid::{OidAssigner, FIRST_RELATION_OID};
use crate::relation::{
    field_models, optional, required, row_conforms, row_models, rows_conform, value_models,
    ColumnType, Field, FieldModel, Relation, Value, ValueModel,
};
use crate::types::{map_type, Alignment, Storage};
use vstd::prelude::*;

verus! {

/// One column of one table.
#[derive(Clone, Debug, PartialEq, Eq)]
pub struct AttributeRow {
    pub relation_oid: i32,
    pub name: String,
    pub type_oid: i32,
    pub byte_length: i16,
    /// The column's place in its table, counted from one.
    pub attribute_number: i16,
    /// One for a list, zero for anything else.
    pub dimensions: i16,
    pub pass_by_value: bool,
    pub alignment: Alignment,
    pub storage: Storage,
    pub not_null: bool,
}

/// An attribute row, as a value of mathematics.
pub struct AttributeRowModel {
    pub relation_oid: int,
    pub name: Seq<char>,
    pub type_oid: int,
    pub byte_length: int,
    pub attribute_number: int,
    pub dimensions: int,
    pub pass_by_value: bool,
    pub alignment: Alignment,
    pub storage: Storage,
    pub not_null: bool,
}

impl View for AttributeRow {
    type V = AttributeRowModel;

    open spec fn view(&self) -> AttributeRowModel {
        AttributeRowModel {
            relation_oid: self.relation_oid as int,
            name: self.name@,
            type_oid: self.type_oid as int,
            byte_length: self.byte_length as int,
            attribute_number: self.attribute_number as int,
            dimensions: self.dimensions as int,
            pass_by_value: self.pass_by_value,
            alignment: self.alignment,
            storage: self.storage,
            not_null: self.not_null,
        }
    }
}

/// The rows as values of mathematics.
pub open spec fn attribute_row_models(rows: Seq<AttributeRow>) -> Seq<AttributeRowModel> {
    Seq::new(rows.len(), |i: int| rows[i]@)
}

/// The row of the column that stands at place `number` of the table with
/// the identifier `relation_oid`: the column's type as the type mapping
/// describes it, one dimension for a list, and not null where the column is
/// declared not nullable.
pub open spec fn attribute_row(relation_oid: int, column: ColumnModel, number: int)
    -> AttributeRowModel {
    let descriptor = column.data_type.descriptor();
    AttributeRowModel {
        relation_oid,
        name: column.name,
        type_oid: descriptor.type_oid as int,
        byte_length: descriptor.byte_length as int,
        attribute_number: number,
        dimensions: if descriptor.is_array {
            1
        } else {
            0
        },
        pass_by_value: descriptor.pass_by_value,
        alignment: descriptor.alignment,
        storage: descriptor.storage,
        not_null: !column.nullable,
    }
}

/// The rows of one table: its columns in their declared order, numbered
/// from one.
pub open spec fn table_attribute_rows(table: TableModel, relation_oid: int) -> Seq<
    AttributeRowModel,
> {
    Seq::new(
        table.columns.len(),
        |c: int| attribute_row(relation_oid, table.columns[c], c + 1),
    )
}

/// The rows of the tables of one schema, which take the identifiers from
/// `first` on.
pub open spec fn tables_attribute_rows(tables: Seq<TableModel>, first: int) -> Seq<
    AttributeRowModel,
>
    decreases tables.len(),
{
    if tables.len() == 0 {
        Seq::empty()
    } else {
        tables_attribute_rows(tables.drop_last(), first) + table_attribute_rows(
            tables.last(),
            first + tables.len() - 1,
        )
    }
}

/// The rows of a run of schemas whose first identifier is `base`.
pub open spec fn schema_attribute_rows(schemas: Seq<SchemaModel>, base: int) -> Seq<
    AttributeRowModel,
>
    decreases schemas.len(),
{
    if schemas.len() == 0 {
        Seq::empty()
    } else {
        let before = schema_attribute_rows(schemas.drop_last(), base);
        if is_system_namespace(schemas.last().name) {
            before
        } else {
            before + tables_attribute_rows(
                schemas.last().tables,
                base + schemas_span(schemas.drop_last()) + 1,
            )
        }
    }
}

/// The rows of a run of catalogs whose first identifier is `base`.
pub open spec fn catalog_attribute_rows(catalogs: Seq<CatalogModel>, base: int) -> Seq<
    AttributeRowModel,
>
    decreases catalogs.len(),
{
    if catalogs.len() == 0 {
        Seq::empty()
    } else {
        catalog_attribute_rows(catalogs.drop_last(), base) + schema_attribute_rows(
            catalogs.last().schemas,
            base + catalogs_span(catalogs.drop_last()),
        )
    }
}

/// The attribute relation of a walk.
pub open spec fn attribute_rows(walk: Seq<CatalogModel>) -> Seq<AttributeRowModel> {
    catalog_attribute_rows(walk, FIRST_RELATION_OID as int)
}

/// The columns of the attribute relation.
pub open spec fn attribute_fields() -> Seq<FieldModel> {
    seq![
        required("attrelid"@, ColumnType::Int32),
        required("attname"@, ColumnType::Utf8),
        required("atttypid"@, ColumnType::Int32),
        required("attlen"@, ColumnType::Int16),
        required("attnum"@, ColumnType::Int16),
        required("attcacheoff"@, ColumnType::Int32),
        required("atttypmod"@, ColumnType::Int32),
        required("attndims"@, ColumnType::Int16),
        required("attbyval"@, ColumnType::Boolean),
        required("attalign"@, ColumnType::Utf8),
        required("attstorage"@, ColumnType::Utf8),
        required("attcompression"@, ColumnType::Utf8),
        required("attnotnull"@, ColumnType::Boolean),
        required("atthasdef"@, ColumnType::Boolean),
        required("atthasmissing"@, ColumnType::Boolean),
        required("attidentity"@, ColumnType::Utf8),
        required("attgenerated"@, ColumnType::Utf8),
        required("attisdropped"@, ColumnType::Boolean),
        required("attislocal"@, ColumnType::Boolean),
        required("attinhcount"@, ColumnType::Int16),
        required("attcollation"@, ColumnType::Int32),
        optional("attacl"@, ColumnType::Utf8),
        optional("attoptions"@, ColumnType::Utf8),
        optional("attfdwoptions"@, ColumnType::Utf8),
        optional("attmissingval"@, ColumnType::Utf8),
    ]
}

impl AttributeRowModel {
    /// The row as the relation holds it. No column has a default, a missing
    /// value, an identity or a generation rule; none is dropped or inherited;
    /// cache offset and type modifier are -1.
    pub open spec fn cells(self) -> Seq<ValueModel> {
        seq![
            ValueModel::Int32(self.relation_oid as i32),
            ValueModel::Text(self.name),
            ValueModel::Int32(self.type_oid as i32),
            ValueModel::Int16(self.byte_length as i16),
            ValueModel::Int16(self.attribute_number as i16),
            ValueModel::Int32(-1i32),
            ValueModel::Int32(-1i32),
            ValueModel::Int16(self.dimensions as i16),
            ValueModel::Boolean(self.pass_by_value),
            ValueModel::Text(self.alignment.code_spec()),
            ValueModel::Text(self.storage.code_spec()),
            ValueModel::Text(Seq::empty()),
            ValueModel::Boolean(self.not_null),
            ValueModel::Boolean(false),
            ValueModel::Boolean(false),
            ValueModel::Text(Seq::empty()),
            ValueModel::Text(Seq::empty()),
            ValueModel::Boolean(false),
            ValueModel::Boolean(true),
            ValueModel::Int16(0),
            ValueModel::Int32(0),
            ValueModel::Null,
            ValueModel::Null,
            ValueModel::Null,
            ValueModel::Null,
        ]
    }
}

/// The rows as the relation holds them.
pub open spec fn attribute_cells(rows: Seq<AttributeRowModel>) -> Seq<Seq<ValueModel>> {
    Seq::new(rows.len(), |i: int| rows[i].cells())
}

impl AttributeRow {
    /// The row as the relation holds it.
    pub fn to_values(&self) -> (values: Vec<Value>)
        ensures
            value_models(values@) == self@.cells(),
            row_conforms(self@.cells(), attribute_fields()),
    {
        let values = vec![
            Value::Int32(self.relation_oid),
            Value::Text(self.name.clone()),
            Value::Int32(self.type_oid),
            Value::Int16(self.byte_length),
            Value::Int16(self.attribute_number),
            Value::Int32(-1),
            Value::Int32(-1),
            Value::Int16(self.dimensions),
            Value::Boolean(self.pass_by_value),
            Value::Text(String::from_str(self.alignment.code())),
            Value::Text(String::from_str(self.storage.code())),
            Value::Text(String::new()),
            Value::Boolean(self.not_null),
            Value::Boolean(false),
            Value::Boolean(false),
            Value::Text(String::new()),
            Value::Text(String::new()),
            Value::Boolean(false),
            Value::Boolean(true),
            Value::Int16(0),
            Value::Int32(0),
            Value::Null,
            Value::Null,
            Value::Null,
            Value::Null,
        ];
        assert(value_models(values@) =~= self@.cells());
        values
    }
}

/// The columns of the attribute relation.
pub fn attribute_schema() -> (fields: Vec<Field>)
    ensures
        field_models(fields@) == attribute_fields(),
{
    let fields = vec![
        Field::required("attrelid", ColumnType::Int32),
        Field::required("attname", ColumnType::Utf8),
        Field::required("atttypid", ColumnType::Int32),
        Field::required("attlen", ColumnType::Int16),
        Field::required("attnum", ColumnType::Int16),
        Field::required("attcacheoff", ColumnType::Int32),
        Field::required("atttypmod", ColumnType::Int32),
        Field::required("attndims", ColumnType::Int16),
        Field::required("attbyval", ColumnType::Boolean),
        Field::required("attalign", ColumnType::Utf8),
        Field::required("attstorage", ColumnType::Utf8),
        Field::required("attcompression", ColumnType::Utf8),
        Field::required("attnotnull", ColumnType::Boolean),
        Field::required("atthasdef", ColumnType::Boolean),
        Field::required("atthasmissing", ColumnType::Boolean),
        Field::required("attidentity", ColumnType::Utf8),
        Field::required("attgenerated", ColumnType::Utf8),
        Field::required("attisdropped", ColumnType::Boolean),
        Field::required("attislocal", ColumnType::Boolean),
        Field::required("attinhcount", ColumnType::Int16),
        Field::required("attcollation", ColumnType::Int32),
        Field::optional("attacl", ColumnType::Utf8),
        Field::optional("attoptions", ColumnType::Utf8),
        Field::optional("attfdwoptions", ColumnType::Utf8),
        Field::optional("attmissingval", ColumnType::Utf8),
    ];
    assert(field_models(fields@) =~= attribute_fields());
    fields
}

/// Adds the rows of one table's columns.
fn push_column_rows(columns: &Vec<Column>, relation_oid: i32, rows: &mut Vec<AttributeRow>)
    requires
        columns.len() <= MAX_COLUMNS,
    ensures
        attribute_row_models(final(rows)@) == attribute_row_models(old(rows)@)
            + table_attribute_rows(
            TableModel { name: Seq::empty(), columns: column_models(columns@) },
            relation_oid as int,
        ),
{
    let ghost table = TableModel { name: Seq::empty(), columns: column_models(columns@) };
    let ghost before = attribute_row_models(rows@);
    let mut c: usize = 0;
    assert(attribute_row_models(rows@) == before + table_attribute_rows(
        table,
        relation_oid as int,
    ).take(0));
    while c < columns.len()
        invariant
            0 <= c <= columns.len(),
            columns.len() <= MAX_COLUMNS,
            table == (TableModel { name: Seq::empty(), columns: column_models(columns@) }),
            attribute_row_models(rows@) == before + table_attribute_rows(
                table,
                relation_oid as int,
            ).take(c as int),
        decreases columns.len() - c,
    {
        let column = &columns[c];
        let ghost listed = attribute_row_models(rows@);
        let descriptor = map_type(column.data_type);
        let row = AttributeRow {
            relation_oid,
            name: column.name.clone(),
            type_oid: descriptor.type_oid,
            byte_length: descriptor.byte_length,
            attribute_number: (c + 1) as i16,
            dimensions: if descriptor.is_array {
                1
            } else {
                0
            },
            pass_by_value: descriptor.pass_by_value,
            alignment: descriptor.alignment,
            storage: descriptor.storage,
            not_null: !column.nullable,
        };
        rows.push(row);
        assert(row@ == attribute_row(relation_oid as int, table.columns[c as int], c + 1));
        assert(attribute_row_models(rows@) == listed.push(row@));
        assert(table_attribute_rows(table, relation_oid as int).take(c as int + 1)
            == table_attribute_rows(table, relation_oid as int).take(c as int).push(row@));
        c = c + 1;
    }
    assert(table_attribute_rows(table, relation_oid as int).take(c as int)
        == table_attribute_rows(table, relation_oid as int));
}

/// Adds the rows of one schema's tables and moves the counter past the
/// tables' identifiers.
fn push_table_rows(
    tables: &Vec<TableEntry>,
    assigner: &mut OidAssigner,
    rows: &mut Vec<AttributeRow>,
)
    requires
        old(assigner)@ + tables.len() <= i32::MAX,
        tables_fit(table_models(tables@)),
    ensures
        final(assigner)@ == old(assigner)@ + tables.len(),
        attribute_row_models(final(rows)@) == attribute_row_models(old(rows)@)
            + tables_attribute_rows(table_models(tables@), old(assigner)@),
{
    let ghost models = table_models(tables@);
    let ghost first = assigner@;
    let ghost before = attribute_row_models(rows@);
    let mut t: usize = 0;
    assert(models.take(0) == Seq::<TableModel>::empty());
    assert(attribute_row_models(rows@) == before + tables_attribute_rows(models.take(0), first));
    while t < tables.len()
        invariant
            0 <= t <= tables.len(),
            models == table_models(tables@),
            tables_fit(models),
            first + tables.len() <= i32::MAX,
            assigner@ == first + t,
            attribute_row_models(rows@) == before + tables_attribute_rows(
                models.take(t as int),
                first,
            ),
        decreases tables.len() - t,
    {
        let table = &tables[t];
        proof {
            assert(models.take(t as int + 1).drop_last() == models.take(t as int));
            assert(models.take(t as int + 1).last() == table@);
            assert(models[t as int].columns.len() <= MAX_COLUMNS);
        }
        let relation_oid = assigner.next();
        push_column_rows(&table.columns, relation_oid, rows);
        assert(table_attribute_rows(
            TableModel { name: Seq::empty(), columns: column_models(table.columns@) },
            relation_oid as int,
        ) == table_attribute_rows(table@, relation_oid as int));
        t = t + 1;
    }
    assert(models.take(t as int) == models);
}

/// Adds the rows of one catalog's schemas.
fn push_schema_rows(
    schemas: &Vec<SchemaEntry>,
    assigner: &mut OidAssigner,
    rows: &mut Vec<AttributeRow>,
)
    requires
        old(assigner)@ + schemas_span(schema_models(schemas@)) <= i32::MAX,
        schemas_fit(schema_models(schemas@)),
    ensures
        final(assigner)@ == old(assigner)@ + schemas_span(schema_models(schemas@)),
        attribute_row_models(final(rows)@) == attribute_row_models(old(rows)@)
            + schema_attribute_rows(schema_models(schemas@), old(assigner)@),
{
    let ghost models = schema_models(schemas@);
    let ghost base = assigner@;
    let ghost before = attribute_row_models(rows@);
    let mut i: usize = 0;
    assert(models.take(0) == Seq::<SchemaModel>::empty());
    assert(attribute_row_models(rows@) == before + schema_attribute_rows(models.take(0), base));
    while i < schemas.len()
        invariant
            0 <= i <= schemas.len(),
            models == schema_models(schemas@),
            schemas_fit(models),
            base + schemas_span(models) <= i32::MAX,
            assigner@ == base + schemas_span(models.take(i as int)),
            attribute_row_models(rows@) == before + schema_attribute_rows(
                models.take(i as int),
                base,
            ),
        decreases schemas.len() - i,
    {
        let schema = &schemas[i];
        proof {
            lemma_schemas_span_prefix(models, i as int);
            lemma_schemas_span_prefix(models, i as int + 1);
            assert(models.take(i as int + 1).drop_last() == models.take(i as int));
            assert(models.take(i as int + 1).last() == schema@);
            assert(tables_fit(models[i as int].tables));
        }
        if !names_system_namespace(&schema.name) {
            let _ = assigner.next();
            push_table_rows(&schema.tables, assigner, rows);
        }
        i = i + 1;
    }
    assert(models.take(i as int) == models);
}

/// Adds the rows of the catalogs' columns.
fn push_catalog_rows(
    catalogs: &Vec<CatalogEntry>,
    assigner: &mut OidAssigner,
    rows: &mut Vec<AttributeRow>,
)
    requires
        old(assigner)@ + catalogs_span(catalog_models(catalogs@)) <= i32::MAX,
        columns_fit(catalog_models(catalogs@)),
    ensures
        final(assigner)@ == old(assigner)@ + catalogs_span(catalog_models(catalogs@)),
        attribute_row_models(final(rows)@) == attribute_row_models(old(rows)@)
            + catalog_attribute_rows(catalog_models(catalogs@), old(assigner)@),
{
    let ghost models = catalog_models(catalogs@);
    let ghost base = assigner@;
    let ghost before = attribute_row_models(rows@);
    let mut i: usize = 0;
    assert(models.take(0) == Seq::<CatalogModel>::empty());
    assert(attribute_row_models(rows@) == before + catalog_attribute_rows(models.take(0), base));
    while i < catalogs.len()
        invariant
            0 <= i <= catalogs.len(),
            models == catalog_models(catalogs@),
            columns_fit(models),
            base + catalogs_span(models) <= i32::MAX,
            assigner@ == base + catalogs_span(models.take(i as int)),
            attribute_row_models(rows@) == before + catalog_attribute_rows(
                models.take(i as int),
                base,
            ),
        decreases catalogs.len() - i,
    {
        proof {
            lemma_catalogs_span_prefix(models, i as int);
            lemma_catalogs_span_prefix(models, i as int + 1);
            assert(models.take(i as int + 1).drop_last() == models.take(i as int));
            assert(models.take(i as int + 1).last() == catalogs@[i as int]@);
            assert(schemas_fit(models[i as int].schemas));
        }
        push_schema_rows(&catalogs[i].schemas, assigner, rows);
        i = i + 1;
    }
    assert(models.take(i as int) == models);
}

/// The attribute relation as a producer of one relation per fetch.
pub struct PgAttributeTable {
    schema: Vec<Field>,
}

impl PgAttributeTable {
    #[verifier::type_invariant]
    closed spec fn well_formed(self) -> bool {
        field_models(self.schema@) == attribute_fields()
    }

    /// The columns that the producer declares.
    pub closed spec fn fields(&self) -> Seq<FieldModel> {
        field_models(self.schema@)
    }

    /// A producer that declares the columns of the relation.
    pub fn new() -> (table: PgAttributeTable)
        ensures
            table.fields() == attribute_fields(),
    {
        PgAttributeTable { schema: attribute_schema() }
    }

    /// The columns of the relation.
    pub fn schema(&self) -> (fields: &Vec<Field>)
        ensures
            field_models(fields@) == self.fields(),
            self.fields() == attribute_fields(),
    {
        proof {
            use_type_invariant(self);
        }
        &self.schema
    }

    /// The rows of the relation for a walk: table after table in the walk's
    /// order, each table's columns in their declared order.
    pub fn rows(walk: &CatalogWalk) -> (rows: Vec<AttributeRow>)
        ensures
            attribute_row_models(rows@) == attribute_rows(walk@),
    {
        let catalogs = walk.catalogs();
        let mut rows: Vec<AttributeRow> = Vec::new();
        assert(attribute_row_models(rows@) == Seq::<AttributeRowModel>::empty());
        let mut assigner = OidAssigner::for_relations();
        push_catalog_rows(catalogs, &mut assigner, &mut rows);
        rows
    }

    /// The relation for a walk.
    pub fn get_data(walk: &CatalogWalk) -> (relation: Relation)
        ensures
            relation@.fields == attribute_fields(),
            relation@.rows == attribute_cells(attribute_rows(walk@)),
    {
        let rows = Self::rows(walk);
        let mut cells: Vec<Vec<Value>> = Vec::new();
        let mut i: usize = 0;
        while i < rows.len()
            invariant
                0 <= i <= rows.len(),
                row_models(cells@) == attribute_cells(attribute_row_models(rows@).take(i as int)),
                rows_conform(row_models(cells@), attribute_fields()),
            decreases rows.len() - i,
        {
            let ghost done = row_models(cells@);
            let values = rows[i].to_values();
            cells.push(values);
            assert(row_models(cells@) == done.push(rows@[i as int]@.cells()));
            assert(row_models(cells@) == attribute_cells(
                attribute_row_models(rows@).take(i as int + 1),
            ));
            i = i + 1;
        }
        assert(attribute_row_models(rows@).take(i as int) == attribute_row_models(rows@));
        Relation::new(attribute_schema(), cells)
    }
}

} // verus!

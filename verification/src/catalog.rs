//! The result of one walk over the catalog: catalogs, their schemas, the
//! schemas' tables and the tables' columns, each level in the order in which
//! the catalog enumerated it.

use crate::oid::FIRST_RELATION_OID;
use crate::types::NativeType;
use vstd::prelude::*;

verus! {

/// A column as its table declares it.
#[derive(Clone, Debug, PartialEq, Eq)]
pub struct Column {
    pub name: String,
    pub data_type: NativeType,
    pub nullable: bool,
}

/// A table: its name and its columns in their declared order.
#[derive(Clone, Debug, PartialEq, Eq)]
pub struct TableEntry {
    pub name: String,
    pub columns: Vec<Column>,
}

/// A schema: its name and its tables in the order of the listing.
#[derive(Clone, Debug, PartialEq, Eq)]
pub struct SchemaEntry {
    pub name: String,
    pub tables: Vec<TableEntry>,
}

/// A catalog: its name and its schemas in the order of the listing.
#[derive(Clone, Debug, PartialEq, Eq)]
pub struct CatalogEntry {
    pub name: String,
    pub schemas: Vec<SchemaEntry>,
}

/// A column, with its name as a sequence of characters.
pub struct ColumnModel {
    pub name: Seq<char>,
    pub data_type: NativeType,
    pub nullable: bool,
}

/// A table, as a value of mathematics.
pub struct TableModel {
    pub name: Seq<char>,
    pub columns: Seq<ColumnModel>,
}

/// A schema, as a value of mathematics.
pub struct SchemaModel {
    pub name: Seq<char>,
    pub tables: Seq<TableModel>,
}

/// A catalog, as a value of mathematics.
pub struct CatalogModel {
    pub name: Seq<char>,
    pub schemas: Seq<SchemaModel>,
}

impl View for Column {
    type V = ColumnModel;

    open spec fn view(&self) -> ColumnModel {
        ColumnModel { name: self.name@, data_type: self.data_type, nullable: self.nullable }
    }
}

impl View for TableEntry {
    type V = TableModel;

    open spec fn view(&self) -> TableModel {
        TableModel { name: self.name@, columns: column_models(self.columns@) }
    }
}

impl View for SchemaEntry {
    type V = SchemaModel;

    open spec fn view(&self) -> SchemaModel {
        SchemaModel { name: self.name@, tables: table_models(self.tables@) }
    }
}

impl View for CatalogEntry {
    type V = CatalogModel;

    open spec fn view(&self) -> CatalogModel {
        CatalogModel { name: self.name@, schemas: schema_models(self.schemas@) }
    }
}

/// The texts as sequences of characters.
pub open spec fn text_models(texts: Seq<String>) -> Seq<Seq<char>> {
    Seq::new(texts.len(), |i: int| texts[i]@)
}

/// The columns as values of mathematics.
pub open spec fn column_models(columns: Seq<Column>) -> Seq<ColumnModel> {
    Seq::new(columns.len(), |i: int| columns[i]@)
}

/// The tables as values of mathematics.
pub open spec fn table_models(tables: Seq<TableEntry>) -> Seq<TableModel> {
    Seq::new(tables.len(), |i: int| tables[i]@)
}

/// The schemas as values of mathematics.
pub open spec fn schema_models(schemas: Seq<SchemaEntry>) -> Seq<SchemaModel> {
    Seq::new(schemas.len(), |i: int| schemas[i]@)
}

/// The catalogs as values of mathematics.
pub open spec fn catalog_models(catalogs: Seq<CatalogEntry>) -> Seq<CatalogModel> {
    Seq::new(catalogs.len(), |i: int| catalogs[i]@)
}

/// The most columns a table can have: a column's number is sixteen bits wide.
pub const MAX_COLUMNS: usize = 32767;

/// The most schemas and tables one walk can number: identifiers are
/// thirty-two bits wide and start at `FIRST_RELATION_OID`.
pub const MAX_OBJECTS: u32 = 2147473647;

/// Whether a schema name is that of a namespace with a fixed identifier.
/// A walk passes such schemas over: they are neither numbered nor listed
/// again, and their tables are not visited.
pub open spec fn is_system_namespace(name: Seq<char>) -> bool {
    name == "pg_catalog"@ || name == "public"@ || name == "information_schema"@
}

/// How many identifiers a schema takes: one for itself, then one for each
/// of its tables; none at all where the walk passes it over.
pub open spec fn schema_span(schema: SchemaModel) -> nat {
    if is_system_namespace(schema.name) {
        0
    } else {
        1 + schema.tables.len()
    }
}

/// How many identifiers a run of schemas takes.
pub open spec fn schemas_span(schemas: Seq<SchemaModel>) -> nat
    decreases schemas.len(),
{
    if schemas.len() == 0 {
        0
    } else {
        schemas_span(schemas.drop_last()) + schema_span(schemas.last())
    }
}

/// How many identifiers a run of catalogs takes.
pub open spec fn catalogs_span(catalogs: Seq<CatalogModel>) -> nat
    decreases catalogs.len(),
{
    if catalogs.len() == 0 {
        0
    } else {
        catalogs_span(catalogs.drop_last()) + schemas_span(catalogs.last().schemas)
    }
}

/// Every table has a number for each of its columns.
pub open spec fn tables_fit(tables: Seq<TableModel>) -> bool {
    forall|t: int| 0 <= t < tables.len() ==> (#[trigger] tables[t]).columns.len() <= MAX_COLUMNS
}

/// Every table of the schemas has a number for each of its columns.
pub open spec fn schemas_fit(schemas: Seq<SchemaModel>) -> bool {
    forall|s: int| 0 <= s < schemas.len() ==> tables_fit((#[trigger] schemas[s]).tables)
}

/// Every table of the catalogs has a number for each of its columns.
pub open spec fn columns_fit(catalogs: Seq<CatalogModel>) -> bool {
    forall|c: int| 0 <= c < catalogs.len() ==> schemas_fit((#[trigger] catalogs[c]).schemas)
}

/// What a walk must satisfy for every identifier and every column number
/// to fit its field.
pub open spec fn walk_fits(catalogs: Seq<CatalogModel>) -> bool {
    catalogs_span(catalogs) <= MAX_OBJECTS && columns_fit(catalogs)
}

/// The identifier of schema `s` of catalog `c`: the first identifier, plus
/// what the catalogs before `c` and the schemas before `s` have taken.
pub open spec fn schema_oid(catalogs: Seq<CatalogModel>, c: int, s: int) -> int {
    FIRST_RELATION_OID + catalogs_span(catalogs.take(c)) + schemas_span(
        catalogs[c].schemas.take(s),
    )
}

/// The identifier of table `t` of that schema: the tables follow their
/// schema at once.
pub open spec fn table_oid(catalogs: Seq<CatalogModel>, c: int, s: int, t: int) -> int {
    schema_oid(catalogs, c, s) + 1 + t
}

/// Whether `(c, s)` is the place of a schema that a walk numbers.
pub open spec fn is_schema_place(catalogs: Seq<CatalogModel>, c: int, s: int) -> bool {
    &&& 0 <= c < catalogs.len()
    &&& 0 <= s < catalogs[c].schemas.len()
    &&& !is_system_namespace(catalogs[c].schemas[s].name)
}

/// Whether `(c, s, t)` is the place of a table that a walk numbers.
pub open spec fn is_table_place(catalogs: Seq<CatalogModel>, c: int, s: int, t: int) -> bool {
    &&& is_schema_place(catalogs, c, s)
    &&& 0 <= t < catalogs[c].schemas[s].tables.len()
}

/// A prefix of a run of schemas takes no more identifiers than the run.
pub proof fn lemma_schemas_span_prefix(schemas: Seq<SchemaModel>, n: int)
    requires
        0 <= n <= schemas.len(),
    ensures
        schemas_span(schemas.take(n)) <= schemas_span(schemas),
        n < schemas.len() ==> schemas_span(schemas.take(n)) + schema_span(schemas[n])
            == schemas_span(schemas.take(n + 1)),
    decreases schemas.len() - n,
{
    if n == schemas.len() {
        assert(schemas.take(n) == schemas);
    } else {
        assert(schemas.take(n + 1).drop_last() == schemas.take(n));
        lemma_schemas_span_prefix(schemas, n + 1);
    }
}

/// A prefix of a run of catalogs takes no more identifiers than the run.
pub proof fn lemma_catalogs_span_prefix(catalogs: Seq<CatalogModel>, n: int)
    requires
        0 <= n <= catalogs.len(),
    ensures
        catalogs_span(catalogs.take(n)) <= catalogs_span(catalogs),
        n < catalogs.len() ==> catalogs_span(catalogs.take(n)) + schemas_span(
            catalogs[n].schemas,
        ) == catalogs_span(catalogs.take(n + 1)),
    decreases catalogs.len() - n,
{
    if n == catalogs.len() {
        assert(catalogs.take(n) == catalogs);
    } else {
        assert(catalogs.take(n + 1).drop_last() == catalogs.take(n));
        lemma_catalogs_span_prefix(catalogs, n + 1);
    }
}

/// Whether a schema name is that of a namespace with a fixed identifier.
pub fn names_system_namespace(name: &String) -> (system: bool)
    ensures
        system == is_system_namespace(name@),
{
    let pg_catalog = String::from_str("pg_catalog");
    let public = String::from_str("public");
    let information_schema = String::from_str("information_schema");
    *name == pg_catalog || *name == public || *name == information_schema
}

/// The result of one walk, small enough for every identifier and every
/// column number to fit its field.
pub struct CatalogWalk {
    catalogs: Vec<CatalogEntry>,
}

impl View for CatalogWalk {
    type V = Seq<CatalogModel>;

    closed spec fn view(&self) -> Seq<CatalogModel> {
        catalog_models(self.catalogs@)
    }
}

/// How many identifiers the schema takes, unless that is more than `limit`.
fn count_schema(schema: &SchemaEntry, limit: u32) -> (count: Option<u32>)
    ensures
        count matches Some(n) ==> n == schema_span(schema@) && n <= limit,
        count is None ==> schema_span(schema@) > limit,
{
    if names_system_namespace(&schema.name) {
        Some(0)
    } else if schema.tables.len() < limit as usize {
        Some(1 + schema.tables.len() as u32)
    } else {
        None
    }
}

/// How many identifiers the schemas take, unless that is more than `limit`.
fn count_schemas(schemas: &Vec<SchemaEntry>, limit: u32) -> (count: Option<u32>)
    ensures
        count matches Some(n) ==> n == schemas_span(schema_models(schemas@)) && n <= limit,
        count is None ==> schemas_span(schema_models(schemas@)) > limit,
{
    let ghost models = schema_models(schemas@);
    let mut total: u32 = 0;
    let mut i: usize = 0;
    assert(models.take(0) == Seq::<SchemaModel>::empty());
    while i < schemas.len()
        invariant
            0 <= i <= schemas.len(),
            models == schema_models(schemas@),
            total == schemas_span(models.take(i as int)),
            total <= limit,
        decreases schemas.len() - i,
    {
        proof {
            lemma_schemas_span_prefix(models, i as int);
            lemma_schemas_span_prefix(models, i as int + 1);
        }
        match count_schema(&schemas[i], limit - total) {
            Some(n) => {
                total = total + n;
            },
            None => {
                return None;
            },
        }
        i = i + 1;
    }
    assert(models.take(i as int) == models);
    Some(total)
}

/// How many identifiers the catalogs take, unless that is more than `limit`.
fn count_catalogs(catalogs: &Vec<CatalogEntry>, limit: u32) -> (count: Option<u32>)
    ensures
        count matches Some(n) ==> n == catalogs_span(catalog_models(catalogs@)) && n <= limit,
        count is None ==> catalogs_span(catalog_models(catalogs@)) > limit,
{
    let ghost models = catalog_models(catalogs@);
    let mut total: u32 = 0;
    let mut i: usize = 0;
    assert(models.take(0) == Seq::<CatalogModel>::empty());
    while i < catalogs.len()
        invariant
            0 <= i <= catalogs.len(),
            models == catalog_models(catalogs@),
            total == catalogs_span(models.take(i as int)),
            total <= limit,
        decreases catalogs.len() - i,
    {
        proof {
            lemma_catalogs_span_prefix(models, i as int);
            lemma_catalogs_span_prefix(models, i as int + 1);
        }
        match count_schemas(&catalogs[i].schemas, limit - total) {
            Some(n) => {
                total = total + n;
            },
            None => {
                return None;
            },
        }
        i = i + 1;
    }
    assert(models.take(i as int) == models);
    Some(total)
}

fn check_tables(tables: &Vec<TableEntry>) -> (fit: bool)
    ensures
        fit == tables_fit(table_models(tables@)),
{
    let mut t: usize = 0;
    while t < tables.len()
        invariant
            0 <= t <= tables.len(),
            tables_fit(table_models(tables@).take(t as int)),
        decreases tables.len() - t,
    {
        if tables[t].columns.len() > MAX_COLUMNS {
            assert(table_models(tables@)[t as int].columns.len() > MAX_COLUMNS);
            return false;
        }
        assert forall|k: int| 0 <= k < t + 1 implies (#[trigger] table_models(tables@).take(
            t as int + 1,
        )[k]).columns.len() <= MAX_COLUMNS by {
            if k < t {
                assert(table_models(tables@).take(t as int)[k].columns.len() <= MAX_COLUMNS);
            }
        }
        t = t + 1;
    }
    assert(table_models(tables@).take(t as int) == table_models(tables@));
    true
}

fn check_schemas(schemas: &Vec<SchemaEntry>) -> (fit: bool)
    ensures
        fit == schemas_fit(schema_models(schemas@)),
{
    let mut s: usize = 0;
    while s < schemas.len()
        invariant
            0 <= s <= schemas.len(),
            schemas_fit(schema_models(schemas@).take(s as int)),
        decreases schemas.len() - s,
    {
        if !check_tables(&schemas[s].tables) {
            assert(!tables_fit(schema_models(schemas@)[s as int].tables));
            return false;
        }
        assert forall|k: int| 0 <= k < s + 1 implies tables_fit(
            (#[trigger] schema_models(schemas@).take(s as int + 1)[k]).tables,
        ) by {
            if k < s {
                assert(tables_fit(schema_models(schemas@).take(s as int)[k].tables));
            }
        }
        s = s + 1;
    }
    assert(schema_models(schemas@).take(s as int) == schema_models(schemas@));
    true
}

/// Whether every table of the catalogs has at most `MAX_COLUMNS` columns.
fn check_columns(catalogs: &Vec<CatalogEntry>) -> (fit: bool)
    ensures
        fit == columns_fit(catalog_models(catalogs@)),
{
    let mut c: usize = 0;
    while c < catalogs.len()
        invariant
            0 <= c <= catalogs.len(),
            columns_fit(catalog_models(catalogs@).take(c as int)),
        decreases catalogs.len() - c,
    {
        if !check_schemas(&catalogs[c].schemas) {
            assert(!schemas_fit(catalog_models(catalogs@)[c as int].schemas));
            return false;
        }
        assert forall|k: int| 0 <= k < c + 1 implies schemas_fit(
            (#[trigger] catalog_models(catalogs@).take(c as int + 1)[k]).schemas,
        ) by {
            if k < c {
                assert(schemas_fit(catalog_models(catalogs@).take(c as int)[k].schemas));
            }
        }
        c = c + 1;
    }
    assert(catalog_models(catalogs@).take(c as int) == catalog_models(catalogs@));
    true
}

impl CatalogWalk {
    #[verifier::type_invariant]
    closed spec fn fits(self) -> bool {
        walk_fits(catalog_models(self.catalogs@))
    }

    /// Takes what a walk found. `None` where it would need more identifiers
    /// than there are, or holds a table with more columns than can be numbered.
    pub fn new(catalogs: Vec<CatalogEntry>) -> (walk: Option<CatalogWalk>)
        ensures
            walk is Some <==> walk_fits(catalog_models(catalogs@)),
            walk matches Some(w) ==> w@ == catalog_models(catalogs@),
    {
        if !check_columns(&catalogs) {
            return None;
        }
        match count_catalogs(&catalogs, MAX_OBJECTS) {
            Some(_) => Some(CatalogWalk { catalogs }),
            None => None,
        }
    }

    /// The catalogs of the walk, in the walk's order.
    pub fn catalogs(&self) -> (catalogs: &Vec<CatalogEntry>)
        ensures
            catalog_models(catalogs@) == self@,
            walk_fits(self@),
    {
        proof {
            use_type_invariant(self);
        }
        &self.catalogs
    }
}

} // verus!

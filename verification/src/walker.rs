//! The walk over the catalog, one lookup at a time.
//!
//! The walker asks; its driver looks the answer up in the catalog, which
//! may take its time, and hands it back. The lookups come in the catalog's
//! own order: the catalogs, then for each catalog its schemas, for each
//! schema its tables, and for each table its columns, before the next
//! table, schema or catalog is touched.

use crate::catalog::{
    catalog_models, column_models, is_system_namespace, names_system_namespace, schema_models,
    table_models, text_models, CatalogEntry, CatalogModel, Column, ColumnModel, SchemaEntry,
    SchemaModel, TableEntry, TableModel,
};
use crate::error::{LookupFailure, LookupFailureModel, PgCatalogError, PgCatalogErrorModel};
use vstd::prelude::*;

verus! {

/// What the walker waits for.
#[derive(Clone, Copy, Debug, PartialEq, Eq, Structural)]
pub enum Phase {
    /// The names of the catalogs.
    CatalogNames,
    /// The names of the schemas of the current catalog.
    SchemaNames,
    /// The names of the tables of the current schema.
    TableNames,
    /// The columns of the current table.
    Columns,
    /// Nothing: the walk is complete.
    Finished,
    /// Nothing: a lookup failed, and the walk with it.
    Failed,
}

/// A question to the catalog.
#[derive(Clone, Debug, PartialEq, Eq)]
pub enum Lookup {
    CatalogNames,
    SchemaNames { catalog: String },
    TableNames { catalog: String, schema: String },
    Columns { catalog: String, schema: String, table: String },
}

/// A question, with its names as sequences of characters.
pub enum LookupModel {
    CatalogNames,
    SchemaNames { catalog: Seq<char> },
    TableNames { catalog: Seq<char>, schema: Seq<char> },
    Columns { catalog: Seq<char>, schema: Seq<char>, table: Seq<char> },
}

impl View for Lookup {
    type V = LookupModel;

    open spec fn view(&self) -> LookupModel {
        match *self {
            Lookup::CatalogNames => LookupModel::CatalogNames,
            Lookup::SchemaNames { catalog } => LookupModel::SchemaNames { catalog: catalog@ },
            Lookup::TableNames { catalog, schema } => LookupModel::TableNames {
                catalog: catalog@,
                schema: schema@,
            },
            Lookup::Columns { catalog, schema, table } => LookupModel::Columns {
                catalog: catalog@,
                schema: schema@,
                table: table@,
            },
        }
    }
}

/// The catalog's answer to a question.
#[derive(Clone, Debug, PartialEq, Eq)]
pub enum Reply {
    /// The names that a listing found, in the catalog's order.
    Names(Vec<String>),
    /// The columns of a table, in their declared order.
    Columns(Vec<Column>),
    /// What the question named is not there.
    Missing,
    /// The catalog failed, in these words.
    Failed(String),
}

/// An answer, as a value of mathematics.
pub enum ReplyModel {
    Names(Seq<Seq<char>>),
    Columns(Seq<ColumnModel>),
    Missing,
    Failed(Seq<char>),
}

impl View for Reply {
    type V = ReplyModel;

    open spec fn view(&self) -> ReplyModel {
        match *self {
            Reply::Names(names) => ReplyModel::Names(text_models(names@)),
            Reply::Columns(columns) => ReplyModel::Columns(column_models(columns@)),
            Reply::Missing => ReplyModel::Missing,
            Reply::Failed(words) => ReplyModel::Failed(words@),
        }
    }
}

/// The first place from `from` on of a name that is not the name of a
/// namespace with a fixed identifier; the end of the names if there is none.
pub open spec fn next_visible(names: Seq<Seq<char>>, from: int) -> int
    decreases names.len() - from,
{
    if from >= names.len() || !is_system_namespace(names[from]) {
        from
    } else {
        next_visible(names, from + 1)
    }
}

/// The state of a walk.
pub struct WalkerModel {
    pub phase: Phase,
    /// The names of all catalogs, once they are known.
    pub catalog_names: Seq<Seq<char>>,
    /// The catalogs that have been walked to their end.
    pub catalogs: Seq<CatalogModel>,
    /// The names of all schemas of the current catalog.
    pub schema_names: Seq<Seq<char>>,
    /// The place of the current schema among those names.
    pub schema_index: int,
    /// The schemas of the current catalog that have been walked.
    pub schemas: Seq<SchemaModel>,
    /// The names of all tables of the current schema.
    pub table_names: Seq<Seq<char>>,
    /// The tables of the current schema that have been walked.
    pub tables: Seq<TableModel>,
    pub failure: Option<PgCatalogErrorModel>,
}

/// Why a reply fails the lookup that it answers.
pub open spec fn failure_of(reply: ReplyModel) -> LookupFailureModel {
    match reply {
        ReplyModel::Missing => LookupFailureModel::Vanished,
        ReplyModel::Failed(words) => LookupFailureModel::Failed(words),
        _ => LookupFailureModel::Unexpected,
    }
}

impl WalkerModel {
    /// The state before the first lookup.
    pub open spec fn start() -> WalkerModel {
        WalkerModel {
            phase: Phase::CatalogNames,
            catalog_names: Seq::empty(),
            catalogs: Seq::empty(),
            schema_names: Seq::empty(),
            schema_index: 0,
            schemas: Seq::empty(),
            table_names: Seq::empty(),
            tables: Seq::empty(),
            failure: None,
        }
    }

    /// What the indices of a state point at.
    pub open spec fn well_formed(self) -> bool {
        &&& (self.phase == Phase::SchemaNames || self.phase == Phase::TableNames || self.phase
            == Phase::Columns) ==> self.catalogs.len() < self.catalog_names.len()
        &&& (self.phase == Phase::TableNames || self.phase == Phase::Columns) ==> 0
            <= self.schema_index < self.schema_names.len()
        &&& self.phase == Phase::Columns ==> self.tables.len() < self.table_names.len()
        &&& self.phase == Phase::Failed <==> self.failure is Some
    }

    /// The name of the current catalog.
    pub open spec fn catalog_name(self) -> Seq<char> {
        self.catalog_names[self.catalogs.len() as int]
    }

    /// The name of the current schema.
    pub open spec fn schema_name(self) -> Seq<char> {
        self.schema_names[self.schema_index]
    }

    /// The name of the current table.
    pub open spec fn table_name(self) -> Seq<char> {
        self.table_names[self.tables.len() as int]
    }

    /// The question that the walker waits to have answered, if any.
    pub open spec fn lookup(self) -> Option<LookupModel> {
        match self.phase {
            Phase::CatalogNames => Some(LookupModel::CatalogNames),
            Phase::SchemaNames => Some(LookupModel::SchemaNames { catalog: self.catalog_name() }),
            Phase::TableNames => Some(
                LookupModel::TableNames {
                    catalog: self.catalog_name(),
                    schema: self.schema_name(),
                },
            ),
            Phase::Columns => Some(
                LookupModel::Columns {
                    catalog: self.catalog_name(),
                    schema: self.schema_name(),
                    table: self.table_name(),
                },
            ),
            Phase::Finished | Phase::Failed => None,
        }
    }

    /// Goes on with the next catalog: its schemas are asked for; after the
    /// last catalog the walk is complete.
    pub open spec fn enter_catalogs(self) -> WalkerModel {
        if self.catalogs.len() < self.catalog_names.len() {
            WalkerModel { phase: Phase::SchemaNames, ..self }
        } else {
            WalkerModel { phase: Phase::Finished, ..self }
        }
    }

    /// Goes on with the next schema that has no fixed identifier: its
    /// tables are asked for. After the last such schema the catalog is
    /// walked, and the walk goes on with the next catalog.
    pub open spec fn enter_schemas(self) -> WalkerModel {
        let next = next_visible(self.schema_names, self.schema_index);
        if next < self.schema_names.len() {
            WalkerModel { phase: Phase::TableNames, schema_index: next, ..self }
        } else {
            WalkerModel {
                catalogs: self.catalogs.push(
                    CatalogModel { name: self.catalog_name(), schemas: self.schemas },
                ),
                schema_index: next,
                schemas: Seq::empty(),
                ..self
            }.enter_catalogs()
        }
    }

    /// Goes on with the next table: its columns are asked for. After the
    /// last table the schema is walked, and the walk goes on with the next
    /// schema.
    pub open spec fn enter_tables(self) -> WalkerModel {
        if self.tables.len() < self.table_names.len() {
            WalkerModel { phase: Phase::Columns, ..self }
        } else {
            WalkerModel {
                schemas: self.schemas.push(
                    SchemaModel { name: self.schema_name(), tables: self.tables },
                ),
                schema_index: self.schema_index + 1,
                tables: Seq::empty(),
                ..self
            }.enter_schemas()
        }
    }

    /// The error of a lookup that `reply` fails: it names what the lookup
    /// named.
    pub open spec fn failed_lookup(self, reply: ReplyModel) -> PgCatalogErrorModel {
        PgCatalogErrorModel::CatalogLookup {
            catalog: if self.phase == Phase::CatalogNames {
                None
            } else {
                Some(self.catalog_name())
            },
            schema: if self.phase == Phase::TableNames || self.phase == Phase::Columns {
                Some(self.schema_name())
            } else {
                None
            },
            table: if self.phase == Phase::Columns {
                Some(self.table_name())
            } else {
                None
            },
            failure: failure_of(reply),
        }
    }

    /// Whether the reply is of the kind that the pending lookup asks for.
    pub open spec fn answers(self, reply: ReplyModel) -> bool {
        match self.phase {
            Phase::CatalogNames | Phase::SchemaNames | Phase::TableNames => reply is Names,
            Phase::Columns => reply is Columns,
            Phase::Finished | Phase::Failed => false,
        }
    }

    /// The state after a reply. A reply of the kind that was asked for is
    /// taken in, and the walk goes on behind it; any other reply fails the
    /// walk, for good. A walk that is over takes no reply.
    pub open spec fn supply(self, reply: ReplyModel) -> WalkerModel {
        if self.phase == Phase::Finished || self.phase == Phase::Failed {
            self
        } else if !self.answers(reply) {
            WalkerModel {
                phase: Phase::Failed,
                failure: Some(self.failed_lookup(reply)),
                ..self
            }
        } else {
            match self.phase {
                Phase::CatalogNames => WalkerModel {
                    catalog_names: reply->Names_0,
                    ..self
                }.enter_catalogs(),
                Phase::SchemaNames => WalkerModel {
                    schema_names: reply->Names_0,
                    schema_index: 0,
                    schemas: Seq::empty(),
                    ..self
                }.enter_schemas(),
                Phase::TableNames => WalkerModel {
                    table_names: reply->Names_0,
                    tables: Seq::empty(),
                    ..self
                }.enter_tables(),
                _ => WalkerModel {
                    tables: self.tables.push(
                        TableModel { name: self.table_name(), columns: reply->Columns_0 },
                    ),
                    ..self
                }.enter_tables(),
            }
        }
    }

    /// What the walk has come to: the catalogs if it is complete, the error
    /// if it failed, nothing as long as a lookup is pending.
    pub open spec fn outcome(self) -> Option<Result<Seq<CatalogModel>, PgCatalogErrorModel>> {
        match self.phase {
            Phase::Finished => Some(Ok(self.catalogs)),
            Phase::Failed => Some(Err(self.failure->0)),
            _ => None,
        }
    }
}

/// Behind `from`, the next visible name is found at or behind `from`, not
/// behind the end, and it is visible.
pub proof fn lemma_next_visible(names: Seq<Seq<char>>, from: int)
    requires
        0 <= from <= names.len(),
    ensures
        from <= next_visible(names, from) <= names.len(),
        next_visible(names, from) < names.len() ==> !is_system_namespace(
            names[next_visible(names, from)],
        ),
        forall|i: int|
            from <= i < next_visible(names, from) ==> is_system_namespace(#[trigger] names[i]),
    decreases names.len() - from,
{
    if from < names.len() && is_system_namespace(names[from]) {
        lemma_next_visible(names, from + 1);
    }
}

/// A reply leaves the indices of a state pointing at what they should.
pub proof fn lemma_supply_keeps_well_formed(state: WalkerModel, reply: ReplyModel)
    requires
        state.well_formed(),
    ensures
        state.supply(reply).well_formed(),
{
    if state.phase != Phase::Finished && state.phase != Phase::Failed && state.answers(reply) {
        match state.phase {
            Phase::CatalogNames => {},
            Phase::SchemaNames => {
                lemma_next_visible(reply->Names_0, 0);
            },
            _ => {
                lemma_next_visible(state.schema_names, state.schema_index + 1);
            },
        }
    }
}

struct Progress {
    phase: Phase,
    catalog_names: Vec<String>,
    catalogs: Vec<CatalogEntry>,
    schema_names: Vec<String>,
    schema_index: usize,
    schemas: Vec<SchemaEntry>,
    table_names: Vec<String>,
    tables: Vec<TableEntry>,
    failure: Option<PgCatalogError>,
}

impl View for Progress {
    type V = WalkerModel;

    closed spec fn view(&self) -> WalkerModel {
        WalkerModel {
            phase: self.phase,
            catalog_names: text_models(self.catalog_names@),
            catalogs: catalog_models(self.catalogs@),
            schema_names: text_models(self.schema_names@),
            schema_index: self.schema_index as int,
            schemas: schema_models(self.schemas@),
            table_names: text_models(self.table_names@),
            tables: table_models(self.tables@),
            failure: match self.failure {
                Some(error) => Some(error@),
                None => None,
            },
        }
    }
}

impl Progress {
    fn enter_catalogs(&mut self)
        ensures
            final(self)@ == old(self)@.enter_catalogs(),
    {
        if self.catalogs.len() < self.catalog_names.len() {
            self.phase = Phase::SchemaNames;
        } else {
            self.phase = Phase::Finished;
        }
    }

    fn enter_schemas(&mut self)
        requires
            old(self).catalogs.len() < old(self).catalog_names.len(),
            old(self).schema_index <= old(self).schema_names.len(),
        ensures
            final(self)@ == old(self)@.enter_schemas(),
    {
        let ghost names = text_models(self.schema_names@);
        let ghost from = self.schema_index as int;
        let mut next = self.schema_index;
        while next < self.schema_names.len() && names_system_namespace(&self.schema_names[next])
            invariant
                from <= next <= self.schema_names.len(),
                names == text_models(self.schema_names@),
                next_visible(names, next as int) == next_visible(names, from),
            decreases self.schema_names.len() - next,
        {
            next = next + 1;
        }
        if next < self.schema_names.len() {
            self.phase = Phase::TableNames;
            self.schema_index = next;
        } else {
            let ghost walked = catalog_models(self.catalogs@);
            let mut schemas: Vec<SchemaEntry> = Vec::new();
            core::mem::swap(&mut self.schemas, &mut schemas);
            let catalog = CatalogEntry {
                name: self.catalog_names[self.catalogs.len()].clone(),
                schemas,
            };
            self.catalogs.push(catalog);
            self.schema_index = next;
            assert(catalog_models(self.catalogs@) == walked.push(catalog@));
            assert(schema_models(self.schemas@) == Seq::<SchemaModel>::empty());
            self.enter_catalogs();
        }
    }

    fn enter_tables(&mut self)
        requires
            old(self).catalogs.len() < old(self).catalog_names.len(),
            old(self).schema_index < old(self).schema_names.len(),
        ensures
            final(self)@ == old(self)@.enter_tables(),
    {
        if self.tables.len() < self.table_names.len() {
            self.phase = Phase::Columns;
        } else {
            let ghost walked = schema_models(self.schemas@);
            let mut tables: Vec<TableEntry> = Vec::new();
            core::mem::swap(&mut self.tables, &mut tables);
            let schema = SchemaEntry { name: self.schema_names[self.schema_index].clone(), tables };
            self.schemas.push(schema);
            self.schema_index = self.schema_index + 1;
            assert(schema_models(self.schemas@) == walked.push(schema@));
            assert(table_models(self.tables@) == Seq::<TableModel>::empty());
            self.enter_schemas();
        }
    }

    fn fail(&mut self, reply: Reply)
        requires
            old(self)@.well_formed(),
            old(self).phase != Phase::Finished,
            old(self).phase != Phase::Failed,
        ensures
            final(self)@ == (WalkerModel {
                phase: Phase::Failed,
                failure: Some(old(self)@.failed_lookup(reply@)),
                ..old(self)@
            }),
    {
        let failure = match reply {
            Reply::Missing => LookupFailure::Vanished,
            Reply::Failed(words) => LookupFailure::Failed(words),
            _ => LookupFailure::Unexpected,
        };
        let catalog = match self.phase {
            Phase::CatalogNames => None,
            _ => Some(self.catalog_names[self.catalogs.len()].clone()),
        };
        let schema = match self.phase {
            Phase::TableNames | Phase::Columns => Some(
                self.schema_names[self.schema_index].clone(),
            ),
            _ => None,
        };
        let table = match self.phase {
            Phase::Columns => Some(self.table_names[self.tables.len()].clone()),
            _ => None,
        };
        self.failure = Some(PgCatalogError::CatalogLookup { catalog, schema, table, failure });
        self.phase = Phase::Failed;
    }
}

/// A walk in progress.
pub struct CatalogWalker {
    progress: Progress,
}

impl View for CatalogWalker {
    type V = WalkerModel;

    closed spec fn view(&self) -> WalkerModel {
        self.progress@
    }
}

/// What a walk has come to.
#[derive(Clone, Debug, PartialEq, Eq)]
pub enum WalkOutcome {
    /// The walk is complete: the catalogs in the catalog's order, without
    /// the schemas that have a fixed identifier.
    Complete(Vec<CatalogEntry>),
    /// A lookup failed; nothing of the walk is handed out.
    Failed(PgCatalogError),
    /// The walk was given up while a lookup was pending; nothing of it is
    /// handed out.
    Abandoned,
}

impl CatalogWalker {
    #[verifier::type_invariant]
    closed spec fn well_formed(self) -> bool {
        self.progress@.well_formed()
    }

    /// A walk before its first lookup.
    pub fn new() -> (walker: CatalogWalker)
        ensures
            walker@ == WalkerModel::start(),
    {
        let progress = Progress {
            phase: Phase::CatalogNames,
            catalog_names: Vec::new(),
            catalogs: Vec::new(),
            schema_names: Vec::new(),
            schema_index: 0,
            schemas: Vec::new(),
            table_names: Vec::new(),
            tables: Vec::new(),
            failure: None,
        };
        assert(progress@ =~= WalkerModel::start()) by {
            assert(progress@.catalog_names =~= Seq::<Seq<char>>::empty());
            assert(progress@.catalogs =~= Seq::<CatalogModel>::empty());
            assert(progress@.schema_names =~= Seq::<Seq<char>>::empty());
            assert(progress@.schemas =~= Seq::<SchemaModel>::empty());
            assert(progress@.table_names =~= Seq::<Seq<char>>::empty());
            assert(progress@.tables =~= Seq::<TableModel>::empty());
        }
        CatalogWalker { progress }
    }

    /// What the walker waits for.
    pub fn phase(&self) -> (phase: Phase)
        ensures
            phase == self@.phase,
            self@.well_formed(),
    {
        proof {
            use_type_invariant(self);
        }
        self.progress.phase
    }

    /// The question that the walker waits to have answered; `None` when
    /// the walk is over.
    pub fn lookup(&self) -> (lookup: Option<Lookup>)
        ensures
            match lookup {
                Some(lookup) => self@.lookup() == Some(lookup@),
                None => self@.lookup() is None,
            },
    {
        proof {
            use_type_invariant(self);
        }
        let progress = &self.progress;
        match progress.phase {
            Phase::CatalogNames => Some(Lookup::CatalogNames),
            Phase::SchemaNames => Some(
                Lookup::SchemaNames {
                    catalog: progress.catalog_names[progress.catalogs.len()].clone(),
                },
            ),
            Phase::TableNames => Some(
                Lookup::TableNames {
                    catalog: progress.catalog_names[progress.catalogs.len()].clone(),
                    schema: progress.schema_names[progress.schema_index].clone(),
                },
            ),
            Phase::Columns => Some(
                Lookup::Columns {
                    catalog: progress.catalog_names[progress.catalogs.len()].clone(),
                    schema: progress.schema_names[progress.schema_index].clone(),
                    table: progress.table_names[progress.tables.len()].clone(),
                },
            ),
            Phase::Finished | Phase::Failed => None,
        }
    }

    /// Takes the catalog's reply to the pending lookup.
    pub fn supply(self, reply: Reply) -> (next: CatalogWalker)
        ensures
            next@ == self@.supply(reply@),
    {
        proof {
            use_type_invariant(&self);
            lemma_supply_keeps_well_formed(self@, reply@);
        }
        let mut progress = self.progress;
        match progress.phase {
            Phase::Finished | Phase::Failed => {},
            Phase::CatalogNames => match reply {
                Reply::Names(names) => {
                    progress.catalog_names = names;
                    progress.enter_catalogs();
                },
                other => {
                    progress.fail(other);
                },
            },
            Phase::SchemaNames => match reply {
                Reply::Names(names) => {
                    progress.schema_names = names;
                    progress.schema_index = 0;
                    progress.schemas = Vec::new();
                    assert(schema_models(progress.schemas@) == Seq::<SchemaModel>::empty());
                    progress.enter_schemas();
                },
                other => {
                    progress.fail(other);
                },
            },
            Phase::TableNames => match reply {
                Reply::Names(names) => {
                    progress.table_names = names;
                    progress.tables = Vec::new();
                    assert(table_models(progress.tables@) == Seq::<TableModel>::empty());
                    progress.enter_tables();
                },
                other => {
                    progress.fail(other);
                },
            },
            Phase::Columns => match reply {
                Reply::Columns(columns) => {
                    let ghost walked = table_models(progress.tables@);
                    let table = TableEntry {
                        name: progress.table_names[progress.tables.len()].clone(),
                        columns,
                    };
                    progress.tables.push(table);
                    assert(table_models(progress.tables@) == walked.push(table@));
                    progress.enter_tables();
                },
                other => {
                    progress.fail(other);
                },
            },
        }
        CatalogWalker { progress }
    }

    /// Ends the walk and hands out what it has come to.
    pub fn finish(self) -> (outcome: WalkOutcome)
        ensures
            match outcome {
                WalkOutcome::Complete(catalogs) => self@.outcome() == Some(
                    Ok::<Seq<CatalogModel>, PgCatalogErrorModel>(catalog_models(catalogs@)),
                ),
                WalkOutcome::Failed(error) => self@.outcome() == Some(
                    Err::<Seq<CatalogModel>, PgCatalogErrorModel>(error@),
                ),
                WalkOutcome::Abandoned => self@.outcome() is None,
            },
    {
        proof {
            use_type_invariant(&self);
        }
        let progress = self.progress;
        match progress.phase {
            Phase::Finished => WalkOutcome::Complete(progress.catalogs),
            Phase::Failed => match progress.failure {
                Some(error) => WalkOutcome::Failed(error),
                None => WalkOutcome::Abandoned,
            },
            _ => WalkOutcome::Abandoned,
        }
    }
}

} // verus!

//! What a walk delivers when the catalog does not change while it lasts.

use crate::catalog::{
    catalogs_span, is_system_namespace, lemma_catalogs_span_prefix, lemma_schemas_span_prefix,
    schemas_span, CatalogModel, SchemaModel, TableModel,
};
use crate::error::PgCatalogErrorModel;
use crate::oid::FIRST_RELATION_OID;
use crate::pg_attribute::{attribute_rows, catalog_attribute_rows, schema_attribute_rows};
use crate::pg_class::{catalog_class_rows, class_rows, schema_class_rows};
use crate::pg_namespace::{catalog_namespace_rows, namespace_rows, schema_namespace_rows};
use crate::walker::{lemma_next_visible, next_visible, LookupModel, Phase, ReplyModel, WalkerModel};
use vstd::prelude::*;

verus! {

/// The names of the catalogs, in their order.
pub open spec fn catalog_names_of(catalogs: Seq<CatalogModel>) -> Seq<Seq<char>> {
    Seq::new(catalogs.len(), |i: int| catalogs[i].name)
}

/// The names of the schemas, in their order.
pub open spec fn schema_names_of(schemas: Seq<SchemaModel>) -> Seq<Seq<char>> {
    Seq::new(schemas.len(), |i: int| schemas[i].name)
}

/// The names of the tables, in their order.
pub open spec fn table_names_of(tables: Seq<TableModel>) -> Seq<Seq<char>> {
    Seq::new(tables.len(), |i: int| tables[i].name)
}

/// Whether no name stands twice among the names.
pub open spec fn distinct(names: Seq<Seq<char>>) -> bool {
    forall|i: int, j: int| 0 <= i < j < names.len() ==> names[i] != names[j]
}

/// Whether a name finds at most one thing at each level of the catalog: no
/// two catalogs, no two schemas of a catalog and no two tables of a schema
/// share their name.
pub open spec fn names_are_unique(catalogs: Seq<CatalogModel>) -> bool {
    &&& distinct(catalog_names_of(catalogs))
    &&& forall|c: int|
        0 <= c < catalogs.len() ==> distinct(schema_names_of((#[trigger] catalogs[c]).schemas))
    &&& forall|c: int, s: int|
        0 <= c < catalogs.len() && 0 <= s < catalogs[c].schemas.len() ==> distinct(
            table_names_of((#[trigger] catalogs[c].schemas[s]).tables),
        )
}

/// The place of a name among the names, if it is there.
pub open spec fn position(names: Seq<Seq<char>>, name: Seq<char>) -> Option<int> {
    if exists|i: int| 0 <= i < names.len() && names[i] == name {
        Some(choose|i: int| 0 <= i < names.len() && names[i] == name)
    } else {
        None
    }
}

/// The catalog's reply to a lookup: listings give the names in the
/// catalog's order, and a name that the catalog does not hold is missing.
pub open spec fn answer(catalogs: Seq<CatalogModel>, lookup: LookupModel) -> ReplyModel {
    match lookup {
        LookupModel::CatalogNames => ReplyModel::Names(catalog_names_of(catalogs)),
        LookupModel::SchemaNames { catalog } => match position(
            catalog_names_of(catalogs),
            catalog,
        ) {
            Some(c) => ReplyModel::Names(schema_names_of(catalogs[c].schemas)),
            None => ReplyModel::Missing,
        },
        LookupModel::TableNames { catalog, schema } => match position(
            catalog_names_of(catalogs),
            catalog,
        ) {
            Some(c) => match position(schema_names_of(catalogs[c].schemas), schema) {
                Some(s) => ReplyModel::Names(table_names_of(catalogs[c].schemas[s].tables)),
                None => ReplyModel::Missing,
            },
            None => ReplyModel::Missing,
        },
        LookupModel::Columns { catalog, schema, table } => match position(
            catalog_names_of(catalogs),
            catalog,
        ) {
            Some(c) => match position(schema_names_of(catalogs[c].schemas), schema) {
                Some(s) => match position(table_names_of(catalogs[c].schemas[s].tables), table) {
                    Some(t) => ReplyModel::Columns(catalogs[c].schemas[s].tables[t].columns),
                    None => ReplyModel::Missing,
                },
                None => ReplyModel::Missing,
            },
            None => ReplyModel::Missing,
        },
    }
}

/// Whether a schema has no fixed identifier.
pub open spec fn is_visible() -> spec_fn(SchemaModel) -> bool {
    |schema: SchemaModel| !is_system_namespace(schema.name)
}

/// What a walk is to deliver of a catalog: all of it, in its order, but for
/// the schemas that have a fixed identifier.
pub open spec fn visible(catalogs: Seq<CatalogModel>) -> Seq<CatalogModel> {
    Seq::new(
        catalogs.len(),
        |c: int|
            CatalogModel {
                name: catalogs[c].name,
                schemas: catalogs[c].schemas.filter(is_visible()),
            },
    )
}

/// The state of a walk after `steps` lookups that the catalog has
/// answered, or after its last lookup if that came before.
pub open spec fn run(state: WalkerModel, catalogs: Seq<CatalogModel>, steps: nat) -> WalkerModel
    decreases steps,
{
    if steps == 0 {
        state
    } else {
        match state.lookup() {
            Some(lookup) => run(
                state.supply(answer(catalogs, lookup)),
                catalogs,
                (steps - 1) as nat,
            ),
            None => state,
        }
    }
}

/// How many lookups a walk of the catalog makes: one for the catalogs, one
/// for each catalog, one for each schema without a fixed identifier and one
/// for each table of such a schema.
pub open spec fn lookups(catalogs: Seq<CatalogModel>) -> nat {
    1 + catalogs.len() + catalogs_span(catalogs)
}

/// Whether a state is one that a walk of the catalog passes through, with
/// all that it has taken in being what the catalog holds.
spec fn tracks(state: WalkerModel, catalogs: Seq<CatalogModel>) -> bool {
    let c = state.catalogs.len() as int;
    let s = state.schema_index;
    let t = state.tables.len() as int;
    &&& state.failure is None
    &&& state.phase != Phase::Failed
    &&& state.phase == Phase::CatalogNames ==> state == WalkerModel::start()
    &&& state.phase != Phase::CatalogNames ==> {
        &&& state.catalog_names == catalog_names_of(catalogs)
        &&& c <= catalogs.len()
        &&& state.catalogs == visible(catalogs.take(c))
    }
    &&& state.phase == Phase::Finished ==> c == catalogs.len()
    &&& (state.phase == Phase::SchemaNames || state.phase == Phase::TableNames || state.phase
        == Phase::Columns) ==> c < catalogs.len()
    &&& (state.phase == Phase::TableNames || state.phase == Phase::Columns) ==> {
        &&& state.schema_names == schema_names_of(catalogs[c].schemas)
        &&& 0 <= s < catalogs[c].schemas.len()
        &&& !is_system_namespace(catalogs[c].schemas[s].name)
        &&& state.schemas == catalogs[c].schemas.take(s).filter(is_visible())
    }
    &&& state.phase == Phase::Columns ==> {
        &&& state.table_names == table_names_of(catalogs[c].schemas[s].tables)
        &&& t < catalogs[c].schemas[s].tables.len()
        &&& state.tables == catalogs[c].schemas[s].tables.take(t)
    }
}

/// How many lookups a walk has before it in a state that it passes through.
spec fn remaining(state: WalkerModel, catalogs: Seq<CatalogModel>) -> int {
    let c = state.catalogs.len() as int;
    let s = state.schema_index;
    let t = state.tables.len() as int;
    let ahead = catalogs.len() - c + catalogs_span(catalogs) - catalogs_span(catalogs.take(c));
    match state.phase {
        Phase::CatalogNames => lookups(catalogs) as int,
        Phase::SchemaNames => ahead,
        Phase::TableNames => ahead - 1 - schemas_span(catalogs[c].schemas.take(s)),
        Phase::Columns => ahead - 1 - schemas_span(catalogs[c].schemas.take(s)) - 1 - t,
        Phase::Finished | Phase::Failed => 0,
    }
}

/// Among distinct names, a name is found at its own place.
proof fn lemma_position_of(names: Seq<Seq<char>>, i: int)
    requires
        distinct(names),
        0 <= i < names.len(),
    ensures
        position(names, names[i]) == Some(i),
{
    let found = choose|k: int| 0 <= k < names.len() && names[k] == names[i];
    if found < i {
        assert(names[found] != names[i]);
    } else if i < found {
        assert(names[i] != names[found]);
    }
}

/// The schemas that a walk passes over add nothing to what it delivers,
/// and take no identifier.
proof fn lemma_passed_over(schemas: Seq<SchemaModel>, from: int, to: int)
    requires
        0 <= from <= to <= schemas.len(),
        forall|i: int| from <= i < to ==> is_system_namespace(#[trigger] schemas[i].name),
    ensures
        schemas.take(to).filter(is_visible()) == schemas.take(from).filter(is_visible()),
        schemas_span(schemas.take(to)) == schemas_span(schemas.take(from)),
    decreases to - from,
{
    if from < to {
        lemma_passed_over(schemas, from, to - 1);
        reveal(Seq::filter);
        assert(schemas.take(to).drop_last() == schemas.take(to - 1));
        assert(schemas.take(to).last() == schemas[to - 1]);
        assert(is_system_namespace(schemas[to - 1].name));
    }
}

/// What a walk delivers of one catalog more.
proof fn lemma_visible_of_one_more(catalogs: Seq<CatalogModel>, c: int)
    requires
        0 <= c < catalogs.len(),
    ensures
        visible(catalogs.take(c + 1)) == visible(catalogs.take(c)).push(
            CatalogModel {
                name: catalogs[c].name,
                schemas: catalogs[c].schemas.filter(is_visible()),
            },
        ),
{
    assert(visible(catalogs.take(c + 1)) =~= visible(catalogs.take(c)).push(
        CatalogModel { name: catalogs[c].name, schemas: catalogs[c].schemas.filter(is_visible()) },
    ));
}

/// A walk that goes on with the next catalog stays on its way.
proof fn lemma_enter_catalogs(state: WalkerModel, catalogs: Seq<CatalogModel>)
    requires
        state.failure is None,
        state.catalog_names == catalog_names_of(catalogs),
        state.catalogs.len() <= catalogs.len(),
        state.catalogs == visible(catalogs.take(state.catalogs.len() as int)),
    ensures
        tracks(state.enter_catalogs(), catalogs),
        remaining(state.enter_catalogs(), catalogs) == catalogs.len() - state.catalogs.len()
            + catalogs_span(catalogs) - catalogs_span(catalogs.take(state.catalogs.len() as int)),
{
    if state.catalogs.len() == catalogs.len() {
        assert(catalogs.take(catalogs.len() as int) == catalogs);
    }
}

/// A walk that goes on with the next schema stays on its way.
proof fn lemma_enter_schemas(state: WalkerModel, catalogs: Seq<CatalogModel>)
    requires
        state.failure is None,
        state.catalog_names == catalog_names_of(catalogs),
        state.catalogs.len() < catalogs.len(),
        state.catalogs == visible(catalogs.take(state.catalogs.len() as int)),
        state.schema_names == schema_names_of(catalogs[state.catalogs.len() as int].schemas),
        0 <= state.schema_index <= state.schema_names.len(),
        state.schemas == catalogs[state.catalogs.len() as int].schemas.take(
            state.schema_index,
        ).filter(is_visible()),
    ensures
        tracks(state.enter_schemas(), catalogs),
        remaining(state.enter_schemas(), catalogs) == catalogs.len() - state.catalogs.len()
            + catalogs_span(catalogs) - catalogs_span(catalogs.take(state.catalogs.len() as int))
            - 1 - schemas_span(
            catalogs[state.catalogs.len() as int].schemas.take(state.schema_index),
        ),
{
    let c = state.catalogs.len() as int;
    let schemas = catalogs[c].schemas;
    let next = next_visible(state.schema_names, state.schema_index);
    lemma_next_visible(state.schema_names, state.schema_index);
    assert forall|i: int| state.schema_index <= i < next implies is_system_namespace(
        #[trigger] schemas[i].name,
    ) by {
        assert(is_system_namespace(state.schema_names[i]));
    }
    lemma_passed_over(schemas, state.schema_index, next);
    if next >= state.schema_names.len() {
        assert(schemas.take(next) == schemas);
        lemma_visible_of_one_more(catalogs, c);
        lemma_catalogs_span_prefix(catalogs, c);
        let walked = WalkerModel {
            catalogs: state.catalogs.push(
                CatalogModel { name: state.catalog_name(), schemas: state.schemas },
            ),
            schema_index: next,
            schemas: Seq::empty(),
            ..state
        };
        lemma_enter_catalogs(walked, catalogs);
    }
}

/// A walk that goes on with the next table stays on its way.
proof fn lemma_enter_tables(state: WalkerModel, catalogs: Seq<CatalogModel>)
    requires
        state.failure is None,
        state.catalog_names == catalog_names_of(catalogs),
        state.catalogs.len() < catalogs.len(),
        state.catalogs == visible(catalogs.take(state.catalogs.len() as int)),
        state.schema_names == schema_names_of(catalogs[state.catalogs.len() as int].schemas),
        0 <= state.schema_index < state.schema_names.len(),
        !is_system_namespace(state.schema_names[state.schema_index]),
        state.schemas == catalogs[state.catalogs.len() as int].schemas.take(
            state.schema_index,
        ).filter(is_visible()),
        state.table_names == table_names_of(
            catalogs[state.catalogs.len() as int].schemas[state.schema_index].tables,
        ),
        state.tables.len() <= state.table_names.len(),
        state.tables == catalogs[state.catalogs.len() as int].schemas[state.schema_index].tables.take(
            state.tables.len() as int,
        ),
    ensures
        tracks(state.enter_tables(), catalogs),
        remaining(state.enter_tables(), catalogs) == catalogs.len() - state.catalogs.len()
            + catalogs_span(catalogs) - catalogs_span(catalogs.take(state.catalogs.len() as int))
            - 1 - schemas_span(
            catalogs[state.catalogs.len() as int].schemas.take(state.schema_index),
        ) - 1 - state.tables.len(),
{
    let c = state.catalogs.len() as int;
    let s = state.schema_index;
    let schemas = catalogs[c].schemas;
    let tables = schemas[s].tables;
    if state.tables.len() >= state.table_names.len() {
        assert(tables.take(tables.len() as int) == tables);
        reveal(Seq::filter);
        assert(schemas.take(s + 1).drop_last() == schemas.take(s));
        assert(schemas.take(s + 1).last() == schemas[s]);
        assert(SchemaModel { name: state.schema_name(), tables: state.tables } == schemas[s]);
        lemma_schemas_span_prefix(schemas, s);
        let walked = WalkerModel {
            schemas: state.schemas.push(
                SchemaModel { name: state.schema_name(), tables: state.tables },
            ),
            schema_index: s + 1,
            tables: Seq::empty(),
            ..state
        };
        lemma_enter_schemas(walked, catalogs);
    }
}

/// One lookup that the catalog answers leaves a walk on its way, with one
/// lookup less before it.
proof fn lemma_step(state: WalkerModel, catalogs: Seq<CatalogModel>)
    requires
        names_are_unique(catalogs),
        tracks(state, catalogs),
        state.lookup() is Some,
    ensures
        tracks(state.supply(answer(catalogs, state.lookup()->0)), catalogs),
        remaining(state.supply(answer(catalogs, state.lookup()->0)), catalogs) == remaining(
            state,
            catalogs,
        ) - 1,
{
    let c = state.catalogs.len() as int;
    let s = state.schema_index;
    let t = state.tables.len() as int;
    let reply = answer(catalogs, state.lookup()->0);
    match state.phase {
        Phase::CatalogNames => {
            let named = WalkerModel { catalog_names: reply->Names_0, ..state };
            assert(catalogs.take(0) =~= Seq::<CatalogModel>::empty());
            assert(visible(catalogs.take(0)) =~= Seq::<CatalogModel>::empty());
            lemma_enter_catalogs(named, catalogs);
        },
        Phase::SchemaNames => {
            lemma_position_of(catalog_names_of(catalogs), c);
            let named = WalkerModel {
                schema_names: reply->Names_0,
                schema_index: 0,
                schemas: Seq::empty(),
                ..state
            };
            reveal(Seq::filter);
            assert(catalogs[c].schemas.take(0) =~= Seq::<SchemaModel>::empty());
            lemma_enter_schemas(named, catalogs);
        },
        Phase::TableNames => {
            lemma_position_of(catalog_names_of(catalogs), c);
            lemma_position_of(schema_names_of(catalogs[c].schemas), s);
            let named = WalkerModel {
                table_names: reply->Names_0,
                tables: Seq::empty(),
                ..state
            };
            assert(catalogs[c].schemas[s].tables.take(0) =~= Seq::<TableModel>::empty());
            lemma_enter_tables(named, catalogs);
        },
        Phase::Columns => {
            lemma_position_of(catalog_names_of(catalogs), c);
            lemma_position_of(schema_names_of(catalogs[c].schemas), s);
            lemma_position_of(table_names_of(catalogs[c].schemas[s].tables), t);
            let tables = catalogs[c].schemas[s].tables;
            let described = WalkerModel {
                tables: state.tables.push(
                    TableModel { name: state.table_name(), columns: reply->Columns_0 },
                ),
                ..state
            };
            assert(TableModel { name: state.table_name(), columns: reply->Columns_0 } == tables[t]);
            assert(tables.take(t + 1) =~= tables.take(t).push(tables[t]));
            lemma_enter_tables(described, catalogs);
        },
        _ => {},
    }
}

/// A walk on its way has no lookup before it only when it is complete.
proof fn lemma_remaining(state: WalkerModel, catalogs: Seq<CatalogModel>)
    requires
        tracks(state, catalogs),
    ensures
        remaining(state, catalogs) >= 0,
        remaining(state, catalogs) == 0 <==> state.phase == Phase::Finished,
        state.phase == Phase::Finished <==> state.lookup() is None,
{
    let c = state.catalogs.len() as int;
    if state.phase != Phase::CatalogNames {
        lemma_catalogs_span_prefix(catalogs, c);
        if c < catalogs.len() {
            lemma_catalogs_span_prefix(catalogs, c + 1);
            if state.phase == Phase::TableNames || state.phase == Phase::Columns {
                let schemas = catalogs[c].schemas;
                lemma_schemas_span_prefix(schemas, state.schema_index);
                lemma_schemas_span_prefix(schemas, state.schema_index + 1);
            }
        } else {
            assert(catalogs.take(c) == catalogs);
        }
    }
}

/// A walk on its way comes to its end after the lookups that it has
/// before it, and delivers the catalog.
proof fn lemma_run(state: WalkerModel, catalogs: Seq<CatalogModel>, steps: nat)
    requires
        names_are_unique(catalogs),
        tracks(state, catalogs),
        steps >= remaining(state, catalogs),
    ensures
        run(state, catalogs, steps).outcome() == Some(
            Ok::<Seq<CatalogModel>, PgCatalogErrorModel>(visible(catalogs)),
        ),
    decreases steps,
{
    lemma_remaining(state, catalogs);
    if state.phase == Phase::Finished {
        assert(catalogs.take(catalogs.len() as int) == catalogs);
    } else {
        lemma_step(state, catalogs);
        let next = state.supply(answer(catalogs, state.lookup()->0));
        lemma_run(next, catalogs, (steps - 1) as nat);
    }
}

/// A walk of a catalog that does not change while the walk lasts, and in
/// which a name finds one thing, comes to its end after `lookups` lookups
/// and delivers the catalog as `visible` describes it: every catalog,
/// every schema without a fixed identifier, every table and every column,
/// in the catalog's own order. More steps change nothing. So two walks of
/// the same catalog deliver the same, and the relations built from them
/// are the same.
pub proof fn law_walk_delivers_the_catalog(catalogs: Seq<CatalogModel>, steps: nat)
    requires
        names_are_unique(catalogs),
        steps >= lookups(catalogs),
    ensures
        run(WalkerModel::start(), catalogs, steps).outcome() == Some(
            Ok::<Seq<CatalogModel>, PgCatalogErrorModel>(visible(catalogs)),
        ),
{
    lemma_run(WalkerModel::start(), catalogs, steps);
}

/// A lookup that finds nothing, or that the catalog fails, ends the walk:
/// the walk has come to the error of that lookup, asks nothing more, hands
/// out nothing of what it had taken in, and no later reply changes that.
pub proof fn law_failed_lookup_ends_the_walk(
    state: WalkerModel,
    reply: ReplyModel,
    later: ReplyModel,
)
    requires
        state.lookup() is Some,
        reply is Missing || reply is Failed,
    ensures
        state.supply(reply).outcome() == Some(
            Err::<Seq<CatalogModel>, PgCatalogErrorModel>(state.failed_lookup(reply)),
        ),
        state.supply(reply).lookup() is None,
        state.supply(reply).supply(later) == state.supply(reply),
{
}

/// What is built from a run of schemas is built from its visible schemas
/// alone.
proof fn lemma_visible_schemas_suffice(schemas: Seq<SchemaModel>, base: int)
    ensures
        schemas_span(schemas.filter(is_visible())) == schemas_span(schemas),
        schema_namespace_rows(schemas.filter(is_visible()), base) == schema_namespace_rows(
            schemas,
            base,
        ),
        schema_class_rows(schemas.filter(is_visible()), base) == schema_class_rows(schemas, base),
        schema_attribute_rows(schemas.filter(is_visible()), base) == schema_attribute_rows(
            schemas,
            base,
        ),
    decreases schemas.len(),
{
    reveal(Seq::filter);
    if schemas.len() > 0 {
        lemma_visible_schemas_suffice(schemas.drop_last(), base);
        if !is_system_namespace(schemas.last().name) {
            let kept = schemas.drop_last().filter(is_visible());
            assert(kept.push(schemas.last()).drop_last() == kept);
        }
    }
}

/// What is built from a run of catalogs is built from what a walk delivers
/// of them.
proof fn lemma_visible_catalogs_suffice(catalogs: Seq<CatalogModel>, base: int)
    ensures
        catalogs_span(visible(catalogs)) == catalogs_span(catalogs),
        catalog_namespace_rows(visible(catalogs), base) == catalog_namespace_rows(catalogs, base),
        catalog_class_rows(visible(catalogs), base) == catalog_class_rows(catalogs, base),
        catalog_attribute_rows(visible(catalogs), base) == catalog_attribute_rows(catalogs, base),
    decreases catalogs.len(),
{
    if catalogs.len() > 0 {
        lemma_visible_catalogs_suffice(catalogs.drop_last(), base);
        lemma_visible_schemas_suffice(
            catalogs.last().schemas,
            base + catalogs_span(catalogs.drop_last()),
        );
        assert(visible(catalogs).drop_last() == visible(catalogs.drop_last()));
    } else {
        assert(visible(catalogs) == catalogs);
    }
}

/// The schemas that a walk passes over do not matter to the relations:
/// what is built from the catalog as a walk delivers it is what would be
/// built from the whole catalog.
pub proof fn law_passed_over_schemas_do_not_matter(catalogs: Seq<CatalogModel>)
    ensures
        catalogs_span(visible(catalogs)) == catalogs_span(catalogs),
        namespace_rows(visible(catalogs)) == namespace_rows(catalogs),
        class_rows(visible(catalogs)) == class_rows(catalogs),
        attribute_rows(visible(catalogs)) == attribute_rows(catalogs),
{
    lemma_visible_catalogs_suffice(catalogs, FIRST_RELATION_OID as int);
}

/// Two walks of one catalog that does not change between them deliver the
/// same: whatever is built from the one is what is built from the other,
/// identifier for identifier and row for row.
pub proof fn law_two_walks_agree(catalogs: Seq<CatalogModel>, first: nat, second: nat)
    requires
        names_are_unique(catalogs),
        first >= lookups(catalogs),
        second >= lookups(catalogs),
    ensures
        run(WalkerModel::start(), catalogs, first).outcome() == run(
            WalkerModel::start(),
            catalogs,
            second,
        ).outcome(),
        run(WalkerModel::start(), catalogs, first).outcome() is Some,
        ({
            let one = run(WalkerModel::start(), catalogs, first).outcome()->0->Ok_0;
            let other = run(WalkerModel::start(), catalogs, second).outcome()->0->Ok_0;
            &&& namespace_rows(one) == namespace_rows(other)
            &&& class_rows(one) == class_rows(other)
            &&& attribute_rows(one) == attribute_rows(other)
        }),
{
    law_walk_delivers_the_catalog(catalogs, first);
    law_walk_delivers_the_catalog(catalogs, second);
}

} // verus!

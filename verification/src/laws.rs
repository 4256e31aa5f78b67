//! What holds of the relations of one walk, whatever the walk.

use crate::catalog::{
    catalogs_span, is_schema_place, is_system_namespace, is_table_place, schema_oid, schemas_span,
    table_oid, CatalogModel, SchemaModel, TableModel,
};
use crate::oid::{
    FIRST_RELATION_OID, INFORMATION_SCHEMA_NAMESPACE_OID, PG_CATALOG_NAMESPACE_OID,
    PUBLIC_NAMESPACE_OID,
};
use crate::pg_attribute::{
    attribute_rows, catalog_attribute_rows, schema_attribute_rows, table_attribute_rows,
    tables_attribute_rows, AttributeRowModel,
};
use crate::pg_class::{
    catalog_class_rows, class_row, class_rows, schema_class_rows, table_class_rows, ClassRowModel,
};
use crate::pg_namespace::{
    catalog_namespace_rows, namespace_row, namespace_rows, schema_namespace_rows,
    system_namespace_rows, NamespaceRowModel,
};
use vstd::prelude::*;

verus! {

/// The place, among the schemas, of the table that stands behind row `k`
/// of their class rows.
proof fn lemma_schema_class_row_place(schemas: Seq<SchemaModel>, base: int, k: int) -> (place: (
    int,
    int,
))
    requires
        0 <= k < schema_class_rows(schemas, base).len(),
    ensures
        0 <= place.0 < schemas.len(),
        !is_system_namespace(schemas[place.0].name),
        0 <= place.1 < schemas[place.0].tables.len(),
        schema_class_rows(schemas, base)[k] == class_row(
            base + schemas_span(schemas.take(place.0)) + 1 + place.1,
            schemas[place.0].tables[place.1],
            base + schemas_span(schemas.take(place.0)),
        ),
    decreases schemas.len(),
{
    let before = schema_class_rows(schemas.drop_last(), base);
    let last = schemas.len() - 1;
    if k < before.len() {
        let place = lemma_schema_class_row_place(schemas.drop_last(), base, k);
        assert(schemas.drop_last().take(place.0) == schemas.take(place.0));
        place
    } else {
        assert(schemas.take(last) == schemas.drop_last());
        (last, k - before.len())
    }
}

/// The place, among the catalogs, of the table that stands behind row `k`
/// of their class rows.
proof fn lemma_catalog_class_row_place(catalogs: Seq<CatalogModel>, base: int, k: int) -> (place:
    (int, int, int))
    requires
        0 <= k < catalog_class_rows(catalogs, base).len(),
    ensures
        is_table_place(catalogs, place.0, place.1, place.2),
        catalog_class_rows(catalogs, base)[k] == class_row(
            base + catalogs_span(catalogs.take(place.0)) + schemas_span(
                catalogs[place.0].schemas.take(place.1),
            ) + 1 + place.2,
            catalogs[place.0].schemas[place.1].tables[place.2],
            base + catalogs_span(catalogs.take(place.0)) + schemas_span(
                catalogs[place.0].schemas.take(place.1),
            ),
        ),
    decreases catalogs.len(),
{
    let before = catalog_class_rows(catalogs.drop_last(), base);
    let last = catalogs.len() - 1;
    if k < before.len() {
        let place = lemma_catalog_class_row_place(catalogs.drop_last(), base, k);
        assert(catalogs.drop_last().take(place.0) == catalogs.take(place.0));
        place
    } else {
        assert(catalogs.take(last) == catalogs.drop_last());
        let inner = lemma_schema_class_row_place(
            catalogs.last().schemas,
            base + catalogs_span(catalogs.drop_last()),
            k - before.len(),
        );
        (last, inner.0, inner.1)
    }
}

/// The index, among the namespace rows of the schemas, of the row of
/// schema `s`.
proof fn lemma_schema_namespace_row_index(schemas: Seq<SchemaModel>, base: int, s: int) -> (j: int)
    requires
        0 <= s < schemas.len(),
        !is_system_namespace(schemas[s].name),
    ensures
        0 <= j < schema_namespace_rows(schemas, base).len(),
        schema_namespace_rows(schemas, base)[j] == namespace_row(
            base + schemas_span(schemas.take(s)),
            schemas[s].name,
        ),
    decreases schemas.len(),
{
    let before = schema_namespace_rows(schemas.drop_last(), base);
    let last = schemas.len() - 1;
    if s == last {
        assert(schemas.take(last) == schemas.drop_last());
        before.len() as int
    } else {
        let j = lemma_schema_namespace_row_index(schemas.drop_last(), base, s);
        assert(schemas.drop_last().take(s) == schemas.take(s));
        j
    }
}

/// The index, among the namespace rows of the catalogs, of the row of
/// schema `s` of catalog `c`.
proof fn lemma_catalog_namespace_row_index(
    catalogs: Seq<CatalogModel>,
    base: int,
    c: int,
    s: int,
) -> (j: int)
    requires
        is_schema_place(catalogs, c, s),
    ensures
        0 <= j < catalog_namespace_rows(catalogs, base).len(),
        catalog_namespace_rows(catalogs, base)[j] == namespace_row(
            base + catalogs_span(catalogs.take(c)) + schemas_span(catalogs[c].schemas.take(s)),
            catalogs[c].schemas[s].name,
        ),
    decreases catalogs.len(),
{
    let before = catalog_namespace_rows(catalogs.drop_last(), base);
    let last = catalogs.len() - 1;
    if c == last {
        assert(catalogs.take(last) == catalogs.drop_last());
        let j = lemma_schema_namespace_row_index(
            catalogs.last().schemas,
            base + catalogs_span(catalogs.drop_last()),
            s,
        );
        before.len() + j
    } else {
        let j = lemma_catalog_namespace_row_index(catalogs.drop_last(), base, c, s);
        assert(catalogs.drop_last().take(c) == catalogs.take(c));
        j
    }
}

/// The index, among the class rows of the schemas, of the row of table `t`
/// of schema `s`.
proof fn lemma_schema_class_row_index(schemas: Seq<SchemaModel>, base: int, s: int, t: int) -> (k:
    int)
    requires
        0 <= s < schemas.len(),
        !is_system_namespace(schemas[s].name),
        0 <= t < schemas[s].tables.len(),
    ensures
        0 <= k < schema_class_rows(schemas, base).len(),
        schema_class_rows(schemas, base)[k] == class_row(
            base + schemas_span(schemas.take(s)) + 1 + t,
            schemas[s].tables[t],
            base + schemas_span(schemas.take(s)),
        ),
    decreases schemas.len(),
{
    let before = schema_class_rows(schemas.drop_last(), base);
    let last = schemas.len() - 1;
    if s == last {
        assert(schemas.take(last) == schemas.drop_last());
        before.len() + t
    } else {
        let k = lemma_schema_class_row_index(schemas.drop_last(), base, s, t);
        assert(schemas.drop_last().take(s) == schemas.take(s));
        k
    }
}

/// The index, among the class rows of the catalogs, of the row of table `t`
/// of schema `s` of catalog `c`.
proof fn lemma_catalog_class_row_index(
    catalogs: Seq<CatalogModel>,
    base: int,
    c: int,
    s: int,
    t: int,
) -> (k: int)
    requires
        is_table_place(catalogs, c, s, t),
    ensures
        0 <= k < catalog_class_rows(catalogs, base).len(),
        catalog_class_rows(catalogs, base)[k] == class_row(
            base + catalogs_span(catalogs.take(c)) + schemas_span(catalogs[c].schemas.take(s))
                + 1 + t,
            catalogs[c].schemas[s].tables[t],
            base + catalogs_span(catalogs.take(c)) + schemas_span(catalogs[c].schemas.take(s)),
        ),
    decreases catalogs.len(),
{
    let before = catalog_class_rows(catalogs.drop_last(), base);
    let last = catalogs.len() - 1;
    if c == last {
        assert(catalogs.take(last) == catalogs.drop_last());
        let k = lemma_schema_class_row_index(
            catalogs.last().schemas,
            base + catalogs_span(catalogs.drop_last()),
            s,
            t,
        );
        before.len() + k
    } else {
        let k = lemma_catalog_class_row_index(catalogs.drop_last(), base, c, s, t);
        assert(catalogs.drop_last().take(c) == catalogs.take(c));
        k
    }
}

/// Every schema that a walk numbers has its row in the namespace relation,
/// behind the three fixed rows.
pub proof fn law_schemas_are_listed(walk: Seq<CatalogModel>, c: int, s: int) -> (j: int)
    requires
        is_schema_place(walk, c, s),
    ensures
        3 <= j < namespace_rows(walk).len(),
        namespace_rows(walk)[j] == namespace_row(schema_oid(walk, c, s), walk[c].schemas[s].name),
{
    let j = lemma_catalog_namespace_row_index(walk, FIRST_RELATION_OID as int, c, s);
    3 + j
}

/// Every table of a schema that a walk numbers has its row in the class
/// relation, with the identifier under which the attribute relation lists
/// its columns and with the identifier of its schema.
pub proof fn law_tables_are_listed(walk: Seq<CatalogModel>, c: int, s: int, t: int) -> (k: int)
    requires
        is_table_place(walk, c, s, t),
    ensures
        0 <= k < class_rows(walk).len(),
        class_rows(walk)[k] == class_row(
            table_oid(walk, c, s, t),
            walk[c].schemas[s].tables[t],
            schema_oid(walk, c, s),
        ),
{
    lemma_catalog_class_row_index(walk, FIRST_RELATION_OID as int, c, s, t)
}

/// Every row of the class relation stands for a table of the walk, and
/// carries as its namespace the identifier that the namespace relation of
/// the same walk gives to the schema of that table: the class relation
/// refers to rows of the namespace relation, never past them.
pub proof fn law_class_rows_reference_namespace_rows(walk: Seq<CatalogModel>, k: int) -> (found: (
    int,
    int,
    int,
    int,
))
    requires
        0 <= k < class_rows(walk).len(),
    ensures
        ({
            let (c, s, t, j) = found;
            &&& is_table_place(walk, c, s, t)
            &&& class_rows(walk)[k] == class_row(
                table_oid(walk, c, s, t),
                walk[c].schemas[s].tables[t],
                schema_oid(walk, c, s),
            )
            &&& 0 <= j < namespace_rows(walk).len()
            &&& namespace_rows(walk)[j] == namespace_row(
                schema_oid(walk, c, s),
                walk[c].schemas[s].name,
            )
            &&& namespace_rows(walk)[j].oid == class_rows(walk)[k].namespace_oid
        }),
{
    let base = FIRST_RELATION_OID as int;
    let place = lemma_catalog_class_row_place(walk, base, k);
    let j = lemma_catalog_namespace_row_index(walk, base, place.0, place.1);
    (place.0, place.1, place.2, 3 + j)
}

/// Whether the keys of all rows lie from `low` up to, not including, `high`.
pub open spec fn keys_within<A>(rows: Seq<A>, key: spec_fn(A) -> int, low: int, high: int) -> bool {
    forall|i: int| 0 <= i < rows.len() ==> low <= #[trigger] key(rows[i]) < high
}

/// Whether the keys of the rows increase from each row to the next.
pub open spec fn keys_increase<A>(rows: Seq<A>, key: spec_fn(A) -> int) -> bool {
    forall|i: int, j: int|
        0 <= i < j < rows.len() ==> #[trigger] key(rows[i]) < #[trigger] key(rows[j])
}

/// Whether no row of the one sequence has the key of a row of the other.
pub open spec fn keys_apart<A, B>(
    left: Seq<A>,
    left_key: spec_fn(A) -> int,
    right: Seq<B>,
    right_key: spec_fn(B) -> int,
) -> bool {
    forall|i: int, j: int|
        0 <= i < left.len() && 0 <= j < right.len() ==> #[trigger] left_key(left[i])
            != #[trigger] right_key(right[j])
}

/// Rows with increasing keys below `mid`, followed by rows with increasing
/// keys from `mid` on, have increasing keys.
proof fn lemma_keys_of_concatenation<A>(
    first: Seq<A>,
    second: Seq<A>,
    key: spec_fn(A) -> int,
    low: int,
    mid: int,
    high: int,
)
    requires
        low <= mid <= high,
        keys_within(first, key, low, mid),
        keys_within(second, key, mid, high),
        keys_increase(first, key),
        keys_increase(second, key),
    ensures
        keys_within(first + second, key, low, high),
        keys_increase(first + second, key),
{
    let all = first + second;
    assert forall|i: int| 0 <= i < all.len() implies low <= #[trigger] key(all[i]) < high by {
        if i < first.len() {
            assert(all[i] == first[i]);
        } else {
            assert(all[i] == second[i - first.len()]);
        }
    }
    assert forall|i: int, j: int| 0 <= i < j < all.len() implies #[trigger] key(all[i])
        < #[trigger] key(all[j]) by {
        if i < first.len() {
            assert(all[i] == first[i]);
        } else {
            assert(all[i] == second[i - first.len()]);
        }
        if j < first.len() {
            assert(all[j] == first[j]);
        } else {
            assert(all[j] == second[j - first.len()]);
        }
    }
}

/// Two pairs of sequences, the first pair with keys below `mid` and the
/// second with keys from `mid` on, each pair with keys apart, have keys
/// apart when put end to end.
proof fn lemma_keys_apart_of_concatenation<A, B>(
    left_first: Seq<A>,
    left_second: Seq<A>,
    left_key: spec_fn(A) -> int,
    right_first: Seq<B>,
    right_second: Seq<B>,
    right_key: spec_fn(B) -> int,
    low: int,
    mid: int,
    high: int,
)
    requires
        keys_within(left_first, left_key, low, mid),
        keys_within(right_first, right_key, low, mid),
        keys_within(left_second, left_key, mid, high),
        keys_within(right_second, right_key, mid, high),
        keys_apart(left_first, left_key, right_first, right_key),
        keys_apart(left_second, left_key, right_second, right_key),
    ensures
        keys_apart(left_first + left_second, left_key, right_first + right_second, right_key),
{
    let left = left_first + left_second;
    let right = right_first + right_second;
    assert forall|i: int, j: int|
        0 <= i < left.len() && 0 <= j < right.len() implies #[trigger] left_key(left[i])
        != #[trigger] right_key(right[j]) by {
        if i < left_first.len() {
            assert(left[i] == left_first[i]);
        } else {
            assert(left[i] == left_second[i - left_first.len()]);
        }
        if j < right_first.len() {
            assert(right[j] == right_first[j]);
        } else {
            assert(right[j] == right_second[j - right_first.len()]);
        }
    }
}

/// The identifier of a namespace row.
pub open spec fn namespace_key() -> spec_fn(NamespaceRowModel) -> int {
    |row: NamespaceRowModel| row.oid
}

/// The identifier of a class row.
pub open spec fn class_key() -> spec_fn(ClassRowModel) -> int {
    |row: ClassRowModel| row.oid
}

/// The namespace rows of a run of schemas have identifiers from `base` up
/// to what the schemas take, in increasing order.
proof fn lemma_schema_namespace_rows_sorted(schemas: Seq<SchemaModel>, base: int)
    ensures
        keys_within(
            schema_namespace_rows(schemas, base),
            namespace_key(),
            base,
            base + schemas_span(schemas),
        ),
        keys_increase(schema_namespace_rows(schemas, base), namespace_key()),
    decreases schemas.len(),
{
    if schemas.len() > 0 {
        let mid = base + schemas_span(schemas.drop_last());
        let before = schema_namespace_rows(schemas.drop_last(), base);
        lemma_schema_namespace_rows_sorted(schemas.drop_last(), base);
        if !is_system_namespace(schemas.last().name) {
            let row = namespace_row(mid, schemas.last().name);
            let one = seq![row];
            assert(namespace_key()(one[0]) == mid);
            lemma_keys_of_concatenation(
                before,
                one,
                namespace_key(),
                base,
                mid,
                base + schemas_span(schemas),
            );
            assert(before + one == before.push(row));
        }
    }
}

/// The namespace rows of a run of catalogs have identifiers from `base` up
/// to what the catalogs take, in increasing order.
proof fn lemma_catalog_namespace_rows_sorted(catalogs: Seq<CatalogModel>, base: int)
    ensures
        keys_within(
            catalog_namespace_rows(catalogs, base),
            namespace_key(),
            base,
            base + catalogs_span(catalogs),
        ),
        keys_increase(catalog_namespace_rows(catalogs, base), namespace_key()),
    decreases catalogs.len(),
{
    if catalogs.len() > 0 {
        let mid = base + catalogs_span(catalogs.drop_last());
        lemma_catalog_namespace_rows_sorted(catalogs.drop_last(), base);
        lemma_schema_namespace_rows_sorted(catalogs.last().schemas, mid);
        lemma_keys_of_concatenation(
            catalog_namespace_rows(catalogs.drop_last(), base),
            schema_namespace_rows(catalogs.last().schemas, mid),
            namespace_key(),
            base,
            mid,
            base + catalogs_span(catalogs),
        );
    }
}

/// The class rows of one schema's tables have the identifiers from `first`
/// on, one after the other.
proof fn lemma_table_class_rows_sorted(tables: Seq<TableModel>, first: int, namespace_oid: int)
    ensures
        keys_within(
            table_class_rows(tables, first, namespace_oid),
            class_key(),
            first,
            first + tables.len(),
        ),
        keys_increase(table_class_rows(tables, first, namespace_oid), class_key()),
{
    let rows = table_class_rows(tables, first, namespace_oid);
    assert forall|i: int| 0 <= i < rows.len() implies #[trigger] class_key()(rows[i]) == first
        + i by {}
}

/// The class rows of a run of schemas have identifiers from `base` up to
/// what the schemas take, in increasing order.
proof fn lemma_schema_class_rows_sorted(schemas: Seq<SchemaModel>, base: int)
    ensures
        keys_within(
            schema_class_rows(schemas, base),
            class_key(),
            base,
            base + schemas_span(schemas),
        ),
        keys_increase(schema_class_rows(schemas, base), class_key()),
    decreases schemas.len(),
{
    if schemas.len() > 0 {
        let mid = base + schemas_span(schemas.drop_last());
        lemma_schema_class_rows_sorted(schemas.drop_last(), base);
        if !is_system_namespace(schemas.last().name) {
            let tables = table_class_rows(schemas.last().tables, mid + 1, mid);
            lemma_table_class_rows_sorted(schemas.last().tables, mid + 1, mid);
            assert(keys_within(tables, class_key(), mid, base + schemas_span(schemas))) by {
                assert forall|i: int| 0 <= i < tables.len() implies mid <= #[trigger] class_key()(
                    tables[i],
                ) < base + schemas_span(schemas) by {}
            }
            lemma_keys_of_concatenation(
                schema_class_rows(schemas.drop_last(), base),
                tables,
                class_key(),
                base,
                mid,
                base + schemas_span(schemas),
            );
        }
    }
}

/// The class rows of a run of catalogs have identifiers from `base` up to
/// what the catalogs take, in increasing order.
proof fn lemma_catalog_class_rows_sorted(catalogs: Seq<CatalogModel>, base: int)
    ensures
        keys_within(
            catalog_class_rows(catalogs, base),
            class_key(),
            base,
            base + catalogs_span(catalogs),
        ),
        keys_increase(catalog_class_rows(catalogs, base), class_key()),
    decreases catalogs.len(),
{
    if catalogs.len() > 0 {
        let mid = base + catalogs_span(catalogs.drop_last());
        lemma_catalog_class_rows_sorted(catalogs.drop_last(), base);
        lemma_schema_class_rows_sorted(catalogs.last().schemas, mid);
        lemma_keys_of_concatenation(
            catalog_class_rows(catalogs.drop_last(), base),
            schema_class_rows(catalogs.last().schemas, mid),
            class_key(),
            base,
            mid,
            base + catalogs_span(catalogs),
        );
    }
}

/// No schema of a run of schemas shares its identifier with a table.
proof fn lemma_schema_rows_disjoint(schemas: Seq<SchemaModel>, base: int)
    ensures
        keys_apart(
            schema_namespace_rows(schemas, base),
            namespace_key(),
            schema_class_rows(schemas, base),
            class_key(),
        ),
    decreases schemas.len(),
{
    if schemas.len() > 0 {
        let mid = base + schemas_span(schemas.drop_last());
        let high = base + schemas_span(schemas);
        lemma_schema_rows_disjoint(schemas.drop_last(), base);
        lemma_schema_namespace_rows_sorted(schemas.drop_last(), base);
        lemma_schema_class_rows_sorted(schemas.drop_last(), base);
        if !is_system_namespace(schemas.last().name) {
            let row = namespace_row(mid, schemas.last().name);
            let one = seq![row];
            let tables = table_class_rows(schemas.last().tables, mid + 1, mid);
            lemma_table_class_rows_sorted(schemas.last().tables, mid + 1, mid);
            assert(namespace_key()(one[0]) == mid);
            assert(keys_within(tables, class_key(), mid, high)) by {
                assert forall|i: int| 0 <= i < tables.len() implies mid <= #[trigger] class_key()(
                    tables[i],
                ) < high by {}
            }
            assert(keys_apart(one, namespace_key(), tables, class_key())) by {
                assert forall|i: int, j: int|
                    0 <= i < one.len() && 0 <= j < tables.len() implies #[trigger] namespace_key()(
                    one[i],
                ) != #[trigger] class_key()(tables[j]) by {
                    assert(class_key()(tables[j]) >= mid + 1);
                }
            }
            lemma_keys_apart_of_concatenation(
                schema_namespace_rows(schemas.drop_last(), base),
                one,
                namespace_key(),
                schema_class_rows(schemas.drop_last(), base),
                tables,
                class_key(),
                base,
                mid,
                high,
            );
            assert(schema_namespace_rows(schemas.drop_last(), base) + one
                == schema_namespace_rows(schemas.drop_last(), base).push(row));
        }
    }
}

/// No schema of a run of catalogs shares its identifier with a table.
proof fn lemma_catalog_rows_disjoint(catalogs: Seq<CatalogModel>, base: int)
    ensures
        keys_apart(
            catalog_namespace_rows(catalogs, base),
            namespace_key(),
            catalog_class_rows(catalogs, base),
            class_key(),
        ),
    decreases catalogs.len(),
{
    if catalogs.len() > 0 {
        let mid = base + catalogs_span(catalogs.drop_last());
        lemma_catalog_rows_disjoint(catalogs.drop_last(), base);
        lemma_catalog_namespace_rows_sorted(catalogs.drop_last(), base);
        lemma_catalog_class_rows_sorted(catalogs.drop_last(), base);
        lemma_schema_rows_disjoint(catalogs.last().schemas, mid);
        lemma_schema_namespace_rows_sorted(catalogs.last().schemas, mid);
        lemma_schema_class_rows_sorted(catalogs.last().schemas, mid);
        lemma_keys_apart_of_concatenation(
            catalog_namespace_rows(catalogs.drop_last(), base),
            schema_namespace_rows(catalogs.last().schemas, mid),
            namespace_key(),
            catalog_class_rows(catalogs.drop_last(), base),
            schema_class_rows(catalogs.last().schemas, mid),
            class_key(),
            base,
            mid,
            base + catalogs_span(catalogs),
        );
    }
}

/// The identifiers of one fetch are distinct. No two rows of the namespace
/// relation share an identifier, no two rows of the class relation do, and
/// no schema that the walk numbered shares its identifier with a table.
pub proof fn law_identifiers_are_distinct(walk: Seq<CatalogModel>)
    ensures
        forall|i: int, j: int|
            0 <= i < j < namespace_rows(walk).len() ==> (#[trigger] namespace_rows(walk)[i]).oid
                != (#[trigger] namespace_rows(walk)[j]).oid,
        forall|i: int, k: int|
            0 <= i < k < class_rows(walk).len() ==> (#[trigger] class_rows(walk)[i]).oid != (
            #[trigger] class_rows(walk)[k]).oid,
        forall|j: int, k: int|
            3 <= j < namespace_rows(walk).len() && 0 <= k < class_rows(walk).len() ==> (
            #[trigger] namespace_rows(walk)[j]).oid != (#[trigger] class_rows(walk)[k]).oid,
{
    let base = FIRST_RELATION_OID as int;
    let fixed = system_namespace_rows();
    let dynamic = catalog_namespace_rows(walk, base);
    let tables = class_rows(walk);
    lemma_catalog_namespace_rows_sorted(walk, base);
    lemma_catalog_class_rows_sorted(walk, base);
    lemma_catalog_rows_disjoint(walk, base);
    assert forall|i: int, j: int| 0 <= i < j < namespace_rows(walk).len() implies (
    #[trigger] namespace_rows(walk)[i]).oid != (#[trigger] namespace_rows(walk)[j]).oid by {
        if j >= 3 {
            assert(namespace_rows(walk)[j] == dynamic[j - 3]);
            assert(namespace_key()(dynamic[j - 3]) >= base);
            if i >= 3 {
                assert(namespace_rows(walk)[i] == dynamic[i - 3]);
                assert(namespace_key()(dynamic[i - 3]) < namespace_key()(dynamic[j - 3]));
            } else {
                assert(namespace_rows(walk)[i] == fixed[i]);
            }
        } else {
            assert(namespace_rows(walk)[i] == fixed[i]);
            assert(namespace_rows(walk)[j] == fixed[j]);
        }
    }
    assert forall|i: int, k: int| 0 <= i < k < tables.len() implies (#[trigger] tables[i]).oid != (
    #[trigger] tables[k]).oid by {
        assert(class_key()(tables[i]) < class_key()(tables[k]));
    }
    assert forall|j: int, k: int|
        3 <= j < namespace_rows(walk).len() && 0 <= k < tables.len() implies (
    #[trigger] namespace_rows(walk)[j]).oid != (#[trigger] tables[k]).oid by {
        assert(namespace_rows(walk)[j] == dynamic[j - 3]);
        assert(namespace_key()(dynamic[j - 3]) != class_key()(tables[k]));
    }
}

/// The counter of a fetch never hands out a reserved identifier: the three
/// fixed namespaces keep 11, 2200 and 12, and every schema and every table
/// that the walk numbered has an identifier from `FIRST_RELATION_OID` on,
/// below `FIRST_RELATION_OID` plus the number of schemas and tables.
pub proof fn law_reserved_identifiers_stay_reserved(walk: Seq<CatalogModel>)
    ensures
        namespace_rows(walk).len() >= 3,
        namespace_rows(walk)[0].oid == PG_CATALOG_NAMESPACE_OID,
        namespace_rows(walk)[1].oid == PUBLIC_NAMESPACE_OID,
        namespace_rows(walk)[2].oid == INFORMATION_SCHEMA_NAMESPACE_OID,
        forall|j: int|
            3 <= j < namespace_rows(walk).len() ==> FIRST_RELATION_OID <= (
            #[trigger] namespace_rows(walk)[j]).oid < FIRST_RELATION_OID + catalogs_span(walk),
        forall|k: int|
            0 <= k < class_rows(walk).len() ==> FIRST_RELATION_OID <= (#[trigger] class_rows(
                walk,
            )[k]).oid < FIRST_RELATION_OID + catalogs_span(walk),
{
    let base = FIRST_RELATION_OID as int;
    let fixed = system_namespace_rows();
    let dynamic = catalog_namespace_rows(walk, base);
    let tables = class_rows(walk);
    lemma_catalog_namespace_rows_sorted(walk, base);
    lemma_catalog_class_rows_sorted(walk, base);
    assert(namespace_rows(walk)[0] == fixed[0]);
    assert(namespace_rows(walk)[1] == fixed[1]);
    assert(namespace_rows(walk)[2] == fixed[2]);
    assert forall|j: int| 3 <= j < namespace_rows(walk).len() implies FIRST_RELATION_OID <= (
    #[trigger] namespace_rows(walk)[j]).oid < FIRST_RELATION_OID + catalogs_span(walk) by {
        assert(namespace_rows(walk)[j] == dynamic[j - 3]);
        assert(base <= namespace_key()(dynamic[j - 3]) < base + catalogs_span(walk));
    }
    assert forall|k: int| 0 <= k < tables.len() implies FIRST_RELATION_OID <= (
    #[trigger] tables[k]).oid < FIRST_RELATION_OID + catalogs_span(walk) by {
        assert(base <= class_key()(tables[k]) < base + catalogs_span(walk));
    }
}

/// The identifier of the table that an attribute row belongs to.
pub open spec fn attribute_key() -> spec_fn(AttributeRowModel) -> int {
    |row: AttributeRowModel| row.relation_oid
}

/// Whether an attribute row belongs to the table with the identifier `oid`.
pub open spec fn belongs_to(oid: int) -> spec_fn(AttributeRowModel) -> bool {
    |row: AttributeRowModel| row.relation_oid == oid
}

/// Nothing is left of rows of which none is asked for.
proof fn lemma_filter_keeps_none<A>(rows: Seq<A>, wanted: spec_fn(A) -> bool)
    requires
        forall|i: int| 0 <= i < rows.len() ==> !wanted(#[trigger] rows[i]),
    ensures
        rows.filter(wanted) == Seq::<A>::empty(),
    decreases rows.len(),
{
    reveal(Seq::filter);
    if rows.len() > 0 {
        lemma_filter_keeps_none(rows.drop_last(), wanted);
    }
}

/// All is left of rows of which each is asked for.
proof fn lemma_filter_keeps_all<A>(rows: Seq<A>, wanted: spec_fn(A) -> bool)
    requires
        forall|i: int| 0 <= i < rows.len() ==> wanted(#[trigger] rows[i]),
    ensures
        rows.filter(wanted) == rows,
    decreases rows.len(),
{
    reveal(Seq::filter);
    if rows.len() > 0 {
        lemma_filter_keeps_all(rows.drop_last(), wanted);
        assert(rows.drop_last().push(rows.last()) == rows);
    }
}

/// Rows whose keys lie in a range hold no row of a table outside it.
proof fn lemma_filter_outside_range(rows: Seq<AttributeRowModel>, low: int, high: int, oid: int)
    requires
        keys_within(rows, attribute_key(), low, high),
        oid < low || high <= oid,
    ensures
        rows.filter(belongs_to(oid)) == Seq::<AttributeRowModel>::empty(),
{
    assert forall|i: int| 0 <= i < rows.len() implies !belongs_to(oid)(#[trigger] rows[i]) by {
        assert(low <= attribute_key()(rows[i]) < high);
    }
    lemma_filter_keeps_none(rows, belongs_to(oid));
}

/// The attribute rows of one schema's tables belong to tables with the
/// identifiers from `first` on.
proof fn lemma_tables_attribute_rows_within(tables: Seq<TableModel>, first: int)
    ensures
        keys_within(
            tables_attribute_rows(tables, first),
            attribute_key(),
            first,
            first + tables.len(),
        ),
    decreases tables.len(),
{
    if tables.len() > 0 {
        let before = tables_attribute_rows(tables.drop_last(), first);
        let last = table_attribute_rows(tables.last(), first + tables.len() - 1);
        let all = before + last;
        lemma_tables_attribute_rows_within(tables.drop_last(), first);
        assert forall|i: int| 0 <= i < all.len() implies first <= #[trigger] attribute_key()(all[i])
            < first + tables.len() by {
            if i < before.len() {
                assert(all[i] == before[i]);
                assert(first <= attribute_key()(before[i]) < first + tables.len() - 1);
            } else {
                assert(all[i] == last[i - before.len()]);
            }
        }
    }
}

/// The attribute rows of a run of schemas belong to tables with
/// identifiers from `base` up to what the schemas take.
proof fn lemma_schema_attribute_rows_within(schemas: Seq<SchemaModel>, base: int)
    ensures
        keys_within(
            schema_attribute_rows(schemas, base),
            attribute_key(),
            base,
            base + schemas_span(schemas),
        ),
    decreases schemas.len(),
{
    if schemas.len() > 0 {
        let mid = base + schemas_span(schemas.drop_last());
        let before = schema_attribute_rows(schemas.drop_last(), base);
        lemma_schema_attribute_rows_within(schemas.drop_last(), base);
        if !is_system_namespace(schemas.last().name) {
            let last = tables_attribute_rows(schemas.last().tables, mid + 1);
            let all = before + last;
            lemma_tables_attribute_rows_within(schemas.last().tables, mid + 1);
            assert forall|i: int| 0 <= i < all.len() implies base <= #[trigger] attribute_key()(
                all[i],
            ) < base + schemas_span(schemas) by {
                if i < before.len() {
                    assert(all[i] == before[i]);
                    assert(base <= attribute_key()(before[i]) < mid);
                } else {
                    assert(all[i] == last[i - before.len()]);
                    assert(mid + 1 <= attribute_key()(last[i - before.len()]) < mid + 1
                        + schemas.last().tables.len());
                }
            }
        }
    }
}

/// The attribute rows of a run of catalogs belong to tables with
/// identifiers from `base` up to what the catalogs take.
proof fn lemma_catalog_attribute_rows_within(catalogs: Seq<CatalogModel>, base: int)
    ensures
        keys_within(
            catalog_attribute_rows(catalogs, base),
            attribute_key(),
            base,
            base + catalogs_span(catalogs),
        ),
    decreases catalogs.len(),
{
    if catalogs.len() > 0 {
        let mid = base + catalogs_span(catalogs.drop_last());
        let before = catalog_attribute_rows(catalogs.drop_last(), base);
        let last = schema_attribute_rows(catalogs.last().schemas, mid);
        let all = before + last;
        lemma_catalog_attribute_rows_within(catalogs.drop_last(), base);
        lemma_schema_attribute_rows_within(catalogs.last().schemas, mid);
        assert forall|i: int| 0 <= i < all.len() implies base <= #[trigger] attribute_key()(all[i])
            < base + catalogs_span(catalogs) by {
            if i < before.len() {
                assert(all[i] == before[i]);
                assert(base <= attribute_key()(before[i]) < mid);
            } else {
                assert(all[i] == last[i - before.len()]);
                assert(mid <= attribute_key()(last[i - before.len()]) < mid + schemas_span(
                    catalogs.last().schemas,
                ));
            }
        }
    }
}

/// Among the attribute rows of one schema's tables, those of table `t` are
/// the rows of its columns.
proof fn lemma_tables_attribute_rows_of_table(tables: Seq<TableModel>, first: int, t: int)
    requires
        0 <= t < tables.len(),
    ensures
        tables_attribute_rows(tables, first).filter(belongs_to(first + t)) == table_attribute_rows(
            tables[t],
            first + t,
        ),
    decreases tables.len(),
{
    let wanted = belongs_to(first + t);
    let before = tables_attribute_rows(tables.drop_last(), first);
    let last_oid = first + tables.len() - 1;
    let last = table_attribute_rows(tables.last(), last_oid);
    Seq::filter_distributes_over_add(before, last, wanted);
    if t == tables.len() - 1 {
        lemma_tables_attribute_rows_within(tables.drop_last(), first);
        lemma_filter_outside_range(before, first, last_oid, first + t);
        assert forall|i: int| 0 <= i < last.len() implies wanted(#[trigger] last[i]) by {}
        lemma_filter_keeps_all(last, wanted);
        assert(Seq::<AttributeRowModel>::empty() + last == last);
    } else {
        lemma_tables_attribute_rows_of_table(tables.drop_last(), first, t);
        assert forall|i: int| 0 <= i < last.len() implies !wanted(#[trigger] last[i]) by {}
        lemma_filter_keeps_none(last, wanted);
        assert(before.filter(wanted) + Seq::<AttributeRowModel>::empty() == before.filter(wanted));
    }
}

/// Among the attribute rows of a run of schemas, those of table `t` of
/// schema `s` are the rows of its columns.
proof fn lemma_schema_attribute_rows_of_table(schemas: Seq<SchemaModel>, base: int, s: int, t: int)
    requires
        0 <= s < schemas.len(),
        !is_system_namespace(schemas[s].name),
        0 <= t < schemas[s].tables.len(),
    ensures
        schema_attribute_rows(schemas, base).filter(
            belongs_to(base + schemas_span(schemas.take(s)) + 1 + t),
        ) == table_attribute_rows(
            schemas[s].tables[t],
            base + schemas_span(schemas.take(s)) + 1 + t,
        ),
    decreases schemas.len(),
{
    let oid = base + schemas_span(schemas.take(s)) + 1 + t;
    let wanted = belongs_to(oid);
    let mid = base + schemas_span(schemas.drop_last());
    let before = schema_attribute_rows(schemas.drop_last(), base);
    let empty = Seq::<AttributeRowModel>::empty();
    if s == schemas.len() - 1 {
        let last = tables_attribute_rows(schemas.last().tables, mid + 1);
        assert(schemas.take(s) == schemas.drop_last());
        Seq::filter_distributes_over_add(before, last, wanted);
        lemma_schema_attribute_rows_within(schemas.drop_last(), base);
        lemma_filter_outside_range(before, base, mid, oid);
        lemma_tables_attribute_rows_of_table(schemas.last().tables, mid + 1, t);
        assert(empty + last.filter(wanted) == last.filter(wanted));
    } else {
        assert(schemas.drop_last().take(s) == schemas.take(s));
        lemma_schema_attribute_rows_of_table(schemas.drop_last(), base, s, t);
        crate::catalog::lemma_schemas_span_prefix(schemas.drop_last(), s);
        crate::catalog::lemma_schemas_span_prefix(schemas.drop_last(), s + 1);
        assert(oid < mid);
        if !is_system_namespace(schemas.last().name) {
            let last = tables_attribute_rows(schemas.last().tables, mid + 1);
            Seq::filter_distributes_over_add(before, last, wanted);
            lemma_tables_attribute_rows_within(schemas.last().tables, mid + 1);
            lemma_filter_outside_range(
                last,
                mid + 1,
                mid + 1 + schemas.last().tables.len(),
                oid,
            );
            assert(before.filter(wanted) + empty == before.filter(wanted));
        }
    }
}

/// Among the attribute rows of a run of catalogs, those of table `t` of
/// schema `s` of catalog `c` are the rows of its columns.
proof fn lemma_catalog_attribute_rows_of_table(
    catalogs: Seq<CatalogModel>,
    base: int,
    c: int,
    s: int,
    t: int,
)
    requires
        is_table_place(catalogs, c, s, t),
    ensures
        catalog_attribute_rows(catalogs, base).filter(
            belongs_to(
                base + catalogs_span(catalogs.take(c)) + schemas_span(
                    catalogs[c].schemas.take(s),
                ) + 1 + t,
            ),
        ) == table_attribute_rows(
            catalogs[c].schemas[s].tables[t],
            base + catalogs_span(catalogs.take(c)) + schemas_span(catalogs[c].schemas.take(s))
                + 1 + t,
        ),
    decreases catalogs.len(),
{
    let schemas = catalogs[c].schemas;
    let oid = base + catalogs_span(catalogs.take(c)) + schemas_span(schemas.take(s)) + 1 + t;
    let wanted = belongs_to(oid);
    let mid = base + catalogs_span(catalogs.drop_last());
    let before = catalog_attribute_rows(catalogs.drop_last(), base);
    let last = schema_attribute_rows(catalogs.last().schemas, mid);
    let empty = Seq::<AttributeRowModel>::empty();
    Seq::filter_distributes_over_add(before, last, wanted);
    crate::catalog::lemma_schemas_span_prefix(schemas, s);
    crate::catalog::lemma_schemas_span_prefix(schemas, s + 1);
    if c == catalogs.len() - 1 {
        assert(catalogs.take(c) == catalogs.drop_last());
        lemma_catalog_attribute_rows_within(catalogs.drop_last(), base);
        lemma_filter_outside_range(before, base, mid, oid);
        lemma_schema_attribute_rows_of_table(schemas, mid, s, t);
        assert(empty + last.filter(wanted) == last.filter(wanted));
    } else {
        assert(catalogs.drop_last().take(c) == catalogs.take(c));
        lemma_catalog_attribute_rows_of_table(catalogs.drop_last(), base, c, s, t);
        crate::catalog::lemma_catalogs_span_prefix(catalogs.drop_last(), c);
        crate::catalog::lemma_catalogs_span_prefix(catalogs.drop_last(), c + 1);
        assert(oid < mid);
        lemma_schema_attribute_rows_within(catalogs.last().schemas, mid);
        lemma_filter_outside_range(
            last,
            mid,
            mid + schemas_span(catalogs.last().schemas),
            oid,
        );
        assert(before.filter(wanted) + empty == before.filter(wanted));
    }
}

/// A table with N columns has exactly N rows in the attribute relation:
/// the rows that carry the table's identifier are the rows of its columns
/// in their declared order, and the row of the column at place `n`, counted
/// from zero, has the attribute number `n + 1`. So the numbers are 1 to N,
/// each used once.
pub proof fn law_columns_are_complete(walk: Seq<CatalogModel>, c: int, s: int, t: int)
    requires
        is_table_place(walk, c, s, t),
    ensures
        ({
            let table = walk[c].schemas[s].tables[t];
            let rows = attribute_rows(walk).filter(belongs_to(table_oid(walk, c, s, t)));
            &&& rows == table_attribute_rows(table, table_oid(walk, c, s, t))
            &&& rows.len() == table.columns.len()
            &&& forall|n: int|
                0 <= n < rows.len() ==> (#[trigger] rows[n]).attribute_number == n + 1
                    && rows[n].name == table.columns[n].name
        }),
{
    lemma_catalog_attribute_rows_of_table(walk, FIRST_RELATION_OID as int, c, s, t);
}

} // verus!

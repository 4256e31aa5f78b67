use pg_catalog::catalog::{CatalogEntry, CatalogWalk, Column, SchemaEntry, TableEntry};
use pg_catalog::error::{LookupFailure, PgCatalogError};
use pg_catalog::pg_attribute::{AttributeRow, PgAttributeTable};
use pg_catalog::pg_class::{ClassRow, PgClassTable, RelationKind};
use pg_catalog::pg_database::{DatabaseRow, PgDatabaseTable};
use pg_catalog::pg_namespace::{NamespaceRow, PgNamespaceTable};
use pg_catalog::relation::{ColumnType, Field, Relation, Value};
use pg_catalog::types::{Alignment, NativeType, ScalarType, Storage};
use pg_catalog::walker::{CatalogWalker, Lookup, Phase, Reply, WalkOutcome};

fn column(name: &str, data_type: NativeType, nullable: bool) -> Column {
    Column { name: name.to_string(), data_type, nullable }
}

fn table(name: &str, columns: Vec<Column>) -> TableEntry {
    TableEntry { name: name.to_string(), columns }
}

fn schema(name: &str, tables: Vec<TableEntry>) -> SchemaEntry {
    SchemaEntry { name: name.to_string(), tables }
}

fn catalog(name: &str, schemas: Vec<SchemaEntry>) -> CatalogEntry {
    CatalogEntry { name: name.to_string(), schemas }
}

fn int4() -> NativeType {
    NativeType::Scalar(ScalarType::Int32)
}

fn text() -> NativeType {
    NativeType::Scalar(ScalarType::LargeUtf8)
}

fn names<T>(items: &[T], name: fn(&T) -> &String) -> Vec<String> {
    items.iter().map(|item| name(item).clone()).collect()
}

/// Answers a lookup from a catalog that stays as it is.
fn answer(catalogs: &[CatalogEntry], lookup: &Lookup) -> Reply {
    let find_catalog = |c: &String| catalogs.iter().find(|x| &x.name == c);
    match lookup {
        Lookup::CatalogNames => Reply::Names(names(catalogs, |c| &c.name)),
        Lookup::SchemaNames { catalog } => match find_catalog(catalog) {
            Some(c) => Reply::Names(names(&c.schemas, |s| &s.name)),
            None => Reply::Missing,
        },
        Lookup::TableNames { catalog, schema } => {
            match find_catalog(catalog).and_then(|c| c.schemas.iter().find(|s| &s.name == schema)) {
                Some(s) => Reply::Names(names(&s.tables, |t| &t.name)),
                None => Reply::Missing,
            }
        }
        Lookup::Columns { catalog, schema, table } => {
            match find_catalog(catalog)
                .and_then(|c| c.schemas.iter().find(|s| &s.name == schema))
                .and_then(|s| s.tables.iter().find(|t| &t.name == table))
            {
                Some(t) => Reply::Columns(t.columns.clone()),
                None => Reply::Missing,
            }
        }
    }
}

/// Walks the catalog and returns the outcome with the lookups made.
fn walk(catalogs: &[CatalogEntry]) -> (WalkOutcome, Vec<Lookup>) {
    let mut walker = CatalogWalker::new();
    let mut asked = Vec::new();
    while let Some(lookup) = walker.lookup() {
        let reply = answer(catalogs, &lookup);
        asked.push(lookup);
        walker = walker.supply(reply);
    }
    (walker.finish(), asked)
}

fn walked(catalogs: &[CatalogEntry]) -> CatalogWalk {
    match walk(catalogs).0 {
        WalkOutcome::Complete(found) => CatalogWalk::new(found).unwrap(),
        other => panic!("the walk did not complete: {:?}", other),
    }
}

fn namespace(oid: i32, name: &str) -> NamespaceRow {
    NamespaceRow { oid, name: name.to_string(), owner: 10 }
}

fn fixed_namespaces() -> Vec<NamespaceRow> {
    vec![namespace(11, "pg_catalog"), namespace(2200, "public"), namespace(12, "information_schema")]
}

fn one_table_catalog() -> Vec<CatalogEntry> {
    vec![catalog(
        "c1",
        vec![schema(
            "s1",
            vec![table("t1", vec![column("a", int4(), false), column("b", text(), false)])],
        )],
    )]
}

fn two_catalogs() -> Vec<CatalogEntry> {
    vec![
        catalog(
            "first",
            vec![
                schema("empty", vec![]),
                schema(
                    "sales",
                    vec![
                        table("orders", vec![column("id", int4(), false)]),
                        table(
                            "lines",
                            vec![
                                column("order_id", int4(), false),
                                column("note", text(), true),
                                column("tags", NativeType::List(ScalarType::Utf8), true),
                            ],
                        ),
                    ],
                ),
            ],
        ),
        catalog("hollow", vec![]),
        catalog(
            "second",
            vec![schema("stock", vec![table("items", vec![]), table("bins", vec![column("n", int4(), true)])])],
        ),
    ]
}

#[test]
fn end_to_end_one_table() {
    let walk = walked(&one_table_catalog());

    let namespaces = PgNamespaceTable::rows(&walk);
    let mut expected = fixed_namespaces();
    expected.push(namespace(10000, "s1"));
    assert_eq!(namespaces, expected);
    let x = namespaces[3].oid;
    assert!(x >= 10000);

    let classes = PgClassTable::rows(&walk);
    assert_eq!(
        classes,
        vec![ClassRow {
            oid: 10001,
            name: "t1".to_string(),
            namespace_oid: x,
            kind: RelationKind::OrdinaryTable,
            attribute_count: 2,
        }]
    );
    assert_eq!(classes[0].kind.code(), "r");

    let attributes = PgAttributeTable::rows(&walk);
    assert_eq!(
        attributes,
        vec![
            AttributeRow {
                relation_oid: classes[0].oid,
                name: "a".to_string(),
                type_oid: pgwire::api::Type::INT4.oid() as i32,
                byte_length: 4,
                attribute_number: 1,
                dimensions: 0,
                pass_by_value: true,
                alignment: Alignment::Int,
                storage: Storage::Plain,
                not_null: true,
            },
            AttributeRow {
                relation_oid: classes[0].oid,
                name: "b".to_string(),
                type_oid: pgwire::api::Type::TEXT.oid() as i32,
                byte_length: -1,
                attribute_number: 2,
                dimensions: 0,
                pass_by_value: false,
                alignment: Alignment::Int,
                storage: Storage::Extended,
                not_null: true,
            },
        ]
    );
    assert_eq!(attributes[0].type_oid, 23);
    assert_eq!(attributes[1].type_oid, 25);
}

#[test]
fn lookups_follow_the_order_of_the_catalog() {
    let (outcome, asked) = walk(&two_catalogs());
    let s = |x: &str| x.to_string();
    assert_eq!(
        asked,
        vec![
            Lookup::CatalogNames,
            Lookup::SchemaNames { catalog: s("first") },
            Lookup::TableNames { catalog: s("first"), schema: s("empty") },
            Lookup::TableNames { catalog: s("first"), schema: s("sales") },
            Lookup::Columns { catalog: s("first"), schema: s("sales"), table: s("orders") },
            Lookup::Columns { catalog: s("first"), schema: s("sales"), table: s("lines") },
            Lookup::SchemaNames { catalog: s("hollow") },
            Lookup::SchemaNames { catalog: s("second") },
            Lookup::TableNames { catalog: s("second"), schema: s("stock") },
            Lookup::Columns { catalog: s("second"), schema: s("stock"), table: s("items") },
            Lookup::Columns { catalog: s("second"), schema: s("stock"), table: s("bins") },
        ]
    );
    assert_eq!(outcome, WalkOutcome::Complete(two_catalogs()));
}

#[test]
fn schemas_and_tables_share_one_counter() {
    let walk = walked(&two_catalogs());
    let mut expected = fixed_namespaces();
    expected.push(namespace(10000, "empty"));
    expected.push(namespace(10001, "sales"));
    expected.push(namespace(10004, "stock"));
    assert_eq!(PgNamespaceTable::rows(&walk), expected);

    let class = |oid: i32, name: &str, namespace_oid: i32, attribute_count: i16| ClassRow {
        oid,
        name: name.to_string(),
        namespace_oid,
        kind: RelationKind::OrdinaryTable,
        attribute_count,
    };
    assert_eq!(
        PgClassTable::rows(&walk),
        vec![
            class(10002, "orders", 10001, 1),
            class(10003, "lines", 10001, 3),
            class(10005, "items", 10004, 0),
            class(10006, "bins", 10004, 1),
        ]
    );
}

#[test]
fn class_rows_refer_to_namespace_rows() {
    let catalogs = two_catalogs();
    let walk = walked(&catalogs);
    let namespaces = PgNamespaceTable::rows(&walk);
    let classes = PgClassTable::rows(&walk);
    let schema_of = |table: &str| -> String {
        catalogs
            .iter()
            .flat_map(|c| c.schemas.iter())
            .find(|s| s.tables.iter().any(|t| t.name == table))
            .unwrap()
            .name
            .clone()
    };
    assert_eq!(classes.len(), 4);
    for class in &classes {
        let found: Vec<&NamespaceRow> =
            namespaces.iter().filter(|n| n.oid == class.namespace_oid).collect();
        assert_eq!(found.len(), 1);
        assert_eq!(found[0].name, schema_of(&class.name));
    }
}

#[test]
fn identifiers_of_one_fetch_are_distinct() {
    let walk = walked(&two_catalogs());
    let mut oids: Vec<i32> = PgNamespaceTable::rows(&walk).iter().map(|n| n.oid).collect();
    oids.extend(PgClassTable::rows(&walk).iter().map(|c| c.oid));
    let mut sorted = oids.clone();
    sorted.sort();
    sorted.dedup();
    assert_eq!(sorted.len(), oids.len());
    for oid in &oids[3..] {
        assert!(*oid >= 10000);
        assert!(![11, 12, 2200].contains(oid));
    }
}

#[test]
fn every_column_has_its_number() {
    let walk = walked(&two_catalogs());
    let attributes = PgAttributeTable::rows(&walk);
    let of = |oid: i32| -> Vec<(String, i16)> {
        attributes
            .iter()
            .filter(|a| a.relation_oid == oid)
            .map(|a| (a.name.clone(), a.attribute_number))
            .collect()
    };
    let s = |x: &str| x.to_string();
    assert_eq!(of(10002), vec![(s("id"), 1)]);
    assert_eq!(of(10003), vec![(s("order_id"), 1), (s("note"), 2), (s("tags"), 3)]);
    assert_eq!(of(10005), vec![]);
    assert_eq!(of(10006), vec![(s("n"), 1)]);
    assert_eq!(attributes.len(), 5);
}

#[test]
fn attribute_rows_describe_the_columns() {
    let walk = walked(&two_catalogs());
    let attributes = PgAttributeTable::rows(&walk);
    let note = &attributes[2];
    assert_eq!(note.name, "note");
    assert!(!note.not_null);
    assert_eq!(note.dimensions, 0);
    let tags = &attributes[3];
    assert_eq!(tags.name, "tags");
    assert_eq!(tags.type_oid, 1015);
    assert_eq!(tags.dimensions, 1);
    assert!(!tags.not_null);
    assert_eq!(tags.byte_length, -1);
    assert!(!tags.pass_by_value);
    assert_eq!(tags.storage, Storage::Plain);
    assert_eq!(attributes[0].name, "id");
    assert!(attributes[0].not_null);
}

#[test]
fn small_integer_columns_have_integer_alignment() {
    let native = |s: ScalarType| NativeType::Scalar(s);
    let catalogs = vec![catalog(
        "c",
        vec![schema(
            "s",
            vec![table(
                "t",
                vec![
                    column("tiny", native(ScalarType::Int8), false),
                    column("small", native(ScalarType::Int16), false),
                    column("plain", native(ScalarType::Int32), false),
                    column("real", native(ScalarType::Float32), false),
                    column("utiny", native(ScalarType::UInt8), true),
                    column("usmall", native(ScalarType::UInt16), true),
                    column("flag", native(ScalarType::Boolean), true),
                    column("big", native(ScalarType::Int64), true),
                ],
            )],
        )],
    )];
    let walk = walked(&catalogs);
    let described: Vec<(String, i16, bool, &str, &str)> = PgAttributeTable::rows(&walk)
        .iter()
        .map(|a| {
            (a.name.clone(), a.byte_length, a.pass_by_value, a.alignment.code(), a.storage.code())
        })
        .collect();
    let s = |x: &str| x.to_string();
    assert_eq!(
        described,
        vec![
            (s("tiny"), 1, true, "i", "p"),
            (s("small"), 2, true, "i", "p"),
            (s("plain"), 4, true, "i", "p"),
            (s("real"), 4, true, "i", "p"),
            (s("utiny"), 1, true, "i", "p"),
            (s("usmall"), 2, true, "i", "p"),
            (s("flag"), 1, true, "c", "p"),
            (s("big"), 8, true, "d", "p"),
        ]
    );
    let relation = PgAttributeTable::get_data(&walk);
    for (row, length) in relation.rows().iter().take(4).zip([1i16, 2, 4, 4]) {
        assert_eq!(row[3], Value::Int16(length));
        assert_eq!(row[8], Value::Boolean(true));
        assert_eq!(row[9], Value::Text("i".to_string()));
        assert_eq!(row[10], Value::Text("p".to_string()));
    }
}

#[test]
fn two_walks_of_one_catalog_agree() {
    let catalogs = two_catalogs();
    let (first, first_asked) = walk(&catalogs);
    let (second, second_asked) = walk(&catalogs);
    assert_eq!(first, second);
    assert_eq!(first_asked, second_asked);
    let first = walked(&catalogs);
    let second = walked(&catalogs);
    assert_eq!(PgNamespaceTable::rows(&first), PgNamespaceTable::rows(&second));
    assert_eq!(PgClassTable::rows(&first), PgClassTable::rows(&second));
    assert_eq!(PgAttributeTable::rows(&first), PgAttributeTable::rows(&second));
    assert_eq!(
        PgClassTable::get_data(&first).rows(),
        PgClassTable::get_data(&second).rows()
    );
}

#[test]
fn system_schemas_are_passed_over() {
    let catalogs = vec![catalog(
        "datafusion",
        vec![
            schema("pg_catalog", vec![table("pg_class", vec![])]),
            schema("public", vec![table("hidden", vec![column("x", int4(), false)])]),
            schema("app", vec![table("seen", vec![column("y", int4(), false)])]),
            schema("information_schema", vec![table("tables", vec![])]),
        ],
    )];
    let (outcome, asked) = walk(&catalogs);
    let s = |x: &str| x.to_string();
    assert_eq!(
        asked,
        vec![
            Lookup::CatalogNames,
            Lookup::SchemaNames { catalog: s("datafusion") },
            Lookup::TableNames { catalog: s("datafusion"), schema: s("app") },
            Lookup::Columns { catalog: s("datafusion"), schema: s("app"), table: s("seen") },
        ]
    );
    let found = match outcome {
        WalkOutcome::Complete(found) => found,
        other => panic!("{:?}", other),
    };
    assert_eq!(
        found,
        vec![catalog(
            "datafusion",
            vec![schema("app", vec![table("seen", vec![column("y", int4(), false)])])]
        )]
    );

    // A walk that was put together by hand is treated alike.
    for walk in [CatalogWalk::new(found).unwrap(), CatalogWalk::new(catalogs).unwrap()] {
        let mut expected = fixed_namespaces();
        expected.push(namespace(10000, "app"));
        assert_eq!(PgNamespaceTable::rows(&walk), expected);
        let classes = PgClassTable::rows(&walk);
        assert_eq!(classes.len(), 1);
        assert_eq!((classes[0].oid, classes[0].name.as_str(), classes[0].namespace_oid), (10001, "seen", 10000));
        let attributes = PgAttributeTable::rows(&walk);
        assert_eq!(attributes.len(), 1);
        assert_eq!((attributes[0].relation_oid, attributes[0].name.as_str()), (10001, "y"));
    }
}

#[test]
fn an_empty_catalog_list_has_the_fixed_namespaces_only() {
    let (outcome, asked) = walk(&[]);
    assert_eq!(asked, vec![Lookup::CatalogNames]);
    assert_eq!(outcome, WalkOutcome::Complete(vec![]));
    let walk = walked(&[]);
    assert_eq!(PgNamespaceTable::rows(&walk), fixed_namespaces());
    assert_eq!(PgClassTable::rows(&walk), vec![]);
    assert_eq!(PgAttributeTable::rows(&walk), vec![]);
    assert_eq!(PgNamespaceTable::get_data(&walk).num_rows(), 3);
    assert_eq!(PgClassTable::get_data(&walk).num_rows(), 0);
}

#[test]
fn a_vanished_table_fails_the_walk() {
    let catalogs = one_table_catalog();
    let mut walker = CatalogWalker::new();
    loop {
        let lookup = walker.lookup().unwrap();
        if let Lookup::Columns { .. } = lookup {
            break;
        }
        walker = walker.supply(answer(&catalogs, &lookup));
    }
    assert_eq!(walker.phase(), Phase::Columns);
    walker = walker.supply(Reply::Missing);
    assert_eq!(walker.phase(), Phase::Failed);
    assert_eq!(walker.lookup(), None);
    // A failed walk takes no reply.
    walker = walker.supply(Reply::Columns(vec![]));
    assert_eq!(walker.phase(), Phase::Failed);
    let error = PgCatalogError::CatalogLookup {
        catalog: Some("c1".to_string()),
        schema: Some("s1".to_string()),
        table: Some("t1".to_string()),
        failure: LookupFailure::Vanished,
    };
    assert_eq!(error.message(), "Lookup of a table failed: t1");
    assert_eq!(walker.finish(), WalkOutcome::Failed(error));
}

#[test]
fn a_vanished_schema_fails_the_walk() {
    let catalogs = one_table_catalog();
    let mut walker = CatalogWalker::new();
    walker = walker.supply(answer(&catalogs, &Lookup::CatalogNames));
    walker = walker.supply(Reply::Names(vec!["s1".to_string()]));
    assert_eq!(
        walker.lookup(),
        Some(Lookup::TableNames { catalog: "c1".to_string(), schema: "s1".to_string() })
    );
    walker = walker.supply(Reply::Missing);
    let error = PgCatalogError::CatalogLookup {
        catalog: Some("c1".to_string()),
        schema: Some("s1".to_string()),
        table: None,
        failure: LookupFailure::Vanished,
    };
    assert_eq!(error.message(), "Lookup of a schema failed: s1");
    assert_eq!(walker.finish(), WalkOutcome::Failed(error));
}

#[test]
fn a_vanished_catalog_fails_the_walk() {
    let mut walker = CatalogWalker::new();
    walker = walker.supply(Reply::Names(vec!["gone".to_string(), "other".to_string()]));
    assert_eq!(walker.lookup(), Some(Lookup::SchemaNames { catalog: "gone".to_string() }));
    walker = walker.supply(Reply::Missing);
    let error = PgCatalogError::CatalogLookup {
        catalog: Some("gone".to_string()),
        schema: None,
        table: None,
        failure: LookupFailure::Vanished,
    };
    assert_eq!(error.message(), "Lookup of a catalog failed: gone");
    assert_eq!(walker.finish(), WalkOutcome::Failed(error));
}

#[test]
fn an_error_of_the_catalog_fails_the_walk() {
    let mut walker = CatalogWalker::new();
    walker = walker.supply(Reply::Failed("no connection".to_string()));
    let error = PgCatalogError::CatalogLookup {
        catalog: None,
        schema: None,
        table: None,
        failure: LookupFailure::Failed("no connection".to_string()),
    };
    assert_eq!(error.message(), "Lookup of the catalogs failed");
    assert_eq!(walker.finish(), WalkOutcome::Failed(error));
}

#[test]
fn a_reply_of_the_wrong_kind_fails_the_walk() {
    let mut walker = CatalogWalker::new();
    walker = walker.supply(Reply::Columns(vec![]));
    assert_eq!(
        walker.finish(),
        WalkOutcome::Failed(PgCatalogError::CatalogLookup {
            catalog: None,
            schema: None,
            table: None,
            failure: LookupFailure::Unexpected,
        })
    );

    let catalogs = one_table_catalog();
    let mut walker = CatalogWalker::new();
    loop {
        let lookup = walker.lookup().unwrap();
        if let Lookup::Columns { .. } = lookup {
            break;
        }
        walker = walker.supply(answer(&catalogs, &lookup));
    }
    walker = walker.supply(Reply::Names(vec![]));
    assert_eq!(walker.phase(), Phase::Failed);
}

#[test]
fn a_walk_given_up_hands_out_nothing() {
    let catalogs = one_table_catalog();
    assert_eq!(CatalogWalker::new().finish(), WalkOutcome::Abandoned);
    let mut walker = CatalogWalker::new();
    walker = walker.supply(answer(&catalogs, &Lookup::CatalogNames));
    walker = walker.supply(Reply::Names(vec!["s1".to_string()]));
    assert_eq!(walker.finish(), WalkOutcome::Abandoned);
}

#[test]
fn a_finished_walk_takes_no_reply() {
    let catalogs = one_table_catalog();
    let mut walker = CatalogWalker::new();
    while let Some(lookup) = walker.lookup() {
        walker = walker.supply(answer(&catalogs, &lookup));
    }
    assert_eq!(walker.phase(), Phase::Finished);
    walker = walker.supply(Reply::Missing);
    assert_eq!(walker.phase(), Phase::Finished);
    assert_eq!(walker.finish(), WalkOutcome::Complete(catalogs));
}

#[test]
fn a_walk_must_fit_its_fields() {
    let many = |n: usize| -> Vec<CatalogEntry> {
        let columns = (0..n).map(|i| column(&format!("c{}", i), int4(), true)).collect();
        vec![catalog("c", vec![schema("s", vec![table("wide", columns)])])]
    };
    let fits = CatalogWalk::new(many(32767)).unwrap();
    let attributes = PgAttributeTable::rows(&fits);
    assert_eq!(attributes.len(), 32767);
    assert_eq!(attributes[0].attribute_number, 1);
    assert_eq!(attributes[32766].attribute_number, 32767);
    assert_eq!(PgClassTable::rows(&fits)[0].attribute_count, 32767);
    assert!(CatalogWalk::new(many(32768)).is_none());
    assert_eq!(fits.catalogs(), &many(32767));
}

#[test]
fn the_database_relation_always_holds_postgres() {
    let database = |oid: i32, name: &str| DatabaseRow { oid, name: name.to_string() };
    assert_eq!(PgDatabaseTable::rows(&vec![]), vec![database(16384, "postgres")]);
    assert_eq!(
        PgDatabaseTable::rows(&vec!["datafusion".to_string(), "postgres".to_string()]),
        vec![database(16384, "datafusion"), database(16385, "postgres")]
    );
    assert_eq!(
        PgDatabaseTable::rows(&vec!["a".to_string(), "b".to_string()]),
        vec![database(16384, "a"), database(16385, "b"), database(16386, "postgres")]
    );
    assert_eq!(
        PgDatabaseTable::rows(&vec!["Postgres".to_string()]),
        vec![database(16384, "Postgres"), database(16385, "postgres")]
    );
}

fn text_value(s: &str) -> Value {
    Value::Text(s.to_string())
}

#[test]
fn the_database_relation_in_full() {
    let relation = PgDatabaseTable::get_data(&vec![]);
    assert_eq!(relation.fields(), PgDatabaseTable::new().schema());
    assert_eq!(relation.num_columns(), 14);
    assert_eq!(
        relation.rows(),
        &vec![vec![
            Value::Int32(16384),
            text_value("postgres"),
            Value::Int32(10),
            Value::Int32(6),
            text_value("en_US.UTF-8"),
            text_value("en_US.UTF-8"),
            Value::Boolean(false),
            Value::Boolean(true),
            Value::Int32(-1),
            Value::Int32(100000),
            Value::Int32(1),
            Value::Int32(1),
            Value::Int32(1663),
            Value::Null,
        ]]
    );
    let names: Vec<&str> = relation.fields().iter().map(|f| f.name).collect();
    assert_eq!(
        names,
        vec![
            "oid", "datname", "datdba", "encoding", "datcollate", "datctype", "datistemplate",
            "datallowconn", "datconnlimit", "datlastsysoid", "datfrozenxid", "datminmxid",
            "dattablespace", "datacl",
        ]
    );
}

#[test]
fn the_namespace_relation_in_full() {
    let walk = walked(&one_table_catalog());
    let relation = PgNamespaceTable::get_data(&walk);
    assert_eq!(
        relation.fields(),
        &vec![
            Field::required("oid", ColumnType::Int32),
            Field::required("nspname", ColumnType::Utf8),
            Field::required("nspowner", ColumnType::Int32),
            Field::optional("nspacl", ColumnType::Utf8),
            Field::optional("options", ColumnType::Utf8),
        ]
    );
    let row = |oid: i32, name: &str| {
        vec![Value::Int32(oid), text_value(name), Value::Int32(10), Value::Null, Value::Null]
    };
    assert_eq!(
        relation.rows(),
        &vec![
            row(11, "pg_catalog"),
            row(2200, "public"),
            row(12, "information_schema"),
            row(10000, "s1"),
        ]
    );
}

#[test]
fn the_class_relation_in_full() {
    let walk = walked(&one_table_catalog());
    let relation = PgClassTable::get_data(&walk);
    assert_eq!(relation.fields(), PgClassTable::new().schema());
    assert_eq!(relation.num_columns(), 30);
    assert_eq!(
        relation.rows(),
        &vec![vec![
            Value::Int32(10001),
            text_value("t1"),
            Value::Int32(10000),
            Value::Int32(0),
            Value::Null,
            Value::Int32(0),
            Value::Int32(0),
            Value::Int32(10001),
            Value::Int32(0),
            Value::Int32(1),
            Value::Number(0),
            Value::Int32(0),
            Value::Int32(0),
            Value::Boolean(false),
            Value::Boolean(false),
            text_value("p"),
            text_value("r"),
            Value::Int16(2),
            Value::Int16(0),
            Value::Boolean(false),
            Value::Boolean(false),
            Value::Boolean(false),
            Value::Boolean(false),
            Value::Boolean(false),
            Value::Boolean(true),
            text_value("d"),
            Value::Boolean(false),
            Value::Null,
            Value::Int32(0),
            Value::Int32(0),
        ]]
    );
    let names: Vec<&str> = relation.fields().iter().map(|f| f.name).collect();
    assert_eq!(
        names,
        vec![
            "oid", "relname", "relnamespace", "reltype", "reloftype", "relowner", "relam",
            "relfilenode", "reltablespace", "relpages", "reltuples", "relallvisible",
            "reltoastrelid", "relhasindex", "relisshared", "relpersistence", "relkind",
            "relnatts", "relchecks", "relhasrules", "relhastriggers", "relhassubclass",
            "relrowsecurity", "relforcerowsecurity", "relispopulated", "relreplident",
            "relispartition", "relrewrite", "relfrozenxid", "relminmxid",
        ]
    );
    let nullable: Vec<&str> =
        relation.fields().iter().filter(|f| f.nullable).map(|f| f.name).collect();
    assert_eq!(nullable, vec!["reloftype", "relrewrite"]);
    assert_eq!(relation.fields()[10].data_type, ColumnType::Float64);
    assert_eq!(relation.fields()[17].data_type, ColumnType::Int16);
}

#[test]
fn the_attribute_relation_in_full() {
    let walk = walked(&one_table_catalog());
    let relation = PgAttributeTable::get_data(&walk);
    assert_eq!(relation.fields(), PgAttributeTable::new().schema());
    assert_eq!(relation.num_columns(), 25);
    let row = |name: &str, oid: i32, len: i16, num: i16, by_value: bool, storage: &str| {
        vec![
            Value::Int32(10001),
            text_value(name),
            Value::Int32(oid),
            Value::Int16(len),
            Value::Int16(num),
            Value::Int32(-1),
            Value::Int32(-1),
            Value::Int16(0),
            Value::Boolean(by_value),
            text_value("i"),
            text_value(storage),
            text_value(""),
            Value::Boolean(true),
            Value::Boolean(false),
            Value::Boolean(false),
            text_value(""),
            text_value(""),
            Value::Boolean(false),
            Value::Boolean(true),
            Value::Int16(0),
            Value::Int32(0),
            Value::Null,
            Value::Null,
            Value::Null,
            Value::Null,
        ]
    };
    assert_eq!(
        relation.rows(),
        &vec![row("a", 23, 4, 1, true, "p"), row("b", 25, -1, 2, false, "x")]
    );
    let names: Vec<&str> = relation.fields().iter().map(|f| f.name).collect();
    assert_eq!(
        names,
        vec![
            "attrelid", "attname", "atttypid", "attlen", "attnum", "attcacheoff", "atttypmod",
            "attndims", "attbyval", "attalign", "attstorage", "attcompression", "attnotnull",
            "atthasdef", "atthasmissing", "attidentity", "attgenerated", "attisdropped",
            "attislocal", "attinhcount", "attcollation", "attacl", "attoptions",
            "attfdwoptions", "attmissingval",
        ]
    );
}

#[test]
fn a_relation_takes_conforming_rows_only() {
    let fields = vec![
        Field::required("n", ColumnType::Int32),
        Field::optional("t", ColumnType::Utf8),
        Field::required("f", ColumnType::Float32),
    ];
    let good = vec![
        vec![Value::Int32(1), Value::Null, Value::Number(2)],
        vec![Value::Int32(2), text_value("x"), Value::Number(0)],
    ];
    let relation = Relation::try_new(fields.clone(), good.clone()).unwrap();
    assert_eq!(relation.fields(), &fields);
    assert_eq!(relation.rows(), &good);
    assert_eq!((relation.num_rows(), relation.num_columns()), (2, 3));
    assert!(Relation::try_new(fields.clone(), vec![]).is_some());
    // a null where none may stand
    let bad = vec![vec![Value::Null, Value::Null, Value::Number(2)]];
    assert!(Relation::try_new(fields.clone(), bad).is_none());
    // a value of another type
    let bad = vec![vec![Value::Int16(1), Value::Null, Value::Number(2)]];
    assert!(Relation::try_new(fields.clone(), bad).is_none());
    let bad = vec![vec![Value::Int32(1), Value::Null, Value::Int32(2)]];
    assert!(Relation::try_new(fields.clone(), bad).is_none());
    // a row that is too short, behind one that conforms
    let bad = vec![good[0].clone(), vec![Value::Int32(1), Value::Null]];
    assert!(Relation::try_new(fields, bad).is_none());
}

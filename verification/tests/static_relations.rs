use pg_catalog::pg_am::{create_pg_am_data, pg_am_schema};
use pg_catalog::pg_proc::{PgProcTable, ProcRow};
use pg_catalog::pg_type::{
    create_pg_type_data, pg_type_rows, pg_type_schema, TypeCategory, TypeKind, TypeRow,
};
use pg_catalog::relation::{ColumnType, Field, Value};
use pg_catalog::types::{map_type, Alignment, NativeType, ScalarType, Storage};

fn text(s: &str) -> Value {
    Value::Text(s.to_string())
}

/// oid, name, length, by value, kind, family, preferred, subscript,
/// element, array, receive, send, alignment, storage, collation
type TypeLine = (i32, &'static str, i16, bool, &'static str, &'static str, bool, i32, i32, i32, i32, i32, &'static str, &'static str, i32);

fn type_lines() -> Vec<TypeLine> {
    vec![
        (16, "bool", 1, true, "b", "B", true, 0, 0, 1000, 2556, 2557, "c", "p", 0),
        (21, "int2", 2, true, "b", "N", false, 0, 0, 1005, 2562, 2563, "s", "p", 0),
        (23, "int4", 4, true, "b", "N", true, 0, 0, 1007, 2562, 2563, "i", "p", 0),
        (20, "int8", 8, false, "b", "N", false, 0, 0, 1016, 2562, 2563, "d", "p", 0),
        (700, "float4", 4, true, "b", "N", false, 0, 0, 1021, 2562, 2563, "i", "p", 0),
        (701, "float8", 8, false, "b", "N", true, 0, 0, 1022, 2562, 2563, "d", "p", 0),
        (1043, "varchar", -1, false, "b", "S", false, 0, 0, 1015, 2562, 2563, "i", "x", 100),
        (25, "text", -1, false, "b", "S", true, 0, 0, 1009, 2562, 2563, "i", "x", 100),
        (1082, "date", 4, true, "b", "D", false, 0, 0, 1182, 2562, 2563, "i", "p", 0),
        (1114, "timestamp", 8, false, "b", "D", false, 0, 0, 1115, 2562, 2563, "d", "p", 0),
        (1184, "timestamptz", 8, false, "b", "D", true, 0, 0, 1185, 2562, 2563, "d", "p", 0),
        (1083, "time", 8, false, "b", "D", false, 0, 0, 1183, 2562, 2563, "d", "p", 0),
        (1186, "interval", 16, false, "b", "T", false, 0, 0, 1187, 2562, 2563, "d", "p", 0),
        (17, "bytea", -1, false, "b", "U", false, 0, 0, 1001, 2562, 2563, "i", "x", 0),
        (1700, "numeric", -1, false, "b", "N", false, 0, 0, 1231, 2562, 2563, "i", "m", 0),
        (18, "char", 1, true, "b", "S", false, 0, 0, 1002, 2562, 2563, "c", "p", 100),
        (705, "unknown", -2, false, "p", "X", false, 0, 0, 0, 2562, 2563, "c", "p", 0),
        (1000, "_bool", -1, false, "b", "A", false, 2750, 16, 0, 2562, 2563, "i", "x", 0),
        (1005, "_int2", -1, false, "b", "A", false, 2750, 21, 0, 2562, 2563, "i", "x", 0),
        (1007, "_int4", -1, false, "b", "A", false, 2750, 23, 0, 2562, 2563, "i", "x", 0),
        (1016, "_int8", -1, false, "b", "A", false, 2750, 20, 0, 2562, 2563, "i", "x", 0),
        (1021, "_float4", -1, false, "b", "A", false, 2750, 700, 0, 2562, 2563, "i", "x", 0),
        (1022, "_float8", -1, false, "b", "A", false, 2750, 701, 0, 2562, 2563, "i", "x", 0),
        (1015, "_varchar", -1, false, "b", "A", false, 2750, 1043, 0, 2562, 2563, "i", "x", 0),
        (1009, "_text", -1, false, "b", "A", false, 2750, 25, 0, 2562, 2563, "i", "x", 0),
        (1182, "_date", -1, false, "b", "A", false, 2750, 1082, 0, 2562, 2563, "i", "x", 0),
        (1115, "_timestamp", -1, false, "b", "A", false, 2750, 1114, 0, 2562, 2563, "i", "x", 0),
        (1185, "_timestamptz", -1, false, "b", "A", false, 2750, 1184, 0, 2562, 2563, "i", "x", 0),
        (1183, "_time", -1, false, "b", "A", false, 2750, 1083, 0, 2562, 2563, "i", "x", 0),
        (1187, "_interval", -1, false, "b", "A", false, 2750, 1186, 0, 2562, 2563, "i", "x", 0),
        (1001, "_bytea", -1, false, "b", "A", false, 2750, 17, 0, 2562, 2563, "i", "x", 0),
        (1231, "_numeric", -1, false, "b", "A", false, 2750, 1700, 0, 2562, 2563, "i", "x", 0),
        (1002, "_char", -1, false, "b", "A", false, 2750, 18, 0, 2562, 2563, "i", "x", 0),
    ]
}

fn alignment(code: &str) -> Alignment {
    match code {
        "c" => Alignment::Char,
        "s" => Alignment::Short,
        "i" => Alignment::Int,
        "d" => Alignment::Double,
        other => panic!("no alignment {}", other),
    }
}

fn storage(code: &str) -> Storage {
    match code {
        "p" => Storage::Plain,
        "x" => Storage::Extended,
        "m" => Storage::Main,
        other => panic!("no storage {}", other),
    }
}

fn category(code: &str) -> TypeCategory {
    match code {
        "A" => TypeCategory::Array,
        "B" => TypeCategory::Boolean,
        "D" => TypeCategory::DateTime,
        "N" => TypeCategory::Numeric,
        "S" => TypeCategory::String,
        "T" => TypeCategory::Timespan,
        "U" => TypeCategory::UserDefined,
        "X" => TypeCategory::Unknown,
        other => panic!("no family {}", other),
    }
}

#[test]
fn the_type_rows_are_the_fixed_table() {
    let expected: Vec<TypeRow> = type_lines()
        .into_iter()
        .map(|l| TypeRow {
            oid: l.0,
            name: l.1.to_string(),
            byte_length: l.2,
            pass_by_value: l.3,
            kind: if l.4 == "b" { TypeKind::Base } else { TypeKind::Pseudo },
            category: category(l.5),
            preferred: l.6,
            subscript: l.7,
            element_oid: l.8,
            array_oid: l.9,
            receive: l.10,
            send: l.11,
            alignment: alignment(l.12),
            storage: storage(l.13),
            collation: l.14,
        })
        .collect();
    let rows = pg_type_rows();
    assert_eq!(rows, expected);
    assert_eq!(rows.len(), 33);
    assert_eq!(rows[16].kind.code(), "p");
    assert_eq!(rows[0].kind.code(), "b");
    for l in type_lines() {
        assert_eq!(category(l.5).code(), l.5);
    }
}

#[test]
fn the_type_relation_in_full() {
    let relation = create_pg_type_data();
    assert_eq!(relation.fields(), &pg_type_schema());
    assert_eq!(relation.num_columns(), 32);
    let expected: Vec<Vec<Value>> = type_lines()
        .into_iter()
        .map(|l| {
            vec![
                Value::Int32(l.0),
                text(l.1),
                Value::Int32(11),
                Value::Int32(10),
                Value::Int16(l.2),
                Value::Boolean(l.3),
                text(l.4),
                text(l.5),
                Value::Boolean(l.6),
                Value::Boolean(true),
                text(","),
                Value::Int32(0),
                Value::Int32(l.7),
                Value::Int32(l.8),
                Value::Int32(l.9),
                Value::Int32(1242),
                Value::Int32(1243),
                Value::Int32(l.10),
                Value::Int32(l.11),
                Value::Int32(0),
                Value::Int32(0),
                Value::Int32(0),
                text(l.12),
                text(l.13),
                Value::Boolean(false),
                Value::Int32(0),
                Value::Int32(-1),
                Value::Int32(0),
                Value::Int32(l.14),
                Value::Null,
                Value::Null,
                Value::Null,
            ]
        })
        .collect();
    assert_eq!(relation.rows(), &expected);
    let names: Vec<&str> = relation.fields().iter().map(|f| f.name).collect();
    assert_eq!(
        names,
        vec![
            "oid", "typname", "typnamespace", "typowner", "typlen", "typbyval", "typtype",
            "typcategory", "typispreferred", "typisdefined", "typdelim", "typrelid",
            "typsubscript", "typelem", "typarray", "typinput", "typoutput", "typreceive",
            "typsend", "typmodin", "typmodout", "typanalyze", "typalign", "typstorage",
            "typnotnull", "typbasetype", "typtypmod", "typndims", "typcollation",
            "typdefaultbin", "typdefault", "typacl",
        ]
    );
    let nullable: Vec<&str> =
        relation.fields().iter().filter(|f| f.nullable).map(|f| f.name).collect();
    assert_eq!(nullable, vec!["typdefaultbin", "typdefault", "typacl"]);
}

#[test]
fn every_mapped_type_has_its_row() {
    let oids: Vec<i32> = pg_type_rows().iter().map(|r| r.oid).collect();
    let scalars = [
        ScalarType::Null,
        ScalarType::Boolean,
        ScalarType::Int8,
        ScalarType::Int16,
        ScalarType::Int32,
        ScalarType::Int64,
        ScalarType::UInt8,
        ScalarType::UInt16,
        ScalarType::UInt32,
        ScalarType::UInt64,
        ScalarType::Float16,
        ScalarType::Float32,
        ScalarType::Float64,
        ScalarType::Timestamp { zoned: false },
        ScalarType::Timestamp { zoned: true },
        ScalarType::Date32,
        ScalarType::Date64,
        ScalarType::Time32,
        ScalarType::Time64,
        ScalarType::Duration,
        ScalarType::Interval,
        ScalarType::Binary,
        ScalarType::FixedSizeBinary,
        ScalarType::LargeBinary,
        ScalarType::BinaryView,
        ScalarType::Utf8,
        ScalarType::LargeUtf8,
        ScalarType::Utf8View,
        ScalarType::Decimal128,
        ScalarType::Decimal256,
        ScalarType::Other,
    ];
    for s in scalars {
        for native in [
            NativeType::Scalar(s),
            NativeType::List(s),
            NativeType::LargeList(s),
            NativeType::FixedSizeList(s),
        ] {
            assert!(oids.contains(&map_type(native).type_oid), "{:?}", native);
        }
    }
}

#[test]
fn the_access_method_relation_is_declared_and_empty() {
    let relation = create_pg_am_data();
    assert_eq!(relation.num_rows(), 0);
    assert!(relation.rows().is_empty());
    assert_eq!(relation.num_columns(), 22);
    let boolean = |name: &'static str| Field::required(name, ColumnType::Boolean);
    let expected = vec![
        Field::required("oid", ColumnType::Int32),
        Field::required("amname", ColumnType::Utf8),
        Field::required("amhandler", ColumnType::Int32),
        Field::required("amtype", ColumnType::Utf8),
        Field::required("amstrategies", ColumnType::Int32),
        Field::required("amsupport", ColumnType::Int32),
        boolean("amcanorder"),
        boolean("amcanorderbyop"),
        boolean("amcanbackward"),
        boolean("amcanunique"),
        boolean("amcanmulticol"),
        boolean("amoptionalkey"),
        boolean("amsearcharray"),
        boolean("amsearchnulls"),
        boolean("amstorage"),
        boolean("amclusterable"),
        boolean("ampredlocks"),
        boolean("amcanparallel"),
        boolean("amcanbeginscan"),
        boolean("amcanmarkpos"),
        boolean("amcanfetch"),
        Field::required("amkeytype", ColumnType::Int32),
    ];
    assert_eq!(relation.fields(), &expected);
    assert_eq!(pg_am_schema(), expected);
    assert!(expected.iter().all(|f| !f.nullable));
}

fn proc_line(
    oid: i32,
    name: &str,
    argument_count: i16,
    return_type: i32,
    argument_types: &str,
    argument_names: Option<&str>,
    source: &str,
) -> ProcRow {
    ProcRow {
        oid,
        name: name.to_string(),
        argument_count,
        return_type,
        argument_types: argument_types.to_string(),
        argument_names: argument_names.map(|n| n.to_string()),
        source: source.to_string(),
    }
}

fn proc_lines() -> Vec<ProcRow> {
    vec![
        proc_line(2200, "version", 0, 25, "", None, "SELECT 'DataFusion-Postgres 0.5.1'"),
        proc_line(2201, "pg_version_num", 0, 25, "", None, "SELECT '160100'"),
        proc_line(2202, "current_database", 0, 25, "", None, "SELECT 'datafusion'"),
        proc_line(2203, "current_user", 0, 25, "", None, "SELECT 'postgres'"),
        proc_line(2204, "session_user", 0, 25, "", None, "SELECT 'postgres'"),
        proc_line(2205, "user", 0, 25, "", None, "SELECT 'postgres'"),
        proc_line(2206, "current_schema", 0, 25, "", None, "SELECT 'public'"),
        proc_line(2207, "current_schemas", 1, 1009, "16", Some("implicit"), "SELECT ARRAY['public']"),
        proc_line(2208, "getdatabaseencoding", 0, 25, "", None, "SELECT 'UTF8'"),
        proc_line(2209, "pg_encoding_to_char", 1, 25, "23", Some("encoding_id"), "SELECT 'UTF8'"),
    ]
}

#[test]
fn the_procedure_rows_are_the_fixed_table() {
    assert_eq!(PgProcTable::rows(), proc_lines());
}

#[test]
fn the_procedure_relation_in_full() {
    let relation = PgProcTable::get_data();
    assert_eq!(relation.fields(), PgProcTable::new().schema());
    assert_eq!(relation.num_columns(), 30);
    let expected: Vec<Vec<Value>> = proc_lines()
        .into_iter()
        .map(|l| {
            vec![
                Value::Int32(l.oid),
                Value::Text(l.name),
                Value::Int32(11),
                Value::Int32(10),
                Value::Int32(12),
                Value::Number(1),
                Value::Number(0),
                Value::Int32(0),
                Value::Int32(0),
                text("f"),
                Value::Boolean(false),
                Value::Boolean(true),
                Value::Boolean(true),
                Value::Boolean(false),
                text("i"),
                text("s"),
                Value::Int16(l.argument_count),
                Value::Int16(0),
                Value::Int32(l.return_type),
                Value::Text(l.argument_types),
                Value::Null,
                Value::Null,
                match l.argument_names {
                    Some(names) => Value::Text(names),
                    None => Value::Null,
                },
                Value::Null,
                Value::Null,
                Value::Text(l.source),
                Value::Null,
                Value::Null,
                Value::Null,
                Value::Null,
            ]
        })
        .collect();
    assert_eq!(relation.rows(), &expected);
    let names: Vec<&str> = relation.fields().iter().map(|f| f.name).collect();
    assert_eq!(
        names,
        vec![
            "oid", "proname", "pronamespace", "proowner", "prolang", "procost", "prorows",
            "provariadic", "prosupport", "prokind", "prosecdef", "proleakproof", "proisstrict",
            "proretset", "provolatile", "proparallel", "pronargs", "pronargdefaults",
            "prorettype", "proargtypes", "proallargtypes", "proargmodes", "proargnames",
            "proargdefaults", "protrftypes", "prosrc", "probin", "prosqlbody", "proconfig",
            "proacl",
        ]
    );
    assert_eq!(relation.fields()[5].data_type, ColumnType::Float32);
    assert_eq!(relation.fields()[6].data_type, ColumnType::Float32);
    let nullable: Vec<&str> =
        relation.fields().iter().filter(|f| f.nullable).map(|f| f.name).collect();
    assert_eq!(
        nullable,
        vec![
            "proallargtypes", "proargmodes", "proargnames", "proargdefaults", "protrftypes",
            "probin", "prosqlbody", "proconfig", "proacl",
        ]
    );
}

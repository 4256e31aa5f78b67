use pg_catalog::error::PgCatalogError;
use pg_catalog::functions::{
    create_current_database_udf, create_current_schema_udf, create_current_schemas_udf,
    create_current_user_udf, create_getdatabaseencoding_udf, create_pg_encoding_to_char_udf,
    create_pg_version_num_udf, create_session_user_udf, create_user_udf, create_version_udf,
    current_database, current_schema, current_schemas, current_user, getdatabaseencoding,
    pg_encoding_to_char, pg_version_num, session_user, user, version, Argument,
    IntrospectionFunction, ReturnType, ScalarFunction, ScalarValue, Volatility,
};
use pg_catalog::provider::{setup_pg_catalog, PgCatalogSchemaProvider, PgCatalogTable};
use pg_catalog::relation::ColumnType;

fn texts(items: &[&str]) -> Vec<String> {
    items.iter().map(|s| s.to_string()).collect()
}

#[test]
fn current_schemas_lists_the_search_path() {
    assert_eq!(current_schemas(false), texts(&["public"]));
    assert_eq!(current_schemas(true), texts(&["public", "information_schema", "pg_catalog"]));
}

#[test]
fn the_constants_of_the_session() {
    assert_eq!(current_schema(), "public");
    assert_eq!(version(), "DataFusion-Postgres 0.5.1, compiled with DataFusion 47.0.0");
    assert_eq!(pg_version_num(), "160100");
    assert_eq!(current_database(), "datafusion");
    assert_eq!(current_user(), "postgres");
    assert_eq!(session_user(), "postgres");
    assert_eq!(user(), "postgres");
    assert_eq!(getdatabaseencoding(), "UTF8");
    assert_eq!(pg_encoding_to_char(6), "UTF8");
    assert_eq!(pg_encoding_to_char(-1), "UTF8");
    assert_eq!(pg_encoding_to_char(i32::MAX), "UTF8");
}

fn registered(
    udf: &ScalarFunction,
    function: IntrospectionFunction,
    name: &str,
    signature: Vec<ColumnType>,
    return_type: ReturnType,
) {
    assert_eq!(udf.function, function);
    assert_eq!(udf.name, name);
    assert_eq!(udf.signature, signature);
    assert_eq!(udf.return_type, return_type);
    assert_eq!(udf.volatility, Volatility::Immutable);
    assert_eq!(function.name(), name);
}

#[test]
fn the_functions_are_registered_as_immutable() {
    registered(&create_current_schemas_udf(), IntrospectionFunction::CurrentSchemas, "current_schemas", vec![ColumnType::Boolean], ReturnType::Utf8List);
    registered(&create_current_schema_udf(), IntrospectionFunction::CurrentSchema, "current_schema", vec![], ReturnType::Utf8);
    registered(&create_version_udf(), IntrospectionFunction::Version, "version", vec![], ReturnType::Utf8);
    registered(&create_pg_version_num_udf(), IntrospectionFunction::PgVersionNum, "pg_version_num", vec![], ReturnType::Utf8);
    registered(&create_current_database_udf(), IntrospectionFunction::CurrentDatabase, "current_database", vec![], ReturnType::Utf8);
    registered(&create_current_user_udf(), IntrospectionFunction::CurrentUser, "current_user", vec![], ReturnType::Utf8);
    registered(&create_session_user_udf(), IntrospectionFunction::SessionUser, "session_user", vec![], ReturnType::Utf8);
    registered(&create_user_udf(), IntrospectionFunction::User, "user", vec![], ReturnType::Utf8);
    registered(&create_pg_encoding_to_char_udf(), IntrospectionFunction::PgEncodingToChar, "pg_encoding_to_char", vec![ColumnType::Int32], ReturnType::Utf8);
    registered(&create_getdatabaseencoding_udf(), IntrospectionFunction::GetDatabaseEncoding, "getdatabaseencoding", vec![], ReturnType::Utf8);
    assert_eq!(IntrospectionFunction::CurrentSchemas.argument_type(), Some(ColumnType::Boolean));
    assert_eq!(IntrospectionFunction::PgEncodingToChar.argument_type(), Some(ColumnType::Int32));
    assert_eq!(IntrospectionFunction::Version.argument_type(), None);
}

#[test]
fn the_functions_return_their_constants() {
    let text = |s: &str| ScalarValue::Text(s.to_string());
    let none: Vec<Argument> = vec![];
    assert_eq!(
        create_current_schemas_udf().invoke(&vec![Argument::Boolean(false)]),
        ScalarValue::TextList(texts(&["public"]))
    );
    assert_eq!(
        create_current_schemas_udf().invoke(&vec![Argument::Boolean(true)]),
        ScalarValue::TextList(texts(&["public", "information_schema", "pg_catalog"]))
    );
    assert_eq!(create_current_schema_udf().invoke(&none), text("public"));
    assert_eq!(
        create_version_udf().invoke(&none),
        text("DataFusion-Postgres 0.5.1, compiled with DataFusion 47.0.0")
    );
    assert_eq!(create_pg_version_num_udf().invoke(&none), text("160100"));
    assert_eq!(create_current_database_udf().invoke(&none), text("datafusion"));
    assert_eq!(create_current_user_udf().invoke(&none), text("postgres"));
    assert_eq!(create_session_user_udf().invoke(&none), text("postgres"));
    assert_eq!(create_user_udf().invoke(&none), text("postgres"));
    assert_eq!(create_getdatabaseencoding_udf().invoke(&none), text("UTF8"));
    assert_eq!(create_pg_encoding_to_char_udf().invoke(&vec![Argument::Int32(6)]), text("UTF8"));
    assert_eq!(create_pg_encoding_to_char_udf().invoke(&vec![Argument::Int32(0)]), text("UTF8"));
    // What takes no argument ignores what it is handed.
    assert_eq!(create_version_udf().invoke(&vec![Argument::Int32(1)]), create_version_udf().invoke(&none));
    assert_eq!(ScalarFunction::new(IntrospectionFunction::User), create_user_udf());
}

#[test]
fn the_schema_lists_its_relations() {
    let provider = PgCatalogSchemaProvider::new();
    assert_eq!(
        provider.table_names(),
        texts(&[
            "pg_type",
            "pg_class",
            "pg_attribute",
            "pg_namespace",
            "pg_proc",
            "pg_database",
            "pg_am"
        ])
    );
    assert_eq!(PgCatalogTable::PgAm.name(), "pg_am");
}

#[test]
fn relations_are_found_whatever_the_case() {
    let provider = PgCatalogSchemaProvider::new();
    let all = [
        ("pg_type", PgCatalogTable::PgType),
        ("pg_class", PgCatalogTable::PgClass),
        ("pg_attribute", PgCatalogTable::PgAttribute),
        ("pg_namespace", PgCatalogTable::PgNamespace),
        ("pg_proc", PgCatalogTable::PgProc),
        ("pg_database", PgCatalogTable::PgDatabase),
        ("pg_am", PgCatalogTable::PgAm),
    ];
    for (name, table) in all {
        assert_eq!(provider.table(name), Some(table));
        assert_eq!(provider.table(&name.to_uppercase()), Some(table));
        assert!(provider.table_exist(name));
        assert!(provider.table_exist(&name.to_uppercase()));
        assert_eq!(table.name(), name);
    }
    assert_eq!(provider.table("PG_Class"), Some(PgCatalogTable::PgClass));
    assert_eq!(provider.table("Pg_Am"), Some(PgCatalogTable::PgAm));
    for name in ["", "pg_types", "pg_clas", " pg_class", "ᴘɢ_class", "pg-class", "tables"] {
        assert_eq!(provider.table(name), None);
        assert!(!provider.table_exist(name));
    }
}

#[test]
fn the_schema_holds_its_fixed_relations() {
    let provider = PgCatalogSchemaProvider::new();
    let types = provider.pg_type_table();
    assert_eq!((types.num_rows(), types.num_columns()), (33, 32));
    let methods = provider.pg_am_table();
    assert_eq!((methods.num_rows(), methods.num_columns()), (0, 22));
}

#[test]
fn setup_registers_the_schema_and_the_functions() {
    let registration = setup_pg_catalog(true, "datafusion").unwrap();
    assert_eq!(registration.schema_name, "pg_catalog");
    let names: Vec<&str> = registration.functions.iter().map(|f| f.name).collect();
    assert_eq!(
        names,
        vec![
            "current_schema",
            "current_schemas",
            "version",
            "pg_version_num",
            "current_database",
            "current_user",
            "session_user",
            "user",
            "pg_encoding_to_char",
            "getdatabaseencoding",
        ]
    );
    assert!(registration.functions.iter().all(|f| f.volatility == Volatility::Immutable));
    assert!(registration.provider.table_exist("pg_class"));
}

#[test]
fn setup_fails_without_the_catalog() {
    let error = setup_pg_catalog(false, "missing").err().unwrap();
    assert_eq!(error, PgCatalogError::Configuration { catalog_name: "missing".to_string() });
    assert_eq!(error.message(), "Catalog not found when registering pg_catalog: missing");
}

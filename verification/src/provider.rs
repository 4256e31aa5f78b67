//! The introspection schema: which relations it holds, and how it is set up
//! in a session.

use crate::catalog::text_models;
use crate::error::{PgCatalogError, PgCatalogErrorModel};
use crate::functions::{
    create_current_database_udf, create_current_schema_udf, create_current_schemas_udf,
    create_current_user_udf, create_getdatabaseencoding_udf, create_pg_encoding_to_char_udf,
    create_pg_version_num_udf, create_session_user_udf, create_user_udf, create_version_udf,
    IntrospectionFunction, ScalarFunction,
};
use crate::pg_am::{am_fields, create_pg_am_data};
use crate::pg_type::{create_pg_type_data, type_cells, type_fields, type_rows};
use crate::relation::{Relation, RelationModel, ValueModel};
use vstd::prelude::*;

verus! {

/// The relations of the introspection schema.
#[derive(Clone, Copy, Debug, PartialEq, Eq, Structural)]
pub enum PgCatalogTable {
    PgType,
    PgClass,
    PgAttribute,
    PgNamespace,
    PgProc,
    PgDatabase,
    PgAm,
}

impl PgCatalogTable {
    /// The name of the relation.
    pub open spec fn name_spec(self) -> Seq<char> {
        match self {
            PgCatalogTable::PgType => "pg_type"@,
            PgCatalogTable::PgClass => "pg_class"@,
            PgCatalogTable::PgAttribute => "pg_attribute"@,
            PgCatalogTable::PgNamespace => "pg_namespace"@,
            PgCatalogTable::PgProc => "pg_proc"@,
            PgCatalogTable::PgDatabase => "pg_database"@,
            PgCatalogTable::PgAm => "pg_am"@,
        }
    }

    /// The name of the relation.
    pub fn name(self) -> (name: &'static str)
        ensures
            name@ == self.name_spec(),
    {
        match self {
            PgCatalogTable::PgType => "pg_type",
            PgCatalogTable::PgClass => "pg_class",
            PgCatalogTable::PgAttribute => "pg_attribute",
            PgCatalogTable::PgNamespace => "pg_namespace",
            PgCatalogTable::PgProc => "pg_proc",
            PgCatalogTable::PgDatabase => "pg_database",
            PgCatalogTable::PgAm => "pg_am",
        }
    }
}

/// The relations in the order in which the schema lists them.
pub open spec fn pg_catalog_tables() -> Seq<PgCatalogTable> {
    seq![
        PgCatalogTable::PgType,
        PgCatalogTable::PgClass,
        PgCatalogTable::PgAttribute,
        PgCatalogTable::PgNamespace,
        PgCatalogTable::PgProc,
        PgCatalogTable::PgDatabase,
        PgCatalogTable::PgAm,
    ]
}

/// The lower-case letter of an upper-case ASCII letter; any other
/// character as it is.
pub open spec fn ascii_lower(c: char) -> char {
    if 'A' <= c && c <= 'Z' {
        ((c as int) + 32) as char
    } else {
        c
    }
}

/// The text with its ASCII letters in lower case.
pub open spec fn ascii_lowercase(text: Seq<char>) -> Seq<char> {
    Seq::new(text.len(), |i: int| ascii_lower(text[i]))
}

/// The relation that a name stands for, whatever the case of its ASCII
/// letters.
pub open spec fn table_named(name: Seq<char>) -> Option<PgCatalogTable> {
    let lowered = ascii_lowercase(name);
    if lowered == "pg_type"@ {
        Some(PgCatalogTable::PgType)
    } else if lowered == "pg_am"@ {
        Some(PgCatalogTable::PgAm)
    } else if lowered == "pg_class"@ {
        Some(PgCatalogTable::PgClass)
    } else if lowered == "pg_namespace"@ {
        Some(PgCatalogTable::PgNamespace)
    } else if lowered == "pg_database"@ {
        Some(PgCatalogTable::PgDatabase)
    } else if lowered == "pg_attribute"@ {
        Some(PgCatalogTable::PgAttribute)
    } else if lowered == "pg_proc"@ {
        Some(PgCatalogTable::PgProc)
    } else {
        None
    }
}

/// `str::to_ascii_lowercase` of the standard library. Trusted: the result
/// has the characters of the text in their order, each ASCII letter from
/// `A` to `Z` replaced by its lower-case letter and every other character
/// unchanged.
#[verifier::external_body]
fn to_ascii_lowercase(text: &str) -> (lowered: String)
    ensures
        lowered@ == ascii_lowercase(text@),
{
    text.to_ascii_lowercase()
}

/// The introspection schema. It holds the two relations that never change,
/// built once when the schema is made.
pub struct PgCatalogSchemaProvider {
    types: Relation,
    access_methods: Relation,
}

impl PgCatalogSchemaProvider {
    #[verifier::type_invariant]
    closed spec fn well_formed(self) -> bool {
        &&& self.types@.fields == type_fields()
        &&& self.types@.rows == type_cells(type_rows())
        &&& self.access_methods@.fields == am_fields()
        &&& self.access_methods@.rows == Seq::<Seq<ValueModel>>::empty()
    }

    /// The type relation that the schema holds.
    pub closed spec fn type_relation(&self) -> RelationModel {
        self.types@
    }

    /// The access-method relation that the schema holds.
    pub closed spec fn access_method_relation(&self) -> RelationModel {
        self.access_methods@
    }

    /// The schema with its seven relations, the two fixed ones built.
    pub fn new() -> (provider: PgCatalogSchemaProvider)
        ensures
            provider.type_relation().fields == type_fields(),
            provider.type_relation().rows == type_cells(type_rows()),
            provider.access_method_relation().fields == am_fields(),
            provider.access_method_relation().rows == Seq::<Seq<ValueModel>>::empty(),
    {
        PgCatalogSchemaProvider {
            types: create_pg_type_data(),
            access_methods: create_pg_am_data(),
        }
    }

    /// The names of the relations, in the order of `pg_catalog_tables`.
    pub fn table_names(&self) -> (names: Vec<String>)
        ensures
            text_models(names@) == Seq::new(
                pg_catalog_tables().len(),
                |i: int| pg_catalog_tables()[i].name_spec(),
            ),
    {
        let names = vec![
            String::from_str(PgCatalogTable::PgType.name()),
            String::from_str(PgCatalogTable::PgClass.name()),
            String::from_str(PgCatalogTable::PgAttribute.name()),
            String::from_str(PgCatalogTable::PgNamespace.name()),
            String::from_str(PgCatalogTable::PgProc.name()),
            String::from_str(PgCatalogTable::PgDatabase.name()),
            String::from_str(PgCatalogTable::PgAm.name()),
        ];
        assert(text_models(names@) =~= Seq::new(
            pg_catalog_tables().len(),
            |i: int| pg_catalog_tables()[i].name_spec(),
        ));
        names
    }

    /// The relation of that name, if the schema holds one.
    pub fn table(&self, name: &str) -> (table: Option<PgCatalogTable>)
        ensures
            table == table_named(name@),
    {
        let lowered = to_ascii_lowercase(name);
        if lowered == String::from_str("pg_type") {
            Some(PgCatalogTable::PgType)
        } else if lowered == String::from_str("pg_am") {
            Some(PgCatalogTable::PgAm)
        } else if lowered == String::from_str("pg_class") {
            Some(PgCatalogTable::PgClass)
        } else if lowered == String::from_str("pg_namespace") {
            Some(PgCatalogTable::PgNamespace)
        } else if lowered == String::from_str("pg_database") {
            Some(PgCatalogTable::PgDatabase)
        } else if lowered == String::from_str("pg_attribute") {
            Some(PgCatalogTable::PgAttribute)
        } else if lowered == String::from_str("pg_proc") {
            Some(PgCatalogTable::PgProc)
        } else {
            None
        }
    }

    /// Whether the schema holds a relation of that name.
    pub fn table_exist(&self, name: &str) -> (exists: bool)
        ensures
            exists == table_named(name@) is Some,
    {
        self.table(name).is_some()
    }

    /// The type relation.
    pub fn pg_type_table(&self) -> (relation: &Relation)
        ensures
            relation@ == self.type_relation(),
            relation@.fields == type_fields(),
            relation@.rows == type_cells(type_rows()),
    {
        proof {
            use_type_invariant(self);
        }
        &self.types
    }

    /// The access-method relation: declared in full, without a row.
    pub fn pg_am_table(&self) -> (relation: &Relation)
        ensures
            relation@ == self.access_method_relation(),
            relation@.fields == am_fields(),
            relation@.rows == Seq::<Seq<ValueModel>>::empty(),
    {
        proof {
            use_type_invariant(self);
        }
        &self.access_methods
    }
}

/// What setting up the introspection schema asks of the session: to
/// register the schema under its name in the catalog, then the functions
/// in their order.
pub struct Registration {
    pub schema_name: &'static str,
    pub provider: PgCatalogSchemaProvider,
    pub functions: Vec<ScalarFunction>,
}

/// The functions in the order in which a session registers them.
pub open spec fn registered_functions() -> Seq<IntrospectionFunction> {
    seq![
        IntrospectionFunction::CurrentSchema,
        IntrospectionFunction::CurrentSchemas,
        IntrospectionFunction::Version,
        IntrospectionFunction::PgVersionNum,
        IntrospectionFunction::CurrentDatabase,
        IntrospectionFunction::CurrentUser,
        IntrospectionFunction::SessionUser,
        IntrospectionFunction::User,
        IntrospectionFunction::PgEncodingToChar,
        IntrospectionFunction::GetDatabaseEncoding,
    ]
}

/// Plans the setup of the introspection schema in the catalog
/// `catalog_name`. Where the session has no such catalog, nothing is to be
/// registered, and the error names the catalog.
pub fn setup_pg_catalog(catalog_found: bool, catalog_name: &str) -> (result: Result<
    Registration,
    PgCatalogError,
>)
    ensures
        result is Ok <==> catalog_found,
        result matches Err(error) ==> error@ == (PgCatalogErrorModel::Configuration {
            catalog_name: catalog_name@,
        }),
        result matches Ok(registration) ==> {
            &&& registration.schema_name@ == "pg_catalog"@
            &&& registration.functions@.len() == registered_functions().len()
            &&& forall|i: int|
                0 <= i < registered_functions().len() ==> (
                #[trigger] registration.functions@[i]).registers(registered_functions()[i])
        },
{
    if !catalog_found {
        return Err(PgCatalogError::Configuration { catalog_name: String::from_str(catalog_name) });
    }
    let functions = vec![
        create_current_schema_udf(),
        create_current_schemas_udf(),
        create_version_udf(),
        create_pg_version_num_udf(),
        create_current_database_udf(),
        create_current_user_udf(),
        create_session_user_udf(),
        create_user_udf(),
        create_pg_encoding_to_char_udf(),
        create_getdatabaseencoding_udf(),
    ];
    Ok(
        Registration {
            schema_name: "pg_catalog",
            provider: PgCatalogSchemaProvider::new(),
            functions,
        },
    )
}

} // verus!

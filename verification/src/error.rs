//! What can go wrong at setup and during a fetch.

use vstd::prelude::*;

verus! {

/// Why a lookup in the catalog gave nothing.
#[derive(Clone, Debug, PartialEq, Eq)]
pub enum LookupFailure {
    /// What had been listed was gone when it was to be resolved.
    Vanished,
    /// The catalog reported an error of its own, in these words.
    Failed(String),
    /// The reply was not of the kind that the lookup asks for.
    Unexpected,
}

/// A failure, with its words as a sequence of characters.
pub enum LookupFailureModel {
    Vanished,
    Failed(Seq<char>),
    Unexpected,
}

impl View for LookupFailure {
    type V = LookupFailureModel;

    open spec fn view(&self) -> LookupFailureModel {
        match *self {
            LookupFailure::Vanished => LookupFailureModel::Vanished,
            LookupFailure::Failed(words) => LookupFailureModel::Failed(words@),
            LookupFailure::Unexpected => LookupFailureModel::Unexpected,
        }
    }
}

/// The errors of this library.
#[derive(Clone, Debug, PartialEq, Eq)]
pub enum PgCatalogError {
    /// The catalog that was to hold the introspection schema does not exist.
    Configuration { catalog_name: String },
    /// A lookup failed during a walk. `catalog`, `schema` and `table` are
    /// set as far as the lookup named them.
    CatalogLookup {
        catalog: Option<String>,
        schema: Option<String>,
        table: Option<String>,
        failure: LookupFailure,
    },
}

/// An error, with its names as sequences of characters.
pub enum PgCatalogErrorModel {
    Configuration { catalog_name: Seq<char> },
    CatalogLookup {
        catalog: Option<Seq<char>>,
        schema: Option<Seq<char>>,
        table: Option<Seq<char>>,
        failure: LookupFailureModel,
    },
}

/// The text, if there is one.
pub open spec fn optional_text(text: Option<String>) -> Option<Seq<char>> {
    match text {
        Some(text) => Some(text@),
        None => None,
    }
}

impl View for PgCatalogError {
    type V = PgCatalogErrorModel;

    open spec fn view(&self) -> PgCatalogErrorModel {
        match *self {
            PgCatalogError::Configuration {
                catalog_name,
            } => PgCatalogErrorModel::Configuration { catalog_name: catalog_name@ },
            PgCatalogError::CatalogLookup {
                catalog,
                schema,
                table,
                failure,
            } => PgCatalogErrorModel::CatalogLookup {
                catalog: optional_text(catalog),
                schema: optional_text(schema),
                table: optional_text(table),
                failure: failure@,
            },
        }
    }
}

impl PgCatalogErrorModel {
    /// What the message of the error says: for a lookup, the kind and the
    /// name of the innermost thing that the lookup named.
    pub open spec fn message(self) -> Seq<char> {
        match self {
            PgCatalogErrorModel::Configuration { catalog_name } => {
                "Catalog not found when registering pg_catalog: "@ + catalog_name
            },
            PgCatalogErrorModel::CatalogLookup { catalog, schema, table, failure } => {
                match table {
                    Some(table) => "Lookup of a table failed: "@ + table,
                    None => match schema {
                        Some(schema) => "Lookup of a schema failed: "@ + schema,
                        None => match catalog {
                            Some(catalog) => "Lookup of a catalog failed: "@ + catalog,
                            None => "Lookup of the catalogs failed"@,
                        },
                    },
                }
            },
        }
    }
}

impl PgCatalogError {
    /// The message of the error.
    pub fn message(&self) -> (message: String)
        ensures
            message@ == self@.message(),
    {
        match self {
            PgCatalogError::Configuration { catalog_name } => {
                String::from_str("Catalog not found when registering pg_catalog: ").concat(
                    catalog_name.as_str(),
                )
            },
            PgCatalogError::CatalogLookup { catalog, schema, table, failure } => {
                match table {
                    Some(table) => String::from_str("Lookup of a table failed: ").concat(
                        table.as_str(),
                    ),
                    None => match schema {
                        Some(schema) => String::from_str("Lookup of a schema failed: ").concat(
                            schema.as_str(),
                        ),
                        None => match catalog {
                            Some(catalog) => String::from_str(
                                "Lookup of a catalog failed: ",
                            ).concat(catalog.as_str()),
                            None => String::from_str("Lookup of the catalogs failed"),
                        },
                    },
                }
            },
        }
    }
}

} // verus!

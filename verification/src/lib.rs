//! PostgreSQL-shaped system relations over a catalog of catalogs, schemas,
//! tables and columns.
//!
//! A fetch walks the catalog in its own enumeration order, hands every schema
//! and every table an identifier from a fresh counter, and lays the result out
//! as the rows of `pg_namespace`, `pg_class`, `pg_attribute` or `pg_database`.
//! The fixed relations (`pg_type`, `pg_proc`, `pg_am`) and the constant
//! introspection functions are compiled in.

pub mod catalog;
pub mod error;
pub mod functions;
pub mod laws;
pub mod oid;
pub mod pg_am;
pub mod pg_attribute;
pub mod pg_class;
pub mod pg_database;
pub mod pg_namespace;
pub mod pg_proc;
pub mod pg_type;
pub mod provider;
pub mod relation;
pub mod types;
pub mod walk_laws;
pub mod walker;
pub mod wire;

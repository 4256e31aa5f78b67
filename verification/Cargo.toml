[package]
name = "pg_catalog"
version = "0.1.0"
edition = "2021"
publish = false

[dependencies]
async-trait = "=0.1.92"
datafusion = { version = "=47.0.0", default-features = false }
futures = "=0.3.34"
pgwire = { version = "=0.30.2", default-features = false, features = ["server-api"] }

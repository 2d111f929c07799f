//! A generic persistence layer: typed create, read, update, delete and link
//! operations over relational tables, driven by per-resource metadata.
//!
//! The library decides and computes; it performs no I/O. Each operation is
//! split into a part that prepares a parameterized statement and a part that
//! interprets what the store answered. The caller carries the statement to
//! the store and brings the answer back.

pub mod engine;
pub mod error;
pub mod field;
pub mod flight_plan;
pub mod grpc;
pub mod identity;
pub mod links;
pub mod model;
pub mod names;
pub mod native;
pub mod psql;
pub mod resources;
pub mod row;
pub mod schema;
pub mod search;
pub mod text;
pub mod validation;

//! The pure parts of the SQLite store: labels, paths, lifecycle reports, the
//! schema's SQL and the queries that the store sends.
pub mod codec;
pub mod lifecycle;
pub mod migration_flow;
pub mod schema;
pub mod queries;
pub mod rows;
pub mod writes;
pub mod assembly;

//! What the storage and model adapters decide before and after their I/O.
pub mod model;
pub mod sqlite;

//! Configuration schema and the decisions it drives.

pub mod schema;

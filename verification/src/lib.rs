//! The backend of a desktop trading journal: the records that travel between
//! the interface and the backend, the JSON text each of them has on the wire,
//! and the schema of the database that stores them.

pub mod commands;
pub mod json;
pub mod naming;
pub mod number;
pub mod records;
pub mod schema;
pub mod unambiguous;

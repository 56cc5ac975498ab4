//! Storage and retrieval of archived conversations and memory notes over an
//! embedded SQLite store with full-text indexes.

pub mod model;
pub mod query;
pub mod rows;
pub mod sqlite;
pub mod schema;
pub mod service;
pub mod markers;

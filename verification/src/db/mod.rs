//! What the crawler keeps between runs.
pub mod runtime_db;

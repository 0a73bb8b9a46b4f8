//! Rendering of statements into SQL text and bound parameters.

pub mod laws;
pub mod pieces;
pub mod render;
pub mod shape;
pub mod sqlite;
pub mod vocabulary;
mod writer;

pub use sqlite::Sqlite;

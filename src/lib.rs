//! Backend of a transcription-history desktop application: the greeting
//! command and the schema migrations of its local SQLite store.

pub mod greeting;
pub mod migration;
pub mod schema;

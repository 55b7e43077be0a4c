//! Control logic of a geodata ingestion service that keeps a database in
//! step with a published extract: the loop that decides what each cycle
//! does and how long it waits afterwards, the refresh of the cached extract,
//! the command line of the import tool, the setup of the database, and the
//! rotation that makes freshly imported tables the live ones.
//!
//! Nothing here reads a file, talks to a database or starts a process. Each
//! part that needs the outside world is a state machine: its state says what
//! it asks for, and the caller hands back what came of it.

pub mod controller;
pub mod import;
pub mod provision;
pub mod refresh;
pub mod rotation;
pub mod schema;

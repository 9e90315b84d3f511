//! The service's configuration values, as plain data.
//!
//! The command-line and environment parsing lives with the surrounding
//! service; it fills these structs and hands them over.

use vstd::prelude::*;

verus! {

/// Where and how to reach the database server.
#[derive(Debug, PartialEq)]
pub struct DatabaseArgs {
    pub db_host: String,
    pub db_port: u16,
    pub db_user: String,
    pub db_name: String,
    pub db_password: String,
}

/// Configuration of the migration runner.
#[derive(Debug, PartialEq)]
pub struct MigrationArgs {
    pub db: DatabaseArgs,
}

/// Verbosity of the service's request log.
#[derive(Clone, Copy, Debug, PartialEq, Eq, Structural)]
pub enum LogLevel {
    Off,
    Error,
    Warn,
    Info,
    Debug,
    Trace,
}

/// Configuration of the service itself.
#[derive(Debug, PartialEq)]
pub struct ChordmateArgs {
    pub db: DatabaseArgs,
    /// The port where the service becomes available.
    pub port: u16,
    pub log_level: LogLevel,
}

} // verus!

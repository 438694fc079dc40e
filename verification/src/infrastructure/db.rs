//! Connection pools: how each backend's pool is set up.
//!
//! Opening a pool is left to the caller. What is fixed here is what the
//! caller opens it with.

use vstd::prelude::*;
use vstd::string::StringExecFns;

verus! {

/// The most connections a pool to a client-server database holds.
pub const PG_MAX_CONNECTIONS: u32 = 10;

/// The most connections a pool to a database file holds.
pub const SQLITE_MAX_CONNECTIONS: u32 = 5;

/// The size of the memory map of a database file, in bytes: 50 MiB.
pub const SQLITE_MMAP_SIZE: u64 = 52428800;

/// How a database file records changes before they are applied.
#[derive(Debug, Clone, Copy, PartialEq, Eq, Structural)]
pub enum JournalMode {
    Delete,
    Truncate,
    Persist,
    Memory,
    Wal,
    Off,
}

/// How often a database file is forced to disk.
#[derive(Debug, Clone, Copy, PartialEq, Eq, Structural)]
pub enum Synchronous {
    Off,
    Normal,
    Full,
    Extra,
}

/// The set-up of a pool to a client-server database.
#[derive(Debug)]
pub struct PgPoolSettings {
    pub url: String,
    pub max_connections: u32,
}

/// The set-up of a pool to a database file.
#[derive(Debug)]
pub struct SqlitePoolSettings {
    pub url: String,
    pub max_connections: u32,
    /// Whether the file is created where it does not exist.
    pub create_if_missing: bool,
    pub journal_mode: JournalMode,
    /// Whether references between tables are enforced.
    pub foreign_keys: bool,
    pub synchronous: Synchronous,
    /// The size of the memory map, in bytes.
    pub mmap_size: u64,
}

/// The pool to the client-server database at `db_url`: at most ten
/// connections.
pub fn pg_pool_settings(db_url: &str) -> (settings: PgPoolSettings)
    ensures
        settings.url@ == db_url@,
        settings.max_connections == 10,
{
    PgPoolSettings { url: String::from_str(db_url), max_connections: PG_MAX_CONNECTIONS }
}

/// The pool to the database file at `db_url`: at most five connections;
/// the file is created where it is missing; changes go through a
/// write-ahead log; references between tables are enforced; the file is
/// synchronised at the normal level; 50 MiB of it are mapped into
/// memory.
pub fn sqlite_pool_settings(db_url: &str) -> (settings: SqlitePoolSettings)
    ensures
        settings.url@ == db_url@,
        settings.max_connections == 5,
        settings.create_if_missing,
        settings.journal_mode == JournalMode::Wal,
        settings.foreign_keys,
        settings.synchronous == Synchronous::Normal,
        settings.mmap_size == 50 * 1024 * 1024,
{
    SqlitePoolSettings {
        url: String::from_str(db_url),
        max_connections: SQLITE_MAX_CONNECTIONS,
        create_if_missing: true,
        journal_mode: JournalMode::Wal,
        foreign_keys: true,
        synchronous: Synchronous::Normal,
        mmap_size: SQLITE_MMAP_SIZE,
    }
}

} // verus!

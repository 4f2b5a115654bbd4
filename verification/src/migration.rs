//! The schema migration descriptor and a model of what applying it
//! does to the local database.

use vstd::prelude::*;
use vstd::string::StringExecFns;

verus! {

/// The direction of a schema migration. The application only ever
/// moves the schema forward.
#[derive(Debug, Clone, Copy, PartialEq, Eq, Structural)]
pub enum MigrationKind {
    Up,
}

/// A versioned schema-change descriptor, handed to the persistence
/// plugin once at startup and never mutated afterwards.
#[derive(Debug, Clone)]
pub struct Migration {
    pub version: i64,
    pub description: String,
    pub sql: String,
    pub kind: MigrationKind,
}

/// The state of the local database, as far as this application's one
/// migration can change it: whether the backing file exists, the highest
/// migration version applied so far (0 when none has been), and whether
/// the clipboard-history table exists.
#[derive(Debug, Clone, Copy, PartialEq, Eq, Structural)]
pub struct DbState {
    pub file_exists: bool,
    pub applied_version: i64,
    pub history_table_exists: bool,
}

/// A database state that can actually arise: versions are never
/// negative, the clipboard-history table exists exactly when the
/// version-1 migration has run, and a migrated database has a file.
pub open spec fn db_well_formed(db: DbState) -> bool {
    &&& 0 <= db.applied_version
    &&& (db.history_table_exists <==> db.applied_version >= 1)
    &&& (db.applied_version >= 1 ==> db.file_exists)
}

/// The state of a database that has never been opened.
pub open spec fn spec_fresh_db() -> DbState {
    DbState { file_exists: false, applied_version: 0, history_table_exists: false }
}

impl DbState {
    /// The state before first startup: no file, no schema.
    pub fn fresh() -> (db: DbState)
        ensures
            db == spec_fresh_db(),
            db_well_formed(db),
    {
        DbState { file_exists: false, applied_version: 0, history_table_exists: false }
    }
}

/// The migration this application registers: version 1, moving the
/// schema forward, creating the clipboard-history table.
pub open spec fn is_clipboard_migration(m: Migration) -> bool {
    &&& m.version == 1
    &&& m.kind is Up
    &&& m.description@ == "create clipboard history table"@
}

/// Build the one migration descriptor the application registers.
/// The schema DDL itself is an opaque blob owned by the caller.
pub fn clipboard_migration(sql: String) -> (m: Migration)
    ensures
        is_clipboard_migration(m),
        m.sql == sql,
{
    Migration {
        version: 1,
        description: String::from_str("create clipboard history table"),
        sql: sql,
        kind: MigrationKind::Up,
    }
}

/// What applying a migration does to the database: nothing when the
/// database is already at or past that version, otherwise the schema
/// moves to that version. The version-1 migration is the one whose DDL
/// creates the clipboard-history table.
pub open spec fn spec_apply_migration(db: DbState, m: Migration) -> DbState {
    if db.applied_version >= m.version {
        db
    } else {
        DbState {
            file_exists: db.file_exists,
            applied_version: m.version,
            history_table_exists: db.history_table_exists || m.version == 1,
        }
    }
}

/// Apply one migration to an opened database: a no-op when the database
/// is already at or past the migration's version, never an error.
pub fn apply_migration(db: DbState, m: &Migration) -> (r: DbState)
    requires
        m.version >= 1,
        db.file_exists,
    ensures
        r == spec_apply_migration(db, *m),
        db.applied_version >= m.version ==> r == db,
        db.applied_version < m.version ==> r.applied_version == m.version,
        r.file_exists,
{
    if db.applied_version >= m.version {
        db
    } else {
        DbState {
            file_exists: db.file_exists,
            applied_version: m.version,
            history_table_exists: db.history_table_exists || m.version == 1,
        }
    }
}

/// Reapplying a migration is a no-op: once the database is at or past a
/// migration's version, applying that migration again changes nothing.
pub proof fn lemma_apply_migration_idempotent(db: DbState, m: Migration)
    ensures
        spec_apply_migration(spec_apply_migration(db, m), m) == spec_apply_migration(db, m),
{
}

/// Applying the application's migration to a well-formed opened
/// database leaves it well-formed.
pub proof fn lemma_apply_preserves_well_formed(db: DbState, m: Migration)
    requires
        db_well_formed(db),
        db.file_exists,
        is_clipboard_migration(m),
    ensures
        db_well_formed(spec_apply_migration(db, m)),
{
}

} // verus!

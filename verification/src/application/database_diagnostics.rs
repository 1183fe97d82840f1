//! Database diagnostics as the interface shows them.

use vstd::prelude::*;

use crate::persistence::database_manager::DatabaseHealthSnapshot;

verus! {

/// The persistence state reported to the interface.
#[derive(Debug, Clone)]
pub struct DatabaseDiagnostics {
    pub reachable: bool,
    pub database_path: String,
    pub schema_version: i64,
    pub pending_migrations: usize,
    pub foreign_keys_enabled: bool,
    pub journal_mode: String,
}

pub struct DatabaseDiagnosticsService;

impl DatabaseDiagnosticsService {
    /// Reports a health snapshot of a database that could be reached.
    pub fn from_snapshot(snapshot: DatabaseHealthSnapshot) -> (r: DatabaseDiagnostics)
        ensures
            r.reachable,
            r.database_path@ == snapshot.database_path@,
            r.schema_version == snapshot.schema_version,
            r.pending_migrations == snapshot.pending_migrations,
            r.foreign_keys_enabled == snapshot.foreign_keys_enabled,
            r.journal_mode@ == snapshot.journal_mode@,
    {
        DatabaseDiagnostics {
            reachable: true,
            database_path: snapshot.database_path,
            schema_version: snapshot.schema_version,
            pending_migrations: snapshot.pending_migrations,
            foreign_keys_enabled: snapshot.foreign_keys_enabled,
            journal_mode: snapshot.journal_mode,
        }
    }
}

} // verus!

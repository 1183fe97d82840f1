//! Database health: the integrity check verdict and the health snapshot.

use vstd::prelude::*;

use crate::persistence::error::{
    DatabaseErrorKind, DatabaseFailure, PersistenceError, PersistenceErrorView,
};
use crate::persistence::sqlite_error::{
    sqlite_error_message, sqlite_message, SqliteError, SqliteErrorView,
};
use crate::text::text_equals;

verus! {

/// The state of the database, as diagnostics report it.
#[derive(Debug, Clone)]
pub struct DatabaseHealthSnapshot {
    pub database_path: String,
    pub schema_version: i64,
    pub pending_migrations: usize,
    pub foreign_keys_enabled: bool,
    pub journal_mode: String,
}

/// The error reported when the integrity check fails.
pub open spec fn integrity_failure() -> PersistenceErrorView {
    PersistenceErrorView::Database {
        kind: DatabaseErrorKind::Other,
        message: sqlite_error_message(SqliteErrorView::InvalidQuery),
    }
}

/// The verdict on a freshly opened database: the quick check must answer
/// `ok` and no foreign key may be violated.
pub fn verify_integrity(quick_check: &str, foreign_key_violation_count: i64) -> (r: Result<
    (),
    PersistenceError,
>)
    ensures
        r is Ok <==> (quick_check@ == "ok"@ && foreign_key_violation_count <= 0),
        r is Err ==> r->Err_0@ == integrity_failure(),
{
    if !text_equals(quick_check, "ok") || foreign_key_violation_count > 0 {
        return Err(
            PersistenceError::Database(
                DatabaseFailure {
                    kind: DatabaseErrorKind::Other,
                    message: sqlite_message(SqliteError::InvalidQuery),
                },
            ),
        );
    }
    Ok(())
}

/// Whether the `foreign_keys` pragma value means enforcement is on.
pub fn foreign_keys_enabled(pragma_value: i64) -> (r: bool)
    ensures
        r == (pragma_value == 1),
{
    pragma_value == 1
}

} // verus!

//! Persistence failures, with database errors described by their class and
//! message.

use vstd::prelude::*;

use crate::text::{decimal_text_i64, join2, join3, owned_text, signed_decimal};

verus! {

/// The classes of database errors that the persistence layer tells apart.
#[derive(Debug, Clone, Copy, PartialEq, Eq, Structural)]
pub enum DatabaseErrorKind {
    ConstraintViolation,
    DatabaseBusy,
    DatabaseLocked,
    CannotOpen,
    ConversionFailure,
    Other,
}

/// A database error: its class and its message.
#[derive(Debug, Clone, PartialEq, Eq)]
pub struct DatabaseFailure {
    pub kind: DatabaseErrorKind,
    pub message: String,
}

/// A failure of the persistence layer.
#[derive(Debug, Clone, PartialEq, Eq)]
pub enum PersistenceError {
    PathResolution { message: String },
    DirectoryCreation { path: String, message: String },
    Database(DatabaseFailure),
    LockPoisoned,
    MigrationChecksumMismatch { version: i64 },
    MigrationFailed { version: i64, source: DatabaseFailure },
}

/// The model of a `PersistenceError`.
pub enum PersistenceErrorView {
    PathResolution { message: Seq<char> },
    DirectoryCreation { path: Seq<char>, message: Seq<char> },
    Database { kind: DatabaseErrorKind, message: Seq<char> },
    LockPoisoned,
    MigrationChecksumMismatch { version: i64 },
    MigrationFailed { version: i64, kind: DatabaseErrorKind, message: Seq<char> },
}

impl View for PersistenceError {
    type V = PersistenceErrorView;

    open spec fn view(&self) -> PersistenceErrorView {
        match self {
            PersistenceError::PathResolution { message } => PersistenceErrorView::PathResolution {
                message: message@,
            },
            PersistenceError::DirectoryCreation { path, message } =>
                PersistenceErrorView::DirectoryCreation { path: path@, message: message@ },
            PersistenceError::Database(f) => PersistenceErrorView::Database {
                kind: f.kind,
                message: f.message@,
            },
            PersistenceError::LockPoisoned => PersistenceErrorView::LockPoisoned,
            PersistenceError::MigrationChecksumMismatch { version } =>
                PersistenceErrorView::MigrationChecksumMismatch { version: *version },
            PersistenceError::MigrationFailed { version, source } =>
                PersistenceErrorView::MigrationFailed {
                    version: *version,
                    kind: source.kind,
                    message: source.message@,
                },
        }
    }
}

/// The message of a persistence error.
pub open spec fn persistence_error_message(e: PersistenceErrorView) -> Seq<char> {
    match e {
        PersistenceErrorView::PathResolution { message } =>
            "failed to resolve the application data directory: "@ + message,
        PersistenceErrorView::DirectoryCreation { path, message } =>
            "failed to create the database directory at "@ + path + ": "@ + message,
        PersistenceErrorView::Database { message, .. } => "database operation failed: "@ + message,
        PersistenceErrorView::LockPoisoned => "database state lock is unavailable"@,
        PersistenceErrorView::MigrationChecksumMismatch { version } => "migration "@
            + signed_decimal(version as int)
            + " has a different checksum than the applied migration"@,
        PersistenceErrorView::MigrationFailed { version, message, .. } => "migration "@
            + signed_decimal(version as int) + " failed: "@ + message,
    }
}

impl PersistenceError {
    /// The message of this error.
    pub fn to_string(&self) -> (r: String)
        ensures
            r@ == persistence_error_message(self@),
    {
        match self {
            PersistenceError::PathResolution { message } => join2(
                "failed to resolve the application data directory: ",
                message.as_str(),
            ),
            PersistenceError::DirectoryCreation { path, message } => join3(
                "failed to create the database directory at ",
                path.as_str(),
                ": ",
            ).concat(message.as_str()),
            PersistenceError::Database(f) => join2(
                "database operation failed: ",
                f.message.as_str(),
            ),
            PersistenceError::LockPoisoned => owned_text("database state lock is unavailable"),
            PersistenceError::MigrationChecksumMismatch { version } => {
                let v = decimal_text_i64(*version);
                join3("migration ", v.as_str(), " has a different checksum than the applied migration")
            },
            PersistenceError::MigrationFailed { version, source } => {
                let v = decimal_text_i64(*version);
                join3("migration ", v.as_str(), " failed: ").concat(source.message.as_str())
            },
        }
    }
}

} // verus!

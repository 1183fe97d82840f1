//! Decoding of the stored settings row and reporting of settings storage
//! failures.

use vstd::prelude::*;

use crate::domain::settings::{
    parse_theme, settings_error_message, ApplicationSettings,
    SettingsValidationErrorView, ThemePreference,
};
use crate::domain::settings_repository::SettingsRepositoryError;
use crate::persistence::error::{
    persistence_error_message, DatabaseErrorKind, DatabaseFailure, PersistenceError,
    PersistenceErrorView,
};
use crate::persistence::project_repository::conversion_error;
use crate::persistence::sqlite_error::{
    sqlite_error_message, sqlite_message, SqliteError, SqliteErrorView, StoredType,
};

verus! {

/// Decodes the stored settings columns `theme`, `language`, `updated_at`.
pub fn settings_from_row(theme: String, language: String, updated_at: String) -> (r: Result<
    ApplicationSettings,
    PersistenceError,
>)
    ensures
        match parse_theme(theme@) {
            Some(t) => r is Ok && r->Ok_0.theme == t && r->Ok_0.language@ == language@
                && r->Ok_0.updated_at@ == updated_at@,
            None => r is Err && r->Err_0@ == conversion_error(
                0,
                StoredType::Text,
                settings_error_message(SettingsValidationErrorView::InvalidTheme(theme@)),
            ),
        },
{
    match ThemePreference::from_text(theme.as_str()) {
        Ok(t) => Ok(ApplicationSettings { theme: t, language, updated_at }),
        Err(error) => {
            let cause = error.to_string();
            let message = sqlite_message(
                SqliteError::ConversionFailure { column: 0, stored: StoredType::Text, cause },
            );
            Err(
                PersistenceError::Database(
                    DatabaseFailure { kind: DatabaseErrorKind::ConversionFailure, message },
                ),
            )
        },
    }
}

/// The error of an update that did not change exactly the one settings row.
pub open spec fn missing_settings_row() -> PersistenceErrorView {
    PersistenceErrorView::Database {
        kind: DatabaseErrorKind::Other,
        message: sqlite_error_message(SqliteErrorView::QueryReturnedNoRows),
    }
}

/// Checks that an update changed exactly the one settings row.
pub fn settings_update_result(affected_rows: usize) -> (r: Result<(), PersistenceError>)
    ensures
        affected_rows == 1 ==> r is Ok,
        affected_rows != 1 ==> r is Err && r->Err_0@ == missing_settings_row(),
{
    if affected_rows != 1 {
        Err(
            PersistenceError::Database(
                DatabaseFailure {
                    kind: DatabaseErrorKind::Other,
                    message: sqlite_message(SqliteError::QueryReturnedNoRows),
                },
            ),
        )
    } else {
        Ok(())
    }
}

/// Reports a persistence failure by its message.
pub fn map_settings_persistence_error(error: PersistenceError) -> (r: SettingsRepositoryError)
    ensures
        r@ == persistence_error_message(error@),
{
    let message = error.to_string();
    SettingsRepositoryError::new(message.as_str())
}

} // verus!

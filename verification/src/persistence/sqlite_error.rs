//! The SQLite errors that the persistence logic raises itself, and the
//! messages that rusqlite gives them.

use vstd::prelude::*;

use crate::text::decimal;

verus! {

/// The storage class of a column value that could not be converted.
#[derive(Debug, Clone, Copy, PartialEq, Eq, Structural)]
pub enum StoredType {
    Integer,
    Text,
}

/// The name rusqlite gives a storage class.
pub open spec fn stored_type_text(stored: StoredType) -> Seq<char> {
    match stored {
        StoredType::Integer => "Integer"@,
        StoredType::Text => "Text"@,
    }
}

/// An SQLite error raised by the persistence logic: a stored value that does
/// not convert, an update that matched no row, or a failed check.
#[derive(Debug, Clone, PartialEq, Eq)]
pub enum SqliteError {
    ConversionFailure { column: usize, stored: StoredType, cause: String },
    QueryReturnedNoRows,
    InvalidQuery,
}

/// The model of a `SqliteError`.
pub enum SqliteErrorView {
    ConversionFailure { column: usize, stored: StoredType, cause: Seq<char> },
    QueryReturnedNoRows,
    InvalidQuery,
}

impl View for SqliteError {
    type V = SqliteErrorView;

    open spec fn view(&self) -> SqliteErrorView {
        match self {
            SqliteError::ConversionFailure { column, stored, cause } =>
                SqliteErrorView::ConversionFailure { column: *column, stored: *stored, cause: cause@ },
            SqliteError::QueryReturnedNoRows => SqliteErrorView::QueryReturnedNoRows,
            SqliteError::InvalidQuery => SqliteErrorView::InvalidQuery,
        }
    }
}

/// The message rusqlite writes for an error: a conversion failure names the
/// storage class and the column, unless the column is unknown
/// (`usize::MAX`), then gives its cause.
pub open spec fn sqlite_error_message(e: SqliteErrorView) -> Seq<char> {
    match e {
        SqliteErrorView::ConversionFailure { column, stored, cause } => if column != usize::MAX {
            "Conversion error from type "@ + stored_type_text(stored) + " at index: "@ + decimal(
                column as nat,
            ) + ", "@ + cause
        } else {
            cause
        },
        SqliteErrorView::QueryReturnedNoRows => "Query returned no rows"@,
        SqliteErrorView::InvalidQuery => "Query is not read-only"@,
    }
}

/// The message of `error` as rusqlite writes it: the error becomes the
/// `rusqlite::Error` variant of the same name (`FromSqlConversionFailure`
/// with the cause boxed as an error, `QueryReturnedNoRows`, `InvalidQuery`)
/// and is formatted by its `Display` impl. The contract states the texts
/// that impl writes for these variants in rusqlite 0.32.
#[verifier::external_body]
pub(crate) fn sqlite_message(error: SqliteError) -> (r: String)
    ensures
        r@ == sqlite_error_message(error@),
{
    let error = match error {
        SqliteError::ConversionFailure { column, stored, cause } => {
            let stored = match stored {
                StoredType::Integer => rusqlite::types::Type::Integer,
                StoredType::Text => rusqlite::types::Type::Text,
            };
            rusqlite::Error::FromSqlConversionFailure(column, stored, Box::from(cause))
        },
        SqliteError::QueryReturnedNoRows => rusqlite::Error::QueryReturnedNoRows,
        SqliteError::InvalidQuery => rusqlite::Error::InvalidQuery,
    };
    format!("{error}")
}

} // verus!

//! What the persistence decisions mean, stated column by column and failure
//! by failure.

use vstd::prelude::*;

use crate::domain::project::{parse_status, parse_type, ProjectView};
use crate::domain::project_laws::normalized_opt;
use crate::domain::project_repository::ProjectRepositoryErrorView;
use crate::persistence::error::{persistence_error_message, DatabaseErrorKind, PersistenceErrorView};
use crate::persistence::project_repository::{
    decode_project_row, is_constraint, is_corrupted, is_unavailable, repository_error_for,
    ProjectRow,
};
use crate::text::{opt_view, trim};

verus! {

/// A decoded row gives each column to the field of the same name: texts
/// trimmed, blank optional texts dropped, the type and status read from
/// their texts, the priority as stored.
pub proof fn law_decoded_rows_keep_their_columns(row: ProjectRow)
    requires
        decode_project_row(row) is Ok,
    ensures
        ({
            let p: ProjectView = decode_project_row(row)->Ok_0;
            &&& p.id == row.id@
            &&& p.name == trim(row.name@)
            &&& p.description == normalized_opt(opt_view(row.description))
            &&& parse_type(row.project_type@) == Some(p.project_type)
            &&& parse_status(row.status@) == Some(p.status)
            &&& p.start_date == normalized_opt(opt_view(row.start_date))
            &&& p.target_date == normalized_opt(opt_view(row.target_date))
            &&& p.priority as i64 == row.priority
            &&& p.color == normalized_opt(opt_view(row.color))
            &&& p.icon == normalized_opt(opt_view(row.icon))
            &&& p.objective == normalized_opt(opt_view(row.objective))
            &&& p.settings_json == trim(row.settings_json@)
            &&& p.created_at == trim(row.created_at@)
            &&& p.updated_at == trim(row.updated_at@)
            &&& p.archived_at == normalized_opt(opt_view(row.archived_at))
            &&& p.deleted_at == normalized_opt(opt_view(row.deleted_at))
        }),
{
}

/// A row with an unknown type, an unknown status or a priority outside
/// 0 to 255 is never decoded.
pub proof fn law_unreadable_rows_are_refused(row: ProjectRow)
    ensures
        parse_type(row.project_type@) is None ==> decode_project_row(row) is Err,
        parse_status(row.status@) is None ==> decode_project_row(row) is Err,
        !(0 <= row.priority <= 255) ==> decode_project_row(row) is Err,
{
}

/// Storage failures are classified by their kind: a busy, locked or
/// unopenable database and a poisoned lock make storage unavailable; a
/// failed conversion is corrupted data, reported with its message; a
/// constraint violation is the only constraint failure; anything else is
/// unexpected, reported with its message.
pub proof fn law_storage_failures_are_classified(e: PersistenceErrorView)
    ensures
        e is LockPoisoned ==> repository_error_for(e) is Unavailable,
        e matches PersistenceErrorView::Database { kind, .. } ==> (is_unavailable(e) <==> (kind
            == DatabaseErrorKind::DatabaseBusy || kind == DatabaseErrorKind::DatabaseLocked || kind
            == DatabaseErrorKind::CannotOpen)),
        e matches PersistenceErrorView::Database { kind, .. } ==> (is_corrupted(e) <==> kind
            == DatabaseErrorKind::ConversionFailure),
        is_constraint(e) <==> (e matches PersistenceErrorView::Database { kind, .. } && kind
            == DatabaseErrorKind::ConstraintViolation),
        is_unavailable(e) ==> repository_error_for(e) is Unavailable,
        !is_unavailable(e) && is_corrupted(e) ==> repository_error_for(e)
            == (ProjectRepositoryErrorView::CorruptedData { details: persistence_error_message(e) }),
        !is_unavailable(e) && !is_corrupted(e) ==> repository_error_for(e)
            == (ProjectRepositoryErrorView::Unexpected { details: persistence_error_message(e) }),
{
}

} // verus!

//! Decoding of stored project rows and reporting of project storage failures.

use vstd::prelude::*;

use crate::domain::project::{
    is_well_formed, parse_status, parse_type, project_error_message, reconstitute_outcome,
    status_text, type_text, Project, ProjectErrorView, ProjectStatus, ProjectType, ProjectView,
};
use crate::domain::project_laws::{
    law_reconstitute_round_trip, law_status_text_round_trip, law_type_text_round_trip,
};
use crate::domain::project_repository::{ProjectRepositoryError, ProjectRepositoryErrorView};
use crate::persistence::error::{
    persistence_error_message, DatabaseErrorKind, DatabaseFailure, PersistenceError,
    PersistenceErrorView,
};
use crate::persistence::sqlite_error::{
    sqlite_error_message, sqlite_message, SqliteError, SqliteErrorView, StoredType,
};
use crate::text::{opt_str_view, opt_view, owned_text};

verus! {

/// The columns of a stored project, in table order, as the database returns
/// them.
#[derive(Debug, Clone)]
pub struct ProjectRow {
    pub id: String,
    pub name: String,
    pub description: Option<String>,
    pub project_type: String,
    pub status: String,
    pub start_date: Option<String>,
    pub target_date: Option<String>,
    pub priority: i64,
    pub color: Option<String>,
    pub icon: Option<String>,
    pub objective: Option<String>,
    pub settings_json: String,
    pub created_at: String,
    pub updated_at: String,
    pub archived_at: Option<String>,
    pub deleted_at: Option<String>,
}

/// The error of a failed conversion of column `column`, stored as `stored`,
/// for reason `cause`, with the message rusqlite gives it.
pub open spec fn conversion_error(column: usize, stored: StoredType, cause: Seq<char>) -> PersistenceErrorView {
    PersistenceErrorView::Database {
        kind: DatabaseErrorKind::ConversionFailure,
        message: sqlite_error_message(SqliteErrorView::ConversionFailure { column, stored, cause }),
    }
}

/// The stored fields of a row whose type and status were read.
pub open spec fn row_fields(row: ProjectRow, project_type: ProjectType, status: ProjectStatus) -> ProjectView {
    ProjectView {
        id: row.id@,
        name: row.name@,
        description: opt_view(row.description),
        project_type,
        status,
        start_date: opt_view(row.start_date),
        target_date: opt_view(row.target_date),
        priority: row.priority as u8,
        color: opt_view(row.color),
        icon: opt_view(row.icon),
        objective: opt_view(row.objective),
        settings_json: row.settings_json@,
        created_at: row.created_at@,
        updated_at: row.updated_at@,
        archived_at: opt_view(row.archived_at),
        deleted_at: opt_view(row.deleted_at),
    }
}

/// What decoding a stored row gives: the reconstituted project, or the
/// conversion error of the first column that cannot be read.
pub open spec fn decode_project_row(row: ProjectRow) -> Result<ProjectView, PersistenceErrorView> {
    if parse_type(row.project_type@) is None {
        Err(
            conversion_error(
                3,
                StoredType::Text,
                project_error_message(ProjectErrorView::InvalidType(row.project_type@)),
            ),
        )
    } else if parse_status(row.status@) is None {
        Err(
            conversion_error(
                4,
                StoredType::Text,
                project_error_message(ProjectErrorView::InvalidStatus(row.status@)),
            ),
        )
    } else if !(0 <= row.priority <= 255) {
        Err(conversion_error(7, StoredType::Integer, "out of range integral type conversion attempted"@))
    } else {
        match reconstitute_outcome(
            row_fields(row, parse_type(row.project_type@)->0, parse_status(row.status@)->0),
        ) {
            Ok(p) => Ok(p),
            Err(e) => Err(conversion_error(0, StoredType::Text, project_error_message(e))),
        }
    }
}

fn conversion_failure(column: usize, stored: StoredType, cause: String) -> (r: PersistenceError)
    ensures
        r@ == conversion_error(column, stored, cause@),
{
    let message = sqlite_message(SqliteError::ConversionFailure { column, stored, cause });
    PersistenceError::Database(
        DatabaseFailure { kind: DatabaseErrorKind::ConversionFailure, message },
    )
}

/// Decodes a stored row into a project.
pub fn project_from_row(row: ProjectRow) -> (r: Result<Project, PersistenceError>)
    ensures
        match r {
            Ok(p) => decode_project_row(row) == Ok::<ProjectView, PersistenceErrorView>(p@),
            Err(e) => decode_project_row(row) == Err::<ProjectView, PersistenceErrorView>(e@),
        },
{
    let project_type = match ProjectType::from_text(row.project_type.as_str()) {
        Ok(t) => t,
        Err(error) => {
            let cause = error.to_string();
            return Err(conversion_failure(3, StoredType::Text, cause));
        },
    };
    let status = match ProjectStatus::from_text(row.status.as_str()) {
        Ok(s) => s,
        Err(error) => {
            let cause = error.to_string();
            return Err(conversion_failure(4, StoredType::Text, cause));
        },
    };
    if row.priority < 0 || row.priority > 255 {
        return Err(
            conversion_failure(
                7,
                StoredType::Integer,
                owned_text("out of range integral type conversion attempted"),
            ),
        );
    }
    let priority = row.priority as u8;
    match Project::reconstitute(
        row.id,
        row.name,
        row.description,
        project_type,
        status,
        row.start_date,
        row.target_date,
        priority,
        row.color,
        row.icon,
        row.objective,
        row.settings_json,
        row.created_at,
        row.updated_at,
        row.archived_at,
        row.deleted_at,
    ) {
        Ok(project) => Ok(project),
        Err(error) => {
            let cause = error.to_string();
            Err(conversion_failure(0, StoredType::Text, cause))
        },
    }
}

/// A failure that means the database could not be used at all.
pub open spec fn is_unavailable(e: PersistenceErrorView) -> bool {
    match e {
        PersistenceErrorView::LockPoisoned => true,
        PersistenceErrorView::Database { kind, .. } => kind == DatabaseErrorKind::DatabaseBusy
            || kind == DatabaseErrorKind::DatabaseLocked || kind == DatabaseErrorKind::CannotOpen,
        _ => false,
    }
}

/// A failure that means stored data could not be read as a project.
pub open spec fn is_corrupted(e: PersistenceErrorView) -> bool {
    e matches PersistenceErrorView::Database { kind, .. } && kind
        == DatabaseErrorKind::ConversionFailure
}

/// A failure that means a database constraint refused a write.
pub open spec fn is_constraint(e: PersistenceErrorView) -> bool {
    e matches PersistenceErrorView::Database { kind, .. } && kind
        == DatabaseErrorKind::ConstraintViolation
}

/// How a persistence failure is reported by the project repository.
pub open spec fn repository_error_for(e: PersistenceErrorView) -> ProjectRepositoryErrorView {
    if is_unavailable(e) {
        ProjectRepositoryErrorView::Unavailable
    } else if is_corrupted(e) {
        ProjectRepositoryErrorView::CorruptedData { details: persistence_error_message(e) }
    } else {
        ProjectRepositoryErrorView::Unexpected { details: persistence_error_message(e) }
    }
}

pub fn is_database_unavailable(error: &PersistenceError) -> (r: bool)
    ensures
        r == is_unavailable(error@),
{
    match error {
        PersistenceError::LockPoisoned => true,
        PersistenceError::Database(f) => f.kind == DatabaseErrorKind::DatabaseBusy || f.kind
            == DatabaseErrorKind::DatabaseLocked || f.kind == DatabaseErrorKind::CannotOpen,
        _ => false,
    }
}

pub fn is_corrupted_data_error(error: &PersistenceError) -> (r: bool)
    ensures
        r == is_corrupted(error@),
{
    match error {
        PersistenceError::Database(f) => f.kind == DatabaseErrorKind::ConversionFailure,
        _ => false,
    }
}

pub fn is_constraint_violation(error: &PersistenceError) -> (r: bool)
    ensures
        r == is_constraint(error@),
{
    match error {
        PersistenceError::Database(f) => f.kind == DatabaseErrorKind::ConstraintViolation,
        _ => false,
    }
}

/// Reports a persistence failure without storage internals beyond its
/// message.
pub fn map_persistence_error(error: PersistenceError) -> (r: ProjectRepositoryError)
    ensures
        r@ == repository_error_for(error@),
{
    if is_database_unavailable(&error) {
        return ProjectRepositoryError::unavailable();
    }
    let details = error.to_string();
    if is_corrupted_data_error(&error) {
        return ProjectRepositoryError::corrupted_data(details.as_str());
    }
    ProjectRepositoryError::unexpected(details.as_str())
}

/// Reports a failed insert: a constraint violation is a conflict on the
/// project's identifier.
pub fn map_insert_error(error: PersistenceError, project_id: &str) -> (r: ProjectRepositoryError)
    ensures
        r@ == if is_constraint(error@) {
            ProjectRepositoryErrorView::Conflict { id: project_id@ }
        } else {
            repository_error_for(error@)
        },
{
    if is_constraint_violation(&error) {
        ProjectRepositoryError::conflict(project_id)
    } else {
        map_persistence_error(error)
    }
}

/// Reports the result of an update statement: no affected row means that
/// no stored project has the identifier.
pub fn update_result(affected_rows: Result<usize, PersistenceError>, project_id: &str) -> (r: Result<
    (),
    ProjectRepositoryError,
>)
    ensures
        match affected_rows {
            Ok(n) => if n == 0 {
                r is Err && r->Err_0@ == (ProjectRepositoryErrorView::NotFound { id: project_id@ })
            } else {
                r is Ok
            },
            Err(e) => r is Err && r->Err_0@ == repository_error_for(e@),
        },
{
    match affected_rows {
        Ok(n) => if n == 0 {
            Err(ProjectRepositoryError::not_found(project_id))
        } else {
            Ok(())
        },
        Err(error) => Err(map_persistence_error(error)),
    }
}


/// The row that storing project `p` writes: every field, the type and
/// status by their persisted texts, the priority as an integer.
pub open spec fn is_stored_row_of(row: ProjectRow, p: ProjectView) -> bool {
    &&& row.id@ == p.id
    &&& row.name@ == p.name
    &&& opt_view(row.description) == p.description
    &&& row.project_type@ == type_text(p.project_type)
    &&& row.status@ == status_text(p.status)
    &&& opt_view(row.start_date) == p.start_date
    &&& opt_view(row.target_date) == p.target_date
    &&& row.priority == p.priority as i64
    &&& opt_view(row.color) == p.color
    &&& opt_view(row.icon) == p.icon
    &&& opt_view(row.objective) == p.objective
    &&& row.settings_json@ == p.settings_json
    &&& row.created_at@ == p.created_at
    &&& row.updated_at@ == p.updated_at
    &&& opt_view(row.archived_at) == p.archived_at
    &&& opt_view(row.deleted_at) == p.deleted_at
}

fn owned_optional(o: Option<&str>) -> (r: Option<String>)
    ensures
        opt_view(r) == opt_str_view(o),
{
    match o {
        Some(s) => Some(owned_text(s)),
        None => None,
    }
}

/// The row that storing `project` writes.
pub fn row_from_project(project: &Project) -> (r: ProjectRow)
    ensures
        is_stored_row_of(r, project@),
{
    ProjectRow {
        id: owned_text(project.id()),
        name: owned_text(project.name()),
        description: owned_optional(project.description()),
        project_type: owned_text(project.project_type().as_str()),
        status: owned_text(project.status().as_str()),
        start_date: owned_optional(project.start_date()),
        target_date: owned_optional(project.target_date()),
        priority: project.priority() as i64,
        color: owned_optional(project.color()),
        icon: owned_optional(project.icon()),
        objective: owned_optional(project.objective()),
        settings_json: owned_text(project.settings_json()),
        created_at: owned_text(project.created_at()),
        updated_at: owned_text(project.updated_at()),
        archived_at: owned_optional(project.archived_at()),
        deleted_at: owned_optional(project.deleted_at()),
    }
}

/// Reading back the row that storing a project wrote gives the same project.
pub proof fn law_stored_rows_read_back(row: ProjectRow, p: ProjectView)
    requires
        is_well_formed(p),
        is_stored_row_of(row, p),
    ensures
        decode_project_row(row) == Ok::<ProjectView, PersistenceErrorView>(p),
{
    law_type_text_round_trip(p.project_type, row.project_type@);
    law_status_text_round_trip(p.status, row.status@);
    assert(row_fields(row, p.project_type, p.status) =~= p);
    law_reconstitute_round_trip(p);
}

} // verus!

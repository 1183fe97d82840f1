//! The persistence contract for projects and its error vocabulary.

use vstd::prelude::*;

use crate::domain::project::{Project, ProjectStatus};
use crate::text::{join2, join3, owned_text};

verus! {

/// Domain-facing persistence contract for [`Project`].
///
/// Implementations live in the infrastructure layer. The domain and
/// application layers depend only on this abstraction. The `ensures` clauses
/// state what the documentation of each method asks of every implementation;
/// nothing checks an implementation against them.
pub trait ProjectRepository: Send + Sync {
    /// Returns a non-deleted project by its identifier; soft-deleted projects
    /// are not returned.
    fn find_by_id(&self, id: &str) -> (r: Result<Option<Project>, ProjectRepositoryError>)
        ensures
            r matches Ok(Some(p)) ==> p@.id == id@ && p@.deleted_at is None,
    ;

    /// Returns every non-deleted, non-archived project, in a stable order.
    fn list_active(&self) -> (r: Result<Vec<Project>, ProjectRepositoryError>)
        ensures
            r matches Ok(v) ==> forall|i: int|
                0 <= i < v@.len() ==> (#[trigger] v@[i])@.deleted_at is None && v@[i]@.status
                    != ProjectStatus::Archived,
    ;

    /// Returns every non-deleted archived project, in a stable order.
    fn list_archived(&self) -> (r: Result<Vec<Project>, ProjectRepositoryError>)
        ensures
            r matches Ok(v) ==> forall|i: int|
                0 <= i < v@.len() ==> (#[trigger] v@[i])@.deleted_at is None && v@[i]@.status
                    == ProjectStatus::Archived,
    ;

    /// Persists a newly created project; `Conflict` when the identifier is
    /// already stored.
    fn insert(&self, project: &Project) -> Result<(), ProjectRepositoryError>;

    /// Persists the current state of a stored project; `NotFound` when no
    /// stored project has its identifier.
    fn update(&self, project: &Project) -> Result<(), ProjectRepositoryError>;
}

/// Stable error vocabulary exposed by project repositories.
#[derive(Debug, Clone, PartialEq, Eq)]
pub enum ProjectRepositoryError {
    NotFound { id: String },
    Conflict { id: String },
    Unavailable,
    CorruptedData { details: String },
    Unexpected { details: String },
}

/// The model of a `ProjectRepositoryError`.
pub enum ProjectRepositoryErrorView {
    NotFound { id: Seq<char> },
    Conflict { id: Seq<char> },
    Unavailable,
    CorruptedData { details: Seq<char> },
    Unexpected { details: Seq<char> },
}

impl View for ProjectRepositoryError {
    type V = ProjectRepositoryErrorView;

    open spec fn view(&self) -> ProjectRepositoryErrorView {
        match self {
            ProjectRepositoryError::NotFound { id } => ProjectRepositoryErrorView::NotFound {
                id: id@,
            },
            ProjectRepositoryError::Conflict { id } => ProjectRepositoryErrorView::Conflict {
                id: id@,
            },
            ProjectRepositoryError::Unavailable => ProjectRepositoryErrorView::Unavailable,
            ProjectRepositoryError::CorruptedData { details } =>
                ProjectRepositoryErrorView::CorruptedData { details: details@ },
            ProjectRepositoryError::Unexpected { details } =>
                ProjectRepositoryErrorView::Unexpected { details: details@ },
        }
    }
}

/// The message of a repository error.
pub open spec fn repository_error_message(e: ProjectRepositoryErrorView) -> Seq<char> {
    match e {
        ProjectRepositoryErrorView::NotFound { id } => "project `"@ + id + "` was not found"@,
        ProjectRepositoryErrorView::Conflict { id } => "project `"@ + id + "` already exists"@,
        ProjectRepositoryErrorView::Unavailable => "project storage is unavailable"@,
        ProjectRepositoryErrorView::CorruptedData { details } => "stored project data is invalid: "@
            + details,
        ProjectRepositoryErrorView::Unexpected { details } => "unexpected project storage error: "@
            + details,
    }
}

impl ProjectRepositoryError {
    pub fn not_found(id: &str) -> (r: ProjectRepositoryError)
        ensures
            r@ == (ProjectRepositoryErrorView::NotFound { id: id@ }),
    {
        ProjectRepositoryError::NotFound { id: owned_text(id) }
    }

    pub fn conflict(id: &str) -> (r: ProjectRepositoryError)
        ensures
            r@ == (ProjectRepositoryErrorView::Conflict { id: id@ }),
    {
        ProjectRepositoryError::Conflict { id: owned_text(id) }
    }

    pub fn unavailable() -> (r: ProjectRepositoryError)
        ensures
            r@ == ProjectRepositoryErrorView::Unavailable,
    {
        ProjectRepositoryError::Unavailable
    }

    pub fn corrupted_data(details: &str) -> (r: ProjectRepositoryError)
        ensures
            r@ == (ProjectRepositoryErrorView::CorruptedData { details: details@ }),
    {
        ProjectRepositoryError::CorruptedData { details: owned_text(details) }
    }

    pub fn unexpected(details: &str) -> (r: ProjectRepositoryError)
        ensures
            r@ == (ProjectRepositoryErrorView::Unexpected { details: details@ }),
    {
        ProjectRepositoryError::Unexpected { details: owned_text(details) }
    }

    /// The message of this error.
    pub fn to_string(&self) -> (r: String)
        ensures
            r@ == repository_error_message(self@),
    {
        match self {
            ProjectRepositoryError::NotFound { id } => join3(
                "project `",
                id.as_str(),
                "` was not found",
            ),
            ProjectRepositoryError::Conflict { id } => join3(
                "project `",
                id.as_str(),
                "` already exists",
            ),
            ProjectRepositoryError::Unavailable => owned_text("project storage is unavailable"),
            ProjectRepositoryError::CorruptedData { details } => join2("stored project data is invalid: ", details.as_str()),
            ProjectRepositoryError::Unexpected { details } => join2("unexpected project storage error: ", details.as_str()),
        }
    }
}

} // verus!

//! What the project service reports, stated field by field against the
//! projects and requests it is about.

use vstd::prelude::*;

use crate::application::project::{
    changes_of, lookup_outcome, new_project_view, response_of, save_reported, service_error_of,
    CreateProjectRequest, ProjectServiceErrorView, UpdateProjectRequest,
};
use crate::domain::project::{Project, ProjectView};
use crate::domain::project_repository::{ProjectRepositoryError, ProjectRepositoryErrorView};
use crate::text::opt_view;

verus! {

/// A response reports every field of its project under the field's own
/// name; only the deletion time is left out.
pub proof fn law_responses_report_each_field(p: ProjectView)
    ensures
        response_of(p).id == p.id,
        response_of(p).name == p.name,
        response_of(p).description == p.description,
        response_of(p).project_type == p.project_type,
        response_of(p).status == p.status,
        response_of(p).start_date == p.start_date,
        response_of(p).target_date == p.target_date,
        response_of(p).priority == p.priority,
        response_of(p).color == p.color,
        response_of(p).icon == p.icon,
        response_of(p).objective == p.objective,
        response_of(p).settings_json == p.settings_json,
        response_of(p).created_at == p.created_at,
        response_of(p).updated_at == p.updated_at,
        response_of(p).archived_at == p.archived_at,
{
}

/// Two projects with the same response agree on every field but the
/// deletion time.
pub proof fn law_responses_tell_projects_apart(p: ProjectView, q: ProjectView)
    requires
        response_of(p) == response_of(q),
        p.deleted_at == q.deleted_at,
    ensures
        p == q,
{
}

/// An update request asks for exactly the changes it carries, each under
/// its own name.
pub proof fn law_update_requests_ask_for_their_changes(request: UpdateProjectRequest)
    ensures
        changes_of(request).name == request.name,
        changes_of(request).description == request.description,
        changes_of(request).project_type == request.project_type,
        changes_of(request).start_date == request.start_date,
        changes_of(request).target_date == request.target_date,
        changes_of(request).priority == request.priority,
        changes_of(request).color == request.color,
        changes_of(request).icon == request.icon,
        changes_of(request).objective == request.objective,
        changes_of(request).settings_json == request.settings_json,
{
}

/// The creation data of a request: the generated identifier and the current
/// time as identity and creation time, every requested field under its own
/// name, priority 3 and settings `{}` when the request gives none.
pub proof fn law_creation_requests_fill_defaults(
    request: CreateProjectRequest,
    id: Seq<char>,
    now: Seq<char>,
)
    ensures
        ({
            let input = new_project_view(request, id, now);
            &&& input.id == id
            &&& input.name == request.name@
            &&& input.description == opt_view(request.description)
            &&& input.project_type == request.project_type
            &&& input.start_date == opt_view(request.start_date)
            &&& input.target_date == opt_view(request.target_date)
            &&& input.priority == (match request.priority {
                Some(p) => p,
                None => 3u8,
            })
            &&& input.color == opt_view(request.color)
            &&& input.icon == opt_view(request.icon)
            &&& input.objective == opt_view(request.objective)
            &&& input.settings_json == (match request.settings_json {
                Some(s) => s@,
                None => "{}"@,
            })
            &&& input.created_at == now
        }),
{
}

/// Repository failures are reported without their storage details: a
/// missing or conflicting identifier keeps the identifier, an unavailable
/// store is `StorageUnavailable`, corrupted data is `InvalidStoredData`, and
/// anything else is `Unexpected`.
pub proof fn law_repository_failures_are_reported(e: ProjectRepositoryErrorView)
    ensures
        e matches ProjectRepositoryErrorView::NotFound { id } ==> service_error_of(e)
            == (ProjectServiceErrorView::NotFound { id }),
        e matches ProjectRepositoryErrorView::Conflict { id } ==> service_error_of(e)
            == (ProjectServiceErrorView::Conflict { id }),
        e is Unavailable ==> service_error_of(e) is StorageUnavailable,
        e is CorruptedData ==> service_error_of(e) is InvalidStoredData,
        e is Unexpected ==> service_error_of(e) is Unexpected,
{
}

/// A lookup reports the project the repository found, `NotFound` with the
/// identifier when it found none, or the repository's failure.
pub proof fn law_lookups_report_what_was_found(
    id: Seq<char>,
    found: Result<Option<Project>, ProjectRepositoryError>,
)
    ensures
        found matches Ok(Some(p)) ==> lookup_outcome(id, found) == Ok::<
            ProjectView,
            ProjectServiceErrorView,
        >(p@),
        found matches Ok(None) ==> lookup_outcome(id, found) == Err::<
            ProjectView,
            ProjectServiceErrorView,
        >(ProjectServiceErrorView::NotFound { id }),
        found matches Err(e) ==> lookup_outcome(id, found) == Err::<
            ProjectView,
            ProjectServiceErrorView,
        >(service_error_of(e@)),
{
}

/// A stored change reports the changed project; a failed store reports the
/// repository's failure and never the change.
pub proof fn law_saves_report_the_stored_project(
    q: ProjectView,
    saved: Result<(), ProjectRepositoryError>,
)
    ensures
        saved is Ok ==> save_reported(q, saved, Ok(response_of(q))),
        saved matches Err(e) ==> save_reported(q, saved, Err(service_error_of(e@))),
        saved matches Err(e) ==> !save_reported(q, saved, Ok(response_of(q))),
{
}

} // verus!

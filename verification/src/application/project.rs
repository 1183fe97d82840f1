//! Project use cases: create, read, list, update, archive and restore.

use vstd::prelude::*;

use crate::domain::project::{
    archive_outcome, create_outcome, is_well_formed, project_error_message, restore_outcome,
    update_outcome, NewProject, NewProjectView, Project, ProjectChanges, ProjectError,
    ProjectErrorView, ProjectStatus, ProjectType, ProjectView, DEFAULT_PROJECT_PRIORITY,
};
use crate::domain::project_repository::{
    ProjectRepository, ProjectRepositoryError, ProjectRepositoryErrorView,
};
use crate::text::{join3, opt_view, owned_text};

verus! {

/// Source of identifiers for new projects.
pub trait ProjectIdGenerator: Send + Sync {
    fn generate(&self) -> String;
}

/// Source of timestamps for project changes.
pub trait ProjectClock: Send + Sync {
    fn now(&self) -> String;
}

/// A request to create a project; identity and time come from the service.
#[derive(Debug, Clone, PartialEq, Eq)]
pub struct CreateProjectRequest {
    pub name: String,
    pub description: Option<String>,
    pub project_type: ProjectType,
    pub start_date: Option<String>,
    pub target_date: Option<String>,
    pub priority: Option<u8>,
    pub color: Option<String>,
    pub icon: Option<String>,
    pub objective: Option<String>,
    pub settings_json: Option<String>,
}

/// A request to change a project. `None` leaves a field unchanged; for
/// optional fields `Some(None)` clears it.
#[derive(Debug, Clone, Default, PartialEq, Eq)]
pub struct UpdateProjectRequest {
    pub name: Option<String>,
    pub description: Option<Option<String>>,
    pub project_type: Option<ProjectType>,
    pub start_date: Option<Option<String>>,
    pub target_date: Option<Option<String>>,
    pub priority: Option<u8>,
    pub color: Option<Option<String>>,
    pub icon: Option<Option<String>>,
    pub objective: Option<Option<String>>,
    pub settings_json: Option<String>,
}

/// The changes that an update request asks for.
pub open spec fn changes_of(request: UpdateProjectRequest) -> ProjectChanges {
    ProjectChanges {
        name: request.name,
        description: request.description,
        project_type: request.project_type,
        start_date: request.start_date,
        target_date: request.target_date,
        priority: request.priority,
        color: request.color,
        icon: request.icon,
        objective: request.objective,
        settings_json: request.settings_json,
    }
}

impl From<UpdateProjectRequest> for ProjectChanges {
    fn from(request: UpdateProjectRequest) -> Self {
        ProjectChanges {
            name: request.name,
            description: request.description,
            project_type: request.project_type,
            start_date: request.start_date,
            target_date: request.target_date,
            priority: request.priority,
            color: request.color,
            icon: request.icon,
            objective: request.objective,
            settings_json: request.settings_json,
        }
    }
}

impl vstd::std_specs::convert::FromSpecImpl<UpdateProjectRequest> for ProjectChanges {
    open spec fn obeys_from_spec() -> bool {
        true
    }

    open spec fn from_spec(request: UpdateProjectRequest) -> Self {
        changes_of(request)
    }
}

/// A project as the service reports it: every field but the deletion time.
#[derive(Debug, Clone, PartialEq, Eq)]
pub struct ProjectResponse {
    pub id: String,
    pub name: String,
    pub description: Option<String>,
    pub project_type: ProjectType,
    pub status: ProjectStatus,
    pub start_date: Option<String>,
    pub target_date: Option<String>,
    pub priority: u8,
    pub color: Option<String>,
    pub icon: Option<String>,
    pub objective: Option<String>,
    pub settings_json: String,
    pub created_at: String,
    pub updated_at: String,
    pub archived_at: Option<String>,
}

/// The model of a `ProjectResponse`.
#[verifier::ext_equal]
pub struct ProjectResponseView {
    pub id: Seq<char>,
    pub name: Seq<char>,
    pub description: Option<Seq<char>>,
    pub project_type: ProjectType,
    pub status: ProjectStatus,
    pub start_date: Option<Seq<char>>,
    pub target_date: Option<Seq<char>>,
    pub priority: u8,
    pub color: Option<Seq<char>>,
    pub icon: Option<Seq<char>>,
    pub objective: Option<Seq<char>>,
    pub settings_json: Seq<char>,
    pub created_at: Seq<char>,
    pub updated_at: Seq<char>,
    pub archived_at: Option<Seq<char>>,
}

impl View for ProjectResponse {
    type V = ProjectResponseView;

    open spec fn view(&self) -> ProjectResponseView {
        ProjectResponseView {
            id: self.id@,
            name: self.name@,
            description: opt_view(self.description),
            project_type: self.project_type,
            status: self.status,
            start_date: opt_view(self.start_date),
            target_date: opt_view(self.target_date),
            priority: self.priority,
            color: opt_view(self.color),
            icon: opt_view(self.icon),
            objective: opt_view(self.objective),
            settings_json: self.settings_json@,
            created_at: self.created_at@,
            updated_at: self.updated_at@,
            archived_at: opt_view(self.archived_at),
        }
    }
}

/// The response that reports project `p`.
pub open spec fn response_of(p: ProjectView) -> ProjectResponseView {
    ProjectResponseView {
        id: p.id,
        name: p.name,
        description: p.description,
        project_type: p.project_type,
        status: p.status,
        start_date: p.start_date,
        target_date: p.target_date,
        priority: p.priority,
        color: p.color,
        icon: p.icon,
        objective: p.objective,
        settings_json: p.settings_json,
        created_at: p.created_at,
        updated_at: p.updated_at,
        archived_at: p.archived_at,
    }
}

impl ProjectResponse {
    /// Reports `project`.
    pub fn from_project(project: &Project) -> (r: ProjectResponse)
        ensures
            r@ == response_of(project@),
    {
        ProjectResponse {
            id: owned_text(project.id()),
            name: owned_text(project.name()),
            description: owned_opt(project.description()),
            project_type: project.project_type(),
            status: project.status(),
            start_date: owned_opt(project.start_date()),
            target_date: owned_opt(project.target_date()),
            priority: project.priority(),
            color: owned_opt(project.color()),
            icon: owned_opt(project.icon()),
            objective: owned_opt(project.objective()),
            settings_json: owned_text(project.settings_json()),
            created_at: owned_text(project.created_at()),
            updated_at: owned_text(project.updated_at()),
            archived_at: owned_opt(project.archived_at()),
        }
    }
}

fn owned_opt(o: Option<&str>) -> (r: Option<String>)
    ensures
        opt_view(r) == crate::text::opt_str_view(o),
{
    match o {
        Some(s) => Some(owned_text(s)),
        None => None,
    }
}

/// Reports every project of `projects`, in order.
pub fn responses_from(projects: &Vec<Project>) -> (r: Vec<ProjectResponse>)
    ensures
        r@.len() == projects@.len(),
        forall|i: int| 0 <= i < r@.len() ==> (#[trigger] r@[i])@ == response_of(projects@[i]@),
        forall|i: int| 0 <= i < projects@.len() ==> is_well_formed((#[trigger] projects@[i])@),
{
    let mut r: Vec<ProjectResponse> = Vec::new();
    let mut i: usize = 0;
    while i < projects.len()
        invariant
            i <= projects@.len(),
            r@.len() == i,
            forall|k: int| 0 <= k < i ==> (#[trigger] r@[k])@ == response_of(projects@[k]@),
            forall|k: int| 0 <= k < i ==> is_well_formed((#[trigger] projects@[k])@),
        decreases projects@.len() - i,
    {
        projects[i].invariant_holds();
        r.push(ProjectResponse::from_project(&projects[i]));
        i = i + 1;
    }
    r
}

/// Why a project use case failed; storage details are not exposed.
#[derive(Debug, Clone, PartialEq, Eq)]
pub enum ProjectServiceError {
    Validation { message: String },
    NotFound { id: String },
    Conflict { id: String },
    StorageUnavailable,
    InvalidStoredData,
    Unexpected,
}

/// The model of a `ProjectServiceError`.
pub enum ProjectServiceErrorView {
    Validation { message: Seq<char> },
    NotFound { id: Seq<char> },
    Conflict { id: Seq<char> },
    StorageUnavailable,
    InvalidStoredData,
    Unexpected,
}

impl View for ProjectServiceError {
    type V = ProjectServiceErrorView;

    open spec fn view(&self) -> ProjectServiceErrorView {
        match self {
            ProjectServiceError::Validation { message } => ProjectServiceErrorView::Validation {
                message: message@,
            },
            ProjectServiceError::NotFound { id } => ProjectServiceErrorView::NotFound { id: id@ },
            ProjectServiceError::Conflict { id } => ProjectServiceErrorView::Conflict { id: id@ },
            ProjectServiceError::StorageUnavailable => ProjectServiceErrorView::StorageUnavailable,
            ProjectServiceError::InvalidStoredData => ProjectServiceErrorView::InvalidStoredData,
            ProjectServiceError::Unexpected => ProjectServiceErrorView::Unexpected,
        }
    }
}

/// The message of a service error.
pub open spec fn service_error_message(e: ProjectServiceErrorView) -> Seq<char> {
    match e {
        ProjectServiceErrorView::Validation { message } => message,
        ProjectServiceErrorView::NotFound { id } => "project `"@ + id + "` was not found"@,
        ProjectServiceErrorView::Conflict { id } => "project `"@ + id + "` already exists"@,
        ProjectServiceErrorView::StorageUnavailable => "project storage is unavailable"@,
        ProjectServiceErrorView::InvalidStoredData => "stored project data is invalid"@,
        ProjectServiceErrorView::Unexpected => "an unexpected project error occurred"@,
    }
}

/// How a repository failure is reported: identifiers are kept, storage
/// details are dropped.
pub open spec fn service_error_of(e: ProjectRepositoryErrorView) -> ProjectServiceErrorView {
    match e {
        ProjectRepositoryErrorView::NotFound { id } => ProjectServiceErrorView::NotFound { id },
        ProjectRepositoryErrorView::Conflict { id } => ProjectServiceErrorView::Conflict { id },
        ProjectRepositoryErrorView::Unavailable => ProjectServiceErrorView::StorageUnavailable,
        ProjectRepositoryErrorView::CorruptedData { .. } =>
            ProjectServiceErrorView::InvalidStoredData,
        ProjectRepositoryErrorView::Unexpected { .. } => ProjectServiceErrorView::Unexpected,
    }
}

/// `service_error_of` on the values themselves.
pub open spec fn service_error_from(e: ProjectRepositoryError) -> ProjectServiceError {
    match e {
        ProjectRepositoryError::NotFound { id } => ProjectServiceError::NotFound { id },
        ProjectRepositoryError::Conflict { id } => ProjectServiceError::Conflict { id },
        ProjectRepositoryError::Unavailable => ProjectServiceError::StorageUnavailable,
        ProjectRepositoryError::CorruptedData { .. } => ProjectServiceError::InvalidStoredData,
        ProjectRepositoryError::Unexpected { .. } => ProjectServiceError::Unexpected,
    }
}

impl ProjectServiceError {
    fn validation(error: ProjectError) -> (r: ProjectServiceError)
        ensures
            r@ == (ProjectServiceErrorView::Validation {
                message: project_error_message(error@),
            }),
    {
        ProjectServiceError::Validation { message: error.to_string() }
    }

    /// The message of this error.
    pub fn to_string(&self) -> (r: String)
        ensures
            r@ == service_error_message(self@),
    {
        match self {
            ProjectServiceError::Validation { message } => message.clone(),
            ProjectServiceError::NotFound { id } => join3(
                "project `",
                id.as_str(),
                "` was not found",
            ),
            ProjectServiceError::Conflict { id } => join3(
                "project `",
                id.as_str(),
                "` already exists",
            ),
            ProjectServiceError::StorageUnavailable => owned_text(
                "project storage is unavailable",
            ),
            ProjectServiceError::InvalidStoredData => owned_text("stored project data is invalid"),
            ProjectServiceError::Unexpected => owned_text("an unexpected project error occurred"),
        }
    }
}

impl From<ProjectRepositoryError> for ProjectServiceError {
    fn from(error: ProjectRepositoryError) -> Self {
        match error {
            ProjectRepositoryError::NotFound { id } => ProjectServiceError::NotFound { id },
            ProjectRepositoryError::Conflict { id } => ProjectServiceError::Conflict { id },
            ProjectRepositoryError::Unavailable => ProjectServiceError::StorageUnavailable,
            ProjectRepositoryError::CorruptedData { .. } => ProjectServiceError::InvalidStoredData,
            ProjectRepositoryError::Unexpected { .. } => ProjectServiceError::Unexpected,
        }
    }
}

impl vstd::std_specs::convert::FromSpecImpl<ProjectRepositoryError> for ProjectServiceError {
    open spec fn obeys_from_spec() -> bool {
        true
    }

    open spec fn from_spec(error: ProjectRepositoryError) -> Self {
        service_error_from(error)
    }
}

/// The view of a service result.
pub open spec fn service_result<T: View>(r: Result<T, ProjectServiceError>) -> Result<
    T::V,
    ProjectServiceErrorView,
> {
    match r {
        Ok(v) => Ok(v@),
        Err(e) => Err(e@),
    }
}

/// The creation data for `request`, given the generated identifier and the
/// current time.
pub open spec fn new_project_view(request: CreateProjectRequest, id: Seq<char>, now: Seq<char>) -> NewProjectView {
    NewProjectView {
        id,
        name: request.name@,
        description: opt_view(request.description),
        project_type: request.project_type,
        start_date: opt_view(request.start_date),
        target_date: opt_view(request.target_date),
        priority: match request.priority {
            Some(p) => p,
            None => DEFAULT_PROJECT_PRIORITY,
        },
        color: opt_view(request.color),
        icon: opt_view(request.icon),
        objective: opt_view(request.objective),
        settings_json: match request.settings_json {
            Some(s) => s@,
            None => "{}"@,
        },
        created_at: now,
    }
}

/// The creation of `request` with identifier `id` at time `now`.
pub open spec fn creation(request: CreateProjectRequest, id: Seq<char>, now: Seq<char>) -> Result<
    ProjectView,
    ProjectErrorView,
> {
    create_outcome(new_project_view(request, id, now))
}

/// Builds the creation data for `request` from a generated identifier and
/// the current time.
pub fn new_project_from_request(request: CreateProjectRequest, id: String, created_at: String) -> (r:
    NewProject)
    ensures
        r@ == new_project_view(request, id@, created_at@),
{
    let priority = match request.priority {
        Some(p) => p,
        None => DEFAULT_PROJECT_PRIORITY,
    };
    let settings_json = match request.settings_json {
        Some(s) => s,
        None => owned_text("{}"),
    };
    NewProject {
        id,
        name: request.name,
        description: request.description,
        project_type: request.project_type,
        start_date: request.start_date,
        target_date: request.target_date,
        priority,
        color: request.color,
        icon: request.icon,
        objective: request.objective,
        settings_json,
        created_at,
    }
}

/// A stored project that a lookup of `id` may return.
pub open spec fn stored_project(p: ProjectView, id: Seq<char>) -> bool {
    &&& is_well_formed(p)
    &&& p.id == id
    &&& p.deleted_at is None
}

/// Turns the repository's answer to a lookup of `id` into the project or
/// the service error: no project is `NotFound` for `id`.
pub fn resolve_lookup(id: &str, found: Result<Option<Project>, ProjectRepositoryError>) -> (r: Result<
    Project,
    ProjectServiceError,
>)
    ensures
        match found {
            Ok(Some(p)) => r is Ok && r->Ok_0@ == p@,
            Ok(None) => r is Err && r->Err_0@ == (ProjectServiceErrorView::NotFound { id: id@ }),
            Err(e) => r is Err && r->Err_0@ == service_error_of(e@),
        },
{
    match found {
        Ok(Some(project)) => Ok(project),
        Ok(None) => Err(ProjectServiceError::NotFound { id: owned_text(id) }),
        Err(error) => Err(ProjectServiceError::from(error)),
    }
}

/// A change that the service applies to a stored project.
pub enum ServiceStep {
    Update(ProjectChanges),
    Archive,
    Restore,
}

/// The domain outcome of a service step on `p` at time `now`.
pub open spec fn step_outcome(step: ServiceStep, p: ProjectView, now: Seq<char>) -> Result<
    ProjectView,
    ProjectErrorView,
> {
    match step {
        ServiceStep::Update(changes) => update_outcome(p, changes, now),
        ServiceStep::Archive => archive_outcome(p, now),
        ServiceStep::Restore => restore_outcome(p, now),
    }
}

/// What a service step on project `id` may report: the step's result on
/// the stored project at some time, its refusal, or a failure that neither
/// the domain nor the service decides.
pub open spec fn step_reported(
    id: Seq<char>,
    step: ServiceStep,
    r: Result<ProjectResponseView, ProjectServiceErrorView>,
) -> bool {
    match r {
        Ok(response) => exists|p: ProjectView, now: Seq<char>|
            {
                &&& stored_project(p, id)
                &&& #[trigger] step_outcome(step, p, now) is Ok
                &&& response == response_of(step_outcome(step, p, now)->Ok_0)
            },
        Err(ProjectServiceErrorView::Validation { message }) => exists|
            p: ProjectView,
            now: Seq<char>,
        |
            {
                &&& stored_project(p, id)
                &&& #[trigger] step_outcome(step, p, now) is Err
                &&& message == project_error_message(step_outcome(step, p, now)->Err_0)
            },
        Err(_) => true,
    }
}

/// A response that reports a stored, non-deleted project, archived or not
/// as `archived` says.
pub open spec fn listed_project(response: ProjectResponseView, archived: bool) -> bool {
    exists|p: ProjectView|
        {
            &&& is_well_formed(p)
            &&& p.deleted_at is None
            &&& (p.status == ProjectStatus::Archived) == archived
            &&& response == #[trigger] response_of(p)
        }
}

/// What a listing reports for the repository's answer `found`: the response
/// of each listed project, in the repository's order, or its failure as a
/// service error.
pub open spec fn listing_reported(
    found: Result<Vec<Project>, ProjectRepositoryError>,
    r: Result<Vec<ProjectResponse>, ProjectServiceError>,
) -> bool {
    match found {
        Ok(projects) => {
            &&& r is Ok
            &&& r->Ok_0@.len() == projects@.len()
            &&& forall|i: int|
                0 <= i < projects@.len() ==> (#[trigger] r->Ok_0@[i])@ == response_of(
                    projects@[i]@,
                )
        },
        Err(e) => r is Err && r->Err_0@ == service_error_of(e@),
    }
}

/// How the service reports the repository's answer `found` to a lookup of
/// project `id`: the project found, `NotFound` for `id` when there is none,
/// or the repository's failure as a service error.
pub open spec fn lookup_outcome(id: Seq<char>, found: Result<Option<Project>, ProjectRepositoryError>) -> Result<
    ProjectView,
    ProjectServiceErrorView,
> {
    match found {
        Ok(Some(p)) => Ok(p@),
        Ok(None) => Err(ProjectServiceErrorView::NotFound { id }),
        Err(e) => Err(service_error_of(e@)),
    }
}

/// The service error that reports a refusal of the domain.
pub open spec fn validation_error(e: ProjectErrorView) -> ProjectServiceErrorView {
    ProjectServiceErrorView::Validation { message: project_error_message(e) }
}

/// What the service reports once the repository answered `saved` to the
/// storing of project `q`: `q` itself, or the repository's failure.
pub open spec fn save_reported(
    q: ProjectView,
    saved: Result<(), ProjectRepositoryError>,
    r: Result<ProjectResponseView, ProjectServiceErrorView>,
) -> bool {
    match saved {
        Ok(()) => r == Ok::<ProjectResponseView, ProjectServiceErrorView>(response_of(q)),
        Err(e) => r == Err::<ProjectResponseView, ProjectServiceErrorView>(service_error_of(e@)),
    }
}

/// Coordinates project use cases over a repository, an identifier source
/// and a clock.
pub struct ProjectService<R, I, C> {
    repository: R,
    id_generator: I,
    clock: C,
}

impl<R, I, C> ProjectService<R, I, C> where
    R: ProjectRepository,
    I: ProjectIdGenerator,
    C: ProjectClock,
 {
    /// The parts the service was built from.
    pub closed spec fn parts(&self) -> (R, I, C) {
        (self.repository, self.id_generator, self.clock)
    }

    pub fn new(repository: R, id_generator: I, clock: C) -> (r: Self)
        ensures
            r.parts() == (repository, id_generator, clock),
    {
        ProjectService { repository, id_generator, clock }
    }

    /// The lookup of project `id` in the service's repository, as reported:
    /// some answer of the repository's `find_by_id` on `id`, reported as
    /// `lookup_outcome` says.
    pub open spec fn lookup_reported(&self, id: &str, r: Result<ProjectView, ProjectServiceErrorView>) -> bool {
        exists|found: Result<Option<Project>, ProjectRepositoryError>|
            #[trigger] call_ensures(R::find_by_id, (&self.parts().0, id), found) && r
                == lookup_outcome(id@, found)
    }

    /// What a change of project `id` by `step` reports. The repository's
    /// `find_by_id` is asked for `id`; a failed lookup is reported as such.
    /// Otherwise the clock is read, and the step is applied to the project
    /// found at that time; a refusal is reported as its validation message.
    /// Otherwise the changed project is handed to the repository's `update`,
    /// and reported as changed or as the repository's failure.
    pub open spec fn change_reported(
        &self,
        id: &str,
        step: ServiceStep,
        r: Result<ProjectResponseView, ProjectServiceErrorView>,
    ) -> bool {
        exists|found: Result<Option<Project>, ProjectRepositoryError>|
            #[trigger] call_ensures(R::find_by_id, (&self.parts().0, id), found) && match lookup_outcome(
                id@,
                found,
            ) {
                Err(e) => r == Err::<ProjectResponseView, ProjectServiceErrorView>(e),
                Ok(p) => exists|now: String|
                    #[trigger] call_ensures(C::now, (&self.parts().2,), now) && match step_outcome(
                        step,
                        p,
                        now@,
                    ) {
                        Err(e) => r == Err::<ProjectResponseView, ProjectServiceErrorView>(
                            validation_error(e),
                        ),
                        Ok(q) => exists|stored: Project, saved: Result<(), ProjectRepositoryError>|
                            #[trigger] call_ensures(R::update, (&self.parts().0, &stored), saved)
                                && stored@ == q && save_reported(q, saved, r),
                    },
            }
    }

    /// What the creation of `request` reports. The clock is read and an
    /// identifier generated; a request refused with them is reported as its
    /// validation message. Otherwise the new project is handed to the
    /// repository's `insert`, and reported as created or as the repository's
    /// failure.
    pub open spec fn creation_reported(
        &self,
        request: CreateProjectRequest,
        r: Result<ProjectResponseView, ProjectServiceErrorView>,
    ) -> bool {
        exists|now: String, id: String|
            #![trigger call_ensures(C::now, (&self.parts().2,), now), call_ensures(I::generate, (&self.parts().1,), id)]
            call_ensures(C::now, (&self.parts().2,), now) && call_ensures(
                I::generate,
                (&self.parts().1,),
                id,
            ) && match creation(request, id@, now@) {
                Err(e) => r == Err::<ProjectResponseView, ProjectServiceErrorView>(
                    validation_error(e),
                ),
                Ok(p) => exists|stored: Project, saved: Result<(), ProjectRepositoryError>|
                    #[trigger] call_ensures(R::insert, (&self.parts().0, &stored), saved) && stored@
                        == p && save_reported(p, saved, r),
            }
    }

    /// The repository the service stores projects in.
    pub fn repository(&self) -> (r: &R)
        ensures
            *r == self.parts().0,
    {
        &self.repository
    }

    /// Creates a project from `request` with the clock's current time and a
    /// generated identifier, and stores it (see `creation_reported`).
    pub fn create(&self, request: CreateProjectRequest) -> (r: Result<
        ProjectResponse,
        ProjectServiceError,
    >)
        ensures
            self.creation_reported(request, service_result(r)),
            match service_result(r) {
                Ok(response) => exists|id: Seq<char>, now: Seq<char>|
                    {
                        &&& #[trigger] creation(request, id, now) is Ok
                        &&& response == response_of(creation(request, id, now)->Ok_0)
                    },
                Err(ProjectServiceErrorView::Validation { message }) => exists|
                    id: Seq<char>,
                    now: Seq<char>,
                |
                    {
                        &&& #[trigger] creation(request, id, now) is Err
                        &&& message == project_error_message(creation(request, id, now)->Err_0)
                    },
                Err(_) => exists|id: Seq<char>, now: Seq<char>| #[trigger]
                    creation(request, id, now) is Ok,
            },
    {
        let ghost given = request;
        let created_at = self.clock.now();
        let id = self.id_generator.generate();
        let ghost now_value = created_at;
        let ghost id_value = id;
        proof {
            assert(call_ensures(C::now, (&self.parts().2,), now_value));
            assert(call_ensures(I::generate, (&self.parts().1,), id_value));
        }
        let input = new_project_from_request(request, id, created_at);
        let project = match Project::create(input) {
            Ok(project) => project,
            Err(error) => {
                assert(creation(given, id_value@, now_value@) is Err);
                let r = ProjectServiceError::validation(error);
                assert(self.creation_reported(given, service_result(Err::<ProjectResponse, ProjectServiceError>(r))));
                return Err(r);
            },
        };
        assert(creation(given, id_value@, now_value@) is Ok);
        let saved = self.repository.insert(&project);
        let ghost saved_value = saved;
        proof {
            assert(call_ensures(R::insert, (&self.parts().0, &project), saved_value));
        }
        match saved {
            Ok(()) => {},
            Err(error) => {
                let r = ProjectServiceError::from(error);
                assert(self.creation_reported(given, service_result(Err::<ProjectResponse, ProjectServiceError>(r))));
                return Err(r);
            },
        }
        let response = ProjectResponse::from_project(&project);
        assert(self.creation_reported(given, service_result(Ok::<ProjectResponse, ProjectServiceError>(response))));
        Ok(response)
    }

    /// Reports the stored, non-deleted project `id`: the project that the
    /// repository's `find_by_id` answers, `NotFound` for `id` when there is
    /// none, or the repository's failure.
    pub fn find_by_id(&self, id: &str) -> (r: Result<ProjectResponse, ProjectServiceError>)
        ensures
            exists|found: Result<Option<Project>, ProjectRepositoryError>|
                #[trigger] call_ensures(R::find_by_id, (&self.parts().0, id), found) && match lookup_outcome(
                    id@,
                    found,
                ) {
                    Ok(p) => service_result(r) == Ok::<ProjectResponseView, ProjectServiceErrorView>(
                        response_of(p),
                    ),
                    Err(e) => service_result(r) == Err::<ProjectResponseView, ProjectServiceErrorView>(e),
                },
            match service_result(r) {
                Ok(response) => exists|p: ProjectView|
                    stored_project(p, id@) && response == #[trigger] response_of(p),
                Err(e) => !(e is Validation),
            },
    {
        let looked_up = self.find_project(id);
        let ghost answer = choose|found: Result<Option<Project>, ProjectRepositoryError>|
            #[trigger] call_ensures(R::find_by_id, (&self.parts().0, id), found)
                && service_result(looked_up) == lookup_outcome(id@, found);
        let project = match looked_up {
            Ok(project) => project,
            Err(error) => return Err(error),
        };
        let r = ProjectResponse::from_project(&project);
        assert(stored_project(project@, id@) && r@ == response_of(project@));
        Ok(r)
    }

    /// Reports every stored project that is neither archived nor deleted:
    /// the repository's active list, each project as its response, or the
    /// repository's failure.
    pub fn list_active(&self) -> (r: Result<Vec<ProjectResponse>, ProjectServiceError>)
        ensures
            exists|found: Result<Vec<Project>, ProjectRepositoryError>|
                #[trigger] call_ensures(R::list_active, (&self.parts().0,), found)
                    && listing_reported(found, r),
            match r {
                Ok(v) => forall|i: int|
                    0 <= i < v@.len() ==> listed_project(#[trigger] v@[i]@, false),
                Err(e) => !(e@ is Validation),
            },
    {
        let found = self.repository.list_active();
        let ghost answer = found;
        let r = match found {
            Ok(projects) => {
                let r = responses_from(&projects);
                assert forall|i: int| 0 <= i < r@.len() implies listed_project(
                    #[trigger] r@[i]@,
                    false,
                ) by {
                    let p = projects@[i]@;
                    assert(is_well_formed(p));
                    assert(p.deleted_at is None);
                    assert(r@[i]@ == response_of(p));
                }
                Ok(r)
            },
            Err(error) => Err(ProjectServiceError::from(error)),
        };
        assert(call_ensures(R::list_active, (&self.parts().0,), answer) && listing_reported(
            answer,
            r,
        ));
        r
    }

    /// Reports every stored archived project that is not deleted: the
    /// repository's archived list, each project as its response, or the
    /// repository's failure.
    pub fn list_archived(&self) -> (r: Result<Vec<ProjectResponse>, ProjectServiceError>)
        ensures
            exists|found: Result<Vec<Project>, ProjectRepositoryError>|
                #[trigger] call_ensures(R::list_archived, (&self.parts().0,), found)
                    && listing_reported(found, r),
            match r {
                Ok(v) => forall|i: int|
                    0 <= i < v@.len() ==> listed_project(#[trigger] v@[i]@, true),
                Err(e) => !(e@ is Validation),
            },
    {
        let found = self.repository.list_archived();
        let ghost answer = found;
        let r = match found {
            Ok(projects) => {
                let r = responses_from(&projects);
                assert forall|i: int| 0 <= i < r@.len() implies listed_project(
                    #[trigger] r@[i]@,
                    true,
                ) by {
                    let p = projects@[i]@;
                    assert(is_well_formed(p));
                    assert(p.deleted_at is None);
                    assert(r@[i]@ == response_of(p));
                }
                Ok(r)
            },
            Err(error) => Err(ProjectServiceError::from(error)),
        };
        assert(call_ensures(R::list_archived, (&self.parts().0,), answer) && listing_reported(
            answer,
            r,
        ));
        r
    }

    /// Applies `request` to the stored project `id` at the clock's current
    /// time and stores the result (see `change_reported`).
    pub fn update(&self, id: &str, request: UpdateProjectRequest) -> (r: Result<
        ProjectResponse,
        ProjectServiceError,
    >)
        ensures
            self.change_reported(id, ServiceStep::Update(changes_of(request)), service_result(r)),
            step_reported(id@, ServiceStep::Update(changes_of(request)), service_result(r)),
    {
        let ghost step = ServiceStep::Update(changes_of(request));
        let looked_up = self.find_project(id);
        let ghost answer = choose|found: Result<Option<Project>, ProjectRepositoryError>|
            #[trigger] call_ensures(R::find_by_id, (&self.parts().0, id), found)
                && service_result(looked_up) == lookup_outcome(id@, found);
        let mut project = match looked_up {
            Ok(project) => project,
            Err(error) => return Err(error),
        };
        let ghost before = project@;
        let now = self.clock.now();
        let ghost now_value = now;
        proof {
            assert(call_ensures(C::now, (&self.parts().2,), now_value));
        }
        let changes = ProjectChanges::from(request);
        match project.update(changes, now.as_str()) {
            Ok(()) => {},
            Err(error) => {
                assert(step_outcome(step, before, now@) is Err);
                return Err(ProjectServiceError::validation(error));
            },
        }
        assert(step_outcome(step, before, now@) is Ok);
        self.store_change(&project)
    }

    /// Archives the stored project `id` at the clock's current time and
    /// stores it (see `change_reported`).
    pub fn archive(&self, id: &str) -> (r: Result<ProjectResponse, ProjectServiceError>)
        ensures
            self.change_reported(id, ServiceStep::Archive, service_result(r)),
            step_reported(id@, ServiceStep::Archive, service_result(r)),
    {
        let looked_up = self.find_project(id);
        let ghost answer = choose|found: Result<Option<Project>, ProjectRepositoryError>|
            #[trigger] call_ensures(R::find_by_id, (&self.parts().0, id), found)
                && service_result(looked_up) == lookup_outcome(id@, found);
        let mut project = match looked_up {
            Ok(project) => project,
            Err(error) => return Err(error),
        };
        let ghost before = project@;
        let now = self.clock.now();
        let ghost now_value = now;
        proof {
            assert(call_ensures(C::now, (&self.parts().2,), now_value));
        }
        match project.archive(now.as_str()) {
            Ok(()) => {},
            Err(error) => {
                assert(step_outcome(ServiceStep::Archive, before, now@) is Err);
                return Err(ProjectServiceError::validation(error));
            },
        }
        assert(step_outcome(ServiceStep::Archive, before, now@) is Ok);
        self.store_change(&project)
    }

    /// Restores the stored project `id` to active at the clock's current
    /// time and stores it (see `change_reported`).
    pub fn restore(&self, id: &str) -> (r: Result<ProjectResponse, ProjectServiceError>)
        ensures
            self.change_reported(id, ServiceStep::Restore, service_result(r)),
            step_reported(id@, ServiceStep::Restore, service_result(r)),
    {
        let looked_up = self.find_project(id);
        let ghost answer = choose|found: Result<Option<Project>, ProjectRepositoryError>|
            #[trigger] call_ensures(R::find_by_id, (&self.parts().0, id), found)
                && service_result(looked_up) == lookup_outcome(id@, found);
        let mut project = match looked_up {
            Ok(project) => project,
            Err(error) => return Err(error),
        };
        let ghost before = project@;
        let now = self.clock.now();
        let ghost now_value = now;
        proof {
            assert(call_ensures(C::now, (&self.parts().2,), now_value));
        }
        match project.restore(now.as_str()) {
            Ok(()) => {},
            Err(error) => {
                assert(step_outcome(ServiceStep::Restore, before, now@) is Err);
                return Err(ProjectServiceError::validation(error));
            },
        }
        assert(step_outcome(ServiceStep::Restore, before, now@) is Ok);
        self.store_change(&project)
    }

    /// Hands the changed `project` to the repository's `update` and reports
    /// it, or the repository's failure.
    fn store_change(&self, project: &Project) -> (r: Result<ProjectResponse, ProjectServiceError>)
        ensures
            exists|saved: Result<(), ProjectRepositoryError>|
                #[trigger] call_ensures(R::update, (&self.parts().0, project), saved)
                    && save_reported(project@, saved, service_result(r)),
    {
        let saved = self.repository.update(project);
        let ghost saved_value = saved;
        proof {
            assert(call_ensures(R::update, (&self.parts().0, project), saved_value));
        }
        match saved {
            Ok(()) => Ok(ProjectResponse::from_project(project)),
            Err(error) => Err(ProjectServiceError::from(error)),
        }
    }

    /// Looks project `id` up in the repository.
    fn find_project(&self, id: &str) -> (r: Result<Project, ProjectServiceError>)
        ensures
            self.lookup_reported(id, service_result(r)),
            r is Ok ==> stored_project(r->Ok_0@, id@),
            r is Err ==> !(r->Err_0@ is Validation),
    {
        let found = self.repository.find_by_id(id);
        let ghost answer = found;
        proof {
            assert(call_ensures(R::find_by_id, (&self.parts().0, id), answer));
        }
        let r = resolve_lookup(id, found);
        if let Ok(project) = &r {
            project.invariant_holds();
        }
        assert(service_result(r) == lookup_outcome(id@, answer));
        r
    }
}

} // verus!

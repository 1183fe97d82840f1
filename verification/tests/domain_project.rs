use vertica::domain::project::{
    NewProject, Project, ProjectChanges, ProjectError, ProjectStatus, ProjectType,
    DEFAULT_PROJECT_PRIORITY,
};

const PROJECT_ID: &str = "550e8400-e29b-41d4-a716-446655440000";
const CREATED_AT: &str = "2026-07-19T12:00:00.000Z";

fn project() -> Project {
    Project::create(NewProject::minimal(
        PROJECT_ID,
        "Vertica",
        ProjectType::Software,
        CREATED_AT,
    ))
    .expect("the fixture must be valid")
}

#[test]
fn creates_an_active_project_with_normalized_name_and_defaults() {
    let input = NewProject::minimal(PROJECT_ID, "  Vertica  ", ProjectType::Software, CREATED_AT);

    let project = Project::create(input).expect("project should be created");

    assert_eq!(project.name(), "Vertica");
    assert_eq!(project.status(), ProjectStatus::Active);
    assert_eq!(project.priority(), DEFAULT_PROJECT_PRIORITY);
    assert_eq!(project.settings_json(), "{}");
    assert_eq!(project.created_at(), CREATED_AT);
    assert_eq!(project.updated_at(), CREATED_AT);
}

#[test]
fn rejects_an_empty_name() {
    let input = NewProject::minimal(PROJECT_ID, "   ", ProjectType::Custom, CREATED_AT);

    assert_eq!(Project::create(input), Err(ProjectError::RequiredField("name")));
}

#[test]
fn rejects_a_non_canonical_uuid() {
    let input = NewProject::minimal("not-an-id", "Vertica", ProjectType::Custom, CREATED_AT);

    assert_eq!(
        Project::create(input),
        Err(ProjectError::InvalidId("not-an-id".to_owned()))
    );
}

#[test]
fn rejects_priority_outside_the_domain_range() {
    let mut input = NewProject::minimal(PROJECT_ID, "Vertica", ProjectType::Custom, CREATED_AT);

    input.priority = 6;

    assert_eq!(Project::create(input), Err(ProjectError::InvalidPriority(6)));
}

#[test]
fn rejects_an_invalid_calendar_date() {
    let mut input = NewProject::minimal(PROJECT_ID, "Vertica", ProjectType::Custom, CREATED_AT);

    input.start_date = Some("2026-02-30".to_owned());

    assert_eq!(
        Project::create(input),
        Err(ProjectError::InvalidDate {
            field: "start_date",
            value: "2026-02-30".to_owned(),
        })
    );
}

#[test]
fn rejects_a_target_date_before_the_start_date() {
    let mut input = NewProject::minimal(PROJECT_ID, "Vertica", ProjectType::Custom, CREATED_AT);

    input.start_date = Some("2026-07-20".to_owned());
    input.target_date = Some("2026-07-19".to_owned());

    assert!(matches!(
        Project::create(input),
        Err(ProjectError::InvalidDateRange { .. })
    ));
}

#[test]
fn updates_project_data_atomically() {
    let mut project = project();

    let changes = ProjectChanges {
        name: Some("  Vertica Desktop  ".to_owned()),
        description: Some(Some("  Project workspace  ".to_owned())),
        priority: Some(1),
        ..ProjectChanges::default()
    };

    project
        .update(changes, "2026-07-19T13:00:00.000Z")
        .expect("update should succeed");

    assert_eq!(project.name(), "Vertica Desktop");
    assert_eq!(project.description(), Some("Project workspace"));
    assert_eq!(project.priority(), 1);
    assert_eq!(project.updated_at(), "2026-07-19T13:00:00.000Z");
    assert_eq!(project.created_at(), CREATED_AT);
}

#[test]
fn failed_update_does_not_partially_mutate_the_project() {
    let mut project = project();
    let before = project.clone();

    let changes = ProjectChanges {
        name: Some("Changed".to_owned()),
        priority: Some(9),
        ..ProjectChanges::default()
    };

    assert_eq!(
        project.update(changes, "2026-07-19T13:00:00.000Z"),
        Err(ProjectError::InvalidPriority(9))
    );

    assert_eq!(project, before);
}

#[test]
fn supports_pause_and_resume() {
    let mut project = project();

    project
        .pause("2026-07-19T13:00:00.000Z")
        .expect("active projects can be paused");

    assert_eq!(project.status(), ProjectStatus::Paused);

    project
        .resume("2026-07-19T14:00:00.000Z")
        .expect("paused projects can be resumed");

    assert_eq!(project.status(), ProjectStatus::Active);
}

#[test]
fn rejects_invalid_lifecycle_transitions() {
    let mut project = project();

    project
        .complete("2026-07-19T13:00:00.000Z")
        .expect("active projects can be completed");

    assert_eq!(
        project.pause("2026-07-19T14:00:00.000Z"),
        Err(ProjectError::InvalidTransition {
            from: ProjectStatus::Completed,
            to: ProjectStatus::Paused,
        })
    );
}

#[test]
fn archives_and_restores_to_active() {
    let mut project = project();

    project
        .archive("2026-07-19T13:00:00.000Z")
        .expect("project should be archived");

    assert!(project.is_archived());
    assert_eq!(project.archived_at(), Some("2026-07-19T13:00:00.000Z"));

    project
        .restore("2026-07-19T14:00:00.000Z")
        .expect("project should be restored");

    assert_eq!(project.status(), ProjectStatus::Active);
    assert_eq!(project.archived_at(), None);
}

#[test]
fn soft_deleted_projects_are_immutable() {
    let mut project = project();

    project
        .soft_delete("2026-07-19T13:00:00.000Z")
        .expect("project should be deleted");

    assert!(project.is_deleted());

    assert_eq!(
        project.pause("2026-07-19T14:00:00.000Z"),
        Err(ProjectError::ProjectDeleted)
    );

    assert_eq!(
        project.update(
            ProjectChanges {
                name: Some("Changed".to_owned()),
                ..ProjectChanges::default()
            },
            "2026-07-19T14:00:00.000Z",
        ),
        Err(ProjectError::ProjectDeleted)
    );
}

#[test]
fn parses_persistence_values_for_status_and_type() {
    assert_eq!("paused".parse::<ProjectStatus>(), Ok(ProjectStatus::Paused));

    assert_eq!("software".parse::<ProjectType>(), Ok(ProjectType::Software));

    assert_eq!(
        "unknown".parse::<ProjectStatus>(),
        Err(ProjectError::InvalidStatus("unknown".to_owned()))
    );
}

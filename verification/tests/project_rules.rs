use vertica::domain::project::{
    NewProject, Project, ProjectChanges, ProjectError, ProjectStatus, ProjectType,
};

const PROJECT_ID: &str = "550e8400-e29b-41d4-a716-446655440000";
const CREATED_AT: &str = "2026-07-19T12:00:00.000Z";

fn input() -> NewProject {
    NewProject::minimal(PROJECT_ID, "Vertica", ProjectType::Custom, CREATED_AT)
}

fn with_start(date: &str) -> Result<Project, ProjectError> {
    let mut input = input();
    input.start_date = Some(date.to_owned());
    Project::create(input)
}

fn project() -> Project {
    Project::create(input()).expect("the fixture must be valid")
}

#[test]
fn accepts_leap_days_only_in_leap_years() {
    assert!(with_start("2024-02-29").is_ok());
    assert!(with_start("2000-02-29").is_ok());
    assert!(with_start("2023-02-29").is_err());
    assert!(with_start("1900-02-29").is_err());
}

#[test]
fn rejects_malformed_dates() {
    for value in ["0000-01-01", "2026-13-01", "2026-00-10", "2026-04-31", "2026-1-01", "2026/01/01", "2026-01-1a", "２０２６-01-01"] {
        assert_eq!(
            with_start(value),
            Err(ProjectError::InvalidDate {
                field: "start_date",
                value: value.to_owned(),
            }),
            "{value}"
        );
    }
}

#[test]
fn normalizes_dates_and_optional_texts() {
    let mut input = input();
    input.start_date = Some("  2026-01-01 ".to_owned());
    input.target_date = Some("   ".to_owned());
    input.color = Some(" #ff0000 ".to_owned());
    input.icon = Some("".to_owned());
    let project = Project::create(input).expect("valid input");
    assert_eq!(project.start_date(), Some("2026-01-01"));
    assert_eq!(project.target_date(), None);
    assert_eq!(project.color(), Some("#ff0000"));
    assert_eq!(project.icon(), None);
}

#[test]
fn reports_the_target_date_error_after_the_start_date() {
    let mut input = input();
    input.start_date = Some("2026-01-01".to_owned());
    input.target_date = Some("2026-02-30".to_owned());
    assert_eq!(
        Project::create(input),
        Err(ProjectError::InvalidDate {
            field: "target_date",
            value: "2026-02-30".to_owned(),
        })
    );
}

#[test]
fn accepts_equal_start_and_target_dates() {
    let mut input = input();
    input.start_date = Some("2026-01-01".to_owned());
    input.target_date = Some("2026-01-01".to_owned());
    assert!(Project::create(input).is_ok());
}

#[test]
fn reports_the_date_range_with_both_dates() {
    let mut input = input();
    input.start_date = Some("2026-07-20".to_owned());
    input.target_date = Some("2026-07-19".to_owned());
    assert_eq!(
        Project::create(input),
        Err(ProjectError::InvalidDateRange {
            start_date: "2026-07-20".to_owned(),
            target_date: "2026-07-19".to_owned(),
        })
    );
}

#[test]
fn accepts_upper_case_uuids_and_rejects_near_misses() {
    let upper = NewProject::minimal(
        "550E8400-E29B-41D4-A716-446655440000",
        "Vertica",
        ProjectType::Custom,
        CREATED_AT,
    );
    assert!(Project::create(upper).is_ok());

    for id in [
        "550e8400-e29b-41d4-a716-44665544000",
        "550e8400e29b-41d4-a716-4466554400000",
        "550e8400-e29b-41d4-a716-44665544000g",
    ] {
        let input = NewProject::minimal(id, "Vertica", ProjectType::Custom, CREATED_AT);
        assert_eq!(Project::create(input), Err(ProjectError::InvalidId(id.to_owned())));
    }
}

#[test]
fn rejects_priority_zero_and_blank_required_texts() {
    let mut zero = input();
    zero.priority = 0;
    assert_eq!(Project::create(zero), Err(ProjectError::InvalidPriority(0)));

    let mut blank_settings = input();
    blank_settings.settings_json = "  ".to_owned();
    assert_eq!(
        Project::create(blank_settings),
        Err(ProjectError::RequiredField("settings_json"))
    );

    let blank_created = NewProject::minimal(PROJECT_ID, "Vertica", ProjectType::Custom, " ");
    assert_eq!(
        Project::create(blank_created),
        Err(ProjectError::RequiredField("created_at"))
    );
}

#[test]
fn lifecycle_refusals_name_their_reason() {
    let mut project = project();
    assert_eq!(
        project.resume("2026-07-19T13:00:00.000Z"),
        Err(ProjectError::AlreadyInStatus(ProjectStatus::Active))
    );
    project.pause("2026-07-19T13:00:00.000Z").expect("pause");
    assert_eq!(
        project.pause("2026-07-19T14:00:00.000Z"),
        Err(ProjectError::AlreadyInStatus(ProjectStatus::Paused))
    );
    assert_eq!(
        project.restore("2026-07-19T14:00:00.000Z"),
        Err(ProjectError::InvalidTransition {
            from: ProjectStatus::Paused,
            to: ProjectStatus::Active,
        })
    );
    assert_eq!(
        project.cancel(" "),
        Err(ProjectError::RequiredField("changed_at"))
    );
    assert_eq!(project.status(), ProjectStatus::Paused);
    project.cancel("2026-07-19T15:00:00.000Z").expect("cancel");
    assert_eq!(project.status(), ProjectStatus::Cancelled);
    project.archive("2026-07-19T16:00:00.000Z").expect("archive");
    assert_eq!(
        project.archive("2026-07-19T17:00:00.000Z"),
        Err(ProjectError::AlreadyInStatus(ProjectStatus::Archived))
    );
    assert_eq!(project.updated_at(), "2026-07-19T16:00:00.000Z");
}

#[test]
fn updates_clear_and_keep_optional_fields() {
    let mut project = project();
    project
        .update(
            ProjectChanges {
                description: Some(Some("Notes".to_owned())),
                color: Some(Some("blue".to_owned())),
                ..ProjectChanges::default()
            },
            "2026-07-19T13:00:00.000Z",
        )
        .expect("update");
    project
        .update(
            ProjectChanges {
                description: Some(None),
                project_type: Some(ProjectType::Reading),
                ..ProjectChanges::default()
            },
            "2026-07-19T14:00:00.000Z",
        )
        .expect("update");
    assert_eq!(project.description(), None);
    assert_eq!(project.color(), Some("blue"));
    assert_eq!(project.project_type(), ProjectType::Reading);
    assert_eq!(
        project.update(ProjectChanges::default(), "  "),
        Err(ProjectError::RequiredField("updated_at"))
    );
    assert_eq!(
        project.update(
            ProjectChanges {
                name: Some(" ".to_owned()),
                ..ProjectChanges::default()
            },
            "2026-07-19T15:00:00.000Z"
        ),
        Err(ProjectError::RequiredField("name"))
    );
}

#[test]
fn update_checks_the_resulting_date_range() {
    let mut project = project();
    project
        .update(
            ProjectChanges {
                start_date: Some(Some("2026-08-01".to_owned())),
                ..ProjectChanges::default()
            },
            "2026-07-19T13:00:00.000Z",
        )
        .expect("update");
    assert_eq!(
        project.update(
            ProjectChanges {
                target_date: Some(Some("2026-07-31".to_owned())),
                ..ProjectChanges::default()
            },
            "2026-07-19T14:00:00.000Z"
        ),
        Err(ProjectError::InvalidDateRange {
            start_date: "2026-08-01".to_owned(),
            target_date: "2026-07-31".to_owned(),
        })
    );
    assert_eq!(project.target_date(), None);
}

#[test]
fn soft_deletion_happens_once() {
    let mut project = project();
    assert_eq!(project.soft_delete(""), Err(ProjectError::RequiredField("deleted_at")));
    project.soft_delete("2026-07-19T13:00:00.000Z").expect("delete");
    assert_eq!(project.deleted_at(), Some("2026-07-19T13:00:00.000Z"));
    assert_eq!(project.updated_at(), "2026-07-19T13:00:00.000Z");
    assert_eq!(
        project.soft_delete("2026-07-19T14:00:00.000Z"),
        Err(ProjectError::ProjectDeleted)
    );
}

#[test]
fn reconstitution_checks_the_archive_time() {
    let reconstitute = |status: ProjectStatus, archived_at: Option<&str>| {
        Project::reconstitute(
            PROJECT_ID.to_owned(),
            "Vertica".to_owned(),
            None,
            ProjectType::Software,
            status,
            None,
            None,
            3,
            None,
            None,
            None,
            "{}".to_owned(),
            CREATED_AT.to_owned(),
            CREATED_AT.to_owned(),
            archived_at.map(str::to_owned),
            None,
        )
    };
    assert_eq!(
        reconstitute(ProjectStatus::Archived, None),
        Err(ProjectError::ArchivedAtRequired)
    );
    assert_eq!(
        reconstitute(ProjectStatus::Archived, Some("   ")),
        Err(ProjectError::ArchivedAtRequired)
    );
    assert_eq!(
        reconstitute(ProjectStatus::Paused, Some("2026-07-20T12:00:00.000Z")),
        Err(ProjectError::ArchivedAtNotAllowed(ProjectStatus::Paused))
    );
    let archived = reconstitute(ProjectStatus::Archived, Some(" 2026-07-20T12:00:00.000Z "))
        .expect("consistent archived project");
    assert_eq!(archived.archived_at(), Some("2026-07-20T12:00:00.000Z"));
}

#[test]
fn error_messages_match_their_variants() {
    let cases = [
        (ProjectError::RequiredField("name"), "field `name` is required"),
        (
            ProjectError::InvalidId("x".to_owned()),
            "`x` is not a canonical UUID",
        ),
        (
            ProjectError::InvalidPriority(9),
            "priority must be between 1 and 5; received 9",
        ),
        (
            ProjectError::InvalidDate {
                field: "start_date",
                value: "2026-02-30".to_owned(),
            },
            "field `start_date` must use YYYY-MM-DD; received `2026-02-30`",
        ),
        (
            ProjectError::InvalidDateRange {
                start_date: "2026-07-20".to_owned(),
                target_date: "2026-07-19".to_owned(),
            },
            "target date `2026-07-19` cannot be earlier than start date `2026-07-20`",
        ),
        (
            ProjectError::InvalidStatus("done".to_owned()),
            "unknown project status `done`",
        ),
        (
            ProjectError::InvalidType("game".to_owned()),
            "unknown project type `game`",
        ),
        (
            ProjectError::InvalidTransition {
                from: ProjectStatus::Completed,
                to: ProjectStatus::Paused,
            },
            "cannot transition project from `completed` to `paused`",
        ),
        (
            ProjectError::AlreadyInStatus(ProjectStatus::Archived),
            "project is already in status `archived`",
        ),
        (
            ProjectError::ArchivedAtRequired,
            "an archived project requires `archived_at`",
        ),
        (
            ProjectError::ArchivedAtNotAllowed(ProjectStatus::Cancelled),
            "`archived_at` is not allowed when project status is `cancelled`",
        ),
        (ProjectError::ProjectDeleted, "a deleted project cannot be changed"),
    ];
    for (error, expected) in cases {
        assert_eq!(error.to_string(), expected);
    }
}

#[test]
fn status_and_type_texts() {
    assert_eq!(ProjectStatus::Cancelled.as_str(), "cancelled");
    assert_eq!(ProjectStatus::Completed.to_string(), "completed");
    assert_eq!(ProjectType::Administrative.as_str(), "administrative");
    assert_eq!(ProjectType::Certification.to_string(), "certification");
    assert_eq!(
        "Software".parse::<ProjectType>(),
        Err(ProjectError::InvalidType("Software".to_owned()))
    );
}

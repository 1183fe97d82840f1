use vertica::domain::project::{
    NewProject, Project, ProjectChanges, ProjectError, ProjectStatus, ProjectType,
};

const PROJECT_ID: &str = "550e8400-e29b-41d4-a716-446655440000";
const CREATED_AT: &str = "2026-07-19T12:00:00.000Z";

fn full_project() -> Project {
    Project::create(NewProject {
        id: PROJECT_ID.to_owned(),
        name: " Exam preparation ".to_owned(),
        description: Some(" Study plan ".to_owned()),
        project_type: ProjectType::Certification,
        start_date: Some("2026-07-19".to_owned()),
        target_date: Some("2026-12-31".to_owned()),
        priority: 2,
        color: Some("green".to_owned()),
        icon: Some("book".to_owned()),
        objective: Some("Pass".to_owned()),
        settings_json: "{\"modules\":[]}".to_owned(),
        created_at: CREATED_AT.to_owned(),
    })
    .expect("valid project")
}

fn reconstituted(project: &Project) -> Result<Project, ProjectError> {
    Project::reconstitute(
        project.id().to_owned(),
        project.name().to_owned(),
        project.description().map(str::to_owned),
        project.project_type(),
        project.status(),
        project.start_date().map(str::to_owned),
        project.target_date().map(str::to_owned),
        project.priority(),
        project.color().map(str::to_owned),
        project.icon().map(str::to_owned),
        project.objective().map(str::to_owned),
        project.settings_json().to_owned(),
        project.created_at().to_owned(),
        project.updated_at().to_owned(),
        project.archived_at().map(str::to_owned),
        project.deleted_at().map(str::to_owned),
    )
}

#[test]
fn reconstituting_stored_fields_gives_back_the_project() {
    let mut project = full_project();
    assert_eq!(reconstituted(&project), Ok(project.clone()));
    project.archive("2026-07-20T12:00:00.000Z").expect("archive");
    assert_eq!(reconstituted(&project), Ok(project.clone()));
    project.soft_delete("2026-07-21T12:00:00.000Z").expect("delete");
    assert_eq!(reconstituted(&project), Ok(project.clone()));
}

#[test]
fn archive_then_restore_keeps_the_project_data() {
    let mut project = full_project();
    project.pause("2026-07-19T13:00:00.000Z").expect("pause");
    let before = project.clone();
    project.archive("2026-07-20T12:00:00.000Z").expect("archive");
    project.restore("2026-07-21T12:00:00.000Z").expect("restore");
    assert_eq!(project.status(), ProjectStatus::Active);
    assert_eq!(project.archived_at(), None);
    assert_eq!(project.updated_at(), "2026-07-21T12:00:00.000Z");
    assert_eq!(project.name(), before.name());
    assert_eq!(project.description(), before.description());
    assert_eq!(project.start_date(), before.start_date());
    assert_eq!(project.priority(), before.priority());
    assert_eq!(project.created_at(), before.created_at());
}

#[test]
fn pause_then_resume_gives_back_the_project() {
    let original = full_project();
    let mut project = original.clone();
    project.pause("2026-07-19T13:00:00.000Z").expect("pause");
    project.resume("2026-07-19T14:00:00.000Z").expect("resume");
    let mut expected = original.clone();
    expected
        .update(ProjectChanges::default(), "2026-07-19T14:00:00.000Z")
        .expect("empty update");
    assert_eq!(project, expected);
}

#[test]
fn an_empty_update_only_records_the_time() {
    let original = full_project();
    let mut project = original.clone();
    project
        .update(ProjectChanges::default(), " 2026-07-19T15:00:00.000Z ")
        .expect("empty update");
    assert_eq!(project.updated_at(), "2026-07-19T15:00:00.000Z");
    assert_eq!(project.name(), original.name());
    assert_eq!(project.description(), original.description());
    assert_eq!(project.project_type(), original.project_type());
    assert_eq!(project.status(), original.status());
    assert_eq!(project.target_date(), original.target_date());
    assert_eq!(project.settings_json(), original.settings_json());
    assert_eq!(project.created_at(), original.created_at());
}

#[test]
fn deleted_projects_refuse_every_change() {
    let mut project = full_project();
    project.soft_delete("2026-07-20T12:00:00.000Z").expect("delete");
    let before = project.clone();
    let at = "2026-07-21T12:00:00.000Z";
    assert_eq!(project.update(ProjectChanges::default(), at), Err(ProjectError::ProjectDeleted));
    assert_eq!(project.pause(at), Err(ProjectError::ProjectDeleted));
    assert_eq!(project.resume(at), Err(ProjectError::ProjectDeleted));
    assert_eq!(project.complete(at), Err(ProjectError::ProjectDeleted));
    assert_eq!(project.cancel(at), Err(ProjectError::ProjectDeleted));
    assert_eq!(project.archive(at), Err(ProjectError::ProjectDeleted));
    assert_eq!(project.restore(at), Err(ProjectError::ProjectDeleted));
    assert_eq!(project.soft_delete(at), Err(ProjectError::ProjectDeleted));
    assert_eq!(project, before);
}

#[test]
fn finished_projects_stay_finished() {
    for finish in [Project::complete, Project::cancel] {
        let mut project = full_project();
        finish(&mut project, "2026-07-20T12:00:00.000Z").expect("finish");
        let at = "2026-07-21T12:00:00.000Z";
        assert!(project.pause(at).is_err());
        assert!(project.resume(at).is_err());
        assert!(project.complete(at).is_err());
        assert!(project.cancel(at).is_err());
        assert!(project.archive(at).is_ok());
    }
}

#[test]
fn persisted_texts_read_back_as_the_same_values() {
    for status in [
        ProjectStatus::Active,
        ProjectStatus::Paused,
        ProjectStatus::Completed,
        ProjectStatus::Archived,
        ProjectStatus::Cancelled,
    ] {
        assert_eq!(status.as_str().parse::<ProjectStatus>(), Ok(status));
    }
    for project_type in [
        ProjectType::Custom,
        ProjectType::Learning,
        ProjectType::Certification,
        ProjectType::Reading,
        ProjectType::Software,
        ProjectType::Fitness,
        ProjectType::Administrative,
    ] {
        assert_eq!(project_type.as_str().parse::<ProjectType>(), Ok(project_type));
    }
}

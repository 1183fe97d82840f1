use vertica::domain::project_repository::ProjectRepositoryError;

#[test]
fn repository_errors_have_safe_messages() {
    let cases = [
        (
            ProjectRepositoryError::not_found("project-id"),
            "project `project-id` was not found",
        ),
        (
            ProjectRepositoryError::conflict("project-id"),
            "project `project-id` already exists",
        ),
        (
            ProjectRepositoryError::unavailable(),
            "project storage is unavailable",
        ),
        (
            ProjectRepositoryError::corrupted_data("invalid status"),
            "stored project data is invalid: invalid status",
        ),
        (
            ProjectRepositoryError::unexpected("write failed"),
            "unexpected project storage error: write failed",
        ),
    ];

    for (error, expected) in cases {
        assert_eq!(error.to_string(), expected);
    }
}

#[test]
fn helper_constructors_preserve_context() {
    assert_eq!(
        ProjectRepositoryError::not_found("abc"),
        ProjectRepositoryError::NotFound {
            id: "abc".to_owned(),
        }
    );

    assert_eq!(
        ProjectRepositoryError::conflict("abc"),
        ProjectRepositoryError::Conflict {
            id: "abc".to_owned(),
        }
    );
}

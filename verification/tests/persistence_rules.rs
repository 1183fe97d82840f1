use vertica::domain::project::{NewProject, Project, ProjectStatus, ProjectType};
use vertica::domain::project_repository::ProjectRepositoryError;
use vertica::domain::settings::ThemePreference;
use vertica::persistence::database_manager::{foreign_keys_enabled, verify_integrity};
use vertica::persistence::error::{DatabaseErrorKind, DatabaseFailure, PersistenceError};
use vertica::persistence::migration::{
    checksum, current_schema_version, migrations, pending_migration_count, pending_migrations,
    verify_applied_migrations, AppliedMigration,
};
use vertica::persistence::project_repository::{
    map_insert_error, map_persistence_error, project_from_row, row_from_project, update_result,
    ProjectRow,
};
use vertica::persistence::settings_repository::{
    map_settings_persistence_error, settings_from_row, settings_update_result,
};

const PROJECT_ID: &str = "550e8400-e29b-41d4-a716-446655440000";
const CREATED_AT: &str = "2026-07-19T12:00:00.000Z";

fn row() -> ProjectRow {
    ProjectRow {
        id: PROJECT_ID.to_owned(),
        name: "Vertica".to_owned(),
        description: None,
        project_type: "software".to_owned(),
        status: "active".to_owned(),
        start_date: Some("2026-07-19".to_owned()),
        target_date: None,
        priority: 3,
        color: None,
        icon: None,
        objective: None,
        settings_json: "{}".to_owned(),
        created_at: CREATED_AT.to_owned(),
        updated_at: CREATED_AT.to_owned(),
        archived_at: None,
        deleted_at: None,
    }
}

fn failure(kind: DatabaseErrorKind, message: &str) -> PersistenceError {
    PersistenceError::Database(DatabaseFailure {
        kind,
        message: message.to_owned(),
    })
}

#[test]
fn sha256_checksums_are_lower_case_hex() {
    assert_eq!(
        checksum("abc"),
        "ba7816bf8f01cfea414140de5dae2223b00361a396177a9cb410ff61f20015ad"
    );
    assert_eq!(
        checksum(""),
        "e3b0c44298fc1c149afbf4c8996fb92427ae41e4649b934ca495991b7852b855"
    );
}

#[test]
fn lists_the_migrations_in_order() {
    let all = migrations();
    assert_eq!(all.len(), 3);
    assert_eq!(
        all.iter().map(|m| m.version).collect::<Vec<_>>(),
        vec![1, 2, 3]
    );
    assert_eq!(all[2].description, "create projects");
}

#[test]
fn plans_only_the_missing_migrations() {
    assert_eq!(pending_migration_count(&vec![]), 3);
    let pending = pending_migrations(&vec![2]);
    assert_eq!(
        pending.iter().map(|m| m.version).collect::<Vec<_>>(),
        vec![1, 3]
    );
    assert_eq!(pending_migration_count(&vec![1, 2, 3]), 0);
}

#[test]
fn running_the_plan_twice_applies_nothing_the_second_time() {
    let mut applied = vec![1];
    for migration in pending_migrations(&applied) {
        applied.push(migration.version);
    }
    assert!(pending_migrations(&applied).is_empty());
    assert_eq!(current_schema_version(&applied), 3);
}

#[test]
fn schema_version_is_the_highest_applied() {
    assert_eq!(current_schema_version(&vec![]), 0);
    assert_eq!(current_schema_version(&vec![1, 3, 2]), 3);
}

#[test]
fn refuses_a_changed_migration() {
    let all = migrations();
    let good = vec![
        AppliedMigration {
            version: 1,
            checksum: checksum(all[0].sql),
        },
        AppliedMigration {
            version: 2,
            checksum: checksum(all[1].sql),
        },
    ];
    assert_eq!(verify_applied_migrations(&good), Ok(()));
    let tampered = vec![
        AppliedMigration {
            version: 1,
            checksum: checksum(all[0].sql),
        },
        AppliedMigration {
            version: 2,
            checksum: "0".repeat(64),
        },
    ];
    let error = verify_applied_migrations(&tampered).expect_err("checksum must differ");
    assert_eq!(error, PersistenceError::MigrationChecksumMismatch { version: 2 });
    assert_eq!(
        error.to_string(),
        "migration 2 has a different checksum than the applied migration"
    );
}

#[test]
fn decodes_a_stored_row() {
    let project = project_from_row(row()).expect("valid row");
    let expected = Project::create(NewProject {
        start_date: Some("2026-07-19".to_owned()),
        ..NewProject::minimal(PROJECT_ID, "Vertica", ProjectType::Software, CREATED_AT)
    })
    .expect("valid project");
    assert_eq!(project, expected);
}

#[test]
fn reports_unreadable_columns() {
    let bad_type = ProjectRow {
        project_type: "game".to_owned(),
        ..row()
    };
    assert_eq!(
        project_from_row(bad_type).expect_err("unknown type"),
        PersistenceError::Database(DatabaseFailure {
            kind: DatabaseErrorKind::ConversionFailure,
            message: "Conversion error from type Text at index: 3, unknown project type `game`"
                .to_owned(),
        })
    );

    let bad_status = ProjectRow {
        status: "done".to_owned(),
        ..row()
    };
    assert_eq!(
        project_from_row(bad_status).expect_err("unknown status").to_string(),
        "database operation failed: Conversion error from type Text at index: 4, unknown project status `done`"
    );

    let bad_priority = ProjectRow {
        priority: 300,
        ..row()
    };
    assert_eq!(
        project_from_row(bad_priority).expect_err("priority out of range").to_string(),
        "database operation failed: Conversion error from type Integer at index: 7, out of range integral type conversion attempted"
    );

    let archived_without_time = ProjectRow {
        status: "archived".to_owned(),
        ..row()
    };
    assert_eq!(
        project_from_row(archived_without_time).expect_err("inconsistent row").to_string(),
        "database operation failed: Conversion error from type Text at index: 0, an archived project requires `archived_at`"
    );
}

#[test]
fn classifies_storage_failures() {
    assert_eq!(
        map_persistence_error(PersistenceError::LockPoisoned),
        ProjectRepositoryError::Unavailable
    );
    assert_eq!(
        map_persistence_error(failure(DatabaseErrorKind::DatabaseBusy, "database is locked")),
        ProjectRepositoryError::Unavailable
    );
    assert_eq!(
        map_persistence_error(failure(DatabaseErrorKind::ConversionFailure, "bad value")),
        ProjectRepositoryError::CorruptedData {
            details: "database operation failed: bad value".to_owned()
        }
    );
    assert_eq!(
        map_persistence_error(failure(DatabaseErrorKind::Other, "disk I/O error")),
        ProjectRepositoryError::Unexpected {
            details: "database operation failed: disk I/O error".to_owned()
        }
    );
    assert_eq!(
        map_insert_error(
            failure(DatabaseErrorKind::ConstraintViolation, "UNIQUE constraint failed"),
            PROJECT_ID
        ),
        ProjectRepositoryError::conflict(PROJECT_ID)
    );
    assert_eq!(
        map_insert_error(PersistenceError::LockPoisoned, PROJECT_ID),
        ProjectRepositoryError::Unavailable
    );
}

#[test]
fn an_update_of_no_row_is_not_found() {
    assert_eq!(
        update_result(Ok(0), PROJECT_ID),
        Err(ProjectRepositoryError::not_found(PROJECT_ID))
    );
    assert_eq!(update_result(Ok(1), PROJECT_ID), Ok(()));
    assert_eq!(
        update_result(Err(PersistenceError::LockPoisoned), PROJECT_ID),
        Err(ProjectRepositoryError::Unavailable)
    );
}

#[test]
fn persistence_error_messages() {
    assert_eq!(
        PersistenceError::MigrationFailed {
            version: 3,
            source: DatabaseFailure {
                kind: DatabaseErrorKind::Other,
                message: "syntax error".to_owned(),
            },
        }
        .to_string(),
        "migration 3 failed: syntax error"
    );
    assert_eq!(
        PersistenceError::DirectoryCreation {
            path: "/data/profiles/default".to_owned(),
            message: "permission denied".to_owned(),
        }
        .to_string(),
        "failed to create the database directory at /data/profiles/default: permission denied"
    );
    assert_eq!(
        PersistenceError::LockPoisoned.to_string(),
        "database state lock is unavailable"
    );
}

#[test]
fn decodes_the_settings_row() {
    let settings = settings_from_row("dark".to_owned(), "pt-BR".to_owned(), CREATED_AT.to_owned())
        .expect("valid row");
    assert_eq!(settings.theme, ThemePreference::Dark);
    assert_eq!(settings.language, "pt-BR");
    let error = settings_from_row("blue".to_owned(), "en".to_owned(), CREATED_AT.to_owned())
        .expect_err("unknown theme");
    assert_eq!(
        map_settings_persistence_error(error).to_string(),
        "database operation failed: Conversion error from type Text at index: 0, unsupported theme preference: blue"
    );
    assert_eq!(settings_update_result(1), Ok(()));
    assert_eq!(
        settings_update_result(0).expect_err("no row").to_string(),
        "database operation failed: Query returned no rows"
    );
}

#[test]
fn integrity_needs_a_clean_check() {
    assert_eq!(verify_integrity("ok", 0), Ok(()));
    assert!(verify_integrity("*** in database main ***", 0).is_err());
    assert!(verify_integrity("ok", 2).is_err());
    assert_eq!(
        verify_integrity("ok", 1).unwrap_err().to_string(),
        "database operation failed: Query is not read-only"
    );
    assert!(foreign_keys_enabled(1));
    assert!(!foreign_keys_enabled(0));
}

#[test]
fn archived_rows_decode_as_archived() {
    let stored = ProjectRow {
        status: "archived".to_owned(),
        archived_at: Some("2026-07-20T12:00:00.000Z".to_owned()),
        ..row()
    };
    let project = project_from_row(stored).expect("archived row");
    assert_eq!(project.status(), ProjectStatus::Archived);
    assert_eq!(project.archived_at(), Some("2026-07-20T12:00:00.000Z"));
}

#[test]
fn stored_rows_read_back_as_the_same_project() {
    let mut project = project_from_row(row()).expect("valid row");
    assert_eq!(project_from_row(row_from_project(&project)), Ok(project.clone()));
    project.archive("2026-07-20T12:00:00.000Z").expect("archive");
    let stored = row_from_project(&project);
    assert_eq!(stored.status, "archived");
    assert_eq!(stored.project_type, "software");
    assert_eq!(stored.priority, 3);
    assert_eq!(project_from_row(stored), Ok(project));
}

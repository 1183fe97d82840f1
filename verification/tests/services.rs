use std::cell::RefCell;

use vertica::application::application_info::{current_environment, ApplicationInfoService};
use vertica::application::database_diagnostics::DatabaseDiagnosticsService;
use vertica::application::project::{
    new_project_from_request, resolve_lookup, CreateProjectRequest, ProjectServiceError,
};
use vertica::application::settings::{SettingsService, UpdateSettingsInput};
use vertica::domain::application_info::{
    ApplicationEnvironment, ApplicationStatus, DatabaseStatus,
};
use vertica::domain::project::{ProjectType, DEFAULT_PROJECT_PRIORITY};
use vertica::domain::project_repository::ProjectRepositoryError;
use vertica::domain::settings::{
    ApplicationSettings, ThemePreference, UpdateApplicationSettings,
};
use vertica::domain::settings_repository::{SettingsRepository, SettingsRepositoryError};
use vertica::persistence::database_manager::DatabaseHealthSnapshot;

struct MemorySettings {
    stored: RefCell<ApplicationSettings>,
}

impl SettingsRepository for MemorySettings {
    fn get(&self) -> Result<ApplicationSettings, SettingsRepositoryError> {
        Ok(self.stored.borrow().clone())
    }

    fn update(
        &self,
        settings: &UpdateApplicationSettings,
    ) -> Result<ApplicationSettings, SettingsRepositoryError> {
        let mut stored = self.stored.borrow_mut();
        stored.theme = settings.theme;
        stored.language = settings.language.clone();
        Ok(stored.clone())
    }
}

fn memory_settings() -> MemorySettings {
    MemorySettings {
        stored: RefCell::new(ApplicationSettings {
            theme: ThemePreference::System,
            language: "en".to_owned(),
            updated_at: "2026-07-19T12:00:00.000Z".to_owned(),
        }),
    }
}

#[test]
fn settings_service_refuses_unsupported_languages_before_storing() {
    let repository = memory_settings();
    let service = SettingsService::new(&repository);
    let error = service
        .update(UpdateSettingsInput {
            theme: ThemePreference::Dark,
            language: "es".to_owned(),
        })
        .expect_err("unsupported language");
    assert_eq!(error.to_string(), "unsupported language preference: es");
    assert_eq!(service.get().expect("stored").theme, ThemePreference::System);

    let updated = service
        .update(UpdateSettingsInput {
            theme: ThemePreference::Light,
            language: "pt-BR".to_owned(),
        })
        .expect("supported language");
    assert_eq!(updated.theme, ThemePreference::Light);
    assert_eq!(updated.language, "pt-BR");
}

#[test]
fn unsupported_theme_text_names_the_value() {
    let error = ThemePreference::try_from("blue").expect_err("unknown theme");
    assert_eq!(error.to_string(), "unsupported theme preference: blue");
    assert_eq!(ThemePreference::Dark.as_str(), "dark");
    assert_eq!(ThemePreference::default(), ThemePreference::System);
}

#[test]
fn application_information_reflects_the_build() {
    let info = ApplicationInfoService::get("vertica", "0.1.0", true);
    assert_eq!(info.name, "vertica");
    assert_eq!(info.version, "0.1.0");
    assert_eq!(info.environment, ApplicationEnvironment::Development);
    assert_eq!(info.status, ApplicationStatus::Ready);
    assert_eq!(info.database.status, DatabaseStatus::NotConfigured);
    assert_eq!(info.database.version, None);
    assert_eq!(current_environment(false), ApplicationEnvironment::Production);
}

#[test]
fn diagnostics_report_a_reachable_database() {
    let diagnostics = DatabaseDiagnosticsService::from_snapshot(DatabaseHealthSnapshot {
        database_path: ":memory:".to_owned(),
        schema_version: 3,
        pending_migrations: 0,
        foreign_keys_enabled: true,
        journal_mode: "memory".to_owned(),
    });
    assert!(diagnostics.reachable);
    assert_eq!(diagnostics.database_path, ":memory:");
    assert_eq!(diagnostics.schema_version, 3);
    assert_eq!(diagnostics.pending_migrations, 0);
    assert!(diagnostics.foreign_keys_enabled);
    assert_eq!(diagnostics.journal_mode, "memory");
}

#[test]
fn service_errors_hide_storage_details() {
    let cases = [
        (
            ProjectRepositoryError::not_found("abc"),
            ProjectServiceError::NotFound {
                id: "abc".to_owned(),
            },
            "project `abc` was not found",
        ),
        (
            ProjectRepositoryError::conflict("abc"),
            ProjectServiceError::Conflict {
                id: "abc".to_owned(),
            },
            "project `abc` already exists",
        ),
        (
            ProjectRepositoryError::unavailable(),
            ProjectServiceError::StorageUnavailable,
            "project storage is unavailable",
        ),
        (
            ProjectRepositoryError::corrupted_data("column 4"),
            ProjectServiceError::InvalidStoredData,
            "stored project data is invalid",
        ),
        (
            ProjectRepositoryError::unexpected("disk"),
            ProjectServiceError::Unexpected,
            "an unexpected project error occurred",
        ),
    ];
    for (repository_error, service_error, message) in cases {
        let mapped = ProjectServiceError::from(repository_error);
        assert_eq!(mapped, service_error);
        assert_eq!(mapped.to_string(), message);
    }
}

#[test]
fn lookups_of_absent_projects_are_not_found() {
    assert_eq!(
        resolve_lookup("abc", Ok(None)),
        Err(ProjectServiceError::NotFound {
            id: "abc".to_owned()
        })
    );
    assert_eq!(
        resolve_lookup("abc", Err(ProjectRepositoryError::unavailable())),
        Err(ProjectServiceError::StorageUnavailable)
    );
}

#[test]
fn creation_requests_get_defaults() {
    let input = new_project_from_request(
        CreateProjectRequest {
            name: "Vertica".to_owned(),
            description: None,
            project_type: ProjectType::Fitness,
            start_date: None,
            target_date: None,
            priority: None,
            color: None,
            icon: None,
            objective: None,
            settings_json: None,
        },
        "id".to_owned(),
        "now".to_owned(),
    );
    assert_eq!(input.priority, DEFAULT_PROJECT_PRIORITY);
    assert_eq!(input.settings_json, "{}");
    assert_eq!(input.id, "id");
    assert_eq!(input.created_at, "now");
    assert_eq!(input.project_type, ProjectType::Fitness);
}

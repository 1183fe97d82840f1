//! Settings use cases: read and change the application settings.

use vstd::prelude::*;

use crate::domain::settings::{
    is_supported_language, settings_error_message, ApplicationSettings, SettingsValidationErrorView,
    ThemePreference, UpdateApplicationSettings,
};
use crate::domain::settings_repository::{SettingsRepository, SettingsRepositoryError};

verus! {

/// A request to change the settings.
#[derive(Debug, Clone)]
pub struct UpdateSettingsInput {
    pub theme: ThemePreference,
    pub language: String,
}

/// Coordinates settings use cases over a settings repository.
pub struct SettingsService<'a, TRepository> where TRepository: SettingsRepository {
    repository: &'a TRepository,
}

impl<'a, TRepository> SettingsService<'a, TRepository> where TRepository: SettingsRepository {
    /// The repository the service reads and writes.
    pub closed spec fn repository_of(&self) -> &'a TRepository {
        self.repository
    }

    pub fn new(repository: &'a TRepository) -> (r: Self)
        ensures
            r.repository_of() == repository,
    {
        SettingsService { repository }
    }

    /// The stored settings, as the repository reports them: the result is
    /// the repository's own answer, handed on unchanged.
    pub fn get(&self) -> (r: Result<ApplicationSettings, SettingsRepositoryError>)
        ensures
            call_ensures(TRepository::get, (self.repository_of(),), r),
    {
        self.repository.get()
    }

    /// Stores `input` when its language is supported: the validated
    /// settings are handed to the repository's `update`, whose answer is the
    /// result. An unsupported language is refused before the repository is
    /// asked.
    pub fn update(&self, input: UpdateSettingsInput) -> (r: Result<
        ApplicationSettings,
        SettingsRepositoryError,
    >)
        ensures
            is_supported_language(input.language@) ==> exists|settings: UpdateApplicationSettings|
                #[trigger] call_ensures(TRepository::update, (self.repository_of(), &settings), r)
                    && settings.theme == input.theme && settings.language@ == input.language@,
            !is_supported_language(input.language@) ==> r is Err && r->Err_0@
                == settings_error_message(
                SettingsValidationErrorView::InvalidLanguage(input.language@),
            ),
    {
        let settings = match UpdateApplicationSettings::new(input.theme, input.language.as_str()) {
            Ok(settings) => settings,
            Err(error) => return Err(error),
        };
        let r = self.repository.update(&settings);
        proof {
            assert(call_ensures(TRepository::update, (self.repository_of(), &settings), r));
        }
        r
    }
}

} // verus!

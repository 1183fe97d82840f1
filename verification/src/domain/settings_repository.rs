//! The persistence contract for application settings.

use vstd::prelude::*;

use crate::domain::settings::{ApplicationSettings, UpdateApplicationSettings};
use crate::text::owned_text;

verus! {

/// A settings storage failure, described by its message.
#[derive(Debug, Clone, PartialEq, Eq)]
pub struct SettingsRepositoryError {
    message: String,
}

impl View for SettingsRepositoryError {
    type V = Seq<char>;

    closed spec fn view(&self) -> Seq<char> {
        self.message@
    }
}

impl SettingsRepositoryError {
    pub fn new(message: &str) -> (r: SettingsRepositoryError)
        ensures
            r@ == message@,
    {
        SettingsRepositoryError { message: owned_text(message) }
    }

    /// The message of this error.
    pub fn to_string(&self) -> (r: String)
        ensures
            r@ == self@,
    {
        self.message.clone()
    }
}

/// Storage of the single application settings record.
pub trait SettingsRepository {
    fn get(&self) -> Result<ApplicationSettings, SettingsRepositoryError>;

    fn update(&self, settings: &UpdateApplicationSettings) -> Result<
        ApplicationSettings,
        SettingsRepositoryError,
    >;
}

} // verus!

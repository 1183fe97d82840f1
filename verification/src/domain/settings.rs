//! Application-wide settings: theme preference and interface language.

use vstd::prelude::*;

use crate::domain::settings_repository::SettingsRepositoryError;
use crate::text::{join2, owned_text, text_equals};

verus! {

/// The theme the interface uses.
#[derive(Debug, Clone, Copy, Default, PartialEq, Eq, Structural)]
pub enum ThemePreference {
    #[default]
    System,
    Light,
    Dark,
}

/// The persisted text of a theme.
pub open spec fn theme_text(theme: ThemePreference) -> Seq<char> {
    match theme {
        ThemePreference::System => "system"@,
        ThemePreference::Light => "light"@,
        ThemePreference::Dark => "dark"@,
    }
}

/// The theme whose persisted text is `value`, if any.
pub open spec fn parse_theme(value: Seq<char>) -> Option<ThemePreference> {
    if value == "system"@ {
        Some(ThemePreference::System)
    } else if value == "light"@ {
        Some(ThemePreference::Light)
    } else if value == "dark"@ {
        Some(ThemePreference::Dark)
    } else {
        None
    }
}

impl ThemePreference {
    pub fn as_str(self) -> (r: &'static str)
        ensures
            r@ == theme_text(self),
    {
        match self {
            ThemePreference::System => "system",
            ThemePreference::Light => "light",
            ThemePreference::Dark => "dark",
        }
    }

    /// Parses a persisted theme text.
    pub fn from_text(value: &str) -> (r: Result<ThemePreference, SettingsValidationError>)
        ensures
            match parse_theme(value@) {
                Some(theme) => r == Ok::<ThemePreference, SettingsValidationError>(theme),
                None => r is Err && r->Err_0@ == SettingsValidationErrorView::InvalidTheme(value@),
            },
    {
        if text_equals(value, "system") {
            Ok(ThemePreference::System)
        } else if text_equals(value, "light") {
            Ok(ThemePreference::Light)
        } else if text_equals(value, "dark") {
            Ok(ThemePreference::Dark)
        } else {
            Err(SettingsValidationError::InvalidTheme(owned_text(value)))
        }
    }
}

impl<'a> TryFrom<&'a str> for ThemePreference {
    type Error = SettingsValidationError;

    fn try_from(value: &'a str) -> (r: Result<Self, Self::Error>)
        ensures
            match parse_theme(value@) {
                Some(theme) => r == Ok::<ThemePreference, SettingsValidationError>(theme),
                None => r is Err && r->Err_0@ == SettingsValidationErrorView::InvalidTheme(value@),
            },
    {
        ThemePreference::from_text(value)
    }
}

// The result of `try_from` is stated on the method itself: its error carries
// a `String` that a spec value cannot build, so no `try_from_spec` is given.
impl<'a> vstd::std_specs::convert::TryFromSpecImpl<&'a str> for ThemePreference {
    open spec fn obeys_try_from_spec() -> bool {
        false
    }

    open spec fn try_from_spec(v: &'a str) -> Result<Self, SettingsValidationError> {
        arbitrary()
    }
}

/// The current application settings.
#[derive(Debug, Clone, PartialEq, Eq)]
pub struct ApplicationSettings {
    pub theme: ThemePreference,
    pub language: String,
    pub updated_at: String,
}

/// A validated request to change the application settings.
#[derive(Debug, Clone, PartialEq, Eq)]
pub struct UpdateApplicationSettings {
    pub theme: ThemePreference,
    pub language: String,
}

/// The interface languages the application ships.
pub open spec fn is_supported_language(language: Seq<char>) -> bool {
    language == "en"@ || language == "pt-BR"@
}

impl UpdateApplicationSettings {
    /// Accepts the change when the language is supported.
    pub fn new(theme: ThemePreference, language: &str) -> (r: Result<
        UpdateApplicationSettings,
        SettingsRepositoryError,
    >)
        ensures
            is_supported_language(language@) ==> r is Ok && r->Ok_0.theme == theme
                && r->Ok_0.language@ == language@,
            !is_supported_language(language@) ==> r is Err && r->Err_0@ == settings_error_message(
                SettingsValidationErrorView::InvalidLanguage(language@),
            ),
    {
        match validate_language(language) {
            Ok(()) => Ok(UpdateApplicationSettings { theme, language: owned_text(language) }),
            Err(error) => {
                let message = error.to_string();
                Err(SettingsRepositoryError::new(message.as_str()))
            },
        }
    }
}

/// Why a settings value was refused.
#[derive(Debug, Clone, PartialEq, Eq)]
pub enum SettingsValidationError {
    InvalidTheme(String),
    InvalidLanguage(String),
}

/// The model of a `SettingsValidationError`.
pub enum SettingsValidationErrorView {
    InvalidTheme(Seq<char>),
    InvalidLanguage(Seq<char>),
}

impl View for SettingsValidationError {
    type V = SettingsValidationErrorView;

    open spec fn view(&self) -> SettingsValidationErrorView {
        match self {
            SettingsValidationError::InvalidTheme(v) => SettingsValidationErrorView::InvalidTheme(
                v@,
            ),
            SettingsValidationError::InvalidLanguage(v) =>
                SettingsValidationErrorView::InvalidLanguage(v@),
        }
    }
}

/// The message of a settings validation error.
pub open spec fn settings_error_message(e: SettingsValidationErrorView) -> Seq<char> {
    match e {
        SettingsValidationErrorView::InvalidTheme(v) => "unsupported theme preference: "@ + v,
        SettingsValidationErrorView::InvalidLanguage(v) => "unsupported language preference: "@
            + v,
    }
}

impl SettingsValidationError {
    /// The message of this error.
    pub fn to_string(&self) -> (r: String)
        ensures
            r@ == settings_error_message(self@),
    {
        match self {
            SettingsValidationError::InvalidTheme(v) => join2(
                "unsupported theme preference: ",
                v.as_str(),
            ),
            SettingsValidationError::InvalidLanguage(v) => join2(
                "unsupported language preference: ",
                v.as_str(),
            ),
        }
    }
}

/// Accepts `en` and `pt-BR`.
pub fn validate_language(language: &str) -> (r: Result<(), SettingsValidationError>)
    ensures
        r is Ok <==> is_supported_language(language@),
        r is Err ==> r->Err_0@ == SettingsValidationErrorView::InvalidLanguage(language@),
{
    if text_equals(language, "en") || text_equals(language, "pt-BR") {
        Ok(())
    } else {
        Err(SettingsValidationError::InvalidLanguage(owned_text(language)))
    }
}

/// Every theme is read back from its persisted text.
pub proof fn law_theme_text_round_trip(theme: ThemePreference, value: Seq<char>)
    ensures
        parse_theme(theme_text(theme)) == Some(theme),
        parse_theme(value) == Some(theme) ==> theme_text(theme) == value,
{
    reveal_strlit("system");
    reveal_strlit("light");
    reveal_strlit("dark");
    assert("system"@.len() == 6);
    assert("light"@.len() == 5);
    assert("dark"@.len() == 4);
}

} // verus!

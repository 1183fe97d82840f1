use vertica::domain::settings::{validate_language, ThemePreference, UpdateApplicationSettings};

#[test]
fn parses_supported_themes() {
    assert_eq!(ThemePreference::try_from("system"), Ok(ThemePreference::System),);

    assert_eq!(ThemePreference::try_from("light"), Ok(ThemePreference::Light),);

    assert_eq!(ThemePreference::try_from("dark"), Ok(ThemePreference::Dark),);
}

#[test]
fn rejects_unsupported_theme() {
    assert!(ThemePreference::try_from("blue").is_err());
}

#[test]
fn accepts_supported_languages() {
    assert!(validate_language("en").is_ok());
    assert!(validate_language("pt-BR").is_ok());
}

#[test]
fn rejects_unsupported_languages() {
    assert!(validate_language("pt").is_err());
    assert!(validate_language("pt-br").is_err());
    assert!(validate_language("es").is_err());
}

#[test]
fn creates_valid_update_settings() {
    let settings = UpdateApplicationSettings::new(ThemePreference::Dark, "pt-BR")
        .expect("supported settings should be accepted");

    assert_eq!(settings.theme, ThemePreference::Dark);
    assert_eq!(settings.language, "pt-BR");
}

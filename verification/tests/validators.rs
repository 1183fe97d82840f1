use vertica::domain::project::{validate_iso_date, validate_uuid, ProjectError};

fn invalid_date(field: &'static str, value: &str) -> Result<(), ProjectError> {
    Err(ProjectError::InvalidDate { field, value: value.to_owned() })
}

#[test]
fn accepts_calendar_dates_with_gregorian_leap_years() {
    assert_eq!(validate_iso_date("start_date", "2024-02-29"), Ok(()));
    assert_eq!(validate_iso_date("start_date", "2000-02-29"), Ok(()));
    assert_eq!(validate_iso_date("start_date", "0001-01-01"), Ok(()));
    assert_eq!(validate_iso_date("target_date", "2026-12-31"), Ok(()));
}

#[test]
fn refuses_dates_outside_the_calendar() {
    assert_eq!(validate_iso_date("start_date", "2100-02-29"), invalid_date("start_date", "2100-02-29"));
    assert_eq!(validate_iso_date("start_date", "2026-02-30"), invalid_date("start_date", "2026-02-30"));
    assert_eq!(validate_iso_date("target_date", "2026-13-01"), invalid_date("target_date", "2026-13-01"));
    assert_eq!(validate_iso_date("target_date", "2026-04-31"), invalid_date("target_date", "2026-04-31"));
    assert_eq!(validate_iso_date("start_date", "0000-01-01"), invalid_date("start_date", "0000-01-01"));
    assert_eq!(validate_iso_date("start_date", "2026-00-10"), invalid_date("start_date", "2026-00-10"));
    assert_eq!(validate_iso_date("start_date", "2026-01-00"), invalid_date("start_date", "2026-01-00"));
}

#[test]
fn refuses_dates_of_the_wrong_shape() {
    assert_eq!(validate_iso_date("start_date", "2026-1-01"), invalid_date("start_date", "2026-1-01"));
    assert_eq!(validate_iso_date("start_date", "2026/01/01"), invalid_date("start_date", "2026/01/01"));
    assert_eq!(validate_iso_date("start_date", "2026-01-0a"), invalid_date("start_date", "2026-01-0a"));
    assert_eq!(validate_iso_date("start_date", "２026-01-01"), invalid_date("start_date", "２026-01-01"));
}

#[test]
fn accepts_only_canonical_uuids() {
    assert_eq!(validate_uuid("550e8400-e29b-41d4-a716-446655440000"), Ok(()));
    assert_eq!(validate_uuid("550E8400-E29B-41D4-A716-446655440000"), Ok(()));
    assert_eq!(
        validate_uuid("550e8400e29b41d4a716446655440000"),
        Err(ProjectError::InvalidId("550e8400e29b41d4a716446655440000".to_owned()))
    );
    assert_eq!(
        validate_uuid("550e8400-e29b-41d4-a716-44665544000g"),
        Err(ProjectError::InvalidId("550e8400-e29b-41d4-a716-44665544000g".to_owned()))
    );
}

//! The `Project` aggregate: its lifecycle, its validation rules and the
//! mathematical model that its operations are specified against.

use std::str::FromStr;
use vstd::prelude::*;

use crate::text::{
    clone_opt, decimal, decimal_text, join3, join5, lemma_trim_idempotent, lex_less, opt_as_str,
    opt_str_view, opt_view, owned_text, text_equals, text_less, trim, trimmed,
};

verus! {

pub const DEFAULT_PROJECT_PRIORITY: u8 = 3;

pub const MIN_PROJECT_PRIORITY: u8 = 1;

pub const MAX_PROJECT_PRIORITY: u8 = 5;

/// Lifecycle status of a project.
#[derive(Debug, Clone, Copy, PartialEq, Eq, Hash, Structural)]
pub enum ProjectStatus {
    Active,
    Paused,
    Completed,
    Archived,
    Cancelled,
}

/// The persisted text of a status.
pub open spec fn status_text(status: ProjectStatus) -> Seq<char> {
    match status {
        ProjectStatus::Active => "active"@,
        ProjectStatus::Paused => "paused"@,
        ProjectStatus::Completed => "completed"@,
        ProjectStatus::Archived => "archived"@,
        ProjectStatus::Cancelled => "cancelled"@,
    }
}

/// The status whose persisted text is `value`, if any.
pub open spec fn parse_status(value: Seq<char>) -> Option<ProjectStatus> {
    if value == "active"@ {
        Some(ProjectStatus::Active)
    } else if value == "paused"@ {
        Some(ProjectStatus::Paused)
    } else if value == "completed"@ {
        Some(ProjectStatus::Completed)
    } else if value == "archived"@ {
        Some(ProjectStatus::Archived)
    } else if value == "cancelled"@ {
        Some(ProjectStatus::Cancelled)
    } else {
        None
    }
}

impl ProjectStatus {
    /// The persisted text of this status.
    pub fn as_str(self) -> (r: &'static str)
        ensures
            r@ == status_text(self),
    {
        match self {
            ProjectStatus::Active => "active",
            ProjectStatus::Paused => "paused",
            ProjectStatus::Completed => "completed",
            ProjectStatus::Archived => "archived",
            ProjectStatus::Cancelled => "cancelled",
        }
    }

    /// The display text of this status, the same as its persisted text.
    pub fn to_string(self) -> (r: String)
        ensures
            r@ == status_text(self),
    {
        owned_text(self.as_str())
    }

    /// Parses a persisted status text.
    pub fn from_text(value: &str) -> (r: Result<ProjectStatus, ProjectError>)
        ensures
            match parse_status(value@) {
                Some(status) => r == Ok::<ProjectStatus, ProjectError>(status),
                None => r is Err && r->Err_0@ == ProjectErrorView::InvalidStatus(value@),
            },
    {
        if text_equals(value, "active") {
            Ok(ProjectStatus::Active)
        } else if text_equals(value, "paused") {
            Ok(ProjectStatus::Paused)
        } else if text_equals(value, "completed") {
            Ok(ProjectStatus::Completed)
        } else if text_equals(value, "archived") {
            Ok(ProjectStatus::Archived)
        } else if text_equals(value, "cancelled") {
            Ok(ProjectStatus::Cancelled)
        } else {
            Err(ProjectError::InvalidStatus(value.to_owned()))
        }
    }
}

impl FromStr for ProjectStatus {
    type Err = ProjectError;

    fn from_str(value: &str) -> (r: Result<Self, Self::Err>)
        ensures
            match parse_status(value@) {
                Some(status) => r == Ok::<ProjectStatus, ProjectError>(status),
                None => r is Err && r->Err_0@ == ProjectErrorView::InvalidStatus(value@),
            },
    {
        ProjectStatus::from_text(value)
    }
}

/// Kind of project, which decides nothing in the domain but is persisted.
#[derive(Debug, Clone, Copy, PartialEq, Eq, Hash, Structural)]
pub enum ProjectType {
    Custom,
    Learning,
    Certification,
    Reading,
    Software,
    Fitness,
    Administrative,
}

/// The persisted text of a project type.
pub open spec fn type_text(project_type: ProjectType) -> Seq<char> {
    match project_type {
        ProjectType::Custom => "custom"@,
        ProjectType::Learning => "learning"@,
        ProjectType::Certification => "certification"@,
        ProjectType::Reading => "reading"@,
        ProjectType::Software => "software"@,
        ProjectType::Fitness => "fitness"@,
        ProjectType::Administrative => "administrative"@,
    }
}

/// The project type whose persisted text is `value`, if any.
pub open spec fn parse_type(value: Seq<char>) -> Option<ProjectType> {
    if value == "custom"@ {
        Some(ProjectType::Custom)
    } else if value == "learning"@ {
        Some(ProjectType::Learning)
    } else if value == "certification"@ {
        Some(ProjectType::Certification)
    } else if value == "reading"@ {
        Some(ProjectType::Reading)
    } else if value == "software"@ {
        Some(ProjectType::Software)
    } else if value == "fitness"@ {
        Some(ProjectType::Fitness)
    } else if value == "administrative"@ {
        Some(ProjectType::Administrative)
    } else {
        None
    }
}

impl ProjectType {
    /// The persisted text of this project type.
    pub fn as_str(self) -> (r: &'static str)
        ensures
            r@ == type_text(self),
    {
        match self {
            ProjectType::Custom => "custom",
            ProjectType::Learning => "learning",
            ProjectType::Certification => "certification",
            ProjectType::Reading => "reading",
            ProjectType::Software => "software",
            ProjectType::Fitness => "fitness",
            ProjectType::Administrative => "administrative",
        }
    }

    /// The display text of this project type, the same as its persisted text.
    pub fn to_string(self) -> (r: String)
        ensures
            r@ == type_text(self),
    {
        owned_text(self.as_str())
    }

    /// Parses a persisted project type text.
    pub fn from_text(value: &str) -> (r: Result<ProjectType, ProjectError>)
        ensures
            match parse_type(value@) {
                Some(t) => r == Ok::<ProjectType, ProjectError>(t),
                None => r is Err && r->Err_0@ == ProjectErrorView::InvalidType(value@),
            },
    {
        if text_equals(value, "custom") {
            Ok(ProjectType::Custom)
        } else if text_equals(value, "learning") {
            Ok(ProjectType::Learning)
        } else if text_equals(value, "certification") {
            Ok(ProjectType::Certification)
        } else if text_equals(value, "reading") {
            Ok(ProjectType::Reading)
        } else if text_equals(value, "software") {
            Ok(ProjectType::Software)
        } else if text_equals(value, "fitness") {
            Ok(ProjectType::Fitness)
        } else if text_equals(value, "administrative") {
            Ok(ProjectType::Administrative)
        } else {
            Err(ProjectError::InvalidType(value.to_owned()))
        }
    }
}

impl FromStr for ProjectType {
    type Err = ProjectError;

    fn from_str(value: &str) -> (r: Result<Self, Self::Err>)
        ensures
            match parse_type(value@) {
                Some(t) => r == Ok::<ProjectType, ProjectError>(t),
                None => r is Err && r->Err_0@ == ProjectErrorView::InvalidType(value@),
            },
    {
        ProjectType::from_text(value)
    }
}

/// Why a project operation was refused.
#[derive(Debug, Clone, PartialEq, Eq)]
pub enum ProjectError {
    RequiredField(&'static str),
    InvalidId(String),
    InvalidPriority(u8),
    InvalidDate { field: &'static str, value: String },
    InvalidDateRange { start_date: String, target_date: String },
    InvalidStatus(String),
    InvalidType(String),
    InvalidTransition { from: ProjectStatus, to: ProjectStatus },
    AlreadyInStatus(ProjectStatus),
    ArchivedAtRequired,
    ArchivedAtNotAllowed(ProjectStatus),
    ProjectDeleted,
}

/// The mathematical model of a `ProjectError`, with texts as sequences.
pub enum ProjectErrorView {
    RequiredField(Seq<char>),
    InvalidId(Seq<char>),
    InvalidPriority(u8),
    InvalidDate { field: Seq<char>, value: Seq<char> },
    InvalidDateRange { start_date: Seq<char>, target_date: Seq<char> },
    InvalidStatus(Seq<char>),
    InvalidType(Seq<char>),
    InvalidTransition { from: ProjectStatus, to: ProjectStatus },
    AlreadyInStatus(ProjectStatus),
    ArchivedAtRequired,
    ArchivedAtNotAllowed(ProjectStatus),
    ProjectDeleted,
}

impl View for ProjectError {
    type V = ProjectErrorView;

    open spec fn view(&self) -> ProjectErrorView {
        match self {
            ProjectError::RequiredField(field) => ProjectErrorView::RequiredField(field@),
            ProjectError::InvalidId(id) => ProjectErrorView::InvalidId(id@),
            ProjectError::InvalidPriority(p) => ProjectErrorView::InvalidPriority(*p),
            ProjectError::InvalidDate { field, value } => ProjectErrorView::InvalidDate {
                field: field@,
                value: value@,
            },
            ProjectError::InvalidDateRange { start_date, target_date } =>
                ProjectErrorView::InvalidDateRange {
                    start_date: start_date@,
                    target_date: target_date@,
                },
            ProjectError::InvalidStatus(s) => ProjectErrorView::InvalidStatus(s@),
            ProjectError::InvalidType(t) => ProjectErrorView::InvalidType(t@),
            ProjectError::InvalidTransition { from, to } => ProjectErrorView::InvalidTransition {
                from: *from,
                to: *to,
            },
            ProjectError::AlreadyInStatus(s) => ProjectErrorView::AlreadyInStatus(*s),
            ProjectError::ArchivedAtRequired => ProjectErrorView::ArchivedAtRequired,
            ProjectError::ArchivedAtNotAllowed(s) => ProjectErrorView::ArchivedAtNotAllowed(*s),
            ProjectError::ProjectDeleted => ProjectErrorView::ProjectDeleted,
        }
    }
}

/// The human-readable message of a project error.
pub open spec fn project_error_message(e: ProjectErrorView) -> Seq<char> {
    match e {
        ProjectErrorView::RequiredField(field) => "field `"@ + field + "` is required"@,
        ProjectErrorView::InvalidId(id) => "`"@ + id + "` is not a canonical UUID"@,
        ProjectErrorView::InvalidPriority(p) => "priority must be between "@ + decimal(
            MIN_PROJECT_PRIORITY as nat,
        ) + " and "@ + decimal(MAX_PROJECT_PRIORITY as nat) + "; received "@ + decimal(p as nat),
        ProjectErrorView::InvalidDate { field, value } => "field `"@ + field
            + "` must use YYYY-MM-DD; received `"@ + value + "`"@,
        ProjectErrorView::InvalidDateRange { start_date, target_date } => "target date `"@
            + target_date + "` cannot be earlier than start date `"@ + start_date + "`"@,
        ProjectErrorView::InvalidStatus(s) => "unknown project status `"@ + s + "`"@,
        ProjectErrorView::InvalidType(t) => "unknown project type `"@ + t + "`"@,
        ProjectErrorView::InvalidTransition { from, to } => "cannot transition project from `"@
            + status_text(from) + "` to `"@ + status_text(to) + "`"@,
        ProjectErrorView::AlreadyInStatus(s) => "project is already in status `"@ + status_text(s)
            + "`"@,
        ProjectErrorView::ArchivedAtRequired => "an archived project requires `archived_at`"@,
        ProjectErrorView::ArchivedAtNotAllowed(s) =>
            "`archived_at` is not allowed when project status is `"@ + status_text(s) + "`"@,
        ProjectErrorView::ProjectDeleted => "a deleted project cannot be changed"@,
    }
}

impl ProjectError {
    /// The human-readable message of this error.
    pub fn to_string(&self) -> (r: String)
        ensures
            r@ == project_error_message(self@),
    {
        match self {
            ProjectError::RequiredField(field) => join3("field `", field, "` is required"),
            ProjectError::InvalidId(id) => join3("`", id.as_str(), "` is not a canonical UUID"),
            ProjectError::InvalidPriority(p) => {
                let min = decimal_text(MIN_PROJECT_PRIORITY);
                let max = decimal_text(MAX_PROJECT_PRIORITY);
                let received = decimal_text(*p);
                let mut r = join5(
                    "priority must be between ",
                    min.as_str(),
                    " and ",
                    max.as_str(),
                    "; received ",
                );
                r.append(received.as_str());
                r
            },
            ProjectError::InvalidDate { field, value } => join5(
                "field `",
                field,
                "` must use YYYY-MM-DD; received `",
                value.as_str(),
                "`",
            ),
            ProjectError::InvalidDateRange { start_date, target_date } => join5(
                "target date `",
                target_date.as_str(),
                "` cannot be earlier than start date `",
                start_date.as_str(),
                "`",
            ),
            ProjectError::InvalidStatus(s) => join3("unknown project status `", s.as_str(), "`"),
            ProjectError::InvalidType(t) => join3("unknown project type `", t.as_str(), "`"),
            ProjectError::InvalidTransition { from, to } => join5(
                "cannot transition project from `",
                from.as_str(),
                "` to `",
                to.as_str(),
                "`",
            ),
            ProjectError::AlreadyInStatus(s) => join3(
                "project is already in status `",
                s.as_str(),
                "`",
            ),
            ProjectError::ArchivedAtRequired => owned_text(
                "an archived project requires `archived_at`",
            ),
            ProjectError::ArchivedAtNotAllowed(s) => join3(
                "`archived_at` is not allowed when project status is `",
                s.as_str(),
                "`",
            ),
            ProjectError::ProjectDeleted => owned_text("a deleted project cannot be changed"),
        }
    }
}


/// A validation step whose success carries no value, as its model.
pub open spec fn unit_outcome(r: Result<(), ProjectError>) -> Result<(), ProjectErrorView> {
    match r {
        Ok(()) => Ok(()),
        Err(e) => Err(e@),
    }
}

/// A normalisation step that yields a text, as its model.
pub open spec fn text_outcome(r: Result<String, ProjectError>) -> Result<Seq<char>, ProjectErrorView> {
    match r {
        Ok(t) => Ok(t@),
        Err(e) => Err(e@),
    }
}

/// A required text: trimmed, and refused when nothing is left.
pub open spec fn required_text_outcome(field: Seq<char>, value: Seq<char>) -> Result<
    Seq<char>,
    ProjectErrorView,
> {
    if trim(value).len() == 0 {
        Err(ProjectErrorView::RequiredField(field))
    } else {
        Ok(trim(value))
    }
}

/// An optional text: trimmed, and absent when nothing is left.
pub open spec fn optional_text_outcome(value: Option<Seq<char>>) -> Option<Seq<char>> {
    match value {
        Some(v) => if trim(v).len() == 0 {
            None
        } else {
            Some(trim(v))
        },
        None => None,
    }
}

/// Whether a priority lies in the accepted range.
pub open spec fn priority_in_range(priority: u8) -> bool {
    MIN_PROJECT_PRIORITY <= priority <= MAX_PROJECT_PRIORITY
}

pub open spec fn is_ascii_digit(c: char) -> bool {
    48 <= (c as u32) <= 57
}

pub open spec fn is_ascii_hex_digit(c: char) -> bool {
    ||| is_ascii_digit(c)
    ||| 65 <= (c as u32) <= 70
    ||| 97 <= (c as u32) <= 102
}

/// The value of a decimal digit character.
pub open spec fn digit_value(c: char) -> int {
    (c as u32) - 48
}

/// Gregorian leap years.
pub open spec fn is_leap_year_spec(year: int) -> bool {
    year % 4 == 0 && (year % 100 != 0 || year % 400 == 0)
}

/// The number of days of a month; zero for a number that names no month.
pub open spec fn days_in_month(year: int, month: int) -> int {
    if month == 1 || month == 3 || month == 5 || month == 7 || month == 8 || month == 10 || month
        == 12 {
        31
    } else if month == 4 || month == 6 || month == 9 || month == 11 {
        30
    } else if month == 2 {
        if is_leap_year_spec(year) {
            29
        } else {
            28
        }
    } else {
        0
    }
}

/// `YYYY-MM-DD` made of ASCII digits and two dashes.
pub open spec fn has_date_shape(s: Seq<char>) -> bool {
    &&& s.len() == 10
    &&& s[4] == '-'
    &&& s[7] == '-'
    &&& forall|i: int| 0 <= i < 10 && i != 4 && i != 7 ==> is_ascii_digit(#[trigger] s[i])
}

pub open spec fn date_year(s: Seq<char>) -> int {
    1000 * digit_value(s[0]) + 100 * digit_value(s[1]) + 10 * digit_value(s[2]) + digit_value(s[3])
}

pub open spec fn date_month(s: Seq<char>) -> int {
    10 * digit_value(s[5]) + digit_value(s[6])
}

pub open spec fn date_day(s: Seq<char>) -> int {
    10 * digit_value(s[8]) + digit_value(s[9])
}

/// A calendar date written `YYYY-MM-DD`, with a year from 1.
pub open spec fn is_iso_date(s: Seq<char>) -> bool {
    &&& has_date_shape(s)
    &&& date_year(s) != 0
    &&& 1 <= date_day(s) <= days_in_month(date_year(s), date_month(s))
}

/// A canonical textual UUID: 36 characters, dashes at 8, 13, 18 and 23,
/// hexadecimal digits elsewhere.
pub open spec fn is_canonical_uuid(s: Seq<char>) -> bool {
    &&& s.len() == 36
    &&& forall|i: int|
        0 <= i < 36 ==> if i == 8 || i == 13 || i == 18 || i == 23 {
            #[trigger] s[i] == '-'
        } else {
            is_ascii_hex_digit(s[i])
        }
}

/// Validation of a pair of optional dates: each must be a calendar date, and
/// the target date may not precede the start date.
pub open spec fn date_range_outcome(start_date: Option<Seq<char>>, target_date: Option<Seq<char>>) -> Result<
    (),
    ProjectErrorView,
> {
    if start_date is Some && !is_iso_date(start_date->0) {
        Err(ProjectErrorView::InvalidDate { field: "start_date"@, value: start_date->0 })
    } else if target_date is Some && !is_iso_date(target_date->0) {
        Err(ProjectErrorView::InvalidDate { field: "target_date"@, value: target_date->0 })
    } else if start_date is Some && target_date is Some && lex_less(
        target_date->0,
        start_date->0,
    ) {
        Err(
            ProjectErrorView::InvalidDateRange {
                start_date: start_date->0,
                target_date: target_date->0,
            },
        )
    } else {
        Ok(())
    }
}

fn required_text(field: &'static str, value: String) -> (r: Result<String, ProjectError>)
    ensures
        text_outcome(r) == required_text_outcome(field@, value@),
{
    let normalized = trimmed(value.as_str());
    if normalized.as_str().is_empty() {
        Err(ProjectError::RequiredField(field))
    } else {
        Ok(normalized)
    }
}

fn optional_text(value: Option<String>) -> (r: Option<String>)
    ensures
        opt_view(r) == optional_text_outcome(opt_view(value)),
{
    match value {
        Some(v) => {
            let normalized = trimmed(v.as_str());
            if normalized.as_str().is_empty() {
                None
            } else {
                Some(normalized)
            }
        },
        None => None,
    }
}

fn validate_priority(priority: u8) -> (r: Result<(), ProjectError>)
    ensures
        unit_outcome(r) == if priority_in_range(priority) {
            Ok(())
        } else {
            Err(ProjectErrorView::InvalidPriority(priority))
        },
{
    if MIN_PROJECT_PRIORITY <= priority && priority <= MAX_PROJECT_PRIORITY {
        Ok(())
    } else {
        Err(ProjectError::InvalidPriority(priority))
    }
}

fn is_digit_char(c: char) -> (r: bool)
    ensures
        r == is_ascii_digit(c),
{
    let v = c as u32;
    48 <= v && v <= 57
}

fn is_hex_digit_char(c: char) -> (r: bool)
    ensures
        r == is_ascii_hex_digit(c),
{
    let v = c as u32;
    (48 <= v && v <= 57) || (65 <= v && v <= 70) || (97 <= v && v <= 102)
}

fn is_leap_year(year: u16) -> (r: bool)
    ensures
        r == is_leap_year_spec(year as int),
{
    year % 4 == 0 && (year % 100 != 0 || year % 400 == 0)
}

fn digit_at(value: &str, i: usize) -> (r: u16)
    requires
        i < value@.len(),
        is_ascii_digit(value@[i as int]),
    ensures
        r as int == digit_value(value@[i as int]),
        r < 10,
{
    let c = value.get_char(i);
    (c as u32 - 48) as u16
}

/// Accepts a calendar date written `YYYY-MM-DD` with a year from 1 and
/// Gregorian leap years; refuses anything else as an invalid `field`.
pub fn validate_iso_date(field: &'static str, value: &str) -> (r: Result<(), ProjectError>)
    ensures
        unit_outcome(r) == if is_iso_date(value@) {
            Ok(())
        } else {
            Err(ProjectErrorView::InvalidDate { field: field@, value: value@ })
        },
{
    let n = value.unicode_len();
    if n != 10 {
        return Err(ProjectError::InvalidDate { field, value: value.to_owned() });
    }
    let mut i: usize = 0;
    while i < 10
        invariant
            i <= 10,
            n == value@.len(),
            n == 10,
            forall|k: int|
                0 <= k < i ==> if k == 4 || k == 7 {
                    value@[k] == '-'
                } else {
                    is_ascii_digit(value@[k])
                },
        decreases 10 - i,
    {
        let c = value.get_char(i);
        if i == 4 || i == 7 {
            if c != '-' {
                return Err(ProjectError::InvalidDate { field, value: value.to_owned() });
            }
        } else if !is_digit_char(c) {
            return Err(ProjectError::InvalidDate { field, value: value.to_owned() });
        }
        i = i + 1;
    }
    assert(has_date_shape(value@));
    let year: u16 = digit_at(value, 0) * 1000 + digit_at(value, 1) * 100 + digit_at(value, 2) * 10
        + digit_at(value, 3);
    let month: u16 = digit_at(value, 5) * 10 + digit_at(value, 6);
    let day: u16 = digit_at(value, 8) * 10 + digit_at(value, 9);
    let max_day: u16 = if month == 1 || month == 3 || month == 5 || month == 7 || month == 8
        || month == 10 || month == 12 {
        31
    } else if month == 4 || month == 6 || month == 9 || month == 11 {
        30
    } else if month == 2 {
        if is_leap_year(year) {
            29
        } else {
            28
        }
    } else {
        0
    };
    if year == 0 || day == 0 || day > max_day {
        return Err(ProjectError::InvalidDate { field, value: value.to_owned() });
    }
    Ok(())
}

/// Accepts a canonical textual UUID.
pub fn validate_uuid(value: &str) -> (r: Result<(), ProjectError>)
    ensures
        unit_outcome(r) == if is_canonical_uuid(value@) {
            Ok(())
        } else {
            Err(ProjectErrorView::InvalidId(value@))
        },
{
    let n = value.unicode_len();
    if n != 36 {
        return Err(ProjectError::InvalidId(value.to_owned()));
    }
    let mut i: usize = 0;
    while i < 36
        invariant
            i <= 36,
            n == value@.len(),
            n == 36,
            forall|k: int|
                0 <= k < i ==> if k == 8 || k == 13 || k == 18 || k == 23 {
                    value@[k] == '-'
                } else {
                    is_ascii_hex_digit(value@[k])
                },
        decreases 36 - i,
    {
        let c = value.get_char(i);
        if i == 8 || i == 13 || i == 18 || i == 23 {
            if c != '-' {
                return Err(ProjectError::InvalidId(value.to_owned()));
            }
        } else if !is_hex_digit_char(c) {
            return Err(ProjectError::InvalidId(value.to_owned()));
        }
        i = i + 1;
    }
    Ok(())
}

fn validate_date_range(start_date: Option<&str>, target_date: Option<&str>) -> (r: Result<
    (),
    ProjectError,
>)
    ensures
        unit_outcome(r) == date_range_outcome(opt_str_view(start_date), opt_str_view(target_date)),
{
    if let Some(start) = start_date {
        validate_iso_date("start_date", start)?;
    }
    if let Some(target) = target_date {
        validate_iso_date("target_date", target)?;
    }
    if let (Some(start), Some(target)) = (start_date, target_date) {
        if text_less(target, start) {
            return Err(
                ProjectError::InvalidDateRange {
                    start_date: start.to_owned(),
                    target_date: target.to_owned(),
                },
            );
        }
    }
    Ok(())
}


/// A text with no surrounding white space and something left.
pub open spec fn is_normalized(s: Seq<char>) -> bool {
    s.len() > 0 && trim(s) == s
}

/// An absent text, or a normalised one.
pub open spec fn is_normalized_opt(o: Option<Seq<char>>) -> bool {
    match o {
        Some(s) => is_normalized(s),
        None => true,
    }
}

proof fn lemma_required_normalized(value: Seq<char>)
    requires
        trim(value).len() > 0,
    ensures
        is_normalized(trim(value)),
{
    lemma_trim_idempotent(value);
}

proof fn lemma_optional_normalized(value: Option<Seq<char>>)
    ensures
        is_normalized_opt(optional_text_outcome(value)),
{
    if let Some(v) = value {
        lemma_trim_idempotent(v);
    }
}

/// The mathematical model of a project: every field, texts as sequences.
#[verifier::ext_equal]
pub struct ProjectView {
    pub id: Seq<char>,
    pub name: Seq<char>,
    pub description: Option<Seq<char>>,
    pub project_type: ProjectType,
    pub status: ProjectStatus,
    pub start_date: Option<Seq<char>>,
    pub target_date: Option<Seq<char>>,
    pub priority: u8,
    pub color: Option<Seq<char>>,
    pub icon: Option<Seq<char>>,
    pub objective: Option<Seq<char>>,
    pub settings_json: Seq<char>,
    pub created_at: Seq<char>,
    pub updated_at: Seq<char>,
    pub archived_at: Option<Seq<char>>,
    pub deleted_at: Option<Seq<char>>,
}

/// The business invariants that every project satisfies.
pub open spec fn is_well_formed(p: ProjectView) -> bool {
    &&& is_canonical_uuid(p.id)
    &&& is_normalized(p.name)
    &&& is_normalized_opt(p.description)
    &&& is_normalized_opt(p.start_date)
    &&& is_normalized_opt(p.target_date)
    &&& date_range_outcome(p.start_date, p.target_date) is Ok
    &&& priority_in_range(p.priority)
    &&& is_normalized_opt(p.color)
    &&& is_normalized_opt(p.icon)
    &&& is_normalized_opt(p.objective)
    &&& is_normalized(p.settings_json)
    &&& is_normalized(p.created_at)
    &&& is_normalized(p.updated_at)
    &&& is_normalized_opt(p.archived_at)
    &&& is_normalized_opt(p.deleted_at)
    &&& (p.status == ProjectStatus::Archived <==> p.archived_at is Some)
}

/// The data needed to create a project.
#[derive(Debug, Clone, PartialEq, Eq)]
pub struct NewProject {
    pub id: String,
    pub name: String,
    pub description: Option<String>,
    pub project_type: ProjectType,
    pub start_date: Option<String>,
    pub target_date: Option<String>,
    pub priority: u8,
    pub color: Option<String>,
    pub icon: Option<String>,
    pub objective: Option<String>,
    pub settings_json: String,
    pub created_at: String,
}

impl NewProject {
    /// Creation data with defaults for everything but the identity, name,
    /// type and creation time.
    pub fn minimal(id: &str, name: &str, project_type: ProjectType, created_at: &str) -> (r:
        NewProject)
        ensures
            r.id@ == id@,
            r.name@ == name@,
            r.description is None,
            r.project_type == project_type,
            r.start_date is None,
            r.target_date is None,
            r.priority == DEFAULT_PROJECT_PRIORITY,
            r.color is None,
            r.icon is None,
            r.objective is None,
            r.settings_json@ == "{}"@,
            r.created_at@ == created_at@,
    {
        NewProject {
            id: owned_text(id),
            name: owned_text(name),
            description: None,
            project_type,
            start_date: None,
            target_date: None,
            priority: DEFAULT_PROJECT_PRIORITY,
            color: None,
            icon: None,
            objective: None,
            settings_json: owned_text("{}"),
            created_at: owned_text(created_at),
        }
    }
}

/// The model of the data needed to create a project.
pub struct NewProjectView {
    pub id: Seq<char>,
    pub name: Seq<char>,
    pub description: Option<Seq<char>>,
    pub project_type: ProjectType,
    pub start_date: Option<Seq<char>>,
    pub target_date: Option<Seq<char>>,
    pub priority: u8,
    pub color: Option<Seq<char>>,
    pub icon: Option<Seq<char>>,
    pub objective: Option<Seq<char>>,
    pub settings_json: Seq<char>,
    pub created_at: Seq<char>,
}

impl View for NewProject {
    type V = NewProjectView;

    open spec fn view(&self) -> NewProjectView {
        NewProjectView {
            id: self.id@,
            name: self.name@,
            description: opt_view(self.description),
            project_type: self.project_type,
            start_date: opt_view(self.start_date),
            target_date: opt_view(self.target_date),
            priority: self.priority,
            color: opt_view(self.color),
            icon: opt_view(self.icon),
            objective: opt_view(self.objective),
            settings_json: self.settings_json@,
            created_at: self.created_at@,
        }
    }
}

/// What `Project::create` gives for `input`.
pub open spec fn create_outcome(input: NewProjectView) -> Result<ProjectView, ProjectErrorView> {
    let start_date = optional_text_outcome(input.start_date);
    let target_date = optional_text_outcome(input.target_date);
    if !is_canonical_uuid(input.id) {
        Err(ProjectErrorView::InvalidId(input.id))
    } else if trim(input.name).len() == 0 {
        Err(ProjectErrorView::RequiredField("name"@))
    } else if !priority_in_range(input.priority) {
        Err(ProjectErrorView::InvalidPriority(input.priority))
    } else if date_range_outcome(start_date, target_date) is Err {
        Err(date_range_outcome(start_date, target_date)->Err_0)
    } else if trim(input.created_at).len() == 0 {
        Err(ProjectErrorView::RequiredField("created_at"@))
    } else if trim(input.settings_json).len() == 0 {
        Err(ProjectErrorView::RequiredField("settings_json"@))
    } else {
        Ok(
            ProjectView {
                id: input.id,
                name: trim(input.name),
                description: optional_text_outcome(input.description),
                project_type: input.project_type,
                status: ProjectStatus::Active,
                start_date,
                target_date,
                priority: input.priority,
                color: optional_text_outcome(input.color),
                icon: optional_text_outcome(input.icon),
                objective: optional_text_outcome(input.objective),
                settings_json: trim(input.settings_json),
                created_at: trim(input.created_at),
                updated_at: trim(input.created_at),
                archived_at: None,
                deleted_at: None,
            },
        )
    }
}

/// What `Project::reconstitute` gives for the stored fields `f`.
pub open spec fn reconstitute_outcome(f: ProjectView) -> Result<ProjectView, ProjectErrorView> {
    let start_date = optional_text_outcome(f.start_date);
    let target_date = optional_text_outcome(f.target_date);
    let archived_at = optional_text_outcome(f.archived_at);
    if !is_canonical_uuid(f.id) {
        Err(ProjectErrorView::InvalidId(f.id))
    } else if trim(f.name).len() == 0 {
        Err(ProjectErrorView::RequiredField("name"@))
    } else if !priority_in_range(f.priority) {
        Err(ProjectErrorView::InvalidPriority(f.priority))
    } else if date_range_outcome(start_date, target_date) is Err {
        Err(date_range_outcome(start_date, target_date)->Err_0)
    } else if trim(f.created_at).len() == 0 {
        Err(ProjectErrorView::RequiredField("created_at"@))
    } else if trim(f.updated_at).len() == 0 {
        Err(ProjectErrorView::RequiredField("updated_at"@))
    } else if trim(f.settings_json).len() == 0 {
        Err(ProjectErrorView::RequiredField("settings_json"@))
    } else if f.status == ProjectStatus::Archived && archived_at is None {
        Err(ProjectErrorView::ArchivedAtRequired)
    } else if f.status != ProjectStatus::Archived && archived_at is Some {
        Err(ProjectErrorView::ArchivedAtNotAllowed(f.status))
    } else {
        Ok(
            ProjectView {
                id: f.id,
                name: trim(f.name),
                description: optional_text_outcome(f.description),
                project_type: f.project_type,
                status: f.status,
                start_date,
                target_date,
                priority: f.priority,
                color: optional_text_outcome(f.color),
                icon: optional_text_outcome(f.icon),
                objective: optional_text_outcome(f.objective),
                settings_json: trim(f.settings_json),
                created_at: trim(f.created_at),
                updated_at: trim(f.updated_at),
                archived_at,
                deleted_at: optional_text_outcome(f.deleted_at),
            },
        )
    }
}

/// A partial update of a project's data. `None` leaves a field unchanged;
/// for optional fields `Some(None)` clears the field.
#[derive(Debug, Clone, Default, PartialEq, Eq)]
pub struct ProjectChanges {
    pub name: Option<String>,
    pub description: Option<Option<String>>,
    pub project_type: Option<ProjectType>,
    pub start_date: Option<Option<String>>,
    pub target_date: Option<Option<String>>,
    pub priority: Option<u8>,
    pub color: Option<Option<String>>,
    pub icon: Option<Option<String>>,
    pub objective: Option<Option<String>>,
    pub settings_json: Option<String>,
}

/// The next value of an optional field under a change.
pub open spec fn changed_optional(change: Option<Option<String>>, current: Option<Seq<char>>) -> Option<
    Seq<char>,
> {
    match change {
        Some(value) => optional_text_outcome(opt_view(value)),
        None => current,
    }
}

/// The project data after `changes`, before it is validated.
pub open spec fn changed_project(p: ProjectView, changes: ProjectChanges, updated_at: Seq<char>) -> ProjectView {
    ProjectView {
        name: match changes.name {
            Some(n) => trim(n@),
            None => p.name,
        },
        description: changed_optional(changes.description, p.description),
        project_type: match changes.project_type {
            Some(t) => t,
            None => p.project_type,
        },
        start_date: changed_optional(changes.start_date, p.start_date),
        target_date: changed_optional(changes.target_date, p.target_date),
        priority: match changes.priority {
            Some(v) => v,
            None => p.priority,
        },
        color: changed_optional(changes.color, p.color),
        icon: changed_optional(changes.icon, p.icon),
        objective: changed_optional(changes.objective, p.objective),
        settings_json: match changes.settings_json {
            Some(v) => trim(v@),
            None => p.settings_json,
        },
        updated_at: trim(updated_at),
        ..p
    }
}

/// What `Project::update` gives: all changes applied together, or a refusal.
pub open spec fn update_outcome(p: ProjectView, changes: ProjectChanges, updated_at: Seq<char>) -> Result<
    ProjectView,
    ProjectErrorView,
> {
    let next = changed_project(p, changes, updated_at);
    if p.deleted_at is Some {
        Err(ProjectErrorView::ProjectDeleted)
    } else if trim(updated_at).len() == 0 {
        Err(ProjectErrorView::RequiredField("updated_at"@))
    } else if changes.name is Some && trim(changes.name->0@).len() == 0 {
        Err(ProjectErrorView::RequiredField("name"@))
    } else if changes.settings_json is Some && trim(changes.settings_json->0@).len() == 0 {
        Err(ProjectErrorView::RequiredField("settings_json"@))
    } else if !priority_in_range(next.priority) {
        Err(ProjectErrorView::InvalidPriority(next.priority))
    } else if date_range_outcome(next.start_date, next.target_date) is Err {
        Err(date_range_outcome(next.start_date, next.target_date)->Err_0)
    } else {
        Ok(next)
    }
}

/// What a lifecycle transition to `target`, allowed from `allowed`, gives.
pub open spec fn transition_outcome(
    p: ProjectView,
    target: ProjectStatus,
    allowed: Seq<ProjectStatus>,
    changed_at: Seq<char>,
) -> Result<ProjectView, ProjectErrorView> {
    if p.deleted_at is Some {
        Err(ProjectErrorView::ProjectDeleted)
    } else if p.status == target {
        Err(ProjectErrorView::AlreadyInStatus(target))
    } else if !allowed.contains(p.status) {
        Err(ProjectErrorView::InvalidTransition { from: p.status, to: target })
    } else if trim(changed_at).len() == 0 {
        Err(ProjectErrorView::RequiredField("changed_at"@))
    } else {
        Ok(ProjectView { status: target, archived_at: None, updated_at: trim(changed_at), ..p })
    }
}

/// Pausing is allowed from `active`.
pub open spec fn pause_outcome(p: ProjectView, changed_at: Seq<char>) -> Result<ProjectView, ProjectErrorView> {
    transition_outcome(p, ProjectStatus::Paused, seq![ProjectStatus::Active], changed_at)
}

/// Resuming is allowed from `paused`.
pub open spec fn resume_outcome(p: ProjectView, changed_at: Seq<char>) -> Result<ProjectView, ProjectErrorView> {
    transition_outcome(p, ProjectStatus::Active, seq![ProjectStatus::Paused], changed_at)
}

/// Completing is allowed from `active` and `paused`.
pub open spec fn complete_outcome(p: ProjectView, changed_at: Seq<char>) -> Result<ProjectView, ProjectErrorView> {
    transition_outcome(
        p,
        ProjectStatus::Completed,
        seq![ProjectStatus::Active, ProjectStatus::Paused],
        changed_at,
    )
}

/// Cancelling is allowed from `active` and `paused`.
pub open spec fn cancel_outcome(p: ProjectView, changed_at: Seq<char>) -> Result<ProjectView, ProjectErrorView> {
    transition_outcome(
        p,
        ProjectStatus::Cancelled,
        seq![ProjectStatus::Active, ProjectStatus::Paused],
        changed_at,
    )
}

/// Archiving is allowed from every status but `archived`, and records when.
pub open spec fn archive_outcome(p: ProjectView, changed_at: Seq<char>) -> Result<ProjectView, ProjectErrorView> {
    if p.deleted_at is Some {
        Err(ProjectErrorView::ProjectDeleted)
    } else if p.status == ProjectStatus::Archived {
        Err(ProjectErrorView::AlreadyInStatus(ProjectStatus::Archived))
    } else if trim(changed_at).len() == 0 {
        Err(ProjectErrorView::RequiredField("changed_at"@))
    } else {
        Ok(
            ProjectView {
                status: ProjectStatus::Archived,
                archived_at: Some(trim(changed_at)),
                updated_at: trim(changed_at),
                ..p
            },
        )
    }
}

/// Restoring is allowed from `archived` only, and returns to `active`.
pub open spec fn restore_outcome(p: ProjectView, changed_at: Seq<char>) -> Result<ProjectView, ProjectErrorView> {
    if p.deleted_at is Some {
        Err(ProjectErrorView::ProjectDeleted)
    } else if p.status != ProjectStatus::Archived {
        Err(ProjectErrorView::InvalidTransition { from: p.status, to: ProjectStatus::Active })
    } else if trim(changed_at).len() == 0 {
        Err(ProjectErrorView::RequiredField("changed_at"@))
    } else {
        Ok(
            ProjectView {
                status: ProjectStatus::Active,
                archived_at: None,
                updated_at: trim(changed_at),
                ..p
            },
        )
    }
}

/// Soft deletion records when the project was deleted; it happens once.
pub open spec fn soft_delete_outcome(p: ProjectView, deleted_at: Seq<char>) -> Result<ProjectView, ProjectErrorView> {
    if p.deleted_at is Some {
        Err(ProjectErrorView::ProjectDeleted)
    } else if trim(deleted_at).len() == 0 {
        Err(ProjectErrorView::RequiredField("deleted_at"@))
    } else {
        Ok(ProjectView { deleted_at: Some(trim(deleted_at)), updated_at: trim(deleted_at), ..p })
    }
}

/// A mutation's effect on the project: the outcome's value on success, no
/// change on failure.
pub open spec fn mutation_applied(
    before: ProjectView,
    after: ProjectView,
    r: Result<(), ProjectError>,
    outcome: Result<ProjectView, ProjectErrorView>,
) -> bool {
    match outcome {
        Ok(v) => r is Ok && after == v,
        Err(e) => r is Err && r->Err_0@ == e && after == before,
    }
}

/// The outcome of a project operation, as its model.
pub open spec fn project_outcome(r: Result<Project, ProjectError>) -> Result<ProjectView, ProjectErrorView> {
    match r {
        Ok(p) => Ok(p@),
        Err(e) => Err(e@),
    }
}

/// A project: the central aggregate of the application.
#[derive(Debug, PartialEq, Eq)]
pub struct Project {
    id: String,
    name: String,
    description: Option<String>,
    project_type: ProjectType,
    status: ProjectStatus,
    start_date: Option<String>,
    target_date: Option<String>,
    priority: u8,
    color: Option<String>,
    icon: Option<String>,
    objective: Option<String>,
    settings_json: String,
    created_at: String,
    updated_at: String,
    archived_at: Option<String>,
    deleted_at: Option<String>,
}

impl View for Project {
    type V = ProjectView;

    closed spec fn view(&self) -> ProjectView {
        ProjectView {
            id: self.id@,
            name: self.name@,
            description: opt_view(self.description),
            project_type: self.project_type,
            status: self.status,
            start_date: opt_view(self.start_date),
            target_date: opt_view(self.target_date),
            priority: self.priority,
            color: opt_view(self.color),
            icon: opt_view(self.icon),
            objective: opt_view(self.objective),
            settings_json: self.settings_json@,
            created_at: self.created_at@,
            updated_at: self.updated_at@,
            archived_at: opt_view(self.archived_at),
            deleted_at: opt_view(self.deleted_at),
        }
    }
}

impl Project {
    #[verifier::type_invariant]
    closed spec fn well_formed(self) -> bool {
        is_well_formed(self@)
    }

    /// Every project value satisfies the business invariants; calling this
    /// brings that fact to a caller's proof.
    pub fn invariant_holds(&self)
        ensures
            is_well_formed(self@),
    {
        proof {
            use_type_invariant(self);
        }
    }

    /// Validates and normalises `input` into a new, active project.
    pub fn create(input: NewProject) -> (r: Result<Project, ProjectError>)
        ensures
            project_outcome(r) == create_outcome(input@),
            r is Ok ==> is_well_formed(r->Ok_0@),
    {
        let ghost given = input;
        validate_uuid(input.id.as_str())?;
        let name = required_text("name", input.name)?;
        validate_priority(input.priority)?;
        let start_date = optional_text(input.start_date);
        let target_date = optional_text(input.target_date);
        validate_date_range(opt_as_str(&start_date), opt_as_str(&target_date))?;
        let created_at = required_text("created_at", input.created_at)?;
        let settings_json = required_text("settings_json", input.settings_json)?;
        let description = optional_text(input.description);
        let color = optional_text(input.color);
        let icon = optional_text(input.icon);
        let objective = optional_text(input.objective);
        proof {
            lemma_required_normalized(given.name@);
            lemma_required_normalized(given.created_at@);
            lemma_required_normalized(given.settings_json@);
            lemma_optional_normalized(opt_view(given.description));
            lemma_optional_normalized(opt_view(given.start_date));
            lemma_optional_normalized(opt_view(given.target_date));
            lemma_optional_normalized(opt_view(given.color));
            lemma_optional_normalized(opt_view(given.icon));
            lemma_optional_normalized(opt_view(given.objective));
        }
        let updated_at = created_at.clone();
        Ok(
            Project {
                id: input.id,
                name,
                description,
                project_type: input.project_type,
                status: ProjectStatus::Active,
                start_date,
                target_date,
                priority: input.priority,
                color,
                icon,
                objective,
                settings_json,
                created_at,
                updated_at,
                archived_at: None,
                deleted_at: None,
            },
        )
    }

    /// Rebuilds a project from stored fields, validating them as creation
    /// does and checking that `archived_at` is present exactly for archived
    /// projects.
    pub fn reconstitute(
        id: String,
        name: String,
        description: Option<String>,
        project_type: ProjectType,
        status: ProjectStatus,
        start_date: Option<String>,
        target_date: Option<String>,
        priority: u8,
        color: Option<String>,
        icon: Option<String>,
        objective: Option<String>,
        settings_json: String,
        created_at: String,
        updated_at: String,
        archived_at: Option<String>,
        deleted_at: Option<String>,
    ) -> (r: Result<Project, ProjectError>)
        ensures
            project_outcome(r) == reconstitute_outcome(
                ProjectView {
                    id: id@,
                    name: name@,
                    description: opt_view(description),
                    project_type,
                    status,
                    start_date: opt_view(start_date),
                    target_date: opt_view(target_date),
                    priority,
                    color: opt_view(color),
                    icon: opt_view(icon),
                    objective: opt_view(objective),
                    settings_json: settings_json@,
                    created_at: created_at@,
                    updated_at: updated_at@,
                    archived_at: opt_view(archived_at),
                    deleted_at: opt_view(deleted_at),
                },
            ),
            r is Ok ==> is_well_formed(r->Ok_0@),
    {
        let ghost raw_name = name@;
        let ghost raw_created_at = created_at@;
        let ghost raw_updated_at = updated_at@;
        let ghost raw_settings_json = settings_json@;
        let ghost raw_description = opt_view(description);
        let ghost raw_start_date = opt_view(start_date);
        let ghost raw_target_date = opt_view(target_date);
        let ghost raw_color = opt_view(color);
        let ghost raw_icon = opt_view(icon);
        let ghost raw_objective = opt_view(objective);
        let ghost raw_archived_at = opt_view(archived_at);
        let ghost raw_deleted_at = opt_view(deleted_at);
        validate_uuid(id.as_str())?;
        let name = required_text("name", name)?;
        validate_priority(priority)?;
        let start_date = optional_text(start_date);
        let target_date = optional_text(target_date);
        validate_date_range(opt_as_str(&start_date), opt_as_str(&target_date))?;
        let created_at = required_text("created_at", created_at)?;
        let updated_at = required_text("updated_at", updated_at)?;
        let settings_json = required_text("settings_json", settings_json)?;
        let archived_at = optional_text(archived_at);
        let deleted_at = optional_text(deleted_at);
        if status == ProjectStatus::Archived && archived_at.is_none() {
            return Err(ProjectError::ArchivedAtRequired);
        }
        if status != ProjectStatus::Archived && archived_at.is_some() {
            return Err(ProjectError::ArchivedAtNotAllowed(status));
        }
        let description = optional_text(description);
        let color = optional_text(color);
        let icon = optional_text(icon);
        let objective = optional_text(objective);
        proof {
            lemma_required_normalized(raw_name);
            lemma_required_normalized(raw_created_at);
            lemma_required_normalized(raw_updated_at);
            lemma_required_normalized(raw_settings_json);
            lemma_optional_normalized(raw_description);
            lemma_optional_normalized(raw_start_date);
            lemma_optional_normalized(raw_target_date);
            lemma_optional_normalized(raw_color);
            lemma_optional_normalized(raw_icon);
            lemma_optional_normalized(raw_objective);
            lemma_optional_normalized(raw_archived_at);
            lemma_optional_normalized(raw_deleted_at);
        }
        Ok(
            Project {
                id,
                name,
                description,
                project_type,
                status,
                start_date,
                target_date,
                priority,
                color,
                icon,
                objective,
                settings_json,
                created_at,
                updated_at,
                archived_at,
                deleted_at,
            },
        )
    }

    pub fn id(&self) -> (r: &str)
        ensures
            r@ == self@.id,
    {
        self.id.as_str()
    }

    pub fn name(&self) -> (r: &str)
        ensures
            r@ == self@.name,
    {
        self.name.as_str()
    }

    pub fn description(&self) -> (r: Option<&str>)
        ensures
            opt_str_view(r) == self@.description,
    {
        opt_as_str(&self.description)
    }

    pub fn project_type(&self) -> (r: ProjectType)
        ensures
            r == self@.project_type,
    {
        self.project_type
    }

    pub fn status(&self) -> (r: ProjectStatus)
        ensures
            r == self@.status,
    {
        self.status
    }

    pub fn start_date(&self) -> (r: Option<&str>)
        ensures
            opt_str_view(r) == self@.start_date,
    {
        opt_as_str(&self.start_date)
    }

    pub fn target_date(&self) -> (r: Option<&str>)
        ensures
            opt_str_view(r) == self@.target_date,
    {
        opt_as_str(&self.target_date)
    }

    pub fn priority(&self) -> (r: u8)
        ensures
            r == self@.priority,
    {
        self.priority
    }

    pub fn color(&self) -> (r: Option<&str>)
        ensures
            opt_str_view(r) == self@.color,
    {
        opt_as_str(&self.color)
    }

    pub fn icon(&self) -> (r: Option<&str>)
        ensures
            opt_str_view(r) == self@.icon,
    {
        opt_as_str(&self.icon)
    }

    pub fn objective(&self) -> (r: Option<&str>)
        ensures
            opt_str_view(r) == self@.objective,
    {
        opt_as_str(&self.objective)
    }

    pub fn settings_json(&self) -> (r: &str)
        ensures
            r@ == self@.settings_json,
    {
        self.settings_json.as_str()
    }

    pub fn created_at(&self) -> (r: &str)
        ensures
            r@ == self@.created_at,
    {
        self.created_at.as_str()
    }

    pub fn updated_at(&self) -> (r: &str)
        ensures
            r@ == self@.updated_at,
    {
        self.updated_at.as_str()
    }

    pub fn archived_at(&self) -> (r: Option<&str>)
        ensures
            opt_str_view(r) == self@.archived_at,
    {
        opt_as_str(&self.archived_at)
    }

    pub fn deleted_at(&self) -> (r: Option<&str>)
        ensures
            opt_str_view(r) == self@.deleted_at,
    {
        opt_as_str(&self.deleted_at)
    }

    pub fn is_archived(&self) -> (r: bool)
        ensures
            r == (self@.status == ProjectStatus::Archived),
    {
        self.status == ProjectStatus::Archived
    }

    pub fn is_deleted(&self) -> (r: bool)
        ensures
            r == (self@.deleted_at is Some),
    {
        self.deleted_at.is_some()
    }
}

impl Project {
    fn changed_optional_value(change: Option<Option<String>>, current: &Option<String>) -> (r:
        Option<String>)
        ensures
            opt_view(r) == changed_optional(change, opt_view(*current)),
    {
        match change {
            Some(value) => optional_text(value),
            None => clone_opt(current),
        }
    }

    /// Applies `changes` all together, or none of them.
    pub fn update(&mut self, changes: ProjectChanges, updated_at: &str) -> (r: Result<
        (),
        ProjectError,
    >)
        ensures
            mutation_applied(
                old(self)@,
                final(self)@,
                r,
                update_outcome(old(self)@, changes, updated_at@),
            ),
            is_well_formed(final(self)@),
    {
        proof {
            use_type_invariant(&*self);
        }
        let ghost before = self@;
        let ghost given = changes;
        self.ensure_not_deleted()?;
        let ghost raw_updated_at = updated_at@;
        let updated_at = required_text("updated_at", owned_text(updated_at))?;
        let next_name = match changes.name {
            Some(name) => required_text("name", name)?,
            None => self.name.clone(),
        };
        let next_settings_json = match changes.settings_json {
            Some(settings_json) => required_text("settings_json", settings_json)?,
            None => self.settings_json.clone(),
        };
        let next_description = Self::changed_optional_value(changes.description, &self.description);
        let next_project_type = match changes.project_type {
            Some(t) => t,
            None => self.project_type,
        };
        let next_start_date = Self::changed_optional_value(changes.start_date, &self.start_date);
        let next_target_date = Self::changed_optional_value(changes.target_date, &self.target_date);
        let next_priority = match changes.priority {
            Some(p) => p,
            None => self.priority,
        };
        let next_color = Self::changed_optional_value(changes.color, &self.color);
        let next_icon = Self::changed_optional_value(changes.icon, &self.icon);
        let next_objective = Self::changed_optional_value(changes.objective, &self.objective);
        validate_priority(next_priority)?;
        validate_date_range(opt_as_str(&next_start_date), opt_as_str(&next_target_date))?;
        proof {
            if given.name is Some {
                lemma_required_normalized(given.name->0@);
            }
            if given.settings_json is Some {
                lemma_required_normalized(given.settings_json->0@);
            }
            if given.description is Some {
                lemma_optional_normalized(opt_view(given.description->0));
            }
            if given.start_date is Some {
                lemma_optional_normalized(opt_view(given.start_date->0));
            }
            if given.target_date is Some {
                lemma_optional_normalized(opt_view(given.target_date->0));
            }
            if given.color is Some {
                lemma_optional_normalized(opt_view(given.color->0));
            }
            if given.icon is Some {
                lemma_optional_normalized(opt_view(given.icon->0));
            }
            if given.objective is Some {
                lemma_optional_normalized(opt_view(given.objective->0));
            }
            lemma_required_normalized(raw_updated_at);
        }
        let next = Project {
            id: self.id.clone(),
            name: next_name,
            description: next_description,
            project_type: next_project_type,
            status: self.status,
            start_date: next_start_date,
            target_date: next_target_date,
            priority: next_priority,
            color: next_color,
            icon: next_icon,
            objective: next_objective,
            settings_json: next_settings_json,
            created_at: self.created_at.clone(),
            updated_at,
            archived_at: clone_opt(&self.archived_at),
            deleted_at: clone_opt(&self.deleted_at),
        };
        *self = next;
        Ok(())
    }

    /// Moves an `active` project to `paused`.
    pub fn pause(&mut self, changed_at: &str) -> (r: Result<(), ProjectError>)
        ensures
            mutation_applied(old(self)@, final(self)@, r, pause_outcome(old(self)@, changed_at@)),
            is_well_formed(final(self)@),
    {
        let allowed = [ProjectStatus::Active];
        proof {
            assert(allowed@ =~= seq![ProjectStatus::Active]);
        }
        self.transition(ProjectStatus::Paused, &allowed, changed_at)
    }

    /// Moves a `paused` project back to `active`.
    pub fn resume(&mut self, changed_at: &str) -> (r: Result<(), ProjectError>)
        ensures
            mutation_applied(old(self)@, final(self)@, r, resume_outcome(old(self)@, changed_at@)),
            is_well_formed(final(self)@),
    {
        let allowed = [ProjectStatus::Paused];
        proof {
            assert(allowed@ =~= seq![ProjectStatus::Paused]);
        }
        self.transition(ProjectStatus::Active, &allowed, changed_at)
    }

    /// Moves an `active` or `paused` project to `completed`.
    pub fn complete(&mut self, changed_at: &str) -> (r: Result<(), ProjectError>)
        ensures
            mutation_applied(
                old(self)@,
                final(self)@,
                r,
                complete_outcome(old(self)@, changed_at@),
            ),
            is_well_formed(final(self)@),
    {
        let allowed = [ProjectStatus::Active, ProjectStatus::Paused];
        proof {
            assert(allowed@ =~= seq![ProjectStatus::Active, ProjectStatus::Paused]);
        }
        self.transition(ProjectStatus::Completed, &allowed, changed_at)
    }

    /// Moves an `active` or `paused` project to `cancelled`.
    pub fn cancel(&mut self, changed_at: &str) -> (r: Result<(), ProjectError>)
        ensures
            mutation_applied(old(self)@, final(self)@, r, cancel_outcome(old(self)@, changed_at@)),
            is_well_formed(final(self)@),
    {
        let allowed = [ProjectStatus::Active, ProjectStatus::Paused];
        proof {
            assert(allowed@ =~= seq![ProjectStatus::Active, ProjectStatus::Paused]);
        }
        self.transition(ProjectStatus::Cancelled, &allowed, changed_at)
    }

    /// Archives a project that is not archived yet.
    pub fn archive(&mut self, changed_at: &str) -> (r: Result<(), ProjectError>)
        ensures
            mutation_applied(
                old(self)@,
                final(self)@,
                r,
                archive_outcome(old(self)@, changed_at@),
            ),
            is_well_formed(final(self)@),
    {
        proof {
            use_type_invariant(&*self);
        }
        self.ensure_not_deleted()?;
        if self.status == ProjectStatus::Archived {
            return Err(ProjectError::AlreadyInStatus(ProjectStatus::Archived));
        }
        let ghost raw_changed_at = changed_at@;
        let changed_at = required_text("changed_at", owned_text(changed_at))?;
        proof {
            lemma_required_normalized(raw_changed_at);
        }
        let next = Project {
            id: self.id.clone(),
            name: self.name.clone(),
            description: clone_opt(&self.description),
            project_type: self.project_type,
            status: ProjectStatus::Archived,
            start_date: clone_opt(&self.start_date),
            target_date: clone_opt(&self.target_date),
            priority: self.priority,
            color: clone_opt(&self.color),
            icon: clone_opt(&self.icon),
            objective: clone_opt(&self.objective),
            settings_json: self.settings_json.clone(),
            created_at: self.created_at.clone(),
            updated_at: changed_at.clone(),
            archived_at: Some(changed_at),
            deleted_at: clone_opt(&self.deleted_at),
        };
        *self = next;
        Ok(())
    }

    /// Restoring an archived project returns it to `active`.
    pub fn restore(&mut self, changed_at: &str) -> (r: Result<(), ProjectError>)
        ensures
            mutation_applied(
                old(self)@,
                final(self)@,
                r,
                restore_outcome(old(self)@, changed_at@),
            ),
            is_well_formed(final(self)@),
    {
        proof {
            use_type_invariant(&*self);
        }
        self.ensure_not_deleted()?;
        if self.status != ProjectStatus::Archived {
            return Err(
                ProjectError::InvalidTransition { from: self.status, to: ProjectStatus::Active },
            );
        }
        let ghost raw_changed_at = changed_at@;
        let changed_at = required_text("changed_at", owned_text(changed_at))?;
        proof {
            lemma_required_normalized(raw_changed_at);
        }
        let next = Project {
            id: self.id.clone(),
            name: self.name.clone(),
            description: clone_opt(&self.description),
            project_type: self.project_type,
            status: ProjectStatus::Active,
            start_date: clone_opt(&self.start_date),
            target_date: clone_opt(&self.target_date),
            priority: self.priority,
            color: clone_opt(&self.color),
            icon: clone_opt(&self.icon),
            objective: clone_opt(&self.objective),
            settings_json: self.settings_json.clone(),
            created_at: self.created_at.clone(),
            updated_at: changed_at,
            archived_at: None,
            deleted_at: clone_opt(&self.deleted_at),
        };
        *self = next;
        Ok(())
    }

    /// Marks the project as deleted; a deleted project cannot change again.
    pub fn soft_delete(&mut self, deleted_at: &str) -> (r: Result<(), ProjectError>)
        ensures
            mutation_applied(
                old(self)@,
                final(self)@,
                r,
                soft_delete_outcome(old(self)@, deleted_at@),
            ),
            is_well_formed(final(self)@),
    {
        proof {
            use_type_invariant(&*self);
        }
        self.ensure_not_deleted()?;
        let ghost raw_deleted_at = deleted_at@;
        let deleted_at = required_text("deleted_at", owned_text(deleted_at))?;
        proof {
            lemma_required_normalized(raw_deleted_at);
        }
        let next = Project {
            id: self.id.clone(),
            name: self.name.clone(),
            description: clone_opt(&self.description),
            project_type: self.project_type,
            status: self.status,
            start_date: clone_opt(&self.start_date),
            target_date: clone_opt(&self.target_date),
            priority: self.priority,
            color: clone_opt(&self.color),
            icon: clone_opt(&self.icon),
            objective: clone_opt(&self.objective),
            settings_json: self.settings_json.clone(),
            created_at: self.created_at.clone(),
            updated_at: deleted_at.clone(),
            archived_at: clone_opt(&self.archived_at),
            deleted_at: Some(deleted_at),
        };
        *self = next;
        Ok(())
    }

    fn transition(&mut self, target: ProjectStatus, allowed_sources: &[ProjectStatus], changed_at: &str) -> (r:
        Result<(), ProjectError>)
        requires
            target != ProjectStatus::Archived,
            !allowed_sources@.contains(ProjectStatus::Archived),
        ensures
            mutation_applied(
                old(self)@,
                final(self)@,
                r,
                transition_outcome(old(self)@, target, allowed_sources@, changed_at@),
            ),
            is_well_formed(final(self)@),
    {
        proof {
            use_type_invariant(&*self);
        }
        self.ensure_not_deleted()?;
        if self.status == target {
            return Err(ProjectError::AlreadyInStatus(target));
        }
        if !contains_status(allowed_sources, self.status) {
            return Err(ProjectError::InvalidTransition { from: self.status, to: target });
        }
        let ghost raw_changed_at = changed_at@;
        let changed_at = required_text("changed_at", owned_text(changed_at))?;
        proof {
            lemma_required_normalized(raw_changed_at);
        }
        let next = Project {
            id: self.id.clone(),
            name: self.name.clone(),
            description: clone_opt(&self.description),
            project_type: self.project_type,
            status: target,
            start_date: clone_opt(&self.start_date),
            target_date: clone_opt(&self.target_date),
            priority: self.priority,
            color: clone_opt(&self.color),
            icon: clone_opt(&self.icon),
            objective: clone_opt(&self.objective),
            settings_json: self.settings_json.clone(),
            created_at: self.created_at.clone(),
            updated_at: changed_at,
            archived_at: None,
            deleted_at: clone_opt(&self.deleted_at),
        };
        *self = next;
        Ok(())
    }

    fn ensure_not_deleted(&self) -> (r: Result<(), ProjectError>)
        ensures
            unit_outcome(r) == if self@.deleted_at is Some {
                Err(ProjectErrorView::ProjectDeleted)
            } else {
                Ok(())
            },
    {
        if self.is_deleted() {
            Err(ProjectError::ProjectDeleted)
        } else {
            Ok(())
        }
    }
}

fn contains_status(statuses: &[ProjectStatus], status: ProjectStatus) -> (r: bool)
    ensures
        r == statuses@.contains(status),
{
    let mut i: usize = 0;
    while i < statuses.len()
        invariant
            i <= statuses@.len(),
            forall|k: int| 0 <= k < i ==> statuses@[k] != status,
        decreases statuses@.len() - i,
    {
        if statuses[i] == status {
            return true;
        }
        i = i + 1;
    }
    false
}

impl Clone for Project {
    fn clone(&self) -> (r: Self)
        ensures
            r@ == self@,
    {
        proof {
            use_type_invariant(self);
        }
        Project {
            id: self.id.clone(),
            name: self.name.clone(),
            description: clone_opt(&self.description),
            project_type: self.project_type,
            status: self.status,
            start_date: clone_opt(&self.start_date),
            target_date: clone_opt(&self.target_date),
            priority: self.priority,
            color: clone_opt(&self.color),
            icon: clone_opt(&self.icon),
            objective: clone_opt(&self.objective),
            settings_json: self.settings_json.clone(),
            created_at: self.created_at.clone(),
            updated_at: self.updated_at.clone(),
            archived_at: clone_opt(&self.archived_at),
            deleted_at: clone_opt(&self.deleted_at),
        }
    }
}

} // verus!

//! Runtime information about the application.

use vstd::prelude::*;

use crate::domain::application_info::{
    ApplicationEnvironment, ApplicationInfo, ApplicationStatus, DatabaseInfo, DatabaseStatus,
};
use crate::text::owned_text;

verus! {

pub struct ApplicationInfoService;

impl ApplicationInfoService {
    /// The information reported for package `name` at `version`, built with
    /// or without debug assertions.
    pub fn get(name: &str, version: &str, debug_build: bool) -> (r: ApplicationInfo)
        ensures
            r.name@ == name@,
            r.version@ == version@,
            r.environment == (if debug_build {
                ApplicationEnvironment::Development
            } else {
                ApplicationEnvironment::Production
            }),
            r.status == ApplicationStatus::Ready,
            r.database.status == DatabaseStatus::NotConfigured,
            r.database.version is None,
    {
        ApplicationInfo {
            name: owned_text(name),
            version: owned_text(version),
            environment: current_environment(debug_build),
            status: ApplicationStatus::Ready,
            database: DatabaseInfo { status: DatabaseStatus::NotConfigured, version: None },
        }
    }
}

/// Debug builds run in development, others in production.
pub fn current_environment(debug_build: bool) -> (r: ApplicationEnvironment)
    ensures
        r == (if debug_build {
            ApplicationEnvironment::Development
        } else {
            ApplicationEnvironment::Production
        }),
{
    if debug_build {
        ApplicationEnvironment::Development
    } else {
        ApplicationEnvironment::Production
    }
}

} // verus!

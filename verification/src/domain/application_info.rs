//! Runtime information about the application.

use vstd::prelude::*;

verus! {

#[derive(Debug)]
pub struct ApplicationInfo {
    pub name: String,
    pub version: String,
    pub environment: ApplicationEnvironment,
    pub status: ApplicationStatus,
    pub database: DatabaseInfo,
}

#[derive(Debug, PartialEq, Eq, Structural)]
pub enum ApplicationEnvironment {
    Development,
    Production,
}

#[derive(Debug, PartialEq, Eq, Structural)]
pub enum ApplicationStatus {
    Ready,
}

#[derive(Debug)]
pub struct DatabaseInfo {
    pub status: DatabaseStatus,
    pub version: Option<String>,
}

#[derive(Debug, PartialEq, Eq, Structural)]
pub enum DatabaseStatus {
    NotConfigured,
}

} // verus!

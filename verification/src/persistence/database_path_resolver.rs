//! Where the database lives below the application data directory.

use vstd::prelude::*;

verus! {

pub const PROFILES_DIRECTORY: &'static str = "profiles";

pub const DEFAULT_PROFILE_ID: &'static str = "default";

pub const DATABASE_FILE_NAME: &'static str = "vertica.db";

/// Locates the database of the default profile.
pub struct DatabasePathResolver;

impl DatabasePathResolver {
    /// The directories below the application data directory that hold the
    /// database, outermost first, and the database's file name.
    pub fn database_location() -> (r: (&'static str, &'static str, &'static str))
        ensures
            r.0@ == PROFILES_DIRECTORY@,
            r.1@ == DEFAULT_PROFILE_ID@,
            r.2@ == DATABASE_FILE_NAME@,
    {
        (PROFILES_DIRECTORY, DEFAULT_PROFILE_ID, DATABASE_FILE_NAME)
    }
}

} // verus!

//! The decisions of the SQLite persistence layer: how stored rows become
//! domain values, how storage failures are classified and reported, and
//! which schema migrations are due. The database access itself is done by
//! the application shell, which hands these functions plain values.

pub mod error;
pub mod sqlite_error;
pub mod project_repository;
pub mod storage_laws;
pub mod settings_repository;
pub mod migration;
pub mod database_manager;
pub mod database_path_resolver;

//! Entities, value objects, validation rules and repository contracts.

pub mod project;
pub mod project_laws;
pub mod validation_laws;
pub mod project_repository;
pub mod settings;
pub mod settings_repository;
pub mod application_info;

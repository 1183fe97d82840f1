//! Application services: the use cases that coordinate the domain model with
//! its repositories.

pub mod project;
pub mod service_laws;
pub mod settings;
pub mod application_info;
pub mod database_diagnostics;

//! Verified core of the Vertica project manager: the project domain model,
//! application settings, the application services that coordinate them, and
//! the pure parts of the SQLite persistence layer (row decoding, error
//! classification and migration planning).

pub mod text;
pub mod domain;
pub mod application;
pub mod persistence;

//! The typed repositories: one for each collection, all built alike on the
//! records of a namespace.

pub mod post_repository;
pub mod records;
pub mod settings_repository;
pub mod user_repository;

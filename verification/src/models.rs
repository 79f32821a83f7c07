//! Application records kept in the document store.

pub mod post;
pub mod settings;
pub mod user;

//! What the user interface can ask for: the commands, with the checks they
//! make and the answers they give.

pub mod auth;
pub mod post;
pub mod profile;
pub mod settings;

//! What the application says to its peers, and on which topics.

pub mod iroh;

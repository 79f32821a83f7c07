//! Persistence and synchronisation bridge of a peer-to-peer social client.
//!
//! Typed records (`User`, `Post`, `Settings`) are mapped onto keyed entries of
//! a multi-writer document store, with tombstones for deletion, prefix scans
//! for listing and search, a registry that binds each collection to a store
//! namespace, and a bridge that turns the store's change notifications into
//! application events.

pub mod commands;
pub mod models;
pub mod network;
pub mod storage;

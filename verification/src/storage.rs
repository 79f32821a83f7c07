//! Storage layer: keys, contents, documents and the repositories over them.

pub mod assoc;
pub mod change_tracker;
pub mod clock;
pub mod codec;
pub mod collection;
pub mod docs;
pub mod error;
pub mod events;
pub mod hash;
pub mod iroh_docs_sync;
pub mod json;
pub mod listing;
pub mod models;
pub mod replica;
pub mod repository;
pub mod retry;
pub mod state;
pub mod storage_manager;
pub mod sync_manager;
pub mod text;
pub mod text_set;
pub mod traits;

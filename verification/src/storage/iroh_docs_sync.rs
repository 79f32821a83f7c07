//! The store of the application as free functions over a storage manager
//! that works on the document named "default".

use crate::models::post::{post_encoding, post_views, post_writes, Post};
use crate::models::settings::{
    settings_decoding, settings_encoding, settings_write, Settings,
};
use crate::models::user::{user_decoding, user_encoding, user_writes, User};
use crate::storage::change_tracker::entry_ids;
use crate::storage::docs::put_entry;
use crate::storage::listing::page;
use crate::storage::models::{content_of, entry_id, DocView, EntryView};
use crate::storage::storage_manager::{
    empty_query_message, found_posts, listed_posts, listed_posts_by, uninitialized_message,
    StorageManager,
};
use crate::storage::text::is_blank;
use crate::storage::text_set::text_set;
use vstd::prelude::*;

verus! {

/// A storage manager that works on the document named "default", which is
/// empty.
pub fn open_default() -> (r: Result<StorageManager, String>)
    ensures
        r matches Ok(m) && m.document_id() == Some("default"@) && m.docs_view() == seq![
            DocView { id: "default"@, entries: Seq::empty() },
        ] && m.peers() == Set::<Seq<char>>::empty(),
{
    let mut manager = match StorageManager::new() {
        Ok(manager) => manager,
        Err(m) => {
            return Err(m);
        },
    };
    match manager.get_or_create_document("default") {
        Ok(_) => {},
        Err(m) => {
            return Err(m);
        },
    }
    proof {
        assert(manager.docs_view() =~= seq![DocView { id: "default"@, entries: Seq::empty() }]);
    }
    Ok(manager)
}

/// Saves a user under its identifier. Fails, and stores nothing, where
/// no document is in use, and else exactly where `serde_json` does not
/// write the user.
pub fn save_user(manager: &mut StorageManager, user: &User) -> (r: Result<(), String>)
    ensures
        old(manager).document() is Ok ==> (r is Ok <==> user_writes(user@)),
        final(manager).document_id() == old(manager).document_id(),
        final(manager).peers() == old(manager).peers(),
        match old(manager).document() {
            Ok(d) => match r {
                Ok(_) => final(manager).docs_view() == put_entry(
                    old(manager).docs_view(),
                    d.id,
                    EntryView {
                        id: entry_id("users"@, user@.id),
                        namespace: "users"@,
                        key: user@.id,
                        content: user_encoding(user@),
                    },
                ),
                Err(t) => "Failed to serialize user: "@.is_prefix_of(t@)
                    && final(manager).docs_view() == old(manager).docs_view(),
            },
            Err(m) => r matches Err(t) && t@ == m && final(manager).docs_view() == old(
                manager,
            ).docs_view(),
        },
{
    manager.save_user(user)
}

/// The user stored under an identifier: `None` where nothing is stored
/// there, an error where what is stored does not read as a user or no
/// document is in use.
pub fn get_user(manager: &StorageManager, user_id: &str) -> (r: Result<Option<User>, String>)
    ensures
        match manager.document() {
            Ok(d) => match content_of(d.entries, entry_id("users"@, user_id@)) {
                None => r matches Ok(None),
                Some(bytes) => match user_decoding(bytes) {
                    Some(u) => r matches Ok(Some(x)) && x@ == u,
                    None => r matches Err(t) && "Failed to deserialize user: "@.is_prefix_of(
                        t@,
                    ),
                },
            },
            Err(m) => r matches Err(t) && t@ == m,
        },
{
    manager.get_user(user_id)
}

/// Saves a post under its identifier. Fails, and stores nothing, where
/// no document is in use, and else exactly where `serde_json` does not
/// write the post.
pub fn save_post(manager: &mut StorageManager, post: &Post) -> (r: Result<(), String>)
    ensures
        old(manager).document() is Ok ==> (r is Ok <==> post_writes(post@)),
        final(manager).document_id() == old(manager).document_id(),
        final(manager).peers() == old(manager).peers(),
        match old(manager).document() {
            Ok(d) => match r {
                Ok(_) => final(manager).docs_view() == put_entry(
                    old(manager).docs_view(),
                    d.id,
                    EntryView {
                        id: entry_id("posts"@, post@.id),
                        namespace: "posts"@,
                        key: post@.id,
                        content: post_encoding(post@),
                    },
                ),
                Err(t) => "Failed to serialize post: "@.is_prefix_of(t@)
                    && final(manager).docs_view() == old(manager).docs_view(),
            },
            Err(m) => r matches Err(t) && t@ == m && final(manager).docs_view() == old(
                manager,
            ).docs_view(),
        },
{
    manager.save_post(post)
}

/// A page of the posts, the newest first: `limit` posts from the one at
/// `offset` on, and none where the offset is at or beyond the end.
pub fn get_posts(
    manager: &StorageManager,
    limit: usize,
    offset: usize,
) -> (r: Result<Vec<Post>, String>)
    ensures
        match manager.document() {
            Ok(d) => r matches Ok(v) && post_views(v@) == page(
                listed_posts(d),
                limit as nat,
                offset as nat,
            ),
            Err(m) => r matches Err(t) && t@ == m,
        },
{
    manager.get_posts(limit, offset)
}

/// A page of the posts of one author, the newest first.
pub fn get_user_posts(
    manager: &StorageManager,
    user_id: &str,
    limit: usize,
    offset: usize,
) -> (r: Result<Vec<Post>, String>)
    ensures
        match manager.document() {
            Ok(d) => r matches Ok(v) && post_views(v@) == page(
                listed_posts_by(d, user_id@),
                limit as nat,
                offset as nat,
            ),
            Err(m) => r matches Err(t) && t@ == m,
        },
{
    manager.get_user_posts(user_id, limit, offset)
}

/// The posts whose content mentions the query, without regard to case:
/// the first `limit` of them in scan order, the newest of these first.
/// A blank query is refused.
pub fn search_posts(
    manager: &StorageManager,
    query: &str,
    limit: usize,
) -> (r: Result<Vec<Post>, String>)
    ensures
        if is_blank(query@) {
            r matches Err(t) && t@ == empty_query_message()
        } else {
            match manager.document() {
                Ok(d) => r matches Ok(v) && post_views(v@) == found_posts(
                    d,
                    query@,
                    limit as nat,
                ),
                Err(m) => r matches Err(t) && t@ == m,
            }
        },
{
    manager.search_posts(query, limit)
}

/// The settings stored under a key: `None` where nothing is stored
/// there, an error where what is stored does not read as settings or
/// no document is in use.
pub fn get_settings(
    manager: &StorageManager,
    settings_key: &str,
) -> (r: Result<Option<Settings>, String>)
    ensures
        match manager.document() {
            Ok(d) => match content_of(d.entries, entry_id("settings"@, settings_key@)) {
                None => r matches Ok(None),
                Some(bytes) => match settings_decoding(bytes) {
                    Some(s) => r matches Ok(Some(x)) && x@ == s,
                    None => r matches Err(t)
                        && "Failed to deserialize settings: "@.is_prefix_of(t@),
                },
            },
            Err(m) => r matches Err(t) && t@ == m,
        },
{
    manager.get_settings(settings_key)
}

/// Saves settings under a key. Fails, and stores nothing, where no
/// document is in use, and else exactly where `serde_json` does not write
/// the settings.
pub fn save_settings(
    manager: &mut StorageManager,
    settings_key: &str,
    settings: &Settings,
) -> (r: Result<(), String>)
    ensures
        old(manager).document() is Ok ==> (r is Ok <==> settings_write(settings@)),
        final(manager).document_id() == old(manager).document_id(),
        final(manager).peers() == old(manager).peers(),
        match old(manager).document() {
            Ok(d) => match r {
                Ok(_) => final(manager).docs_view() == put_entry(
                    old(manager).docs_view(),
                    d.id,
                    EntryView {
                        id: entry_id("settings"@, settings_key@),
                        namespace: "settings"@,
                        key: settings_key@,
                        content: settings_encoding(settings@),
                    },
                ),
                Err(t) => "Failed to serialize settings: "@.is_prefix_of(t@)
                    && final(manager).docs_view() == old(manager).docs_view(),
            },
            Err(m) => r matches Err(t) && t@ == m && final(manager).docs_view() == old(
                manager,
            ).docs_view(),
        },
{
    manager.save_settings(settings_key, settings)
}

/// Synchronises the document in use with its peers and takes stock of
/// its entries.
pub fn sync_with_peers(manager: &mut StorageManager) -> (r: Result<(), String>)
    ensures
        final(manager).docs_view() == old(manager).docs_view(),
        final(manager).document_id() == old(manager).document_id(),
        final(manager).peers() == old(manager).peers(),
        match old(manager).document() {
            Ok(d) => r is Ok && final(manager).known() == text_set(entry_ids(d.entries)),
            Err(m) => r matches Err(t) && t@ == m && final(manager).known() == old(manager).known(),
        },
{
    manager.sync_with_peers()
}

/// Adds a peer to the document in use.
pub fn add_peer(manager: &mut StorageManager, peer_id: &str) -> (r: Result<(), String>)
    ensures
        final(manager).docs_view() == old(manager).docs_view(),
        final(manager).document_id() == old(manager).document_id(),
        final(manager).known() == old(manager).known(),
        match old(manager).document_id() {
            Some(_) => r is Ok && final(manager).peers() == old(manager).peers().insert(peer_id@),
            None => r matches Err(t) && t@ == uninitialized_message() && final(manager).peers()
                == old(manager).peers(),
        },
{
    manager.add_peer(peer_id)
}

/// Removes a peer from the document in use.
pub fn remove_peer(manager: &mut StorageManager, peer_id: &str) -> (r: Result<(), String>)
    ensures
        final(manager).docs_view() == old(manager).docs_view(),
        final(manager).document_id() == old(manager).document_id(),
        final(manager).known() == old(manager).known(),
        match old(manager).document_id() {
            Some(_) => r is Ok && final(manager).peers() == old(manager).peers().remove(peer_id@),
            None => r matches Err(t) && t@ == uninitialized_message() && final(manager).peers()
                == old(manager).peers(),
        },
{
    manager.remove_peer(peer_id)
}

} // verus!

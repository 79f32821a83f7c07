//! Stores users, posts and settings in a document held in memory.

use crate::models::post::{
    decode_posts, decoded_posts, post_encoding, post_views, post_writes, view_by, view_mentions,
    view_time, Post, PostView,
};
use crate::models::settings::{
    settings_decoding, settings_encoding, settings_write, Settings,
};
use crate::models::user::{user_decoding, user_encoding, user_writes, User};
use crate::storage::change_tracker::entry_ids;
use crate::storage::docs::{doc_ids, doc_position, not_found_message, put_entry, Docs};
use crate::storage::error::StorageError;
use crate::storage::listing::{
    content_mentions, entry_time, first_n, keep_by_author, keep_first, keep_mentioning,
    lemma_filter_maps, lemma_newest_first_maps, lemma_page_maps, newest_first, page, paginate,
    sort_newest_first, written_by,
};
use crate::storage::models::{
    bytes_view, content_of, copy_bytes, entry_id, entry_views, under_prefix, Doc, DocView, Entry,
    EntryView,
};
use crate::storage::sync_manager::SyncManager;
use crate::storage::text::{blank, is_blank, join, lemma_first_index, lemma_first_index_is};
use crate::storage::text_set::text_set;
use vstd::prelude::*;

verus! {

/// The store of the application's records: the documents of the node, and
/// the manager of the document that is in use.
#[derive(Debug)]
pub struct StorageManager {
    docs: Docs,
    sync_manager: Option<SyncManager>,
}

/// The contents of the entries of a namespace, in the order in which the
/// document holds them.
pub open spec fn contents_under(doc: DocView, namespace: Seq<char>) -> Seq<Seq<u8>> {
    doc.entries.filter(under_prefix(namespace, Seq::empty())).map_values(
        |e: EntryView| e.content,
    )
}

/// The posts of a document, the newest first.
pub open spec fn listed_posts(doc: DocView) -> Seq<PostView> {
    newest_first(decoded_posts(contents_under(doc, "posts"@)), view_time())
}

/// The posts of a document by one author, the newest first.
pub open spec fn listed_posts_by(doc: DocView, author: Seq<char>) -> Seq<PostView> {
    newest_first(decoded_posts(contents_under(doc, "posts"@)).filter(view_by(author)), view_time())
}

/// The first `limit` posts of a document, in scan order, whose content
/// mentions the query, the newest of them first.
pub open spec fn found_posts(doc: DocView, query: Seq<char>, limit: nat) -> Seq<PostView> {
    newest_first(
        first_n(decoded_posts(contents_under(doc, "posts"@)).filter(view_mentions(query)), limit),
        view_time(),
    )
}

/// The message for a store whose document was not chosen yet.
pub open spec fn uninitialized_message() -> Seq<char> {
    "Sync manager not initialized"@
}

/// The message for a search without a query.
pub open spec fn empty_query_message() -> Seq<char> {
    "Search query cannot be empty"@
}

impl StorageManager {
    /// The documents of the node.
    pub closed spec fn docs_view(&self) -> Seq<DocView> {
        self.docs@
    }

    /// The identifier of the document in use, once one was chosen.
    pub closed spec fn document_id(&self) -> Option<Seq<char>> {
        match self.sync_manager {
            Some(m) => Some(m.spec_doc_id()),
            None => None,
        }
    }

    /// The peers of the document in use.
    pub closed spec fn peers(&self) -> Set<Seq<char>> {
        match self.sync_manager {
            Some(m) => m.peers(),
            None => Set::empty(),
        }
    }

    /// The identifiers of the entries that were there at the last
    /// synchronisation.
    pub closed spec fn known(&self) -> Set<Seq<char>> {
        match self.sync_manager {
            Some(m) => m.known(),
            None => Set::empty(),
        }
    }

    /// The document in use, or the message of the error that every
    /// operation on it fails with: no document was chosen, or the node does
    /// not hold the chosen one.
    pub open spec fn document(&self) -> Result<DocView, Seq<char>> {
        match self.document_id() {
            None => Err(uninitialized_message()),
            Some(id) => {
                let p = doc_position(self.docs_view(), id);
                if p < self.docs_view().len() {
                    Ok(self.docs_view()[p])
                } else {
                    Err(not_found_message(id))
                }
            },
        }
    }

    /// A store without documents.
    pub fn new() -> (r: Result<Self, String>)
        ensures
            r matches Ok(m) && m.docs_view() == Seq::<DocView>::empty() && m.document_id() is None,
    {
        Ok(StorageManager { docs: Docs::new(), sync_manager: None })
    }

    /// Chooses the document to work on, creating it empty if the node does
    /// not hold it. The document starts without peers.
    pub fn get_or_create_document(&mut self, doc_id: &str) -> (r: Result<(), String>)
        ensures
            r is Ok,
            final(self).document_id() == Some(doc_id@),
            final(self).peers() == Set::<Seq<char>>::empty(),
            final(self).known() == Set::<Seq<char>>::empty(),
            final(self).docs_view() == if doc_position(old(self).docs_view(), doc_id@) < old(
                self,
            ).docs_view().len() {
                old(self).docs_view()
            } else {
                old(self).docs_view().push(DocView { id: doc_id@, entries: Seq::empty() })
            },
            final(self).document() is Ok,
    {
        self.docs.ensure(doc_id);
        self.sync_manager = Some(SyncManager::new(doc_id.to_string()));
        proof {
            lemma_first_index(
                doc_ids(old(self).docs_view()),
                doc_id@,
            );
            let ids = doc_ids(self.docs_view());
            if doc_position(old(self).docs_view(), doc_id@) >= old(self).docs_view().len() {
                assert(ids =~= doc_ids(old(self).docs_view()).push(doc_id@));
                lemma_first_index_is(
                    ids,
                    doc_id@,
                    old(self).docs_view().len() as int,
                );
            }
        }
        Ok(())
    }

    /// A copy of the document in use.
    fn current(&self) -> (r: Result<Doc, String>)
        ensures
            match r {
                Ok(d) => self.document() == Ok::<DocView, Seq<char>>(d@) && self.document_id()
                    == Some(d@.id),
                Err(m) => self.document() == Err::<DocView, Seq<char>>(m@),
            },
    {
        match &self.sync_manager {
            Some(m) => m.get_document(&self.docs),
            None => Err("Sync manager not initialized".to_string()),
        }
    }

    /// Stores content in the document in use.
    fn put(&mut self, namespace: &str, key: &str, content: &[u8]) -> (r: Result<(), String>)
        ensures
            final(self).document_id() == old(self).document_id(),
            final(self).peers() == old(self).peers(),
            final(self).known() == old(self).known(),
            match old(self).document() {
                Ok(d) => r is Ok && final(self).docs_view() == put_entry(
                    old(self).docs_view(),
                    d.id,
                    EntryView {
                        id: entry_id(namespace@, key@),
                        namespace: namespace@,
                        key: key@,
                        content: content@,
                    },
                ),
                Err(m) => r matches Err(t) && t@ == m && final(self).docs_view() == old(
                    self,
                ).docs_view(),
            },
    {
        let doc = match self.current() {
            Ok(doc) => doc,
            Err(m) => {
                return Err(m);
            },
        };
        self.docs.set_bytes(doc.id(), namespace, key, content)
    }

    /// The content under a key of a namespace of the document in use.
    fn content(&self, namespace: &str, key: &str) -> (r: Result<Option<Vec<u8>>, String>)
        ensures
            match self.document() {
                Ok(d) => r matches Ok(c) && bytes_view(c) == content_of(
                    d.entries,
                    entry_id(namespace@, key@),
                ),
                Err(m) => r matches Err(t) && t@ == m,
            },
    {
        match self.current() {
            Ok(doc) => doc.get_content(namespace, key),
            Err(m) => Err(m),
        }
    }

    /// Saves a user under its identifier. Fails, and stores nothing, where
    /// no document is in use, and else exactly where `serde_json` does not
    /// write the user.
    pub fn save_user(&mut self, user: &User) -> (r: Result<(), String>)
        ensures
            old(self).document() is Ok ==> (r is Ok <==> user_writes(user@)),
            final(self).document_id() == old(self).document_id(),
            final(self).peers() == old(self).peers(),
            match old(self).document() {
                Ok(d) => match r {
                    Ok(_) => final(self).docs_view() == put_entry(
                        old(self).docs_view(),
                        d.id,
                        EntryView {
                            id: entry_id("users"@, user@.id),
                            namespace: "users"@,
                            key: user@.id,
                            content: user_encoding(user@),
                        },
                    ),
                    Err(t) => "Failed to serialize user: "@.is_prefix_of(t@)
                        && final(self).docs_view() == old(self).docs_view(),
                },
                Err(m) => r matches Err(t) && t@ == m && final(self).docs_view() == old(
                    self,
                ).docs_view(),
            },
    {
        match self.current() {
            Ok(_) => {},
            Err(m) => {
                return Err(m);
            },
        }
        let bytes = match user.encode() {
            Ok(bytes) => bytes,
            Err(e) => {
                return Err(failure("Failed to serialize user: ", &e));
            },
        };
        self.put("users", user.id.as_str(), bytes.as_slice())
    }

    /// The user stored under an identifier: `None` where nothing is stored
    /// there, an error where what is stored does not read as a user or no
    /// document is in use.
    pub fn get_user(&self, user_id: &str) -> (r: Result<Option<User>, String>)
        ensures
            match self.document() {
                Ok(d) => match content_of(d.entries, entry_id("users"@, user_id@)) {
                    None => r matches Ok(None),
                    Some(bytes) => match user_decoding(bytes) {
                        Some(u) => r matches Ok(Some(x)) && x@ == u,
                        None => r matches Err(t) && "Failed to deserialize user: "@.is_prefix_of(
                            t@,
                        ),
                    },
                },
                Err(m) => r matches Err(t) && t@ == m,
            },
    {
        match self.content("users", user_id) {
            Ok(Some(content)) => match User::decode(content.as_slice()) {
                Ok(user) => Ok(Some(user)),
                Err(e) => Err(failure("Failed to deserialize user: ", &e)),
            },
            Ok(None) => Ok(None),
            Err(m) => Err(m),
        }
    }

    /// Saves a post under its identifier. Fails, and stores nothing, where
    /// no document is in use, and else exactly where `serde_json` does not
    /// write the post.
    pub fn save_post(&mut self, post: &Post) -> (r: Result<(), String>)
        ensures
            old(self).document() is Ok ==> (r is Ok <==> post_writes(post@)),
            final(self).document_id() == old(self).document_id(),
            final(self).peers() == old(self).peers(),
            match old(self).document() {
                Ok(d) => match r {
                    Ok(_) => final(self).docs_view() == put_entry(
                        old(self).docs_view(),
                        d.id,
                        EntryView {
                            id: entry_id("posts"@, post@.id),
                            namespace: "posts"@,
                            key: post@.id,
                            content: post_encoding(post@),
                        },
                    ),
                    Err(t) => "Failed to serialize post: "@.is_prefix_of(t@)
                        && final(self).docs_view() == old(self).docs_view(),
                },
                Err(m) => r matches Err(t) && t@ == m && final(self).docs_view() == old(
                    self,
                ).docs_view(),
            },
    {
        match self.current() {
            Ok(_) => {},
            Err(m) => {
                return Err(m);
            },
        }
        let bytes = match post.encode() {
            Ok(bytes) => bytes,
            Err(e) => {
                return Err(failure("Failed to serialize post: ", &e));
            },
        };
        self.put("posts", post.id.as_str(), bytes.as_slice())
    }

    /// The posts of the document in use that read as posts, in the order in
    /// which the document holds them.
    fn scan_posts(&self) -> (r: Result<Vec<Post>, String>)
        ensures
            match self.document() {
                Ok(d) => r matches Ok(v) && post_views(v@) == decoded_posts(
                    contents_under(d, "posts"@),
                ),
                Err(m) => r matches Err(t) && t@ == m,
            },
    {
        let doc = match self.current() {
            Ok(doc) => doc,
            Err(m) => {
                return Err(m);
            },
        };
        let entries = match doc.list_entries_by_prefix("posts", "") {
            Ok(entries) => entries,
            Err(m) => {
                return Err(m);
            },
        };
        proof {
            reveal_strlit("");
            assert(""@ =~= Seq::<char>::empty());
        }
        let contents = contents_of(&entries);
        Ok(decode_posts(&contents))
    }

    /// A page of the posts, the newest first: `limit` posts from the one at
    /// `offset` on, and none where the offset is at or beyond the end.
    pub fn get_posts(&self, limit: usize, offset: usize) -> (r: Result<Vec<Post>, String>)
        ensures
            match self.document() {
                Ok(d) => r matches Ok(v) && post_views(v@) == page(
                    listed_posts(d),
                    limit as nat,
                    offset as nat,
                ),
                Err(m) => r matches Err(t) && t@ == m,
            },
    {
        let posts = match self.scan_posts() {
            Ok(posts) => posts,
            Err(m) => {
                return Err(m);
            },
        };
        let sorted = sort_newest_first(posts);
        let r = paginate(sorted, limit, offset);
        proof {
            let look = |p: Post| p@;
            lemma_newest_first_maps(posts@, look, entry_time::<Post>(), view_time());
            lemma_page_maps(sorted@, look, limit as nat, offset as nat);
        }
        Ok(r)
    }

    /// A page of the posts of one author, the newest first.
    pub fn get_user_posts(
        &self,
        user_id: &str,
        limit: usize,
        offset: usize,
    ) -> (r: Result<Vec<Post>, String>)
        ensures
            match self.document() {
                Ok(d) => r matches Ok(v) && post_views(v@) == page(
                    listed_posts_by(d, user_id@),
                    limit as nat,
                    offset as nat,
                ),
                Err(m) => r matches Err(t) && t@ == m,
            },
    {
        let posts = match self.scan_posts() {
            Ok(posts) => posts,
            Err(m) => {
                return Err(m);
            },
        };
        let kept = keep_by_author(posts, user_id);
        let sorted = sort_newest_first(kept);
        let r = paginate(sorted, limit, offset);
        proof {
            let look = |p: Post| p@;
            lemma_filter_maps(posts@, look, written_by::<Post>(user_id@), view_by(user_id@));
            lemma_newest_first_maps(kept@, look, entry_time::<Post>(), view_time());
            lemma_page_maps(sorted@, look, limit as nat, offset as nat);
        }
        Ok(r)
    }

    /// The posts whose content mentions the query, without regard to case:
    /// the first `limit` of them in scan order, the newest of these first.
    /// A blank query is refused.
    pub fn search_posts(&self, query: &str, limit: usize) -> (r: Result<Vec<Post>, String>)
        ensures
            if is_blank(query@) {
                r matches Err(t) && t@ == empty_query_message()
            } else {
                match self.document() {
                    Ok(d) => r matches Ok(v) && post_views(v@) == found_posts(
                        d,
                        query@,
                        limit as nat,
                    ),
                    Err(m) => r matches Err(t) && t@ == m,
                }
            },
    {
        if blank(query) {
            return Err("Search query cannot be empty".to_string());
        }
        let posts = match self.scan_posts() {
            Ok(posts) => posts,
            Err(m) => {
                return Err(m);
            },
        };
        let matching = keep_mentioning(posts, query);
        let first = keep_first(matching, limit);
        let sorted = sort_newest_first(first);
        proof {
            let look = |p: Post| p@;
            lemma_filter_maps(
                posts@,
                look,
                content_mentions::<Post>(query@),
                view_mentions(query@),
            );
            lemma_page_maps(matching@, look, limit as nat, 0);
            lemma_newest_first_maps(first@, look, entry_time::<Post>(), view_time());
        }
        Ok(sorted)
    }

    /// The settings stored under a key: `None` where nothing is stored
    /// there, an error where what is stored does not read as settings or
    /// no document is in use.
    pub fn get_settings(&self, settings_key: &str) -> (r: Result<Option<Settings>, String>)
        ensures
            match self.document() {
                Ok(d) => match content_of(d.entries, entry_id("settings"@, settings_key@)) {
                    None => r matches Ok(None),
                    Some(bytes) => match settings_decoding(bytes) {
                        Some(s) => r matches Ok(Some(x)) && x@ == s,
                        None => r matches Err(t)
                            && "Failed to deserialize settings: "@.is_prefix_of(t@),
                    },
                },
                Err(m) => r matches Err(t) && t@ == m,
            },
    {
        match self.content("settings", settings_key) {
            Ok(Some(content)) => match Settings::decode(content.as_slice()) {
                Ok(settings) => Ok(Some(settings)),
                Err(e) => Err(failure("Failed to deserialize settings: ", &e)),
            },
            Ok(None) => Ok(None),
            Err(m) => Err(m),
        }
    }

    /// Saves settings under a key. Fails, and stores nothing, where no
    /// document is in use, and else exactly where `serde_json` does not write
    /// the settings.
    pub fn save_settings(
        &mut self,
        settings_key: &str,
        settings: &Settings,
    ) -> (r: Result<(), String>)
        ensures
            old(self).document() is Ok ==> (r is Ok <==> settings_write(settings@)),
            final(self).document_id() == old(self).document_id(),
            final(self).peers() == old(self).peers(),
            match old(self).document() {
                Ok(d) => match r {
                    Ok(_) => final(self).docs_view() == put_entry(
                        old(self).docs_view(),
                        d.id,
                        EntryView {
                            id: entry_id("settings"@, settings_key@),
                            namespace: "settings"@,
                            key: settings_key@,
                            content: settings_encoding(settings@),
                        },
                    ),
                    Err(t) => "Failed to serialize settings: "@.is_prefix_of(t@)
                        && final(self).docs_view() == old(self).docs_view(),
                },
                Err(m) => r matches Err(t) && t@ == m && final(self).docs_view() == old(
                    self,
                ).docs_view(),
            },
    {
        match self.current() {
            Ok(_) => {},
            Err(m) => {
                return Err(m);
            },
        }
        let bytes = match settings.encode() {
            Ok(bytes) => bytes,
            Err(e) => {
                return Err(failure("Failed to serialize settings: ", &e));
            },
        };
        self.put("settings", settings_key, bytes.as_slice())
    }

    /// Synchronises the document in use with its peers and takes stock of
    /// its entries.
    pub fn sync_with_peers(&mut self) -> (r: Result<(), String>)
        ensures
            final(self).docs_view() == old(self).docs_view(),
            final(self).document_id() == old(self).document_id(),
            final(self).peers() == old(self).peers(),
            match old(self).document() {
                Ok(d) => r is Ok && final(self).known() == text_set(entry_ids(d.entries)),
                Err(m) => r matches Err(t) && t@ == m && final(self).known() == old(self).known(),
            },
    {
        let mut manager = None;
        std::mem::swap(&mut manager, &mut self.sync_manager);
        match manager {
            Some(mut m) => {
                let r = m.sync_with_peers(&self.docs);
                self.sync_manager = Some(m);
                r
            },
            None => Err("Sync manager not initialized".to_string()),
        }
    }

    /// Adds a peer to the document in use.
    pub fn add_peer(&mut self, peer_id: &str) -> (r: Result<(), String>)
        ensures
            final(self).docs_view() == old(self).docs_view(),
            final(self).document_id() == old(self).document_id(),
            final(self).known() == old(self).known(),
            match old(self).document_id() {
                Some(_) => r is Ok && final(self).peers() == old(self).peers().insert(peer_id@),
                None => r matches Err(t) && t@ == uninitialized_message() && final(self).peers()
                    == old(self).peers(),
            },
    {
        let mut manager = None;
        std::mem::swap(&mut manager, &mut self.sync_manager);
        match manager {
            Some(mut m) => {
                m.add_peer(peer_id);
                self.sync_manager = Some(m);
                Ok(())
            },
            None => Err("Sync manager not initialized".to_string()),
        }
    }

    /// Removes a peer from the document in use.
    pub fn remove_peer(&mut self, peer_id: &str) -> (r: Result<(), String>)
        ensures
            final(self).docs_view() == old(self).docs_view(),
            final(self).document_id() == old(self).document_id(),
            final(self).known() == old(self).known(),
            match old(self).document_id() {
                Some(_) => r is Ok && final(self).peers() == old(self).peers().remove(peer_id@),
                None => r matches Err(t) && t@ == uninitialized_message() && final(self).peers()
                    == old(self).peers(),
            },
    {
        let mut manager = None;
        std::mem::swap(&mut manager, &mut self.sync_manager);
        match manager {
            Some(mut m) => {
                m.remove_peer(peer_id);
                self.sync_manager = Some(m);
                Ok(())
            },
            None => Err("Sync manager not initialized".to_string()),
        }
    }

    /// The peers of the document in use, each once.
    pub fn get_active_peers(&self) -> (r: Vec<String>)
        ensures
            text_set(r.deep_view()) == self.peers(),
    {
        match &self.sync_manager {
            Some(m) => m.get_active_peers(),
            None => {
                let r: Vec<String> = Vec::new();
                assert(r.deep_view() =~= Seq::<Seq<char>>::empty());
                assert(text_set(r.deep_view()) =~= Set::<Seq<char>>::empty());
                r
            },
        }
    }
}

/// The message of a failure: what failed, then the detail of the error.
fn failure(what: &str, e: &StorageError) -> (r: String)
    ensures
        r@ == what@ + e.detail(),
{
    match e {
        StorageError::IrohInitialization(m) => join(what, m.as_str()),
        StorageError::Docs(m) => join(what, m.as_str()),
        StorageError::Blobs(m) => join(what, m.as_str()),
        StorageError::Gossip(m) => join(what, m.as_str()),
        StorageError::Serialization(m) => join(what, m.as_str()),
        StorageError::NotFound(m) => join(what, m.as_str()),
        StorageError::ContentMissing(m) => join(what, m.as_str()),
        StorageError::InvalidKey(m) => join(what, m.as_str()),
        StorageError::Io(m) => join(what, m.as_str()),
        StorageError::Validation(m) => join(what, m.as_str()),
        StorageError::Timeout => {
            proof {
                reveal_strlit("");
                assert(what@ + ""@ =~= what@ + Seq::<char>::empty());
            }
            join(what, "")
        },
        StorageError::Internal(m) => join(what, m.as_str()),
    }
}

/// The contents of a list of entries.
pub fn contents_of(entries: &Vec<Entry>) -> (r: Vec<Vec<u8>>)
    ensures
        r.deep_view() == entry_views(entries@).map_values(|e: EntryView| e.content),
{
    let ghost views = entry_views(entries@);
    let mut out: Vec<Vec<u8>> = Vec::new();
    let mut i: usize = 0;
    while i < entries.len()
        invariant
            i <= entries.len(),
            views == entry_views(entries@),
            out.deep_view() == views.map_values(|e: EntryView| e.content).subrange(0, i as int),
        decreases entries.len() - i,
    {
        let ghost before = out.deep_view();
        let c = copy_bytes(entries[i].content());
        assert(c.deep_view() =~= c@);
        out.push(c);
        assert(out.deep_view() =~= before.push(views[i as int].content));
        assert(out.deep_view() =~= views.map_values(|e: EntryView| e.content).subrange(0, i + 1));
        i += 1;
    }
    assert(out.deep_view() =~= views.map_values(|e: EntryView| e.content));
    out
}

} // verus!

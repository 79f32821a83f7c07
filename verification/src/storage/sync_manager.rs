//! Keeps one document in step with a set of peers.

use crate::storage::change_tracker::{entry_ids, has_unknown, ChangeTracker};
use crate::storage::clock::{elapsed, longer, nanos_of, now};
use crate::storage::docs::{doc_position, not_found_message, Docs};
use crate::storage::models::Doc;
use crate::storage::text_set::{text_set, TextSet};
use vstd::prelude::*;

verus! {

/// Manages the synchronisation of one document with the active peers.
#[derive(Debug)]
pub struct SyncManager {
    change_tracker: ChangeTracker,
    active_peers: TextSet,
    running: bool,
    last_sync_attempt: std::time::Instant,
    doc_id: String,
}

/// Whether a synchronisation is due: the document has changed, or more
/// time has passed since the last attempt than the shortest interval.
pub open spec fn due(
    changed: bool,
    waited: std::time::Duration,
    min_interval: std::time::Duration,
) -> bool {
    changed || nanos_of(waited) > nanos_of(min_interval)
}

/// Whether a synchronisation is due.
pub fn sync_due(
    changed: bool,
    waited: &std::time::Duration,
    min_interval: &std::time::Duration,
) -> (r: bool)
    ensures
        r == due(changed, *waited, *min_interval),
{
    changed || longer(waited, min_interval)
}

impl SyncManager {
    /// The peers that the document is synchronised with.
    pub closed spec fn peers(&self) -> Set<Seq<char>> {
        self.active_peers@
    }

    /// The identifiers of the entries that were there at the last
    /// synchronisation.
    pub closed spec fn known(&self) -> Set<Seq<char>> {
        self.change_tracker.known()
    }

    /// The identifier of the document.
    pub closed spec fn spec_doc_id(&self) -> Seq<char> {
        self.doc_id@
    }

    /// A manager for the document `doc_id`, without peers and without
    /// knowledge of any entry.
    pub fn new(doc_id: String) -> (r: Self)
        ensures
            r.spec_doc_id() == doc_id@,
            r.peers() == Set::<Seq<char>>::empty(),
            r.known() == Set::<Seq<char>>::empty(),
    {
        SyncManager {
            change_tracker: ChangeTracker::new(),
            active_peers: TextSet::new(),
            running: false,
            last_sync_attempt: now(),
            doc_id,
        }
    }

    /// The identifier of the document.
    pub fn doc_id(&self) -> (r: &str)
        ensures
            r@ == self.spec_doc_id(),
    {
        self.doc_id.as_str()
    }

    /// Adds a peer. Adding a peer that is there changes nothing.
    pub fn add_peer(&mut self, peer_id: &str)
        ensures
            final(self).peers() == old(self).peers().insert(peer_id@),
            final(self).known() == old(self).known(),
            final(self).spec_doc_id() == old(self).spec_doc_id(),
    {
        self.active_peers.insert(peer_id);
    }

    /// Removes a peer. Removing a peer that is not there changes nothing.
    pub fn remove_peer(&mut self, peer_id: &str)
        ensures
            final(self).peers() == old(self).peers().remove(peer_id@),
            final(self).known() == old(self).known(),
            final(self).spec_doc_id() == old(self).spec_doc_id(),
    {
        self.active_peers.remove(peer_id);
    }

    /// The active peers, each once.
    pub fn get_active_peers(&self) -> (r: Vec<String>)
        ensures
            text_set(r.deep_view()) == self.peers(),
            r.deep_view().no_duplicates(),
    {
        self.active_peers.to_vec()
    }

    /// A copy of the managed document as `docs` holds it; an error that
    /// names the document if `docs` does not hold it.
    pub fn get_document(&self, docs: &Docs) -> (r: Result<Doc, String>)
        ensures
            match r {
                Ok(d) => doc_position(docs@, self.spec_doc_id()) < docs@.len() && d@
                    == docs@[doc_position(docs@, self.spec_doc_id())] && d@.id
                    == self.spec_doc_id(),
                Err(m) => doc_position(docs@, self.spec_doc_id()) == docs@.len() && m@
                    == not_found_message(self.spec_doc_id()),
            },
    {
        docs.get(self.doc_id.as_str())
    }

    /// Synchronises the document with every active peer and takes stock of
    /// its entries. Fails, and changes nothing, if `docs` does not hold the
    /// document.
    pub fn sync_with_peers(&mut self, docs: &Docs) -> (r: Result<(), String>)
        ensures
            final(self).peers() == old(self).peers(),
            final(self).spec_doc_id() == old(self).spec_doc_id(),
            match r {
                Ok(_) => doc_position(docs@, old(self).spec_doc_id()) < docs@.len()
                    && final(self).known() == text_set(
                    entry_ids(docs@[doc_position(docs@, old(self).spec_doc_id())].entries),
                ),
                Err(m) => doc_position(docs@, old(self).spec_doc_id()) == docs@.len() && m@
                    == not_found_message(old(self).spec_doc_id()) && final(self).known() == old(
                    self,
                ).known(),
            },
    {
        let doc = match self.get_document(docs) {
            Ok(doc) => doc,
            Err(m) => {
                return Err(m);
            },
        };
        let peers = self.active_peers.to_vec();
        let mut i: usize = 0;
        while i < peers.len()
            invariant
                i <= peers.len(),
            decreases peers.len() - i,
        {
            match docs.sync_doc(&doc, peers[i].as_str()) {
                Ok(_) => {},
                Err(m) => {
                    return Err(m);
                },
            }
            i += 1;
        }
        self.change_tracker.update_known_entries(&doc);
        self.last_sync_attempt = now();
        Ok(())
    }

    /// Whether the document holds an entry that was not there at the last
    /// synchronisation. Fails if `docs` does not hold the document.
    pub fn has_changes(&self, docs: &Docs) -> (r: Result<bool, String>)
        ensures
            match r {
                Ok(b) => doc_position(docs@, self.spec_doc_id()) < docs@.len() && b == has_unknown(
                    docs@[doc_position(docs@, self.spec_doc_id())].entries,
                    self.known(),
                ),
                Err(m) => doc_position(docs@, self.spec_doc_id()) == docs@.len() && m@
                    == not_found_message(self.spec_doc_id()),
            },
    {
        match self.get_document(docs) {
            Ok(doc) => Ok(self.change_tracker.has_new_changes(&doc)),
            Err(m) => Err(m),
        }
    }

    /// Takes stock of the entries of the document. Fails, and changes
    /// nothing, if `docs` does not hold the document.
    pub fn update_known_entries(&mut self, docs: &Docs) -> (r: Result<(), String>)
        ensures
            final(self).peers() == old(self).peers(),
            final(self).spec_doc_id() == old(self).spec_doc_id(),
            match r {
                Ok(_) => doc_position(docs@, old(self).spec_doc_id()) < docs@.len()
                    && final(self).known() == text_set(
                    entry_ids(docs@[doc_position(docs@, old(self).spec_doc_id())].entries),
                ),
                Err(m) => doc_position(docs@, old(self).spec_doc_id()) == docs@.len() && m@
                    == not_found_message(old(self).spec_doc_id()) && final(self).known() == old(
                    self,
                ).known(),
            },
    {
        match self.get_document(docs) {
            Ok(doc) => {
                self.change_tracker.update_known_entries(&doc);
                Ok(())
            },
            Err(m) => Err(m),
        }
    }

    /// How long ago the last synchronisation was attempted.
    pub fn time_since_last_sync_attempt(&self) -> std::time::Duration {
        elapsed(&self.last_sync_attempt)
    }

    /// Whether a synchronisation is due: always when the document has
    /// changed, and otherwise when the last attempt is longer ago than
    /// `min_interval`, which the clock decides. Fails if `docs` does not
    /// hold the document.
    pub fn should_sync(
        &self,
        docs: &Docs,
        min_interval: std::time::Duration,
    ) -> (r: Result<bool, String>)
        ensures
            match r {
                Ok(b) => doc_position(docs@, self.spec_doc_id()) < docs@.len() && (has_unknown(
                    docs@[doc_position(docs@, self.spec_doc_id())].entries,
                    self.known(),
                ) ==> b),
                Err(m) => doc_position(docs@, self.spec_doc_id()) == docs@.len() && m@
                    == not_found_message(self.spec_doc_id()),
            },
    {
        match self.has_changes(docs) {
            Ok(changed) => {
                let waited = self.time_since_last_sync_attempt();
                Ok(sync_due(changed, &waited, &min_interval))
            },
            Err(m) => Err(m),
        }
    }
}

} // verus!

//! Tracks which entries of a document are already known.

use crate::storage::clock::{elapsed, now};
use crate::storage::models::{entry_views, Doc, EntryView};
use crate::storage::text_set::{text_set, TextSet};
use vstd::prelude::*;

verus! {

/// The identifiers of a list of entries.
pub open spec fn entry_ids(entries: Seq<EntryView>) -> Seq<Seq<char>> {
    entries.map_values(|e: EntryView| e.id)
}

/// Some entry has an identifier that is not known.
pub open spec fn has_unknown(entries: Seq<EntryView>, known: Set<Seq<char>>) -> bool {
    exists|i: int| 0 <= i < entries.len() && !known.contains((#[trigger] entries[i]).id)
}

/// Remembers the identifiers of the entries that were seen, and when they
/// were last taken stock of.
#[derive(Debug)]
pub struct ChangeTracker {
    known_entries: TextSet,
    last_update: std::time::Instant,
}

impl ChangeTracker {
    /// The identifiers that are known.
    pub closed spec fn known(&self) -> Set<Seq<char>> {
        self.known_entries@
    }

    /// A tracker that knows no entry.
    pub fn new() -> (r: Self)
        ensures
            r.known() == Set::<Seq<char>>::empty(),
    {
        ChangeTracker { known_entries: TextSet::new(), last_update: now() }
    }

    /// A tracker that knows the given identifiers.
    pub fn with_entries(entries: Vec<String>) -> (r: Self)
        ensures
            r.known() == text_set(entries.deep_view()),
    {
        ChangeTracker { known_entries: TextSet::from_vec(&entries), last_update: now() }
    }

    /// Whether the document holds an entry that is not known.
    pub fn has_new_changes(&self, doc: &Doc) -> (r: bool)
        ensures
            r == has_unknown(doc@.entries, self.known()),
    {
        let entries = match doc.list_entries() {
            Ok(entries) => entries,
            Err(_) => Vec::new(),
        };
        let ghost views = entry_views(entries@);
        let mut i: usize = 0;
        while i < entries.len()
            invariant
                i <= entries.len(),
                views == entry_views(entries@),
                views == doc@.entries,
                forall|k: int| 0 <= k < i ==> self.known().contains((#[trigger] views[k]).id),
            decreases entries.len() - i,
        {
            if !self.known_entries.contains(entries[i].id()) {
                assert(!self.known().contains(views[i as int].id));
                return true;
            }
            i += 1;
        }
        false
    }

    /// Takes stock: the known identifiers are now those of the entries of
    /// the document.
    pub fn update_known_entries(&mut self, doc: &Doc)
        ensures
            final(self).known() == text_set(entry_ids(doc@.entries)),
    {
        let entries = match doc.list_entries() {
            Ok(entries) => entries,
            Err(_) => Vec::new(),
        };
        let ghost views = entry_views(entries@);
        let mut ids: Vec<String> = Vec::new();
        let mut i: usize = 0;
        while i < entries.len()
            invariant
                i <= entries.len(),
                views == entry_views(entries@),
                ids.deep_view() == entry_ids(views).subrange(0, i as int),
            decreases entries.len() - i,
        {
            let ghost before = ids.deep_view();
            let id = entries[i].id().to_string();
            ids.push(id);
            assert(ids.deep_view() =~= before.push(views[i as int].id));
            assert(ids.deep_view() =~= entry_ids(views).subrange(0, i + 1));
            i += 1;
        }
        assert(ids.deep_view() =~= entry_ids(views));
        self.known_entries = TextSet::from_vec(&ids);
        self.last_update = now();
    }

    /// How long ago stock was last taken.
    pub fn time_since_last_update(&self) -> std::time::Duration {
        elapsed(&self.last_update)
    }

    /// The known identifiers, each once.
    pub fn get_known_entries(&self) -> (r: Vec<String>)
        ensures
            text_set(r.deep_view()) == self.known(),
            r.deep_view().no_duplicates(),
    {
        self.known_entries.to_vec()
    }
}

} // verus!

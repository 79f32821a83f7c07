//! Documents held in memory: named entries with their content.

use crate::storage::text::{join, same_text, starts_with_text};
use vstd::prelude::*;
use vstd::string::*;

verus! {

/// One entry of a document: content under a key of a namespace.
#[derive(Debug, PartialEq, Eq)]
pub struct Entry {
    pub(crate) id: String,
    pub(crate) namespace: String,
    pub(crate) key: String,
    pub(crate) content: Vec<u8>,
}

/// What an entry holds, as mathematical values.
pub struct EntryView {
    pub id: Seq<char>,
    pub namespace: Seq<char>,
    pub key: Seq<char>,
    pub content: Seq<u8>,
}

/// The identifier of the entry at `key` of `namespace`: the two joined by a
/// colon.
pub open spec fn entry_id(namespace: Seq<char>, key: Seq<char>) -> Seq<char> {
    namespace + ":"@ + key
}

/// The identifier of an entry is that of its namespace and key.
pub open spec fn well_named(e: EntryView) -> bool {
    e.id == entry_id(e.namespace, e.key)
}

/// Every entry has the identifier of its namespace and key.
pub open spec fn all_well_named(entries: Seq<EntryView>) -> bool {
    forall|i: int| 0 <= i < entries.len() ==> well_named(#[trigger] entries[i])
}

/// The views of a list of entries.
pub open spec fn entry_views(entries: Seq<Entry>) -> Seq<EntryView> {
    entries.map_values(|e: Entry| e@)
}

/// No two entries share an identifier.
pub open spec fn distinct_ids(entries: Seq<EntryView>) -> bool {
    forall|i: int, j: int|
        0 <= i < j < entries.len() ==> (#[trigger] entries[i]).id != (#[trigger] entries[j]).id
}

/// The index of the first entry with the identifier, or the number of
/// entries if there is none.
pub open spec fn position(entries: Seq<EntryView>, id: Seq<char>) -> int
    decreases entries.len(),
{
    if entries.len() == 0 || entries[0].id == id {
        0
    } else {
        1 + position(entries.drop_first(), id)
    }
}

/// The content stored under an identifier, if any.
pub open spec fn content_of(entries: Seq<EntryView>, id: Seq<char>) -> Option<Seq<u8>> {
    let p = position(entries, id);
    if p < entries.len() {
        Some(entries[p].content)
    } else {
        None
    }
}

/// The entries after `e` was stored: `e` stands where an entry of its
/// identifier stood, or at the end if none did.
pub open spec fn put(entries: Seq<EntryView>, e: EntryView) -> Seq<EntryView> {
    let p = position(entries, e.id);
    if p < entries.len() {
        entries.update(p, e)
    } else {
        entries.push(e)
    }
}

/// Whether an entry is of a namespace and its key begins with a prefix.
pub open spec fn under_prefix(
    namespace: Seq<char>,
    prefix: Seq<char>,
) -> spec_fn(EntryView) -> bool {
    |e: EntryView| e.namespace == namespace && prefix.is_prefix_of(e.key)
}

/// A position is within the list or just behind it; the entry there has
/// the identifier and no entry before it has.
pub proof fn lemma_position(entries: Seq<EntryView>, id: Seq<char>)
    ensures
        0 <= position(entries, id) <= entries.len(),
        position(entries, id) < entries.len() ==> entries[position(entries, id)].id == id,
        forall|k: int| 0 <= k < position(entries, id) ==> (#[trigger] entries[k]).id != id,
    decreases entries.len(),
{
    if entries.len() == 0 || entries[0].id == id {
    } else {
        let rest = entries.drop_first();
        lemma_position(rest, id);
        assert forall|k: int| 0 <= k < position(entries, id) implies (#[trigger] entries[k]).id
            != id by {
            if k > 0 {
                assert(entries[k] == rest[k - 1]);
            }
        }
        if position(rest, id) < rest.len() {
            assert(entries[position(rest, id) + 1] == rest[position(rest, id)]);
        }
    }
}

/// Where the entry at index `i` has the identifier and none before it has,
/// `i` is the position of the identifier.
pub proof fn lemma_position_is(entries: Seq<EntryView>, id: Seq<char>, i: int)
    requires
        0 <= i <= entries.len(),
        i < entries.len() ==> entries[i].id == id,
        forall|k: int| 0 <= k < i ==> (#[trigger] entries[k]).id != id,
    ensures
        position(entries, id) == i,
{
    lemma_position(entries, id);
    let p = position(entries, id);
    if p < i {
        assert(entries[p].id != id);
    }
}

/// Storing an entry keeps the identifiers distinct.
pub proof fn lemma_put_distinct(entries: Seq<EntryView>, e: EntryView)
    requires
        distinct_ids(entries),
    ensures
        distinct_ids(put(entries, e)),
{
    lemma_position(entries, e.id);
    let p = position(entries, e.id);
    let after = put(entries, e);
    assert forall|i: int, j: int| 0 <= i < j < after.len() implies (#[trigger] after[i]).id != (
    #[trigger] after[j]).id by {
        if p < entries.len() {
            if i != p {
                assert(after[i] == entries[i]);
            }
            if j != p {
                assert(after[j] == entries[j]);
            }
            assert(entries[i].id != entries[j].id);
        } else {
            if j < entries.len() {
                assert(after[i] == entries[i] && after[j] == entries[j]);
            } else {
                assert(after[i] == entries[i]);
            }
        }
    }
}

/// What was stored under an identifier is what is found there afterwards.
pub proof fn lemma_put_then_get(entries: Seq<EntryView>, e: EntryView)
    ensures
        content_of(put(entries, e), e.id) == Some(e.content),
{
    lemma_position(entries, e.id);
    let p = position(entries, e.id);
    let after = put(entries, e);
    assert forall|k: int| 0 <= k < p implies (#[trigger] after[k]).id != e.id by {
        assert(after[k] == entries[k]);
    }
    lemma_position_is(after, e.id, p);
}

/// Storing under one identifier changes nothing under another.
pub proof fn lemma_put_keeps_others(entries: Seq<EntryView>, e: EntryView, id: Seq<char>)
    requires
        id != e.id,
    ensures
        content_of(put(entries, e), id) == content_of(entries, id),
{
    lemma_position(entries, e.id);
    lemma_position(entries, id);
    let p = position(entries, e.id);
    let q = position(entries, id);
    let after = put(entries, e);
    if q < entries.len() {
        assert(after[q] == entries[q]);
        assert forall|k: int| 0 <= k < q implies (#[trigger] after[k]).id != id by {
            if k != p {
                assert(after[k] == entries[k]);
            }
        }
        lemma_position_is(after, id, q);
    } else {
        assert forall|k: int| 0 <= k < after.len() implies (#[trigger] after[k]).id != id by {
            if k != p && k < entries.len() {
                assert(after[k] == entries[k]);
            }
        }
        lemma_position_is(after, id, after.len() as int);
    }
}

impl View for Entry {
    type V = EntryView;

    closed spec fn view(&self) -> EntryView {
        EntryView {
            id: self.id@,
            namespace: self.namespace@,
            key: self.key@,
            content: self.content@,
        }
    }
}

/// A copy of some bytes.
pub fn copy_bytes(bytes: &[u8]) -> (r: Vec<u8>)
    ensures
        r@ == bytes@,
{
    let mut out: Vec<u8> = Vec::new();
    let mut i: usize = 0;
    while i < bytes.len()
        invariant
            i <= bytes.len(),
            out@ == bytes@.subrange(0, i as int),
        decreases bytes.len() - i,
    {
        out.push(bytes[i]);
        assert(out@ =~= bytes@.subrange(0, i + 1));
        i += 1;
    }
    assert(out@ =~= bytes@);
    out
}

impl Entry {
    #[verifier::type_invariant]
    spec fn named(&self) -> bool {
        self.id@ == entry_id(self.namespace@, self.key@)
    }

    /// The entry at `key` of `namespace` with the given content.
    pub fn new(namespace: &str, key: &str, content: &[u8]) -> (r: Self)
        ensures
            r@ == (EntryView {
                id: entry_id(namespace@, key@),
                namespace: namespace@,
                key: key@,
                content: content@,
            }),
    {
        let mut id = join(namespace, ":");
        id.append(key);
        Entry {
            id,
            namespace: namespace.to_string(),
            key: key.to_string(),
            content: copy_bytes(content),
        }
    }

    /// The identifier of the entry: its namespace, a colon and its key.
    pub fn id(&self) -> (r: &str)
        ensures
            r@ == self@.id,
            well_named(self@),
    {
        proof {
            use_type_invariant(self);
        }
        self.id.as_str()
    }

    /// The namespace of the entry.
    pub fn namespace(&self) -> (r: &str)
        ensures
            r@ == self@.namespace,
    {
        self.namespace.as_str()
    }

    /// The key of the entry.
    pub fn key(&self) -> (r: &str)
        ensures
            r@ == self@.key,
    {
        self.key.as_str()
    }

    /// The content of the entry.
    pub fn content(&self) -> (r: &[u8])
        ensures
            r@ == self@.content,
    {
        self.content.as_slice()
    }
}

impl Clone for Entry {
    fn clone(&self) -> (r: Entry)
        ensures
            r@ == self@,
    {
        proof {
            use_type_invariant(self);
        }
        Entry {
            id: self.id.clone(),
            namespace: self.namespace.clone(),
            key: self.key.clone(),
            content: copy_bytes(self.content.as_slice()),
        }
    }
}

/// A document: entries, at most one for each identifier.
#[derive(Debug)]
pub struct Doc {
    pub(crate) id: String,
    pub(crate) entries: Vec<Entry>,
}

/// What a document holds, as mathematical values.
pub struct DocView {
    pub id: Seq<char>,
    pub entries: Seq<EntryView>,
}

impl View for Doc {
    type V = DocView;

    closed spec fn view(&self) -> DocView {
        DocView { id: self.id@, entries: entry_views(self.entries@) }
    }
}

impl Doc {
    #[verifier::type_invariant]
    spec fn well_formed(&self) -> bool {
        distinct_ids(entry_views(self.entries@)) && all_well_named(entry_views(self.entries@))
    }

    /// An empty document.
    pub fn new(id: &str) -> (r: Self)
        ensures
            r@.id == id@,
            r@.entries == Seq::<EntryView>::empty(),
    {
        let r = Doc { id: id.to_string(), entries: Vec::new() };
        assert(entry_views(r.entries@) =~= Seq::<EntryView>::empty());
        r
    }

    /// The identifier of the document.
    pub fn id(&self) -> (r: &str)
        ensures
            r@ == self@.id,
    {
        self.id.as_str()
    }

    /// The index of the entry with the identifier, or the number of entries
    /// if there is none.
    fn find(&self, id: &str) -> (r: usize)
        ensures
            r == position(self@.entries, id@),
            r <= self.entries.len(),
    {
        let ghost views = entry_views(self.entries@);
        let mut i: usize = 0;
        while i < self.entries.len()
            invariant
                i <= self.entries.len(),
                views == entry_views(self.entries@),
                forall|k: int| 0 <= k < i ==> (#[trigger] views[k]).id != id@,
            decreases self.entries.len() - i,
        {
            if same_text(self.entries[i].id(), id) {
                proof {
                    lemma_position_is(views, id@, i as int);
                }
                return i;
            }
            i += 1;
        }
        proof {
            lemma_position_is(views, id@, i as int);
        }
        i
    }

    /// Every entry of the document. The identifiers of the entries differ
    /// from one another, and each is that of the entry's namespace and key.
    pub fn list_entries(&self) -> (r: Result<Vec<Entry>, String>)
        ensures
            r matches Ok(v) && entry_views(v@) == self@.entries,
            distinct_ids(self@.entries),
            all_well_named(self@.entries),
    {
        proof {
            use_type_invariant(self);
        }
        let mut out: Vec<Entry> = Vec::new();
        let mut i: usize = 0;
        while i < self.entries.len()
            invariant
                i <= self.entries.len(),
                entry_views(out@) == entry_views(self.entries@).subrange(0, i as int),
            decreases self.entries.len() - i,
        {
            let ghost copied = entry_views(out@);
            let e = self.entries[i].clone();
            out.push(e);
            assert(entry_views(out@) =~= copied.push(e@));
            assert(entry_views(out@) =~= entry_views(self.entries@).subrange(0, i + 1));
            i += 1;
        }
        assert(entry_views(out@) =~= entry_views(self.entries@));
        Ok(out)
    }

    /// The entries of a namespace whose key begins with a prefix, in the
    /// order in which the document holds them.
    pub fn list_entries_by_prefix(
        &self,
        namespace: &str,
        key_prefix: &str,
    ) -> (r: Result<Vec<Entry>, String>)
        ensures
            r matches Ok(v) && entry_views(v@) == self@.entries.filter(
                under_prefix(namespace@, key_prefix@),
            ),
    {
        let ghost pred = under_prefix(namespace@, key_prefix@);
        let ghost views = entry_views(self.entries@);
        let mut out: Vec<Entry> = Vec::new();
        let mut i: usize = 0;
        proof {
            assert(views.subrange(0, 0) =~= Seq::<EntryView>::empty());
            reveal_with_fuel(Seq::filter, 1);
        }
        while i < self.entries.len()
            invariant
                i <= self.entries.len(),
                views == entry_views(self.entries@),
                pred == under_prefix(namespace@, key_prefix@),
                entry_views(out@) == views.subrange(0, i as int).filter(pred),
            decreases self.entries.len() - i,
        {
            let e = &self.entries[i];
            let keep = same_text(e.namespace(), namespace) && starts_with_text(
                e.key(),
                key_prefix,
            );
            proof {
                let before = views.subrange(0, i as int);
                assert(views.subrange(0, i + 1) =~= before.push(views[i as int]));
                before.lemma_filter_push(views[i as int], pred);
            }
            if keep {
                let ghost old_out = entry_views(out@);
                out.push(e.clone());
                assert(entry_views(out@) =~= old_out.push(views[i as int]));
            }
            i += 1;
        }
        assert(views.subrange(0, views.len() as int) =~= views);
        Ok(out)
    }

    /// Stores content under a key of a namespace, in place of what the
    /// entry of that identifier held.
    pub fn set_bytes(
        &mut self,
        namespace: &str,
        key: &str,
        content: &[u8],
    ) -> (r: Result<(), String>)
        ensures
            r is Ok,
            final(self)@.id == old(self)@.id,
            final(self)@.entries == put(
                old(self)@.entries,
                EntryView {
                    id: entry_id(namespace@, key@),
                    namespace: namespace@,
                    key: key@,
                    content: content@,
                },
            ),
    {
        proof {
            use_type_invariant(&*self);
        }
        let entry = Entry::new(namespace, key, content);
        let at = self.find(entry.id());
        let ghost before = entry_views(self.entries@);
        let mut entries: Vec<Entry> = Vec::new();
        std::mem::swap(&mut entries, &mut self.entries);
        proof {
            lemma_put_distinct(before, entry@);
        }
        if at < entries.len() {
            entries.remove(at);
            entries.insert(at, entry);
            assert(entry_views(entries@) =~= put(before, entry@));
        } else {
            entries.push(entry);
            assert(entry_views(entries@) =~= put(before, entry@));
        }
        self.entries = entries;
        Ok(())
    }

    /// The content under a key of a namespace, if the document has an entry
    /// there.
    pub fn get_content(&self, namespace: &str, key: &str) -> (r: Result<Option<Vec<u8>>, String>)
        ensures
            r matches Ok(c) && bytes_view(c) == content_of(
                self@.entries,
                entry_id(namespace@, key@),
            ),
    {
        let mut id = join(namespace, ":");
        id.append(key);
        Ok(self.content_at(id.as_str()))
    }

    /// The content that the document holds under the identifier of an
    /// entry, that is, under the namespace and key of the entry, if it has
    /// an entry there.
    pub fn get_content_by_entry(&self, entry: &Entry) -> (r: Result<Option<Vec<u8>>, String>)
        ensures
            r matches Ok(c) && bytes_view(c) == content_of(self@.entries, entry@.id),
            well_named(entry@),
    {
        Ok(self.content_at(entry.id()))
    }

    fn content_at(&self, id: &str) -> (r: Option<Vec<u8>>)
        ensures
            bytes_view(r) == content_of(self@.entries, id@),
    {
        let at = self.find(id);
        if at < self.entries.len() {
            Some(copy_bytes(self.entries[at].content()))
        } else {
            None
        }
    }
}

/// The view of optional bytes.
pub open spec fn bytes_view(b: Option<Vec<u8>>) -> Option<Seq<u8>> {
    match b {
        Some(v) => Some(v@),
        None => None,
    }
}

impl Clone for Doc {
    fn clone(&self) -> (r: Doc)
        ensures
            r@ == self@,
    {
        proof {
            use_type_invariant(self);
        }
        let mut out: Vec<Entry> = Vec::new();
        let mut i: usize = 0;
        while i < self.entries.len()
            invariant
                i <= self.entries.len(),
                entry_views(out@) == entry_views(self.entries@).subrange(0, i as int),
            decreases self.entries.len() - i,
        {
            let ghost copied = entry_views(out@);
            let e = self.entries[i].clone();
            out.push(e);
            assert(entry_views(out@) =~= copied.push(e@));
            assert(entry_views(out@) =~= entry_views(self.entries@).subrange(0, i + 1));
            i += 1;
        }
        assert(entry_views(out@) =~= entry_views(self.entries@));
        Doc { id: self.id.clone(), entries: out }
    }
}

} // verus!

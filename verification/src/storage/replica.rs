//! One namespace of the document store, held in memory.
//!
//! A replica keeps the latest entry for each key and the contents it has at
//! hand, by their hash. An entry can be there without its content: that is
//! how an entry looks that came from a peer before its content did.

use crate::storage::hash::{blake3_digest, digest};
use crate::storage::models::{bytes_view, copy_bytes};
use crate::storage::text::{
    bytes_start_with, first_index, lemma_first_index, lemma_first_index_is, same_bytes,
};
use vstd::prelude::*;

verus! {

/// One versioned write: who wrote what under which key, and when.
#[derive(Debug, PartialEq, Eq)]
pub struct EntryInfo {
    pub key: Vec<u8>,
    /// The writer, in the text form of its identity.
    pub author: String,
    pub content_hash: Vec<u8>,
    pub content_len: u64,
    /// The logical time of the write, as the store gave it.
    pub timestamp: u64,
}

/// What an entry holds, as mathematical values.
pub struct EntryInfoView {
    pub key: Seq<u8>,
    pub author: Seq<char>,
    pub content_hash: Seq<u8>,
    pub content_len: u64,
    pub timestamp: u64,
}

impl View for EntryInfo {
    type V = EntryInfoView;

    open spec fn view(&self) -> EntryInfoView {
        EntryInfoView {
            key: self.key@,
            author: self.author@,
            content_hash: self.content_hash@,
            content_len: self.content_len,
            timestamp: self.timestamp,
        }
    }
}

impl Clone for EntryInfo {
    fn clone(&self) -> (r: EntryInfo)
        ensures
            r@ == self@,
    {
        EntryInfo {
            key: copy_bytes(self.key.as_slice()),
            author: self.author.clone(),
            content_hash: copy_bytes(self.content_hash.as_slice()),
            content_len: self.content_len,
            timestamp: self.timestamp,
        }
    }
}

impl EntryInfo {
    /// Whether the entry marks its key as deleted: it has no content.
    pub fn is_tombstone(&self) -> (r: bool)
        ensures
            r == is_tombstone(self@),
    {
        self.content_len == 0
    }
}

/// An entry without content is a tombstone: its key counts as deleted.
pub open spec fn is_tombstone(e: EntryInfoView) -> bool {
    e.content_len == 0
}

/// A content at hand, under its hash.
#[derive(Debug, PartialEq, Eq)]
pub struct Blob {
    pub hash: Vec<u8>,
    pub content: Vec<u8>,
}

/// What a replica holds, as mathematical values.
pub struct ReplicaView {
    /// The latest entry of each key, in the order in which the keys were
    /// first written.
    pub entries: Seq<EntryInfoView>,
    /// The contents at hand, by their hash.
    pub blobs: Map<Seq<u8>, Seq<u8>>,
    /// The logical time of the next write.
    pub clock: u64,
}

/// The views of a list of entries.
pub open spec fn info_views(entries: Seq<EntryInfo>) -> Seq<EntryInfoView> {
    entries.map_values(|e: EntryInfo| e@)
}

/// The keys of a list of entries.
pub open spec fn keys_of(entries: Seq<EntryInfoView>) -> Seq<Seq<u8>> {
    entries.map_values(|e: EntryInfoView| e.key)
}

/// The latest entry of a key, if the key was ever written.
pub open spec fn entry_at(entries: Seq<EntryInfoView>, key: Seq<u8>) -> Option<EntryInfoView> {
    let p = first_index(keys_of(entries), key);
    if p < entries.len() {
        Some(entries[p])
    } else {
        None
    }
}

/// The entries after `e` was applied: `e` stands where the entry of its key
/// stood, or at the end if the key is new.
pub open spec fn with_entry(entries: Seq<EntryInfoView>, e: EntryInfoView) -> Seq<EntryInfoView> {
    let p = first_index(keys_of(entries), e.key);
    if p < entries.len() {
        entries.update(p, e)
    } else {
        entries.push(e)
    }
}

/// Whether the key of an entry begins with a prefix.
pub open spec fn key_under(prefix: Seq<u8>) -> spec_fn(EntryInfoView) -> bool {
    |e: EntryInfoView| prefix.is_prefix_of(e.key)
}

/// The logical time after a write at `clock`.
pub open spec fn tick(clock: u64) -> u64 {
    if clock < u64::MAX {
        (clock + 1) as u64
    } else {
        clock
    }
}

/// The entry that a write of `content` under `key` by `author` makes at
/// logical time `clock`.
pub open spec fn written_entry(
    author: Seq<char>,
    key: Seq<u8>,
    content: Seq<u8>,
    clock: u64,
) -> EntryInfoView {
    EntryInfoView {
        key,
        author,
        content_hash: blake3_digest(content),
        content_len: length_of(content),
        timestamp: clock,
    }
}

/// The length of a content as an entry records it.
pub open spec fn length_of(content: Seq<u8>) -> u64 {
    if content.len() <= u64::MAX {
        content.len() as u64
    } else {
        u64::MAX
    }
}

/// The replica after a write.
pub open spec fn after_write(
    r: ReplicaView,
    author: Seq<char>,
    key: Seq<u8>,
    content: Seq<u8>,
) -> ReplicaView {
    ReplicaView {
        entries: with_entry(r.entries, written_entry(author, key, content, r.clock)),
        blobs: r.blobs.insert(blake3_digest(content), content),
        clock: tick(r.clock),
    }
}

/// Applying an entry keeps the keys distinct.
pub proof fn lemma_with_entry_distinct(entries: Seq<EntryInfoView>, e: EntryInfoView)
    requires
        keys_of(entries).no_duplicates(),
    ensures
        keys_of(with_entry(entries, e)).no_duplicates(),
{
    let keys = keys_of(entries);
    lemma_first_index(keys, e.key);
    let p = first_index(keys, e.key);
    let after = keys_of(with_entry(entries, e));
    if p < entries.len() {
        assert(after =~= keys);
    } else {
        assert(after =~= keys.push(e.key));
        assert forall|i: int, j: int| 0 <= i < after.len() && 0 <= j < after.len() && i
            != j implies after[i] != after[j] by {
            if i < keys.len() && j < keys.len() {
            } else if i < keys.len() {
                assert(keys[i] != e.key);
            } else {
                assert(keys[j] != e.key);
            }
        }
    }
}

/// The entry that was applied is the latest of its key.
pub proof fn lemma_with_entry_then_at(entries: Seq<EntryInfoView>, e: EntryInfoView)
    ensures
        entry_at(with_entry(entries, e), e.key) == Some(e),
{
    let keys = keys_of(entries);
    lemma_first_index(keys, e.key);
    let p = first_index(keys, e.key);
    let after = with_entry(entries, e);
    assert forall|k: int| 0 <= k < p implies #[trigger] keys_of(after)[k] != e.key by {
        assert(keys_of(after)[k] == keys[k]);
    }
    lemma_first_index_is(keys_of(after), e.key, p);
}

/// Applying an entry changes nothing for another key.
pub proof fn lemma_with_entry_keeps_others(
    entries: Seq<EntryInfoView>,
    e: EntryInfoView,
    key: Seq<u8>,
)
    requires
        key != e.key,
    ensures
        entry_at(with_entry(entries, e), key) == entry_at(entries, key),
{
    let keys = keys_of(entries);
    lemma_first_index(keys, e.key);
    lemma_first_index(keys, key);
    let p = first_index(keys, e.key);
    let q = first_index(keys, key);
    let after = with_entry(entries, e);
    let after_keys = keys_of(after);
    if q < entries.len() {
        assert(after[q] == entries[q]);
        assert forall|k: int| 0 <= k < q implies #[trigger] after_keys[k] != key by {
            if k != p {
                assert(after_keys[k] == keys[k]);
            }
        }
        lemma_first_index_is(after_keys, key, q);
    } else {
        assert forall|k: int| 0 <= k < after_keys.len() implies #[trigger] after_keys[k] != key by {
            if k != p && k < keys.len() {
                assert(after_keys[k] == keys[k]);
            }
        }
        lemma_first_index_is(after_keys, key, after_keys.len() as int);
    }
}

/// What holds of every replica: each key has one entry.
pub open spec fn valid(r: ReplicaView) -> bool {
    keys_of(r.entries).no_duplicates()
}

/// One namespace of the document store, held in memory.
#[derive(Debug)]
pub struct Replica {
    entries: Vec<EntryInfo>,
    blobs: Vec<Blob>,
    clock: u64,
}

/// The contents of a list of blobs by their hash, a later blob replacing an
/// earlier one of the same hash.
pub open spec fn blob_map(blobs: Seq<Blob>) -> Map<Seq<u8>, Seq<u8>>
    decreases blobs.len(),
{
    if blobs.len() == 0 {
        Map::empty()
    } else {
        blob_map(blobs.drop_last()).insert(blobs.last().hash@, blobs.last().content@)
    }
}

impl View for Replica {
    type V = ReplicaView;

    closed spec fn view(&self) -> ReplicaView {
        ReplicaView {
            entries: info_views(self.entries@),
            blobs: blob_map(self.blobs@),
            clock: self.clock,
        }
    }
}

impl Replica {
    #[verifier::type_invariant]
    spec fn well_formed(&self) -> bool {
        keys_of(info_views(self.entries@)).no_duplicates()
    }

    /// An empty replica.
    pub fn new() -> (r: Self)
        ensures
            r@ == (ReplicaView { entries: Seq::empty(), blobs: Map::empty(), clock: 0 }),
    {
        let r = Replica { entries: Vec::new(), blobs: Vec::new(), clock: 0 };
        assert(info_views(r.entries@) =~= Seq::<EntryInfoView>::empty());
        assert(keys_of(info_views(r.entries@)) =~= Seq::<Seq<u8>>::empty());
        r
    }

    /// The number of keys that were ever written. Each key has one entry.
    pub fn len(&self) -> (r: usize)
        ensures
            r == self@.entries.len(),
            valid(self@),
    {
        proof {
            use_type_invariant(self);
        }
        self.entries.len()
    }

    /// The index of the entry of a key, or the number of entries if the key
    /// was never written.
    fn find(&self, key: &[u8]) -> (r: usize)
        ensures
            r == first_index(keys_of(self@.entries), key@),
            r <= self.entries.len(),
            self.entries.len() == self@.entries.len(),
    {
        let ghost keys = keys_of(info_views(self.entries@));
        let mut i: usize = 0;
        while i < self.entries.len()
            invariant
                i <= self.entries.len(),
                keys == keys_of(info_views(self.entries@)),
                forall|k: int| 0 <= k < i ==> #[trigger] keys[k] != key@,
            decreases self.entries.len() - i,
        {
            if same_bytes(self.entries[i].key.as_slice(), key) {
                proof {
                    lemma_first_index_is(keys, key@, i as int);
                }
                return i;
            }
            i += 1;
        }
        proof {
            lemma_first_index_is(keys, key@, i as int);
        }
        i
    }

    /// Applies an entry: it becomes the latest of its key.
    fn apply(&mut self, entry: EntryInfo)
        ensures
            final(self)@.entries == with_entry(old(self)@.entries, entry@),
            final(self)@.blobs == old(self)@.blobs,
            final(self)@.clock == old(self)@.clock,
    {
        proof {
            use_type_invariant(&*self);
        }
        let at = self.find(entry.key.as_slice());
        let ghost before = info_views(self.entries@);
        let ghost e = entry@;
        let mut entries: Vec<EntryInfo> = Vec::new();
        std::mem::swap(&mut entries, &mut self.entries);
        proof {
            lemma_first_index(keys_of(before), e.key);
            assert(keys_of(info_views(self.entries@)) =~= Seq::<Seq<u8>>::empty());
            lemma_with_entry_distinct(before, e);
        }
        if at < entries.len() {
            entries.remove(at);
            entries.insert(at, entry);
        } else {
            entries.push(entry);
        }
        assert(info_views(entries@) =~= with_entry(before, e));
        self.entries = entries;
    }

    /// Keeps a content at hand and answers its hash.
    pub fn store_content(&mut self, content: &[u8]) -> (r: Vec<u8>)
        ensures
            r@ == blake3_digest(content@),
            final(self)@.blobs == old(self)@.blobs.insert(blake3_digest(content@), content@),
            final(self)@.entries == old(self)@.entries,
            final(self)@.clock == old(self)@.clock,
    {
        proof {
            use_type_invariant(&*self);
        }
        let hash = digest(content);
        let mut blobs: Vec<Blob> = Vec::new();
        std::mem::swap(&mut blobs, &mut self.blobs);
        let ghost before = blobs@;
        blobs.push(Blob { hash: copy_bytes(hash.as_slice()), content: copy_bytes(content) });
        proof {
            assert(blobs@.drop_last() =~= before);
        }
        self.blobs = blobs;
        hash
    }

    /// Writes content under a key in the name of an author. The entry that
    /// this makes becomes the latest of the key, and the content is kept at
    /// hand. Writing no content marks the key as deleted.
    pub fn write(&mut self, author: &str, key: &[u8], content: &[u8])
        ensures
            final(self)@ == after_write(old(self)@, author@, key@, content@),
    {
        let now = self.clock;
        let hash = self.store_content(content);
        let entry = EntryInfo {
            key: copy_bytes(key),
            author: author.to_string(),
            content_hash: hash,
            content_len: content.len() as u64,
            timestamp: now,
        };
        self.apply(entry);
        proof {
            use_type_invariant(&*self);
        }
        if self.clock < u64::MAX {
            self.clock = self.clock + 1;
        }
    }

    /// Takes an entry that a peer wrote. Its content is not at hand until
    /// it is stored.
    pub fn insert_remote(&mut self, entry: EntryInfo)
        ensures
            final(self)@.entries == with_entry(old(self)@.entries, entry@),
            final(self)@.blobs == old(self)@.blobs,
            final(self)@.clock == old(self)@.clock,
    {
        self.apply(entry);
    }

    /// The latest entry of exactly this key, if the key was ever written.
    pub fn query_latest_exact(&self, key: &[u8]) -> (r: Option<EntryInfo>)
        ensures
            info_view(r) == entry_at(self@.entries, key@),
    {
        let at = self.find(key);
        if at < self.entries.len() {
            Some(self.entries[at].clone())
        } else {
            None
        }
    }

    /// The latest entry of each key that begins with the prefix, in the
    /// order in which the keys were first written.
    pub fn query_latest_by_prefix(&self, prefix: &[u8]) -> (r: Vec<EntryInfo>)
        ensures
            info_views(r@) == self@.entries.filter(key_under(prefix@)),
    {
        let ghost pred = key_under(prefix@);
        let ghost views = info_views(self.entries@);
        let mut out: Vec<EntryInfo> = Vec::new();
        let mut i: usize = 0;
        proof {
            assert(views.subrange(0, 0) =~= Seq::<EntryInfoView>::empty());
            reveal_with_fuel(Seq::filter, 1);
        }
        while i < self.entries.len()
            invariant
                i <= self.entries.len(),
                views == info_views(self.entries@),
                pred == key_under(prefix@),
                info_views(out@) == views.subrange(0, i as int).filter(pred),
            decreases self.entries.len() - i,
        {
            let e = &self.entries[i];
            let keep = bytes_start_with(e.key.as_slice(), prefix);
            proof {
                let before = views.subrange(0, i as int);
                assert(views.subrange(0, i + 1) =~= before.push(views[i as int]));
                before.lemma_filter_push(views[i as int], pred);
            }
            if keep {
                let ghost old_out = info_views(out@);
                out.push(e.clone());
                assert(info_views(out@) =~= old_out.push(views[i as int]));
            }
            i += 1;
        }
        assert(views.subrange(0, views.len() as int) =~= views);
        out
    }

    /// The content with a hash, if it is at hand.
    pub fn read(&self, hash: &[u8]) -> (r: Option<Vec<u8>>)
        ensures
            bytes_view(r) == if self@.blobs.contains_key(hash@) {
                Some(self@.blobs[hash@])
            } else {
                None
            },
    {
        let mut i: usize = self.blobs.len();
        proof {
            assert(self.blobs@.subrange(0, i as int) =~= self.blobs@);
        }
        while i > 0
            invariant
                i <= self.blobs.len(),
                self@.blobs.contains_key(hash@) == blob_map(
                    self.blobs@.subrange(0, i as int),
                ).contains_key(hash@),
                self@.blobs.contains_key(hash@) ==> self@.blobs[hash@] == blob_map(
                    self.blobs@.subrange(0, i as int),
                )[hash@],
            decreases i,
        {
            proof {
                let head = self.blobs@.subrange(0, i as int);
                assert(head.drop_last() =~= self.blobs@.subrange(0, i - 1));
                assert(head.last() == self.blobs@[i - 1]);
            }
            i -= 1;
            if same_bytes(self.blobs[i].hash.as_slice(), hash) {
                return Some(copy_bytes(self.blobs[i].content.as_slice()));
            }
        }
        None
    }
}

/// The view of an optional entry.
pub open spec fn info_view(e: Option<EntryInfo>) -> Option<EntryInfoView> {
    match e {
        Some(e) => Some(e@),
        None => None,
    }
}

} // verus!

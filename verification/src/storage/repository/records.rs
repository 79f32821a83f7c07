//! Records of a namespace as bytes under keys: what every typed repository
//! is built on.
//!
//! A record is written as one entry, deleted by a tombstone, read by
//! looking up the latest entry of its key and then the content of that
//! entry, and listed by scanning a key prefix. The decisions are functions
//! of what the store answered, so that they serve a store that is asked
//! over the network as well as the replica held in memory.

use crate::storage::hash::blake3_digest;
use crate::storage::listing::reversed;
use crate::storage::models::{bytes_view, copy_bytes};
use crate::storage::replica::{
    after_write, entry_at, info_view, info_views, is_tombstone, key_under, keys_of,
    lemma_with_entry_distinct, lemma_with_entry_then_at, valid, written_entry, EntryInfo,
    EntryInfoView, Replica, ReplicaView,
};
use crate::storage::text::{first_index, lemma_first_index};
use vstd::prelude::*;

verus! {

/// What reading a key comes to.
pub enum Fetched {
    /// The key was never written, or its latest entry is a tombstone.
    Nothing,
    /// The record, as bytes.
    Content(Seq<u8>),
    /// The entry is there, but the content with this hash is not at hand.
    Missing(Seq<u8>),
}

/// What looking a record up and reading it as a value comes to.
pub enum Lookup<T> {
    /// Nothing is stored under the key, or it was deleted.
    Absent,
    Found(T),
    /// The entry is there, but the content with this hash is not at hand.
    ContentMissing(Seq<u8>),
    /// What is stored does not read as a value.
    Unreadable,
}

/// What reading a record as a value comes to.
pub open spec fn read_as<T>(f: Fetched, decode: spec_fn(Seq<u8>) -> Option<T>) -> Lookup<T> {
    match f {
        Fetched::Nothing => Lookup::Absent,
        Fetched::Content(bytes) => match decode(bytes) {
            Some(t) => Lookup::Found(t),
            None => Lookup::Unreadable,
        },
        Fetched::Missing(hash) => Lookup::ContentMissing(hash),
    }
}

/// The hash of the content to read for an entry: none for a missing entry
/// and none for a tombstone, whose content is never asked for.
pub open spec fn hash_to_read(entry: Option<EntryInfoView>) -> Option<Seq<u8>> {
    match entry {
        Some(e) => if is_tombstone(e) {
            None
        } else {
            Some(e.content_hash)
        },
        None => None,
    }
}

/// What reading comes to, given the latest entry of the key and, where a
/// content was asked for, whether it was at hand.
pub open spec fn resolved(entry: Option<EntryInfoView>, content: Option<Seq<u8>>) -> Fetched {
    match hash_to_read(entry) {
        None => Fetched::Nothing,
        Some(hash) => match content {
            Some(bytes) => Fetched::Content(bytes),
            None => Fetched::Missing(hash),
        },
    }
}

/// The content with a hash, if it is at hand.
pub open spec fn blob_at(blobs: Map<Seq<u8>, Seq<u8>>, hash: Seq<u8>) -> Option<Seq<u8>> {
    if blobs.contains_key(hash) {
        Some(blobs[hash])
    } else {
        None
    }
}

/// What reading a key of a replica comes to.
pub open spec fn fetched(r: ReplicaView, key: Seq<u8>) -> Fetched {
    let entry = entry_at(r.entries, key);
    match hash_to_read(entry) {
        None => Fetched::Nothing,
        Some(hash) => resolved(entry, blob_at(r.blobs, hash)),
    }
}

/// The content of an entry for a listing: none for a tombstone and none
/// where the content is not at hand.
pub open spec fn hydrate(
    blobs: Map<Seq<u8>, Seq<u8>>,
) -> spec_fn(EntryInfoView) -> Option<Seq<u8>> {
    |e: EntryInfoView|
        if is_tombstone(e) {
            None
        } else {
            blob_at(blobs, e.content_hash)
        }
}

/// The contents that a scan of a key prefix yields: those of the entries
/// under the prefix that are no tombstones and whose content is at hand, in
/// the order of the entries.
pub open spec fn scanned(r: ReplicaView, prefix: Seq<u8>) -> Seq<Seq<u8>> {
    r.entries.filter(key_under(prefix)).filter_map(hydrate(r.blobs))
}

/// The entries that a scan of a key prefix finds alive: under the prefix
/// and no tombstones.
pub open spec fn alive(r: ReplicaView, prefix: Seq<u8>) -> Seq<EntryInfoView> {
    r.entries.filter(key_under(prefix)).filter(not_deleted())
}

/// Whether an entry is no tombstone.
pub open spec fn not_deleted() -> spec_fn(EntryInfoView) -> bool {
    |e: EntryInfoView| !is_tombstone(e)
}

/// The hash of the content to read for an entry, if any is to be read.
pub fn content_to_read(entry: &Option<EntryInfo>) -> (r: Option<Vec<u8>>)
    ensures
        bytes_view(r) == hash_to_read(info_view(*entry)),
{
    match entry {
        Some(e) => {
            if e.is_tombstone() {
                None
            } else {
                Some(copy_bytes(e.content_hash.as_slice()))
            }
        },
        None => None,
    }
}

/// What reading comes to, given the latest entry of the key and, where a
/// content was asked for, the content if it was at hand: the record, or
/// nothing, or the hash of the content that is missing.
pub fn resolve(
    entry: &Option<EntryInfo>,
    content: Option<Vec<u8>>,
) -> (r: Result<Option<Vec<u8>>, Vec<u8>>)
    ensures
        match resolved(info_view(*entry), bytes_view(content)) {
            Fetched::Nothing => r matches Ok(None),
            Fetched::Content(bytes) => r matches Ok(Some(b)) && b@ == bytes,
            Fetched::Missing(hash) => r matches Err(h) && h@ == hash,
        },
{
    match content_to_read(entry) {
        None => Ok(None),
        Some(hash) => match content {
            Some(bytes) => Ok(Some(bytes)),
            None => Err(hash),
        },
    }
}

/// Reads the record under a key of a replica: the record, or nothing, or
/// the hash of the content that is missing.
pub fn fetch_record(replica: &Replica, key: &[u8]) -> (r: Result<Option<Vec<u8>>, Vec<u8>>)
    ensures
        match fetched(replica@, key@) {
            Fetched::Nothing => r matches Ok(None),
            Fetched::Content(bytes) => r matches Ok(Some(b)) && b@ == bytes,
            Fetched::Missing(hash) => r matches Err(h) && h@ == hash,
        },
{
    let entry = replica.query_latest_exact(key);
    match content_to_read(&entry) {
        None => Ok(None),
        Some(hash) => {
            let content = replica.read(hash.as_slice());
            resolve(&entry, content)
        },
    }
}

/// Writes a record under a key.
pub fn put_record(replica: &mut Replica, author: &str, key: &[u8], bytes: &[u8])
    ensures
        final(replica)@ == after_write(old(replica)@, author@, key@, bytes@),
{
    replica.write(author, key, bytes);
}

/// Deletes the record under a key, by writing a tombstone there.
pub fn delete_record(replica: &mut Replica, author: &str, key: &[u8])
    ensures
        final(replica)@ == after_write(old(replica)@, author@, key@, Seq::empty()),
{
    let nothing: Vec<u8> = Vec::new();
    replica.write(author, key, nothing.as_slice());
}

/// An entry of a scan with its content, where the content was asked for
/// and was at hand.
#[derive(Debug, PartialEq, Eq)]
pub struct Hydrated {
    pub entry: EntryInfo,
    pub content: Option<Vec<u8>>,
}

/// The content that an entry of a scan contributes to a listing: none for
/// a tombstone, none where no content came.
pub open spec fn contribution(h: Hydrated) -> Option<Seq<u8>> {
    if is_tombstone(h.entry@) {
        None
    } else {
        bytes_view(h.content)
    }
}

/// The contents that a scan contributes to a listing: tombstones and
/// entries without content are passed over, the others keep their order.
pub fn live_contents(scan: Vec<Hydrated>) -> (r: Vec<Vec<u8>>)
    ensures
        r.deep_view() == scan@.filter_map(|h: Hydrated| contribution(h)),
{
    let ghost f = |h: Hydrated| contribution(h);
    let ghost all = scan@;
    let mut scan = scan;
    let mut out: Vec<Vec<u8>> = Vec::new();
    proof {
        assert(out.deep_view() =~= Seq::<Seq<u8>>::empty());
        assert(all.subrange(all.len() as int, all.len() as int) =~= Seq::<Hydrated>::empty());
    }
    while scan.len() > 0
        invariant
            scan.len() <= all.len(),
            scan@ == all.subrange(0, scan.len() as int),
            f == (|h: Hydrated| contribution(h)),
            all.subrange(0, scan.len() as int).filter_map(f) + out.deep_view().reverse()
                == all.filter_map(f),
        decreases scan.len(),
    {
        let ghost n = scan.len() as int;
        let ghost before = out.deep_view();
        let h = scan.pop().unwrap();
        proof {
            let head = all.subrange(0, n);
            assert(head.drop_last() =~= all.subrange(0, n - 1));
            assert(head.last() == h);
            assert(scan@ =~= all.subrange(0, n - 1));
        }
        if !h.entry.is_tombstone() {
            match h.content {
                Some(bytes) => {
                    assert(bytes.deep_view() =~= bytes@);
                    out.push(bytes);
                    proof {
                        let c = contribution(h)->Some_0;
                        assert(out.deep_view() =~= before.push(c));
                        assert(out.deep_view().reverse() =~= seq![c] + before.reverse());
                        let rest = all.subrange(0, n - 1).filter_map(f);
                        assert(rest + (seq![c] + before.reverse()) =~= (rest + seq![c])
                            + before.reverse());
                    }
                },
                None => {},
            }
        }
    }
    proof {
        assert(all.subrange(0, 0).filter_map(f) =~= Seq::<Seq<u8>>::empty());
        assert(Seq::<Seq<u8>>::empty() + out.deep_view().reverse() =~= out.deep_view().reverse());
    }
    let r = reversed(out);
    proof {
        assert(r.deep_view() =~= out.deep_view().reverse());
    }
    r
}

/// Scans a key prefix of a replica and reads the content of every entry
/// that is no tombstone.
pub fn scan_records(replica: &Replica, prefix: &[u8]) -> (r: Vec<Vec<u8>>)
    ensures
        r.deep_view() == scanned(replica@, prefix@),
{
    let entries = replica.query_latest_by_prefix(prefix);
    let ghost views = info_views(entries@);
    let ghost f = hydrate(replica@.blobs);
    let mut out: Vec<Vec<u8>> = Vec::new();
    let mut i: usize = 0;
    proof {
        assert(out.deep_view() =~= Seq::<Seq<u8>>::empty());
        assert(views.take(0) =~= Seq::<EntryInfoView>::empty());
    }
    while i < entries.len()
        invariant
            i <= entries.len(),
            views == info_views(entries@),
            f == hydrate(replica@.blobs),
            out.deep_view() == views.take(i as int).filter_map(f),
        decreases entries.len() - i,
    {
        let ghost before = out.deep_view();
        proof {
            views.lemma_filter_map_take_succ(f, i as int);
        }
        if !entries[i].is_tombstone() {
            match replica.read(entries[i].content_hash.as_slice()) {
                Some(bytes) => {
                    assert(bytes.deep_view() =~= bytes@);
                    out.push(bytes);
                    assert(out.deep_view() =~= before + seq![f(views[i as int])->Some_0]);
                },
                None => {
                    assert(before + Seq::<Seq<u8>>::empty() =~= before);
                },
            }
        } else {
            assert(before + Seq::<Seq<u8>>::empty() =~= before);
        }
        i += 1;
    }
    proof {
        assert(views.take(views.len() as int) =~= views);
    }
    out
}

/// What was written under a key is what is read there, as long as it is
/// not empty.
pub proof fn lemma_fetch_after_put(r: ReplicaView, author: Seq<char>, key: Seq<u8>, bytes: Seq<u8>)
    requires
        bytes.len() > 0,
    ensures
        fetched(after_write(r, author, key, bytes), key) == Fetched::Content(bytes),
{
    lemma_with_entry_then_at(r.entries, written_entry(author, key, bytes, r.clock));
}

/// After a record was deleted, nothing is read under its key.
pub proof fn lemma_fetch_after_delete(r: ReplicaView, author: Seq<char>, key: Seq<u8>)
    ensures
        fetched(after_write(r, author, key, Seq::empty()), key) == Fetched::Nothing,
{
    lemma_with_entry_then_at(r.entries, written_entry(author, key, Seq::empty(), r.clock));
}

/// Of two writes under one key the later one is read, whoever wrote.
pub proof fn lemma_last_write_wins(
    r: ReplicaView,
    first_author: Seq<char>,
    second_author: Seq<char>,
    key: Seq<u8>,
    first: Seq<u8>,
    second: Seq<u8>,
)
    requires
        second.len() > 0,
    ensures
        fetched(
            after_write(after_write(r, first_author, key, first), second_author, key, second),
            key,
        ) == Fetched::Content(second),
{
    lemma_fetch_after_put(after_write(r, first_author, key, first), second_author, key, second);
}

/// After a record was deleted, no entry that a scan finds alive has its
/// key, whatever prefix is scanned.
pub proof fn lemma_deleted_not_alive(
    r: ReplicaView,
    author: Seq<char>,
    key: Seq<u8>,
    prefix: Seq<u8>,
)
    requires
        keys_of(r.entries).no_duplicates(),
    ensures
        forall|i: int|
            0 <= i < alive(after_write(r, author, key, Seq::empty()), prefix).len() ==> (
            #[trigger] alive(after_write(r, author, key, Seq::empty()), prefix)[i]).key != key,
{
    let e = written_entry(author, key, Seq::empty(), r.clock);
    let after = after_write(r, author, key, Seq::empty());
    let live = alive(after, prefix);
    let under = after.entries.filter(key_under(prefix));
    lemma_with_entry_distinct(r.entries, e);
    lemma_with_entry_then_at(r.entries, e);
    lemma_first_index(keys_of(after.entries), key);
    let p = first_index(keys_of(after.entries), key);
    assert forall|i: int| 0 <= i < live.len() implies (#[trigger] live[i]).key != key by {
        let x = live[i];
        assert(live.contains(x));
        under.lemma_filter_pred(not_deleted(), i);
        under.lemma_filter_contains_rev(not_deleted(), x);
        after.entries.lemma_filter_contains_rev(key_under(prefix), x);
        assert(!is_tombstone(x));
        let w = choose|w: int| 0 <= w < after.entries.len() && after.entries[w] == x;
        if x.key == key {
            assert(keys_of(after.entries)[w] == key);
            assert(keys_of(after.entries)[p] == key);
            assert(w == p);
        }
    }
}

/// Every record that reads as a value lies under the key of that value.
/// This is what a repository keeps up that writes each value under the key
/// of its own identifier.
pub open spec fn coherent<T>(
    r: ReplicaView,
    decode: spec_fn(Seq<u8>) -> Option<T>,
    key_of: spec_fn(T) -> Seq<u8>,
) -> bool {
    forall|i: int|
        0 <= i < r.entries.len() ==> match hydrate(r.blobs)(#[trigger] r.entries[i]) {
            Some(bytes) => match decode(bytes) {
                Some(t) => key_of(t) == r.entries[i].key,
                None => true,
            },
            None => true,
        }
}

/// After a record was deleted, a scan yields no value of its key, in a
/// replica whose records lie under the keys of their values.
pub proof fn lemma_deleted_not_scanned<T>(
    r: ReplicaView,
    author: Seq<char>,
    key: Seq<u8>,
    prefix: Seq<u8>,
    decode: spec_fn(Seq<u8>) -> Option<T>,
    key_of: spec_fn(T) -> Seq<u8>,
    t: T,
)
    requires
        valid(r),
        coherent(after_write(r, author, key, Seq::empty()), decode, key_of),
        scanned(after_write(r, author, key, Seq::empty()), prefix).filter_map(decode).contains(t),
    ensures
        key_of(t) != key,
{
    let after = after_write(r, author, key, Seq::empty());
    let e = written_entry(author, key, Seq::empty(), r.clock);
    let under = after.entries.filter(key_under(prefix));
    let contents = scanned(after, prefix);
    contents.lemma_filter_map_contains(decode, t);
    let bytes = choose|bytes: Seq<u8>| #[trigger]
        contents.contains(bytes) && decode(bytes) == Some(t);
    under.lemma_filter_map_contains(hydrate(after.blobs), bytes);
    let x = choose|x: EntryInfoView| #[trigger]
        under.contains(x) && hydrate(after.blobs)(x) == Some(bytes);
    after.entries.lemma_filter_contains_rev(key_under(prefix), x);
    let w = choose|w: int| 0 <= w < after.entries.len() && after.entries[w] == x;
    assert(key_of(t) == after.entries[w].key);
    lemma_with_entry_distinct(r.entries, e);
    lemma_with_entry_then_at(r.entries, e);
    let keys = keys_of(after.entries);
    lemma_first_index(keys, key);
    let p = first_index(keys, key);
    if x.key == key {
        assert(keys[w] == key);
        assert(keys[p] == key);
        assert(w == p);
        assert(is_tombstone(x));
    }
}

/// Deleting a record leaves every record under the key of its value, as
/// long as no value is read from no bytes.
pub proof fn lemma_delete_keeps_coherent<T>(
    r: ReplicaView,
    author: Seq<char>,
    key: Seq<u8>,
    decode: spec_fn(Seq<u8>) -> Option<T>,
    key_of: spec_fn(T) -> Seq<u8>,
)
    requires
        coherent(r, decode, key_of),
        decode(Seq::empty()) is None,
    ensures
        coherent(after_write(r, author, key, Seq::empty()), decode, key_of),
{
    let after = after_write(r, author, key, Seq::empty());
    let e = written_entry(author, key, Seq::empty(), r.clock);
    let nothing = Seq::<u8>::empty();
    let keys = keys_of(r.entries);
    lemma_first_index(keys, key);
    let p = first_index(keys, key);
    assert(is_tombstone(e));
    assert forall|i: int| 0 <= i < after.entries.len() implies match hydrate(after.blobs)(
        #[trigger] after.entries[i],
    ) {
        Some(bytes) => match decode(bytes) {
            Some(t) => key_of(t) == after.entries[i].key,
            None => true,
        },
        None => true,
    } by {
        let x = after.entries[i];
        if i == p {
            assert(x == e);
        } else {
            assert(x == r.entries[i]);
            if !is_tombstone(x) {
                if x.content_hash == blake3_digest(nothing) {
                    assert(hydrate(after.blobs)(x) == Some(nothing));
                } else {
                    assert(hydrate(after.blobs)(x) == hydrate(r.blobs)(x));
                }
            }
        }
    }
}

/// No entry under another key has the hash of a content. Where this holds
/// of what is written under a key, the write changes what no other entry
/// reads.
pub open spec fn hash_unshared(r: ReplicaView, key: Seq<u8>, content: Seq<u8>) -> bool {
    forall|i: int|
        0 <= i < r.entries.len() && (#[trigger] r.entries[i]).key != key
            ==> r.entries[i].content_hash != blake3_digest(content)
}

/// A replica without entries has every record under the key of its value.
pub proof fn lemma_empty_coherent<T>(
    r: ReplicaView,
    decode: spec_fn(Seq<u8>) -> Option<T>,
    key_of: spec_fn(T) -> Seq<u8>,
)
    requires
        r.entries.len() == 0,
    ensures
        coherent(r, decode, key_of),
{
}

/// A write leaves each key with one entry.
pub proof fn lemma_write_keeps_valid(
    r: ReplicaView,
    author: Seq<char>,
    key: Seq<u8>,
    bytes: Seq<u8>,
)
    requires
        valid(r),
    ensures
        valid(after_write(r, author, key, bytes)),
{
    lemma_with_entry_distinct(r.entries, written_entry(author, key, bytes, r.clock));
}

/// Writing a record under the key of its value leaves every record under
/// the key of its value, as long as no entry under another key has the hash
/// of what is written.
pub proof fn lemma_put_keeps_coherent<T>(
    r: ReplicaView,
    author: Seq<char>,
    key: Seq<u8>,
    bytes: Seq<u8>,
    decode: spec_fn(Seq<u8>) -> Option<T>,
    key_of: spec_fn(T) -> Seq<u8>,
)
    requires
        valid(r),
        coherent(r, decode, key_of),
        hash_unshared(r, key, bytes),
        decode(bytes) matches Some(t) ==> key_of(t) == key,
    ensures
        coherent(after_write(r, author, key, bytes), decode, key_of),
{
    let after = after_write(r, author, key, bytes);
    let e = written_entry(author, key, bytes, r.clock);
    let keys = keys_of(r.entries);
    lemma_first_index(keys, key);
    let p = first_index(keys, key);
    assert forall|i: int| 0 <= i < after.entries.len() implies match hydrate(after.blobs)(
        #[trigger] after.entries[i],
    ) {
        Some(content) => match decode(content) {
            Some(t) => key_of(t) == after.entries[i].key,
            None => true,
        },
        None => true,
    } by {
        let x = after.entries[i];
        if i == p {
            assert(x == e);
        } else {
            assert(x == r.entries[i]);
            assert(keys[i] == x.key);
            assert(x.key != key);
            assert(hydrate(after.blobs)(x) == hydrate(r.blobs)(x));
        }
    }
}

/// Where a member of a list is read as a value, the values read from the
/// list hold that value.
pub proof fn lemma_filter_map_has<A, B>(s: Seq<A>, f: spec_fn(A) -> Option<B>, x: A, y: B)
    requires
        s.contains(x),
        f(x) == Some(y),
    ensures
        s.filter_map(f).contains(y),
    decreases s.len(),
{
    let w = choose|w: int| 0 <= w < s.len() && s[w] == x;
    let rest = s.drop_last();
    let read = rest.filter_map(f);
    if w == s.len() - 1 {
        assert(s.filter_map(f) == read + seq![y]);
        assert((read + seq![y])[read.len() as int] == y);
    } else {
        assert(rest[w] == x);
        lemma_filter_map_has(rest, f, x, y);
        let u = choose|u: int| 0 <= u < read.len() && read[u] == y;
        match f(s.last()) {
            Some(b) => {
                assert((read + seq![b])[u] == y);
            },
            None => {},
        }
    }
}

/// After a record was deleted, a scan still yields every value of another
/// key that it yielded before, in a replica whose records lie under the
/// keys of their values and where no entry under another key has the hash
/// of the empty content.
pub proof fn lemma_others_stay_scanned<T>(
    r: ReplicaView,
    author: Seq<char>,
    key: Seq<u8>,
    prefix: Seq<u8>,
    decode: spec_fn(Seq<u8>) -> Option<T>,
    key_of: spec_fn(T) -> Seq<u8>,
    t: T,
)
    requires
        valid(r),
        coherent(r, decode, key_of),
        hash_unshared(r, key, Seq::empty()),
        scanned(r, prefix).filter_map(decode).contains(t),
        key_of(t) != key,
    ensures
        scanned(after_write(r, author, key, Seq::empty()), prefix).filter_map(decode).contains(t),
{
    let after = after_write(r, author, key, Seq::empty());
    let under = r.entries.filter(key_under(prefix));
    let contents = scanned(r, prefix);
    contents.lemma_filter_map_contains(decode, t);
    let bytes = choose|bytes: Seq<u8>| #[trigger]
        contents.contains(bytes) && decode(bytes) == Some(t);
    under.lemma_filter_map_contains(hydrate(r.blobs), bytes);
    let x = choose|x: EntryInfoView| #[trigger]
        under.contains(x) && hydrate(r.blobs)(x) == Some(bytes);
    let u = choose|u: int| 0 <= u < under.len() && under[u] == x;
    r.entries.lemma_filter_pred(key_under(prefix), u);
    r.entries.lemma_filter_contains_rev(key_under(prefix), x);
    let w = choose|w: int| 0 <= w < r.entries.len() && r.entries[w] == x;
    assert(key_of(t) == r.entries[w].key);
    let keys = keys_of(r.entries);
    lemma_first_index(keys, key);
    let p = first_index(keys, key);
    assert(keys[w] == x.key);
    assert(w != p);
    assert(after.entries[w] == x);
    after.entries.lemma_filter_contains(key_under(prefix), w);
    assert(hydrate(after.blobs)(x) == Some(bytes));
    lemma_filter_map_has(after.entries.filter(key_under(prefix)), hydrate(after.blobs), x, bytes);
    lemma_filter_map_has(scanned(after, prefix), decode, bytes, t);
}

} // verus!

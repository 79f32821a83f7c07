//! The repository of posts.

use crate::models::post::{
    decode_posts, decoded_posts, lemma_post_doc_round_trip, post_decoder, post_decoding, post_doc,
    post_encoding, post_views, post_writes, view_by, view_mentions, view_time, Post, PostView,
};
use crate::storage::collection::Collection;
use crate::storage::error::{StorageError, StorageResult};
use crate::storage::json::{json_parse, json_text};
use crate::storage::listing::{
    content_mentions, entry_time, first_n, is_newest_first, keep_by_author, keep_first,
    keep_mentioning, lemma_filter_maps, lemma_newest_first_contains, lemma_newest_first_maps,
    lemma_newest_first_sorted, lemma_page_maps, newest_first, sort_newest_first, written_by,
};
use crate::storage::replica::{after_write, valid, Replica, ReplicaView};
use crate::storage::repository::records::{
    coherent, delete_record, fetch_record, fetched, hash_unshared, lemma_delete_keeps_coherent,
    lemma_deleted_not_scanned, lemma_empty_coherent, lemma_fetch_after_delete,
    lemma_fetch_after_put, lemma_last_write_wins, lemma_others_stay_scanned,
    lemma_put_keeps_coherent, lemma_write_keeps_valid, put_record, read_as, scan_records, scanned,
    Fetched, Lookup,
};
use crate::storage::text::{blank, hex, hex_of, is_blank, join, joined_bytes};
use vstd::prelude::*;
use vstd::string::*;

verus! {

/// The key of the record with an identifier in a collection: the prefix of
/// the collection, then the identifier, as bytes.
pub open spec fn record_key(collection: Collection, id: Seq<char>) -> Seq<u8> {
    vstd::utf8::encode_utf8(collection.spec_key_prefix()) + vstd::utf8::encode_utf8(id)
}

/// The prefix of the keys of a collection, as bytes.
pub open spec fn prefix_bytes(collection: Collection) -> Seq<u8> {
    vstd::utf8::encode_utf8(collection.spec_key_prefix())
}

/// Every key of a collection begins with the prefix of the collection.
pub proof fn lemma_key_under_prefix(collection: Collection, id: Seq<char>)
    ensures
        prefix_bytes(collection).is_prefix_of(record_key(collection, id)),
{
    let p = prefix_bytes(collection);
    assert(record_key(collection, id).subrange(0, p.len() as int) =~= p);
}

/// The key of the record with an identifier in a collection.
pub fn key_in(collection: Collection, id: &str) -> (r: Vec<u8>)
    ensures
        r@ == record_key(collection, id@),
{
    joined_bytes(collection.key_prefix().as_bytes(), id.as_bytes())
}

/// The key of a post.
pub fn post_key(post_id: &str) -> (r: Vec<u8>)
    ensures
        r@ == record_key(Collection::Post, post_id@),
{
    key_in(Collection::Post, post_id)
}

/// What looking up the post with an identifier in a replica comes to.
pub open spec fn post_lookup(r: ReplicaView, id: Seq<char>) -> Lookup<PostView> {
    read_as(fetched(r, record_key(Collection::Post, id)), post_decoder())
}

/// The replica after a post was saved by an author.
pub open spec fn after_save_post(r: ReplicaView, author: Seq<char>, p: PostView) -> ReplicaView {
    after_write(r, author, record_key(Collection::Post, p.id), post_encoding(p))
}

/// The replica after the post with an identifier was deleted by an author.
pub open spec fn after_delete_post(
    r: ReplicaView,
    author: Seq<char>,
    id: Seq<char>,
) -> ReplicaView {
    after_write(r, author, record_key(Collection::Post, id), Seq::empty())
}

/// The posts of a replica, the newest first.
pub open spec fn post_listing(r: ReplicaView) -> Seq<PostView> {
    newest_first(decoded_posts(scanned(r, prefix_bytes(Collection::Post))), view_time())
}

/// The posts of a replica by one author, the newest first.
pub open spec fn post_listing_by(r: ReplicaView, author: Seq<char>) -> Seq<PostView> {
    post_listing(r).filter(view_by(author))
}

/// The first `limit` posts of a replica, in scan order, whose content
/// mentions the query, the newest of them first.
pub open spec fn post_search(r: ReplicaView, query: Seq<char>, limit: nat) -> Seq<PostView> {
    newest_first(
        first_n(
            decoded_posts(scanned(r, prefix_bytes(Collection::Post))).filter(view_mentions(query)),
            limit,
        ),
        view_time(),
    )
}

/// The bytes written for a post are not empty and read back as the post.
/// Whether this holds of a post is up to `serde_json`.
pub open spec fn post_survives(p: PostView) -> bool {
    post_encoding(p).len() > 0 && post_decoding(post_encoding(p)) == Some(p)
}

/// The detail of the error for a content that is not at hand.
pub open spec fn missing_content_detail(
    what: Seq<char>,
    id: Seq<char>,
    hash: Seq<u8>,
) -> Seq<char> {
    "content of "@ + what + " "@ + id + " (hash: "@ + hex_of(hash) + ")"@
}

/// The error for a content that is not at hand. It is an error of its own
/// kind: the entry is there, so this is not "not found".
pub fn missing_content(what: &str, id: &str, hash: &[u8]) -> (r: StorageError)
    ensures
        r matches StorageError::ContentMissing(m) && m@ == missing_content_detail(
            what@,
            id@,
            hash@,
        ),
{
    let mut m = join("content of ", what);
    m.append(" ");
    m.append(id);
    m.append(" (hash: ");
    let h = hex(hash);
    m.append(h.as_str());
    m.append(")");
    StorageError::ContentMissing(m)
}

/// Saves a post in the name of an author, under the key of its identifier
/// and in place of what was stored there. Fails, and writes nothing,
/// exactly where `serde_json` does not write the post.
pub fn save_post(replica: &mut Replica, author: &str, post: &Post) -> (r: StorageResult<()>)
    ensures
        r is Ok <==> post_writes(post@),
        match r {
            Ok(_) => final(replica)@ == after_save_post(old(replica)@, author@, post@),
            Err(e) => e is Serialization && final(replica)@ == old(replica)@,
        },
{
    let key = post_key(post.id.as_str());
    let bytes = post.encode()?;
    put_record(replica, author, key.as_slice(), bytes.as_slice());
    Ok(())
}

/// What a record that was read says about the post with an identifier:
/// the post, or that there is none, or an error that tells a content that
/// is not at hand from a content that does not read as a post.
pub fn post_from_record(
    post_id: &str,
    record: Result<Option<Vec<u8>>, Vec<u8>>,
) -> (r: StorageResult<Option<Post>>)
    ensures
        match record {
            Ok(None) => r matches Ok(None),
            Ok(Some(bytes)) => match post_decoding(bytes@) {
                Some(p) => r matches Ok(Some(x)) && x@ == p,
                None => r matches Err(e) && e is Serialization,
            },
            Err(hash) => r matches Err(StorageError::ContentMissing(m)) && m@
                == missing_content_detail(
                    "post"@,
                    post_id@,
                    hash@,
                ),
        },
{
    match record {
        Ok(None) => Ok(None),
        Ok(Some(bytes)) => match Post::decode(bytes.as_slice()) {
            Ok(post) => Ok(Some(post)),
            Err(e) => Err(e),
        },
        Err(hash) => Err(missing_content("post", post_id, hash.as_slice())),
    }
}

/// The post with an identifier: `None` where none is stored or it was
/// deleted; an error where the content is not at hand, and another where it
/// does not read as a post.
pub fn get_post(replica: &Replica, post_id: &str) -> (r: StorageResult<Option<Post>>)
    ensures
        match post_lookup(replica@, post_id@) {
            Lookup::Absent => r matches Ok(None),
            Lookup::Found(p) => r matches Ok(Some(x)) && x@ == p,
            Lookup::ContentMissing(hash) => r matches Err(StorageError::ContentMissing(m)) && m@
                == missing_content_detail("post"@, post_id@, hash),
            Lookup::Unreadable => r matches Err(e) && e is Serialization,
        },
{
    let key = post_key(post_id);
    post_from_record(post_id, fetch_record(replica, key.as_slice()))
}

/// Deletes the post with an identifier in the name of an author, by
/// writing a tombstone under its key.
pub fn delete_post(replica: &mut Replica, author: &str, post_id: &str) -> (r: StorageResult<()>)
    ensures
        r is Ok,
        final(replica)@ == after_delete_post(old(replica)@, author@, post_id@),
{
    let key = post_key(post_id);
    delete_record(replica, author, key.as_slice());
    Ok(())
}

/// The posts that the contents of a scan stand for, the newest first.
/// Contents that do not read as a post are passed over.
pub fn posts_from_scan(contents: &Vec<Vec<u8>>) -> (r: Vec<Post>)
    ensures
        post_views(r@) == newest_first(decoded_posts(contents.deep_view()), view_time()),
        is_newest_first(post_views(r@), view_time()),
{
    let posts = decode_posts(contents);
    let sorted = sort_newest_first(posts);
    proof {
        lemma_newest_first_maps(posts@, |p: Post| p@, entry_time::<Post>(), view_time());
        lemma_newest_first_sorted(decoded_posts(contents.deep_view()), view_time());
    }
    sorted
}

/// Every post that is stored, not deleted and readable, the newest first.
pub fn list_posts(replica: &Replica) -> (r: StorageResult<Vec<Post>>)
    ensures
        r matches Ok(v) && post_views(v@) == post_listing(replica@) && is_newest_first(
            post_views(v@),
            view_time(),
        ),
{
    let prefix = Collection::Post.key_prefix();
    let contents = scan_records(replica, prefix.as_bytes());
    Ok(posts_from_scan(&contents))
}

/// The posts of one author, the newest first.
pub fn list_user_posts(replica: &Replica, author_id_filter: &str) -> (r: StorageResult<Vec<Post>>)
    ensures
        r matches Ok(v) && post_views(v@) == post_listing_by(replica@, author_id_filter@),
{
    let all = match list_posts(replica) {
        Ok(all) => all,
        Err(e) => {
            return Err(e);
        },
    };
    let kept = keep_by_author(all, author_id_filter);
    proof {
        lemma_filter_maps(
            all@,
            |p: Post| p@,
            written_by::<Post>(author_id_filter@),
            view_by(author_id_filter@),
        );
    }
    Ok(kept)
}

/// The detail of the error for a search without a query.
pub open spec fn empty_query_detail() -> Seq<char> {
    "Search query cannot be empty"@
}

/// The posts that the contents of a scan stand for and whose content
/// mentions the query, without regard to case: the first `limit` of them
/// in scan order, the newest of these first.
pub fn matches_from_scan(contents: &Vec<Vec<u8>>, query: &str, limit: usize) -> (r: Vec<Post>)
    ensures
        post_views(r@) == newest_first(
            first_n(
                decoded_posts(contents.deep_view()).filter(view_mentions(query@)),
                limit as nat,
            ),
            view_time(),
        ),
{
    let posts = decode_posts(contents);
    let matching = keep_mentioning(posts, query);
    let first = keep_first(matching, limit);
    let sorted = sort_newest_first(first);
    proof {
        let look = |p: Post| p@;
        lemma_filter_maps(posts@, look, content_mentions::<Post>(query@), view_mentions(query@));
        lemma_page_maps(matching@, look, limit as nat, 0);
        lemma_newest_first_maps(first@, look, entry_time::<Post>(), view_time());
    }
    sorted
}

/// Checks the query of a search: a blank query is a validation error.
pub fn validate_query(query: &str) -> (r: StorageResult<()>)
    ensures
        if is_blank(query@) {
            r matches Err(StorageError::Validation(m)) && m@ == empty_query_detail()
        } else {
            r is Ok
        },
{
    if blank(query) {
        Err(StorageError::Validation("Search query cannot be empty".to_string()))
    } else {
        Ok(())
    }
}

/// Searches the posts. A blank query is a validation error, whatever the
/// replica holds; any other query gives the posts whose content mentions
/// it.
pub fn search_posts(replica: &Replica, query: &str, limit: usize) -> (r: StorageResult<Vec<Post>>)
    ensures
        if is_blank(query@) {
            r matches Err(StorageError::Validation(m)) && m@ == empty_query_detail()
        } else {
            r matches Ok(v) && post_views(v@) == post_search(replica@, query@, limit as nat)
        },
{
    validate_query(query)?;
    let prefix = Collection::Post.key_prefix();
    let contents = scan_records(replica, prefix.as_bytes());
    Ok(matches_from_scan(&contents, query, limit))
}

/// What is written for a post reads back as the post wherever `serde_json`
/// reads back the document that it wrote, and wrote something.
pub proof fn lemma_faithful_json_survives(p: PostView)
    requires
        json_text(post_doc(p)).len() > 0,
        json_parse(json_text(post_doc(p))) == Some(post_doc(p)),
    ensures
        post_survives(p),
{
    lemma_post_doc_round_trip(p);
}

/// After a post was saved, looking it up finds it, as long as what is
/// written for the post reads back as the post.
pub proof fn lemma_get_after_save(r: ReplicaView, author: Seq<char>, p: PostView)
    requires
        post_survives(p),
    ensures
        post_lookup(after_save_post(r, author, p), p.id) == Lookup::Found(p),
{
    lemma_fetch_after_put(r, author, record_key(Collection::Post, p.id), post_encoding(p));
}

/// After a post was saved, looking it up comes to what reading the written
/// bytes comes to, as long as something was written.
pub proof fn lemma_get_reads_what_was_saved(r: ReplicaView, author: Seq<char>, p: PostView)
    requires
        post_encoding(p).len() > 0,
    ensures
        post_lookup(after_save_post(r, author, p), p.id) == read_as(
            Fetched::Content(post_encoding(p)),
            post_decoder(),
        ),
{
    lemma_fetch_after_put(r, author, record_key(Collection::Post, p.id), post_encoding(p));
}

/// After a post was deleted, looking it up finds nothing.
pub proof fn lemma_get_after_delete(r: ReplicaView, author: Seq<char>, id: Seq<char>)
    ensures
        post_lookup(after_delete_post(r, author, id), id) == Lookup::<PostView>::Absent,
{
    lemma_fetch_after_delete(r, author, record_key(Collection::Post, id));
}

/// Of two posts saved under one identifier the later one is found,
/// whatever the first one was, as long as what is written for the later
/// one reads back as it.
pub proof fn lemma_last_save_wins(
    r: ReplicaView,
    first_author: Seq<char>,
    second_author: Seq<char>,
    first: PostView,
    second: PostView,
)
    requires
        first.id == second.id,
        post_survives(second),
    ensures
        post_lookup(
            after_save_post(after_save_post(r, first_author, first), second_author, second),
            second.id,
        ) == Lookup::Found(second),
{
    lemma_last_write_wins(
        r,
        first_author,
        second_author,
        record_key(Collection::Post, second.id),
        post_encoding(first),
        post_encoding(second),
    );
}

/// A listing is sorted by descending creation time, whatever the replica
/// holds and in whatever order it was written.
pub proof fn lemma_listing_sorted(r: ReplicaView)
    ensures
        is_newest_first(post_listing(r), view_time()),
{
    lemma_newest_first_sorted(
        decoded_posts(scanned(r, prefix_bytes(Collection::Post))),
        view_time(),
    );
}

/// The key under which a post belongs.
pub open spec fn post_key_of() -> spec_fn(PostView) -> Seq<u8> {
    |p: PostView| record_key(Collection::Post, p.id)
}

/// Every record of the replica that reads as a post lies under the key of
/// that post. A replica without entries is so, and saving and deleting keep
/// it so under the conditions of the lemmas below; writing a post under the
/// key of another breaks it.
pub open spec fn posts_in_place(r: ReplicaView) -> bool {
    coherent(r, post_decoder(), post_key_of())
}

/// After a post was deleted, no listing holds a post of its identifier, in
/// a replica whose posts lie under their own keys, as long as no post is
/// read from no bytes.
pub proof fn lemma_deleted_not_listed(r: ReplicaView, author: Seq<char>, id: Seq<char>, i: int)
    requires
        valid(r),
        posts_in_place(r),
        post_decoding(Seq::empty()) is None,
        0 <= i < post_listing(after_delete_post(r, author, id)).len(),
    ensures
        post_listing(after_delete_post(r, author, id))[i].id != id,
{
    let after = after_delete_post(r, author, id);
    let decoded = decoded_posts(scanned(after, prefix_bytes(Collection::Post)));
    let found = post_listing(after)[i];
    assert(post_listing(after).contains(found));
    lemma_newest_first_contains(decoded, view_time(), found);
    lemma_delete_keeps_coherent(
        r,
        author,
        record_key(Collection::Post, id),
        post_decoder(),
        post_key_of(),
    );
    lemma_deleted_not_scanned(
        r,
        author,
        record_key(Collection::Post, id),
        prefix_bytes(Collection::Post),
        post_decoder(),
        post_key_of(),
        found,
    );
}

/// Two identifiers with one key are one identifier.
pub proof fn lemma_record_key_injective(collection: Collection, a: Seq<char>, b: Seq<char>)
    requires
        record_key(collection, a) == record_key(collection, b),
    ensures
        a == b,
{
    let prefix = prefix_bytes(collection);
    let ka = record_key(collection, a);
    let kb = record_key(collection, b);
    assert(ka.subrange(prefix.len() as int, ka.len() as int) =~= vstd::utf8::encode_utf8(a));
    assert(kb.subrange(prefix.len() as int, kb.len() as int) =~= vstd::utf8::encode_utf8(b));
    vstd::utf8::encode_utf8_decode_utf8(a);
    vstd::utf8::encode_utf8_decode_utf8(b);
}

/// In a replica without entries every post lies under its own key.
pub proof fn lemma_empty_in_place(r: ReplicaView)
    requires
        r.entries.len() == 0,
    ensures
        posts_in_place(r),
{
    lemma_empty_coherent(r, post_decoder(), post_key_of());
}

/// Saving a post leaves every post under its own key, as long as what is
/// written reads back as the post and no entry under another key has the
/// hash of what is written.
pub proof fn lemma_save_keeps_in_place(r: ReplicaView, author: Seq<char>, p: PostView)
    requires
        valid(r),
        posts_in_place(r),
        post_survives(p),
        hash_unshared(r, record_key(Collection::Post, p.id), post_encoding(p)),
    ensures
        valid(after_save_post(r, author, p)),
        posts_in_place(after_save_post(r, author, p)),
{
    let key = record_key(Collection::Post, p.id);
    lemma_write_keeps_valid(r, author, key, post_encoding(p));
    lemma_put_keeps_coherent(r, author, key, post_encoding(p), post_decoder(), post_key_of());
}

/// Deleting a post leaves every post under its own key, as long as no post
/// is read from no bytes.
pub proof fn lemma_delete_keeps_in_place(r: ReplicaView, author: Seq<char>, id: Seq<char>)
    requires
        valid(r),
        posts_in_place(r),
        post_decoding(Seq::empty()) is None,
    ensures
        valid(after_delete_post(r, author, id)),
        posts_in_place(after_delete_post(r, author, id)),
{
    let key = record_key(Collection::Post, id);
    lemma_write_keeps_valid(r, author, key, Seq::empty());
    lemma_delete_keeps_coherent(r, author, key, post_decoder(), post_key_of());
}

/// After a post was deleted, every post of another identifier that was
/// listed is still listed, in a replica whose posts lie under their own keys
/// and where no entry under another key has the hash of the empty content.
pub proof fn lemma_others_stay_listed(
    r: ReplicaView,
    author: Seq<char>,
    id: Seq<char>,
    other: PostView,
)
    requires
        valid(r),
        posts_in_place(r),
        hash_unshared(r, record_key(Collection::Post, id), Seq::empty()),
        post_listing(r).contains(other),
        other.id != id,
    ensures
        post_listing(after_delete_post(r, author, id)).contains(other),
{
    let prefix = prefix_bytes(Collection::Post);
    let after = after_delete_post(r, author, id);
    lemma_newest_first_contains(decoded_posts(scanned(r, prefix)), view_time(), other);
    if record_key(Collection::Post, other.id) == record_key(Collection::Post, id) {
        lemma_record_key_injective(Collection::Post, other.id, id);
    }
    lemma_others_stay_scanned(
        r,
        author,
        record_key(Collection::Post, id),
        prefix,
        post_decoder(),
        post_key_of(),
        other,
    );
    lemma_newest_first_contains(decoded_posts(scanned(after, prefix)), view_time(), other);
}

} // verus!

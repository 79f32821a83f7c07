//! The repository of user profiles.

use crate::models::user::{
    decode_users, decoded_users, lemma_user_doc_round_trip, user_decoder, user_decoding, user_doc,
    user_encoding, user_time, user_views, user_writes, User, UserView,
};
use crate::storage::collection::Collection;
use crate::storage::error::{StorageError, StorageResult};
use crate::storage::json::{json_parse, json_text};
use crate::storage::listing::{
    entry_time, is_newest_first, lemma_newest_first_contains, lemma_newest_first_maps,
    lemma_newest_first_sorted, newest_first, sort_newest_first,
};
use crate::storage::replica::{after_write, valid, Replica, ReplicaView};
use crate::storage::repository::post_repository::{
    key_in, lemma_record_key_injective, missing_content, missing_content_detail, prefix_bytes,
    record_key,
};
use crate::storage::repository::records::{
    coherent, delete_record, fetch_record, fetched, hash_unshared, lemma_delete_keeps_coherent,
    lemma_deleted_not_scanned, lemma_empty_coherent, lemma_fetch_after_delete,
    lemma_fetch_after_put, lemma_last_write_wins, lemma_others_stay_scanned,
    lemma_put_keeps_coherent, lemma_write_keeps_valid, put_record, read_as, scan_records, scanned,
    Lookup,
};
use vstd::prelude::*;

verus! {

/// The key of a user profile.
pub fn user_profile_key(user_id: &str) -> (r: Vec<u8>)
    ensures
        r@ == record_key(Collection::User, user_id@),
{
    key_in(Collection::User, user_id)
}

/// What looking up the user with an identifier in a replica comes to.
pub open spec fn user_lookup(r: ReplicaView, id: Seq<char>) -> Lookup<UserView> {
    read_as(fetched(r, record_key(Collection::User, id)), user_decoder())
}

/// The replica after a user was saved by an author.
pub open spec fn after_save_user(r: ReplicaView, author: Seq<char>, u: UserView) -> ReplicaView {
    after_write(r, author, record_key(Collection::User, u.id), user_encoding(u))
}

/// The replica after the user with an identifier was deleted by an author.
pub open spec fn after_delete_user(
    r: ReplicaView,
    author: Seq<char>,
    id: Seq<char>,
) -> ReplicaView {
    after_write(r, author, record_key(Collection::User, id), Seq::empty())
}

/// The users of a replica, the newest first.
pub open spec fn user_listing(r: ReplicaView) -> Seq<UserView> {
    newest_first(decoded_users(scanned(r, prefix_bytes(Collection::User))), user_time())
}

/// The bytes written for a user are not empty and read back as the user.
/// Whether this holds of a user is up to `serde_json`.
pub open spec fn user_survives(u: UserView) -> bool {
    user_encoding(u).len() > 0 && user_decoding(user_encoding(u)) == Some(u)
}

/// Saves a user in the name of an author, under the key of its identifier
/// and in place of what was stored there. Fails, and writes nothing,
/// exactly where `serde_json` does not write the user.
pub fn save_user(replica: &mut Replica, author: &str, user: &User) -> (r: StorageResult<()>)
    ensures
        r is Ok <==> user_writes(user@),
        match r {
            Ok(_) => final(replica)@ == after_save_user(old(replica)@, author@, user@),
            Err(e) => e is Serialization && final(replica)@ == old(replica)@,
        },
{
    let key = user_profile_key(user.id.as_str());
    let bytes = user.encode()?;
    put_record(replica, author, key.as_slice(), bytes.as_slice());
    Ok(())
}

/// What a record that was read says about the user with an identifier:
/// the user, or that there is none, or an error that tells a content that
/// is not at hand from a content that does not read as a user.
pub fn user_from_record(
    user_id: &str,
    record: Result<Option<Vec<u8>>, Vec<u8>>,
) -> (r: StorageResult<Option<User>>)
    ensures
        match record {
            Ok(None) => r matches Ok(None),
            Ok(Some(bytes)) => match user_decoding(bytes@) {
                Some(u) => r matches Ok(Some(x)) && x@ == u,
                None => r matches Err(e) && e is Serialization,
            },
            Err(hash) => r matches Err(StorageError::ContentMissing(m)) && m@
                == missing_content_detail(
                    "user"@,
                    user_id@,
                    hash@,
                ),
        },
{
    match record {
        Ok(None) => Ok(None),
        Ok(Some(bytes)) => match User::decode(bytes.as_slice()) {
            Ok(user) => Ok(Some(user)),
            Err(e) => Err(e),
        },
        Err(hash) => Err(missing_content("user", user_id, hash.as_slice())),
    }
}

/// The user with an identifier: `None` where none is stored or it was
/// deleted; an error where the content is not at hand, and another where it
/// does not read as a user.
pub fn get_user(replica: &Replica, user_id: &str) -> (r: StorageResult<Option<User>>)
    ensures
        match user_lookup(replica@, user_id@) {
            Lookup::Absent => r matches Ok(None),
            Lookup::Found(u) => r matches Ok(Some(x)) && x@ == u,
            Lookup::ContentMissing(hash) => r matches Err(StorageError::ContentMissing(m)) && m@
                == missing_content_detail("user"@, user_id@, hash),
            Lookup::Unreadable => r matches Err(e) && e is Serialization,
        },
{
    let key = user_profile_key(user_id);
    user_from_record(user_id, fetch_record(replica, key.as_slice()))
}

/// Deletes the user with an identifier in the name of an author, by
/// writing a tombstone under its key.
pub fn delete_user(replica: &mut Replica, author: &str, user_id: &str) -> (r: StorageResult<()>)
    ensures
        r is Ok,
        final(replica)@ == after_delete_user(old(replica)@, author@, user_id@),
{
    let key = user_profile_key(user_id);
    delete_record(replica, author, key.as_slice());
    Ok(())
}

/// The users that the contents of a scan stand for, the newest first.
/// Contents that do not read as a user are passed over.
pub fn users_from_scan(contents: &Vec<Vec<u8>>) -> (r: Vec<User>)
    ensures
        user_views(r@) == newest_first(decoded_users(contents.deep_view()), user_time()),
        is_newest_first(user_views(r@), user_time()),
{
    let users = decode_users(contents);
    let sorted = sort_newest_first(users);
    proof {
        lemma_newest_first_maps(users@, |u: User| u@, entry_time::<User>(), user_time());
        lemma_newest_first_sorted(decoded_users(contents.deep_view()), user_time());
    }
    sorted
}

/// Every user that is stored, not deleted and readable, the newest first.
pub fn list_users(replica: &Replica) -> (r: StorageResult<Vec<User>>)
    ensures
        r matches Ok(v) && user_views(v@) == user_listing(replica@) && is_newest_first(
            user_views(v@),
            user_time(),
        ),
{
    let prefix = Collection::User.key_prefix();
    let contents = scan_records(replica, prefix.as_bytes());
    Ok(users_from_scan(&contents))
}

/// What is written for a user reads back as the user wherever `serde_json`
/// reads back the document that it wrote, and wrote something.
pub proof fn lemma_faithful_json_survives(p: UserView)
    requires
        json_text(user_doc(p)).len() > 0,
        json_parse(json_text(user_doc(p))) == Some(user_doc(p)),
    ensures
        user_survives(p),
{
    lemma_user_doc_round_trip(p);
}

/// After a user was saved, looking it up finds it, as long as what is
/// written for the user reads back as the user.
pub proof fn lemma_get_after_save(r: ReplicaView, author: Seq<char>, u: UserView)
    requires
        user_survives(u),
    ensures
        user_lookup(after_save_user(r, author, u), u.id) == Lookup::Found(u),
{
    lemma_fetch_after_put(r, author, record_key(Collection::User, u.id), user_encoding(u));
}

/// After a user was deleted, looking it up finds nothing.
pub proof fn lemma_get_after_delete(r: ReplicaView, author: Seq<char>, id: Seq<char>)
    ensures
        user_lookup(after_delete_user(r, author, id), id) == Lookup::<UserView>::Absent,
{
    lemma_fetch_after_delete(r, author, record_key(Collection::User, id));
}

/// Of two users saved under one identifier the later one is found, as long
/// as what is written for the later one reads back as it.
pub proof fn lemma_last_save_wins(
    r: ReplicaView,
    first_author: Seq<char>,
    second_author: Seq<char>,
    first: UserView,
    second: UserView,
)
    requires
        first.id == second.id,
        user_survives(second),
    ensures
        user_lookup(
            after_save_user(after_save_user(r, first_author, first), second_author, second),
            second.id,
        ) == Lookup::Found(second),
{
    lemma_last_write_wins(
        r,
        first_author,
        second_author,
        record_key(Collection::User, second.id),
        user_encoding(first),
        user_encoding(second),
    );
}

/// A listing is sorted by descending creation time, whatever the replica
/// holds and in whatever order it was written.
pub proof fn lemma_listing_sorted(r: ReplicaView)
    ensures
        is_newest_first(user_listing(r), user_time()),
{
    lemma_newest_first_sorted(
        decoded_users(scanned(r, prefix_bytes(Collection::User))),
        user_time(),
    );
}

/// The key under which a user belongs.
pub open spec fn user_key_of() -> spec_fn(UserView) -> Seq<u8> {
    |u: UserView| record_key(Collection::User, u.id)
}

/// Every record of the replica that reads as a user lies under the key of
/// that user.
pub open spec fn users_in_place(r: ReplicaView) -> bool {
    coherent(r, user_decoder(), user_key_of())
}

/// After a user was deleted, no listing holds a user of its identifier, in
/// a replica whose users lie under their own keys, as long as no user is
/// read from no bytes.
pub proof fn lemma_deleted_not_listed(r: ReplicaView, author: Seq<char>, id: Seq<char>, i: int)
    requires
        valid(r),
        users_in_place(r),
        user_decoding(Seq::empty()) is None,
        0 <= i < user_listing(after_delete_user(r, author, id)).len(),
    ensures
        user_listing(after_delete_user(r, author, id))[i].id != id,
{
    let after = after_delete_user(r, author, id);
    let decoded = decoded_users(scanned(after, prefix_bytes(Collection::User)));
    let found = user_listing(after)[i];
    assert(user_listing(after).contains(found));
    lemma_newest_first_contains(decoded, user_time(), found);
    lemma_delete_keeps_coherent(
        r,
        author,
        record_key(Collection::User, id),
        user_decoder(),
        user_key_of(),
    );
    lemma_deleted_not_scanned(
        r,
        author,
        record_key(Collection::User, id),
        prefix_bytes(Collection::User),
        user_decoder(),
        user_key_of(),
        found,
    );
}

/// In a replica without entries every user lies under its own key.
pub proof fn lemma_empty_in_place(r: ReplicaView)
    requires
        r.entries.len() == 0,
    ensures
        users_in_place(r),
{
    lemma_empty_coherent(r, user_decoder(), user_key_of());
}

/// Saving a user leaves every user under its own key, as long as what is
/// written reads back as the user and no entry under another key has the
/// hash of what is written.
pub proof fn lemma_save_keeps_in_place(r: ReplicaView, author: Seq<char>, p: UserView)
    requires
        valid(r),
        users_in_place(r),
        user_survives(p),
        hash_unshared(r, record_key(Collection::User, p.id), user_encoding(p)),
    ensures
        valid(after_save_user(r, author, p)),
        users_in_place(after_save_user(r, author, p)),
{
    let key = record_key(Collection::User, p.id);
    lemma_write_keeps_valid(r, author, key, user_encoding(p));
    lemma_put_keeps_coherent(r, author, key, user_encoding(p), user_decoder(), user_key_of());
}

/// Deleting a user leaves every user under its own key, as long as no user
/// is read from no bytes.
pub proof fn lemma_delete_keeps_in_place(r: ReplicaView, author: Seq<char>, id: Seq<char>)
    requires
        valid(r),
        users_in_place(r),
        user_decoding(Seq::empty()) is None,
    ensures
        valid(after_delete_user(r, author, id)),
        users_in_place(after_delete_user(r, author, id)),
{
    let key = record_key(Collection::User, id);
    lemma_write_keeps_valid(r, author, key, Seq::empty());
    lemma_delete_keeps_coherent(r, author, key, user_decoder(), user_key_of());
}

/// After a user was deleted, every user of another identifier that was
/// listed is still listed, in a replica whose users lie under their own keys
/// and where no entry under another key has the hash of the empty content.
pub proof fn lemma_others_stay_listed(
    r: ReplicaView,
    author: Seq<char>,
    id: Seq<char>,
    other: UserView,
)
    requires
        valid(r),
        users_in_place(r),
        hash_unshared(r, record_key(Collection::User, id), Seq::empty()),
        user_listing(r).contains(other),
        other.id != id,
    ensures
        user_listing(after_delete_user(r, author, id)).contains(other),
{
    let prefix = prefix_bytes(Collection::User);
    let after = after_delete_user(r, author, id);
    lemma_newest_first_contains(decoded_users(scanned(r, prefix)), user_time(), other);
    if record_key(Collection::User, other.id) == record_key(Collection::User, id) {
        lemma_record_key_injective(Collection::User, other.id, id);
    }
    lemma_others_stay_scanned(
        r,
        author,
        record_key(Collection::User, id),
        prefix,
        user_decoder(),
        user_key_of(),
        other,
    );
    lemma_newest_first_contains(decoded_users(scanned(after, prefix)), user_time(), other);
}

} // verus!

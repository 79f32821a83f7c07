//! The repository of settings: those of each user, and the global ones.

use crate::models::settings::{
    lemma_settings_doc_round_trip, settings_decoder, settings_decoding, settings_doc,
    settings_encoding, settings_write, Settings, SettingsView,
};
use crate::storage::collection::Collection;
use crate::storage::error::{StorageError, StorageResult};
use crate::storage::json::{json_parse, json_text};
use crate::storage::replica::{after_write, Replica, ReplicaView};
use crate::storage::repository::post_repository::{
    key_in, missing_content, missing_content_detail, record_key,
};
use crate::storage::repository::records::{
    delete_record, fetch_record, fetched, lemma_fetch_after_delete, lemma_fetch_after_put,
    lemma_last_write_wins, put_record, read_as, Lookup,
};
use vstd::prelude::*;

verus! {

/// The name under which the settings of a user are kept: the identifier of
/// the user, or "global" for the settings that belong to no user.
pub open spec fn settings_owner(user_id: Option<Seq<char>>) -> Seq<char> {
    match user_id {
        Some(id) => id,
        None => "global"@,
    }
}

/// The key of the settings of a user, or of the global settings.
pub open spec fn spec_settings_key(user_id: Option<Seq<char>>) -> Seq<u8> {
    record_key(Collection::Settings, settings_owner(user_id))
}

/// The view of an optional text slice.
pub open spec fn opt_str(s: Option<&str>) -> Option<Seq<char>> {
    match s {
        Some(t) => Some(t@),
        None => None,
    }
}

/// The key of the settings of a user, or of the global settings.
pub fn settings_key(user_id: Option<&str>) -> (r: Vec<u8>)
    ensures
        r@ == spec_settings_key(opt_str(user_id)),
{
    match user_id {
        Some(id) => key_in(Collection::Settings, id),
        None => key_in(Collection::Settings, "global"),
    }
}

/// The text of the owner of settings, for messages.
fn owner_text<'a>(user_id: Option<&'a str>) -> (r: &'a str)
    ensures
        r@ == settings_owner(opt_str(user_id)),
{
    match user_id {
        Some(id) => id,
        None => "global",
    }
}

/// What looking up the settings of a user in a replica comes to.
pub open spec fn settings_lookup(
    r: ReplicaView,
    user_id: Option<Seq<char>>,
) -> Lookup<SettingsView> {
    read_as(fetched(r, spec_settings_key(user_id)), settings_decoder())
}

/// The replica after settings were saved by an author.
pub open spec fn after_save_settings(
    r: ReplicaView,
    author: Seq<char>,
    s: SettingsView,
) -> ReplicaView {
    after_write(r, author, spec_settings_key(s.user_id), settings_encoding(s))
}

/// The replica after the settings of a user were deleted by an author.
pub open spec fn after_delete_settings(
    r: ReplicaView,
    author: Seq<char>,
    user_id: Option<Seq<char>>,
) -> ReplicaView {
    after_write(r, author, spec_settings_key(user_id), Seq::empty())
}

/// The bytes written for settings are not empty and read back as the
/// settings. Whether this holds of settings is up to `serde_json`.
pub open spec fn settings_survive(s: SettingsView) -> bool {
    settings_encoding(s).len() > 0 && settings_decoding(settings_encoding(s)) == Some(s)
}

/// Saves settings in the name of an author, under the key of their user or
/// the global key, in place of what was stored there. Fails, and writes
/// nothing, exactly where `serde_json` does not write the settings.
pub fn save_settings(
    replica: &mut Replica,
    author: &str,
    settings: &Settings,
) -> (r: StorageResult<()>)
    ensures
        r is Ok <==> settings_write(settings@),
        match r {
            Ok(_) => final(replica)@ == after_save_settings(old(replica)@, author@, settings@),
            Err(e) => e is Serialization && final(replica)@ == old(replica)@,
        },
{
    let key = match &settings.user_id {
        Some(id) => settings_key(Some(id.as_str())),
        None => settings_key(None),
    };
    let bytes = settings.encode()?;
    put_record(replica, author, key.as_slice(), bytes.as_slice());
    Ok(())
}

/// What a record that was read says about the settings of a user: the
/// settings, or that there are none, or an error that tells a content that
/// is not at hand from a content that does not read as settings.
pub fn settings_from_record(
    user_id: Option<&str>,
    record: Result<Option<Vec<u8>>, Vec<u8>>,
) -> (r: StorageResult<Option<Settings>>)
    ensures
        match record {
            Ok(None) => r matches Ok(None),
            Ok(Some(bytes)) => match settings_decoding(bytes@) {
                Some(s) => r matches Ok(Some(x)) && x@ == s,
                None => r matches Err(e) && e is Serialization,
            },
            Err(hash) => r matches Err(StorageError::ContentMissing(m)) && m@
                == missing_content_detail(
                    "settings of"@,
                    settings_owner(opt_str(user_id)),
                    hash@,
                ),
        },
{
    match record {
        Ok(None) => Ok(None),
        Ok(Some(bytes)) => match Settings::decode(bytes.as_slice()) {
            Ok(settings) => Ok(Some(settings)),
            Err(e) => Err(e),
        },
        Err(hash) => Err(missing_content("settings of", owner_text(user_id), hash.as_slice())),
    }
}

/// The settings of a user, or the global ones: `None` where none are
/// stored or they were deleted; an error where the content is not at hand,
/// and another where it does not read as settings.
pub fn get_settings(
    replica: &Replica,
    user_id: Option<&str>,
) -> (r: StorageResult<Option<Settings>>)
    ensures
        match settings_lookup(replica@, opt_str(user_id)) {
            Lookup::Absent => r matches Ok(None),
            Lookup::Found(s) => r matches Ok(Some(x)) && x@ == s,
            Lookup::ContentMissing(hash) => r matches Err(StorageError::ContentMissing(m)) && m@
                == missing_content_detail("settings of"@, settings_owner(opt_str(user_id)), hash),
            Lookup::Unreadable => r matches Err(e) && e is Serialization,
        },
{
    let key = settings_key(user_id);
    settings_from_record(user_id, fetch_record(replica, key.as_slice()))
}

/// Deletes the settings of a user, or the global ones, in the name of an
/// author, by writing a tombstone under their key.
pub fn delete_settings(
    replica: &mut Replica,
    author: &str,
    user_id: Option<&str>,
) -> (r: StorageResult<()>)
    ensures
        r is Ok,
        final(replica)@ == after_delete_settings(old(replica)@, author@, opt_str(user_id)),
{
    let key = settings_key(user_id);
    delete_record(replica, author, key.as_slice());
    Ok(())
}

/// What is written for settings reads back as the settings wherever
/// `serde_json` reads back the document that it wrote, and wrote something.
pub proof fn lemma_faithful_json_survives(s: SettingsView)
    requires
        json_text(settings_doc(s)).len() > 0,
        json_parse(json_text(settings_doc(s))) == Some(settings_doc(s)),
    ensures
        settings_survive(s),
{
    lemma_settings_doc_round_trip(s);
}

/// After settings were saved, looking them up finds them, as long as what
/// is written for the settings reads back as them.
pub proof fn lemma_get_after_save(r: ReplicaView, author: Seq<char>, s: SettingsView)
    requires
        settings_survive(s),
    ensures
        settings_lookup(after_save_settings(r, author, s), s.user_id) == Lookup::Found(s),
{
    lemma_fetch_after_put(r, author, spec_settings_key(s.user_id), settings_encoding(s));
}

/// After settings were deleted, looking them up finds nothing.
pub proof fn lemma_get_after_delete(r: ReplicaView, author: Seq<char>, user_id: Option<Seq<char>>)
    ensures
        settings_lookup(after_delete_settings(r, author, user_id), user_id) == Lookup::<
            SettingsView,
        >::Absent,
{
    lemma_fetch_after_delete(r, author, spec_settings_key(user_id));
}

/// Of two settings saved for one user the later ones are found, as long as
/// what is written for the later ones reads back as them.
pub proof fn lemma_last_save_wins(
    r: ReplicaView,
    first_author: Seq<char>,
    second_author: Seq<char>,
    first: SettingsView,
    second: SettingsView,
)
    requires
        first.user_id == second.user_id,
        settings_survive(second),
    ensures
        settings_lookup(
            after_save_settings(after_save_settings(r, first_author, first), second_author, second),
            second.user_id,
        ) == Lookup::Found(second),
{
    lemma_last_write_wins(
        r,
        first_author,
        second_author,
        spec_settings_key(second.user_id),
        settings_encoding(first),
        settings_encoding(second),
    );
}

} // verus!

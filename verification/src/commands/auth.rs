//! Commands on the users of this installation.

use crate::models::user::{
    opt_text, user_decoding, user_encoding, user_writes, User, UserView,
};
use crate::network::iroh::{get_network_status, not_initialized_message, Network};
use crate::storage::clock::unix_now;
use crate::storage::docs::{fresh_id, put_entry};
use crate::storage::models::{content_of, entry_id, DocView, EntryView};
use crate::storage::storage_manager::StorageManager;
use crate::storage::text::{decimal, decimal_of, join};
use vstd::prelude::*;
use vstd::string::*;

verus! {

/// What can go wrong in a command on the users of this installation.
#[derive(Debug, PartialEq, Eq)]
pub enum AuthError {
    KeyGeneration(String),
    Storage(String),
    FileSystem(String),
    UserNotFound,
    CredentialsNotFound,
    Other(String),
}

impl AuthError {
    /// The message shown for an error.
    pub open spec fn spec_message(&self) -> Seq<char> {
        match self {
            AuthError::KeyGeneration(m) => "Failed to generate key pair: "@ + m@,
            AuthError::Storage(m) => "Storage error: "@ + m@,
            AuthError::FileSystem(m) => "File system error: "@ + m@,
            AuthError::UserNotFound => "User not found"@,
            AuthError::CredentialsNotFound => "Credentials not found"@,
            AuthError::Other(m) => m@,
        }
    }

    /// The message shown for an error.
    pub fn message(&self) -> (r: String)
        ensures
            r@ == self.spec_message(),
    {
        match self {
            AuthError::KeyGeneration(m) => join("Failed to generate key pair: ", m.as_str()),
            AuthError::Storage(m) => join("Storage error: ", m.as_str()),
            AuthError::FileSystem(m) => join("File system error: ", m.as_str()),
            AuthError::UserNotFound => "User not found".to_string(),
            AuthError::CredentialsNotFound => "Credentials not found".to_string(),
            AuthError::Other(m) => m.clone(),
        }
    }
}

/// The answer to a command that creates a user or signs one in.
#[derive(Debug, PartialEq, Eq)]
pub struct AuthResult {
    pub user_id: String,
    pub success: bool,
    pub message: Option<String>,
}

/// A user as the list of users shows it.
#[derive(Debug, PartialEq, Eq)]
pub struct UserListItem {
    pub id: String,
    pub display_name: String,
}

/// The longest public key that is encoded, in bytes. What the encoder can
/// take is bounded by what the machine can address.
pub const MAX_KEY_LEN: usize = 0x3fff_ffff;

/// How the standard alphabet of Base64, with padding, writes some bytes.
pub uninterp spec fn base64_of(bytes: Seq<u8>) -> Seq<char>;

/// `Engine::encode` of `base64::engine::general_purpose::STANDARD`: the
/// bytes in Base64. The input must be short enough for the length of the
/// output to be a number of the machine.
#[verifier::external_body]
fn base64_standard(bytes: &[u8]) -> (r: String)
    requires
        bytes@.len() <= MAX_KEY_LEN,
    ensures
        r@ == base64_of(bytes@),
{
    base64::Engine::encode(&base64::engine::general_purpose::STANDARD, bytes)
}

/// The profile of a new user: the given identifier, name, key and time,
/// the biography if one is given and an empty one if not, no avatar, and
/// nobody followed or following.
pub open spec fn fresh_profile(
    id: Seq<char>,
    display_name: Seq<char>,
    bio: Option<Seq<char>>,
    public_key: Seq<char>,
    created_at: i64,
) -> UserView {
    UserView {
        id,
        display_name,
        bio: match bio {
            Some(b) => b,
            None => Seq::empty(),
        },
        public_key,
        avatar: None,
        following: Seq::empty(),
        followers: Seq::empty(),
        created_at,
    }
}

/// The profile of a new user.
pub fn new_user(
    user_id: String,
    display_name: String,
    bio: Option<String>,
    public_key: String,
    created_at: i64,
) -> (r: User)
    ensures
        r@ == fresh_profile(user_id@, display_name@, opt_text(bio), public_key@, created_at),
{
    let user = User {
        id: user_id,
        display_name,
        bio: match bio {
            Some(b) => b,
            None => String::new(),
        },
        public_key,
        avatar: None,
        following: Vec::new(),
        followers: Vec::new(),
        created_at,
    };
    proof {
        assert(user.following.deep_view() =~= Seq::<Seq<char>>::empty());
        assert(user.followers.deep_view() =~= Seq::<Seq<char>>::empty());
    }
    user
}

/// Creates a user for a public key and saves the profile. The user gets a
/// random identifier of 36 characters and the present time; the profile
/// holds the key in Base64. A key that is too long to encode is refused.
/// For any other key the profile is saved unless no document is in use or
/// `serde_json` does not write the profile that was made, which are
/// storage errors.
pub fn create_user(
    manager: &mut StorageManager,
    display_name: String,
    bio: Option<String>,
    public_key: &[u8],
) -> (r: Result<User, AuthError>)
    ensures
        final(manager).document_id() == old(manager).document_id(),
        if public_key@.len() > MAX_KEY_LEN {
            &&& r matches Err(AuthError::KeyGeneration(m)) && m@ == "Public key is too long"@
            &&& final(manager).docs_view() == old(manager).docs_view()
        } else {
            match r {
                Ok(u) => {
                    &&& u@ == fresh_profile(
                        u@.id,
                        display_name@,
                        opt_text(bio),
                        base64_of(public_key@),
                        u@.created_at,
                    )
                    &&& u@.id.len() == 36
                    &&& user_writes(u@)
                    &&& old(manager).document() is Ok
                    &&& final(manager).docs_view() == put_entry(
                        old(manager).docs_view(),
                        old(manager).document()->Ok_0.id,
                        EntryView {
                            id: entry_id("users"@, u@.id),
                            namespace: "users"@,
                            key: u@.id,
                            content: user_encoding(u@),
                        },
                    )
                },
                Err(e) => {
                    &&& e is Storage
                    &&& final(manager).docs_view() == old(manager).docs_view()
                    &&& match old(manager).document() {
                        Ok(_) => exists|id: Seq<char>, created_at: i64|
                            id.len() == 36 && !user_writes(
                                #[trigger] fresh_profile(
                                    id,
                                    display_name@,
                                    opt_text(bio),
                                    base64_of(public_key@),
                                    created_at,
                                ),
                            ),
                        Err(m) => e->Storage_0@ == m,
                    }
                },
            }
        },
{
    if public_key.len() > MAX_KEY_LEN {
        return Err(AuthError::KeyGeneration("Public key is too long".to_string()));
    }
    let ghost name = display_name@;
    let ghost about = opt_text(bio);
    let user = new_user(fresh_id(), display_name, bio, base64_standard(public_key), unix_now());
    assert(user@ == fresh_profile(
        user@.id,
        name,
        about,
        base64_of(public_key@),
        user@.created_at,
    ));
    match manager.save_user(&user) {
        Ok(_) => Ok(user),
        Err(m) => Err(AuthError::Storage(m)),
    }
}

/// The answer after a user was created.
pub fn auth_result(user_id: String) -> (r: AuthResult)
    ensures
        r.user_id == user_id,
        r.success,
        r.message is None,
{
    AuthResult { user_id, success: true, message: None }
}

/// The message that tells how many peers are connected.
pub open spec fn connected_message(peer_count: nat) -> Seq<char> {
    "Connected to "@ + decimal_of(peer_count as int) + " peers"@
}

/// Signs a user in. The user needs credentials on this machine and a
/// profile in the store, and the network has to be joined. The answer
/// tells how many peers are connected.
pub fn sign_in(
    manager: &StorageManager,
    network: &Option<Network>,
    user_id: String,
    has_credentials: bool,
) -> (r: Result<AuthResult, AuthError>)
    ensures
        !has_credentials ==> r matches Err(AuthError::CredentialsNotFound),
        has_credentials ==> match manager.document() {
            Ok(d) => match content_of(d.entries, entry_id("users"@, user_id@)) {
                None => r matches Err(AuthError::UserNotFound),
                Some(bytes) => match user_decoding(bytes) {
                    Some(_) => match network {
                        Some(_) => {
                            &&& r matches Ok(a) && a.user_id == user_id && a.success
                            &&& r->Ok_0.message matches Some(m) && m@ == connected_message(0)
                        },
                        None => r matches Err(AuthError::Other(m)) && m@
                            == "Failed to get network status: "@
                            + not_initialized_message(),
                    },
                    None => r matches Err(AuthError::Storage(_)),
                },
            },
            Err(t) => r matches Err(AuthError::Storage(m)) && m@ == t,
        },
{
    if !has_credentials {
        return Err(AuthError::CredentialsNotFound);
    }
    match manager.get_user(user_id.as_str()) {
        Ok(Some(_)) => {
            let status = match get_network_status(network) {
                Ok(status) => status,
                Err(e) => {
                    return Err(
                        AuthError::Other(join("Failed to get network status: ", e.as_str())),
                    );
                },
            };
            let mut m = join("Connected to ", decimal(status.peer_count as u64).as_str());
            m.append(" peers");
            Ok(AuthResult { user_id, success: true, message: Some(m) })
        },
        Ok(None) => Err(AuthError::UserNotFound),
        Err(e) => Err(AuthError::Storage(e)),
    }
}

/// The list entry of the user with an identifier, if the store holds a
/// readable profile under it.
pub open spec fn listed(d: DocView, id: Seq<char>) -> Option<(Seq<char>, Seq<char>)> {
    match content_of(d.entries, entry_id("users"@, id)) {
        Some(bytes) => match user_decoding(bytes) {
            Some(u) => Some((u.id, u.display_name)),
            None => None,
        },
        None => None,
    }
}

/// The views of a list of entries of the list of users.
pub open spec fn item_views(items: Seq<UserListItem>) -> Seq<(Seq<char>, Seq<char>)> {
    items.map_values(|i: UserListItem| (i.id@, i.display_name@))
}

/// The users of this installation: for each of the given identifiers, in
/// their order, the user whose profile the store holds under it. An
/// identifier without a readable profile is passed over.
pub fn list_users(
    manager: &StorageManager,
    user_ids: &Vec<String>,
) -> (r: Result<Vec<UserListItem>, AuthError>)
    ensures
        r matches Ok(items) && match manager.document() {
            Ok(d) => item_views(items@) == user_ids.deep_view().filter_map(
                |id: Seq<char>| listed(d, id),
            ),
            Err(_) => items@.len() == 0,
        },
{
    let ghost ids = user_ids.deep_view();
    let mut out: Vec<UserListItem> = Vec::new();
    let mut i: usize = 0;
    proof {
        assert(ids.take(0) =~= Seq::<Seq<char>>::empty());
        assert(item_views(out@) =~= Seq::<(Seq<char>, Seq<char>)>::empty());
    }
    while i < user_ids.len()
        invariant
            i <= user_ids.len(),
            ids == user_ids.deep_view(),
            match manager.document() {
                Ok(d) => item_views(out@) == ids.take(i as int).filter_map(
                    |id: Seq<char>| listed(d, id),
                ),
                Err(_) => out@.len() == 0,
            },
        decreases user_ids.len() - i,
    {
        let ghost before = item_views(out@);
        proof {
            if manager.document() is Ok {
                let d = manager.document()->Ok_0;
                ids.lemma_filter_map_take_succ(|id: Seq<char>| listed(d, id), i as int);
                assert(ids[i as int] == user_ids[i as int]@);
            }
        }
        match manager.get_user(user_ids[i].as_str()) {
            Ok(Some(user)) => {
                let ghost v = (user.id@, user.display_name@);
                out.push(UserListItem { id: user.id, display_name: user.display_name });
                assert(item_views(out@) =~= before + seq![v]);
            },
            _ => {
                assert(before + Seq::<(Seq<char>, Seq<char>)>::empty() =~= before);
            },
        }
        i += 1;
    }
    proof {
        assert(ids.take(ids.len() as int) =~= ids);
    }
    Ok(out)
}

} // verus!

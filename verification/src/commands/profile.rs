//! Commands on user profiles.

use crate::models::user::{opt_text, user_writes, User, UserView};
use crate::storage::error::StorageError;
use crate::storage::replica::Replica;
use crate::storage::repository::records::Lookup;
use crate::storage::repository::user_repository::{
    after_save_user, get_user, save_user, user_lookup,
};
use crate::storage::text::{blank, find_text, is_blank, join, same_text};
use crate::storage::text_set::{other_than, without_text};
use vstd::prelude::*;
use vstd::string::*;

verus! {

/// The longest display name, in bytes.
pub const MAX_DISPLAY_NAME_LEN: usize = 50;

/// The longest biography, in bytes.
pub const MAX_BIO_LEN: usize = 160;

/// What can go wrong in a command on profiles.
#[derive(Debug, PartialEq, Eq)]
pub enum ProfileError {
    Storage(String),
    Network(String),
    UserNotFound,
    Validation(String),
    Other(String),
}

impl ProfileError {
    /// The message shown for an error.
    pub open spec fn spec_message(&self) -> Seq<char> {
        match self {
            ProfileError::Storage(m) => "Storage error: "@ + m@,
            ProfileError::Network(m) => "Network error: "@ + m@,
            ProfileError::UserNotFound => "User not found"@,
            ProfileError::Validation(m) => "Validation error: "@ + m@,
            ProfileError::Other(m) => m@,
        }
    }

    /// The message shown for an error.
    pub fn message(&self) -> (r: String)
        ensures
            r@ == self.spec_message(),
    {
        match self {
            ProfileError::Storage(m) => join("Storage error: ", m.as_str()),
            ProfileError::Network(m) => join("Network error: ", m.as_str()),
            ProfileError::UserNotFound => "User not found".to_string(),
            ProfileError::Validation(m) => join("Validation error: ", m.as_str()),
            ProfileError::Other(m) => m.clone(),
        }
    }

    /// The error of a command for an error of the storage layer: a storage
    /// error with the message of that error.
    pub fn from_storage(err: &StorageError) -> (r: ProfileError)
        ensures
            r matches ProfileError::Storage(m) && m@ == err.spec_message(),
    {
        ProfileError::Storage(err.message())
    }
}

/// The answer to a command that changes a profile.
#[derive(Debug, PartialEq, Eq)]
pub struct ProfileUpdateResult {
    pub success: bool,
    pub message: Option<String>,
}

/// The profile of a user, if there is one.
pub fn get_profile(replica: &Replica, user_id: String) -> (r: Result<Option<User>, ProfileError>)
    ensures
        match user_lookup(replica@, user_id@) {
            Lookup::Absent => r matches Ok(None),
            Lookup::Found(u) => r matches Ok(Some(x)) && x@ == u,
            _ => r matches Err(e) && e is Storage,
        },
{
    match get_user(replica, user_id.as_str()) {
        Ok(user) => Ok(user),
        Err(e) => Err(ProfileError::from_storage(&e)),
    }
}

/// Why a change of a profile is refused, if it is: a display name that is
/// blank or longer than 50 bytes, or a biography longer than 160 bytes.
pub open spec fn profile_fault(
    display_name: Option<Seq<char>>,
    bio: Option<Seq<char>>,
) -> Option<Seq<char>> {
    if display_name is Some && is_blank(display_name->Some_0) {
        Some("Display name cannot be empty"@)
    } else if display_name is Some && vstd::utf8::encode_utf8(display_name->Some_0).len()
        > MAX_DISPLAY_NAME_LEN {
        Some("Display name exceeds maximum length of 50 characters"@)
    } else if bio is Some && vstd::utf8::encode_utf8(bio->Some_0).len() > MAX_BIO_LEN {
        Some("Bio exceeds maximum length of 160 characters"@)
    } else {
        None
    }
}

/// Checks a change of a profile.
pub fn validate_profile(
    display_name: &Option<String>,
    bio: &Option<String>,
) -> (r: Result<(), ProfileError>)
    ensures
        match profile_fault(opt_text(*display_name), opt_text(*bio)) {
            Some(fault) => r matches Err(ProfileError::Validation(m)) && m@ == fault,
            None => r is Ok,
        },
{
    match display_name {
        Some(name) => {
            if blank(name.as_str()) {
                return Err(ProfileError::Validation("Display name cannot be empty".to_string()));
            }
            if name.as_str().as_bytes().len() > MAX_DISPLAY_NAME_LEN {
                return Err(
                    ProfileError::Validation(
                        "Display name exceeds maximum length of 50 characters".to_string(),
                    ),
                );
            }
        },
        None => {},
    }
    match bio {
        Some(bio) => {
            if bio.as_str().as_bytes().len() > MAX_BIO_LEN {
                return Err(
                    ProfileError::Validation(
                        "Bio exceeds maximum length of 160 characters".to_string(),
                    ),
                );
            }
        },
        None => {},
    }
    Ok(())
}

/// A profile after a change: each field that is given replaces the one of
/// the profile.
pub open spec fn changed(
    u: UserView,
    display_name: Option<Seq<char>>,
    bio: Option<Seq<char>>,
    avatar: Option<Seq<char>>,
) -> UserView {
    UserView {
        display_name: match display_name {
            Some(n) => n,
            None => u.display_name,
        },
        bio: match bio {
            Some(b) => b,
            None => u.bio,
        },
        avatar: match avatar {
            Some(a) => Some(a),
            None => u.avatar,
        },
        ..u
    }
}

/// Applies a change to a profile.
pub fn apply_profile(
    user: User,
    display_name: Option<String>,
    bio: Option<String>,
    avatar: Option<String>,
) -> (r: User)
    ensures
        r@ == changed(user@, opt_text(display_name), opt_text(bio), opt_text(avatar)),
{
    let mut user = user;
    match display_name {
        Some(n) => {
            user.display_name = n;
        },
        None => {},
    }
    match bio {
        Some(b) => {
            user.bio = b;
        },
        None => {},
    }
    match avatar {
        Some(a) => {
            user.avatar = Some(a);
        },
        None => {},
    }
    user
}

/// Changes the profile of a user and saves it under the identity of this
/// node. A change that does not pass the check is refused before anything
/// is read. A user that is not there is an error of its own; a profile
/// that cannot be read is a storage error, and so is a changed profile that
/// `serde_json` does not write, and only that. Nothing is written unless
/// the answer is the changed profile.
pub fn update_profile(
    replica: &mut Replica,
    identity: &str,
    user_id: String,
    display_name: Option<String>,
    bio: Option<String>,
    avatar: Option<String>,
) -> (r: Result<User, ProfileError>)
    ensures
        r is Err ==> final(replica)@ == old(replica)@,
        match profile_fault(opt_text(display_name), opt_text(bio)) {
            Some(fault) => r matches Err(ProfileError::Validation(m)) && m@ == fault,
            None => match user_lookup(old(replica)@, user_id@) {
                Lookup::Absent => r matches Err(ProfileError::UserNotFound),
                Lookup::Found(u) => {
                    let next = changed(u, opt_text(display_name), opt_text(bio), opt_text(avatar));
                    &&& r is Ok <==> user_writes(next)
                    &&& match r {
                        Ok(x) => x@ == next && final(replica)@ == after_save_user(
                            old(replica)@,
                            identity@,
                            next,
                        ),
                        Err(e) => e is Storage,
                    }
                },
                _ => r matches Err(e) && e is Storage,
            },
        },
{
    validate_profile(&display_name, &bio)?;
    let user = match get_user(replica, user_id.as_str()) {
        Ok(Some(user)) => user,
        Ok(None) => {
            return Err(ProfileError::UserNotFound);
        },
        Err(e) => {
            return Err(ProfileError::from_storage(&e));
        },
    };
    let updated = apply_profile(user, display_name, bio, avatar);
    match save_user(replica, identity, &updated) {
        Ok(_) => Ok(updated),
        Err(e) => Err(ProfileError::from_storage(&e)),
    }
}

/// The answer after a change was saved and its publication was tried. The
/// change counts as made whether or not it could be published.
pub fn profile_result(published: Result<(), String>) -> (r: ProfileUpdateResult)
    ensures
        r.success,
        match published {
            Ok(_) => r.message is None,
            Err(e) => r.message matches Some(m) && m@ == "Profile updated but failed to publish: "@
                + e@,
        },
{
    match published {
        Ok(_) => ProfileUpdateResult { success: true, message: None },
        Err(e) => ProfileUpdateResult {
            success: true,
            message: Some(join("Profile updated but failed to publish: ", e.as_str())),
        },
    }
}

/// What following came to.
#[derive(Clone, Copy, Debug, PartialEq, Eq, Structural)]
pub enum FollowOutcome {
    /// The user follows the other one now; this is to be published.
    Followed,
    /// The user followed the other one already; nothing was written.
    AlreadyFollowing,
}

/// Nobody follows themselves.
pub fn check_follow(user_id: &str, target_user_id: &str) -> (r: Result<(), ProfileError>)
    ensures
        if user_id@ == target_user_id@ {
            r matches Err(ProfileError::Validation(m)) && m@ == "Cannot follow yourself"@
        } else {
            r is Ok
        },
{
    if same_text(user_id, target_user_id) {
        Err(ProfileError::Validation("Cannot follow yourself".to_string()))
    } else {
        Ok(())
    }
}

/// Whether a user follows another one.
pub fn follows(user: &User, target_user_id: &str) -> (r: bool)
    ensures
        r == user@.following.contains(target_user_id@),
{
    find_text(&user.following, target_user_id) < user.following.len()
}

/// The profile of a user who follows one more.
pub fn with_following(user: User, target_user_id: String) -> (r: User)
    ensures
        r@ == (UserView { following: user@.following.push(target_user_id@), ..user@ }),
{
    let mut user = user;
    let ghost before = user@;
    user.following.push(target_user_id);
    proof {
        assert(user.following.deep_view() =~= before.following.push(target_user_id@));
    }
    user
}

/// The profile of a user who follows one less: the other one is taken out
/// wherever they stand among those followed.
pub fn without_following(user: User, target_user_id: &str) -> (r: User)
    ensures
        r@ == (UserView {
            following: user@.following.filter(other_than(target_user_id@)),
            ..user@
        }),
{
    let mut user = user;
    user.following = without_text(&user.following, target_user_id);
    user
}

/// Makes a user follow another one. Nobody follows themselves. Both users
/// have to be there, the other one only if the user does not follow them
/// yet. With both there, following fails exactly where `serde_json` does
/// not write the new profile. Nothing is written unless the answer is
/// `Followed`.
pub fn follow_user(
    replica: &mut Replica,
    identity: &str,
    user_id: String,
    target_user_id: String,
) -> (r: Result<FollowOutcome, ProfileError>)
    ensures
        !(r matches Ok(FollowOutcome::Followed)) ==> final(replica)@ == old(replica)@,
        if user_id@ == target_user_id@ {
            r matches Err(ProfileError::Validation(m)) && m@ == "Cannot follow yourself"@
        } else {
            match user_lookup(old(replica)@, user_id@) {
                Lookup::Absent => r matches Err(ProfileError::UserNotFound),
                Lookup::Found(u) => if u.following.contains(target_user_id@) {
                    r matches Ok(FollowOutcome::AlreadyFollowing)
                } else {
                    match user_lookup(old(replica)@, target_user_id@) {
                        Lookup::Absent => r matches Err(ProfileError::UserNotFound),
                        Lookup::Found(_) => {
                            let next = UserView {
                                following: u.following.push(target_user_id@),
                                ..u
                            };
                            &&& r is Ok <==> user_writes(next)
                            &&& match r {
                                Ok(o) => o is Followed && final(replica)@ == after_save_user(
                                    old(replica)@,
                                    identity@,
                                    next,
                                ),
                                Err(e) => e is Storage,
                            }
                        },
                        _ => r matches Err(e) && e is Storage,
                    }
                },
                _ => r matches Err(e) && e is Storage,
            }
        },
{
    check_follow(user_id.as_str(), target_user_id.as_str())?;
    let user = match get_user(replica, user_id.as_str()) {
        Ok(Some(user)) => user,
        Ok(None) => {
            return Err(ProfileError::UserNotFound);
        },
        Err(e) => {
            return Err(ProfileError::from_storage(&e));
        },
    };
    if follows(&user, target_user_id.as_str()) {
        return Ok(FollowOutcome::AlreadyFollowing);
    }
    match get_user(replica, target_user_id.as_str()) {
        Ok(Some(_)) => {},
        Ok(None) => {
            return Err(ProfileError::UserNotFound);
        },
        Err(e) => {
            return Err(ProfileError::from_storage(&e));
        },
    }
    let user = with_following(user, target_user_id);
    match save_user(replica, identity, &user) {
        Ok(_) => Ok(FollowOutcome::Followed),
        Err(e) => Err(ProfileError::from_storage(&e)),
    }
}

/// The answer after following and, where the user follows anew, after the
/// publication was tried.
pub fn follow_result(
    outcome: FollowOutcome,
    published: Result<(), String>,
) -> (r: ProfileUpdateResult)
    ensures
        r.success,
        match outcome {
            FollowOutcome::AlreadyFollowing => r.message matches Some(m) && m@
                == "Already following this user"@,
            FollowOutcome::Followed => match published {
                Ok(_) => r.message is None,
                Err(e) => r.message matches Some(m) && m@
                    == "Follow successful but failed to publish: "@ + e@,
            },
        },
{
    match outcome {
        FollowOutcome::AlreadyFollowing => ProfileUpdateResult {
            success: true,
            message: Some("Already following this user".to_string()),
        },
        FollowOutcome::Followed => match published {
            Ok(_) => ProfileUpdateResult { success: true, message: None },
            Err(e) => ProfileUpdateResult {
                success: true,
                message: Some(join("Follow successful but failed to publish: ", e.as_str())),
            },
        },
    }
}

/// Makes a user stop following another one, and says whether the user
/// followed them. The profile is saved either way, without the other one
/// among those followed; for a user that is there this fails exactly where
/// `serde_json` does not write the new profile.
pub fn unfollow_user(
    replica: &mut Replica,
    identity: &str,
    user_id: String,
    target_user_id: String,
) -> (r: Result<bool, ProfileError>)
    ensures
        r is Err ==> final(replica)@ == old(replica)@,
        match user_lookup(old(replica)@, user_id@) {
            Lookup::Absent => r matches Err(ProfileError::UserNotFound),
            Lookup::Found(u) => {
                let next = UserView {
                    following: u.following.filter(other_than(target_user_id@)),
                    ..u
                };
                &&& r is Ok <==> user_writes(next)
                &&& match r {
                    Ok(was_following) => was_following == u.following.contains(target_user_id@)
                        && final(replica)@ == after_save_user(old(replica)@, identity@, next),
                    Err(e) => e is Storage,
                }
            },
            _ => r matches Err(e) && e is Storage,
        },
{
    let user = match get_user(replica, user_id.as_str()) {
        Ok(Some(user)) => user,
        Ok(None) => {
            return Err(ProfileError::UserNotFound);
        },
        Err(e) => {
            return Err(ProfileError::from_storage(&e));
        },
    };
    let was_following = follows(&user, target_user_id.as_str());
    let user = without_following(user, target_user_id.as_str());
    match save_user(replica, identity, &user) {
        Ok(_) => Ok(was_following),
        Err(e) => Err(ProfileError::from_storage(&e)),
    }
}

/// The answer after unfollowing and after the publication was tried.
pub fn unfollow_result(
    was_following: bool,
    published: Result<(), String>,
) -> (r: ProfileUpdateResult)
    ensures
        r.success,
        match published {
            Ok(_) => if was_following {
                r.message is None
            } else {
                r.message matches Some(m) && m@ == "User was not being followed"@
            },
            Err(e) => r.message matches Some(m) && m@
                == "Unfollow successful but failed to publish: "@ + e@,
        },
{
    match published {
        Ok(_) => {
            if was_following {
                ProfileUpdateResult { success: true, message: None }
            } else {
                ProfileUpdateResult {
                    success: true,
                    message: Some("User was not being followed".to_string()),
                }
            }
        },
        Err(e) => ProfileUpdateResult {
            success: true,
            message: Some(join("Unfollow successful but failed to publish: ", e.as_str())),
        },
    }
}

} // verus!

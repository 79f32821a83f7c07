//! Commands on settings.

use crate::models::settings::{default_settings, settings_write, SettingsView};
use crate::models::user::opt_text;
use crate::storage::error::StorageError;
use crate::storage::replica::Replica;
use crate::storage::repository::records::Lookup;
use crate::storage::repository::settings_repository::{
    after_save_settings, get_settings as stored_settings, opt_str, save_settings, settings_lookup,
};
use crate::storage::text::join;
use vstd::prelude::*;
use vstd::string::*;

pub use crate::models::settings::Settings;

verus! {

/// What can go wrong in a command on settings.
#[derive(Debug, PartialEq, Eq)]
pub enum SettingsError {
    Storage(String),
    Validation(String),
    Other(String),
}

impl SettingsError {
    /// The message shown for an error.
    pub open spec fn spec_message(&self) -> Seq<char> {
        match self {
            SettingsError::Storage(m) => "Storage error: "@ + m@,
            SettingsError::Validation(m) => "Validation error: "@ + m@,
            SettingsError::Other(m) => m@,
        }
    }

    /// The message shown for an error.
    pub fn message(&self) -> (r: String)
        ensures
            r@ == self.spec_message(),
    {
        match self {
            SettingsError::Storage(m) => join("Storage error: ", m.as_str()),
            SettingsError::Validation(m) => join("Validation error: ", m.as_str()),
            SettingsError::Other(m) => m.clone(),
        }
    }

    /// The error of a command for an error of the storage layer: a storage
    /// error with the message of that error.
    pub fn from_storage(err: &StorageError) -> (r: SettingsError)
        ensures
            r matches SettingsError::Storage(m) && m@ == err.spec_message(),
    {
        SettingsError::Storage(err.message())
    }
}

/// The answer to a command that changes settings.
#[derive(Debug, PartialEq, Eq)]
pub struct SettingsUpdateResult {
    pub success: bool,
    pub message: Option<String>,
}

/// The settings in force for a user, or the global ones: those that are
/// stored, and the defaults where none are.
pub open spec fn in_force(
    found: Lookup<SettingsView>,
    user_id: Option<Seq<char>>,
) -> Option<SettingsView> {
    match found {
        Lookup::Found(s) => Some(s),
        Lookup::Absent => Some(SettingsView { user_id, ..default_settings() }),
        _ => None,
    }
}

fn user_of(user_id: &Option<String>) -> (r: Option<&str>)
    ensures
        opt_str(r) == opt_text(*user_id),
{
    match user_id {
        Some(id) => Some(id.as_str()),
        None => None,
    }
}

/// The settings of a user, or the global ones: those that are stored, and
/// the defaults where none are. Settings that cannot be read are a storage
/// error.
pub fn get_settings(
    replica: &Replica,
    user_id: Option<String>,
) -> (r: Result<Settings, SettingsError>)
    ensures
        match in_force(settings_lookup(replica@, opt_text(user_id)), opt_text(user_id)) {
            Some(s) => r matches Ok(x) && x@ == s,
            None => r matches Err(e) && e is Storage,
        },
{
    match stored_settings(replica, user_of(&user_id)) {
        Ok(stored) => Ok(settings_or_default(stored, user_id)),
        Err(e) => Err(SettingsError::from_storage(&e)),
    }
}

/// The view of optional settings.
pub open spec fn opt_settings(s: Option<Settings>) -> Option<SettingsView> {
    match s {
        Some(s) => Some(s@),
        None => None,
    }
}

/// The settings in force: those that are stored, and the defaults for the
/// user where none are.
pub fn settings_or_default(stored: Option<Settings>, user_id: Option<String>) -> (r: Settings)
    ensures
        r@ == (match opt_settings(stored) {
            Some(s) => s,
            None => SettingsView { user_id: opt_text(user_id), ..default_settings() },
        }),
{
    match stored {
        Some(settings) => settings,
        None => {
            let mut settings = Settings::default();
            settings.user_id = user_id;
            settings
        },
    }
}

/// Settings after a change: each field that is given replaces the one in
/// force, and the settings are those of the given user.
pub fn merge_settings(
    current: Settings,
    user_id: Option<String>,
    selected_relays: Option<Vec<String>>,
    theme: Option<String>,
    language: Option<String>,
    autostart: Option<bool>,
    notifications: Option<bool>,
) -> (r: Settings)
    ensures
        r@ == merged(
            current@,
            opt_text(user_id),
            opt_texts(selected_relays),
            opt_text(theme),
            opt_text(language),
            autostart,
            notifications,
        ),
{
    Settings {
        user_id,
        selected_relays: match selected_relays {
            Some(r) => r,
            None => current.selected_relays,
        },
        theme: match theme {
            Some(t) => t,
            None => current.theme,
        },
        language: match language {
            Some(l) => l,
            None => current.language,
        },
        autostart: match autostart {
            Some(a) => a,
            None => current.autostart,
        },
        notifications: match notifications {
            Some(n) => n,
            None => current.notifications,
        },
    }
}

/// Settings after a change: each field that is given replaces the one in
/// force, and the settings are those of the given user.
pub open spec fn merged(
    current: SettingsView,
    user_id: Option<Seq<char>>,
    selected_relays: Option<Seq<Seq<char>>>,
    theme: Option<Seq<char>>,
    language: Option<Seq<char>>,
    autostart: Option<bool>,
    notifications: Option<bool>,
) -> SettingsView {
    SettingsView {
        user_id,
        selected_relays: match selected_relays {
            Some(r) => r,
            None => current.selected_relays,
        },
        theme: match theme {
            Some(t) => t,
            None => current.theme,
        },
        language: match language {
            Some(l) => l,
            None => current.language,
        },
        autostart: match autostart {
            Some(a) => a,
            None => current.autostart,
        },
        notifications: match notifications {
            Some(n) => n,
            None => current.notifications,
        },
    }
}

/// The view of an optional list of texts.
pub open spec fn opt_texts(v: Option<Vec<String>>) -> Option<Seq<Seq<char>>> {
    match v {
        Some(v) => Some(v.deep_view()),
        None => None,
    }
}

/// Changes the settings of a user, or the global ones, and saves them
/// under the identity of this node: the fields that are given replace
/// those in force. Settings that cannot be read are a storage error, and
/// so are changed settings that `serde_json` does not write, and only
/// those; then nothing is written.
pub fn update_settings(
    replica: &mut Replica,
    identity: &str,
    user_id: Option<String>,
    selected_relays: Option<Vec<String>>,
    theme: Option<String>,
    language: Option<String>,
    autostart: Option<bool>,
    notifications: Option<bool>,
) -> (r: Result<Settings, SettingsError>)
    ensures
        r is Err ==> final(replica)@ == old(replica)@,
        match in_force(settings_lookup(old(replica)@, opt_text(user_id)), opt_text(user_id)) {
            Some(current) => {
                let next = merged(
                    current,
                    opt_text(user_id),
                    opt_texts(selected_relays),
                    opt_text(theme),
                    opt_text(language),
                    autostart,
                    notifications,
                );
                &&& r is Ok <==> settings_write(next)
                &&& match r {
                    Ok(x) => x@ == next && final(replica)@ == after_save_settings(
                        old(replica)@,
                        identity@,
                        next,
                    ),
                    Err(e) => e is Storage,
                }
            },
            None => r matches Err(e) && e is Storage,
        },
{
    let current = get_settings(replica, user_id.clone())?;
    let updated = merge_settings(
        current,
        user_id,
        selected_relays,
        theme,
        language,
        autostart,
        notifications,
    );
    match save_settings(replica, identity, &updated) {
        Ok(_) => Ok(updated),
        Err(e) => Err(SettingsError::from_storage(&e)),
    }
}

/// The answer after settings were saved.
pub fn settings_result() -> (r: SettingsUpdateResult)
    ensures
        r.success,
        r.message is None,
{
    SettingsUpdateResult { success: true, message: None }
}

} // verus!

//! Application settings, global or of one user.

use crate::models::post::lemma_texts_round_trip;
use crate::models::user::{opt_text, same_optional_text};
use crate::storage::codec::{
    flag_of, member_of, misshapen, optional_text_doc, optional_text_of, optional_text_value,
    read_flag, read_optional_text, read_text, read_texts, text_of, texts_doc, texts_of, texts_value,
    unreadable, written,
};
use crate::storage::error::StorageError;
use crate::storage::json::{
    distinct_names, field_docs, flag_value, json_doc, json_parse, json_text, json_written,
    object_of, object_value, parse, text_value, JsonDoc,
};
use crate::storage::text::same_texts;
use vstd::prelude::*;

verus! {

/// Application settings. Without a `user_id` they are the global settings.
#[derive(Debug)]
pub struct Settings {
    pub user_id: Option<String>,
    pub selected_relays: Vec<String>,
    /// "system", "light" or "dark".
    pub theme: String,
    /// A language tag such as "ja" or "en".
    pub language: String,
    pub autostart: bool,
    pub notifications: bool,
}

/// What settings hold, as mathematical values.
pub struct SettingsView {
    pub user_id: Option<Seq<char>>,
    pub selected_relays: Seq<Seq<char>>,
    pub theme: Seq<char>,
    pub language: Seq<char>,
    pub autostart: bool,
    pub notifications: bool,
}

impl View for Settings {
    type V = SettingsView;

    open spec fn view(&self) -> SettingsView {
        SettingsView {
            user_id: opt_text(self.user_id),
            selected_relays: self.selected_relays.deep_view(),
            theme: self.theme@,
            language: self.language@,
            autostart: self.autostart,
            notifications: self.notifications,
        }
    }
}

/// The settings of a fresh installation: global, no relay chosen, the
/// system theme, Japanese, no autostart, notifications on.
pub open spec fn default_settings() -> SettingsView {
    SettingsView {
        user_id: None,
        selected_relays: Seq::empty(),
        theme: "system"@,
        language: "ja"@,
        autostart: false,
        notifications: true,
    }
}

/// The JSON object written for settings: one member for each field, `null`
/// for the user of global settings.
pub open spec fn settings_doc(s: SettingsView) -> JsonDoc {
    JsonDoc::Object(
        Map::empty().insert("user_id"@, optional_text_doc(s.user_id)).insert(
            "selected_relays"@,
            texts_doc(s.selected_relays),
        ).insert("theme"@, JsonDoc::Text(s.theme)).insert(
            "language"@,
            JsonDoc::Text(s.language),
        ).insert("autostart"@, JsonDoc::Bool(s.autostart)).insert(
            "notifications"@,
            JsonDoc::Bool(s.notifications),
        ),
    )
}

/// The settings that a JSON document describes, if it has every field of
/// settings with the type of that field; the user may be missing or `null`.
pub open spec fn settings_of_doc(d: JsonDoc) -> Option<SettingsView> {
    match (
        optional_text_of(member_of(d, "user_id"@)),
        texts_of(member_of(d, "selected_relays"@)),
        text_of(member_of(d, "theme"@)),
        text_of(member_of(d, "language"@)),
        flag_of(member_of(d, "autostart"@)),
        flag_of(member_of(d, "notifications"@)),
    ) {
        (
            Some(user_id),
            Some(selected_relays),
            Some(theme),
            Some(language),
            Some(autostart),
            Some(notifications),
        ) => Some(
            SettingsView { user_id, selected_relays, theme, language, autostart, notifications },
        ),
        _ => None,
    }
}

/// Whether `serde_json` writes the document of settings.
pub open spec fn settings_write(s: SettingsView) -> bool {
    json_written(settings_doc(s)) is Some
}

/// The bytes that stand for settings in the store.
pub open spec fn settings_encoding(s: SettingsView) -> Seq<u8> {
    json_text(settings_doc(s))
}

/// The settings that stored bytes stand for, if any.
pub open spec fn settings_decoding(bytes: Seq<u8>) -> Option<SettingsView> {
    match json_parse(bytes) {
        Some(d) => settings_of_doc(d),
        None => None,
    }
}

/// The names of the fields of settings differ in length.
pub proof fn lemma_settings_field_names()
    ensures
        "user_id"@.len() == 7,
        "selected_relays"@.len() == 15,
        "theme"@.len() == 5,
        "language"@.len() == 8,
        "autostart"@.len() == 9,
        "notifications"@.len() == 13,
{
    reveal_strlit("user_id");
    reveal_strlit("selected_relays");
    reveal_strlit("theme");
    reveal_strlit("language");
    reveal_strlit("autostart");
    reveal_strlit("notifications");
}

/// Reading what was written for settings gives the settings back.
pub proof fn lemma_settings_doc_round_trip(s: SettingsView)
    ensures
        settings_of_doc(settings_doc(s)) == Some(s),
{
    lemma_settings_field_names();
    lemma_texts_round_trip(s.selected_relays);
}

/// Reading stored bytes as settings.
pub open spec fn settings_decoder() -> spec_fn(Seq<u8>) -> Option<SettingsView> {
    |bytes: Seq<u8>| settings_decoding(bytes)
}

impl Settings {
    /// The JSON value of settings.
    pub fn to_value(&self) -> (r: serde_json::Value)
        ensures
            json_doc(r) == settings_doc(self@),
    {
        let mut fields: Vec<(String, serde_json::Value)> = Vec::new();
        fields.push(("user_id".to_string(), optional_text_value(&self.user_id)));
        fields.push(("selected_relays".to_string(), texts_value(&self.selected_relays)));
        fields.push(("theme".to_string(), text_value(self.theme.as_str())));
        fields.push(("language".to_string(), text_value(self.language.as_str())));
        fields.push(("autostart".to_string(), flag_value(self.autostart)));
        fields.push(("notifications".to_string(), flag_value(self.notifications)));
        proof {
            lemma_settings_field_names();
            let docs = field_docs(fields@);
            assert(docs.len() == 6);
            assert(distinct_names(docs));
            reveal_with_fuel(object_of, 7);
            let d5 = docs.drop_last();
            let d4 = d5.drop_last();
            let d3 = d4.drop_last();
            let d2 = d3.drop_last();
            let d1 = d2.drop_last();
            assert(d5.len() == 5 && d4.len() == 4 && d3.len() == 3 && d2.len() == 2 && d1.len()
                == 1);
            assert(object_of(docs) =~= settings_doc(self@)->Object_0);
        }
        object_value(fields)
    }

    /// The settings that a JSON value describes.
    pub fn from_value(v: &serde_json::Value) -> (r: Option<Settings>)
        ensures
            match r {
                Some(s) => settings_of_doc(json_doc(*v)) == Some(s@),
                None => settings_of_doc(json_doc(*v)) is None,
            },
    {
        let user_id = read_optional_text(v, "user_id")?;
        let selected_relays = read_texts(v, "selected_relays")?;
        let theme = read_text(v, "theme")?;
        let language = read_text(v, "language")?;
        let autostart = read_flag(v, "autostart")?;
        let notifications = read_flag(v, "notifications")?;
        Some(Settings { user_id, selected_relays, theme, language, autostart, notifications })
    }

    /// The bytes that stand for these settings in the store: what `serde_json`
    /// writes for the document, and a serialization error exactly where it
    /// writes nothing.
    pub fn encode(&self) -> (r: Result<Vec<u8>, StorageError>)
        ensures
            match r {
                Ok(bytes) => bytes@ == settings_encoding(self@) && json_written(settings_doc(self@))
                    == Some(bytes@),
                Err(e) => e is Serialization && json_written(settings_doc(self@)) is None,
            },
    {
        let v = self.to_value();
        written(&v)
    }

    /// The settings that stored bytes stand for; a serialization error for
    /// bytes that are no JSON or describe no settings.
    pub fn decode(bytes: &[u8]) -> (r: Result<Settings, StorageError>)
        ensures
            match r {
                Ok(s) => settings_decoding(bytes@) == Some(s@),
                Err(e) => e is Serialization && settings_decoding(bytes@) is None,
            },
    {
        match parse(bytes) {
            Ok(v) => match Settings::from_value(&v) {
                Some(s) => Ok(s),
                None => Err(misshapen("settings")),
            },
            Err(e) => Err(unreadable(&e)),
        }
    }
}

impl Settings {
    /// Whether what is written for these settings is not empty and reads
    /// back as them. It is `false` too where `serde_json` writes nothing.
    pub fn survives(&self) -> (r: bool)
        ensures
            r == (settings_encoding(self@).len() > 0 && settings_decoding(
                settings_encoding(self@),
            ) == Some(self@)),
    {
        match self.encode() {
            Ok(bytes) => bytes.len() > 0 && match Settings::decode(bytes.as_slice()) {
                Ok(read) => read == *self,
                Err(_) => false,
            },
            Err(_) => false,
        }
    }
}

impl Default for Settings {
    fn default() -> (r: Settings)
        ensures
            r@ == default_settings(),
    {
        let r = Settings {
            user_id: None,
            selected_relays: Vec::new(),
            theme: "system".to_string(),
            language: "ja".to_string(),
            autostart: false,
            notifications: true,
        };
        assert(r.selected_relays.deep_view() =~= Seq::<Seq<char>>::empty());
        r
    }
}

impl Clone for Settings {
    fn clone(&self) -> (r: Settings)
        ensures
            r@ == self@,
    {
        Settings {
            user_id: self.user_id.clone(),
            selected_relays: self.selected_relays.clone(),
            theme: self.theme.clone(),
            language: self.language.clone(),
            autostart: self.autostart,
            notifications: self.notifications,
        }
    }
}

impl PartialEq for Settings {
    fn eq(&self, other: &Settings) -> (r: bool) {
        same_optional_text(&self.user_id, &other.user_id) && same_texts(
            &self.selected_relays,
            &other.selected_relays,
        ) && self.theme == other.theme && self.language == other.language && self.autostart
            == other.autostart && self.notifications == other.notifications
    }
}

impl vstd::std_specs::cmp::PartialEqSpecImpl for Settings {
    open spec fn obeys_eq_spec() -> bool {
        true
    }

    open spec fn eq_spec(&self, other: &Settings) -> bool {
        self@ == other@
    }
}

} // verus!

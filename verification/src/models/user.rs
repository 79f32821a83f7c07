//! User profiles.

use crate::models::post::lemma_texts_round_trip;
use crate::storage::codec::{
    integer_of, member_of, misshapen, optional_text_doc, optional_text_of, optional_text_value,
    read_integer, read_optional_text, read_text, read_texts, text_of, texts_doc, texts_of,
    texts_value, unreadable, written,
};
use crate::storage::error::StorageError;
use crate::storage::json::{
    distinct_names, field_docs, integer_value, json_doc, json_parse, json_text, json_written,
    object_of, object_value, parse, text_value, JsonDoc,
};
use crate::storage::text::same_texts;
use crate::storage::traits::{Dated, HasId};
use vstd::prelude::*;

verus! {

/// A user profile.
#[derive(Debug, PartialEq, Eq)]
pub struct User {
    pub id: String,
    pub display_name: String,
    pub bio: String,
    pub public_key: String,
    pub avatar: Option<String>,
    pub following: Vec<String>,
    pub followers: Vec<String>,
    pub created_at: i64,
}

/// What a user profile holds, as mathematical values.
pub struct UserView {
    pub id: Seq<char>,
    pub display_name: Seq<char>,
    pub bio: Seq<char>,
    pub public_key: Seq<char>,
    pub avatar: Option<Seq<char>>,
    pub following: Seq<Seq<char>>,
    pub followers: Seq<Seq<char>>,
    pub created_at: i64,
}

/// The view of an optional text.
pub open spec fn opt_text(s: Option<String>) -> Option<Seq<char>> {
    match s {
        Some(t) => Some(t@),
        None => None,
    }
}

/// Whether two optional texts are both missing or both there and alike.
pub fn same_optional_text(a: &Option<String>, b: &Option<String>) -> (r: bool)
    ensures
        r == (opt_text(*a) == opt_text(*b)),
{
    match (a, b) {
        (Some(x), Some(y)) => *x == *y,
        (None, None) => true,
        _ => false,
    }
}

impl View for User {
    type V = UserView;

    open spec fn view(&self) -> UserView {
        UserView {
            id: self.id@,
            display_name: self.display_name@,
            bio: self.bio@,
            public_key: self.public_key@,
            avatar: opt_text(self.avatar),
            following: self.following.deep_view(),
            followers: self.followers.deep_view(),
            created_at: self.created_at,
        }
    }
}

/// The JSON object written for a user: one member for each field, `null`
/// for a missing avatar.
pub open spec fn user_doc(u: UserView) -> JsonDoc {
    JsonDoc::Object(
        Map::empty().insert("id"@, JsonDoc::Text(u.id)).insert(
            "display_name"@,
            JsonDoc::Text(u.display_name),
        ).insert("bio"@, JsonDoc::Text(u.bio)).insert(
            "public_key"@,
            JsonDoc::Text(u.public_key),
        ).insert("avatar"@, optional_text_doc(u.avatar)).insert(
            "following"@,
            texts_doc(u.following),
        ).insert("followers"@, texts_doc(u.followers)).insert(
            "created_at"@,
            JsonDoc::Integer(u.created_at as int),
        ),
    )
}

/// The user that a JSON document describes, if it has every field of a user
/// with the type of that field; the avatar may be missing or `null`.
pub open spec fn user_of_doc(d: JsonDoc) -> Option<UserView> {
    match (
        text_of(member_of(d, "id"@)),
        text_of(member_of(d, "display_name"@)),
        text_of(member_of(d, "bio"@)),
        text_of(member_of(d, "public_key"@)),
        optional_text_of(member_of(d, "avatar"@)),
        texts_of(member_of(d, "following"@)),
        texts_of(member_of(d, "followers"@)),
        integer_of(member_of(d, "created_at"@)),
    ) {
        (
            Some(id),
            Some(display_name),
            Some(bio),
            Some(public_key),
            Some(avatar),
            Some(following),
            Some(followers),
            Some(created_at),
        ) => Some(
            UserView {
                id,
                display_name,
                bio,
                public_key,
                avatar,
                following,
                followers,
                created_at,
            },
        ),
        _ => None,
    }
}

/// Whether `serde_json` writes the document of a user.
pub open spec fn user_writes(u: UserView) -> bool {
    json_written(user_doc(u)) is Some
}

/// The bytes that stand for a user in the store.
pub open spec fn user_encoding(u: UserView) -> Seq<u8> {
    json_text(user_doc(u))
}

/// The user that stored bytes stand for, if any.
pub open spec fn user_decoding(bytes: Seq<u8>) -> Option<UserView> {
    match json_parse(bytes) {
        Some(d) => user_of_doc(d),
        None => None,
    }
}

/// The names of a user's fields differ from one another: in length, and
/// those of one length in some character.
pub proof fn lemma_user_field_names()
    ensures
        "id"@.len() == 2,
        "display_name"@.len() == 12,
        "bio"@.len() == 3,
        "public_key"@.len() == 10,
        "avatar"@.len() == 6,
        "following"@.len() == 9,
        "followers"@.len() == 9,
        "created_at"@.len() == 10,
        "public_key"@[0] != "created_at"@[0],
        "following"@[6] != "followers"@[6],
{
    reveal_strlit("id");
    reveal_strlit("display_name");
    reveal_strlit("bio");
    reveal_strlit("public_key");
    reveal_strlit("avatar");
    reveal_strlit("following");
    reveal_strlit("followers");
    reveal_strlit("created_at");
}

/// Reading what was written for a user gives the user back.
pub proof fn lemma_user_doc_round_trip(u: UserView)
    ensures
        user_of_doc(user_doc(u)) == Some(u),
{
    lemma_user_field_names();
    lemma_texts_round_trip(u.following);
    lemma_texts_round_trip(u.followers);
}

/// The views of a list of users.
pub open spec fn user_views(users: Seq<User>) -> Seq<UserView> {
    users.map_values(|u: User| u@)
}

/// The creation time of a user, as a sort key.
pub open spec fn user_time() -> spec_fn(UserView) -> i64 {
    |u: UserView| u.created_at
}

/// Reading stored bytes as a user.
pub open spec fn user_decoder() -> spec_fn(Seq<u8>) -> Option<UserView> {
    |bytes: Seq<u8>| user_decoding(bytes)
}

/// The users that a list of stored contents stands for: each content that
/// reads as a user gives one, in the order of the contents; the others are
/// passed over.
pub open spec fn decoded_users(contents: Seq<Seq<u8>>) -> Seq<UserView> {
    contents.filter_map(user_decoder())
}

/// Reads each of the contents as a user and passes over those that do not
/// read as one.
pub fn decode_users(contents: &Vec<Vec<u8>>) -> (r: Vec<User>)
    ensures
        user_views(r@) == decoded_users(contents.deep_view()),
{
    let ghost all = contents.deep_view();
    let mut out: Vec<User> = Vec::new();
    let mut i: usize = 0;
    proof {
        assert(all.take(0) =~= Seq::<Seq<u8>>::empty());
        assert(user_views(out@) =~= all.take(0).filter_map(user_decoder()));
    }
    while i < contents.len()
        invariant
            i <= contents.len(),
            all == contents.deep_view(),
            user_views(out@) == all.take(i as int).filter_map(user_decoder()),
        decreases contents.len() - i,
    {
        let ghost before = user_views(out@);
        proof {
            all.lemma_filter_map_take_succ(user_decoder(), i as int);
            assert(all[i as int] == contents[i as int]@);
        }
        match User::decode(contents[i].as_slice()) {
            Ok(u) => {
                let ghost v = u@;
                out.push(u);
                assert(user_views(out@) =~= before + seq![v]);
            },
            Err(_) => {
                assert(before + Seq::<UserView>::empty() =~= before);
            },
        }
        i += 1;
    }
    proof {
        assert(all.take(all.len() as int) =~= all);
    }
    out
}

impl User {
    /// The JSON value of a user.
    pub fn to_value(&self) -> (r: serde_json::Value)
        ensures
            json_doc(r) == user_doc(self@),
    {
        let mut fields: Vec<(String, serde_json::Value)> = Vec::new();
        fields.push(("id".to_string(), text_value(self.id.as_str())));
        fields.push(("display_name".to_string(), text_value(self.display_name.as_str())));
        fields.push(("bio".to_string(), text_value(self.bio.as_str())));
        fields.push(("public_key".to_string(), text_value(self.public_key.as_str())));
        fields.push(("avatar".to_string(), optional_text_value(&self.avatar)));
        fields.push(("following".to_string(), texts_value(&self.following)));
        fields.push(("followers".to_string(), texts_value(&self.followers)));
        fields.push(("created_at".to_string(), integer_value(self.created_at)));
        proof {
            lemma_user_field_names();
            let docs = field_docs(fields@);
            assert(docs.len() == 8);
            assert(distinct_names(docs));
            reveal_with_fuel(object_of, 9);
            let d7 = docs.drop_last();
            let d6 = d7.drop_last();
            let d5 = d6.drop_last();
            let d4 = d5.drop_last();
            let d3 = d4.drop_last();
            let d2 = d3.drop_last();
            let d1 = d2.drop_last();
            assert(d7.len() == 7 && d6.len() == 6 && d5.len() == 5 && d4.len() == 4 && d3.len()
                == 3 && d2.len() == 2 && d1.len() == 1);
            assert(object_of(docs) =~= user_doc(self@)->Object_0);
        }
        object_value(fields)
    }

    /// The user that a JSON value describes.
    pub fn from_value(v: &serde_json::Value) -> (r: Option<User>)
        ensures
            match r {
                Some(u) => user_of_doc(json_doc(*v)) == Some(u@),
                None => user_of_doc(json_doc(*v)) is None,
            },
    {
        let id = read_text(v, "id")?;
        let display_name = read_text(v, "display_name")?;
        let bio = read_text(v, "bio")?;
        let public_key = read_text(v, "public_key")?;
        let avatar = read_optional_text(v, "avatar")?;
        let following = read_texts(v, "following")?;
        let followers = read_texts(v, "followers")?;
        let created_at = read_integer(v, "created_at")?;
        Some(User { id, display_name, bio, public_key, avatar, following, followers, created_at })
    }

    /// The bytes that stand for this user in the store: what `serde_json`
    /// writes for the document, and a serialization error exactly where it
    /// writes nothing.
    pub fn encode(&self) -> (r: Result<Vec<u8>, StorageError>)
        ensures
            match r {
                Ok(bytes) => bytes@ == user_encoding(self@) && json_written(user_doc(self@))
                    == Some(bytes@),
                Err(e) => e is Serialization && json_written(user_doc(self@)) is None,
            },
    {
        let v = self.to_value();
        written(&v)
    }

    /// The user that stored bytes stand for; a serialization error for bytes
    /// that are no JSON or describe no user.
    pub fn decode(bytes: &[u8]) -> (r: Result<User, StorageError>)
        ensures
            match r {
                Ok(u) => user_decoding(bytes@) == Some(u@),
                Err(e) => e is Serialization && user_decoding(bytes@) is None,
            },
    {
        match parse(bytes) {
            Ok(v) => match User::from_value(&v) {
                Some(u) => Ok(u),
                None => Err(misshapen("user")),
            },
            Err(e) => Err(unreadable(&e)),
        }
    }
}

impl User {
    /// Whether two users hold the same.
    pub fn same(&self, other: &User) -> (r: bool)
        ensures
            r == (self@ == other@),
    {
        self.id == other.id && self.display_name == other.display_name && self.bio == other.bio
            && self.public_key == other.public_key && same_optional_text(
            &self.avatar,
            &other.avatar,
        ) && same_texts(&self.following, &other.following)
            && same_texts(&self.followers, &other.followers)
            && self.created_at == other.created_at
    }

    /// Whether what is written for this user is not empty and reads back as
    /// the user. It is `false` too where `serde_json` writes nothing.
    pub fn survives(&self) -> (r: bool)
        ensures
            r == (user_encoding(self@).len() > 0 && user_decoding(user_encoding(self@)) == Some(
                self@,
            )),
    {
        match self.encode() {
            Ok(bytes) => bytes.len() > 0 && match User::decode(bytes.as_slice()) {
                Ok(read) => read.same(self),
                Err(_) => false,
            },
            Err(_) => false,
        }
    }
}

impl Clone for User {
    fn clone(&self) -> (r: User)
        ensures
            r@ == self@,
    {
        User {
            id: self.id.clone(),
            display_name: self.display_name.clone(),
            bio: self.bio.clone(),
            public_key: self.public_key.clone(),
            avatar: self.avatar.clone(),
            following: self.following.clone(),
            followers: self.followers.clone(),
            created_at: self.created_at,
        }
    }
}

impl Dated for User {
    open spec fn spec_recency(&self) -> i64 {
        self.created_at
    }

    fn recency(&self) -> (r: i64) {
        self.created_at
    }
}

impl HasId for User {
    open spec fn spec_id(&self) -> Seq<char> {
        self.id@
    }

    fn id(&self) -> (r: &str) {
        self.id.as_str()
    }
}

} // verus!

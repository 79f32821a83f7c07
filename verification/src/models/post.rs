//! Posts.

use crate::storage::codec::{
    all_texts, integer_of, member_of, misshapen, read_integer, read_text, read_texts, text_of,
    texts_doc, texts_of, texts_value, unreadable, written,
};
use crate::storage::error::StorageError;
use crate::storage::json::{
    distinct_names, field_docs, integer_value, json_doc, json_parse, json_text, json_written,
    object_of, object_value, parse, text_value, JsonDoc,
};
use crate::storage::text::{mentions, same_texts};
use crate::storage::traits::{Dated, HasId, PostEntry};
use vstd::prelude::*;

verus! {

/// A post written by a user.
#[derive(Debug, PartialEq, Eq)]
pub struct Post {
    pub id: String,
    pub author_id: String,
    pub content: String,
    pub attachments: Vec<String>,
    pub mentions: Vec<String>,
    pub hashtags: Vec<String>,
    pub created_at: i64,
}

/// What a post holds, as mathematical values.
pub struct PostView {
    pub id: Seq<char>,
    pub author_id: Seq<char>,
    pub content: Seq<char>,
    pub attachments: Seq<Seq<char>>,
    pub mentions: Seq<Seq<char>>,
    pub hashtags: Seq<Seq<char>>,
    pub created_at: i64,
}

impl View for Post {
    type V = PostView;

    open spec fn view(&self) -> PostView {
        PostView {
            id: self.id@,
            author_id: self.author_id@,
            content: self.content@,
            attachments: self.attachments.deep_view(),
            mentions: self.mentions.deep_view(),
            hashtags: self.hashtags.deep_view(),
            created_at: self.created_at,
        }
    }
}

/// The JSON object written for a post: one member for each field.
pub open spec fn post_doc(p: PostView) -> JsonDoc {
    JsonDoc::Object(
        Map::empty().insert("id"@, JsonDoc::Text(p.id)).insert(
            "author_id"@,
            JsonDoc::Text(p.author_id),
        ).insert("content"@, JsonDoc::Text(p.content)).insert(
            "attachments"@,
            texts_doc(p.attachments),
        ).insert("mentions"@, texts_doc(p.mentions)).insert(
            "hashtags"@,
            texts_doc(p.hashtags),
        ).insert("created_at"@, JsonDoc::Integer(p.created_at as int)),
    )
}

/// The post that a JSON document describes, if it has every field of a post
/// with the type of that field.
pub open spec fn post_of_doc(d: JsonDoc) -> Option<PostView> {
    match (
        text_of(member_of(d, "id"@)),
        text_of(member_of(d, "author_id"@)),
        text_of(member_of(d, "content"@)),
        texts_of(member_of(d, "attachments"@)),
        texts_of(member_of(d, "mentions"@)),
        texts_of(member_of(d, "hashtags"@)),
        integer_of(member_of(d, "created_at"@)),
    ) {
        (
            Some(id),
            Some(author_id),
            Some(content),
            Some(attachments),
            Some(mentions),
            Some(hashtags),
            Some(created_at),
        ) => Some(
            PostView { id, author_id, content, attachments, mentions, hashtags, created_at },
        ),
        _ => None,
    }
}

/// Whether `serde_json` writes the document of a post.
pub open spec fn post_writes(p: PostView) -> bool {
    json_written(post_doc(p)) is Some
}

/// The bytes that stand for a post in the store.
pub open spec fn post_encoding(p: PostView) -> Seq<u8> {
    json_text(post_doc(p))
}

/// The post that stored bytes stand for, if any.
pub open spec fn post_decoding(bytes: Seq<u8>) -> Option<PostView> {
    match json_parse(bytes) {
        Some(d) => post_of_doc(d),
        None => None,
    }
}

/// The names of a post's fields differ from one another: in length, and
/// the two of one length in their first character.
pub proof fn lemma_post_field_names()
    ensures
        "id"@.len() == 2,
        "author_id"@.len() == 9,
        "content"@.len() == 7,
        "attachments"@.len() == 11,
        "mentions"@.len() == 8,
        "hashtags"@.len() == 8,
        "created_at"@.len() == 10,
        "mentions"@[0] != "hashtags"@[0],
{
    reveal_strlit("id");
    reveal_strlit("author_id");
    reveal_strlit("content");
    reveal_strlit("attachments");
    reveal_strlit("mentions");
    reveal_strlit("hashtags");
    reveal_strlit("created_at");
}

/// Reading what was written for a post gives the post back: the document of
/// a post describes that post and no other.
pub proof fn lemma_post_doc_round_trip(p: PostView)
    ensures
        post_of_doc(post_doc(p)) == Some(p),
{
    lemma_post_field_names();
    assert(texts_of(Some(texts_doc(p.attachments))) == Some(p.attachments)) by {
        lemma_texts_round_trip(p.attachments);
    }
    assert(texts_of(Some(texts_doc(p.mentions))) == Some(p.mentions)) by {
        lemma_texts_round_trip(p.mentions);
    }
    assert(texts_of(Some(texts_doc(p.hashtags))) == Some(p.hashtags)) by {
        lemma_texts_round_trip(p.hashtags);
    }
}

/// A list of texts is read back from the array written for it.
pub proof fn lemma_texts_round_trip(items: Seq<Seq<char>>)
    ensures
        texts_of(Some(texts_doc(items))) == Some(items),
{
    let docs = items.map_values(|s: Seq<char>| JsonDoc::Text(s));
    assert(all_texts(docs));
    assert(docs.map_values(|x: JsonDoc| x->Text_0) =~= items);
}

/// The views of a list of posts.
pub open spec fn post_views(posts: Seq<Post>) -> Seq<PostView> {
    posts.map_values(|p: Post| p@)
}

/// The creation time of a post, as a sort key.
pub open spec fn view_time() -> spec_fn(PostView) -> i64 {
    |p: PostView| p.created_at
}

/// Whether a post is by the given author.
pub open spec fn view_by(author: Seq<char>) -> spec_fn(PostView) -> bool {
    |p: PostView| p.author_id == author
}

/// Whether the content of a post mentions the query, without regard to
/// case.
pub open spec fn view_mentions(query: Seq<char>) -> spec_fn(PostView) -> bool {
    |p: PostView| mentions(p.content, query)
}

/// Reading stored bytes as a post.
pub open spec fn post_decoder() -> spec_fn(Seq<u8>) -> Option<PostView> {
    |bytes: Seq<u8>| post_decoding(bytes)
}

/// The posts that a list of stored contents stands for: each content that
/// reads as a post gives one, in the order of the contents; the others are
/// passed over.
pub open spec fn decoded_posts(contents: Seq<Seq<u8>>) -> Seq<PostView> {
    contents.filter_map(post_decoder())
}

/// Reads each of the contents as a post and passes over those that do not
/// read as one.
pub fn decode_posts(contents: &Vec<Vec<u8>>) -> (r: Vec<Post>)
    ensures
        post_views(r@) == decoded_posts(contents.deep_view()),
{
    let ghost all = contents.deep_view();
    let mut out: Vec<Post> = Vec::new();
    let mut i: usize = 0;
    proof {
        assert(all.take(0) =~= Seq::<Seq<u8>>::empty());
        assert(post_views(out@) =~= all.take(0).filter_map(post_decoder()));
    }
    while i < contents.len()
        invariant
            i <= contents.len(),
            all == contents.deep_view(),
            post_views(out@) == all.take(i as int).filter_map(post_decoder()),
        decreases contents.len() - i,
    {
        let ghost before = post_views(out@);
        proof {
            all.lemma_filter_map_take_succ(post_decoder(), i as int);
            assert(all[i as int] == contents[i as int]@);
        }
        match Post::decode(contents[i].as_slice()) {
            Ok(p) => {
                let ghost v = p@;
                out.push(p);
                assert(post_views(out@) =~= before + seq![v]);
            },
            Err(_) => {
                assert(before + Seq::<PostView>::empty() =~= before);
            },
        }
        i += 1;
    }
    proof {
        assert(all.take(all.len() as int) =~= all);
    }
    out
}

impl Post {
    /// The JSON value of a post.
    pub fn to_value(&self) -> (r: serde_json::Value)
        ensures
            json_doc(r) == post_doc(self@),
    {
        let mut fields: Vec<(String, serde_json::Value)> = Vec::new();
        fields.push(("id".to_string(), text_value(self.id.as_str())));
        fields.push(("author_id".to_string(), text_value(self.author_id.as_str())));
        fields.push(("content".to_string(), text_value(self.content.as_str())));
        fields.push(("attachments".to_string(), texts_value(&self.attachments)));
        fields.push(("mentions".to_string(), texts_value(&self.mentions)));
        fields.push(("hashtags".to_string(), texts_value(&self.hashtags)));
        fields.push(("created_at".to_string(), integer_value(self.created_at)));
        proof {
            lemma_post_field_names();
            let docs = field_docs(fields@);
            assert(docs.len() == 7);
            assert(distinct_names(docs));
            reveal_with_fuel(object_of, 8);
            assert(JsonDoc::Object(object_of(docs)) == post_doc(self@)) by {
                let d6 = docs.drop_last();
                let d5 = d6.drop_last();
                let d4 = d5.drop_last();
                let d3 = d4.drop_last();
                let d2 = d3.drop_last();
                let d1 = d2.drop_last();
                assert(d6.len() == 6 && d5.len() == 5 && d4.len() == 4 && d3.len() == 3 && d2.len()
                    == 2 && d1.len() == 1);
                assert(object_of(docs) =~= post_doc(self@)->Object_0);
            }
        }
        object_value(fields)
    }

    /// The post that a JSON value describes.
    pub fn from_value(v: &serde_json::Value) -> (r: Option<Post>)
        ensures
            match r {
                Some(p) => post_of_doc(json_doc(*v)) == Some(p@),
                None => post_of_doc(json_doc(*v)) is None,
            },
    {
        let id = read_text(v, "id")?;
        let author_id = read_text(v, "author_id")?;
        let content = read_text(v, "content")?;
        let attachments = read_texts(v, "attachments")?;
        let mentions = read_texts(v, "mentions")?;
        let hashtags = read_texts(v, "hashtags")?;
        let created_at = read_integer(v, "created_at")?;
        Some(Post { id, author_id, content, attachments, mentions, hashtags, created_at })
    }

    /// The bytes that stand for this post in the store: what `serde_json`
    /// writes for the document, and a serialization error exactly where it
    /// writes nothing.
    pub fn encode(&self) -> (r: Result<Vec<u8>, StorageError>)
        ensures
            match r {
                Ok(bytes) => bytes@ == post_encoding(self@) && json_written(post_doc(self@))
                    == Some(bytes@),
                Err(e) => e is Serialization && json_written(post_doc(self@)) is None,
            },
    {
        let v = self.to_value();
        written(&v)
    }

    /// The post that stored bytes stand for; a serialization error for bytes
    /// that are no JSON or describe no post.
    pub fn decode(bytes: &[u8]) -> (r: Result<Post, StorageError>)
        ensures
            match r {
                Ok(p) => post_decoding(bytes@) == Some(p@),
                Err(e) => e is Serialization && post_decoding(bytes@) is None,
            },
    {
        match parse(bytes) {
            Ok(v) => match Post::from_value(&v) {
                Some(p) => Ok(p),
                None => Err(misshapen("post")),
            },
            Err(e) => Err(unreadable(&e)),
        }
    }
}

impl Post {
    /// Whether two posts hold the same.
    pub fn same(&self, other: &Post) -> (r: bool)
        ensures
            r == (self@ == other@),
    {
        self.id == other.id && self.author_id == other.author_id && self.content == other.content
            && same_texts(&self.attachments, &other.attachments)
            && same_texts(&self.mentions, &other.mentions)
            && same_texts(&self.hashtags, &other.hashtags)
            && self.created_at == other.created_at
    }

    /// Whether what is written for this post is not empty and reads back as
    /// the post. It is `false` too where `serde_json` writes nothing.
    pub fn survives(&self) -> (r: bool)
        ensures
            r == (post_encoding(self@).len() > 0 && post_decoding(post_encoding(self@)) == Some(
                self@,
            )),
    {
        match self.encode() {
            Ok(bytes) => bytes.len() > 0 && match Post::decode(bytes.as_slice()) {
                Ok(read) => read.same(self),
                Err(_) => false,
            },
            Err(_) => false,
        }
    }
}

impl Clone for Post {
    fn clone(&self) -> (r: Post)
        ensures
            r@ == self@,
    {
        Post {
            id: self.id.clone(),
            author_id: self.author_id.clone(),
            content: self.content.clone(),
            attachments: self.attachments.clone(),
            mentions: self.mentions.clone(),
            hashtags: self.hashtags.clone(),
            created_at: self.created_at,
        }
    }
}

impl HasId for Post {
    open spec fn spec_id(&self) -> Seq<char> {
        self.id@
    }

    fn id(&self) -> (r: &str) {
        self.id.as_str()
    }
}

impl Dated for Post {
    open spec fn spec_recency(&self) -> i64 {
        self.created_at
    }

    fn recency(&self) -> (r: i64) {
        self.created_at
    }
}

impl PostEntry for Post {
    open spec fn spec_author_id(&self) -> Seq<char> {
        self.author_id@
    }

    open spec fn spec_content(&self) -> Seq<char> {
        self.content@
    }

    open spec fn spec_created_at(&self) -> i64 {
        self.created_at
    }

    fn author_id(&self) -> (r: &str) {
        self.author_id.as_str()
    }

    fn content(&self) -> (r: &str) {
        self.content.as_str()
    }

    fn created_at(&self) -> (r: i64) {
        self.created_at
    }
}

} // verus!

//! Commands on posts.

use crate::models::post::{post_views, post_writes, Post, PostView};
use crate::storage::clock::unix_now;
use crate::storage::docs::fresh_id;
use crate::storage::error::StorageError;
use crate::storage::listing::{lemma_page_maps, page, paginate};
use crate::storage::replica::Replica;
use crate::storage::repository::post_repository::{
    after_save_post, empty_query_detail, list_posts, list_user_posts, post_listing, post_listing_by,
    post_search, save_post, search_posts as find_posts,
};
use crate::storage::text::{blank, is_blank, join};
use vstd::prelude::*;
use vstd::string::*;

verus! {

/// The longest content of a post, in bytes.
pub const MAX_CONTENT_LEN: usize = 500;

/// The number of posts of a page where none is asked for.
pub const DEFAULT_PAGE_LEN: usize = 20;

/// The number of results of a search where none is asked for.
pub const DEFAULT_SEARCH_LEN: usize = 50;

/// What can go wrong in a command on posts.
#[derive(Debug, PartialEq, Eq)]
pub enum PostError {
    Storage(String),
    Network(String),
    Validation(String),
    Other(String),
}

impl PostError {
    /// The message shown for an error.
    pub open spec fn spec_message(&self) -> Seq<char> {
        match self {
            PostError::Storage(m) => "Storage error: "@ + m@,
            PostError::Network(m) => "Network error: "@ + m@,
            PostError::Validation(m) => "Validation error: "@ + m@,
            PostError::Other(m) => m@,
        }
    }

    /// The message shown for an error.
    pub fn message(&self) -> (r: String)
        ensures
            r@ == self.spec_message(),
    {
        match self {
            PostError::Storage(m) => join("Storage error: ", m.as_str()),
            PostError::Network(m) => join("Network error: ", m.as_str()),
            PostError::Validation(m) => join("Validation error: ", m.as_str()),
            PostError::Other(m) => m.clone(),
        }
    }

    /// The error of a command for an error of the storage layer: a storage
    /// error with the message of that error.
    pub fn from_storage(err: &StorageError) -> (r: PostError)
        ensures
            r matches PostError::Storage(m) && m@ == err.spec_message(),
    {
        PostError::Storage(err.message())
    }

    /// The error of a search for an error of the storage layer: a refused
    /// query stays a validation error, any other error is a storage error.
    pub fn from_search(err: StorageError) -> (r: PostError)
        ensures
            match err {
                StorageError::Validation(m) => r == PostError::Validation(m),
                _ => r matches PostError::Storage(m) && m@ == err.spec_message(),
            },
    {
        match err {
            StorageError::Validation(m) => PostError::Validation(m),
            other => PostError::from_storage(&other),
        }
    }
}

/// The answer to a command that creates a post.
#[derive(Debug, PartialEq, Eq)]
pub struct PostResult {
    pub post_id: String,
    pub success: bool,
    pub message: Option<String>,
}

/// Why a content is refused, if it is: it is blank, or longer than 500
/// bytes.
pub open spec fn content_fault(content: Seq<char>) -> Option<Seq<char>> {
    if is_blank(content) {
        Some("Content cannot be empty"@)
    } else if vstd::utf8::encode_utf8(content).len() > MAX_CONTENT_LEN {
        Some("Content exceeds maximum length of 500 characters"@)
    } else {
        None
    }
}

/// Checks the content of a post.
pub fn validate_content(content: &str) -> (r: Result<(), PostError>)
    ensures
        match content_fault(content@) {
            Some(fault) => r matches Err(PostError::Validation(m)) && m@ == fault,
            None => r is Ok,
        },
{
    if blank(content) {
        return Err(PostError::Validation("Content cannot be empty".to_string()));
    }
    if content.as_bytes().len() > MAX_CONTENT_LEN {
        return Err(
            PostError::Validation("Content exceeds maximum length of 500 characters".to_string()),
        );
    }
    Ok(())
}

/// The post that a draft makes: the given identifier, author, content and
/// time, and nothing attached, mentioned or tagged.
pub open spec fn drafted(
    id: Seq<char>,
    author_id: Seq<char>,
    content: Seq<char>,
    created_at: i64,
) -> PostView {
    PostView {
        id,
        author_id,
        content,
        attachments: Seq::empty(),
        mentions: Seq::empty(),
        hashtags: Seq::empty(),
        created_at,
    }
}

/// Makes a post of a content that passes the check.
pub fn draft_post(
    post_id: String,
    author_id: String,
    content: String,
    created_at: i64,
) -> (r: Result<Post, PostError>)
    ensures
        match content_fault(content@) {
            Some(fault) => r matches Err(PostError::Validation(m)) && m@ == fault,
            None => r matches Ok(p) && p@ == drafted(post_id@, author_id@, content@, created_at),
        },
{
    validate_content(content.as_str())?;
    let post = Post {
        id: post_id,
        author_id,
        content,
        attachments: Vec::new(),
        mentions: Vec::new(),
        hashtags: Vec::new(),
        created_at,
    };
    proof {
        assert(post.attachments.deep_view() =~= Seq::<Seq<char>>::empty());
        assert(post.mentions.deep_view() =~= Seq::<Seq<char>>::empty());
        assert(post.hashtags.deep_view() =~= Seq::<Seq<char>>::empty());
    }
    Ok(post)
}

/// Creates a post and saves it under the identity of this node. The post
/// gets a random identifier of 36 characters and the present time. A
/// content that does not pass the check is refused before anything is
/// written. For any other content the post is saved unless `serde_json`
/// does not write the post that was made, which is a storage error; then
/// nothing is written either.
pub fn create_post(
    replica: &mut Replica,
    identity: &str,
    author_id: String,
    content: String,
) -> (r: Result<Post, PostError>)
    ensures
        match content_fault(content@) {
            Some(fault) => {
                &&& r matches Err(PostError::Validation(m)) && m@ == fault
                &&& final(replica)@ == old(replica)@
            },
            None => match r {
                Ok(p) => {
                    &&& p@ == drafted(p@.id, author_id@, content@, p@.created_at)
                    &&& p@.id.len() == 36
                    &&& post_writes(p@)
                    &&& final(replica)@ == after_save_post(old(replica)@, identity@, p@)
                },
                Err(e) => {
                    &&& e is Storage
                    &&& final(replica)@ == old(replica)@
                    &&& exists|id: Seq<char>, created_at: i64|
                        id.len() == 36 && !post_writes(
                            #[trigger] drafted(id, author_id@, content@, created_at),
                        )
                },
            },
        },
{
    let ghost author = author_id@;
    let ghost text = content@;
    let post = draft_post(fresh_id(), author_id, content, unix_now())?;
    match save_post(replica, identity, &post) {
        Ok(_) => Ok(post),
        Err(e) => {
            assert(post@ == drafted(post@.id, author, text, post@.created_at));
            Err(PostError::from_storage(&e))
        },
    }
}

/// The answer after a post was created and its publication was tried. The
/// post counts as created whether or not it could be published; a failed
/// publication is told in the message.
pub fn post_result(post_id: String, published: Result<(), String>) -> (r: PostResult)
    ensures
        r.post_id == post_id,
        r.success,
        match published {
            Ok(_) => r.message is None,
            Err(e) => r.message matches Some(m) && m@ == "Post created but failed to publish: "@
                + e@,
        },
{
    match published {
        Ok(_) => PostResult { post_id, success: true, message: None },
        Err(e) => PostResult {
            post_id,
            success: true,
            message: Some(join("Post created but failed to publish: ", e.as_str())),
        },
    }
}

/// The number that an optional number stands for.
pub open spec fn or_default(n: Option<usize>, default: usize) -> nat {
    match n {
        Some(n) => n as nat,
        None => default as nat,
    }
}

fn number_or(n: Option<usize>, default: usize) -> (r: usize)
    ensures
        r == or_default(n, default),
{
    match n {
        Some(n) => n,
        None => default,
    }
}

/// A page of the posts, the newest first: 20 posts from the first on,
/// unless asked otherwise. An offset at or beyond the end gives no posts,
/// and no error.
pub fn get_posts(
    replica: &Replica,
    limit: Option<usize>,
    offset: Option<usize>,
) -> (r: Result<Vec<Post>, PostError>)
    ensures
        r matches Ok(v) && post_views(v@) == page(
            post_listing(replica@),
            or_default(limit, DEFAULT_PAGE_LEN),
            or_default(offset, 0),
        ),
{
    let all = match list_posts(replica) {
        Ok(all) => all,
        Err(e) => {
            return Err(PostError::from_storage(&e));
        },
    };
    let limit = number_or(limit, DEFAULT_PAGE_LEN);
    let offset = number_or(offset, 0);
    let r = paginate(all, limit, offset);
    proof {
        lemma_page_maps(all@, |p: Post| p@, limit as nat, offset as nat);
    }
    Ok(r)
}

/// A page of the posts of one user, the newest first.
pub fn get_user_posts(
    replica: &Replica,
    user_id: String,
    limit: Option<usize>,
    offset: Option<usize>,
) -> (r: Result<Vec<Post>, PostError>)
    ensures
        r matches Ok(v) && post_views(v@) == page(
            post_listing_by(replica@, user_id@),
            or_default(limit, DEFAULT_PAGE_LEN),
            or_default(offset, 0),
        ),
{
    let all = match list_user_posts(replica, user_id.as_str()) {
        Ok(all) => all,
        Err(e) => {
            return Err(PostError::from_storage(&e));
        },
    };
    let limit = number_or(limit, DEFAULT_PAGE_LEN);
    let offset = number_or(offset, 0);
    let r = paginate(all, limit, offset);
    proof {
        lemma_page_maps(all@, |p: Post| p@, limit as nat, offset as nat);
    }
    Ok(r)
}

/// Searches the posts: up to 50 results, unless asked otherwise. A blank
/// query is refused.
pub fn search_posts(
    replica: &Replica,
    query: String,
    limit: Option<usize>,
) -> (r: Result<Vec<Post>, PostError>)
    ensures
        if is_blank(query@) {
            r matches Err(PostError::Validation(m)) && m@ == empty_query_detail()
        } else {
            r matches Ok(v) && post_views(v@) == post_search(
                replica@,
                query@,
                or_default(limit, DEFAULT_SEARCH_LEN),
            )
        },
{
    let limit = number_or(limit, DEFAULT_SEARCH_LEN);
    match find_posts(replica, query.as_str(), limit) {
        Ok(found) => Ok(found),
        Err(e) => Err(PostError::from_search(e)),
    }
}

} // verus!

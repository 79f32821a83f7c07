//! Topics and messages of the broadcast layer.
//!
//! Sending and receiving are not done here. This module says which topics
//! a message goes to and keeps the state that the status of the network is
//! read from.

use crate::models::post::Post;
use crate::models::user::User;
use crate::storage::hash::{blake3_digest, digest};
use crate::storage::text::join;
use crate::storage::text_set::TextSet;
use vstd::prelude::*;
use vstd::string::*;

verus! {

/// A message that peers exchange.
#[derive(Debug, PartialEq, Eq)]
pub enum MessageType {
    NewPost(Post),
    UpdateProfile(User),
    Follow { from_id: String, to_id: String },
    Unfollow { from_id: String, to_id: String },
    SyncRequest { heads: Vec<String> },
    SyncResponse { changes: Vec<u8> },
}

/// The state of the network.
#[derive(Clone, Copy, Debug, PartialEq, Eq)]
pub struct NetworkStatus {
    /// The number of connected peers.
    pub peer_count: usize,
    /// Whether the node takes part in the network.
    pub connected: bool,
    /// The time of the last activity, in seconds since the epoch.
    pub last_activity: i64,
}

/// What the application remembers of the network once it has joined: the
/// topics it has used and the time of its last activity.
#[derive(Debug)]
pub struct Network {
    topics: TextSet,
    last_activity: i64,
}

/// The message for a network that was not joined.
pub open spec fn not_initialized_message() -> Seq<char> {
    "Network not initialized"@
}

impl Network {
    /// The topics that were used.
    pub closed spec fn topics(&self) -> Set<Seq<char>> {
        self.topics@
    }

    /// The time of the last activity.
    pub closed spec fn spec_last_activity(&self) -> i64 {
        self.last_activity
    }

    /// The network as it is right after joining at the time `now`.
    pub fn new(now: i64) -> (r: Self)
        ensures
            r.topics() == Set::<Seq<char>>::empty(),
            r.spec_last_activity() == now,
    {
        Network { topics: TextSet::new(), last_activity: now }
    }

    /// Notes an activity at the time `now`.
    pub fn touch(&mut self, now: i64)
        ensures
            final(self).topics() == old(self).topics(),
            final(self).spec_last_activity() == now,
    {
        self.last_activity = now;
    }

    /// Whether a topic was used.
    pub fn has_topic(&self, topic_name: &str) -> (r: bool)
        ensures
            r == self.topics().contains(topic_name@),
    {
        self.topics.contains(topic_name)
    }
}

/// The identifier of a topic: the BLAKE3 hash of its name.
pub fn topic_id(topic_name: &str) -> (r: Vec<u8>)
    ensures
        r@ == blake3_digest(topic_name.spec_bytes()),
        r@.len() == 32,
{
    digest(topic_name.as_bytes())
}

/// The identifier of a topic, which is remembered as used.
pub fn get_or_create_topic(network: &mut Network, topic_name: &str) -> (r: Vec<u8>)
    ensures
        r@ == blake3_digest(topic_name.spec_bytes()),
        final(network).topics() == old(network).topics().insert(topic_name@),
        final(network).spec_last_activity() == old(network).spec_last_activity(),
{
    network.topics.insert(topic_name);
    topic_id(topic_name)
}

/// The status of the network: connected, with its last activity, once it
/// was joined; an error before. Peers are not counted yet, so their number
/// is given as zero.
pub fn get_network_status(network: &Option<Network>) -> (r: Result<NetworkStatus, String>)
    ensures
        match network {
            Some(n) => r == Ok::<NetworkStatus, String>(
                NetworkStatus {
                    peer_count: 0,
                    connected: true,
                    last_activity: n.spec_last_activity(),
                },
            ),
            None => r matches Err(m) && m@ == not_initialized_message(),
        },
{
    match network {
        Some(n) => Ok(
            NetworkStatus { peer_count: 0, connected: true, last_activity: n.last_activity },
        ),
        None => Err("Network not initialized".to_string()),
    }
}

/// The topic of the posts of everybody.
pub open spec fn global_posts_topic() -> Seq<char> {
    "global/posts"@
}

/// A topic of one user: "user/", the identifier, and what the topic is of.
pub open spec fn user_topic(user_id: Seq<char>, what: Seq<char>) -> Seq<char> {
    "user/"@ + user_id + what
}

fn topic_of(user_id: &str, what: &str) -> (r: String)
    ensures
        r@ == user_topic(user_id@, what@),
{
    let mut t = join("user/", user_id);
    t.append(what);
    t
}

/// A message with the topics it is published to, in their order.
#[derive(Debug, PartialEq, Eq)]
pub struct Publication {
    pub topics: Vec<String>,
    pub message: MessageType,
}

/// A new post goes to the topic of all posts and then to the topic of the
/// posts of its author.
pub fn publish_post(post: &Post) -> (r: Publication)
    ensures
        r.topics.deep_view() == seq![global_posts_topic(), user_topic(post@.author_id, "/posts"@)],
        r.message matches MessageType::NewPost(p) && p@ == post@,
{
    let mut topics: Vec<String> = Vec::new();
    topics.push("global/posts".to_string());
    topics.push(topic_of(post.author_id.as_str(), "/posts"));
    assert(topics.deep_view() =~= seq![
        global_posts_topic(),
        user_topic(post@.author_id, "/posts"@),
    ]);
    Publication { topics, message: MessageType::NewPost(post.clone()) }
}

/// A profile update goes to the profile topic of the user.
pub fn publish_profile(user: &User) -> (r: Publication)
    ensures
        r.topics.deep_view() == seq![user_topic(user@.id, "/profile"@)],
        r.message matches MessageType::UpdateProfile(u) && u@ == user@,
{
    let mut topics: Vec<String> = Vec::new();
    topics.push(topic_of(user.id.as_str(), "/profile"));
    assert(topics.deep_view() =~= seq![user_topic(user@.id, "/profile"@)]);
    Publication { topics, message: MessageType::UpdateProfile(user.clone()) }
}

/// A follow goes to the following topic of the user who follows.
pub fn publish_follow(from_id: &str, to_id: &str) -> (r: Publication)
    ensures
        r.topics.deep_view() == seq![user_topic(from_id@, "/following"@)],
        r.message matches MessageType::Follow { from_id: f, to_id: t } && f@ == from_id@ && t@
            == to_id@,
{
    let mut topics: Vec<String> = Vec::new();
    topics.push(topic_of(from_id, "/following"));
    assert(topics.deep_view() =~= seq![user_topic(from_id@, "/following"@)]);
    Publication {
        topics,
        message: MessageType::Follow { from_id: from_id.to_string(), to_id: to_id.to_string() },
    }
}

/// An unfollow goes to the following topic of the user who unfollows.
pub fn publish_unfollow(from_id: &str, to_id: &str) -> (r: Publication)
    ensures
        r.topics.deep_view() == seq![user_topic(from_id@, "/following"@)],
        r.message matches MessageType::Unfollow { from_id: f, to_id: t } && f@ == from_id@ && t@
            == to_id@,
{
    let mut topics: Vec<String> = Vec::new();
    topics.push(topic_of(from_id, "/following"));
    assert(topics.deep_view() =~= seq![user_topic(from_id@, "/following"@)]);
    Publication {
        topics,
        message: MessageType::Unfollow { from_id: from_id.to_string(), to_id: to_id.to_string() },
    }
}

} // verus!

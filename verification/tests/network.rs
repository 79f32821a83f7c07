use kukuri_client::models::post::Post;
use kukuri_client::models::user::User;
use kukuri_client::network::iroh::{
    get_network_status, get_or_create_topic, publish_follow, publish_post, publish_profile,
    publish_unfollow, topic_id, MessageType, Network, NetworkStatus,
};

#[test]
fn the_status_of_the_network() {
    assert_eq!(get_network_status(&None), Err("Network not initialized".to_string()));
    let mut network = Network::new(1700000000);
    assert_eq!(
        get_network_status(&Some(Network::new(5))),
        Ok(NetworkStatus { peer_count: 0, connected: true, last_activity: 5 })
    );
    network.touch(1700000100);
    assert_eq!(
        get_network_status(&Some(network)),
        Ok(NetworkStatus { peer_count: 0, connected: true, last_activity: 1700000100 })
    );
}

#[test]
fn topics_are_named_by_hash() {
    let mut network = Network::new(0);
    assert!(!network.has_topic("global/posts"));
    let id = get_or_create_topic(&mut network, "global/posts");
    assert_eq!(id, blake3::hash(b"global/posts").as_bytes().to_vec());
    assert!(network.has_topic("global/posts"));
    assert_eq!(get_or_create_topic(&mut network, "global/posts"), id);
    assert_eq!(topic_id("user/u/posts"), blake3::hash(b"user/u/posts").as_bytes().to_vec());
    assert_ne!(topic_id("a"), topic_id("b"));
    assert_eq!(topic_id("").len(), 32);
}

#[test]
fn messages_go_to_their_topics() {
    let post = Post {
        id: "p".to_string(),
        author_id: "alice".to_string(),
        content: "c".to_string(),
        attachments: vec![],
        mentions: vec![],
        hashtags: vec![],
        created_at: 1,
    };
    let publication = publish_post(&post);
    assert_eq!(publication.topics, vec!["global/posts", "user/alice/posts"]);
    assert_eq!(publication.message, MessageType::NewPost(post));

    let user = User {
        id: "alice".to_string(),
        display_name: "A".to_string(),
        bio: String::new(),
        public_key: String::new(),
        avatar: None,
        following: vec![],
        followers: vec![],
        created_at: 1,
    };
    let publication = publish_profile(&user);
    assert_eq!(publication.topics, vec!["user/alice/profile"]);
    assert_eq!(publication.message, MessageType::UpdateProfile(user));

    let publication = publish_follow("alice", "bob");
    assert_eq!(publication.topics, vec!["user/alice/following"]);
    assert_eq!(
        publication.message,
        MessageType::Follow { from_id: "alice".to_string(), to_id: "bob".to_string() }
    );
    let publication = publish_unfollow("alice", "bob");
    assert_eq!(publication.topics, vec!["user/alice/following"]);
    assert_eq!(
        publication.message,
        MessageType::Unfollow { from_id: "alice".to_string(), to_id: "bob".to_string() }
    );
}

use kukuri_client::models::post::Post;
use kukuri_client::models::user::User;
use kukuri_client::storage::collection::Collection;
use kukuri_client::storage::events::{DocumentSubscriptionService, SubscriptionState};
use kukuri_client::storage::replica::Replica;
use kukuri_client::storage::repository::post_repository::{
    get_post, list_posts, list_user_posts, save_post,
};
use kukuri_client::storage::repository::user_repository::{get_user, save_user};
use uuid::Uuid;

const AUTHOR: &str = "test-author";

fn user(id: &str, display_name: &str, bio: &str, public_key: &str) -> User {
    User {
        id: id.to_string(),
        display_name: display_name.to_string(),
        bio: bio.to_string(),
        public_key: public_key.to_string(),
        avatar: None,
        following: Vec::new(),
        followers: Vec::new(),
        created_at: chrono::Utc::now().timestamp(),
    }
}

fn post(id: &str, author_id: &str, content: String, offset: i64) -> Post {
    Post {
        id: id.to_string(),
        author_id: author_id.to_string(),
        content,
        attachments: Vec::new(),
        mentions: Vec::new(),
        hashtags: Vec::new(),
        created_at: chrono::Utc::now().timestamp() + offset,
    }
}

#[test]
fn test_user_document_creation_and_retrieval() {
    let mut replica = Replica::new();
    let user_id = Uuid::new_v4().to_string();
    let user = user(&user_id, "Sync Test User", "Test bio for sync", "test_public_key_sync");

    save_user(&mut replica, AUTHOR, &user).unwrap();

    let retrieved_user = get_user(&replica, &user_id).unwrap().expect("User should exist");
    assert_eq!(retrieved_user.id, user.id);
    assert_eq!(retrieved_user.display_name, user.display_name);
    assert_eq!(retrieved_user.bio, user.bio);
    assert_eq!(retrieved_user.public_key, user.public_key);
}

#[test]
fn test_post_document_creation_and_retrieval() {
    let mut users = Replica::new();
    let mut posts = Replica::new();
    let user_id = Uuid::new_v4().to_string();
    let user = user(&user_id, "Post Author", "Test author for post sync", "test_public_key_author");
    save_user(&mut users, AUTHOR, &user).unwrap();

    let post_id = Uuid::new_v4().to_string();
    let post = post(&post_id, &user_id, "Sync test post content".to_string(), 0);
    save_post(&mut posts, AUTHOR, &post).unwrap();

    let retrieved_post = get_post(&posts, &post_id).unwrap().expect("Post should exist");
    assert_eq!(retrieved_post.id, post.id);
    assert_eq!(retrieved_post.author_id, post.author_id);
    assert_eq!(retrieved_post.content, post.content);
    assert_eq!(retrieved_post.attachments, post.attachments);
    assert_eq!(retrieved_post.mentions, post.mentions);
    assert_eq!(retrieved_post.hashtags, post.hashtags);
}

#[test]
fn test_user_document_update() {
    let mut replica = Replica::new();
    let user_id = Uuid::new_v4().to_string();
    let mut user = user(&user_id, "Initial Name", "Initial bio", "test_public_key_update");
    save_user(&mut replica, AUTHOR, &user).unwrap();

    user.display_name = "Updated Name".to_string();
    user.bio = "Updated bio".to_string();
    user.avatar = Some("avatar_url".to_string());
    save_user(&mut replica, AUTHOR, &user).unwrap();

    let retrieved_user = get_user(&replica, &user_id).unwrap().expect("User should exist");
    assert_eq!(retrieved_user.display_name, "Updated Name");
    assert_eq!(retrieved_user.bio, "Updated bio");
    assert_eq!(retrieved_user.avatar, Some("avatar_url".to_string()));
}

#[test]
fn test_document_listing_sync() {
    let mut users = Replica::new();
    let mut posts = Replica::new();
    let user_id = Uuid::new_v4().to_string();
    let user =
        user(&user_id, "List Test Author", "Author for listing test", "test_public_key_list");
    save_user(&mut users, AUTHOR, &user).unwrap();

    let mut post_ids = Vec::new();
    for i in 0..5 {
        let post_id = Uuid::new_v4().to_string();
        let post = post(&post_id, &user_id, format!("List test post {}", i), i);
        save_post(&mut posts, AUTHOR, &post).unwrap();
        post_ids.push(post_id);
    }

    let all_posts = list_posts(&posts).unwrap();
    for post_id in &post_ids {
        assert!(all_posts.iter().any(|p| p.id == *post_id), "Post {} should be in the list", post_id);
    }
}

#[test]
fn test_posts_by_author_sync() {
    let mut users = Replica::new();
    let mut posts = Replica::new();
    let user1_id = Uuid::new_v4().to_string();
    let user1 = user(&user1_id, "User 1", "First user", "test_public_key_1");
    let user2_id = Uuid::new_v4().to_string();
    let user2 = user(&user2_id, "User 2", "Second user", "test_public_key_2");
    save_user(&mut users, AUTHOR, &user1).unwrap();
    save_user(&mut users, AUTHOR, &user2).unwrap();

    let mut user1_post_ids = Vec::new();
    let mut user2_post_ids = Vec::new();
    for i in 0..3 {
        let post_id = Uuid::new_v4().to_string();
        let post = post(&post_id, &user1_id, format!("User 1 post {}", i), i);
        save_post(&mut posts, AUTHOR, &post).unwrap();
        user1_post_ids.push(post_id);
    }
    for i in 0..2 {
        let post_id = Uuid::new_v4().to_string();
        let post = post(&post_id, &user2_id, format!("User 2 post {}", i), i);
        save_post(&mut posts, AUTHOR, &post).unwrap();
        user2_post_ids.push(post_id);
    }

    let user1_posts = list_user_posts(&posts, &user1_id).unwrap();
    let user2_posts = list_user_posts(&posts, &user2_id).unwrap();

    assert_eq!(user1_posts.len(), 3);
    assert_eq!(user2_posts.len(), 2);
    for post in &user1_posts {
        assert_eq!(post.author_id, user1_id);
        assert!(user1_post_ids.contains(&post.id));
    }
    for post in &user2_posts {
        assert_eq!(post.author_id, user2_id);
        assert!(user2_post_ids.contains(&post.id));
    }
}

#[test]
fn test_concurrent_document_operations() {
    let mut users = Replica::new();
    let mut posts = Replica::new();
    let user_id = Uuid::new_v4().to_string();
    let user = user(
        &user_id,
        "Concurrent Test User",
        "User for concurrent test",
        "test_public_key_concurrent",
    );
    save_user(&mut users, AUTHOR, &user).unwrap();

    let mut created_ids = Vec::new();
    for i in 0..5 {
        let post_id = Uuid::new_v4().to_string();
        let post = post(&post_id, &user_id, format!("Concurrent post {}", i), i);
        save_post(&mut posts, AUTHOR, &post).unwrap();
        created_ids.push(post_id);
    }

    let all_posts = list_posts(&posts).unwrap();
    for post_id in &created_ids {
        assert!(all_posts.iter().any(|p| p.id == *post_id), "Post {} should exist", post_id);
    }
}

#[test]
fn test_document_persistence_across_restarts() {
    let mut users = Replica::new();
    let mut posts = Replica::new();
    let user_id = Uuid::new_v4().to_string();
    let user =
        user(&user_id, "Persistence Test User", "Testing persistence", "test_public_key_persist");
    save_user(&mut users, AUTHOR, &user).unwrap();

    let post_id = Uuid::new_v4().to_string();
    let post = post(&post_id, &user_id, "Persistence test post".to_string(), 0);
    save_post(&mut posts, AUTHOR, &post).unwrap();

    let retrieved_user = get_user(&users, &user_id).unwrap().expect("User should persist");
    let retrieved_post = get_post(&posts, &post_id).unwrap().expect("Post should persist");

    assert_eq!(retrieved_user.id, user.id);
    assert_eq!(retrieved_user.display_name, user.display_name);
    assert_eq!(retrieved_post.id, post.id);
    assert_eq!(retrieved_post.content, post.content);
}

#[test]
fn test_multiple_users_sync() {
    let mut replica = Replica::new();
    let mut user_ids = Vec::new();
    for i in 0..10 {
        let user_id = Uuid::new_v4().to_string();
        let user = User {
            id: user_id.clone(),
            display_name: format!("Multi Sync User {}", i),
            bio: format!("Bio for user {}", i),
            public_key: format!("test_public_key_multi_{}", i),
            avatar: if i % 2 == 0 { Some(format!("avatar_{}.png", i)) } else { None },
            following: Vec::new(),
            followers: Vec::new(),
            created_at: chrono::Utc::now().timestamp() + i,
        };
        save_user(&mut replica, AUTHOR, &user).unwrap();
        user_ids.push(user_id);
    }

    for (i, user_id) in user_ids.iter().enumerate() {
        let retrieved_user = get_user(&replica, user_id).unwrap().expect("User should exist");
        assert_eq!(retrieved_user.display_name, format!("Multi Sync User {}", i));
        assert_eq!(retrieved_user.bio, format!("Bio for user {}", i));
        if i % 2 == 0 {
            assert_eq!(retrieved_user.avatar, Some(format!("avatar_{}.png", i)));
        } else {
            assert_eq!(retrieved_user.avatar, None);
        }
    }
}

#[test]
fn events_test_document_subscription_service_creation() {
    let service = DocumentSubscriptionService::new();
    assert_eq!(service.state(Collection::User), SubscriptionState::NotStarted);
    assert_eq!(service.state(Collection::Post), SubscriptionState::NotStarted);
}

#[test]
fn document_subscription_test_test_document_subscription_service_creation() {
    let _subscription_service = DocumentSubscriptionService::new();
}

#[test]
fn test_subscription_service_lifecycle() {
    let _subscription_service = DocumentSubscriptionService::new();
    let _another_service = DocumentSubscriptionService::new();
}

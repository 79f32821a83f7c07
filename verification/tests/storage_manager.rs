use kukuri_client::models::post::Post;
use kukuri_client::models::settings::Settings;
use kukuri_client::models::user::User;
use kukuri_client::storage::storage_manager::StorageManager;

fn user(id: &str, display_name: &str, bio: &str, created_at: i64) -> User {
    User {
        id: id.to_string(),
        display_name: display_name.to_string(),
        bio: bio.to_string(),
        public_key: String::new(),
        avatar: None,
        following: vec![],
        followers: vec![],
        created_at,
    }
}

fn post(id: &str, author_id: &str, content: &str, created_at: i64) -> Post {
    Post {
        id: id.to_string(),
        author_id: author_id.to_string(),
        content: content.to_string(),
        attachments: vec![],
        mentions: vec![],
        hashtags: vec![],
        created_at,
    }
}

#[test]
fn test_storage_manager_creation() {
    let storage_manager = StorageManager::new();
    assert!(storage_manager.is_ok());
}

#[test]
fn test_document_creation() {
    let mut storage_manager = StorageManager::new().unwrap();
    let result = storage_manager.get_or_create_document("test-doc");
    assert!(result.is_ok());
}

#[test]
fn test_user_save_and_get() {
    let mut storage_manager = StorageManager::new().unwrap();
    storage_manager.get_or_create_document("test-doc").unwrap();

    let user = user("user1", "Test User", "This is a test user", chrono::Utc::now().timestamp());

    let save_result = storage_manager.save_user(&user);
    assert!(save_result.is_ok());

    let get_result: Result<Option<User>, String> = storage_manager.get_user("user1");
    assert!(get_result.is_ok());

    let retrieved_user = get_result.unwrap();
    assert!(retrieved_user.is_some());

    let retrieved_user = retrieved_user.unwrap();
    assert_eq!(retrieved_user.id, "user1");
    assert_eq!(retrieved_user.display_name, "Test User");
}

#[test]
fn test_post_save_and_get() {
    let mut storage_manager = StorageManager::new().unwrap();
    storage_manager.get_or_create_document("test-doc").unwrap();

    let post = post("post1", "user1", "This is a test post", chrono::Utc::now().timestamp());

    let save_result = storage_manager.save_post(&post);
    assert!(save_result.is_ok());

    let get_result: Result<Vec<Post>, String> = storage_manager.get_posts(10, 0);
    assert!(get_result.is_ok());

    let posts = get_result.unwrap();
    assert_eq!(posts.len(), 1);
    assert_eq!(posts[0].id, "post1");
    assert_eq!(posts[0].content, "This is a test post");
}

#[test]
fn test_user_posts() {
    let mut storage_manager = StorageManager::new().unwrap();
    storage_manager.get_or_create_document("test-doc").unwrap();

    let post1 = post("post1", "user1", "Post by user1", chrono::Utc::now().timestamp());
    let post2 = post("post2", "user2", "Post by user2", chrono::Utc::now().timestamp());
    let post3 =
        post("post3", "user1", "Another post by user1", chrono::Utc::now().timestamp() + 1);

    storage_manager.save_post(&post1).unwrap();
    storage_manager.save_post(&post2).unwrap();
    storage_manager.save_post(&post3).unwrap();

    let get_result: Result<Vec<Post>, String> = storage_manager.get_user_posts("user1", 10, 0);
    assert!(get_result.is_ok());

    let posts = get_result.unwrap();
    assert_eq!(posts.len(), 2);
    assert_eq!(posts[0].id, "post3");
    assert_eq!(posts[1].id, "post1");
}

#[test]
fn test_search_posts() {
    let mut storage_manager = StorageManager::new().unwrap();
    storage_manager.get_or_create_document("test-doc").unwrap();

    let post1 = post("post1", "user1", "This is a test post", chrono::Utc::now().timestamp());
    let post2 = post("post2", "user2", "Another test post", chrono::Utc::now().timestamp());
    let post3 =
        post("post3", "user1", "This is a different post", chrono::Utc::now().timestamp() + 1);

    storage_manager.save_post(&post1).unwrap();
    storage_manager.save_post(&post2).unwrap();
    storage_manager.save_post(&post3).unwrap();

    let search_result: Result<Vec<Post>, String> = storage_manager.search_posts("test", 10);
    assert!(search_result.is_ok());

    let posts = search_result.unwrap();
    assert_eq!(posts.len(), 2);

    let search_result: Result<Vec<Post>, String> = storage_manager.search_posts("different", 10);
    assert!(search_result.is_ok());

    let posts = search_result.unwrap();
    assert_eq!(posts.len(), 1);
    assert_eq!(posts[0].id, "post3");
}

#[test]
fn operations_fail_before_a_document_is_chosen() {
    let mut manager = StorageManager::new().unwrap();
    let u = user("u", "U", "", 1);
    assert_eq!(manager.save_user(&u), Err("Sync manager not initialized".to_string()));
    assert_eq!(manager.get_user("u"), Err("Sync manager not initialized".to_string()));
    assert_eq!(manager.get_posts(10, 0), Err("Sync manager not initialized".to_string()));
    assert_eq!(manager.add_peer("p"), Err("Sync manager not initialized".to_string()));
    assert_eq!(manager.remove_peer("p"), Err("Sync manager not initialized".to_string()));
    assert_eq!(manager.sync_with_peers(), Err("Sync manager not initialized".to_string()));
    assert!(manager.get_active_peers().is_empty());
}

#[test]
fn a_user_that_was_not_saved_is_none() {
    let mut manager = StorageManager::new().unwrap();
    manager.get_or_create_document("doc").unwrap();
    assert_eq!(manager.get_user("nobody"), Ok(None));
    assert_eq!(manager.get_settings("settings:global"), Ok(None));
}

#[test]
fn saving_again_replaces_the_user() {
    let mut manager = StorageManager::new().unwrap();
    manager.get_or_create_document("doc").unwrap();
    manager.save_user(&user("u", "First", "", 1)).unwrap();
    manager.save_user(&user("u", "Second", "bio", 2)).unwrap();
    assert_eq!(manager.get_user("u"), Ok(Some(user("u", "Second", "bio", 2))));
}

#[test]
fn settings_are_saved_under_their_key() {
    let mut manager = StorageManager::new().unwrap();
    manager.get_or_create_document("doc").unwrap();
    let mut settings = Settings::default();
    settings.theme = "dark".to_string();
    settings.selected_relays = vec!["wss://relay.example".to_string()];
    manager.save_settings("settings:global", &settings).unwrap();
    assert_eq!(manager.get_settings("settings:global"), Ok(Some(settings)));
    assert_eq!(manager.get_settings("settings:other"), Ok(None));
}

#[test]
fn pages_of_posts_follow_the_offset() {
    let mut manager = StorageManager::new().unwrap();
    manager.get_or_create_document("doc").unwrap();
    for (id, t) in [("a", 3), ("b", 1), ("c", 2), ("d", 4)] {
        manager.save_post(&post(id, "u", "x", t)).unwrap();
    }
    let ids = |posts: Vec<Post>| posts.into_iter().map(|p| p.id).collect::<Vec<String>>();
    assert_eq!(ids(manager.get_posts(10, 0).unwrap()), vec!["d", "a", "c", "b"]);
    assert_eq!(ids(manager.get_posts(2, 1).unwrap()), vec!["a", "c"]);
    assert_eq!(ids(manager.get_posts(2, 3).unwrap()), vec!["b"]);
    assert_eq!(ids(manager.get_posts(2, 4).unwrap()), Vec::<String>::new());
    assert_eq!(ids(manager.get_posts(2, 100).unwrap()), Vec::<String>::new());
    assert_eq!(ids(manager.get_posts(0, 0).unwrap()), Vec::<String>::new());
    assert_eq!(ids(manager.get_posts(usize::MAX, 1).unwrap()), vec!["a", "c", "b"]);
}

#[test]
fn a_search_without_a_query_is_refused() {
    let mut manager = StorageManager::new().unwrap();
    manager.get_or_create_document("doc").unwrap();
    manager.save_post(&post("a", "u", "hello", 1)).unwrap();
    assert_eq!(manager.search_posts("", 10), Err("Search query cannot be empty".to_string()));
    assert_eq!(manager.search_posts("   ", 10), Err("Search query cannot be empty".to_string()));
}

#[test]
fn a_search_ignores_case_and_keeps_the_first_matches() {
    let mut manager = StorageManager::new().unwrap();
    manager.get_or_create_document("doc").unwrap();
    manager.save_post(&post("a", "u", "Hello World", 1)).unwrap();
    manager.save_post(&post("b", "u", "say HELLO", 3)).unwrap();
    manager.save_post(&post("c", "u", "goodbye", 2)).unwrap();
    manager.save_post(&post("d", "u", "hello again", 4)).unwrap();
    let ids = |posts: Vec<Post>| posts.into_iter().map(|p| p.id).collect::<Vec<String>>();
    assert_eq!(ids(manager.search_posts("hello", 10).unwrap()), vec!["d", "b", "a"]);
    assert_eq!(ids(manager.search_posts("hello", 2).unwrap()), vec!["b", "a"]);
    assert_eq!(ids(manager.search_posts("hello", 0).unwrap()), Vec::<String>::new());
    assert_eq!(ids(manager.search_posts("absent", 10).unwrap()), Vec::<String>::new());
}

#[test]
fn peers_are_a_set() {
    let mut manager = StorageManager::new().unwrap();
    manager.get_or_create_document("doc").unwrap();
    manager.add_peer("peer1").unwrap();
    manager.add_peer("peer2").unwrap();
    manager.add_peer("peer1").unwrap();
    assert_eq!(manager.get_active_peers(), vec!["peer1", "peer2"]);
    manager.remove_peer("peer1").unwrap();
    manager.remove_peer("peer3").unwrap();
    assert_eq!(manager.get_active_peers(), vec!["peer2"]);
    assert_eq!(manager.sync_with_peers(), Ok(()));
}

#[test]
fn choosing_a_document_again_keeps_what_it_holds() {
    let mut manager = StorageManager::new().unwrap();
    manager.get_or_create_document("doc").unwrap();
    manager.save_user(&user("u", "U", "", 1)).unwrap();
    manager.get_or_create_document("other").unwrap();
    assert_eq!(manager.get_user("u"), Ok(None));
    manager.get_or_create_document("doc").unwrap();
    assert_eq!(manager.get_user("u"), Ok(Some(user("u", "U", "", 1))));
}

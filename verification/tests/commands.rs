use kukuri_client::commands::auth::{
    auth_result, create_user, list_users, new_user, sign_in, AuthError, AuthResult, UserListItem,
};
use kukuri_client::commands::post::{
    create_post, draft_post, get_posts, get_user_posts, post_result, search_posts,
    validate_content, PostError, PostResult,
};
use kukuri_client::commands::profile::{
    apply_profile, check_follow, follow_result, follow_user, follows, get_profile,
    profile_result, unfollow_result, unfollow_user, update_profile, validate_profile,
    with_following, without_following, FollowOutcome, ProfileError, ProfileUpdateResult,
};
use kukuri_client::commands::settings::{
    get_settings, merge_settings, settings_or_default, settings_result, update_settings,
    Settings, SettingsError, SettingsUpdateResult,
};
use kukuri_client::models::post::Post;
use kukuri_client::models::user::User;
use kukuri_client::network::iroh::Network;
use kukuri_client::storage::error::StorageError;
use kukuri_client::storage::replica::{EntryInfo, Replica};
use kukuri_client::storage::repository::post_repository::{get_post, save_post};
use kukuri_client::storage::repository::records::put_record;
use kukuri_client::storage::repository::settings_repository::settings_key;
use kukuri_client::storage::repository::user_repository::{
    get_user, save_user, user_profile_key,
};
use kukuri_client::storage::storage_manager::StorageManager;

const ME: &str = "author-1";

fn user(id: &str) -> User {
    User {
        id: id.to_string(),
        display_name: format!("name of {}", id),
        bio: "bio".to_string(),
        public_key: "pk".to_string(),
        avatar: None,
        following: vec![],
        followers: vec![],
        created_at: 1,
    }
}

fn post(id: &str, author_id: &str, content: &str, created_at: i64) -> Post {
    Post {
        id: id.to_string(),
        author_id: author_id.to_string(),
        content: content.to_string(),
        attachments: vec![],
        mentions: vec![],
        hashtags: vec![],
        created_at,
    }
}

#[test]
fn content_is_checked() {
    assert_eq!(validate_content("hello"), Ok(()));
    assert_eq!(
        validate_content(""),
        Err(PostError::Validation("Content cannot be empty".to_string()))
    );
    assert_eq!(
        validate_content("  \n "),
        Err(PostError::Validation("Content cannot be empty".to_string()))
    );
    assert_eq!(validate_content(&"x".repeat(500)), Ok(()));
    assert_eq!(
        validate_content(&"x".repeat(501)),
        Err(PostError::Validation(
            "Content exceeds maximum length of 500 characters".to_string()
        ))
    );
    // The length is counted in bytes.
    assert_eq!(validate_content(&"é".repeat(250)), Ok(()));
    assert!(validate_content(&"é".repeat(251)).is_err());
}

#[test]
fn a_draft_has_nothing_attached() {
    assert_eq!(
        draft_post("p".to_string(), "a".to_string(), "c".to_string(), 7),
        Ok(post("p", "a", "c", 7))
    );
    assert_eq!(
        draft_post("p".to_string(), "a".to_string(), " ".to_string(), 7),
        Err(PostError::Validation("Content cannot be empty".to_string()))
    );
}

#[test]
fn a_created_post_is_saved() {
    let mut replica = Replica::new();
    let before = chrono::Utc::now().timestamp();
    let created = create_post(&mut replica, ME, "alice".to_string(), "hello".to_string()).unwrap();
    let after = chrono::Utc::now().timestamp();
    assert_eq!(created.id.len(), 36);
    assert_eq!(created.author_id, "alice");
    assert_eq!(created.content, "hello");
    assert!(before <= created.created_at && created.created_at <= after);
    assert_eq!(get_post(&replica, &created.id).unwrap().as_ref(), Some(&created));
    let other = create_post(&mut replica, ME, "alice".to_string(), "again".to_string()).unwrap();
    assert_ne!(other.id, created.id);
    assert_eq!(replica.len(), 2);

    assert_eq!(
        create_post(&mut replica, ME, "alice".to_string(), "".to_string()),
        Err(PostError::Validation("Content cannot be empty".to_string()))
    );
    assert_eq!(replica.len(), 2);
}

#[test]
fn a_failed_publication_is_told_but_is_no_failure() {
    assert_eq!(
        post_result("p".to_string(), Ok(())),
        PostResult { post_id: "p".to_string(), success: true, message: None }
    );
    assert_eq!(
        post_result("p".to_string(), Err("offline".to_string())),
        PostResult {
            post_id: "p".to_string(),
            success: true,
            message: Some("Post created but failed to publish: offline".to_string()),
        }
    );
    assert_eq!(profile_result(Ok(())), ProfileUpdateResult { success: true, message: None });
    assert_eq!(
        profile_result(Err("offline".to_string())),
        ProfileUpdateResult {
            success: true,
            message: Some("Profile updated but failed to publish: offline".to_string()),
        }
    );
    assert_eq!(
        follow_result(FollowOutcome::Followed, Ok(())),
        ProfileUpdateResult { success: true, message: None }
    );
    assert_eq!(
        follow_result(FollowOutcome::Followed, Err("offline".to_string())).message,
        Some("Follow successful but failed to publish: offline".to_string())
    );
    assert_eq!(
        follow_result(FollowOutcome::AlreadyFollowing, Ok(())).message,
        Some("Already following this user".to_string())
    );
    assert_eq!(unfollow_result(true, Ok(())).message, None);
    assert_eq!(
        unfollow_result(false, Ok(())).message,
        Some("User was not being followed".to_string())
    );
    assert_eq!(
        unfollow_result(true, Err("offline".to_string())).message,
        Some("Unfollow successful but failed to publish: offline".to_string())
    );
    assert_eq!(settings_result(), SettingsUpdateResult { success: true, message: None });
}

#[test]
fn posts_are_listed_in_pages_of_twenty() {
    let mut replica = Replica::new();
    for i in 0..25 {
        let author = if i % 2 == 0 { "even" } else { "odd" };
        save_post(&mut replica, ME, &post(&format!("n{}", i), author, "text", i)).unwrap();
    }
    let page = get_posts(&replica, None, None).unwrap();
    assert_eq!(page.len(), 20);
    assert_eq!(page[0].id, "n24");
    assert_eq!(page[19].id, "n5");
    let page = get_posts(&replica, Some(3), Some(22)).unwrap();
    assert_eq!(page.iter().map(|p| p.id.as_str()).collect::<Vec<_>>(), vec!["n2", "n1", "n0"]);
    assert_eq!(get_posts(&replica, Some(3), Some(25)), Ok(vec![]));
    assert_eq!(get_posts(&replica, None, Some(1000)), Ok(vec![]));
    let page = get_user_posts(&replica, "odd".to_string(), Some(2), Some(1)).unwrap();
    assert_eq!(page.iter().map(|p| p.id.as_str()).collect::<Vec<_>>(), vec!["n21", "n19"]);
    assert_eq!(get_user_posts(&replica, "odd".to_string(), None, Some(12)), Ok(vec![]));
    assert_eq!(get_user_posts(&replica, "nobody".to_string(), None, None), Ok(vec![]));
}

#[test]
fn a_search_needs_a_query() {
    let mut replica = Replica::new();
    for i in 0..60 {
        save_post(&mut replica, ME, &post(&format!("n{}", i), "a", "needle", i)).unwrap();
    }
    assert_eq!(
        search_posts(&replica, "".to_string(), None),
        Err(PostError::Validation("Search query cannot be empty".to_string()))
    );
    assert_eq!(
        search_posts(&replica, "  ".to_string(), Some(5)),
        Err(PostError::Validation("Search query cannot be empty".to_string()))
    );
    assert_eq!(search_posts(&replica, "needle".to_string(), None).unwrap().len(), 50);
    assert_eq!(search_posts(&replica, "needle".to_string(), Some(7)).unwrap().len(), 7);
    assert_eq!(search_posts(&replica, "hay".to_string(), None), Ok(vec![]));
}

#[test]
fn command_errors_have_messages() {
    assert_eq!(PostError::Storage("x".to_string()).message(), "Storage error: x");
    assert_eq!(PostError::Network("x".to_string()).message(), "Network error: x");
    assert_eq!(PostError::Validation("x".to_string()).message(), "Validation error: x");
    assert_eq!(PostError::Other("x".to_string()).message(), "x");
    assert_eq!(
        PostError::from_storage(&StorageError::NotFound("k".to_string())),
        PostError::Storage("Data not found for key: k".to_string())
    );
    assert_eq!(ProfileError::UserNotFound.message(), "User not found");
    assert_eq!(ProfileError::Storage("x".to_string()).message(), "Storage error: x");
    assert_eq!(ProfileError::Network("x".to_string()).message(), "Network error: x");
    assert_eq!(ProfileError::Validation("x".to_string()).message(), "Validation error: x");
    assert_eq!(ProfileError::Other("x".to_string()).message(), "x");
    assert_eq!(
        ProfileError::from_storage(&StorageError::Timeout),
        ProfileError::Storage("Operation timed out".to_string())
    );
    assert_eq!(SettingsError::Storage("x".to_string()).message(), "Storage error: x");
    assert_eq!(SettingsError::Validation("x".to_string()).message(), "Validation error: x");
    assert_eq!(SettingsError::Other("x".to_string()).message(), "x");
    assert_eq!(
        SettingsError::from_storage(&StorageError::Docs("d".to_string())),
        SettingsError::Storage("Iroh Docs operation failed: d".to_string())
    );
    assert_eq!(
        AuthError::KeyGeneration("x".to_string()).message(),
        "Failed to generate key pair: x"
    );
    assert_eq!(AuthError::Storage("x".to_string()).message(), "Storage error: x");
    assert_eq!(AuthError::FileSystem("x".to_string()).message(), "File system error: x");
    assert_eq!(AuthError::UserNotFound.message(), "User not found");
    assert_eq!(AuthError::CredentialsNotFound.message(), "Credentials not found");
    assert_eq!(AuthError::Other("x".to_string()).message(), "x");
}

#[test]
fn a_profile_change_is_checked() {
    assert_eq!(validate_profile(&None, &None), Ok(()));
    assert_eq!(validate_profile(&Some("n".to_string()), &Some("b".to_string())), Ok(()));
    assert_eq!(
        validate_profile(&Some(" ".to_string()), &None),
        Err(ProfileError::Validation("Display name cannot be empty".to_string()))
    );
    assert_eq!(validate_profile(&Some("n".repeat(50)), &None), Ok(()));
    assert_eq!(
        validate_profile(&Some("n".repeat(51)), &None),
        Err(ProfileError::Validation(
            "Display name exceeds maximum length of 50 characters".to_string()
        ))
    );
    assert_eq!(validate_profile(&None, &Some("b".repeat(160))), Ok(()));
    assert_eq!(validate_profile(&None, &Some(String::new())), Ok(()));
    assert_eq!(
        validate_profile(&None, &Some("b".repeat(161))),
        Err(ProfileError::Validation("Bio exceeds maximum length of 160 characters".to_string()))
    );
    assert_eq!(
        validate_profile(&Some(String::new()), &Some("b".repeat(161))),
        Err(ProfileError::Validation("Display name cannot be empty".to_string()))
    );
}

#[test]
fn a_profile_is_changed_field_by_field() {
    let mut expected = user("u");
    expected.bio = "new bio".to_string();
    assert_eq!(apply_profile(user("u"), None, Some("new bio".to_string()), None), expected);
    expected.display_name = "New".to_string();
    expected.avatar = Some("pic".to_string());
    assert_eq!(
        apply_profile(
            user("u"),
            Some("New".to_string()),
            Some("new bio".to_string()),
            Some("pic".to_string())
        ),
        expected
    );
    let mut with_avatar = user("u");
    with_avatar.avatar = Some("old".to_string());
    assert_eq!(apply_profile(with_avatar, None, None, None).avatar, Some("old".to_string()));
}

#[test]
fn updating_a_profile() {
    let mut replica = Replica::new();
    assert_eq!(
        update_profile(&mut replica, ME, "u".to_string(), None, None, None),
        Err(ProfileError::UserNotFound)
    );
    assert_eq!(get_profile(&replica, "u".to_string()), Ok(None));
    save_user(&mut replica, ME, &user("u")).unwrap();
    assert_eq!(get_profile(&replica, "u".to_string()), Ok(Some(user("u"))));

    assert_eq!(
        update_profile(&mut replica, ME, "u".to_string(), Some("".to_string()), None, None),
        Err(ProfileError::Validation("Display name cannot be empty".to_string()))
    );
    assert_eq!(
        update_profile(&mut replica, ME, "ghost".to_string(), Some("".to_string()), None, None),
        Err(ProfileError::Validation("Display name cannot be empty".to_string()))
    );
    assert_eq!(get_user(&replica, "u"), Ok(Some(user("u"))));

    let updated = update_profile(
        &mut replica,
        ME,
        "u".to_string(),
        Some("Alice".to_string()),
        None,
        Some("a.png".to_string()),
    )
    .unwrap();
    let mut expected = user("u");
    expected.display_name = "Alice".to_string();
    expected.avatar = Some("a.png".to_string());
    assert_eq!(updated, expected);
    assert_eq!(get_user(&replica, "u"), Ok(Some(expected)));

    put_record(&mut replica, ME, &user_profile_key("broken"), b"{}");
    assert!(matches!(
        update_profile(&mut replica, ME, "broken".to_string(), None, None, None),
        Err(ProfileError::Storage(_))
    ));
    assert!(matches!(get_profile(&replica, "broken".to_string()), Err(ProfileError::Storage(_))));
}

#[test]
fn following_and_unfollowing() {
    let mut replica = Replica::new();
    save_user(&mut replica, ME, &user("a")).unwrap();
    save_user(&mut replica, ME, &user("b")).unwrap();

    assert_eq!(
        follow_user(&mut replica, ME, "a".to_string(), "a".to_string()),
        Err(ProfileError::Validation("Cannot follow yourself".to_string()))
    );
    assert_eq!(
        follow_user(&mut replica, ME, "ghost".to_string(), "b".to_string()),
        Err(ProfileError::UserNotFound)
    );
    assert_eq!(
        follow_user(&mut replica, ME, "a".to_string(), "ghost".to_string()),
        Err(ProfileError::UserNotFound)
    );
    assert_eq!(get_user(&replica, "a").unwrap().unwrap().following, Vec::<String>::new());

    assert_eq!(
        follow_user(&mut replica, ME, "a".to_string(), "b".to_string()),
        Ok(FollowOutcome::Followed)
    );
    assert_eq!(get_user(&replica, "a").unwrap().unwrap().following, vec!["b"]);
    assert_eq!(
        follow_user(&mut replica, ME, "a".to_string(), "b".to_string()),
        Ok(FollowOutcome::AlreadyFollowing)
    );
    assert_eq!(get_user(&replica, "a").unwrap().unwrap().following, vec!["b"]);
    assert_eq!(get_user(&replica, "b").unwrap().unwrap().following, Vec::<String>::new());

    assert_eq!(unfollow_user(&mut replica, ME, "a".to_string(), "b".to_string()), Ok(true));
    assert_eq!(get_user(&replica, "a").unwrap().unwrap().following, Vec::<String>::new());
    assert_eq!(unfollow_user(&mut replica, ME, "a".to_string(), "b".to_string()), Ok(false));
    assert_eq!(
        unfollow_user(&mut replica, ME, "ghost".to_string(), "b".to_string()),
        Err(ProfileError::UserNotFound)
    );

    // A user who follows somebody twice stops following them altogether.
    let mut twice = user("c");
    twice.following = vec!["b".to_string(), "a".to_string(), "b".to_string()];
    save_user(&mut replica, ME, &twice).unwrap();
    assert_eq!(unfollow_user(&mut replica, ME, "c".to_string(), "b".to_string()), Ok(true));
    assert_eq!(get_user(&replica, "c").unwrap().unwrap().following, vec!["a"]);
}

#[test]
fn a_profile_whose_content_is_missing_is_a_storage_error() {
    let mut replica = Replica::new();
    replica.insert_remote(EntryInfo {
        key: user_profile_key("remote"),
        author: "peer".to_string(),
        content_hash: vec![1u8; 32],
        content_len: 10,
        timestamp: 0,
    });
    let expected = format!(
        "Content is not at hand: content of user remote (hash: {})",
        "01".repeat(32)
    );
    assert_eq!(
        get_profile(&replica, "remote".to_string()),
        Err(ProfileError::Storage(expected))
    );
    save_user(&mut replica, ME, &user("a")).unwrap();
    assert!(matches!(
        follow_user(&mut replica, ME, "a".to_string(), "remote".to_string()),
        Err(ProfileError::Storage(_))
    ));
    assert!(matches!(
        unfollow_user(&mut replica, ME, "remote".to_string(), "a".to_string()),
        Err(ProfileError::Storage(_))
    ));
}

#[test]
fn settings_fall_back_to_the_defaults() {
    let replica = Replica::new();
    assert!(get_settings(&replica, None).unwrap() == Settings::default());
    let mine = get_settings(&replica, Some("u".to_string())).unwrap();
    assert_eq!(mine.user_id, Some("u".to_string()));
    assert_eq!(mine.theme, "system");
    assert_eq!(mine.language, "ja");
    assert!(mine.notifications);
    assert!(!mine.autostart);
}

#[test]
fn settings_are_changed_field_by_field() {
    let mut replica = Replica::new();
    let first = update_settings(
        &mut replica,
        ME,
        Some("u".to_string()),
        None,
        Some("dark".to_string()),
        None,
        Some(true),
        None,
    )
    .unwrap();
    assert_eq!(first.user_id, Some("u".to_string()));
    assert_eq!(first.theme, "dark");
    assert_eq!(first.language, "ja");
    assert!(first.autostart);
    assert!(first.notifications);
    assert!(get_settings(&replica, Some("u".to_string())).unwrap() == first);

    let second = update_settings(
        &mut replica,
        ME,
        Some("u".to_string()),
        Some(vec!["r".to_string()]),
        None,
        Some("en".to_string()),
        None,
        Some(false),
    )
    .unwrap();
    assert_eq!(second.selected_relays, vec!["r"]);
    assert_eq!(second.theme, "dark");
    assert_eq!(second.language, "en");
    assert!(second.autostart);
    assert!(!second.notifications);
    assert!(get_settings(&replica, Some("u".to_string())).unwrap() == second);
    assert!(get_settings(&replica, None).unwrap() == Settings::default());

    put_record(&mut replica, ME, &settings_key(Some("broken")), b"nonsense");
    assert!(matches!(
        get_settings(&replica, Some("broken".to_string())),
        Err(SettingsError::Storage(_))
    ));
    assert!(matches!(
        update_settings(&mut replica, ME, Some("broken".to_string()), None, None, None, None, None),
        Err(SettingsError::Storage(_))
    ));
}

#[test]
fn a_new_user() {
    let u = new_user("id".to_string(), "Name".to_string(), None, "key".to_string(), 5);
    assert_eq!(
        u,
        User {
            id: "id".to_string(),
            display_name: "Name".to_string(),
            bio: String::new(),
            public_key: "key".to_string(),
            avatar: None,
            following: vec![],
            followers: vec![],
            created_at: 5,
        }
    );
    let u = new_user("id".to_string(), "N".to_string(), Some("b".to_string()), "k".to_string(), 5);
    assert_eq!(u.bio, "b");
    assert_eq!(
        auth_result("id".to_string()),
        AuthResult { user_id: "id".to_string(), success: true, message: None }
    );
}

#[test]
fn creating_a_user_saves_the_profile_with_the_key_in_base64() {
    let mut manager = StorageManager::new().unwrap();
    assert_eq!(
        create_user(&mut manager, "Alice".to_string(), None, b"hello world~"),
        Err(AuthError::Storage("Sync manager not initialized".to_string()))
    );
    manager.get_or_create_document("default").unwrap();
    let created =
        create_user(&mut manager, "Alice".to_string(), Some("hi".to_string()), b"hello world~")
            .unwrap();
    assert_eq!(created.id.len(), 36);
    assert_eq!(created.display_name, "Alice");
    assert_eq!(created.bio, "hi");
    assert_eq!(created.public_key, "aGVsbG8gd29ybGR+");
    assert_eq!(created.avatar, None);
    assert_eq!(manager.get_user(&created.id), Ok(Some(created)));
    let padded = create_user(&mut manager, "Bob".to_string(), None, &[0xff]).unwrap();
    assert_eq!(padded.public_key, "/w==");
    let empty = create_user(&mut manager, "Eve".to_string(), None, &[]).unwrap();
    assert_eq!(empty.public_key, "");
}

#[test]
fn signing_in() {
    let mut manager = StorageManager::new().unwrap();
    manager.get_or_create_document("default").unwrap();
    manager.save_user(&user("u")).unwrap();
    let network = Some(Network::new(0));
    assert_eq!(
        sign_in(&manager, &network, "u".to_string(), false),
        Err(AuthError::CredentialsNotFound)
    );
    assert_eq!(
        sign_in(&manager, &network, "ghost".to_string(), true),
        Err(AuthError::UserNotFound)
    );
    assert_eq!(
        sign_in(&manager, &None, "u".to_string(), true),
        Err(AuthError::Other(
            "Failed to get network status: Network not initialized".to_string()
        ))
    );
    assert_eq!(
        sign_in(&manager, &network, "u".to_string(), true),
        Ok(AuthResult {
            user_id: "u".to_string(),
            success: true,
            message: Some("Connected to 0 peers".to_string()),
        })
    );
    let empty = StorageManager::new().unwrap();
    assert_eq!(
        sign_in(&empty, &network, "u".to_string(), true),
        Err(AuthError::Storage("Sync manager not initialized".to_string()))
    );
}

#[test]
fn listing_the_users_of_this_installation() {
    let mut manager = StorageManager::new().unwrap();
    manager.get_or_create_document("default").unwrap();
    manager.save_user(&user("a")).unwrap();
    manager.save_user(&user("b")).unwrap();
    let ids = vec!["b".to_string(), "ghost".to_string(), "a".to_string(), "b".to_string()];
    assert_eq!(
        list_users(&manager, &ids),
        Ok(vec![
            UserListItem { id: "b".to_string(), display_name: "name of b".to_string() },
            UserListItem { id: "a".to_string(), display_name: "name of a".to_string() },
            UserListItem { id: "b".to_string(), display_name: "name of b".to_string() },
        ])
    );
    assert_eq!(list_users(&manager, &vec![]), Ok(vec![]));
    assert_eq!(list_users(&StorageManager::new().unwrap(), &ids), Ok(vec![]));
}

#[test]
fn the_steps_of_following() {
    assert_eq!(check_follow("a", "b"), Ok(()));
    assert_eq!(
        check_follow("a", "a"),
        Err(ProfileError::Validation("Cannot follow yourself".to_string()))
    );
    let mut u = user("a");
    assert!(!follows(&u, "b"));
    u = with_following(u, "b".to_string());
    u = with_following(u, "c".to_string());
    assert_eq!(u.following, vec!["b", "c"]);
    assert!(follows(&u, "b"));
    assert!(!follows(&u, "d"));
    u = without_following(u, "b");
    assert_eq!(u.following, vec!["c"]);
    u = without_following(u, "zzz");
    assert_eq!(u.following, vec!["c"]);
}

#[test]
fn the_steps_of_changing_settings() {
    let mut stored = Settings::default();
    stored.theme = "dark".to_string();
    let expected = stored.clone();
    assert!(settings_or_default(Some(stored), Some("ignored".to_string())) == expected);
    let fallback = settings_or_default(None, Some("u".to_string()));
    assert_eq!(fallback.user_id, Some("u".to_string()));
    assert_eq!(fallback.theme, "system");
    let merged = merge_settings(
        expected,
        Some("v".to_string()),
        None,
        None,
        Some("en".to_string()),
        None,
        Some(false),
    );
    assert_eq!(merged.user_id, Some("v".to_string()));
    assert_eq!(merged.theme, "dark");
    assert_eq!(merged.language, "en");
    assert!(!merged.autostart);
    assert!(!merged.notifications);
}

#[test]
fn errors_of_a_search() {
    assert_eq!(
        PostError::from_search(StorageError::Validation("v".to_string())),
        PostError::Validation("v".to_string())
    );
    assert_eq!(
        PostError::from_search(StorageError::ContentMissing("c".to_string())),
        PostError::Storage("Content is not at hand: c".to_string())
    );
}

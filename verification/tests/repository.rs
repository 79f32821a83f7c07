use kukuri_client::models::post::Post;
use kukuri_client::models::settings::Settings;
use kukuri_client::models::user::User;
use kukuri_client::storage::error::StorageError;
use kukuri_client::storage::listing::paginate;
use kukuri_client::storage::replica::{EntryInfo, Replica};
use kukuri_client::storage::repository::post_repository::{
    delete_post, get_post, list_posts, list_user_posts, post_from_record, post_key,
    posts_from_scan, save_post, search_posts, validate_query,
};
use kukuri_client::storage::repository::records::{
    content_to_read, fetch_record, live_contents, put_record, resolve, scan_records, Hydrated,
};
use kukuri_client::storage::repository::settings_repository::{
    delete_settings, get_settings, save_settings, settings_key,
};
use kukuri_client::storage::repository::user_repository::{
    delete_user, get_user, list_users, save_user, user_profile_key,
};

const ME: &str = "author-1";

fn user(id: &str, created_at: i64) -> User {
    User {
        id: id.to_string(),
        display_name: format!("user {}", id),
        bio: String::new(),
        public_key: "pk".to_string(),
        avatar: None,
        following: vec![],
        followers: vec![],
        created_at,
    }
}

fn post(id: &str, author_id: &str, content: &str, created_at: i64) -> Post {
    Post {
        id: id.to_string(),
        author_id: author_id.to_string(),
        content: content.to_string(),
        attachments: vec![],
        mentions: vec![],
        hashtags: vec![],
        created_at,
    }
}

fn ids(posts: &Vec<Post>) -> Vec<String> {
    posts.iter().map(|p| p.id.clone()).collect()
}

#[test]
fn users_and_posts_scenario() {
    let mut users = Replica::new();
    let mut posts = Replica::new();
    save_user(&mut users, ME, &user("A", 1)).unwrap();
    save_user(&mut users, ME, &user("B", 2)).unwrap();
    let one = post("one", "A", "content of one", 5);
    let two = post("two", "B", "content of two", 6);
    let three = post("three", "A", "content of three", 7);
    save_post(&mut posts, ME, &one).unwrap();
    save_post(&mut posts, ME, &two).unwrap();
    save_post(&mut posts, ME, &three).unwrap();

    assert_eq!(
        list_user_posts(&posts, "A"),
        Ok(vec![post("three", "A", "content of three", 7), post("one", "A", "content of one", 5)])
    );
    assert_eq!(
        search_posts(&posts, "content of two", 10),
        Ok(vec![post("two", "B", "content of two", 6)])
    );
    delete_post(&mut posts, ME, "one").unwrap();
    assert_eq!(
        list_posts(&posts),
        Ok(vec![post("three", "A", "content of three", 7), post("two", "B", "content of two", 6)])
    );
    assert_eq!(ids(&list_users(&users).unwrap().iter().map(|u| post(&u.id, "", "", 0)).collect()), vec!["B", "A"]);
}

#[test]
fn what_was_saved_is_what_is_got() {
    let mut replica = Replica::new();
    let p = Post {
        id: "p".to_string(),
        author_id: "a".to_string(),
        content: "multi\nline \u{1F600} \"quoted\" \\ text".to_string(),
        attachments: vec!["x".to_string(), "y".to_string()],
        mentions: vec!["m".to_string()],
        hashtags: vec![],
        created_at: 42,
    };
    save_post(&mut replica, ME, &p).unwrap();
    assert_eq!(get_post(&replica, "p").unwrap().as_ref(), Some(&p));
    let mut u = user("u", 9);
    u.avatar = Some("pic".to_string());
    u.following = vec!["v".to_string()];
    save_user(&mut replica, ME, &u).unwrap();
    assert_eq!(get_user(&replica, "u").unwrap().as_ref(), Some(&u));
    assert_eq!(get_post(&replica, "u"), Ok(None));
    assert_eq!(get_user(&replica, "p"), Ok(None));
}

#[test]
fn what_was_deleted_is_gone() {
    let mut replica = Replica::new();
    save_post(&mut replica, ME, &post("p", "a", "c", 1)).unwrap();
    save_post(&mut replica, ME, &post("q", "a", "c", 2)).unwrap();
    delete_post(&mut replica, ME, "p").unwrap();
    assert_eq!(get_post(&replica, "p"), Ok(None));
    assert_eq!(ids(&list_posts(&replica).unwrap()), vec!["q"]);
    delete_post(&mut replica, ME, "p").unwrap();
    assert_eq!(get_post(&replica, "p"), Ok(None));
    delete_post(&mut replica, ME, "never-there").unwrap();
    assert_eq!(get_post(&replica, "never-there"), Ok(None));
    assert_eq!(ids(&list_posts(&replica).unwrap()), vec!["q"]);
    assert_eq!(replica.len(), 3);
    save_user(&mut replica, ME, &user("u", 1)).unwrap();
    delete_user(&mut replica, ME, "u").unwrap();
    assert_eq!(get_user(&replica, "u"), Ok(None));
    assert_eq!(list_users(&replica), Ok(vec![]));
}

#[test]
fn a_deleted_post_can_be_saved_again() {
    let mut replica = Replica::new();
    save_post(&mut replica, ME, &post("p", "a", "first", 1)).unwrap();
    delete_post(&mut replica, ME, "p").unwrap();
    save_post(&mut replica, ME, &post("p", "a", "second", 2)).unwrap();
    assert_eq!(get_post(&replica, "p"), Ok(Some(post("p", "a", "second", 2))));
    assert_eq!(replica.len(), 1);
}

#[test]
fn the_last_save_wins() {
    let mut replica = Replica::new();
    save_post(&mut replica, ME, &post("p", "a", "first", 1)).unwrap();
    save_post(&mut replica, "author-2", &post("p", "b", "second", 2)).unwrap();
    assert_eq!(get_post(&replica, "p"), Ok(Some(post("p", "b", "second", 2))));
    assert_eq!(ids(&list_posts(&replica).unwrap()), vec!["p"]);
    let entry = replica.query_latest_exact(&post_key("p")).unwrap();
    assert_eq!(entry.author, "author-2");
    assert_eq!(entry.timestamp, 1);
}

#[test]
fn a_listing_is_newest_first_whatever_the_order_of_writes() {
    let times = [5i64, -3, 9, 0, 7, 9, i64::MIN, i64::MAX];
    let mut forward = Replica::new();
    for (i, t) in times.iter().enumerate() {
        save_post(&mut forward, ME, &post(&format!("n{}", i), "a", "c", *t)).unwrap();
    }
    let mut backward = Replica::new();
    for (i, t) in times.iter().enumerate().rev() {
        save_post(&mut backward, ME, &post(&format!("n{}", i), "a", "c", *t)).unwrap();
    }
    let listed = list_posts(&forward).unwrap();
    let listed_times: Vec<i64> = listed.iter().map(|p| p.created_at).collect();
    assert_eq!(listed_times, vec![i64::MAX, 9, 9, 7, 5, 0, -3, i64::MIN]);
    assert_eq!(ids(&listed), vec!["n7", "n2", "n5", "n4", "n0", "n3", "n1", "n6"]);
    let other = list_posts(&backward).unwrap();
    let other_times: Vec<i64> = other.iter().map(|p| p.created_at).collect();
    assert_eq!(other_times, listed_times);
    assert_eq!(ids(&other), vec!["n7", "n5", "n2", "n4", "n0", "n3", "n1", "n6"]);
}

#[test]
fn a_search_without_a_query_is_a_validation_error() {
    let mut replica = Replica::new();
    assert_eq!(
        search_posts(&replica, "", 10),
        Err(StorageError::Validation("Search query cannot be empty".to_string()))
    );
    save_post(&mut replica, ME, &post("p", "a", "c", 1)).unwrap();
    assert_eq!(
        search_posts(&replica, "", 0),
        Err(StorageError::Validation("Search query cannot be empty".to_string()))
    );
    assert_eq!(
        search_posts(&replica, " \t\n", 10),
        Err(StorageError::Validation("Search query cannot be empty".to_string()))
    );
    assert_eq!(search_posts(&replica, "nothing like it", 10), Ok(vec![]));
    assert_eq!(validate_query("x"), Ok(()));
    assert_eq!(
        validate_query("\u{a0}"),
        Err(StorageError::Validation("Search query cannot be empty".to_string()))
    );
}

#[test]
fn a_search_ignores_case_and_stops_at_the_limit() {
    let mut replica = Replica::new();
    save_post(&mut replica, ME, &post("a", "u", "Grüße aus KÖLN", 1)).unwrap();
    save_post(&mut replica, ME, &post("b", "u", "köln again", 5)).unwrap();
    save_post(&mut replica, ME, &post("c", "u", "bonn", 3)).unwrap();
    save_post(&mut replica, ME, &post("d", "u", "Köln!", 9)).unwrap();
    assert_eq!(ids(&search_posts(&replica, "köln", 10).unwrap()), vec!["d", "b", "a"]);
    assert_eq!(ids(&search_posts(&replica, "KÖLN", 10).unwrap()), vec!["d", "b", "a"]);
    assert_eq!(ids(&search_posts(&replica, "köln", 2).unwrap()), vec!["b", "a"]);
    assert_eq!(ids(&search_posts(&replica, "köln", 1).unwrap()), vec!["a"]);
    assert_eq!(ids(&search_posts(&replica, "köln", 0).unwrap()), Vec::<String>::new());
}

#[test]
fn a_page_beyond_the_end_is_empty() {
    let mut replica = Replica::new();
    for i in 0..3 {
        save_post(&mut replica, ME, &post(&format!("n{}", i), "a", "c", i)).unwrap();
    }
    let all = list_posts(&replica).unwrap();
    assert_eq!(ids(&paginate(all, 10, 3)), Vec::<String>::new());
    let all = list_posts(&replica).unwrap();
    assert_eq!(ids(&paginate(all, 10, usize::MAX)), Vec::<String>::new());
    let all = list_posts(&replica).unwrap();
    assert_eq!(ids(&paginate(all, 1, 2)), vec!["n0"]);
    let all = list_posts(&replica).unwrap();
    assert_eq!(ids(&paginate(all, usize::MAX, 1)), vec!["n1", "n0"]);
    assert_eq!(paginate(Vec::<Post>::new(), 5, 0), vec![]);
    let found = search_posts(&replica, "c", 10).unwrap();
    assert_eq!(paginate(found, 5, 3), vec![]);
}

#[test]
fn an_entry_without_content_is_content_missing_and_not_absent() {
    let mut replica = Replica::new();
    let hash = vec![0xabu8; 32];
    replica.insert_remote(EntryInfo {
        key: post_key("remote"),
        author: "peer".to_string(),
        content_hash: hash,
        content_len: 17,
        timestamp: 3,
    });
    let expected = format!("content of post remote (hash: {})", "ab".repeat(32));
    assert_eq!(get_post(&replica, "remote"), Err(StorageError::ContentMissing(expected)));
    assert_eq!(list_posts(&replica), Ok(vec![]));
    assert_eq!(fetch_record(&replica, &post_key("remote")), Err(vec![0xabu8; 32]));
}

#[test]
fn content_that_arrives_later_is_found() {
    let mut origin = Replica::new();
    let p = post("p", "a", "c", 1);
    save_post(&mut origin, ME, &p).unwrap();
    let entry = origin.query_latest_exact(&post_key("p")).unwrap();
    let content = origin.read(&entry.content_hash).unwrap();
    assert_eq!(entry.content_len, content.len() as u64);
    assert_eq!(entry.content_hash, blake3::hash(&content).as_bytes().to_vec());

    let mut replica = Replica::new();
    replica.insert_remote(entry);
    assert!(matches!(get_post(&replica, "p"), Err(StorageError::ContentMissing(_))));
    let hash = replica.store_content(&content);
    assert_eq!(hash, blake3::hash(&content).as_bytes().to_vec());
    assert_eq!(get_post(&replica, "p"), Ok(Some(p)));
}

#[test]
fn a_remote_tombstone_is_absent_without_asking_for_content() {
    let mut replica = Replica::new();
    save_post(&mut replica, ME, &post("p", "a", "c", 1)).unwrap();
    replica.insert_remote(EntryInfo {
        key: post_key("p"),
        author: "peer".to_string(),
        content_hash: vec![9u8; 32],
        content_len: 0,
        timestamp: 8,
    });
    assert_eq!(get_post(&replica, "p"), Ok(None));
    assert_eq!(list_posts(&replica), Ok(vec![]));
    assert_eq!(content_to_read(&replica.query_latest_exact(&post_key("p"))), None);
}

#[test]
fn a_record_that_does_not_read_is_an_error_of_its_own_and_skipped_in_listings() {
    let mut replica = Replica::new();
    save_post(&mut replica, ME, &post("good", "a", "c", 1)).unwrap();
    put_record(&mut replica, ME, &post_key("bad"), b"{\"id\":1}");
    put_record(&mut replica, ME, &post_key("worse"), b"\xff\xfe");
    assert!(matches!(get_post(&replica, "bad"), Err(StorageError::Serialization(_))));
    assert!(matches!(get_post(&replica, "worse"), Err(StorageError::Serialization(_))));
    assert_eq!(ids(&list_posts(&replica).unwrap()), vec!["good"]);
    assert_eq!(ids(&search_posts(&replica, "c", 10).unwrap()), vec!["good"]);
}

#[test]
fn keys_begin_with_the_prefix_of_the_collection() {
    assert_eq!(post_key("abc"), b"post:abc".to_vec());
    assert_eq!(post_key(""), b"post:".to_vec());
    assert_eq!(post_key("ü"), "post:ü".as_bytes().to_vec());
    assert_eq!(user_profile_key("u-1"), b"user_profile:u-1".to_vec());
    assert_eq!(settings_key(Some("u-1")), b"settings:u-1".to_vec());
    assert_eq!(settings_key(None), b"settings:global".to_vec());
}

#[test]
fn collections_in_one_namespace_do_not_mix() {
    let mut replica = Replica::new();
    save_user(&mut replica, ME, &user("x", 1)).unwrap();
    save_post(&mut replica, ME, &post("x", "a", "c", 2)).unwrap();
    save_settings(&mut replica, ME, &Settings::default()).unwrap();
    assert_eq!(ids(&list_posts(&replica).unwrap()), vec!["x"]);
    assert_eq!(list_users(&replica).unwrap().len(), 1);
    assert_eq!(scan_records(&replica, b"").len(), 3);
    assert_eq!(scan_records(&replica, b"post:").len(), 1);
    assert_eq!(scan_records(&replica, b"posts").len(), 0);
    delete_user(&mut replica, ME, "x").unwrap();
    assert_eq!(ids(&list_posts(&replica).unwrap()), vec!["x"]);
}

#[test]
fn settings_are_kept_for_each_user_and_globally() {
    let mut replica = Replica::new();
    let mut global = Settings::default();
    global.theme = "dark".to_string();
    let mut mine = Settings::default();
    mine.user_id = Some("u".to_string());
    mine.language = "en".to_string();
    save_settings(&mut replica, ME, &global).unwrap();
    save_settings(&mut replica, ME, &mine).unwrap();
    assert!(get_settings(&replica, None).unwrap() == Some(global));
    assert!(get_settings(&replica, Some("u")).unwrap() == Some(mine));
    assert!(get_settings(&replica, Some("v")).unwrap() == None);
    delete_settings(&mut replica, ME, Some("u")).unwrap();
    assert!(get_settings(&replica, Some("u")).unwrap() == None);
    assert!(get_settings(&replica, None).unwrap().is_some());
    delete_settings(&mut replica, ME, None).unwrap();
    assert!(get_settings(&replica, None).unwrap() == None);
}

#[test]
fn the_decisions_serve_a_store_that_is_asked_elsewhere() {
    let entry = EntryInfo {
        key: post_key("p"),
        author: "a".to_string(),
        content_hash: vec![1u8; 32],
        content_len: 3,
        timestamp: 0,
    };
    assert_eq!(content_to_read(&None), None);
    assert_eq!(content_to_read(&Some(entry.clone())), Some(vec![1u8; 32]));
    assert_eq!(resolve(&None, None), Ok(None));
    assert_eq!(resolve(&None, Some(b"ignored".to_vec())), Ok(None));
    assert_eq!(resolve(&Some(entry.clone()), None), Err(vec![1u8; 32]));
    assert_eq!(resolve(&Some(entry.clone()), Some(b"abc".to_vec())), Ok(Some(b"abc".to_vec())));
    assert_eq!(post_from_record("p", Ok(None)), Ok(None));
    let good = post("p", "a", "c", 1);
    assert_eq!(post_from_record("p", Ok(Some(good.encode().unwrap()))), Ok(Some(good)));
    assert!(matches!(
        post_from_record("p", Ok(Some(b"x".to_vec()))),
        Err(StorageError::Serialization(_))
    ));
    assert_eq!(
        post_from_record("p", Err(vec![0x01, 0xf0])),
        Err(StorageError::ContentMissing("content of post p (hash: 01f0)".to_string()))
    );

    let tombstone = EntryInfo { content_len: 0, ..entry.clone() };
    let scan = vec![
        Hydrated { entry: entry.clone(), content: Some(post("x", "a", "c", 1).encode().unwrap()) },
        Hydrated { entry: tombstone, content: Some(b"never looked at".to_vec()) },
        Hydrated { entry: entry.clone(), content: None },
        Hydrated { entry: entry.clone(), content: Some(b"junk".to_vec()) },
        Hydrated { entry, content: Some(post("y", "a", "c", 2).encode().unwrap()) },
    ];
    let contents = live_contents(scan);
    assert_eq!(contents.len(), 3);
    assert_eq!(ids(&posts_from_scan(&contents)), vec!["y", "x"]);
}

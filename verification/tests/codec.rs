use kukuri_client::models::post::{decode_posts, Post};
use kukuri_client::models::settings::Settings;
use kukuri_client::models::user::{decode_users, User};
use kukuri_client::storage::error::StorageError;

fn sample_post() -> Post {
    Post {
        id: "n1".to_string(),
        author_id: "alice".to_string(),
        content: "hello \"world\"\n".to_string(),
        attachments: vec!["a.png".to_string()],
        mentions: vec![],
        hashtags: vec!["rust".to_string(), "mesh".to_string()],
        created_at: -5,
    }
}

fn sample_user() -> User {
    User {
        id: "u1".to_string(),
        display_name: "Alice".to_string(),
        bio: "bio".to_string(),
        public_key: "key".to_string(),
        avatar: Some("avatar.png".to_string()),
        following: vec!["u2".to_string()],
        followers: vec![],
        created_at: 1700000000,
    }
}

#[test]
fn a_post_is_written_as_one_json_object() {
    let bytes = sample_post().encode().unwrap();
    assert_eq!(
        String::from_utf8(bytes).unwrap(),
        "{\"attachments\":[\"a.png\"],\"author_id\":\"alice\",\"content\":\"hello \\\"world\\\"\\n\",\"created_at\":-5,\"hashtags\":[\"rust\",\"mesh\"],\"id\":\"n1\",\"mentions\":[]}"
    );
}

#[test]
fn a_user_is_written_as_one_json_object() {
    let bytes = sample_user().encode().unwrap();
    assert_eq!(
        String::from_utf8(bytes).unwrap(),
        "{\"avatar\":\"avatar.png\",\"bio\":\"bio\",\"created_at\":1700000000,\"display_name\":\"Alice\",\"followers\":[],\"following\":[\"u2\"],\"id\":\"u1\",\"public_key\":\"key\"}"
    );
}

#[test]
fn settings_are_written_as_one_json_object() {
    let bytes = Settings::default().encode().unwrap();
    assert_eq!(
        String::from_utf8(bytes).unwrap(),
        "{\"autostart\":false,\"language\":\"ja\",\"notifications\":true,\"selected_relays\":[],\"theme\":\"system\",\"user_id\":null}"
    );
}

#[test]
fn what_is_written_reads_back() {
    let post = sample_post();
    assert_eq!(Post::decode(&post.encode().unwrap()), Ok(sample_post()));
    let user = sample_user();
    assert_eq!(User::decode(&user.encode().unwrap()), Ok(sample_user()));
    let mut settings = Settings::default();
    settings.user_id = Some("u1".to_string());
    settings.selected_relays = vec!["r1".to_string(), "r2".to_string()];
    settings.autostart = true;
    settings.notifications = false;
    let read = Settings::decode(&settings.encode().unwrap()).unwrap();
    assert!(read == settings);
}

#[test]
fn a_value_reads_back_from_its_json_value() {
    assert_eq!(Post::from_value(&sample_post().to_value()), Some(sample_post()));
    assert_eq!(User::from_value(&sample_user().to_value()), Some(sample_user()));
    let s = Settings::default();
    assert!(Settings::from_value(&s.to_value()) == Some(Settings::default()));
}

#[test]
fn a_json_value_holds_the_fields() {
    let v = sample_post().to_value();
    assert_eq!(v.get("id").and_then(|x| x.as_str()), Some("n1"));
    assert_eq!(v.get("created_at").and_then(|x| x.as_i64()), Some(-5));
    assert_eq!(v.get("hashtags").and_then(|x| x.as_array()).map(|a| a.len()), Some(2));
    assert_eq!(v.as_object().map(|o| o.len()), Some(7));
    let u = sample_user().to_value();
    assert_eq!(u.get("avatar").and_then(|x| x.as_str()), Some("avatar.png"));
    let mut without = sample_user();
    without.avatar = None;
    assert_eq!(without.to_value().get("avatar").map(|x| x.is_null()), Some(true));
}

#[test]
fn unknown_members_are_passed_over() {
    let text = "{\"id\":\"p\",\"author_id\":\"a\",\"content\":\"c\",\"attachments\":[],\"mentions\":[],\"hashtags\":[],\"created_at\":7,\"extra\":{\"x\":1}}";
    let post = Post::decode(text.as_bytes()).unwrap();
    assert_eq!(post.id, "p");
    assert_eq!(post.created_at, 7);
}

#[test]
fn an_avatar_may_be_missing_or_null() {
    let missing = "{\"id\":\"u\",\"display_name\":\"n\",\"bio\":\"\",\"public_key\":\"k\",\"following\":[],\"followers\":[],\"created_at\":1}";
    assert_eq!(User::decode(missing.as_bytes()).unwrap().avatar, None);
    let null = "{\"id\":\"u\",\"display_name\":\"n\",\"bio\":\"\",\"public_key\":\"k\",\"avatar\":null,\"following\":[],\"followers\":[],\"created_at\":1}";
    assert_eq!(User::decode(null.as_bytes()).unwrap().avatar, None);
    let number = "{\"id\":\"u\",\"display_name\":\"n\",\"bio\":\"\",\"public_key\":\"k\",\"avatar\":3,\"following\":[],\"followers\":[],\"created_at\":1}";
    assert!(matches!(User::decode(number.as_bytes()), Err(StorageError::Serialization(_))));
}

#[test]
fn bytes_that_are_no_json_are_a_serialization_error() {
    assert!(matches!(Post::decode(b"not json"), Err(StorageError::Serialization(_))));
    assert!(matches!(Post::decode(b""), Err(StorageError::Serialization(_))));
    assert!(matches!(User::decode(b"{"), Err(StorageError::Serialization(_))));
    assert!(matches!(Settings::decode(b"[1,2"), Err(StorageError::Serialization(_))));
}

#[test]
fn a_document_of_another_shape_is_a_serialization_error() {
    let no_id = "{\"author_id\":\"a\",\"content\":\"c\",\"attachments\":[],\"mentions\":[],\"hashtags\":[],\"created_at\":7}";
    assert_eq!(
        Post::decode(no_id.as_bytes()),
        Err(StorageError::Serialization("missing or invalid field in post".to_string()))
    );
    let text_time = "{\"id\":\"p\",\"author_id\":\"a\",\"content\":\"c\",\"attachments\":[],\"mentions\":[],\"hashtags\":[],\"created_at\":\"7\"}";
    assert!(matches!(Post::decode(text_time.as_bytes()), Err(StorageError::Serialization(_))));
    let fraction = "{\"id\":\"p\",\"author_id\":\"a\",\"content\":\"c\",\"attachments\":[],\"mentions\":[],\"hashtags\":[],\"created_at\":7.5}";
    assert!(matches!(Post::decode(fraction.as_bytes()), Err(StorageError::Serialization(_))));
    let too_large = "{\"id\":\"p\",\"author_id\":\"a\",\"content\":\"c\",\"attachments\":[],\"mentions\":[],\"hashtags\":[],\"created_at\":9223372036854775808}";
    assert!(matches!(Post::decode(too_large.as_bytes()), Err(StorageError::Serialization(_))));
    let mixed = "{\"id\":\"p\",\"author_id\":\"a\",\"content\":\"c\",\"attachments\":[\"x\",1],\"mentions\":[],\"hashtags\":[],\"created_at\":7}";
    assert!(matches!(Post::decode(mixed.as_bytes()), Err(StorageError::Serialization(_))));
    assert!(matches!(Post::decode(b"[]"), Err(StorageError::Serialization(_))));
    assert!(matches!(Post::decode(b"null"), Err(StorageError::Serialization(_))));
    assert_eq!(
        User::decode(b"{}"),
        Err(StorageError::Serialization("missing or invalid field in user".to_string()))
    );
    assert!(matches!(Settings::decode(b"{}"), Err(StorageError::Serialization(_))));
    let flag = "{\"user_id\":null,\"selected_relays\":[],\"theme\":\"t\",\"language\":\"l\",\"autostart\":0,\"notifications\":true}";
    assert!(matches!(Settings::decode(flag.as_bytes()), Err(StorageError::Serialization(_))));
}

#[test]
fn the_largest_and_smallest_times_read_back() {
    let mut post = sample_post();
    post.created_at = i64::MAX;
    assert_eq!(Post::decode(&post.encode().unwrap()).unwrap().created_at, i64::MAX);
    post.created_at = i64::MIN;
    assert_eq!(Post::decode(&post.encode().unwrap()).unwrap().created_at, i64::MIN);
}

#[test]
fn contents_that_do_not_read_are_skipped() {
    let good = sample_post().encode().unwrap();
    let contents = vec![b"junk".to_vec(), good.clone(), Vec::new(), good];
    let posts = decode_posts(&contents);
    assert_eq!(posts, vec![sample_post(), sample_post()]);
    let users = decode_users(&vec![sample_user().encode().unwrap(), b"{}".to_vec()]);
    assert_eq!(users, vec![sample_user()]);
}

#[test]
fn error_messages_name_the_kind() {
    assert_eq!(StorageError::Docs("x".to_string()).message(), "Iroh Docs operation failed: x");
    assert_eq!(
        StorageError::IrohInitialization("x".to_string()).message(),
        "Iroh initialization failed: x"
    );
    assert_eq!(StorageError::Blobs("x".to_string()).message(), "Iroh Blobs operation failed: x");
    assert_eq!(StorageError::Gossip("x".to_string()).message(), "Iroh Gossip operation failed");
    assert_eq!(StorageError::Serialization("x".to_string()).message(), "Serialization failed: x");
    assert_eq!(StorageError::NotFound("k".to_string()).message(), "Data not found for key: k");
    assert_eq!(
        StorageError::ContentMissing("c".to_string()).message(),
        "Content is not at hand: c"
    );
    assert_eq!(StorageError::InvalidKey("k".to_string()).message(), "Invalid key format: k");
    assert_eq!(StorageError::Io("x".to_string()).message(), "Filesystem operation failed: x");
    assert_eq!(StorageError::Validation("x".to_string()).message(), "Data validation failed: x");
    assert_eq!(StorageError::Timeout.message(), "Operation timed out");
    assert_eq!(StorageError::Internal("x".to_string()).message(), "Internal storage error: x");
}

#[test]
fn records_survive_their_encoding() {
    assert!(sample_post().survives());
    assert!(sample_user().survives());
    assert!(Settings::default().survives());
    let mut odd = sample_post();
    odd.content = "\u{0}\u{1f}\u{7f}\u{2028}\u{10ffff} \\u0041 </script>".to_string();
    odd.id = String::new();
    assert!(odd.survives());
    assert!(sample_post().same(&sample_post()));
    assert!(!sample_post().same(&odd));
    let mut other = sample_user();
    other.avatar = None;
    assert!(other.survives());
    assert!(!other.same(&sample_user()));
    assert!(sample_user().same(&sample_user()));
}

use kukuri_client::models::post::Post;
use kukuri_client::storage::listing::{
    keep_by_author, keep_first, keep_mentioning, paginate, reversed, sort_newest_first,
};
use kukuri_client::storage::text::{
    blank, bytes_start_with, decimal, find_text, hex, join, joined_bytes, mentions_text,
    same_bytes,
};

fn post(id: &str, author_id: &str, content: &str, created_at: i64) -> Post {
    Post {
        id: id.to_string(),
        author_id: author_id.to_string(),
        content: content.to_string(),
        attachments: vec![],
        mentions: vec![],
        hashtags: vec![],
        created_at,
    }
}

fn ids(posts: &Vec<Post>) -> Vec<String> {
    posts.iter().map(|p| p.id.clone()).collect()
}

#[test]
fn sorting_is_newest_first_and_keeps_ties_in_order() {
    let posts = vec![
        post("a", "u", "", 2),
        post("b", "u", "", 5),
        post("c", "u", "", 2),
        post("d", "u", "", 9),
        post("e", "u", "", 5),
        post("f", "u", "", 2),
    ];
    assert_eq!(ids(&sort_newest_first(posts)), vec!["d", "b", "e", "a", "c", "f"]);
    assert_eq!(sort_newest_first(Vec::<Post>::new()), vec![]);
    assert_eq!(ids(&sort_newest_first(vec![post("x", "u", "", 0)])), vec!["x"]);
}

#[test]
fn pages() {
    let numbers = || vec![10, 20, 30, 40, 50];
    assert_eq!(paginate(numbers(), 2, 0), vec![10, 20]);
    assert_eq!(paginate(numbers(), 2, 4), vec![50]);
    assert_eq!(paginate(numbers(), 2, 5), Vec::<i32>::new());
    assert_eq!(paginate(numbers(), 2, 6), Vec::<i32>::new());
    assert_eq!(paginate(numbers(), 0, 2), Vec::<i32>::new());
    assert_eq!(paginate(numbers(), 5, 0), numbers());
    assert_eq!(paginate(numbers(), usize::MAX, usize::MAX), Vec::<i32>::new());
    assert_eq!(paginate(numbers(), usize::MAX, 3), vec![40, 50]);
    assert_eq!(keep_first(numbers(), 3), vec![10, 20, 30]);
    assert_eq!(keep_first(numbers(), 0), Vec::<i32>::new());
    assert_eq!(keep_first(numbers(), 9), numbers());
    assert_eq!(reversed(numbers()), vec![50, 40, 30, 20, 10]);
}

#[test]
fn filters_keep_the_order() {
    let posts = || {
        vec![
            post("a", "u", "Tea time", 1),
            post("b", "v", "coffee", 2),
            post("c", "u", "more TEA", 3),
            post("d", "", "", 4),
        ]
    };
    assert_eq!(ids(&keep_by_author(posts(), "u")), vec!["a", "c"]);
    assert_eq!(ids(&keep_by_author(posts(), "")), vec!["d"]);
    assert_eq!(ids(&keep_by_author(posts(), "w")), Vec::<String>::new());
    assert_eq!(ids(&keep_mentioning(posts(), "tea")), vec!["a", "c"]);
    assert_eq!(ids(&keep_mentioning(posts(), "TEA T")), vec!["a"]);
    assert_eq!(ids(&keep_mentioning(posts(), "")), vec!["a", "b", "c", "d"]);
}

#[test]
fn texts() {
    assert!(blank(""));
    assert!(blank(" \t\r\n\u{3000}"));
    assert!(!blank(" x "));
    assert!(mentions_text("Hello World", "WORLD"));
    assert!(mentions_text("Hello World", "o w"));
    assert!(!mentions_text("Hello World", "worlds"));
    assert!(mentions_text("anything", ""));
    assert!(mentions_text("ΑΒΓ", "βγ"));
    assert_eq!(join("ab", "cd"), "abcd");
    assert_eq!(join("", ""), "");
    let items = vec!["a".to_string(), "b".to_string(), "a".to_string()];
    assert_eq!(find_text(&items, "a"), 0);
    assert_eq!(find_text(&items, "b"), 1);
    assert_eq!(find_text(&items, "c"), 3);
}

#[test]
fn bytes() {
    assert!(same_bytes(b"abc", b"abc"));
    assert!(!same_bytes(b"abc", b"abd"));
    assert!(!same_bytes(b"abc", b"ab"));
    assert!(same_bytes(b"", b""));
    assert!(bytes_start_with(b"post:1", b"post:"));
    assert!(bytes_start_with(b"post:1", b""));
    assert!(bytes_start_with(b"post:", b"post:"));
    assert!(!bytes_start_with(b"post", b"post:"));
    assert!(!bytes_start_with(b"pest:1", b"post:"));
    assert_eq!(joined_bytes(b"ab", b"cd"), b"abcd".to_vec());
    assert_eq!(joined_bytes(b"", b""), Vec::<u8>::new());
    assert_eq!(hex(&[]), "");
    assert_eq!(hex(&[0x00, 0x0f, 0xa0, 0xff, 0x9c]), "000fa0ff9c");
}

#[test]
fn numbers_in_decimal() {
    assert_eq!(decimal(0), "0");
    assert_eq!(decimal(7), "7");
    assert_eq!(decimal(10), "10");
    assert_eq!(decimal(1905), "1905");
    assert_eq!(decimal(u64::MAX), "18446744073709551615");
}

use kukuri_client::models::post::Post;
use kukuri_client::storage::error::StorageError;
use kukuri_client::storage::replica::Replica;
use kukuri_client::storage::repository::post_repository::{get_post, post_key, save_post};
use kukuri_client::storage::retry::{
    get_default_author_with_retry, AuthorRetry, AuthorStep, RetryPolicy,
};

#[test]
fn two_transient_failures_then_success() {
    let mut retry = AuthorRetry::new(RetryPolicy::production());
    let first = get_default_author_with_retry(&mut retry, Err("not ready".to_string()));
    assert_eq!(first, AuthorStep::RetryAfter { millis: 100 });
    let second = get_default_author_with_retry(&mut retry, Err("not ready".to_string()));
    assert_eq!(second, AuthorStep::RetryAfter { millis: 200 });
    let third = get_default_author_with_retry(&mut retry, Ok("author-1".to_string()));
    assert_eq!(third, AuthorStep::Resolved("author-1".to_string()));
    assert_eq!(retry.failures(), 2);
    assert_eq!(retry.waited_ms(), 300);

    // With the identity resolved, the save goes through.
    let author = match third {
        AuthorStep::Resolved(author) => author,
        other => panic!("unexpected step {:?}", other),
    };
    let mut replica = Replica::new();
    let post = Post {
        id: "post".to_string(),
        author_id: "alice".to_string(),
        content: "hello".to_string(),
        attachments: vec![],
        mentions: vec![],
        hashtags: vec![],
        created_at: 1,
    };
    assert_eq!(save_post(&mut replica, &author, &post), Ok(()));
    assert_eq!(get_post(&replica, "post"), Ok(Some(post)));
    assert_eq!(replica.query_latest_exact(&post_key("post")).unwrap().author, "author-1");
}

#[test]
fn the_third_failure_in_production_gives_up() {
    let mut retry = AuthorRetry::new(RetryPolicy::production());
    get_default_author_with_retry(&mut retry, Err("a".to_string()));
    get_default_author_with_retry(&mut retry, Err("b".to_string()));
    let last = get_default_author_with_retry(&mut retry, Err("still down".to_string()));
    assert_eq!(
        last,
        AuthorStep::Failed(StorageError::Internal(
            "Failed to get default author after 3 attempts: still down".to_string()
        ))
    );
    assert_eq!(retry.failures(), 3);
    assert_eq!(retry.waited_ms(), 300);
    let again = get_default_author_with_retry(&mut retry, Err("x".to_string()));
    assert_eq!(
        again,
        AuthorStep::Failed(StorageError::Internal(
            "Failed to get default author after 4 attempts: x".to_string()
        ))
    );
    assert_eq!(retry.waited_ms(), 300);
}

#[test]
fn a_success_at_once_waits_for_nothing() {
    let mut retry = AuthorRetry::new(RetryPolicy::production());
    let step = get_default_author_with_retry(&mut retry, Ok("me".to_string()));
    assert_eq!(step, AuthorStep::Resolved("me".to_string()));
    assert_eq!(retry.failures(), 0);
    assert_eq!(retry.waited_ms(), 0);
}

#[test]
fn the_schedule_doubles_up_to_the_cap() {
    let policy = RetryPolicy::testing();
    let delays: Vec<u64> = (1..=10).map(|a| policy.backoff_delay(a)).collect();
    assert_eq!(delays, vec![100, 200, 400, 800, 1000, 1000, 1000, 1000, 1000, 1000]);
    assert_eq!(policy.backoff_delay(0), 100);
    assert_eq!(policy.backoff_delay(65), 1000);
    assert_eq!(policy.backoff_delay(u32::MAX), 1000);

    let mut retry = AuthorRetry::new(policy);
    let mut total = 0;
    for attempt in 1..=9u32 {
        match get_default_author_with_retry(&mut retry, Err("e".to_string())) {
            AuthorStep::RetryAfter { millis } => {
                assert_eq!(millis, policy.backoff_delay(attempt));
                total += millis;
            }
            other => panic!("unexpected step {:?}", other),
        }
    }
    assert_eq!(total, 100 + 200 + 400 + 800 + 5 * 1000);
    assert_eq!(retry.waited_ms(), total);
    assert!(matches!(
        get_default_author_with_retry(&mut retry, Err("e".to_string())),
        AuthorStep::Failed(StorageError::Internal(_))
    ));
}

#[test]
fn policies() {
    assert_eq!(
        RetryPolicy::production(),
        RetryPolicy { max_attempts: 3, base_delay_ms: 100, max_delay_ms: 1000 }
    );
    assert_eq!(
        RetryPolicy::testing(),
        RetryPolicy { max_attempts: 10, base_delay_ms: 100, max_delay_ms: 1000 }
    );
}

#[test]
fn unusual_policies() {
    let none = RetryPolicy { max_attempts: 0, base_delay_ms: 100, max_delay_ms: 1000 };
    let mut retry = AuthorRetry::new(none);
    assert_eq!(
        get_default_author_with_retry(&mut retry, Err("e".to_string())),
        AuthorStep::Failed(StorageError::Internal(
            "Failed to get default author after 1 attempts: e".to_string()
        ))
    );
    let one = RetryPolicy { max_attempts: 1, base_delay_ms: 100, max_delay_ms: 1000 };
    let mut retry = AuthorRetry::new(one);
    assert!(matches!(
        get_default_author_with_retry(&mut retry, Err("e".to_string())),
        AuthorStep::Failed(_)
    ));

    let capped = RetryPolicy { max_attempts: 5, base_delay_ms: 5000, max_delay_ms: 1000 };
    assert_eq!(capped.backoff_delay(1), 1000);
    assert_eq!(capped.backoff_delay(3), 1000);
    let still = RetryPolicy { max_attempts: 5, base_delay_ms: 0, max_delay_ms: 1000 };
    assert_eq!(still.backoff_delay(1), 0);
    assert_eq!(still.backoff_delay(40), 0);
    let no_cap = RetryPolicy { max_attempts: 5, base_delay_ms: 0, max_delay_ms: 0 };
    assert_eq!(no_cap.backoff_delay(7), 0);
    let huge = RetryPolicy { max_attempts: 200, base_delay_ms: 3, max_delay_ms: u64::MAX };
    assert_eq!(huge.backoff_delay(1), 3);
    assert_eq!(huge.backoff_delay(2), 6);
    assert_eq!(huge.backoff_delay(63), 3 << 62);
    assert_eq!(huge.backoff_delay(64), u64::MAX);
    assert_eq!(huge.backoff_delay(100), u64::MAX);

    let mut retry = AuthorRetry::new(huge);
    for _ in 0..70 {
        get_default_author_with_retry(&mut retry, Err("e".to_string()));
    }
    assert_eq!(retry.waited_ms(), u64::MAX);
    assert_eq!(retry.failures(), 70);
}

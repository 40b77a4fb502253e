use hn_api_wasm::format::{format_item, format_list_item, format_user};
use hn_api_wasm::limits::{
    clamp_limit, DEFAULT_STORY_LIMIT, DEFAULT_SUBMITTED_LIMIT, HTTP_RETRY_ATTEMPTS,
    MAX_STORY_LIMIT, MAX_SUBMITTED_LIMIT,
};
use hn_api_wasm::model::{HnItem, HnUser};
use hn_api_wasm::retry::{Retry, RetryStep};
use hn_api_wasm::urls::build_url;

fn sample_item(item_type: &str) -> HnItem {
    HnItem {
        id: 42,
        item_type: item_type.to_string(),
        by: Some("alice".to_string()),
        time: Some(1_700_000_000),
        text: Some("hello".to_string()),
        deleted: Some(false),
        dead: Some(false),
        parent: Some(10),
        poll: Some(20),
        kids: Some(vec![1, 2, 3]),
        url: Some("https://example.com".to_string()),
        score: Some(99),
        title: Some("Sample".to_string()),
        parts: Some(vec![7, 8]),
        descendants: Some(12),
    }
}

/// Runs a request through the retry decisions, with `operation` making each
/// attempt.
fn run_retry<T>(
    description: &str,
    mut operation: impl FnMut() -> Result<T, String>,
) -> Result<T, String> {
    let mut retry = Retry::new(description);
    loop {
        match retry.record(operation()) {
            RetryStep::Succeeded(value) => return Ok(value),
            RetryStep::TryAgain => {}
            RetryStep::GaveUp(message) => return Err(message),
        }
    }
}

#[test]
fn builds_hn_urls() {
    assert_eq!(
        build_url("item/123"),
        "https://hacker-news.firebaseio.com/v0/item/123.json"
    );
}

#[test]
fn clamps_story_limits() {
    assert_eq!(clamp_limit(None, DEFAULT_STORY_LIMIT, MAX_STORY_LIMIT), 10);
    assert_eq!(
        clamp_limit(Some(0), DEFAULT_STORY_LIMIT, MAX_STORY_LIMIT),
        1
    );
    assert_eq!(
        clamp_limit(Some(99), DEFAULT_STORY_LIMIT, MAX_STORY_LIMIT),
        25
    );
}

#[test]
fn clamps_submitted_limits() {
    assert_eq!(
        clamp_limit(None, DEFAULT_SUBMITTED_LIMIT, MAX_SUBMITTED_LIMIT),
        20
    );
    assert_eq!(
        clamp_limit(Some(500), DEFAULT_SUBMITTED_LIMIT, MAX_SUBMITTED_LIMIT),
        50
    );
}

#[test]
fn retries_until_success() {
    let mut attempts = 0;

    let result: Result<u32, String> = run_retry("test request", || {
        attempts += 1;

        if attempts < 3 {
            Err("temporary failure".to_string())
        } else {
            Ok(42)
        }
    });

    assert_eq!(result.unwrap(), 42);
    assert_eq!(attempts, 3);
}

#[test]
fn returns_last_error_after_retry_exhaustion() {
    let mut attempts = 0;

    let err = run_retry::<()>("test request", || {
        attempts += 1;
        Err(format!("failure #{attempts}"))
    })
    .unwrap_err();

    assert_eq!(attempts, HTTP_RETRY_ATTEMPTS);
    assert_eq!(err, "test request failed after 3 attempts: failure #3");
}

#[test]
fn formats_story_summary_for_lists() {
    let summary = format_list_item(sample_item("story"));

    assert_eq!(summary.item_type, "story");
    assert_eq!(summary.comments, Some(12));
    assert_eq!(summary.score, Some(99));
}

#[test]
fn formats_item_variants() {
    for item_type in ["story", "comment", "job", "poll", "pollopt"] {
        let output = format_item(sample_item(item_type));
        assert_eq!(output.item_type, item_type);
        assert_eq!(output.kids_count, Some(3));
        assert_eq!(output.parts_count, Some(2));
    }
}

#[test]
fn formats_user_with_preview() {
    let user = HnUser {
        id: "pg".to_string(),
        created: 1173923446,
        karma: 1000,
        about: Some(String::new()),
        submitted: Some(vec![1, 2, 3, 4]),
    };

    let output = format_user(user, 2);
    assert_eq!(output.submitted_count, Some(4));
    assert_eq!(output.submitted_preview, vec![1, 2]);
    assert!(output.about.is_none());
}

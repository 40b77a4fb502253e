use hn_api_wasm::format::{format_item, format_list_item, format_updates, format_user};
use hn_api_wasm::limits::{clamp_limit, preview, take_first, PREVIEW_LIMIT};
use hn_api_wasm::model::{HnItem, HnUpdates, HnUser};
use hn_api_wasm::response::{check_status, parse_failure, status_failure};
use hn_api_wasm::retry::{Retry, RetryStep};
use hn_api_wasm::story_list::{StoryListFetch, StoryListStep};
use hn_api_wasm::text::{display_scalar, is_whitespace, trim_end, u64_to_decimal};
use hn_api_wasm::urls::{build_url, item_path, request_description, user_path, HN_API_BASE};

fn bare_item(id: u64) -> HnItem {
    HnItem {
        id,
        item_type: "story".to_string(),
        by: None,
        time: None,
        text: None,
        deleted: None,
        dead: None,
        parent: None,
        poll: None,
        kids: None,
        url: None,
        score: None,
        title: Some(format!("Story {id}")),
        parts: None,
        descendants: None,
    }
}

#[test]
fn decimal_rendering_matches_std() {
    for n in [0u64, 7, 10, 99, 100, 1234567890, u64::MAX] {
        assert_eq!(u64_to_decimal(n), n.to_string());
    }
}

#[test]
fn display_scalar_writes_key_and_value() {
    assert_eq!(display_scalar("max_item", 42), "max_item: 42");
    assert_eq!(display_scalar("max_item", 0), "max_item: 0");
}

#[test]
fn whitespace_matches_std_for_every_char() {
    for code in 0u32..=0x10ffff {
        if let Some(c) = char::from_u32(code) {
            assert_eq!(is_whitespace(c), c.is_whitespace(), "{code:#x}");
        }
    }
}

#[test]
fn trim_end_removes_only_trailing_whitespace() {
    assert_eq!(trim_end("id: 1\ntitle: Hello\n"), "id: 1\ntitle: Hello");
    assert_eq!(trim_end("  a b \t\r\n\u{3000}"), "  a b");
    assert_eq!(trim_end("\n\n"), "");
    assert_eq!(trim_end(""), "");
    assert_eq!(trim_end("héllo wörld"), "héllo wörld");
    for s in ["x \u{2028}", "\u{a0}y\u{a0}", "z\u{85}\u{200a}"] {
        assert_eq!(trim_end(s), s.trim_end());
    }
    let once = trim_end("value  \n");
    assert_eq!(trim_end(&once), once);
}

#[test]
fn builds_paths_and_urls() {
    assert_eq!(item_path(123), "item/123");
    assert_eq!(item_path(0), "item/0");
    assert_eq!(user_path("pg"), "user/pg");
    assert_eq!(
        build_url(&user_path("pg")),
        "https://hacker-news.firebaseio.com/v0/user/pg.json"
    );
    assert_eq!(
        build_url("topstories"),
        "https://hacker-news.firebaseio.com/v0/topstories.json"
    );
    assert!(build_url("maxitem").starts_with(&format!("{HN_API_BASE}/")));
    assert_eq!(
        request_description("item/5"),
        "Hacker News API request for item/5"
    );
}

#[test]
fn limits_keep_values_in_range() {
    assert_eq!(clamp_limit(Some(1), 10, 25), 1);
    assert_eq!(clamp_limit(Some(25), 10, 25), 25);
    assert_eq!(clamp_limit(Some(26), 10, 25), 25);
    assert_eq!(clamp_limit(Some(17), 20, 50), 17);
    assert_eq!(clamp_limit(None, 0, 5), 1);
}

#[test]
fn previews_hold_at_most_ten_values() {
    let many: Vec<u64> = (1..=12).collect();
    assert_eq!(preview(&many), (1..=10).collect::<Vec<u64>>());
    assert_eq!(preview(&many).len(), PREVIEW_LIMIT);
    assert_eq!(preview(&[4u64, 5]), vec![4, 5]);
    assert!(preview::<u64>(&[]).is_empty());
    assert_eq!(take_first(&[1u64, 2, 3], 2), vec![1, 2]);
    assert_eq!(take_first(&[1u64, 2, 3], 9), vec![1, 2, 3]);
}

#[test]
fn status_other_than_ok_fails_with_body() {
    assert_eq!(check_status("item/1", 200, b"{}"), Ok(()));
    assert_eq!(
        check_status("item/1", 404, b"not found"),
        Err("Hacker News API request failed for item/1 with status 404: not found".to_string())
    );
    assert_eq!(
        check_status("maxitem", 503, &[0x62, 0xff, 0x63]),
        Err("Hacker News API request failed for maxitem with status 503: b\u{fffd}c".to_string())
    );
    assert_eq!(
        status_failure("x", 500, "oops"),
        "Hacker News API request failed for x with status 500: oops"
    );
    assert_eq!(
        parse_failure("updates", "missing field `items`"),
        "Failed to parse Hacker News API response for updates: missing field `items`"
    );
}

#[test]
fn retry_stops_at_first_success() {
    let mut retry = Retry::new("r");
    match retry.record::<u8>(Ok(9)) {
        RetryStep::Succeeded(v) => assert_eq!(v, 9),
        other => panic!("unexpected step {other:?}"),
    }
}

#[test]
fn retry_asks_again_before_the_last_attempt() {
    let mut retry = Retry::new("Hacker News API request for maxitem");
    assert!(matches!(retry.record::<u8>(Err("a".to_string())), RetryStep::TryAgain));
    assert!(matches!(retry.record::<u8>(Err("b".to_string())), RetryStep::TryAgain));
    match retry.record::<u8>(Err("c".to_string())) {
        RetryStep::GaveUp(m) => assert_eq!(
            m,
            "Hacker News API request for maxitem failed after 3 attempts: c"
        ),
        other => panic!("unexpected step {other:?}"),
    }
}

#[test]
fn item_drops_empty_values_and_previews_children() {
    let item = HnItem {
        id: 8,
        item_type: "story".to_string(),
        by: Some("bob".to_string()),
        time: Some(5),
        text: Some(String::new()),
        deleted: Some(true),
        dead: Some(false),
        parent: None,
        poll: None,
        kids: Some((100..112).collect()),
        url: Some(String::new()),
        score: Some(-3),
        title: None,
        parts: Some(Vec::new()),
        descendants: Some(0),
    };
    let out = format_item(item);
    assert_eq!(out.id, 8);
    assert_eq!(out.by.as_deref(), Some("bob"));
    assert_eq!(out.text, None);
    assert_eq!(out.url, None);
    assert_eq!(out.deleted, Some(true));
    assert_eq!(out.dead, None);
    assert_eq!(out.score, Some(-3));
    assert_eq!(out.descendants, Some(0));
    assert_eq!(out.kids_count, Some(12));
    assert_eq!(out.kids_preview, (100..110).collect::<Vec<u64>>());
    assert_eq!(out.parts_count, None);
    assert!(out.parts_preview.is_empty());

    let bare = format_item(bare_item(3));
    assert_eq!(bare.kids_count, None);
    assert!(bare.kids_preview.is_empty());
    assert_eq!(bare.deleted, None);
}

#[test]
fn list_summary_keeps_non_empty_text() {
    let mut item = bare_item(1);
    item.text = Some("body".to_string());
    item.url = Some(String::new());
    item.descendants = Some(4);
    let summary = format_list_item(item);
    assert_eq!(summary.text.as_deref(), Some("body"));
    assert_eq!(summary.url, None);
    assert_eq!(summary.comments, Some(4));
    assert_eq!(summary.title.as_deref(), Some("Story 1"));
}

#[test]
fn user_without_submissions() {
    let user = HnUser {
        id: "dang".to_string(),
        created: 1,
        karma: -2,
        about: Some("mod".to_string()),
        submitted: None,
    };
    let out = format_user(user, 20);
    assert_eq!(out.id, "dang");
    assert_eq!(out.about.as_deref(), Some("mod"));
    assert_eq!(out.submitted_count, None);
    assert!(out.submitted_preview.is_empty());
}

#[test]
fn updates_are_counted() {
    let out = format_updates(HnUpdates {
        items: vec![1, 2, 3],
        profiles: vec!["a".to_string()],
    });
    assert_eq!(out.changed_items_count, 3);
    assert_eq!(out.changed_profile_count, 1);
    assert_eq!(out.items, vec![1, 2, 3]);
    assert_eq!(out.profiles, vec!["a".to_string()]);
}

#[test]
fn story_list_hydrates_first_ids_in_order() {
    let fetch = StoryListFetch::new("topstories", 2);
    assert_eq!(fetch.path(), "topstories");
    let step = fetch.on_ids(Ok(vec![5, 6, 7]));
    let pending = match step {
        StoryListStep::FetchItem(path, pending) => {
            assert_eq!(path, "item/5");
            pending
        }
        _ => panic!("expected an item request"),
    };
    let pending = match pending.on_item(Ok(bare_item(5))) {
        StoryListStep::FetchItem(path, pending) => {
            assert_eq!(path, "item/6");
            pending
        }
        _ => panic!("expected an item request"),
    };
    match pending.on_item(Ok(bare_item(6))) {
        StoryListStep::Done(out) => {
            assert_eq!(out.endpoint, "topstories");
            assert_eq!(out.total_ids, 3);
            assert_eq!(out.returned, 2);
            assert_eq!(out.ids, vec![5, 6]);
            assert_eq!(out.items.len(), 2);
            assert_eq!(out.items[0].id, 5);
            assert_eq!(out.items[1].title.as_deref(), Some("Story 6"));
        }
        _ => panic!("expected the answer"),
    }
}

#[test]
fn story_list_with_no_ids_is_done_at_once() {
    match StoryListFetch::new("jobstories", 10).on_ids(Ok(Vec::new())) {
        StoryListStep::Done(out) => {
            assert_eq!(out.total_ids, 0);
            assert_eq!(out.returned, 0);
            assert!(out.ids.is_empty());
            assert!(out.items.is_empty());
        }
        _ => panic!("expected the answer"),
    }
}

#[test]
fn story_list_stops_at_first_failure() {
    match StoryListFetch::new("newstories", 5).on_ids(Err("down".to_string())) {
        StoryListStep::Failed(m) => assert_eq!(m, "down"),
        _ => panic!("expected a failure"),
    }
    let pending = match StoryListFetch::new("newstories", 5).on_ids(Ok(vec![1, 2])) {
        StoryListStep::FetchItem(_, pending) => pending,
        _ => panic!("expected an item request"),
    };
    match pending.on_item(Err("item gone".to_string())) {
        StoryListStep::Failed(m) => assert_eq!(m, "item gone"),
        _ => panic!("expected a failure"),
    }
}

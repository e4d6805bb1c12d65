use ntfy_rs::error::AppError;
use ntfy_rs::message::{valid_message_id, Message};
use ntfy_rs::publish::{
    apply_publish_headers, build_published_message, check_publish, header_val, is_truthy,
    message_expiry, new_published_message, parse_priority, parse_tags, priority_from_lowercase,
    HeaderEntry,
};

fn h(name: &str, value: &str) -> HeaderEntry {
    HeaderEntry { name: name.to_string(), value: Some(value.to_string()) }
}

#[test]
fn header_val_takes_the_first_nonblank_name() {
    let headers = vec![h("t", "short"), h("title", "  "), h("x-title", " Long ")];
    assert_eq!(header_val(&headers, &["x-title", "title", "t"]), Some("Long".to_string()));
    assert_eq!(header_val(&headers, &["title", "t"]), Some("short".to_string()));
    assert_eq!(header_val(&headers, &["nothing"]), None);
    // Only the first header of a name counts; an unreadable one is skipped.
    let dup = vec![
        HeaderEntry { name: "title".to_string(), value: None },
        h("title", "second"),
        h("t", "fallback"),
    ];
    assert_eq!(header_val(&dup, &["title", "t"]), Some("fallback".to_string()));
}

#[test]
fn priorities() {
    assert_eq!(parse_priority("1"), 1);
    assert_eq!(parse_priority("MIN"), 1);
    assert_eq!(parse_priority("low"), 2);
    assert_eq!(parse_priority("Default"), 3);
    assert_eq!(parse_priority("high"), 4);
    assert_eq!(parse_priority("Urgent"), 5);
    assert_eq!(parse_priority("max"), 5);
    assert_eq!(parse_priority("whatever"), 3);
    assert_eq!(parse_priority(""), 3);
    assert_eq!(priority_from_lowercase("MAX"), 3);
    assert_eq!(priority_from_lowercase("max"), 5);
}

#[test]
fn truthy_flags() {
    assert!(is_truthy("1"));
    assert!(is_truthy("TRUE"));
    assert!(is_truthy("Yes"));
    assert!(!is_truthy("no"));
    assert!(!is_truthy(""));
}

#[test]
fn tags_are_split_and_trimmed() {
    assert_eq!(parse_tags("a, b ,c"), vec!["a".to_string(), "b".to_string(), "c".to_string()]);
    assert_eq!(parse_tags("x"), vec!["x".to_string()]);
    assert_eq!(parse_tags("a,,b"), vec!["a".to_string(), "".to_string(), "b".to_string()]);
}

#[test]
fn headers_set_message_metadata() {
    let mut msg = Message::new_message("test", "hello".to_string());
    let id = msg.id.clone();
    let headers = vec![
        h("title", "Title"),
        h("p", "high"),
        h("tags", "warning, skull"),
        h("click", "https://example.com"),
        h("x-icon", "https://example.com/i.png"),
        h("md", "yes"),
    ];
    apply_publish_headers(&mut msg, &headers);
    assert_eq!(msg.id, id);
    assert_eq!(msg.title, "Title");
    assert_eq!(msg.priority, 4);
    assert_eq!(msg.tags, vec!["warning".to_string(), "skull".to_string()]);
    assert_eq!(msg.click, "https://example.com");
    assert_eq!(msg.icon, "https://example.com/i.png");
    assert_eq!(msg.content_type, "text/markdown");
    assert_eq!(msg.message, "hello");
}

#[test]
fn markdown_from_content_type_and_untouched_fields() {
    let mut msg = Message::new_message("test", "hi".to_string());
    apply_publish_headers(&mut msg, &[h("content-type", "Text/Markdown; charset=utf-8")]);
    assert_eq!(msg.content_type, "text/markdown");
    let mut plain = Message::new_message("test", "hi".to_string());
    apply_publish_headers(&mut plain, &[h("content-type", "text/plain"), h("markdown", "no")]);
    assert_eq!(plain.content_type, "");
    assert_eq!(plain.priority, 0);
    assert!(plain.tags.is_empty());
    assert_eq!(plain.title, "");
}

#[test]
fn publish_checks() {
    assert_eq!(check_publish("bad topic", 1, 10), Err(AppError::TopicInvalid));
    assert_eq!(check_publish("good", 11, 10), Err(AppError::MessageTooLarge));
    assert_eq!(check_publish("good", 10, 10), Ok(()));
    // The topic is checked first.
    assert_eq!(check_publish("", 11, 10), Err(AppError::TopicInvalid));
}

#[test]
fn expiry_adds_the_cache_duration() {
    assert_eq!(message_expiry(1_700_000_000, 43200), 1_700_043_200);
    assert_eq!(message_expiry(0, 0), 0);
    assert_eq!(message_expiry(i64::MAX, 1), i64::MIN);
}

#[test]
fn new_published_message_expires_after_the_cache_duration() {
    let m = new_published_message("t", b"hi", &[h("title", "T")], 3600);
    let expires = m.expires.unwrap();
    assert!(expires >= m.time + 3600 && expires <= m.time + 3605);
    assert_eq!(m.title, "T");
    assert_eq!(m.message, "hi");
}

#[test]
fn published_message_from_body_and_headers() {
    let m = build_published_message("alerts", b"caf\xc3\xa9 \xff", &[h("x-priority", "5")], 99);
    assert_eq!(m.topic, "alerts");
    assert_eq!(m.message, "caf\u{e9} \u{fffd}");
    assert_eq!(m.priority, 5);
    assert_eq!(m.expires, Some(99));
    assert_eq!(m.event, "message");
    assert!(valid_message_id(&m.id));
}

use ntfy_rs::message::{
    generate_id, id_from_samples, is_zero_i32, is_zero_i64, is_zero_u64, parse_topics, valid_message_id,
    valid_topic, Message, EVENT_KEEPALIVE, EVENT_MESSAGE, EVENT_OPEN, MESSAGE_ID_LENGTH,
};

// ── valid_topic ─────────────────────────────────────────────────────────

#[test]
fn test_valid_topic_simple() {
    assert!(valid_topic("mytopic"));
}

#[test]
fn test_valid_topic_with_dash_underscore() {
    assert!(valid_topic("my-topic_123"));
}

#[test]
fn test_valid_topic_max_length() {
    let topic = "a".repeat(64);
    assert!(valid_topic(&topic));
}

#[test]
fn test_valid_topic_too_long() {
    let topic = "a".repeat(65);
    assert!(!valid_topic(&topic));
}

#[test]
fn test_valid_topic_empty() {
    assert!(!valid_topic(""));
}

#[test]
fn test_valid_topic_invalid_chars() {
    assert!(!valid_topic("my topic"));
    assert!(!valid_topic("topic!"));
    assert!(!valid_topic("topic.json"));
}

#[test]
fn valid_topic_rejects_non_ascii_letters() {
    assert!(!valid_topic("caf\u{e9}"));
    assert!(!valid_topic("topic\u{0}"));
}

// ── valid_message_id ────────────────────────────────────────────────────

#[test]
fn test_valid_message_id_correct() {
    assert!(valid_message_id("AbC123xyz789"));
}

#[test]
fn test_valid_message_id_wrong_length() {
    assert!(!valid_message_id("abc"));
    assert!(!valid_message_id(&"a".repeat(20)));
}

#[test]
fn test_valid_message_id_invalid_chars() {
    assert!(!valid_message_id("abc-def-ghi-"));
}

#[test]
fn valid_message_id_counts_characters_not_bytes() {
    // Twelve characters, one of them not ASCII: refused.
    assert!(!valid_message_id("abcdefghijk\u{e9}"));
    assert!(!valid_message_id(""));
}

// ── parse_topics ────────────────────────────────────────────────────────

#[test]
fn test_parse_topics_single() {
    assert_eq!(parse_topics("mytopic"), Some(vec!["mytopic".to_string()]));
}

#[test]
fn test_parse_topics_multiple() {
    let result = parse_topics("topic1,topic2,topic3");
    assert_eq!(result.unwrap().len(), 3);
}

#[test]
fn test_parse_topics_invalid() {
    assert!(parse_topics("good,bad topic").is_none());
}

#[test]
fn parse_topics_round_trip_and_empty_pieces() {
    let raw = "a,b-c,d_e";
    let topics = parse_topics(raw).unwrap();
    assert_eq!(topics, vec!["a".to_string(), "b-c".to_string(), "d_e".to_string()]);
    assert_eq!(topics.join(","), raw);
    // An empty piece is not a topic.
    assert!(parse_topics("").is_none());
    assert!(parse_topics("a,").is_none());
    assert!(parse_topics(",a").is_none());
    assert!(parse_topics("a,,b").is_none());
}

// ── generate_id ─────────────────────────────────────────────────────────

#[test]
fn test_generate_id_length() {
    let id = generate_id();
    assert_eq!(id.len(), MESSAGE_ID_LENGTH);
    assert!(valid_message_id(&id));
}

#[test]
fn test_generate_id_unique() {
    let a = generate_id();
    let b = generate_id();
    assert_ne!(a, b);
}

// ── constructors ────────────────────────────────────────────────────────

#[test]
fn new_message_is_a_fresh_message_event() {
    let msg = Message::new_message("test", "hello".to_string());
    assert!(valid_message_id(&msg.id));
    assert_eq!(msg.event, EVENT_MESSAGE);
    assert_eq!(msg.event, "message");
    assert_eq!(msg.topic, "test");
    assert_eq!(msg.message, "hello");
    assert!(msg.sequence_id.is_none());
    assert!(msg.expires.is_none());
    assert!(msg.title.is_empty());
    assert_eq!(msg.priority, 0);
    assert!(msg.tags.is_empty());
    assert!(msg.click.is_empty());
    assert!(msg.icon.is_empty());
    assert!(msg.actions.is_empty());
    assert!(msg.content_type.is_empty());
    assert!(msg.encoding.is_empty());
    assert!(msg.attachment.is_none());
    assert!(msg.time > 1_600_000_000);
}

#[test]
fn new_open_and_keepalive_events() {
    let open = Message::new_open("t1");
    assert_eq!(open.event, EVENT_OPEN);
    assert_eq!(open.event, "open");
    assert_eq!(open.topic, "t1");
    assert!(open.message.is_empty());
    assert!(valid_message_id(&open.id));
    let ka = Message::new_keepalive("t2");
    assert_eq!(ka.event, EVENT_KEEPALIVE);
    assert_eq!(ka.event, "keepalive");
    assert_eq!(ka.topic, "t2");
    assert!(ka.message.is_empty());
}

#[test]
fn zero_field_predicates() {
    assert!(is_zero_i32(&0));
    assert!(!is_zero_i32(&4));
    assert!(is_zero_u64(&0));
    assert!(!is_zero_u64(&12345));
    assert!(is_zero_i64(&0));
    assert!(!is_zero_i64(&-1));
}

#[test]
fn new_event_at_takes_id_and_time() {
    let m = Message::new_event_at("message", "topic1", "body".to_string(), "AbC123xyz789".to_string(), 1234);
    assert_eq!(m.id, "AbC123xyz789");
    assert_eq!(m.time, 1234);
    assert_eq!(m.event, "message");
    assert_eq!(m.topic, "topic1");
    assert_eq!(m.message, "body");
    assert!(m.expires.is_none());
    assert!(m.title.is_empty() && m.tags.is_empty() && m.click.is_empty());
}

#[test]
fn ids_from_samples() {
    assert_eq!(id_from_samples(b"AbC123xyz789"), "AbC123xyz789");
    assert_eq!(id_from_samples(&[0xe9]), "\u{e9}");
    assert_eq!(id_from_samples(&[]), "");
}

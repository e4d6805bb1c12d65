use ntfy_rs::error::AppError;
use ntfy_rs::subscribe::{plan_subscription, plan_subscription_at, stream_prelude, SubscribeParams, SubscriptionPlan};

fn params(poll: Option<&str>, since: Option<&str>) -> SubscribeParams {
    SubscribeParams {
        poll: poll.map(|s| s.to_string()),
        since: since.map(|s| s.to_string()),
        priority: None,
        tags: None,
        message: None,
        title: None,
    }
}

#[test]
fn poll_flag() {
    assert!(params(Some("1"), None).is_poll());
    assert!(params(Some("true"), None).is_poll());
    assert!(params(Some("yes"), None).is_poll());
    assert!(!params(Some("YES"), None).is_poll());
    assert!(!params(Some("0"), None).is_poll());
    assert!(!params(None, None).is_poll());
}

#[test]
fn since_times() {
    let now = 1_000_000;
    assert_eq!(params(None, Some("all")).since_time(now), 0);
    assert_eq!(params(None, Some("12345")).since_time(now), 12345);
    assert_eq!(params(None, Some("-5")).since_time(now), -5);
    assert_eq!(params(None, Some("+7")).since_time(now), 7);
    assert_eq!(params(None, Some("msgid123")).since_time(now), 0);
    assert_eq!(params(None, Some(" 5")).since_time(now), 0);
    assert_eq!(params(None, Some("99999999999999999999")).since_time(now), 0);
    assert_eq!(params(Some("1"), None).since_time(now), now - 10);
    assert_eq!(params(None, None).since_time(now), now);
}

#[test]
fn subscription_plans() {
    assert_eq!(
        plan_subscription_at("bad topic", &params(None, None), 100),
        Err(AppError::TopicInvalid)
    );
    assert_eq!(
        plan_subscription_at("t", &params(Some("1"), None), 100),
        Ok(SubscriptionPlan { poll: true, since: 90 })
    );
    assert_eq!(
        plan_subscription_at("t", &params(None, Some("all")), 100),
        Ok(SubscriptionPlan { poll: false, since: 0 })
    );
}

#[test]
fn subscription_plan_reads_the_clock() {
    assert_eq!(plan_subscription("bad topic", &params(None, None)), Err(AppError::TopicInvalid));
    let plan = plan_subscription("t", &params(Some("yes"), None)).unwrap();
    assert!(plan.poll);
    assert!(plan.since > 1_600_000_000);
    let fixed = plan_subscription("t", &params(None, Some("42"))).unwrap();
    assert_eq!(fixed, SubscriptionPlan { poll: false, since: 42 });
}

#[test]
fn since_time_wraps_at_the_bottom_of_the_range() {
    assert_eq!(params(Some("1"), None).since_time(i64::MIN), i64::MIN.wrapping_sub(10));
}

#[test]
fn since_number_grammar() {
    let now = 5;
    assert_eq!(params(None, Some("-9223372036854775808")).since_time(now), i64::MIN);
    assert_eq!(params(None, Some("9223372036854775808")).since_time(now), 0);
    assert_eq!(params(None, Some("")).since_time(now), 0);
    assert_eq!(params(None, Some("-")).since_time(now), 0);
    assert_eq!(params(None, Some("1a")).since_time(now), 0);
}

#[test]
fn stream_begins_with_open_then_cache() {
    let a = ntfy_rs::message::Message::new_message("t", "one".to_string());
    let b = ntfy_rs::message::Message::new_message("t", "two".to_string());
    let v = stream_prelude("t", vec![a, b]);
    assert_eq!(v.len(), 3);
    assert_eq!(v[0].event, "open");
    assert_eq!(v[0].topic, "t");
    assert_eq!(v[1].message, "one");
    assert_eq!(v[2].message, "two");
    assert_eq!(stream_prelude("x", vec![]).len(), 1);
}

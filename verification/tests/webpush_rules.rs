use ntfy_rs::error::AppError;
use ntfy_rs::webpush::{check_subscribe_request, valid_push_endpoint, SubscribeKeys, SubscribeRequest};

#[test]
fn public_https_endpoints_are_valid() {
    assert!(valid_push_endpoint("https://fcm.googleapis.com/fcm/send/abc"));
    assert!(valid_push_endpoint("https://updates.push.services.mozilla.com/wpush/v2/x"));
}

#[test]
fn unsafe_endpoints_are_refused() {
    assert!(!valid_push_endpoint("http://fcm.googleapis.com/x"));
    assert!(!valid_push_endpoint("not a url"));
    assert!(!valid_push_endpoint("https://169.254.169.254/latest"));
    assert!(!valid_push_endpoint("https://127.0.0.1/"));
    assert!(!valid_push_endpoint("https://[::1]/"));
    assert!(!valid_push_endpoint("https://localhost/"));
    assert!(!valid_push_endpoint("https://LOCALHOST/"));
    assert!(!valid_push_endpoint("https://a.localhost/"));
    assert!(!valid_push_endpoint("https://printer.local/"));
    assert!(!valid_push_endpoint("https://db.internal/"));
    assert!(!valid_push_endpoint("https://x.test/"));
    assert!(!valid_push_endpoint("https://www.example/"));
}

fn req(topic: &str, endpoint: &str, p256dh: &str, auth: &str) -> SubscribeRequest {
    SubscribeRequest {
        topic: topic.to_string(),
        endpoint: endpoint.to_string(),
        keys: SubscribeKeys { p256dh: p256dh.to_string(), auth: auth.to_string() },
    }
}

#[test]
fn subscribe_request_checks() {
    let ok = "https://fcm.googleapis.com/fcm/send/abc";
    assert_eq!(check_subscribe_request(&req("bad topic", ok, "k", "a")), Err(AppError::TopicInvalid));
    assert_eq!(
        check_subscribe_request(&req("t", "https://localhost/", "k", "a")),
        Err(AppError::BadRequest(
            "endpoint must be a valid https:// URL pointing to a public push service".to_string()
        ))
    );
    assert_eq!(
        check_subscribe_request(&req("t", ok, "", "a")),
        Err(AppError::BadRequest("p256dh and auth keys are required".to_string()))
    );
    assert_eq!(
        check_subscribe_request(&req("t", ok, "k", "")),
        Err(AppError::BadRequest("p256dh and auth keys are required".to_string()))
    );
    assert_eq!(check_subscribe_request(&req("t", ok, "k", "a")), Ok(()));
}

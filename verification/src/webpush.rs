//! Web Push subscriptions: which push endpoints may be registered.

use vstd::prelude::*;
use crate::error::AppError;
use crate::message::{valid_topic, valid_topic_spec};
use crate::text::{ascii_lower_spec, ends_with, ends_with_spec, str_eq, to_ascii_lowercase, to_owned_string};

verus! {

/// The scheme of the URL that `input` parses to, and its host (its text, and
/// whether it is an IP address literal), or `None` where `input` is not a URL;
/// as the `url` crate's `Url::parse`, `Url::scheme`, `Url::host_str` and
/// `Url::host` give them.
pub uninterp spec fn url_scheme_and_host(input: Seq<char>) -> Option<
    (Seq<char>, Option<(Seq<char>, bool)>),
>;

/// The parts of a parsed URL that endpoint validation reads.
struct UrlParts {
    scheme: String,
    host: Option<String>,
    host_is_ip: bool,
}

/// `reqwest::Url::parse` (the `url` crate's `Url`), read out as scheme, host
/// text and whether the host is an IPv4 or IPv6 literal. What it parses is
/// left unstated and named `url_scheme_and_host`.
#[verifier::external_body]
fn parse_url(input: &str) -> (r: Option<UrlParts>)
    ensures
        match r {
            None => url_scheme_and_host(input@) is None,
            Some(p) => url_scheme_and_host(input@) == Some(
                (
                    p.scheme@,
                    match p.host {
                        Some(h) => Some((h@, p.host_is_ip)),
                        None => None,
                    },
                ),
            ),
        },
{
    match reqwest::Url::parse(input) {
        Ok(url) => Some(UrlParts {
            scheme: url.scheme().to_string(),
            host: url.host_str().map(str::to_string),
            host_is_ip: match url.host() {
                Some(url::Host::Domain(_)) => false,
                Some(url::Host::Ipv4(_)) => true,
                Some(url::Host::Ipv6(_)) => true,
                None => false,
            },
        }),
        Err(_) => None,
    }
}

/// A host name reserved for local or test use.
pub open spec fn reserved_host(h: Seq<char>) -> bool {
    ||| h == "localhost"@
    ||| ends_with_spec(h, ".localhost"@)
    ||| ends_with_spec(h, ".local"@)
    ||| ends_with_spec(h, ".internal"@)
    ||| ends_with_spec(h, ".test"@)
    ||| ends_with_spec(h, ".example"@)
}

/// A push endpoint that notifications may be delivered to: a well-formed
/// `https://` URL whose host is a non-empty domain name (not an IP address)
/// that is not reserved for local or test use (compared ignoring ASCII case).
pub open spec fn valid_push_endpoint_spec(endpoint: Seq<char>) -> bool {
    match url_scheme_and_host(endpoint) {
        None => false,
        Some((scheme, host)) => {
            &&& scheme == "https"@
            &&& host matches Some((h, is_ip))
            &&& h.len() > 0
            &&& !is_ip
            &&& !reserved_host(ascii_lower_spec(h))
        },
    }
}

/// Whether `endpoint` is safe to deliver push notifications to. Refusing IP
/// literals and local names keeps subscribers from pointing the server at
/// internal infrastructure.
pub fn valid_push_endpoint(endpoint: &str) -> (b: bool)
    ensures
        b == valid_push_endpoint_spec(endpoint@),
{
    let url = match parse_url(endpoint) {
        Some(u) => u,
        None => return false,
    };
    if !str_eq(url.scheme.as_str(), "https") {
        return false;
    }
    let host = match &url.host {
        Some(h) => h,
        None => return false,
    };
    if host.as_str().is_empty() {
        return false;
    }
    if url.host_is_ip {
        return false;
    }
    let h = to_ascii_lowercase(host.as_str());
    let hs = h.as_str();
    if str_eq(hs, "localhost") || ends_with(hs, ".localhost") || ends_with(hs, ".local")
        || ends_with(hs, ".internal") || ends_with(hs, ".test") || ends_with(hs, ".example") {
        return false;
    }
    true
}

/// The keys of a browser push subscription.
#[derive(Debug, Clone)]
pub struct SubscribeKeys {
    pub p256dh: String,
    pub auth: String,
}

/// A request to register a browser push subscription for a topic.
#[derive(Debug, Clone)]
pub struct SubscribeRequest {
    pub topic: String,
    pub endpoint: String,
    pub keys: SubscribeKeys,
}

/// Check a push subscription request: the topic must be valid, the endpoint
/// a public `https://` push service, and both keys present.
pub fn check_subscribe_request(req: &SubscribeRequest) -> (r: Result<(), AppError>)
    ensures
        !valid_topic_spec(req.topic@) ==> r == Err::<(), AppError>(AppError::TopicInvalid),
        valid_topic_spec(req.topic@) && !valid_push_endpoint_spec(req.endpoint@) ==> (r matches Err(
            AppError::BadRequest(m),
        ) && m@ == "endpoint must be a valid https:// URL pointing to a public push service"@),
        valid_topic_spec(req.topic@) && valid_push_endpoint_spec(req.endpoint@) && (
        req.keys.p256dh@.len() == 0 || req.keys.auth@.len() == 0) ==> (r matches Err(
            AppError::BadRequest(m),
        ) && m@ == "p256dh and auth keys are required"@),
        valid_topic_spec(req.topic@) && valid_push_endpoint_spec(req.endpoint@)
            && req.keys.p256dh@.len() > 0 && req.keys.auth@.len() > 0 ==> r is Ok,
{
    if !valid_topic(req.topic.as_str()) {
        return Err(AppError::TopicInvalid);
    }
    if !valid_push_endpoint(req.endpoint.as_str()) {
        return Err(
            AppError::BadRequest(
                to_owned_string(
                    "endpoint must be a valid https:// URL pointing to a public push service",
                ),
            ),
        );
    }
    if req.keys.p256dh.as_str().is_empty() || req.keys.auth.as_str().is_empty() {
        return Err(AppError::BadRequest(to_owned_string("p256dh and auth keys are required")));
    }
    Ok(())
}

} // verus!

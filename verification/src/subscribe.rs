//! Subscribing: the query parameters of a subscription and what they ask for.

use vstd::prelude::*;
use crate::error::AppError;
use crate::message::{now_timestamp, valid_topic, valid_topic_spec, Message, EVENT_OPEN};
use crate::text::{parse_i64, parse_i64_spec, str_eq};

verus! {

/// Query parameters shared by all subscribe endpoints.
#[derive(Debug, Clone)]
pub struct SubscribeParams {
    /// Return cached messages and close (no streaming).
    pub poll: Option<String>,
    /// Return messages since this Unix timestamp (or "all").
    pub since: Option<String>,
    /// Client-side filters.
    pub priority: Option<String>,
    pub tags: Option<String>,
    pub message: Option<String>,
    pub title: Option<String>,
}

/// A flag value that says yes: "1", "true" or "yes".
pub open spec fn flag_set(v: Seq<char>) -> bool {
    v == "1"@ || v == "true"@ || v == "yes"@
}

impl SubscribeParams {
    /// The subscription only polls the cache.
    pub open spec fn spec_is_poll(self) -> bool {
        self.poll matches Some(v) && flag_set(v@)
    }

    /// Whether the subscription only polls the cache.
    pub fn is_poll(&self) -> (b: bool)
        ensures
            b == self.spec_is_poll(),
    {
        match &self.poll {
            Some(v) => str_eq(v.as_str(), "1") || str_eq(v.as_str(), "true") || str_eq(
                v.as_str(),
                "yes",
            ),
            None => false,
        }
    }

    /// The Unix time from which cached messages are returned, at time `now`:
    /// 0 for "all" or for text that is not a number; the number given;
    /// without `since`, the last 10 seconds when polling and only new
    /// messages when streaming.
    pub open spec fn since_time_spec(self, now: i64) -> i64 {
        match self.since {
            Some(s) => if s@ == "all"@ {
                0
            } else {
                match parse_i64_spec(s@) {
                    Some(v) => v,
                    None => 0,
                }
            },
            None => if self.spec_is_poll() {
                now.wrapping_sub(10)
            } else {
                now
            },
        }
    }

    /// The Unix time from which cached messages are returned, at time `now`.
    pub fn since_time(&self, now: i64) -> (t: i64)
        ensures
            t == self.since_time_spec(now),
    {
        match &self.since {
            Some(s) => {
                if str_eq(s.as_str(), "all") {
                    0
                } else {
                    match parse_i64(s.as_str()) {
                        Some(v) => v,
                        None => 0,
                    }
                }
            },
            None => {
                if self.is_poll() {
                    now.wrapping_sub(10)
                } else {
                    now
                }
            },
        }
    }
}

/// What a subscription asks for.
#[derive(Debug, Clone, Copy, PartialEq, Eq)]
pub struct SubscriptionPlan {
    /// Only return cached messages, then close.
    pub poll: bool,
    /// Return cached messages from this Unix time on.
    pub since: i64,
}

/// What a subscription to `topic` with `params` at time `now` asks for;
/// `TopicInvalid` for an invalid topic name.
pub fn plan_subscription_at(topic: &str, params: &SubscribeParams, now: i64) -> (r: Result<
    SubscriptionPlan,
    AppError,
>)
    ensures
        !valid_topic_spec(topic@) ==> r == Err::<SubscriptionPlan, AppError>(
            AppError::TopicInvalid,
        ),
        valid_topic_spec(topic@) ==> r == Ok::<SubscriptionPlan, AppError>(
            SubscriptionPlan { poll: params.spec_is_poll(), since: params.since_time_spec(now) },
        ),
{
    if !valid_topic(topic) {
        return Err(AppError::TopicInvalid);
    }
    Ok(SubscriptionPlan { poll: params.is_poll(), since: params.since_time(now) })
}

/// What a subscription to `topic` with `params` asks for now (the current
/// time read from the clock); `TopicInvalid` for an invalid topic name.
pub fn plan_subscription(topic: &str, params: &SubscribeParams) -> (r: Result<
    SubscriptionPlan,
    AppError,
>)
    ensures
        !valid_topic_spec(topic@) ==> r == Err::<SubscriptionPlan, AppError>(
            AppError::TopicInvalid,
        ),
        valid_topic_spec(topic@) ==> exists|now: i64|
            r == Ok::<SubscriptionPlan, AppError>(
                SubscriptionPlan {
                    poll: params.spec_is_poll(),
                    since: #[trigger] params.since_time_spec(now),
                },
            ),
{
    if !valid_topic(topic) {
        return Err(AppError::TopicInvalid);
    }
    let now = now_timestamp();
    plan_subscription_at(topic, params, now)
}

/// The messages a streaming subscription to `topic` begins with: an open
/// event, then the cached messages in their order.
pub fn stream_prelude(topic: &str, cached: Vec<Message>) -> (v: Vec<Message>)
    ensures
        v.len() == cached.len() + 1,
        v@[0].is_fresh_event(EVENT_OPEN@, topic@, Seq::<char>::empty()),
        v@.skip(1) == cached@,
{
    let mut v: Vec<Message> = Vec::new();
    v.push(Message::new_open(topic));
    let mut rest = cached;
    let ghost old_rest = rest@;
    v.append(&mut rest);
    assert(v@.skip(1) =~= old_rest);
    v
}

/// Whenever `since` is given it alone decides the start time, whatever the
/// poll flag and the clock say: "all" is 0, a number is that number, and any
/// other text is 0. Without it, polling looks back 10 seconds from `now` and
/// streaming starts at `now`.
pub proof fn lemma_since_decides_the_start(
    p: SubscribeParams,
    q: SubscribeParams,
    now: i64,
    later: i64,
)
    ensures
        p.since is Some && q.since == p.since ==> p.since_time_spec(now) == q.since_time_spec(
            later,
        ),
        (p.since matches Some(s) && s@ == "all"@) ==> p.since_time_spec(now) == 0,
        (p.since matches Some(s) && s@ != "all"@ && parse_i64_spec(s@) is Some) ==> p.since_time_spec(
            now,
        ) == parse_i64_spec(p.since->0@)->0,
        (p.since matches Some(s) && parse_i64_spec(s@) is None) ==> p.since_time_spec(now) == 0,
        p.since is None && p.spec_is_poll() && now >= i64::MIN + 10 ==> p.since_time_spec(now)
            == now - 10,
        p.since is None && !p.spec_is_poll() ==> p.since_time_spec(now) == now,
{
}

} // verus!

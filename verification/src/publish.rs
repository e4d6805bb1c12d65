//! Publishing: the checks on a publish request and the message it makes,
//! with its metadata taken from the request headers.

use vstd::prelude::*;
use crate::error::AppError;
use crate::message::{now_timestamp, valid_topic, valid_topic_spec, Message, EVENT_MESSAGE};
use vstd::utf8::is_ascii_chars;
use crate::text::{
    ascii_lower_spec,
    contains, contains_spec, split, split_spec, str_eq, string_from_utf8_lossy, string_views,
    to_lowercase, to_owned_string, trim, trim_spec, unicode_lowercase, utf8_lossy,
};

verus! {

/// One request header: its (lowercase) name, and its value where that is
/// visible ASCII text (`None` otherwise).
#[derive(Debug, Clone)]
pub struct HeaderEntry {
    pub name: String,
    pub value: Option<String>,
}

/// The value of the first header named `name`, if there is one.
pub open spec fn header_lookup(headers: Seq<HeaderEntry>, name: Seq<char>) -> Option<
    Option<String>,
>
    decreases headers.len(),
{
    if headers.len() == 0 {
        None
    } else if headers[0].name@ == name {
        Some(headers[0].value)
    } else {
        header_lookup(headers.drop_first(), name)
    }
}

/// The value, trimmed, of the first of `names` whose (first) header holds
/// readable, non-blank text.
pub open spec fn header_val_spec(headers: Seq<HeaderEntry>, names: Seq<&str>) -> Option<Seq<char>>
    decreases names.len(),
{
    if names.len() == 0 {
        None
    } else {
        match header_lookup(headers, names[0]@) {
            Some(Some(v)) => if trim_spec(v@).len() > 0 {
                Some(trim_spec(v@))
            } else {
                header_val_spec(headers, names.drop_first())
            },
            _ => header_val_spec(headers, names.drop_first()),
        }
    }
}

/// The value of the first header named `name`.
fn lookup<'a>(headers: &'a [HeaderEntry], name: &str) -> (r: Option<&'a Option<String>>)
    ensures
        match header_lookup(headers@, name@) {
            Some(v) => r matches Some(x) && *x == v,
            None => r is None,
        },
{
    let mut i: usize = 0;
    proof {
        assert(headers@.skip(0) =~= headers@);
    }
    while i < headers.len()
        invariant
            i <= headers.len(),
            header_lookup(headers@, name@) == header_lookup(headers@.skip(i as int), name@),
        decreases headers.len() - i,
    {
        assert(headers@.skip(i as int).drop_first() =~= headers@.skip(i + 1));
        if str_eq(headers[i].name.as_str(), name) {
            return Some(&headers[i].value);
        }
        i = i + 1;
    }
    None
}

/// The value, trimmed, of the first of `names` that the request carries as
/// non-blank readable text.
pub fn header_val(headers: &[HeaderEntry], names: &[&str]) -> (r: Option<String>)
    ensures
        match r {
            Some(s) => header_val_spec(headers@, names@) == Some(s@),
            None => header_val_spec(headers@, names@) is None,
        },
{
    let mut i: usize = 0;
    proof {
        assert(names@.skip(0) =~= names@);
    }
    while i < names.len()
        invariant
            i <= names.len(),
            header_val_spec(headers@, names@) == header_val_spec(headers@, names@.skip(i as int)),
        decreases names.len() - i,
    {
        assert(names@.skip(i as int).drop_first() =~= names@.skip(i + 1));
        assert(names@.skip(i as int)[0] == names@[i as int]);
        if let Some(Some(v)) = lookup(headers, names[i]) {
            let t = trim(v.as_str());
            if !t.as_str().is_empty() {
                return Some(t);
            }
        }
        i = i + 1;
    }
    None
}

/// The priority that a lowercase priority name or number stands for; 3
/// (default) for anything unknown.
pub open spec fn priority_of_lowercase(s: Seq<char>) -> i32 {
    if s == "1"@ || s == "min"@ {
        1
    } else if s == "2"@ || s == "low"@ {
        2
    } else if s == "3"@ || s == "default"@ {
        3
    } else if s == "4"@ || s == "high"@ {
        4
    } else if s == "5"@ || s == "urgent"@ || s == "max"@ {
        5
    } else {
        3
    }
}

/// The priority that a lowercase priority name or number stands for.
pub fn priority_from_lowercase(s: &str) -> (p: i32)
    ensures
        p == priority_of_lowercase(s@),
        1 <= p <= 5,
{
    if str_eq(s, "1") || str_eq(s, "min") {
        1
    } else if str_eq(s, "2") || str_eq(s, "low") {
        2
    } else if str_eq(s, "3") || str_eq(s, "default") {
        3
    } else if str_eq(s, "4") || str_eq(s, "high") {
        4
    } else if str_eq(s, "5") || str_eq(s, "urgent") || str_eq(s, "max") {
        5
    } else {
        3
    }
}

/// The priority a `Priority` header value asks for, compared case-insensitively.
pub fn parse_priority(s: &str) -> (p: i32)
    ensures
        p == priority_of_lowercase(unicode_lowercase(s@)),
        is_ascii_chars(s@) ==> p == priority_of_lowercase(ascii_lower_spec(s@)),
        1 <= p <= 5,
{
    let lower = to_lowercase(s);
    priority_from_lowercase(lower.as_str())
}

/// A lowercase "yes": "1", "true" or "yes".
pub open spec fn truthy_lowercase(s: Seq<char>) -> bool {
    s == "1"@ || s == "true"@ || s == "yes"@
}

/// Whether a lowercase flag value says yes.
pub fn is_truthy_lowercase(s: &str) -> (b: bool)
    ensures
        b == truthy_lowercase(s@),
{
    str_eq(s, "1") || str_eq(s, "true") || str_eq(s, "yes")
}

/// Whether a flag header value says yes, compared case-insensitively.
pub fn is_truthy(s: &str) -> (b: bool)
    ensures
        b == truthy_lowercase(unicode_lowercase(s@)),
        is_ascii_chars(s@) ==> b == truthy_lowercase(ascii_lower_spec(s@)),
{
    let lower = to_lowercase(s);
    is_truthy_lowercase(lower.as_str())
}

/// The tags of a `Tags` header value: its comma-separated entries, trimmed.
pub open spec fn tags_spec(v: Seq<char>) -> Seq<Seq<char>> {
    split_spec(v, ',').map_values(|p: Seq<char>| trim_spec(p))
}

/// The tags of a `Tags` header value.
pub fn parse_tags(v: &str) -> (r: Vec<String>)
    ensures
        string_views(r@) == tags_spec(v@),
{
    let parts = split(v, ',');
    let mut tags: Vec<String> = Vec::new();
    let mut i: usize = 0;
    while i < parts.len()
        invariant
            string_views(parts@) == split_spec(v@, ','),
            i <= parts.len(),
            tags.len() == i,
            forall|k: int| 0 <= k < i ==> #[trigger] tags@[k]@ == trim_spec(parts@[k]@),
        decreases parts.len() - i,
    {
        tags.push(trim(parts[i].as_str()));
        i = i + 1;
    }
    proof {
        assert forall|k: int| 0 <= k < tags.len() implies #[trigger] string_views(tags@)[k]
            == tags_spec(v@)[k] by {
            assert(split_spec(v@, ',')[k] == parts@[k]@);
        }
        assert(string_views(tags@) =~= tags_spec(v@));
    }
    tags
}

/// Header names of the title.
pub open spec fn title_names() -> Seq<&'static str> {
    seq!["x-title", "title", "t"]
}

/// Header names of the priority.
pub open spec fn priority_names() -> Seq<&'static str> {
    seq!["x-priority", "priority", "prio", "p"]
}

/// Header names of the tags.
pub open spec fn tags_names() -> Seq<&'static str> {
    seq!["x-tags", "tags", "tag", "ta"]
}

/// Header names of the click action.
pub open spec fn click_names() -> Seq<&'static str> {
    seq!["x-click", "click"]
}

/// Header names of the icon.
pub open spec fn icon_names() -> Seq<&'static str> {
    seq!["x-icon", "icon"]
}

/// Header names of the Markdown flag.
pub open spec fn markdown_names() -> Seq<&'static str> {
    seq!["x-markdown", "markdown", "md"]
}

/// Header names of the content type.
pub open spec fn content_type_names() -> Seq<&'static str> {
    seq!["content-type"]
}

/// The message body is Markdown: the Markdown flag says yes, or the content
/// type mentions `text/markdown` (both compared case-insensitively).
pub open spec fn wants_markdown(headers: Seq<HeaderEntry>) -> bool {
    ||| (header_val_spec(headers, markdown_names()) matches Some(v) && truthy_lowercase(
        unicode_lowercase(v),
    ))
    ||| (header_val_spec(headers, content_type_names()) matches Some(v) && contains_spec(
        unicode_lowercase(v),
        "text/markdown"@,
    ))
}

/// `new` is `old` with the metadata that the headers carry: title, priority
/// (as `parse_priority` reads it), tags, click action, icon and the Markdown
/// content type; every field that no header sets is kept.
pub open spec fn with_header_metadata(old: Message, new: Message, headers: Seq<HeaderEntry>) -> bool {
    &&& new.id == old.id
    &&& new.sequence_id == old.sequence_id
    &&& new.time == old.time
    &&& new.expires == old.expires
    &&& new.event == old.event
    &&& new.topic == old.topic
    &&& new.message == old.message
    &&& new.actions == old.actions
    &&& new.encoding == old.encoding
    &&& new.attachment == old.attachment
    &&& new.title@ == (match header_val_spec(headers, title_names()) {
        Some(v) => v,
        None => old.title@,
    })
    &&& new.priority == (match header_val_spec(headers, priority_names()) {
        Some(v) => priority_of_lowercase(unicode_lowercase(v)),
        None => old.priority,
    })
    &&& string_views(new.tags@) == (match header_val_spec(headers, tags_names()) {
        Some(v) => tags_spec(v),
        None => string_views(old.tags@),
    })
    &&& new.click@ == (match header_val_spec(headers, click_names()) {
        Some(v) => v,
        None => old.click@,
    })
    &&& new.icon@ == (match header_val_spec(headers, icon_names()) {
        Some(v) => v,
        None => old.icon@,
    })
    &&& new.content_type@ == (if wants_markdown(headers) {
        "text/markdown"@
    } else {
        old.content_type@
    })
}

/// Set the metadata of `msg` from the publish request's headers.
pub fn apply_publish_headers(msg: &mut Message, headers: &[HeaderEntry])
    ensures
        with_header_metadata(*old(msg), *final(msg), headers@),
{
    let title_keys: [&str; 3] = ["x-title", "title", "t"];
    let priority_keys: [&str; 4] = ["x-priority", "priority", "prio", "p"];
    let tags_keys: [&str; 4] = ["x-tags", "tags", "tag", "ta"];
    let click_keys: [&str; 2] = ["x-click", "click"];
    let icon_keys: [&str; 2] = ["x-icon", "icon"];
    let markdown_keys: [&str; 3] = ["x-markdown", "markdown", "md"];
    let content_type_keys: [&str; 1] = ["content-type"];
    assert(title_keys@ =~= title_names());
    assert(priority_keys@ =~= priority_names());
    assert(tags_keys@ =~= tags_names());
    assert(click_keys@ =~= click_names());
    assert(icon_keys@ =~= icon_names());
    assert(markdown_keys@ =~= markdown_names());
    assert(content_type_keys@ =~= content_type_names());
    if let Some(v) = header_val(headers, &title_keys) {
        msg.title = v;
    }
    if let Some(v) = header_val(headers, &priority_keys) {
        msg.priority = parse_priority(v.as_str());
    }
    if let Some(v) = header_val(headers, &tags_keys) {
        msg.tags = parse_tags(v.as_str());
    }
    if let Some(v) = header_val(headers, &click_keys) {
        msg.click = v;
    }
    if let Some(v) = header_val(headers, &icon_keys) {
        msg.icon = v;
    }
    if let Some(v) = header_val(headers, &markdown_keys) {
        if is_truthy(v.as_str()) {
            msg.content_type = to_owned_string("text/markdown");
        }
    }
    if let Some(v) = header_val(headers, &content_type_keys) {
        let lower = to_lowercase(v.as_str());
        if contains(lower.as_str(), "text/markdown") {
            msg.content_type = to_owned_string("text/markdown");
        }
    }
}

/// Check a publish request before anything else: the topic must be valid
/// and the body no longer than the size limit.
pub fn check_publish(topic: &str, body_len: usize, message_size_limit: usize) -> (r: Result<
    (),
    AppError,
>)
    ensures
        !valid_topic_spec(topic@) ==> r == Err::<(), AppError>(AppError::TopicInvalid),
        valid_topic_spec(topic@) && body_len > message_size_limit ==> r == Err::<(), AppError>(
            AppError::MessageTooLarge,
        ),
        valid_topic_spec(topic@) && body_len <= message_size_limit ==> r is Ok,
{
    if !valid_topic(topic) {
        return Err(AppError::TopicInvalid);
    }
    if body_len > message_size_limit {
        return Err(AppError::MessageTooLarge);
    }
    Ok(())
}

/// The expiry of a message published at `now` and kept for
/// `cache_duration_secs`, in two's-complement `i64` arithmetic.
pub open spec fn expiry_at(now: i64, cache_duration_secs: u64) -> i64 {
    now.wrapping_add(cache_duration_secs as i64)
}

/// The expiry of a message published at `now` and kept for
/// `cache_duration_secs`, in two's-complement `i64` arithmetic.
pub fn message_expiry(now: i64, cache_duration_secs: u64) -> (e: i64)
    ensures
        e == expiry_at(now, cache_duration_secs),
{
    now.wrapping_add(cache_duration_secs as i64)
}

/// The message that publishing `body` to `topic` makes: a fresh message
/// (random id, current time) whose text is the body decoded as UTF-8 (invalid
/// sequences replaced), with the headers' metadata and the given expiry.
pub fn build_published_message(topic: &str, body: &[u8], headers: &[HeaderEntry], expires: i64) -> (m:
    Message)
    ensures
        exists|fresh: Message|
            {
                &&& fresh.is_fresh_event(EVENT_MESSAGE@, topic@, utf8_lossy(body@))
                &&& with_header_metadata(
                    Message { expires: m.expires, ..fresh },
                    m,
                    headers@,
                )
            },
        m.expires == Some(expires),
{
    let text = string_from_utf8_lossy(body);
    let mut msg = Message::new_message(topic, text);
    let ghost fresh = msg;
    msg.expires = Some(expires);
    let ghost stamped = msg;
    apply_publish_headers(&mut msg, headers);
    assert(stamped == Message { expires: msg.expires, ..fresh });
    msg
}

/// The message that publishing `body` to `topic` makes now: as
/// `build_published_message`, expiring `cache_duration_secs` after the
/// current time read from the clock.
pub fn new_published_message(
    topic: &str,
    body: &[u8],
    headers: &[HeaderEntry],
    cache_duration_secs: u64,
) -> (m: Message)
    ensures
        exists|fresh: Message|
            {
                &&& fresh.is_fresh_event(EVENT_MESSAGE@, topic@, utf8_lossy(body@))
                &&& with_header_metadata(
                    Message { expires: m.expires, ..fresh },
                    m,
                    headers@,
                )
            },
        exists|now: i64| m.expires == Some(#[trigger] expiry_at(now, cache_duration_secs)),
{
    let now: i64 = now_timestamp();
    let expires: i64 = message_expiry(now, cache_duration_secs);
    build_published_message(topic, body, headers, expires)
}

/// A Markdown flag that says yes makes the message Markdown whatever other
/// headers (a Content-Type among them) the request carries, and so does a
/// Content-Type that mentions `text/markdown`; with neither, the content type
/// is kept.
pub proof fn lemma_markdown_flag_wins(old: Message, new: Message, headers: Seq<HeaderEntry>)
    requires
        with_header_metadata(old, new, headers),
    ensures
        (header_val_spec(headers, markdown_names()) matches Some(v) && truthy_lowercase(
            unicode_lowercase(v),
        )) ==> new.content_type@ == "text/markdown"@,
        (header_val_spec(headers, content_type_names()) matches Some(v) && contains_spec(
            unicode_lowercase(v),
            "text/markdown"@,
        )) ==> new.content_type@ == "text/markdown"@,
        !(header_val_spec(headers, markdown_names()) matches Some(v) && truthy_lowercase(
            unicode_lowercase(v),
        )) && !(header_val_spec(headers, content_type_names()) matches Some(v) && contains_spec(
            unicode_lowercase(v),
            "text/markdown"@,
        )) ==> new.content_type@ == old.content_type@,
{
}

} // verus!

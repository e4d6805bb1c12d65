//! Notification messages and the rules for topic names and message ids.

use std::collections::HashMap;
use vstd::prelude::*;
use crate::text::{
    chars_of, is_ascii_alphanumeric, is_ascii_alphanumeric_char, join_spec, lemma_join_split,
    lemma_split_nonempty, split, split_spec, string_views, to_owned_string,
};
use rand::Rng;

verus! {

/// Length of a message id, in characters.
pub const MESSAGE_ID_LENGTH: usize = 12;

/// Longest topic name, in characters.
pub const MAX_TOPIC_LENGTH: usize = 64;

/// The topic name rule written as a regular expression.
pub const TOPIC_REGEX: &'static str = r"^[-_A-Za-z0-9]{1,64}$";

/// Event of the first line a subscriber receives.
pub const EVENT_OPEN: &'static str = "open";

/// Event of the lines that keep an idle stream alive.
pub const EVENT_KEEPALIVE: &'static str = "keepalive";

/// Event of a published notification.
pub const EVENT_MESSAGE: &'static str = "message";

/// A notification message, field for field the JSON object that ntfy clients read.
#[derive(Debug, Clone)]
pub struct Message {
    pub id: String,
    pub sequence_id: Option<String>,
    pub time: i64,
    pub expires: Option<i64>,
    pub event: String,
    pub topic: String,
    pub title: String,
    pub message: String,
    pub priority: i32,
    pub tags: Vec<String>,
    pub click: String,
    pub icon: String,
    pub actions: Vec<Action>,
    pub content_type: String,
    pub encoding: String,
    pub attachment: Option<Attachment>,
}

/// File attachment metadata included in a message.
#[derive(Debug, Clone)]
pub struct Attachment {
    pub name: String,
    /// MIME type of the attachment (written as "type" on the wire).
    pub content_type: String,
    pub size: u64,
    pub expires: i64,
    pub url: String,
}

/// An action button attached to a message.
#[derive(Debug, Clone)]
pub struct Action {
    pub id: String,
    pub action: String,
    pub label: String,
    pub url: Option<String>,
    pub method: Option<String>,
    /// Extra HTTP request headers (for `http` actions).
    pub headers: Option<HashMap<String, String>>,
    pub body: Option<String>,
    /// Android broadcast intent (for `broadcast` actions).
    pub intent: Option<String>,
    /// Android broadcast intent extras (for `broadcast` actions).
    pub extras: Option<HashMap<String, String>>,
    pub clear: bool,
}

/// A zero priority, which the wire format leaves out.
pub fn is_zero_i32(v: &i32) -> (b: bool)
    ensures
        b == (*v == 0),
{
    *v == 0
}

/// A zero size, which the wire format leaves out.
pub fn is_zero_u64(v: &u64) -> (b: bool)
    ensures
        b == (*v == 0),
{
    *v == 0
}

/// A zero expiry, which the wire format leaves out.
pub fn is_zero_i64(v: &i64) -> (b: bool)
    ensures
        b == (*v == 0),
{
    *v == 0
}

/// A character allowed in topic names.
pub open spec fn is_topic_char(c: char) -> bool {
    is_ascii_alphanumeric(c) || c == '-' || c == '_'
}

/// A topic name: 1 to 64 letters, digits, `-` or `_`.
pub open spec fn valid_topic_spec(t: Seq<char>) -> bool {
    1 <= t.len() <= MAX_TOPIC_LENGTH && forall|i: int| 0 <= i < t.len() ==> is_topic_char(
        #[trigger] t[i],
    )
}

/// A message id: exactly 12 ASCII letters or digits.
pub open spec fn valid_message_id_spec(id: Seq<char>) -> bool {
    id.len() == MESSAGE_ID_LENGTH && forall|i: int| 0 <= i < id.len() ==> is_ascii_alphanumeric(
        #[trigger] id[i],
    )
}

/// Every piece is a valid topic name.
pub open spec fn all_valid_topics(pieces: Seq<Seq<char>>) -> bool {
    forall|k: int| 0 <= k < pieces.len() ==> valid_topic_spec(#[trigger] pieces[k])
}

impl Message {
    /// An event of kind `event` on `topic` carrying `body`, with no sequence
    /// id or expiry and every optional field empty.
    pub open spec fn has_event_fields(self, event: Seq<char>, topic: Seq<char>, body: Seq<char>) -> bool {
        &&& self.sequence_id is None
        &&& self.expires is None
        &&& self.event@ == event
        &&& self.topic@ == topic
        &&& self.message@ == body
        &&& self.title@.len() == 0
        &&& self.priority == 0
        &&& self.tags@.len() == 0
        &&& self.click@.len() == 0
        &&& self.icon@.len() == 0
        &&& self.actions@.len() == 0
        &&& self.content_type@.len() == 0
        &&& self.encoding@.len() == 0
        &&& self.attachment is None
    }

    /// A fresh event of kind `event` on `topic` carrying `body`: a valid id,
    /// no sequence id or expiry, and every optional field empty.
    pub open spec fn is_fresh_event(self, event: Seq<char>, topic: Seq<char>, body: Seq<char>) -> bool {
        &&& valid_message_id_spec(self.id@)
        &&& self.has_event_fields(event, topic, body)
    }

    /// An event of kind `event` on `topic` carrying `body`, with id `id`,
    /// stamped with Unix time `time`.
    pub fn new_event_at(event: &str, topic: &str, body: String, id: String, time: i64) -> (m: Self)
        ensures
            m.id == id,
            m.time == time,
            m.has_event_fields(event@, topic@, body@),
    {
        Message {
            id,
            sequence_id: None,
            time,
            expires: None,
            event: to_owned_string(event),
            topic: to_owned_string(topic),
            message: body,
            title: String::new(),
            priority: 0,
            tags: Vec::new(),
            click: String::new(),
            icon: String::new(),
            actions: Vec::new(),
            content_type: String::new(),
            encoding: String::new(),
            attachment: None,
        }
    }

    /// An event of the given kind, stamped with a fresh id and the current
    /// time read from the clock.
    fn new_event(event: &str, topic: &str, body: String) -> (m: Self)
        ensures
            m.is_fresh_event(event@, topic@, body@),
    {
        let id = generate_id();
        let time: i64 = now_timestamp();
        Self::new_event_at(event, topic, body, id, time)
    }

    /// A published notification on `topic` with text `body`.
    pub fn new_message(topic: &str, body: String) -> (m: Self)
        ensures
            m.is_fresh_event(EVENT_MESSAGE@, topic@, body@),
    {
        Self::new_event(EVENT_MESSAGE, topic, body)
    }

    /// The event that opens a subscription stream on `topic`.
    pub fn new_open(topic: &str) -> (m: Self)
        ensures
            m.is_fresh_event(EVENT_OPEN@, topic@, Seq::<char>::empty()),
    {
        Self::new_event(EVENT_OPEN, topic, String::new())
    }

    /// The event that keeps an idle subscription stream on `topic` alive.
    pub fn new_keepalive(topic: &str) -> (m: Self)
        ensures
            m.is_fresh_event(EVENT_KEEPALIVE@, topic@, Seq::<char>::empty()),
    {
        Self::new_event(EVENT_KEEPALIVE, topic, String::new())
    }
}

/// `rand`'s `Alphanumeric` distribution sampled with the thread-local
/// generator: a byte drawn from the ASCII letters and digits.
#[verifier::external_body]
fn sample_alphanumeric() -> (b: u8)
    ensures
        is_ascii_alphanumeric(b as char),
{
    rand::thread_rng().sample(rand::distributions::Alphanumeric)
}

/// `chrono::Utc::now().timestamp()`: the current Unix time in seconds. Nothing
/// is promised of its value.
#[verifier::external_body]
pub(crate) fn now_timestamp() -> (t: i64) {
    chrono::Utc::now().timestamp()
}

/// The characters that the bytes `samples` stand for, one per byte.
pub open spec fn chars_of_bytes(samples: Seq<u8>) -> Seq<char> {
    samples.map_values(|b: u8| b as char)
}

/// The text whose characters are the bytes `samples`, one per byte.
pub fn id_from_samples(samples: &[u8]) -> (id: String)
    ensures
        id@ == chars_of_bytes(samples@),
{
    let mut id = String::new();
    let mut i: usize = 0;
    while i < samples.len()
        invariant
            i <= samples.len(),
            id@ == chars_of_bytes(samples@.take(i as int)),
        decreases samples.len() - i,
    {
        id.push(samples[i] as char);
        i = i + 1;
        assert(id@ =~= chars_of_bytes(samples@.take(i as int)));
    }
    assert(samples@.take(samples.len() as int) =~= samples@);
    id
}

/// A random message id: 12 ASCII letters or digits, each drawn at random.
pub fn generate_id() -> (id: String)
    ensures
        valid_message_id_spec(id@),
        exists|samples: Seq<u8>|
            samples.len() == MESSAGE_ID_LENGTH && (forall|k: int|
                0 <= k < samples.len() ==> is_ascii_alphanumeric(#[trigger] samples[k] as char))
                && id@ == #[trigger] chars_of_bytes(samples),
{
    let mut samples: Vec<u8> = Vec::new();
    let mut i: usize = 0;
    while i < MESSAGE_ID_LENGTH
        invariant
            i <= MESSAGE_ID_LENGTH,
            samples@.len() == i,
            forall|k: int| 0 <= k < i ==> is_ascii_alphanumeric(#[trigger] samples@[k] as char),
        decreases MESSAGE_ID_LENGTH - i,
    {
        let b: u8 = sample_alphanumeric();
        samples.push(b);
        i = i + 1;
    }
    let id = id_from_samples(samples.as_slice());
    assert forall|k: int| 0 <= k < id@.len() implies is_ascii_alphanumeric(#[trigger] id@[k]) by {
        assert(id@[k] == samples@[k] as char);
    }
    id
}

/// Whether `id` is a message id: exactly 12 ASCII letters or digits.
pub fn valid_message_id(id: &str) -> (b: bool)
    ensures
        b == valid_message_id_spec(id@),
{
    let v = chars_of(id);
    if v.len() != MESSAGE_ID_LENGTH {
        return false;
    }
    let mut i: usize = 0;
    while i < v.len()
        invariant
            v@ == id@,
            i <= v.len(),
            forall|k: int| 0 <= k < i ==> is_ascii_alphanumeric(#[trigger] v@[k]),
        decreases v.len() - i,
    {
        if !is_ascii_alphanumeric_char(v[i]) {
            return false;
        }
        i = i + 1;
    }
    true
}

/// Whether `topic` is a topic name: 1 to 64 letters, digits, `-` or `_`.
pub fn valid_topic(topic: &str) -> (b: bool)
    ensures
        b == valid_topic_spec(topic@),
{
    let v = chars_of(topic);
    if v.len() == 0 || v.len() > MAX_TOPIC_LENGTH {
        return false;
    }
    let mut i: usize = 0;
    while i < v.len()
        invariant
            v@ == topic@,
            i <= v.len(),
            forall|k: int| 0 <= k < i ==> is_topic_char(#[trigger] v@[k]),
        decreases v.len() - i,
    {
        let c = v[i];
        if !(is_ascii_alphanumeric_char(c) || c == '-' || c == '_') {
            return false;
        }
        i = i + 1;
    }
    true
}

/// The comma-separated topic names of `raw`, if every one of them is valid.
pub fn parse_topics(raw: &str) -> (r: Option<Vec<String>>)
    ensures
        r is Some <==> all_valid_topics(split_spec(raw@, ',')),
        r matches Some(v) ==> string_views(v@) == split_spec(raw@, ','),
{
    let topics = split(raw, ',');
    let mut i: usize = 0;
    while i < topics.len()
        invariant
            string_views(topics@) == split_spec(raw@, ','),
            i <= topics.len(),
            forall|k: int| 0 <= k < i ==> valid_topic_spec(#[trigger] topics@[k]@),
        decreases topics.len() - i,
    {
        if !valid_topic(topics[i].as_str()) {
            assert(split_spec(raw@, ',')[i as int] == topics@[i as int]@);
            return None;
        }
        i = i + 1;
    }
    assert forall|k: int| 0 <= k < split_spec(raw@, ',').len() implies valid_topic_spec(
        #[trigger] split_spec(raw@, ',')[k],
    ) by {
        assert(split_spec(raw@, ',')[k] == topics@[k]@);
    }
    Some(topics)
}

/// Whatever `parse_topics` accepts is a non-empty list of valid topic names
/// that, joined with commas, gives back the text it was parsed from.
pub proof fn lemma_parse_topics_round_trip(raw: Seq<char>)
    requires
        all_valid_topics(split_spec(raw, ',')),
    ensures
        split_spec(raw, ',').len() >= 1,
        join_spec(split_spec(raw, ','), ',') == raw,
        raw.len() >= 1,
{
    lemma_split_nonempty(raw, ',');
    lemma_join_split(raw, ',');
    if raw.len() == 0 {
        assert(split_spec(raw, ',')[0].len() == 0);
        assert(!valid_topic_spec(split_spec(raw, ',')[0]));
    }
}

/// A topic name is exactly a text of 1 to 64 characters, each an ASCII
/// capital or small letter, a digit, `-` or `_`.
pub proof fn lemma_topic_names_are_the_topic_alphabet(t: Seq<char>)
    ensures
        valid_topic_spec(t) <==> (1 <= t.len() <= 64 && forall|i: int|
            0 <= i < t.len() ==> ({
                let c = #[trigger] t[i];
                ||| 'A' <= c <= 'Z'
                ||| 'a' <= c <= 'z'
                ||| '0' <= c <= '9'
                ||| c == '-'
                ||| c == '_'
            })),
{
}

/// A message id is exactly a text of 12 characters, each an ASCII capital or
/// small letter or a digit.
pub proof fn lemma_message_ids_are_twelve_alphanumerics(id: Seq<char>)
    ensures
        valid_message_id_spec(id) <==> (id.len() == 12 && forall|i: int|
            0 <= i < id.len() ==> ({
                let c = #[trigger] id[i];
                ||| 'A' <= c <= 'Z'
                ||| 'a' <= c <= 'z'
                ||| '0' <= c <= '9'
            })),
{
}

} // verus!

//! The publish side: topics and payloads of records, and a client that
//! queues them on a broker connection.
use vstd::prelude::*;

use crate::level::{level_name, LogLevel};
use crate::record::{LogItem, Timestamp};

verus! {

#[verifier::external_type_specification]
#[verifier::external_body]
pub struct ExClient(rumqttc::Client);

#[verifier::external_type_specification]
#[verifier::external_body]
pub struct ExClientError(rumqttc::ClientError);

/// The topic of a record: `base/hostname/unit/level`.
pub open spec fn topic_of(base: Seq<char>, hostname: Seq<char>, unit: Seq<char>, level: LogLevel) -> Seq<
    char,
> {
    base + seq!['/'] + hostname + seq!['/'] + unit + seq!['/'] + level_name(level)
}

/// The payload timestamp: microseconds since the epoch, or 0 before it.
pub open spec fn payload_micros(t: Timestamp) -> nat {
    if t.micros >= 0 {
        t.micros as nat
    } else {
        0
    }
}

pub open spec fn digit_char(d: nat) -> char {
    if d == 0 {
        '0'
    } else if d == 1 {
        '1'
    } else if d == 2 {
        '2'
    } else if d == 3 {
        '3'
    } else if d == 4 {
        '4'
    } else if d == 5 {
        '5'
    } else if d == 6 {
        '6'
    } else if d == 7 {
        '7'
    } else if d == 8 {
        '8'
    } else {
        '9'
    }
}

/// The decimal numeral of a natural number, without sign or leading zeros.
pub open spec fn decimal_digits(n: nat) -> Seq<char>
    decreases n,
{
    if n < 10 {
        seq![digit_char(n)]
    } else {
        decimal_digits(n / 10).push(digit_char(n % 10))
    }
}

/// What serde_json writes for a string: a quoted, escaped JSON string literal.
pub uninterp spec fn json_string_of(s: Seq<char>) -> Seq<char>;

/// The payload of a record: a JSON object with its message and timestamp.
pub open spec fn payload_of(message: Seq<char>, micros: nat) -> Seq<char> {
    "{\"message\":"@ + json_string_of(message) + ",\"timestamp\":"@ + decimal_digits(micros) + "}"@
}

pub open spec fn has_wildcard(topic: Seq<char>) -> bool {
    exists|i: int| 0 <= i < topic.len() && (topic[i] == '+' || topic[i] == '#')
}

/// Relies on serde_json::to_string on a `str`: it writes the JSON string
/// literal for it into a vector, a write that cannot fail.
#[verifier::external_body]
fn json_string(s: &str) -> (r: String)
    ensures
        r@ == json_string_of(s@),
{
    serde_json::to_string(s).expect("writing a JSON string into memory does not fail")
}

/// Relies on rumqttc::Client::publish: it queues an at-least-once, non-retained
/// publish on the client's request channel, and refuses a topic with a `+` or `#`.
#[verifier::external_body]
fn publish_at_least_once(client: &rumqttc::Client, topic: String, payload: String) -> (r: Result<
    (),
    rumqttc::ClientError,
>)
    ensures
        has_wildcard(topic@) ==> r is Err,
{
    client.publish(topic, rumqttc::QoS::AtLeastOnce, false, payload)
}

fn digit_str(d: u128) -> (r: &'static str)
    requires
        d < 10,
    ensures
        r@ == seq![digit_char(d as nat)],
{
    proof {
        reveal_strlit("0");
        reveal_strlit("1");
        reveal_strlit("2");
        reveal_strlit("3");
        reveal_strlit("4");
        reveal_strlit("5");
        reveal_strlit("6");
        reveal_strlit("7");
        reveal_strlit("8");
        reveal_strlit("9");
    }
    if d == 0 {
        "0"
    } else if d == 1 {
        "1"
    } else if d == 2 {
        "2"
    } else if d == 3 {
        "3"
    } else if d == 4 {
        "4"
    } else if d == 5 {
        "5"
    } else if d == 6 {
        "6"
    } else if d == 7 {
        "7"
    } else if d == 8 {
        "8"
    } else {
        "9"
    }
}

/// Appends the decimal numeral of `n`.
fn append_decimal(r: &mut String, n: u128)
    ensures
        final(r)@ == old(r)@ + decimal_digits(n as nat),
    decreases n,
{
    if n >= 10 {
        append_decimal(r, n / 10);
    }
    r.append(digit_str(n % 10));
    proof {
        if n >= 10 {
            assert(final(r)@ =~= old(r)@ + decimal_digits(n as nat));
        } else {
            assert(final(r)@ =~= old(r)@ + decimal_digits(n as nat));
        }
    }
}

/// The timestamp that a payload carries for a record time.
pub fn payload_timestamp(t: Timestamp) -> (r: u128)
    ensures
        r == payload_micros(t),
{
    if t.micros >= 0 {
        t.micros as u128
    } else {
        0
    }
}

/// The topic under which a record is published.
pub fn topic_for(base_topic: &str, item: &LogItem) -> (r: String)
    ensures
        r@ == topic_of(base_topic@, item.hostname@, item.unit@, item.level),
{
    proof {
        reveal_strlit("/");
    }
    let mut r = String::from_str(base_topic);
    r.append("/");
    r.append(item.hostname.as_str());
    r.append("/");
    r.append(item.unit.as_str());
    r.append("/");
    r.append(item.level.as_ref());
    r
}

/// The payload of a record: `{"message":...,"timestamp":...}`.
pub fn payload_for(item: &LogItem) -> (r: String)
    ensures
        r@ == payload_of(item.message@, payload_micros(item.timestamp)),
{
    let mut r = String::from_str("{\"message\":");
    let message = json_string(item.message.as_str());
    r.append(message.as_str());
    r.append(",\"timestamp\":");
    append_decimal(&mut r, payload_timestamp(item.timestamp));
    r.append("}");
    r
}

/// Why a record could not be handed to the broker connection.
#[derive(Debug)]
pub enum PushError {
    /// The client refused the publish or its connection is gone.
    Enqueue(rumqttc::ClientError),
}

/// A broker client that publishes records under a base topic.
pub struct LogqttClient {
    client: rumqttc::Client,
    base_topic: String,
    requests: Ghost<Seq<(Seq<char>, Seq<char>)>>,
}

impl LogqttClient {
    /// The base topic under which records are published.
    pub closed spec fn base(&self) -> Seq<char> {
        self.base_topic@
    }

    /// The (topic, payload) pairs handed to the connection so far, in order.
    pub closed spec fn publish_requests(&self) -> Seq<(Seq<char>, Seq<char>)> {
        self.requests@
    }

    pub fn new(client: rumqttc::Client, base_topic: String) -> (r: Self)
        ensures
            r.base() == base_topic@,
            r.publish_requests() == Seq::<(Seq<char>, Seq<char>)>::empty(),
    {
        LogqttClient { client, base_topic, requests: Ghost(Seq::empty()) }
    }

    /// Hands a record to the broker connection: its topic, and its payload,
    /// at least once and not retained. Does not wait for the broker.
    pub fn push(&mut self, log_item: LogItem) -> (r: Result<(), PushError>)
        ensures
            final(self).base() == old(self).base(),
            final(self).publish_requests() == old(self).publish_requests().push(
                (
                    topic_of(old(self).base(), log_item.hostname@, log_item.unit@, log_item.level),
                    payload_of(log_item.message@, payload_micros(log_item.timestamp)),
                ),
            ),
            has_wildcard(
                topic_of(old(self).base(), log_item.hostname@, log_item.unit@, log_item.level),
            ) ==> r is Err,
    {
        let topic = topic_for(self.base_topic.as_str(), &log_item);
        let payload = payload_for(&log_item);
        self.requests = Ghost(self.requests@.push((topic@, payload@)));
        match publish_at_least_once(&self.client, topic, payload) {
            Ok(()) => Ok(()),
            Err(e) => Err(PushError::Enqueue(e)),
        }
    }
}

/// Topics are built from their parts alone, and records that differ only in
/// severity go to different topics, whose last segment is the severity's
/// lowercase name.
pub proof fn lemma_topic_injective_in_level(
    base: Seq<char>,
    hostname: Seq<char>,
    unit: Seq<char>,
    a: LogLevel,
    b: LogLevel,
)
    ensures
        a != b ==> topic_of(base, hostname, unit, a) != topic_of(base, hostname, unit, b),
        topic_of(base, hostname, unit, a).subrange(
            topic_of(base, hostname, unit, a).len() - level_name(a).len(),
            topic_of(base, hostname, unit, a).len() as int,
        ) == level_name(a),
        forall|i: int|
            0 <= i < level_name(a).len() ==> 'a' <= #[trigger] level_name(a)[i] <= 'z',
{
    crate::level::lemma_level_names_lowercase_and_distinct(a, b);
    let prefix = base + seq!['/'] + hostname + seq!['/'] + unit + seq!['/'];
    assert(topic_of(base, hostname, unit, a) == prefix + level_name(a));
    assert(topic_of(base, hostname, unit, b) == prefix + level_name(b));
    assert((prefix + level_name(a)).subrange(prefix.len() as int, (prefix + level_name(a)).len() as int)
        =~= level_name(a));
    assert((prefix + level_name(b)).subrange(prefix.len() as int, (prefix + level_name(b)).len() as int)
        =~= level_name(b));
}

/// A record dated before the epoch is published with timestamp 0: the numeral
/// `0`, with no sign.
pub proof fn lemma_pre_epoch_payload_timestamp_is_zero(message: Seq<char>, t: Timestamp)
    requires
        t.micros < 0,
    ensures
        payload_micros(t) == 0,
        decimal_digits(payload_micros(t)) == seq!['0'],
        payload_of(message, payload_micros(t)) == "{\"message\":"@ + json_string_of(message)
            + ",\"timestamp\":"@ + seq!['0'] + "}"@,
{
}

} // verus!

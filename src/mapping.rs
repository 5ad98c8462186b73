//! Mapping of a raw log entry, a list of key/value pairs, to a normalized record.
use vstd::prelude::*;

use crate::level::{level_of_rank, systemd_priority_rankings, LogLevel};
use crate::record::{LogItem, LogItemView, Timestamp};

verus! {

pub open spec fn is_digit(c: char) -> bool {
    '0' <= c && c <= '9'
}

/// The value of a string of decimal digits.
pub open spec fn digits_value(s: Seq<char>) -> nat
    decreases s.len(),
{
    if s.len() == 0 {
        0
    } else {
        digits_value(s.drop_last()) * 10 + ((s.last() as u32 - '0' as u32) as nat)
    }
}

/// The digits of an unsigned decimal numeral: what follows an optional `+`.
pub open spec fn unsigned_digits(s: Seq<char>) -> Seq<char> {
    if s.len() > 0 && s[0] == '+' {
        s.drop_first()
    } else {
        s
    }
}

/// The 64-bit unsigned integer that a text spells in decimal, if any.
pub open spec fn parsed_u64(s: Seq<char>) -> Option<u64> {
    let d = unsigned_digits(s);
    if d.len() > 0 && (forall|i: int| 0 <= i < d.len() ==> is_digit(#[trigger] d[i])) && digits_value(
        d,
    ) <= u64::MAX {
        Some(digits_value(d) as u64)
    } else {
        None
    }
}

/// Relies on `str::parse::<u64>`: it accepts an optional `+` followed by one or
/// more decimal digits whose value fits in 64 bits, and returns that value.
#[verifier::external_body]
fn parse_u64(s: &str) -> (r: Option<u64>)
    ensures
        r == parsed_u64(s@),
{
    s.parse::<u64>().ok()
}

pub open spec fn message_key() -> Seq<char> {
    "MESSAGE"@
}

pub open spec fn priority_key() -> Seq<char> {
    "PRIORITY"@
}

pub open spec fn unit_key() -> Seq<char> {
    "_SYSTEMD_UNIT"@
}

pub open spec fn timestamp_key() -> Seq<char> {
    "_SOURCE_REALTIME_TIMESTAMP"@
}

pub open spec fn hostname_key() -> Seq<char> {
    "_HOSTNAME"@
}

/// The unit of a record whose entry names none.
pub open spec fn unknown_unit() -> Seq<char> {
    "unknown"@
}

/// The value of the last pair of the entry with the given key, if any.
pub open spec fn lookup(e: Seq<(String, String)>, key: Seq<char>) -> Option<Seq<char>>
    decreases e.len(),
{
    if e.len() == 0 {
        None
    } else if e.last().0@ == key {
        Some(e.last().1@)
    } else {
        lookup(e.drop_last(), key)
    }
}

/// A priority text is valid when it spells a rank from 0 to 7.
pub open spec fn valid_priority(v: Seq<char>) -> bool {
    parsed_u64(v) is Some && parsed_u64(v)->0 < 8
}

pub open spec fn level_of_text(v: Seq<char>) -> LogLevel {
    level_of_rank(parsed_u64(v)->0 as int)
}

pub open spec fn timestamp_of_text(v: Seq<char>) -> Timestamp {
    Timestamp { micros: parsed_u64(v)->0 as i128 }
}

/// A pair whose value is malformed for its key.
pub open spec fn malformed_pair(p: (String, String)) -> bool {
    (p.0@ == priority_key() && !valid_priority(p.1@)) || (p.0@ == timestamp_key() && parsed_u64(
        p.1@,
    ) is None)
}

/// An entry that cannot be mapped: a malformed value, or a missing hostname,
/// priority or message.
pub open spec fn entry_rejected(e: Seq<(String, String)>) -> bool {
    (exists|i: int| 0 <= i < e.len() && malformed_pair(#[trigger] e[i])) || lookup(e, hostname_key())
        is None || lookup(e, priority_key()) is None || lookup(e, message_key()) is None
}

/// The record that an entry maps to, when `now` is the time of mapping.
pub open spec fn mapped_item(e: Seq<(String, String)>, now: Timestamp) -> LogItemView {
    LogItemView {
        hostname: lookup(e, hostname_key())->0,
        unit: match lookup(e, unit_key()) {
            Some(u) => u,
            None => unknown_unit(),
        },
        timestamp: match lookup(e, timestamp_key()) {
            Some(t) => timestamp_of_text(t),
            None => now,
        },
        level: level_of_text(lookup(e, priority_key())->0),
        message: lookup(e, message_key())->0,
    }
}

pub open spec fn opt_view(o: Option<String>) -> Option<Seq<char>> {
    match o {
        Some(s) => Some(s@),
        None => None,
    }
}

proof fn lemma_lookup_extend(e: Seq<(String, String)>, i: int, key: Seq<char>)
    requires
        0 <= i < e.len(),
    ensures
        lookup(e.subrange(0, i + 1), key) == if e[i].0@ == key {
            Some(e[i].1@)
        } else {
            lookup(e.subrange(0, i), key)
        },
{
    assert(e.subrange(0, i + 1).drop_last() =~= e.subrange(0, i));
}

proof fn lemma_keys_distinct()
    ensures
        message_key() != priority_key(),
        message_key() != unit_key(),
        message_key() != timestamp_key(),
        message_key() != hostname_key(),
        priority_key() != unit_key(),
        priority_key() != timestamp_key(),
        priority_key() != hostname_key(),
        unit_key() != timestamp_key(),
        unit_key() != hostname_key(),
        timestamp_key() != hostname_key(),
{
    reveal_strlit("MESSAGE");
    reveal_strlit("PRIORITY");
    reveal_strlit("_SYSTEMD_UNIT");
    reveal_strlit("_SOURCE_REALTIME_TIMESTAMP");
    reveal_strlit("_HOSTNAME");
    assert(message_key()[0] != priority_key()[0]);
    assert(message_key().len() != unit_key().len());
    assert(message_key().len() != timestamp_key().len());
    assert(message_key().len() != hostname_key().len());
    assert(priority_key().len() != unit_key().len());
    assert(priority_key().len() != timestamp_key().len());
    assert(priority_key()[0] != hostname_key()[0]);
    assert(unit_key().len() != timestamp_key().len());
    assert(unit_key().len() != hostname_key().len());
    assert(timestamp_key().len() != hostname_key().len());
}

/// A message made of a fixed description followed by the offending value.
fn context_with(description: &str, value: &String) -> (r: String)
    requires
        description@.len() > 0,
    ensures
        r@ == description@ + value@,
        r@.len() > 0,
{
    let mut r = String::from_str(description);
    r.append(value.as_str());
    r
}

/// Maps a raw entry to a record. Pairs with other keys are ignored; where a
/// key occurs more than once, its last pair counts. The unit defaults to
/// `"unknown"` and the timestamp to `now`.
pub fn entry_to_log_item(entry: Vec<(String, String)>, now: Timestamp) -> (r: Result<
    LogItem,
    String,
>)
    ensures
        match r {
            Ok(item) => !entry_rejected(entry@) && item@ == mapped_item(entry@, now),
            Err(context) => entry_rejected(entry@) && context@.len() > 0,
        },
        lookup(entry@, hostname_key()) is None || lookup(entry@, message_key()) is None || lookup(
            entry@,
            priority_key(),
        ) is None ==> r is Err,
        (exists|i: int|
            0 <= i < entry@.len() && entry@[i].0@ == priority_key() && !valid_priority(
                #[trigger] entry@[i].1@,
            )) ==> r is Err,
        r is Ok && lookup(entry@, unit_key()) is None ==> r->Ok_0.unit@ == unknown_unit(),
        r is Ok && lookup(entry@, timestamp_key()) is None ==> r->Ok_0.timestamp == now,
{
    proof {
        lemma_keys_distinct();
        reveal_strlit("missing hostname field from journal entry");
        reveal_strlit("missing priority field from journal entry");
        reveal_strlit("missing message field from journal entry");
    }
    let rankings = systemd_priority_rankings();
    let message_name = String::from_str("MESSAGE");
    let priority_name = String::from_str("PRIORITY");
    let unit_name = String::from_str("_SYSTEMD_UNIT");
    let timestamp_name = String::from_str("_SOURCE_REALTIME_TIMESTAMP");
    let hostname_name = String::from_str("_HOSTNAME");
    let mut hostname: Option<String> = None;
    let mut unit: Option<String> = None;
    let mut message: Option<String> = None;
    let mut timestamp: Option<Timestamp> = None;
    let mut priority: Option<LogLevel> = None;
    let mut i: usize = 0;
    while i < entry.len()
        invariant
            0 <= i <= entry@.len(),
            rankings@.len() == 8,
            forall|j: int| 0 <= j < 8 ==> #[trigger] rankings@[j] == level_of_rank(j),
            message_name@ == message_key(),
            priority_name@ == priority_key(),
            unit_name@ == unit_key(),
            timestamp_name@ == timestamp_key(),
            hostname_name@ == hostname_key(),
            forall|j: int| 0 <= j < i ==> !malformed_pair(#[trigger] entry@[j]),
            opt_view(hostname) == lookup(entry@.subrange(0, i as int), hostname_key()),
            opt_view(unit) == lookup(entry@.subrange(0, i as int), unit_key()),
            opt_view(message) == lookup(entry@.subrange(0, i as int), message_key()),
            match lookup(entry@.subrange(0, i as int), priority_key()) {
                Some(v) => valid_priority(v) && priority == Some(level_of_text(v)),
                None => priority is None,
            },
            match lookup(entry@.subrange(0, i as int), timestamp_key()) {
                Some(v) => parsed_u64(v) is Some && timestamp == Some(timestamp_of_text(v)),
                None => timestamp is None,
            },
        decreases entry@.len() - i,
    {
        let k = &entry[i].0;
        let v = &entry[i].1;
        proof {
            lemma_keys_distinct();
            lemma_lookup_extend(entry@, i as int, hostname_key());
            lemma_lookup_extend(entry@, i as int, unit_key());
            lemma_lookup_extend(entry@, i as int, message_key());
            lemma_lookup_extend(entry@, i as int, priority_key());
            lemma_lookup_extend(entry@, i as int, timestamp_key());
        }
        if *k == message_name {
            message = Some(v.clone());
        } else if *k == priority_name {
            let rank = match parse_u64(v.as_str()) {
                Some(n) => n,
                None => {
                    assert(malformed_pair(entry@[i as int]));
                    proof {
                        reveal_strlit("failed to parse priority: ");
                    }
                    return Err(context_with("failed to parse priority: ", v));
                },
            };
            if rank >= 8 {
                assert(malformed_pair(entry@[i as int]));
                proof {
                        reveal_strlit("invalid journal entry priority: ");
                    }
                    return Err(context_with("invalid journal entry priority: ", v));
            }
            priority = Some(rankings[rank as usize]);
        } else if *k == unit_name {
            unit = Some(v.clone());
        } else if *k == timestamp_name {
            let micros = match parse_u64(v.as_str()) {
                Some(n) => n,
                None => {
                    assert(malformed_pair(entry@[i as int]));
                    proof {
                        reveal_strlit("failed to parse timestamp: ");
                    }
                    return Err(context_with("failed to parse timestamp: ", v));
                },
            };
            timestamp = Some(Timestamp { micros: micros as i128 });
        } else if *k == hostname_name {
            hostname = Some(v.clone());
        }
        i = i + 1;
    }
    proof {
        assert(entry@.subrange(0, entry@.len() as int) =~= entry@);
    }
    let hostname = match hostname {
        Some(h) => h,
        None => {
            return Err(String::from_str("missing hostname field from journal entry"));
        },
    };
    let level = match priority {
        Some(p) => p,
        None => {
            return Err(String::from_str("missing priority field from journal entry"));
        },
    };
    let message = match message {
        Some(m) => m,
        None => {
            return Err(String::from_str("missing message field from journal entry"));
        },
    };
    let unit = match unit {
        Some(u) => u,
        None => String::from_str("unknown"),
    };
    let timestamp = match timestamp {
        Some(t) => t,
        None => now,
    };
    Ok(LogItem { hostname, unit, timestamp, level, message })
}

} // verus!

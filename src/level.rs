use vstd::prelude::*;

verus! {

/// The eight severities of a log record, from most to least severe.
#[derive(Clone, Copy, Debug, PartialEq, Eq, Structural)]
pub enum LogLevel {
    Emergency,
    Alert,
    Critical,
    Error,
    Warning,
    Notice,
    Info,
    Debug,
}

/// The severity that a raw priority rank stands for (0 is the most severe).
pub open spec fn level_of_rank(rank: int) -> LogLevel
    recommends
        0 <= rank < 8,
{
    if rank == 0 {
        LogLevel::Emergency
    } else if rank == 1 {
        LogLevel::Alert
    } else if rank == 2 {
        LogLevel::Critical
    } else if rank == 3 {
        LogLevel::Error
    } else if rank == 4 {
        LogLevel::Warning
    } else if rank == 5 {
        LogLevel::Notice
    } else if rank == 6 {
        LogLevel::Info
    } else {
        LogLevel::Debug
    }
}

/// The rank of a severity: the inverse of `level_of_rank`.
pub open spec fn rank_of_level(level: LogLevel) -> int {
    match level {
        LogLevel::Emergency => 0,
        LogLevel::Alert => 1,
        LogLevel::Critical => 2,
        LogLevel::Error => 3,
        LogLevel::Warning => 4,
        LogLevel::Notice => 5,
        LogLevel::Info => 6,
        LogLevel::Debug => 7,
    }
}

/// The lowercase English name of a severity.
pub open spec fn level_name(level: LogLevel) -> Seq<char> {
    match level {
        LogLevel::Emergency => seq!['e', 'm', 'e', 'r', 'g', 'e', 'n', 'c', 'y'],
        LogLevel::Alert => seq!['a', 'l', 'e', 'r', 't'],
        LogLevel::Critical => seq!['c', 'r', 'i', 't', 'i', 'c', 'a', 'l'],
        LogLevel::Error => seq!['e', 'r', 'r', 'o', 'r'],
        LogLevel::Warning => seq!['w', 'a', 'r', 'n', 'i', 'n', 'g'],
        LogLevel::Notice => seq!['n', 'o', 't', 'i', 'c', 'e'],
        LogLevel::Info => seq!['i', 'n', 'f', 'o'],
        LogLevel::Debug => seq!['d', 'e', 'b', 'u', 'g'],
    }
}

/// The ordinal table from raw priority ranks to severities, indexed by rank.
pub fn systemd_priority_rankings() -> (r: Vec<LogLevel>)
    ensures
        r@.len() == 8,
        forall|i: int| 0 <= i < 8 ==> #[trigger] r@[i] == level_of_rank(i),
{
    vec![
        LogLevel::Emergency,
        LogLevel::Alert,
        LogLevel::Critical,
        LogLevel::Error,
        LogLevel::Warning,
        LogLevel::Notice,
        LogLevel::Info,
        LogLevel::Debug,
    ]
}

/// Every rank from 0 to 7 names one severity, every severity has one rank,
/// and no two ranks name the same severity.
pub proof fn lemma_rank_table_is_bijection()
    ensures
        forall|r: int| 0 <= r < 8 ==> rank_of_level(#[trigger] level_of_rank(r)) == r,
        forall|l: LogLevel| level_of_rank(#[trigger] rank_of_level(l)) == l,
        forall|l: LogLevel| 0 <= #[trigger] rank_of_level(l) < 8,
        forall|r1: int, r2: int|
            0 <= r1 < 8 && 0 <= r2 < 8 && #[trigger] level_of_rank(r1) == #[trigger] level_of_rank(r2)
                ==> r1 == r2,
{
    assert forall|r1: int, r2: int|
        0 <= r1 < 8 && 0 <= r2 < 8 && #[trigger] level_of_rank(r1) == #[trigger] level_of_rank(r2)
        implies r1 == r2 by {
        assert(rank_of_level(level_of_rank(r1)) == r1);
        assert(rank_of_level(level_of_rank(r2)) == r2);
    }
}

impl LogLevel {
    /// The lowercase English name of this severity, as used in topics.
    pub fn as_ref(&self) -> (r: &'static str)
        ensures
            r@ == level_name(*self),
    {
        proof {
            reveal_strlit("emergency");
            reveal_strlit("alert");
            reveal_strlit("critical");
            reveal_strlit("error");
            reveal_strlit("warning");
            reveal_strlit("notice");
            reveal_strlit("info");
            reveal_strlit("debug");
        }
        match self {
            LogLevel::Emergency => "emergency",
            LogLevel::Alert => "alert",
            LogLevel::Critical => "critical",
            LogLevel::Error => "error",
            LogLevel::Warning => "warning",
            LogLevel::Notice => "notice",
            LogLevel::Info => "info",
            LogLevel::Debug => "debug",
        }
    }
}

impl AsRef<str> for LogLevel {
    fn as_ref(&self) -> &str {
        LogLevel::as_ref(self)
    }
}

/// Severity names are made of lowercase ASCII letters only, and two different
/// severities have different names.
pub proof fn lemma_level_names_lowercase_and_distinct(a: LogLevel, b: LogLevel)
    ensures
        forall|i: int| 0 <= i < level_name(a).len() ==> 'a' <= #[trigger] level_name(a)[i] <= 'z',
        level_name(a).len() > 0,
        a != b ==> level_name(a) != level_name(b),
{
    if a != b {
        if level_name(a) == level_name(b) {
            assert(level_name(a).len() == level_name(b).len());
            assert(level_name(a)[0] == level_name(b)[0]);
            assert(level_name(a)[1] == level_name(b)[1]);
        }
    }
}

} // verus!

//! The severity level and its resolution from the environment value.

use vstd::prelude::*;
use vstd::std_specs::cmp::PartialOrdSpec;

verus! {

/// Severity level controlling how much output is emitted.
/// The three variants are totally ordered: `Error < Info < Debug`.
#[derive(Clone, Copy, PartialEq, Eq, Structural, Debug)]
pub enum LogLevel {
    Error,
    Info,
    Debug,
}

impl LogLevel {
    /// Rank of a level in the total order: `Error` is 0, `Info` is 1, `Debug` is 2.
    pub open spec fn rank(self) -> nat {
        match self {
            LogLevel::Error => 0,
            LogLevel::Info => 1,
            LogLevel::Debug => 2,
        }
    }
}

impl LogLevel {
    /// Rank of a level as a machine integer, for comparisons.
    fn rank_index(self) -> (r: u8)
        ensures
            r as nat == self.rank(),
    {
        match self {
            LogLevel::Error => 0,
            LogLevel::Info => 1,
            LogLevel::Debug => 2,
        }
    }
}

impl PartialOrd for LogLevel {
    fn partial_cmp(&self, other: &LogLevel) -> (r: Option<core::cmp::Ordering>) {
        let a = self.rank_index();
        let b = other.rank_index();
        if a < b {
            Some(core::cmp::Ordering::Less)
        } else if a == b {
            Some(core::cmp::Ordering::Equal)
        } else {
            Some(core::cmp::Ordering::Greater)
        }
    }
}

impl vstd::std_specs::cmp::PartialOrdSpecImpl for LogLevel {
    open spec fn obeys_partial_cmp_spec() -> bool {
        true
    }

    open spec fn partial_cmp_spec(&self, other: &LogLevel) -> Option<core::cmp::Ordering> {
        if self.rank() < other.rank() {
            Some(core::cmp::Ordering::Less)
        } else if self.rank() == other.rank() {
            Some(core::cmp::Ordering::Equal)
        } else {
            Some(core::cmp::Ordering::Greater)
        }
    }
}

/// The severity order is total and consistent: ranks order the three
/// levels strictly as `Error < Info < Debug`, any two levels are
/// comparable, and equal ranks mean equal levels. The comparison
/// operators on `LogLevel` decide exactly this order.
pub proof fn lemma_severity_order_total(a: LogLevel, b: LogLevel)
    ensures
        LogLevel::Error.rank() < LogLevel::Info.rank() < LogLevel::Debug.rank(),
        a.rank() <= b.rank() || b.rank() <= a.rank(),
        a.rank() == b.rank() <==> a == b,
        a.partial_cmp_spec(&b) == Some(core::cmp::Ordering::Less) <==> a.rank() < b.rank(),
        a.partial_cmp_spec(&b) == Some(core::cmp::Ordering::Equal) <==> a == b,
        a.partial_cmp_spec(&b) == Some(core::cmp::Ordering::Greater) <==> a.rank() > b.rank(),
{
}

/// ASCII lowercasing of a single character: uppercase `A`..`Z` maps to
/// `a`..`z`, everything else is unchanged.
pub open spec fn lower_char(c: char) -> char {
    if 65 <= c as u32 && c as u32 <= 90 {
        ((c as u32) + 32) as char
    } else {
        c
    }
}

/// Two character sequences are equal up to ASCII case.
pub open spec fn eq_ignore_case(a: Seq<char>, b: Seq<char>) -> bool {
    a.len() == b.len() && forall|i: int| 0 <= i < a.len() ==> lower_char(a[i]) == lower_char(b[i])
}

/// The level that a severity string denotes: `"error"` and `"debug"`
/// (compared ignoring ASCII case) name their levels; everything else,
/// the empty string included, falls back to `Info`.
pub open spec fn parsed_level(s: Seq<char>) -> LogLevel {
    if eq_ignore_case(s, "error"@) {
        LogLevel::Error
    } else if eq_ignore_case(s, "debug"@) {
        LogLevel::Debug
    } else {
        LogLevel::Info
    }
}

/// Lowercase one character, mapping ASCII uppercase to lowercase.
fn lower_char_exec(c: char) -> (r: char)
    ensures
        r == lower_char(c),
{
    let u = c as u32;
    if 65 <= u && u <= 90 {
        (((u + 32) as u8) as char)
    } else {
        c
    }
}

/// Compare two strings for equality up to ASCII case.
fn str_eq_ignore_case(a: &str, b: &str) -> (r: bool)
    ensures
        r == eq_ignore_case(a@, b@),
{
    let a_len = a.unicode_len();
    let b_len = b.unicode_len();
    if a_len != b_len {
        return false;
    }
    let mut i: usize = 0;
    while i < a_len
        invariant
            a_len == a@.len(),
            b_len == b@.len(),
            a_len == b_len,
            i <= a_len,
            forall|j: int| 0 <= j < i ==> lower_char(a@[j]) == lower_char(b@[j]),
        decreases a_len - i,
    {
        let ca = a.get_char(i);
        let cb = b.get_char(i);
        if lower_char_exec(ca) != lower_char_exec(cb) {
            return false;
        }
        i = i + 1;
    }
    true
}

impl LogLevel {
    /// Parse a severity string, ignoring ASCII case: `"error"` and
    /// `"debug"` name their levels, anything else yields `Info`.
    pub fn from_str(s: &str) -> (l: LogLevel)
        ensures
            l == parsed_level(s@),
    {
        if str_eq_ignore_case(s, "error") {
            LogLevel::Error
        } else if str_eq_ignore_case(s, "debug") {
            LogLevel::Debug
        } else {
            LogLevel::Info
        }
    }
}

/// Resolve the severity from the value of the environment variable:
/// an absent variable yields `Info`, a present one is parsed.
pub fn level_from_env_value(value: Option<&str>) -> (l: LogLevel)
    ensures
        value matches Some(s) ==> l == parsed_level(s@),
        value is None ==> l == LogLevel::Info,
{
    match value {
        Some(s) => LogLevel::from_str(s),
        None => LogLevel::Info,
    }
}

/// Parsing does not distinguish strings that are equal up to ASCII
/// case: any two such severity strings denote the same level.
pub proof fn lemma_parse_case_insensitive(a: Seq<char>, b: Seq<char>)
    requires
        eq_ignore_case(a, b),
    ensures
        parsed_level(a) == parsed_level(b),
{
    assert forall|t: Seq<char>| eq_ignore_case(a, t) implies eq_ignore_case(b, t) by {
        assert forall|i: int| 0 <= i < b.len() implies lower_char(b[i]) == lower_char(t[i]) by {
            assert(lower_char(a[i]) == lower_char(b[i]));
        }
    }
    assert forall|t: Seq<char>| eq_ignore_case(b, t) implies eq_ignore_case(a, t) by {
        assert forall|i: int| 0 <= i < a.len() implies lower_char(a[i]) == lower_char(t[i]) by {
            assert(lower_char(a[i]) == lower_char(b[i]));
        }
    }
}

/// Every severity string that is not `"error"` or `"debug"` up to
/// ASCII case, the empty string included, denotes `Info`.
pub proof fn lemma_unrecognized_is_info(s: Seq<char>)
    requires
        !eq_ignore_case(s, "error"@),
        !eq_ignore_case(s, "debug"@),
    ensures
        parsed_level(s) == LogLevel::Info,
{
}

/// Info-level output is enabled at severities ranked `Info` or higher.
pub open spec fn info_enabled(level: LogLevel) -> bool {
    level.rank() >= 1
}

/// Debug-level output is enabled only at the highest severity rank.
pub open spec fn debug_enabled(level: LogLevel) -> bool {
    level.rank() >= 2
}

/// What each severity lets through: at `Error` both gated kinds of
/// output are silent, at `Info` only info-level output is enabled,
/// and at `Debug` everything is; debug-level output is never enabled
/// without info-level output.
pub proof fn lemma_gating(level: LogLevel)
    ensures
        info_enabled(level) <==> level != LogLevel::Error,
        debug_enabled(level) <==> level == LogLevel::Debug,
        debug_enabled(level) ==> info_enabled(level),
{
}

/// True iff debug-level output is enabled at this severity,
/// that is, iff the level is `Debug`.
pub fn is_debug(level: LogLevel) -> (r: bool)
    ensures
        r == debug_enabled(level),
{
    match level {
        LogLevel::Debug => true,
        _ => false,
    }
}

/// True iff info-level output is enabled at this severity,
/// that is, for `Info` and `Debug` but not for `Error`.
pub fn is_info(level: LogLevel) -> (r: bool)
    ensures
        r == info_enabled(level),
{
    match level {
        LogLevel::Error => false,
        _ => true,
    }
}

} // verus!

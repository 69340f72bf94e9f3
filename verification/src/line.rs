//! The shapes of the output lines.
//!
//! Each function here builds the exact text of one emitted line (or,
//! for the header, a small group of lines) as a `String`, without the
//! line terminator; callers write the lines to the error stream. The
//! two routine-progress emitters are gated by the severity level and
//! return `None` when suppressed; every other emitter always produces
//! its line.

use vstd::prelude::*;

use crate::level::LogLevel;
use crate::level::debug_enabled;
use crate::level::info_enabled;
use crate::level::is_debug;
use crate::level::is_info;

verus! {

/// The bracketed line shape `[tag] msg`.
pub open spec fn bracketed(tag: Seq<char>, msg: Seq<char>) -> Seq<char> {
    "["@ + tag + "] "@ + msg
}

/// Build a line `[tag] msg`.
fn bracketed_line(tag: &str, msg: &str) -> (r: String)
    ensures
        r@ == bracketed(tag@, msg@),
{
    let mut s = String::new();
    s.append("[");
    s.append(tag);
    s.append("] ");
    s.append(msg);
    proof {
        assert(s@ =~= bracketed(tag@, msg@));
    }
    s
}

/// The line for a routine progress message, `[action] message`,
/// or nothing when the severity keeps info-level output silent.
pub fn log_line(level: LogLevel, action: &str, message: &str) -> (r: Option<String>)
    ensures
        r is Some <==> info_enabled(level),
        r matches Some(line) ==> line@ == bracketed(action@, message@),
{
    if is_info(level) {
        Some(bracketed_line(action, message))
    } else {
        None
    }
}

/// The line for an error, `[action] message`; never suppressed.
pub fn error_line(action: &str, message: &str) -> (r: String)
    ensures
        r@ == bracketed(action@, message@),
{
    bracketed_line(action, message)
}

/// The line for a diagnostic message, `[action] message`,
/// or nothing unless the severity enables debug-level output.
pub fn debug_line(level: LogLevel, action: &str, message: &str) -> (r: Option<String>)
    ensures
        r is Some <==> debug_enabled(level),
        r matches Some(line) ==> line@ == bracketed(action@, message@),
{
    if is_debug(level) {
        Some(bracketed_line(action, message))
    } else {
        None
    }
}

/// The line for a warning with a component name,
/// `[warn] [name] message`; never suppressed.
pub fn warn_line(name: &str, message: &str) -> (r: String)
    ensures
        r@ == "[warn] "@ + bracketed(name@, message@),
{
    let mut s = String::new();
    s.append("[warn] ");
    s.append("[");
    s.append(name);
    s.append("] ");
    s.append(message);
    proof {
        assert(s@ =~= "[warn] "@ + bracketed(name@, message@));
    }
    s
}

/// The line for a warning without a component name,
/// `[warn] message`; never suppressed.
pub fn warn_simple_line(message: &str) -> (r: String)
    ensures
        r@ == "[warn] "@ + message@,
{
    let mut s = String::new();
    s.append("[warn] ");
    s.append(message);
    proof {
        assert(s@ =~= "[warn] "@ + message@);
    }
    s
}

/// The prefix a status line carries: `[ok] ` on success, `[fail] ` otherwise.
pub open spec fn status_prefix(ok: bool) -> Seq<char> {
    if ok {
        "[ok] "@
    } else {
        "[fail] "@
    }
}

/// The line for a status with its outcome, `[ok] [name] message` or
/// `[fail] [name] message`; never suppressed.
pub fn status_line(name: &str, message: &str, ok: bool) -> (r: String)
    ensures
        r@ == status_prefix(ok) + bracketed(name@, message@),
{
    let mut s = String::new();
    if ok {
        s.append("[ok] ");
    } else {
        s.append("[fail] ");
    }
    s.append("[");
    s.append(name);
    s.append("] ");
    s.append(message);
    proof {
        assert(s@ =~= status_prefix(ok) + bracketed(name@, message@));
    }
    s
}

/// The line for a success message, `[ok] message`; never suppressed.
pub fn success_line(message: &str) -> (r: String)
    ensures
        r@ == "[ok] "@ + message@,
{
    let mut s = String::new();
    s.append("[ok] ");
    s.append(message);
    proof {
        assert(s@ =~= "[ok] "@ + message@);
    }
    s
}

/// The line for a failure message, `[fail] message`; never suppressed.
pub fn fail_line(message: &str) -> (r: String)
    ensures
        r@ == "[fail] "@ + message@,
{
    let mut s = String::new();
    s.append("[fail] ");
    s.append(message);
    proof {
        assert(s@ =~= "[fail] "@ + message@);
    }
    s
}

/// A run of `n` spaces.
pub open spec fn spaces(n: nat) -> Seq<char> {
    Seq::new(n, |i: int| ' ')
}

/// How many spaces pad a label of `len` characters out to the minimum
/// field width of 10; a longer label gets none and is never truncated.
pub open spec fn pad_width(len: nat) -> nat {
    if len >= 10 { 0 } else { (10 - len) as nat }
}

/// The line for a labelled value: a two-space indent, the label padded
/// on the right to a minimum width of 10 characters, one space, the value.
pub fn info_line(label: &str, value: &str) -> (r: String)
    ensures
        r@ == "  "@ + label@ + spaces(pad_width(label@.len())) + " "@ + value@,
{
    let mut s = String::new();
    s.append("  ");
    s.append(label);
    let n = label.unicode_len();
    let mut k: usize = n;
    while k < 10
        invariant
            n == label@.len(),
            n <= k,
            n < 10 ==> k <= 10,
            n >= 10 ==> k == n,
            s@ == "  "@ + label@ + spaces((k - n) as nat),
        decreases 10 - k,
    {
        s.append(" ");
        proof {
            reveal_strlit(" ");
            assert(s@ =~= "  "@ + label@ + spaces((k + 1 - n) as nat));
        }
        k = k + 1;
    }
    proof {
        assert((k - n) as nat == pad_width(label@.len()));
    }
    s.append(" ");
    s.append(value);
    proof {
        assert(s@ =~= "  "@ + label@ + spaces(pad_width(label@.len())) + " "@ + value@);
    }
    s
}

/// A run of `n` dash characters, the header's horizontal rule.
pub open spec fn dashes(n: nat) -> Seq<char> {
    Seq::new(n, |i: int| '-')
}

/// The group of lines for a section header: an empty line, the title
/// verbatim, and a rule of 40 dashes.
pub fn header_lines(title: &str) -> (r: Vec<String>)
    ensures
        r@.len() == 3,
        r@[0]@ == Seq::<char>::empty(),
        r@[1]@ == title@,
        r@[2]@ == dashes(40),
{
    let mut rule = String::new();
    let mut i: usize = 0;
    while i < 40
        invariant
            i <= 40,
            rule@ == dashes(i as nat),
        decreases 40 - i,
    {
        rule.append("-");
        proof {
            reveal_strlit("-");
            assert(rule@ =~= dashes((i + 1) as nat));
        }
        i = i + 1;
    }
    let mut lines: Vec<String> = Vec::new();
    lines.push(String::new());
    lines.push(title.to_owned());
    lines.push(rule);
    lines
}

/// The line for a hint, the message behind a two-space indent.
pub fn hint_line(message: &str) -> (r: String)
    ensures
        r@ == "  "@ + message@,
{
    let mut s = String::new();
    s.append("  ");
    s.append(message);
    proof {
        assert(s@ =~= "  "@ + message@);
    }
    s
}

/// The line for a detail, `    -> message`.
pub fn detail_line(message: &str) -> (r: String)
    ensures
        r@ == "    -> "@ + message@,
{
    let mut s = String::new();
    s.append("    -> ");
    s.append(message);
    proof {
        assert(s@ =~= "    -> "@ + message@);
    }
    s
}

/// The line suggesting a next step, `  -> description: command`.
pub fn next_step_line(description: &str, command: &str) -> (r: String)
    ensures
        r@ == "  -> "@ + description@ + ": "@ + command@,
{
    let mut s = String::new();
    s.append("  -> ");
    s.append(description);
    s.append(": ");
    s.append(command);
    proof {
        assert(s@ =~= "  -> "@ + description@ + ": "@ + command@);
    }
    s
}

/// The line for a diagnostic warning, `[warn] [component] message`;
/// the same shape as a warning with a component name.
pub fn diagnostic_line(component: &str, message: &str) -> (r: String)
    ensures
        r@ == "[warn] "@ + bracketed(component@, message@),
{
    warn_line(component, message)
}

/// An empty line.
pub fn blank_line() -> (r: String)
    ensures
        r@ == Seq::<char>::empty(),
{
    String::new()
}

} // verus!

//! The severity filter: an ordered severity level and its parser.

use vstd::prelude::*;

use crate::errors::ParseError;

verus! {

/// Ordinal urgency of a diagnostic event. `Error` is the most urgent; the
/// order is total and fixed once parsed.
#[derive(Clone, Copy, Debug, PartialEq, Eq, Structural)]
pub enum SeverityLevel {
    Error,
    Warn,
    Info,
    Debug,
    Trace,
}

impl SeverityLevel {
    /// Position in the severity order: 0 is the most urgent.
    pub open spec fn rank(self) -> nat {
        match self {
            SeverityLevel::Error => 0,
            SeverityLevel::Warn => 1,
            SeverityLevel::Info => 2,
            SeverityLevel::Debug => 3,
            SeverityLevel::Trace => 4,
        }
    }

    /// Executable mirror of `rank`.
    pub fn rank_code(self) -> (n: u8)
        ensures
            n as nat == self.rank(),
    {
        match self {
            SeverityLevel::Error => 0,
            SeverityLevel::Warn => 1,
            SeverityLevel::Info => 2,
            SeverityLevel::Debug => 3,
            SeverityLevel::Trace => 4,
        }
    }

    /// An event at severity `self` satisfies a minimum of `min` when it is at
    /// least as urgent, that is, at or above the minimum.
    pub open spec fn meets_spec(self, min: SeverityLevel) -> bool {
        self.rank() <= min.rank()
    }

    /// Decides whether `self` is at or above the minimum `min`.
    pub fn meets(self, min: SeverityLevel) -> (r: bool)
        ensures
            r == self.meets_spec(min),
    {
        self.rank_code() <= min.rank_code()
    }

    /// The lower-case name of the level.
    pub open spec fn name_spec(self) -> Seq<char> {
        match self {
            SeverityLevel::Error => "error"@,
            SeverityLevel::Warn => "warn"@,
            SeverityLevel::Info => "info"@,
            SeverityLevel::Debug => "debug"@,
            SeverityLevel::Trace => "trace"@,
        }
    }

    /// The lower-case name of the level, for record rendering.
    pub fn name(self) -> (r: &'static str)
        ensures
            r@ == self.name_spec(),
    {
        match self {
            SeverityLevel::Error => "error",
            SeverityLevel::Warn => "warn",
            SeverityLevel::Info => "info",
            SeverityLevel::Debug => "debug",
            SeverityLevel::Trace => "trace",
        }
    }
}

/// A character of the input equals a character of a lower-case level name,
/// ignoring ASCII case: either the same character, or its upper-case form.
pub open spec fn eq_ignore_case(a: char, b: char) -> bool {
    a == b || (65 <= a as int && a as int <= 90 && a as int + 32 == b as int)
}

/// The input matches a lower-case level name, ignoring ASCII case.
pub open spec fn matches_ci(s: Seq<char>, kw: Seq<char>) -> bool {
    s.len() == kw.len() && (forall|i: int| 0 <= i < s.len() ==> eq_ignore_case(s[i], kw[i]))
}

/// The level denoted by a text, if any: exactly the five level names,
/// in any ASCII letter-casing. Everything else denotes no level.
pub open spec fn level_of_text(s: Seq<char>) -> Option<SeverityLevel> {
    if matches_ci(s, "error"@) {
        Some(SeverityLevel::Error)
    } else if matches_ci(s, "warn"@) {
        Some(SeverityLevel::Warn)
    } else if matches_ci(s, "info"@) {
        Some(SeverityLevel::Info)
    } else if matches_ci(s, "debug"@) {
        Some(SeverityLevel::Debug)
    } else if matches_ci(s, "trace"@) {
        Some(SeverityLevel::Trace)
    } else {
        None
    }
}

/// Law: the parser and the level names round-trip: the rendered name of
/// every level denotes exactly that level again.
pub proof fn level_name_round_trips(lvl: SeverityLevel)
    ensures
        level_of_text(lvl.name_spec()) == Some(lvl),
{
    reveal_strlit("error");
    reveal_strlit("warn");
    reveal_strlit("info");
    reveal_strlit("debug");
    reveal_strlit("trace");
    assert(matches_ci(lvl.name_spec(), lvl.name_spec()));
    match lvl {
        SeverityLevel::Error => {},
        SeverityLevel::Warn => {
            assert(!matches_ci("warn"@, "error"@));
        },
        SeverityLevel::Info => {
            assert(!matches_ci("info"@, "error"@));
            assert(!matches_ci("info"@, "warn"@)) by {
                assert("info"@[0] == 'i' && "warn"@[0] == 'w');
            }
        },
        SeverityLevel::Debug => {
            assert(!matches_ci("debug"@, "error"@)) by {
                assert("debug"@[0] == 'd' && "error"@[0] == 'e');
            }
            assert(!matches_ci("debug"@, "warn"@));
            assert(!matches_ci("debug"@, "info"@));
        },
        SeverityLevel::Trace => {
            assert(!matches_ci("trace"@, "error"@)) by {
                assert("trace"@[0] == 't' && "error"@[0] == 'e');
            }
            assert(!matches_ci("trace"@, "warn"@));
            assert(!matches_ci("trace"@, "info"@));
            assert(!matches_ci("trace"@, "debug"@)) by {
                assert("trace"@[0] == 't' && "debug"@[0] == 'd');
            }
        },
    }
}

/// Decides `eq_ignore_case` on two characters.
fn eq_ci_char(a: char, b: char) -> (r: bool)
    ensures
        r == eq_ignore_case(a, b),
{
    let ac = a as u32;
    let bc = b as u32;
    ac == bc || (65 <= ac && ac <= 90 && ac + 32 == bc)
}

/// Decides whether `text` matches the level name `kw`, ignoring ASCII case.
fn matches_keyword(text: &str, kw: &str) -> (r: bool)
    ensures
        r == matches_ci(text@, kw@),
{
    let n = text.unicode_len();
    if n != kw.unicode_len() {
        return false;
    }
    let mut i: usize = 0;
    while i < n
        invariant
            n == text@.len(),
            n == kw@.len(),
            i <= n,
            forall|j: int| 0 <= j < i ==> eq_ignore_case(text@[j], kw@[j]),
        decreases n - i,
    {
        if !eq_ci_char(text.get_char(i), kw.get_char(i)) {
            assert(!eq_ignore_case(text@[i as int], kw@[i as int]));
            return false;
        }
        i += 1;
    }
    true
}

/// Parses a level text into a `SeverityLevel`. Exactly the five level names
/// are recognized, in any ASCII letter-casing; any other text fails with
/// `UnrecognizedLevel`, carrying the offending text.
pub fn parse(text: &str) -> (r: Result<SeverityLevel, ParseError>)
    ensures
        (match r {
            Ok(level) => level_of_text(text@) == Some(level),
            Err(e) => level_of_text(text@) is None && e->UnrecognizedLevel_0@ == text@,
        }),
{
    if matches_keyword(text, "error") {
        Ok(SeverityLevel::Error)
    } else if matches_keyword(text, "warn") {
        Ok(SeverityLevel::Warn)
    } else if matches_keyword(text, "info") {
        Ok(SeverityLevel::Info)
    } else if matches_keyword(text, "debug") {
        Ok(SeverityLevel::Debug)
    } else if matches_keyword(text, "trace") {
        Ok(SeverityLevel::Trace)
    } else {
        Err(ParseError::UnrecognizedLevel(text.to_owned()))
    }
}

} // verus!

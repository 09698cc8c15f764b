use vstd::prelude::*;

use crate::text::str_eq;

verus! {

/// The log levels that a directive may name.
#[derive(Clone, Copy, Debug, PartialEq, Eq, Structural)]
pub enum Level {
    Trace,
    Debug,
    Info,
    Warn,
    Error,
}

/// The level that a lower-case level name stands for, if any.
pub open spec fn level_named(s: Seq<char>) -> Option<Level> {
    if s == "trace"@ {
        Some(Level::Trace)
    } else if s == "debug"@ {
        Some(Level::Debug)
    } else if s == "info"@ {
        Some(Level::Info)
    } else if s == "warn"@ {
        Some(Level::Warn)
    } else if s == "error"@ {
        Some(Level::Error)
    } else {
        None
    }
}

/// What `str::to_lowercase` returns for a string.
pub uninterp spec fn lower_of(s: Seq<char>) -> Seq<char>;

/// Relies on `str::to_lowercase`: its result depends on the characters of
/// the argument alone, and an empty string stays empty.
#[verifier::external_body]
fn lowercase(s: &str) -> (r: String)
    ensures
        r@ == lower_of(s@),
        s@.len() == 0 ==> r@.len() == 0,
{
    s.to_lowercase()
}

impl Level {
    /// The level that an already lower-cased name stands for.
    pub fn from_lowered(s: &str) -> (r: Option<Level>)
        ensures
            r == level_named(s@),
    {
        if str_eq(s, "trace") {
            Some(Level::Trace)
        } else if str_eq(s, "debug") {
            Some(Level::Debug)
        } else if str_eq(s, "info") {
            Some(Level::Info)
        } else if str_eq(s, "warn") {
            Some(Level::Warn)
        } else if str_eq(s, "error") {
            Some(Level::Error)
        } else {
            None
        }
    }

    /// The level that a name stands for, letter case aside.
    pub fn from_name(s: &str) -> (r: Option<Level>)
        ensures
            r == level_named(lower_of(s@)),
    {
        let lowered = lowercase(s);
        Level::from_lowered(lowered.as_str())
    }

    /// The name of the logging macro for this level.
    pub fn name(&self) -> (r: &'static str)
        ensures
            r@ == level_text(*self),
    {
        match self {
            Level::Trace => "trace",
            Level::Debug => "debug",
            Level::Info => "info",
            Level::Warn => "warn",
            Level::Error => "error",
        }
    }
}

/// The lower-case name of a level.
pub open spec fn level_text(l: Level) -> Seq<char> {
    match l {
        Level::Trace => "trace"@,
        Level::Debug => "debug"@,
        Level::Info => "info"@,
        Level::Warn => "warn"@,
        Level::Error => "error"@,
    }
}

} // verus!

//! The output format and the level of the log.

use vstd::prelude::*;
use vstd::string::*;

use crate::text::{lowercase_text, str_eq, to_lowercase};

verus! {

/// The format in which log lines are written.
#[derive(Debug, Clone, Copy, PartialEq, Eq)]
pub enum Logger {
    Compact,
    Full,
    Json,
    Pretty,
}

impl Default for Logger {
    fn default() -> (logger: Self)
        ensures
            logger == Logger::Compact,
    {
        Logger::Compact
    }
}

impl Logger {
    /// The format's name.
    pub open spec fn text(self) -> Seq<char> {
        match self {
            Logger::Compact => "compact"@,
            Logger::Full => "full"@,
            Logger::Json => "json"@,
            Logger::Pretty => "pretty"@,
        }
    }

    /// The format that a name in lower case stands for: any name that is
    /// not one of the other three stands for the compact format.
    pub open spec fn named(lower: Seq<char>) -> Logger {
        if lower == "full"@ {
            Logger::Full
        } else if lower == "json"@ {
            Logger::Json
        } else if lower == "pretty"@ {
            Logger::Pretty
        } else {
            Logger::Compact
        }
    }

    /// The format that a name in lower case stands for.
    pub fn from_lowercase(lower: &str) -> (logger: Logger)
        ensures
            logger == Logger::named(lower@),
    {
        if str_eq(lower, "full") {
            Logger::Full
        } else if str_eq(lower, "json") {
            Logger::Json
        } else if str_eq(lower, "pretty") {
            Logger::Pretty
        } else {
            Logger::Compact
        }
    }

    /// The format's name.
    pub fn to_string(&self) -> (name: String)
        ensures
            name@ == self.text(),
    {
        match self {
            Logger::Compact => String::from_str("compact"),
            Logger::Full => String::from_str("full"),
            Logger::Json => String::from_str("json"),
            Logger::Pretty => String::from_str("pretty"),
        }
    }
}

impl vstd::std_specs::convert::FromSpecImpl<&str> for Logger {
    open spec fn obeys_from_spec() -> bool {
        true
    }

    open spec fn from_spec(value: &str) -> Logger {
        Logger::named(lowercase_text(value@))
    }
}

impl From<&str> for Logger {
    /// The format that a name stands for, in whatever case it is written.
    fn from(value: &str) -> (logger: Self) {
        let lower = to_lowercase(value);
        Logger::from_lowercase(lower.as_str())
    }
}

/// The lowest level that is logged.
#[derive(Debug, Clone, Copy, PartialEq, Eq)]
pub enum Level {
    Off,
    Trace,
    Debug,
    Info,
    Warn,
    Error,
}

impl Default for Level {
    fn default() -> (level: Self)
        ensures
            level == Level::Info,
    {
        Level::Info
    }
}

impl Level {
    /// The level's name.
    pub open spec fn text(self) -> Seq<char> {
        match self {
            Level::Off => "off"@,
            Level::Trace => "trace"@,
            Level::Debug => "debug"@,
            Level::Info => "info"@,
            Level::Warn => "warn"@,
            Level::Error => "error"@,
        }
    }

    /// The level that a name in lower case stands for: any name that is no
    /// level's name switches the log off.
    pub open spec fn named(lower: Seq<char>) -> Level {
        if lower == "trace"@ {
            Level::Trace
        } else if lower == "debug"@ {
            Level::Debug
        } else if lower == "info"@ {
            Level::Info
        } else if lower == "warn"@ {
            Level::Warn
        } else if lower == "error"@ {
            Level::Error
        } else {
            Level::Off
        }
    }

    pub fn as_str(&self) -> (name: &str)
        ensures
            name@ == self.text(),
    {
        match self {
            Level::Off => "off",
            Level::Trace => "trace",
            Level::Debug => "debug",
            Level::Info => "info",
            Level::Warn => "warn",
            Level::Error => "error",
        }
    }

    /// The level's name.
    pub fn to_string(&self) -> (name: String)
        ensures
            name@ == self.text(),
    {
        String::from_str(self.as_str())
    }

    /// The level that a name in lower case stands for.
    pub fn from_lowercase(lower: &str) -> (level: Level)
        ensures
            level == Level::named(lower@),
    {
        if str_eq(lower, "trace") {
            Level::Trace
        } else if str_eq(lower, "debug") {
            Level::Debug
        } else if str_eq(lower, "info") {
            Level::Info
        } else if str_eq(lower, "warn") {
            Level::Warn
        } else if str_eq(lower, "error") {
            Level::Error
        } else {
            Level::Off
        }
    }
}

impl vstd::std_specs::convert::FromSpecImpl<&str> for Level {
    open spec fn obeys_from_spec() -> bool {
        true
    }

    open spec fn from_spec(value: &str) -> Level {
        Level::named(lowercase_text(value@))
    }
}

impl From<&str> for Level {
    /// The level that a name stands for, in whatever case it is written.
    fn from(value: &str) -> (level: Self) {
        let lower = to_lowercase(value);
        Level::from_lowercase(lower.as_str())
    }
}

/// A level's name stands for that level, and so does a format's name for
/// that format.
pub proof fn lemma_names_round_trip(level: Level, logger: Logger)
    ensures
        level != Level::Off ==> Level::named(level.text()) == level,
        Level::named(Level::Off.text()) == Level::Off,
        Logger::named(logger.text()) == logger,
{
    reveal_strlit("off");
    reveal_strlit("trace");
    reveal_strlit("debug");
    reveal_strlit("info");
    reveal_strlit("warn");
    reveal_strlit("error");
    reveal_strlit("compact");
    reveal_strlit("full");
    reveal_strlit("json");
    reveal_strlit("pretty");
    assert("trace"@[0] == 't' && "debug"@[0] == 'd' && "error"@[0] == 'e');
    assert("info"@[0] == 'i' && "warn"@[0] == 'w');
    assert("full"@[0] == 'f' && "json"@[0] == 'j');
    assert("compact"@.len() == 7 && "pretty"@.len() == 6 && "full"@.len() == 4);
}

} // verus!

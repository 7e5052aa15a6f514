//! The leveled diagnostic model: every component reports failures as an
//! [`Error`] carrying a severity [`Level`], an optional source [`Span`] and a
//! message.

use vstd::prelude::*;
use vstd::string::StringExecFns;

verus! {

/// Severity of a diagnostic, from internal invariant violations (`Bug`) down
/// to purely advisory notes (`Help`).
#[derive(Clone, Copy, Debug, PartialEq, Eq, Structural)]
pub enum Level {
    Bug,
    Fatal,
    Error,
    Warning,
    Note,
    Help,
}

/// A source location attached to a diagnostic.
#[derive(Clone, Copy, Debug, PartialEq, Eq, Structural)]
pub struct Span {
    pub line: u64,
    pub column: u64,
}

/// Describes an error encountered by the binding generator.
#[derive(Debug)]
pub struct Error {
    pub level: Level,
    pub span: Option<Span>,
    pub message: String,
}

/// The lower-case tag under which a diagnostic of this level is reported.
pub open spec fn level_name_spec(level: Level) -> Seq<char> {
    match level {
        Level::Bug => "bug"@,
        Level::Fatal => "fatal"@,
        Level::Error => "error"@,
        Level::Warning => "warning"@,
        Level::Note => "note"@,
        Level::Help => "help"@,
    }
}

/// The coarse description of a diagnostic of this level.
pub open spec fn level_description_spec(level: Level) -> Seq<char> {
    match level {
        Level::Bug => "internal error"@,
        Level::Fatal => "error"@,
        Level::Error => "error"@,
        Level::Warning => "warning"@,
        Level::Note => "note"@,
        Level::Help => "help"@,
    }
}

/// The lower-case name of a severity level, for rendering diagnostics.
pub fn level_name(level: Level) -> (r: &'static str)
    ensures
        r@ == level_name_spec(level),
{
    match level {
        Level::Bug => "bug",
        Level::Fatal => "fatal",
        Level::Error => "error",
        Level::Warning => "warning",
        Level::Note => "note",
        Level::Help => "help",
    }
}

impl Error {
    /// A plain `Error`-level diagnostic with no source location.
    pub fn error(message: &str) -> (r: Self)
        ensures
            r.level == Level::Error,
            r.span is None,
            r.message@ == message@,
    {
        Error { level: Level::Error, span: None, message: message.to_owned() }
    }

    /// Constructs an error for unsupported generics: declarations with type
    /// parameters cannot be translated across the FFI boundary.
    pub fn unsupported_generics_error(name: &str) -> (r: Self)
        ensures
            r.level == Level::Error,
            r.span is None,
            r.message@ == "bindgen can not handle parameterized "@ + name@,
    {
        Error {
            level: Level::Error,
            span: None,
            message: "bindgen can not handle parameterized ".to_owned().concat(name),
        }
    }

    /// A `Fatal`-level diagnostic wrapping an I/O failure reported by a
    /// collaborator; the run cannot continue.
    pub fn io_error(message: &str) -> (r: Self)
        ensures
            r.level == Level::Fatal,
            r.span is None,
            r.message@ == "I/O Error: "@ + message@,
    {
        Error { level: Level::Fatal, span: None, message: "I/O Error: ".to_owned().concat(message) }
    }

    /// The coarse description of this diagnostic, by its level alone.
    pub fn description(&self) -> (r: &'static str)
        ensures
            r@ == level_description_spec(self.level),
    {
        match self.level {
            Level::Bug => "internal error",
            Level::Fatal => "error",
            Level::Error => "error",
            Level::Warning => "warning",
            Level::Note => "note",
            Level::Help => "help",
        }
    }

    /// Converts a single diagnostic losslessly into a one-element collection,
    /// so call sites that return "one or many" can treat both uniformly.
    pub fn into_vec(self) -> (r: Vec<Error>)
        ensures
            r@.len() == 1,
            r@[0] == self,
    {
        let mut v: Vec<Error> = Vec::new();
        v.push(self);
        v
    }
}

} // verus!

//! What every error of the engine has in common: a message, a place in the
//! source where one is known, and at most one immediate cause.
use vstd::prelude::*;
use vstd::string::*;
use crate::expression::parser::Position;
use crate::text::{decimal_text, padded_left, push_padded3};

verus! {

/// How loudly a line is to be logged.
#[derive(Clone, Copy, Debug, PartialEq, Eq, Structural)]
pub enum Severity {
    Warn,
    Error,
}

/// One line for the log: the library decides level and text, the caller
/// hands it to whatever logger it uses.
#[derive(Debug)]
pub struct LogLine {
    pub severity: Severity,
    pub text: String,
}

/// An error as shown to a reader: ` LLL:CCC | message` with line and column
/// filled up to three digits where the place is known, else the bare
/// message.
pub open spec fn rendered(message: Seq<char>, position: Option<Position>) -> Seq<char> {
    match position {
        Some(p) => " "@ + padded_left(decimal_text(p.line as nat), '0', 3) + ":"@ + padded_left(
            decimal_text(p.column as nat),
            '0',
            3,
        ) + " | "@ + message,
        None => message,
    }
}

/// An error as logged: `message: cause` where it has a cause, else the
/// message with its place.
pub open spec fn logged(
    message: Seq<char>,
    position: Option<Position>,
    cause: Option<Seq<char>>,
) -> Seq<char> {
    match cause {
        Some(c) => message + ": "@ + c,
        None => rendered(message, position),
    }
}

/// Renders a message with its place, as `rendered` says.
pub fn render(message: &str, position: Option<Position>) -> (s: String)
    ensures
        s@ == rendered(message@, position),
{
    match position {
        Some(p) => {
            let mut s = String::from_str(" ");
            push_padded3(&mut s, p.line);
            s.append(":");
            push_padded3(&mut s, p.column);
            s.append(" | ");
            s.append(message);
            s
        },
        None => String::from_str(message),
    }
}

/// The text to log for an error, as `logged` says.
pub fn log_text(message: &str, position: Option<Position>, cause: Option<String>) -> (s: String)
    ensures
        s@ == logged(
            message@,
            position,
            match cause {
                Some(c) => Some(c@),
                None => None,
            },
        ),
{
    match cause {
        Some(c) => {
            let mut s = String::from_str(message);
            s.append(": ");
            s.append(c.as_str());
            s
        },
        None => render(message, position),
    }
}

/// The common face of lexical, syntactic and semantic errors.
pub trait Error {
    /// The message of this error.
    spec fn message_text(&self) -> Seq<char>;

    /// The place in the source that this error points at, if it has one.
    spec fn place(&self) -> Option<Position>;

    /// The message of the immediate cause, if this error has one.
    spec fn cause_text(&self) -> Option<Seq<char>>;

    fn message(&self) -> (m: String)
        ensures
            m@ == self.message_text(),
    ;

    fn position(&self) -> (p: Option<Position>)
        ensures
            p == self.place(),
    ;

    /// The message of the immediate cause, if there is one.
    fn source_message(&self) -> (c: Option<String>)
        ensures
            c is Some == self.cause_text() is Some,
            c is Some ==> c->0@ == self.cause_text()->0,
    ;

    /// The line to log for this error as a warning.
    fn warn(&self) -> (line: LogLine)
        ensures
            line.severity == Severity::Warn,
            line.text@ == logged(self.message_text(), self.place(), self.cause_text()),
    {
        let m = self.message();
        LogLine {
            severity: Severity::Warn,
            text: log_text(m.as_str(), self.position(), self.source_message()),
        }
    }

    /// The line to log for this error as an error.
    fn error(&self) -> (line: LogLine)
        ensures
            line.severity == Severity::Error,
            line.text@ == logged(self.message_text(), self.place(), self.cause_text()),
    {
        let m = self.message();
        LogLine {
            severity: Severity::Error,
            text: log_text(m.as_str(), self.position(), self.source_message()),
        }
    }

    /// This error as shown to a reader.
    fn as_string(&self) -> (s: String)
        ensures
            s@ == rendered(self.message_text(), self.place()),
    {
        let m = self.message();
        render(m.as_str(), self.position())
    }
}

} // verus!

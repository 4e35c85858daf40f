//! Lexical errors.
use vstd::prelude::*;
use vstd::string::*;
use super::super::Position;
use crate::error::{render, rendered, Error, LogLine, Severity};
use crate::text::{decimal_text, push_char, push_decimal};

verus! {

pub type TokenResult<T> = Result<T, TokenError>;

/// A lexical error.
#[derive(Debug)]
pub struct TokenError {
    pub message: String,
    pub position: Option<Position>,
}

pub struct TokenErrorView {
    pub message: Seq<char>,
    pub position: Option<Position>,
}

impl View for TokenError {
    type V = TokenErrorView;

    open spec fn view(&self) -> TokenErrorView {
        TokenErrorView { message: self.message@, position: self.position }
    }
}

/// What `{:?}` prints for a list of strings: the list in square brackets,
/// each string quoted and escaped as `Debug` does it.
pub uninterp spec fn debug_list_text(items: Seq<Seq<char>>) -> Seq<char>;

/// Formats a slice of strings with `{:?}`, the `Debug` formatting of a
/// slice. Taken on trust: what is printed depends on the strings alone. It
/// is named `debug_list_text`; nothing more is claimed of it.
#[verifier::external_body]
fn debug_list(items: &[&str]) -> (s: String)
    ensures
        s@ == debug_list_text(items@.map_values(|t: &str| t@)),
{
    format!("{:?}", items)
}

impl TokenErrorView {
    pub open spec fn expected(expected: Seq<Seq<char>>, found: Seq<char>, position: Position)
        -> TokenErrorView {
        TokenErrorView {
            message: "Expected "@ + debug_list_text(expected) + " but found "@ + found,
            position: Some(position),
        }
    }

    pub open spec fn unexpected(found: char, position: Position) -> TokenErrorView {
        TokenErrorView {
            message: "Disallowed char "@.push(found) + " found"@,
            position: Some(position),
        }
    }

    pub open spec fn exhausted(read_size: nat) -> TokenErrorView {
        TokenErrorView {
            message: "Attempted "@ + decimal_text(read_size) + " char read on exhausted source"@,
            position: None,
        }
    }

    pub open spec fn no_source() -> TokenErrorView {
        TokenErrorView { message: "No source provided"@, position: None }
    }

    pub open spec fn bad_source(source: Seq<char>) -> TokenErrorView {
        TokenErrorView { message: "Cannot read from source "@ + source, position: None }
    }

    pub open spec fn read_failed() -> TokenErrorView {
        TokenErrorView { message: "Failed to read from source"@, position: None }
    }
}

impl TokenError {
    pub fn new(message: &str, position: Option<Position>) -> (e: TokenError)
        ensures
            e@ == (TokenErrorView { message: message@, position }),
    {
        TokenError { message: String::from_str(message), position }
    }

    /// The error for the text `found`, at `position`, where one of `expected`
    /// should stand.
    pub fn expected(expected: &[&str], found: &str, position: Position) -> (e: TokenError)
        ensures
            e@ == TokenErrorView::expected(expected@.map_values(|t: &str| t@), found@, position),
    {
        let mut message = String::from_str("Expected ");
        let list = debug_list(expected);
        message.append(list.as_str());
        message.append(" but found ");
        message.append(found);
        TokenError { message, position: Some(position) }
    }

    /// The error for a character that cannot stand at `position`.
    pub fn unexpected(found: char, position: Position) -> (e: TokenError)
        ensures
            e@ == TokenErrorView::unexpected(found, position),
    {
        let mut message = String::from_str("Disallowed char ");
        push_char(&mut message, found);
        message.append(" found");
        TokenError { message, position: Some(position) }
    }

    /// The error for an attempt to read `read_size` characters from a source
    /// that has none left.
    pub fn exhausted(read_size: usize) -> (e: TokenError)
        ensures
            e@ == TokenErrorView::exhausted(read_size as nat),
    {
        let mut message = String::from_str("Attempted ");
        push_decimal(&mut message, read_size);
        message.append(" char read on exhausted source");
        TokenError { message, position: None }
    }

    /// The error for a tokeniser that was given no text.
    pub fn no_source() -> (e: TokenError)
        ensures
            e@ == TokenErrorView::no_source(),
    {
        TokenError { message: String::from_str("No source provided"), position: None }
    }

    /// The error for a source that cannot be read from.
    pub fn bad_source(source: &str) -> (e: TokenError)
        ensures
            e@ == TokenErrorView::bad_source(source@),
    {
        let mut message = String::from_str("Cannot read from source ");
        message.append(source);
        TokenError { message, position: None }
    }

    /// The error for a read that failed.
    pub fn read_failed() -> (e: TokenError)
        ensures
            e@ == TokenErrorView::read_failed(),
    {
        TokenError { message: String::from_str("Failed to read from source"), position: None }
    }

    /// The line to log for this error as a warning.
    pub fn warn(&self) -> (line: LogLine)
        ensures
            line.severity == Severity::Warn,
            line.text@ == rendered(self@.message, self@.position),
    {
        LogLine { severity: Severity::Warn, text: self.to_string() }
    }

    /// This error as shown to a reader.
    pub fn to_string(&self) -> (s: String)
        ensures
            s@ == rendered(self@.message, self@.position),
    {
        render(self.message.as_str(), self.position)
    }
}

impl Error for TokenError {
    open spec fn message_text(&self) -> Seq<char> {
        self@.message
    }

    open spec fn place(&self) -> Option<Position> {
        self@.position
    }

    /// A lexical error is where a chain starts: it has no cause.
    open spec fn cause_text(&self) -> Option<Seq<char>> {
        None
    }

    fn message(&self) -> (m: String) {
        self.message.clone()
    }

    fn position(&self) -> (p: Option<Position>) {
        self.position
    }

    fn source_message(&self) -> (c: Option<String>) {
        None
    }
}

} // verus!

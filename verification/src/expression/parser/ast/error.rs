//! Syntactic errors.
use vstd::prelude::*;
use vstd::string::*;
use super::super::tokeniser::{Token, TokenError, TokenErrorView, TokenType, TokenView};
use super::super::Position;
use crate::error::{logged, render, rendered, Error, LogLine, Severity};

verus! {

pub type ParseResult<T> = Result<T, ParseError>;

/// How the message starts where a primary expression is missing.
pub const EXPECTED_PRIMARY: &'static str =
    "Expected primary expression ([String, Number, Identifier, OpenParen]), found ";

/// A syntactic error. It may carry the lexical error that caused it.
#[derive(Debug)]
pub struct ParseError {
    pub message: String,
    pub position: Option<Position>,
    source: Option<TokenError>,
}

pub struct ParseErrorView {
    pub message: Seq<char>,
    pub position: Option<Position>,
    pub source: Option<TokenErrorView>,
}

impl View for ParseError {
    type V = ParseErrorView;

    closed spec fn view(&self) -> ParseErrorView {
        ParseErrorView {
            message: self.message@,
            position: self.position,
            source: match self.source {
                Some(e) => Some(e@),
                None => None,
            },
        }
    }
}

impl ParseErrorView {
    pub open spec fn new(message: Seq<char>, position: Option<Position>) -> ParseErrorView {
        ParseErrorView { message, position, source: None }
    }

    /// The error for a token of kind `found`, at `position`, where one of kind
    /// `expected` should stand.
    pub open spec fn expected(expected: TokenType, found: TokenType, position: Position)
        -> ParseErrorView {
        ParseErrorView {
            message: "Expected "@ + expected.name_text() + " but found "@ + found.name_text(),
            position: Some(position),
            source: None,
        }
    }

    /// The error for an input that ends too early.
    pub open spec fn unexpected_eof() -> ParseErrorView {
        ParseErrorView { message: "Unexpected end of file"@, position: None, source: None }
    }

    /// The error for `token` where a primary expression should start.
    pub open spec fn expected_primary(token: TokenView) -> ParseErrorView {
        ParseErrorView {
            message: EXPECTED_PRIMARY@ + token.token_type.name_text(),
            position: Some(token.position),
            source: None,
        }
    }

    /// The syntactic error that a lexical error turns into.
    pub open spec fn from_token_error(error: TokenErrorView) -> ParseErrorView {
        ParseErrorView { message: "Token error"@, position: error.position, source: Some(error) }
    }

    /// The syntactic error for a token that was asked for behind the end
    /// token; `error` is what the tokeniser answered.
    pub open spec fn out_of_tokens(error: TokenErrorView) -> ParseErrorView {
        ParseErrorView { message: "Unexpected end of file"@, position: None, source: Some(error) }
    }
}

impl ParseError {
    /// The message and place are those given; there is no cause.
    pub fn new(message: &str, position: Option<&Position>) -> (e: ParseError)
        ensures
            e@ == ParseErrorView::new(
                message@,
                match position {
                    Some(p) => Some(*p),
                    None => None,
                },
            ),
    {
        ParseError {
            message: String::from_str(message),
            position: match position {
                Some(p) => Some(*p),
                None => None,
            },
            source: None,
        }
    }

    /// The error for a token of kind `found`, at `position`, where one of kind
    /// `expected` should stand.
    pub fn expected(expected: &TokenType, found: &TokenType, position: Position) -> (e: ParseError)
        ensures
            e@ == ParseErrorView::expected(*expected, *found, position),
    {
        let mut message = String::from_str("Expected ");
        message.append(expected.name());
        message.append(" but found ");
        message.append(found.name());
        ParseError { message, position: Some(position), source: None }
    }

    /// The error for an input that ends too early.
    pub fn unexpected_eof() -> (e: ParseError)
        ensures
            e@ == ParseErrorView::unexpected_eof(),
    {
        ParseError {
            message: String::from_str("Unexpected end of file"),
            position: None,
            source: None,
        }
    }

    /// The error for `token` where a primary expression should start.
    pub fn expected_primary(token: &Token) -> (e: ParseError)
        ensures
            e@ == ParseErrorView::expected_primary(token@),
    {
        let mut message = String::from_str(EXPECTED_PRIMARY);
        message.append(token.token_type.name());
        ParseError { message, position: Some(token.position), source: None }
    }

    /// The error for a token that was asked for behind the end token, with
    /// the tokeniser's answer as its cause.
    pub fn out_of_tokens(error: TokenError) -> (e: ParseError)
        ensures
            e@ == ParseErrorView::out_of_tokens(error@),
    {
        ParseError {
            message: String::from_str("Unexpected end of file"),
            position: None,
            source: Some(error),
        }
    }

    /// The lexical error that caused this one, if one did.
    pub fn source(&self) -> (cause: Option<&TokenError>)
        ensures
            match cause {
                Some(e) => self@.source == Some(e@),
                None => self@.source is None,
            },
    {
        self.source.as_ref()
    }

    /// The line to log for this error as a warning.
    pub fn warn(&self) -> (line: LogLine)
        ensures
            line.severity == Severity::Warn,
            line.text@ == logged(self@.message, self@.position, self.cause_text()),
    {
        Error::warn(self)
    }

    /// The line to log for this error as an error.
    pub fn error(&self) -> (line: LogLine)
        ensures
            line.severity == Severity::Error,
            line.text@ == logged(self@.message, self@.position, self.cause_text()),
    {
        Error::error(self)
    }

    /// This error as shown to a reader.
    pub fn to_string(&self) -> (s: String)
        ensures
            s@ == rendered(self@.message, self@.position),
    {
        render(self.message.as_str(), self.position)
    }
}

impl Error for ParseError {
    open spec fn message_text(&self) -> Seq<char> {
        self@.message
    }

    open spec fn place(&self) -> Option<Position> {
        self@.position
    }

    open spec fn cause_text(&self) -> Option<Seq<char>> {
        match self@.source {
            Some(e) => Some(e.message),
            None => None,
        }
    }

    fn message(&self) -> (m: String) {
        assert(self.message_text() == self.message@);
        self.message.clone()
    }

    fn position(&self) -> (p: Option<Position>) {
        self.position
    }

    fn source_message(&self) -> (c: Option<String>) {
        match &self.source {
            Some(e) => Some(e.message.clone()),
            None => None,
        }
    }
}

impl From<TokenError> for ParseError {
    fn from(error: TokenError) -> (e: ParseError)
        ensures
            e@ == ParseErrorView::from_token_error(error@),
    {
        ParseError {
            message: String::from_str("Token error"),
            position: error.position,
            source: Some(error),
        }
    }
}

impl vstd::std_specs::convert::FromSpecImpl<TokenError> for ParseError {
    /// The conversion is stated on views, by the `ensures` of `from`.
    open spec fn obeys_from_spec() -> bool {
        false
    }

    open spec fn from_spec(error: TokenError) -> ParseError {
        arbitrary()
    }
}

} // verus!

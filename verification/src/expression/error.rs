//! Semantic errors.
use vstd::prelude::*;
use vstd::string::*;
use super::parser::ast::error::{ParseError, ParseErrorView};
use super::parser::Position;
use super::value::ValueType;
use crate::error::{render, rendered, Error};

verus! {

pub type ExpressionResult<T> = Result<T, ExpressionError>;

/// A semantic error. It may carry the syntactic error that caused it.
#[derive(Debug)]
pub struct ExpressionError {
    message: String,
    position: Option<Position>,
    source: Option<ParseError>,
}

pub struct ExpressionErrorView {
    pub message: Seq<char>,
    pub position: Option<Position>,
    pub source: Option<ParseErrorView>,
}

impl View for ExpressionError {
    type V = ExpressionErrorView;

    closed spec fn view(&self) -> ExpressionErrorView {
        ExpressionErrorView {
            message: self.message@,
            position: self.position,
            source: match self.source {
                Some(e) => Some(e@),
                None => None,
            },
        }
    }
}

impl ExpressionErrorView {
    pub open spec fn new(message: Seq<char>, position: Option<Position>) -> ExpressionErrorView {
        ExpressionErrorView { message, position, source: None }
    }

    /// The error for a call without arguments.
    pub open spec fn missing_arguments() -> ExpressionErrorView {
        ExpressionErrorView {
            message: "Expected at least one argument"@,
            position: None,
            source: None,
        }
    }

    /// The error for an argument at `position` whose type `found` does not
    /// fit: the message names `found` as the type that is not valid, and
    /// `expected` as the type that is required.
    pub open spec fn type_error(expected: ValueType, found: ValueType, position: Position)
        -> ExpressionErrorView {
        ExpressionErrorView {
            message: "Type "@ + found.name_text() + " not valid, require "@ + expected.name_text(),
            position: Some(position),
            source: None,
        }
    }

    /// The error for a call of a function that the engine does not have.
    pub open spec fn unknown_function(name: Seq<char>) -> ExpressionErrorView {
        ExpressionErrorView { message: "Unknown function "@ + name, position: None, source: None }
    }

    /// The error for numbers that are to be put in order and cannot be.
    pub open spec fn unordered() -> ExpressionErrorView {
        ExpressionErrorView { message: "Values cannot be ordered"@, position: None, source: None }
    }

    /// The semantic error that a syntactic error turns into.
    pub open spec fn from_parse_error(error: ParseErrorView) -> ExpressionErrorView {
        ExpressionErrorView {
            message: "Parse error"@,
            position: error.position,
            source: Some(error),
        }
    }
}

impl ExpressionError {
    /// The message and place are those given; there is no cause.
    pub fn new(message: &str, position: Option<&Position>) -> (e: ExpressionError)
        ensures
            e@ == ExpressionErrorView::new(
                message@,
                match position {
                    Some(p) => Some(*p),
                    None => None,
                },
            ),
    {
        ExpressionError {
            message: String::from_str(message),
            position: match position {
                Some(p) => Some(*p),
                None => None,
            },
            source: None,
        }
    }

    /// The error for a call without arguments.
    pub fn missing_arguments() -> (e: ExpressionError)
        ensures
            e@ == ExpressionErrorView::missing_arguments(),
    {
        ExpressionError {
            message: String::from_str("Expected at least one argument"),
            position: None,
            source: None,
        }
    }

    /// The error for an argument at `position` whose type `found` does not
    /// fit where `expected` is required.
    pub fn type_error(expected: &ValueType, found: &ValueType, position: Position) -> (e:
        ExpressionError)
        ensures
            e@ == ExpressionErrorView::type_error(*expected, *found, position),
    {
        let mut message = String::from_str("Type ");
        let unfit = found.name();
        message.append(unfit.as_str());
        message.append(" not valid, require ");
        let required = expected.name();
        message.append(required.as_str());
        ExpressionError { message, position: Some(position), source: None }
    }

    /// The error for a call of a function that the engine does not have.
    pub fn unknown_function(name: &str) -> (e: ExpressionError)
        ensures
            e@ == ExpressionErrorView::unknown_function(name@),
    {
        let mut message = String::from_str("Unknown function ");
        message.append(name);
        ExpressionError { message, position: None, source: None }
    }

    /// The error for numbers that are to be put in order and cannot be:
    /// one of them is not a number.
    pub fn unordered() -> (e: ExpressionError)
        ensures
            e@ == ExpressionErrorView::unordered(),
    {
        ExpressionError {
            message: String::from_str("Values cannot be ordered"),
            position: None,
            source: None,
        }
    }

    /// The syntactic error that caused this one, if one did.
    pub fn source(&self) -> (cause: Option<&ParseError>)
        ensures
            match cause {
                Some(e) => self@.source == Some(e@),
                None => self@.source is None,
            },
    {
        self.source.as_ref()
    }

    /// This error as shown to a reader.
    pub fn to_string(&self) -> (s: String)
        ensures
            s@ == rendered(self@.message, self@.position),
    {
        render(self.message.as_str(), self.position)
    }
}

impl Error for ExpressionError {
    open spec fn message_text(&self) -> Seq<char> {
        self@.message
    }

    open spec fn place(&self) -> Option<Position> {
        self@.position
    }

    open spec fn cause_text(&self) -> Option<Seq<char>> {
        match self@.source {
            Some(e) => Some(e.message),
            None => None,
        }
    }

    fn message(&self) -> (m: String) {
        self.message.clone()
    }

    fn position(&self) -> (p: Option<Position>) {
        self.position
    }

    fn source_message(&self) -> (c: Option<String>) {
        match &self.source {
            Some(e) => Some(e.message()),
            None => None,
        }
    }
}

impl From<ParseError> for ExpressionError {
    fn from(error: ParseError) -> (e: ExpressionError)
        ensures
            e@ == ExpressionErrorView::from_parse_error(error@),
    {
        let position = error.position();
        ExpressionError { message: String::from_str("Parse error"), position, source: Some(error) }
    }
}

impl vstd::std_specs::convert::FromSpecImpl<ParseError> for ExpressionError {
    /// The conversion is stated on views, by the `ensures` of `from`.
    open spec fn obeys_from_spec() -> bool {
        false
    }

    open spec fn from_spec(error: ParseError) -> ExpressionError {
        arbitrary()
    }
}

} // verus!

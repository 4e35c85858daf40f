//! The grammar, as functions on a stream of tokens. They say which tree a
//! formula parses to, or with which error it is refused; the parser is proved
//! against them.
//!
//! ```text
//! start      := '=' or_expr
//! or_expr    := and_expr ('|' and_expr)*
//! and_expr   := not_expr ('&' not_expr)*
//! not_expr   := '!' not_expr | cmp_expr
//! cmp_expr   := add_expr (('=='|'!='|'<'|'<='|'>'|'>=') add_expr)*
//! add_expr   := mul_expr (('+'|'-') mul_expr)*
//! mul_expr   := pow_expr (('*'|'/'|'%') pow_expr)*
//! pow_expr   := unary_expr ('^' unary_expr)*
//! unary_expr := '-'? primary
//! primary    := NUMBER | STRING | BOOLEAN
//!             | IDENTIFIER ['(' (or_expr (',' or_expr)*)? ')']
//!             | '(' or_expr ')'
//! ```
//!
//! Every binary level folds to the left, the power level too.
use vstd::prelude::*;
use super::super::tokeniser::lexical::TokenStream;
use super::super::tokeniser::{TokenType, TokenValueView, TokenView};
use super::error::ParseErrorView;
use super::node::{BinaryOpType, NodeView, UnaryOpType};

verus! {

/// The binary levels of the grammar, from the loosest to the tightest.
#[derive(Clone, Copy, Debug, PartialEq, Eq, Structural)]
pub enum Level {
    Or,
    And,
    Comparison,
    Sum,
    Product,
    Power,
}

impl Level {
    /// The operator of this level that a token of kind `kind` stands for.
    pub open spec fn operator(self, kind: TokenType) -> Option<BinaryOpType> {
        match (self, kind) {
            (Level::Or, TokenType::Or) => Some(BinaryOpType::Or),
            (Level::And, TokenType::And) => Some(BinaryOpType::And),
            (Level::Comparison, TokenType::Equal) => Some(BinaryOpType::Eq),
            (Level::Comparison, TokenType::NEqual) => Some(BinaryOpType::Ne),
            (Level::Comparison, TokenType::LessThan) => Some(BinaryOpType::Lt),
            (Level::Comparison, TokenType::GreaterThan) => Some(BinaryOpType::Gt),
            (Level::Comparison, TokenType::LTEqual) => Some(BinaryOpType::Le),
            (Level::Comparison, TokenType::GTEqual) => Some(BinaryOpType::Ge),
            (Level::Sum, TokenType::Plus) => Some(BinaryOpType::Add),
            (Level::Sum, TokenType::Minus) => Some(BinaryOpType::Sub),
            (Level::Product, TokenType::Mul) => Some(BinaryOpType::Mul),
            (Level::Product, TokenType::Div) => Some(BinaryOpType::Div),
            (Level::Product, TokenType::Mod) => Some(BinaryOpType::Mod),
            (Level::Power, TokenType::Exp) => Some(BinaryOpType::Pow),
            _ => None,
        }
    }

    /// The place of the level in the order in which the levels call each
    /// other; the definitions below lean on it to be well founded.
    pub open spec fn depth(self) -> nat {
        match self {
            Level::Or => 20,
            Level::And => 18,
            Level::Comparison => 14,
            Level::Sum => 12,
            Level::Product => 10,
            Level::Power => 8,
        }
    }
}

/// A tree and the number of tokens that it was read from, or the error.
pub type Parsed = Result<(NodeView, nat), ParseErrorView>;

/// The token at index `at`; behind the stream, the end token without a
/// place.
pub open spec fn token_at(stream: TokenStream, at: nat) -> TokenView {
    if at < stream.tokens.len() {
        stream.tokens[at as int]
    } else {
        TokenView::eof()
    }
}

/// How many tokens are left from index `at` on.
pub open spec fn left(stream: TokenStream, at: nat) -> nat {
    if at < stream.tokens.len() {
        (stream.tokens.len() - at) as nat
    } else {
        0
    }
}

/// The error of an attempt to go on behind the last token of the stream:
/// behind the end token it says that the input is at its end, behind any
/// other token it is the lexical error that ended the stream. Either way
/// the tokeniser's error is its cause.
pub open spec fn retrieval_error(stream: TokenStream) -> ParseErrorView {
    if stream.complete() {
        ParseErrorView::out_of_tokens(stream.failure)
    } else {
        ParseErrorView::from_token_error(stream.failure)
    }
}

/// Going on from the token at `at` to the next one: an error where the
/// stream has no next one.
pub open spec fn pulled(stream: TokenStream, at: nat) -> Result<(), ParseErrorView> {
    if at + 1 < stream.tokens.len() {
        Ok(())
    } else {
        Err(retrieval_error(stream))
    }
}

/// Passing a token of kind `kind` at `at`: an error where the token there
/// is of another kind, or where the stream has no next token.
pub open spec fn expected(stream: TokenStream, at: nat, kind: TokenType) -> Result<
    (),
    ParseErrorView,
> {
    let token = token_at(stream, at);
    if token.token_type == kind {
        pulled(stream, at)
    } else {
        Err(ParseErrorView::expected(kind, token.token_type, token.position))
    }
}

/// The text that a token carries; empty where it carries none.
pub open spec fn text_of(token: TokenView) -> Seq<char> {
    match token.value {
        TokenValueView::String(s) => s,
        TokenValueView::Number(s) => s,
        _ => Seq::empty(),
    }
}

/// The truth value that a token carries; `false` where it carries none.
pub open spec fn truth_of(token: TokenView) -> bool {
    match token.value {
        TokenValueView::Boolean(b) => b,
        _ => false,
    }
}

/// `start := '=' or_expr`
pub open spec fn parse_formula(stream: TokenStream, at: nat) -> Parsed {
    match expected(stream, at, TokenType::Assign) {
        Err(e) => Err(e),
        Ok(_) => match parse_binary(stream, at + 1, Level::Or) {
            Err(e) => Err(e),
            Ok((node, used)) => Ok((node, 1 + used)),
        },
    }
}

/// One binary level: an operand of the level, and after it any number of
/// pairs of an operator of the level and an operand, folded to the left.
pub open spec fn parse_binary(stream: TokenStream, at: nat, level: Level) -> Parsed
    decreases left(stream, at), level.depth(),
{
    match parse_operand(stream, at, level) {
        Err(e) => Err(e),
        Ok((first, used)) => match parse_tail(stream, at + used, level, first) {
            Err(e) => Err(e),
            Ok((node, more)) => Ok((node, used + more)),
        },
    }
}

/// An operand of a binary level: an expression of the next tighter level.
pub open spec fn parse_operand(stream: TokenStream, at: nat, level: Level) -> Parsed
    decreases left(stream, at), level.depth() - 1,
{
    match level {
        Level::Or => parse_binary(stream, at, Level::And),
        Level::And => parse_not(stream, at),
        Level::Comparison => parse_binary(stream, at, Level::Sum),
        Level::Sum => parse_binary(stream, at, Level::Product),
        Level::Product => parse_binary(stream, at, Level::Power),
        Level::Power => parse_unary(stream, at),
    }
}

/// What follows the first operand of a binary level; `first` is what was
/// read so far.
pub open spec fn parse_tail(stream: TokenStream, at: nat, level: Level, first: NodeView)
    -> Parsed
    decreases left(stream, at), level.depth() - 1,
{
    match level.operator(token_at(stream, at).token_type) {
        None => Ok((first, 0)),
        Some(op) => match pulled(stream, at) {
            Err(e) => Err(e),
            Ok(_) => match parse_operand(stream, at + 1, level) {
                Err(e) => Err(e),
                Ok((second, used)) => match parse_tail(
                    stream,
                    at + 1 + used,
                    level,
                    NodeView::BinaryOp {
                        left: Box::new(first),
                        right: Some((op, Box::new(second))),
                    },
                ) {
                    Err(e) => Err(e),
                    Ok((node, more)) => Ok((node, 1 + used + more)),
                },
            },
        },
    }
}

/// `not_expr := '!' not_expr | cmp_expr`
pub open spec fn parse_not(stream: TokenStream, at: nat) -> Parsed
    decreases left(stream, at), 16nat,
{
    if token_at(stream, at).token_type == TokenType::Not {
        match pulled(stream, at) {
            Err(e) => Err(e),
            Ok(_) => match parse_not(stream, at + 1) {
                Err(e) => Err(e),
                Ok((operand, used)) => Ok(
                    (
                        NodeView::UnaryOp { op: Some(UnaryOpType::Not), right: Box::new(operand) },
                        1 + used,
                    ),
                ),
            },
        }
    } else {
        parse_binary(stream, at, Level::Comparison)
    }
}

/// `unary_expr := '-'? primary`
pub open spec fn parse_unary(stream: TokenStream, at: nat) -> Parsed
    decreases left(stream, at), 6nat,
{
    if token_at(stream, at).token_type == TokenType::Minus {
        match pulled(stream, at) {
            Err(e) => Err(e),
            Ok(_) => match parse_primary(stream, at + 1) {
                Err(e) => Err(e),
                Ok((operand, used)) => Ok(
                    (
                        NodeView::UnaryOp { op: Some(UnaryOpType::Neg), right: Box::new(operand) },
                        1 + used,
                    ),
                ),
            },
        }
    } else {
        parse_primary(stream, at)
    }
}

/// A literal, an identifier, a function call, or an expression in
/// parentheses.
pub open spec fn parse_primary(stream: TokenStream, at: nat) -> Parsed
    decreases left(stream, at), 5nat,
{
    let token = token_at(stream, at);
    match token.token_type {
        TokenType::String => match pulled(stream, at) {
            Err(e) => Err(e),
            Ok(_) => Ok((NodeView::String(text_of(token)), 1)),
        },
        TokenType::Number => match pulled(stream, at) {
            Err(e) => Err(e),
            Ok(_) => Ok((NodeView::Number(text_of(token)), 1)),
        },
        TokenType::Boolean => match pulled(stream, at) {
            Err(e) => Err(e),
            Ok(_) => Ok((NodeView::Boolean(truth_of(token)), 1)),
        },
        TokenType::Identifier => match pulled(stream, at) {
            Err(e) => Err(e),
            Ok(_) => if token_at(stream, at + 1).token_type == TokenType::OpenParen {
                match pulled(stream, at + 1) {
                    Err(e) => Err(e),
                    Ok(_) => match parse_call_arguments(stream, at + 2) {
                        Err(e) => Err(e),
                        Ok((args, used)) => match expected(
                            stream,
                            at + 2 + used,
                            TokenType::CloseParen,
                        ) {
                            Err(e) => Err(e),
                            Ok(_) => Ok(
                                (NodeView::Function { name: text_of(token), args }, 3 + used),
                            ),
                        },
                    },
                }
            } else {
                Ok((NodeView::Identifier(text_of(token)), 1))
            },
        },
        TokenType::OpenParen => match pulled(stream, at) {
            Err(e) => Err(e),
            Ok(_) => match parse_binary(stream, at + 1, Level::Or) {
                Err(e) => Err(e),
                Ok((node, used)) => match expected(stream, at + 1 + used, TokenType::CloseParen) {
                    Err(e) => Err(e),
                    Ok(_) => Ok((node, 2 + used)),
                },
            },
        },
        _ => Err(ParseErrorView::expected_primary(token)),
    }
}

/// What stands between the parentheses of a call: nothing, or a list of
/// arguments.
pub open spec fn parse_call_arguments(stream: TokenStream, at: nat) -> Result<
    (Seq<NodeView>, nat),
    ParseErrorView,
>
    decreases left(stream, at), 22nat,
{
    if token_at(stream, at).token_type == TokenType::CloseParen {
        Ok((Seq::empty(), 0))
    } else {
        parse_arguments(stream, at, Seq::empty())
    }
}

/// A list of arguments: `or_expr (',' or_expr)*`. `args` is what was read
/// so far.
pub open spec fn parse_arguments(stream: TokenStream, at: nat, args: Seq<NodeView>) -> Result<
    (Seq<NodeView>, nat),
    ParseErrorView,
>
    decreases left(stream, at), 21nat,
{
    match parse_binary(stream, at, Level::Or) {
        Err(e) => Err(e),
        Ok((node, used)) => if token_at(stream, at + used).token_type == TokenType::Comma {
            match pulled(stream, at + used) {
                Err(e) => Err(e),
                Ok(_) => match parse_arguments(stream, at + used + 1, args.push(node)) {
                    Err(e) => Err(e),
                    Ok((all, more)) => Ok((all, used + 1 + more)),
                },
            }
        } else {
            Ok((args.push(node), used))
        },
    }
}

/// What holds of every outcome of a parsing step that starts at `at`: a
/// tree was read from at least `least` tokens, and the token behind them is
/// in the stream; an error has no cause, or it is the error of going on
/// behind the last token of the stream.
pub open spec fn sound<T>(
    outcome: Result<(T, nat), ParseErrorView>,
    stream: TokenStream,
    at: nat,
    least: nat,
) -> bool {
    match outcome {
        Ok((_, used)) => used >= least && at + used < stream.tokens.len(),
        Err(e) => e.source is None || e == retrieval_error(stream),
    }
}

/// An error of going on behind the last token carries the tokeniser's error
/// as its cause.
pub proof fn lemma_retrieval_error_is_chained(stream: TokenStream)
    ensures
        retrieval_error(stream).source == Some(stream.failure),
{
}

/// An expression takes at least one token, and an error is either without a
/// cause or the error of going on behind the last token.
pub proof fn lemma_takes_a_token(stream: TokenStream, at: nat, level: Level)
    ensures
        sound(parse_binary(stream, at, level), stream, at, 1),
    decreases left(stream, at), level.depth(),
{
    lemma_operand(stream, at, level);
    match parse_operand(stream, at, level) {
        Err(e) => {},
        Ok((first, used)) => {
            lemma_tail(stream, at + used, level, first);
        },
    }
}

proof fn lemma_operand(stream: TokenStream, at: nat, level: Level)
    ensures
        sound(parse_operand(stream, at, level), stream, at, 1),
    decreases left(stream, at), level.depth() - 1,
{
    match level {
        Level::Or => lemma_takes_a_token(stream, at, Level::And),
        Level::And => lemma_not(stream, at),
        Level::Comparison => lemma_takes_a_token(stream, at, Level::Sum),
        Level::Sum => lemma_takes_a_token(stream, at, Level::Product),
        Level::Product => lemma_takes_a_token(stream, at, Level::Power),
        Level::Power => lemma_unary(stream, at),
    }
}

proof fn lemma_tail(stream: TokenStream, at: nat, level: Level, first: NodeView)
    requires
        at < stream.tokens.len(),
    ensures
        sound(parse_tail(stream, at, level, first), stream, at, 0),
    decreases left(stream, at), level.depth() - 1,
{
    match level.operator(token_at(stream, at).token_type) {
        None => {},
        Some(op) => {
            if pulled(stream, at) is Ok {
                lemma_operand(stream, at + 1, level);
                match parse_operand(stream, at + 1, level) {
                    Err(e) => {},
                    Ok((second, used)) => {
                        lemma_tail(
                            stream,
                            at + 1 + used,
                            level,
                            NodeView::BinaryOp {
                                left: Box::new(first),
                                right: Some((op, Box::new(second))),
                            },
                        );
                    },
                }
            }
        },
    }
}

proof fn lemma_not(stream: TokenStream, at: nat)
    ensures
        sound(parse_not(stream, at), stream, at, 1),
    decreases left(stream, at), 16nat,
{
    if token_at(stream, at).token_type == TokenType::Not {
        if pulled(stream, at) is Ok {
            lemma_not(stream, at + 1);
        }
    } else {
        lemma_takes_a_token(stream, at, Level::Comparison);
    }
}

proof fn lemma_unary(stream: TokenStream, at: nat)
    ensures
        sound(parse_unary(stream, at), stream, at, 1),
    decreases left(stream, at), 6nat,
{
    if token_at(stream, at).token_type == TokenType::Minus {
        if pulled(stream, at) is Ok {
            lemma_primary(stream, at + 1);
        }
    } else {
        lemma_primary(stream, at);
    }
}

proof fn lemma_primary(stream: TokenStream, at: nat)
    ensures
        sound(parse_primary(stream, at), stream, at, 1),
    decreases left(stream, at), 5nat,
{
    let token = token_at(stream, at);
    match token.token_type {
        TokenType::Identifier => {
            if pulled(stream, at) is Ok && token_at(stream, at + 1).token_type
                == TokenType::OpenParen && pulled(stream, at + 1) is Ok && token_at(
                stream,
                at + 2,
            ).token_type != TokenType::CloseParen {
                lemma_arguments(stream, at + 2, Seq::empty());
            }
        },
        TokenType::OpenParen => {
            if pulled(stream, at) is Ok {
                lemma_takes_a_token(stream, at + 1, Level::Or);
            }
        },
        _ => {},
    }
}

proof fn lemma_arguments(stream: TokenStream, at: nat, args: Seq<NodeView>)
    ensures
        sound(parse_arguments(stream, at, args), stream, at, 1),
    decreases left(stream, at), 21nat,
{
    lemma_takes_a_token(stream, at, Level::Or);
    match parse_binary(stream, at, Level::Or) {
        Err(e) => {},
        Ok((node, used)) => {
            if token_at(stream, at + used).token_type == TokenType::Comma && pulled(
                stream,
                at + used,
            ) is Ok {
                lemma_arguments(stream, at + used + 1, args.push(node));
            }
        },
    }
}

/// A formula takes at least two tokens, and an error of parsing one is
/// either without a cause or the error of going on behind the last token,
/// which carries the tokeniser's error as its cause.
pub proof fn lemma_formula(stream: TokenStream, at: nat)
    ensures
        sound(parse_formula(stream, at), stream, at, 2),
{
    if expected(stream, at, TokenType::Assign) is Ok {
        lemma_takes_a_token(stream, at + 1, Level::Or);
    }
}

} // verus!

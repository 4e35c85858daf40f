//! The lexical rules, as functions on the unread text. They say what one call
//! of the tokeniser returns and what it leaves unread; the tokeniser itself is
//! proved against them.
use vstd::prelude::*;
use super::super::Position;
use super::error::TokenErrorView;
use super::token::{TokenType, TokenView};
use crate::text::{alphanumeric, is_digit, is_word_start, whitespace};

verus! {

/// The character under the cursor: the first unread one, or the end
/// sentinel once nothing is left.
pub open spec fn peek(input: Seq<char>) -> char {
    if input.len() > 0 {
        input[0]
    } else {
        '\0'
    }
}

/// The classes of characters that tokens are runs of.
#[derive(Clone, Copy, Debug)]
pub enum CharClass {
    Digit,
    Alphanumeric,
    Whitespace,
}

impl CharClass {
    pub open spec fn contains(self, c: char) -> bool {
        match self {
            CharClass::Digit => is_digit(c),
            CharClass::Alphanumeric => alphanumeric(c),
            CharClass::Whitespace => whitespace(c),
        }
    }
}

/// The length of the longest prefix of `input` made of characters of
/// `class`.
pub open spec fn run_length(input: Seq<char>, class: CharClass) -> nat
    decreases input.len(),
{
    if input.len() > 0 && class.contains(input[0]) {
        1 + run_length(input.skip(1), class)
    } else {
        0
    }
}

/// A run is a prefix: it is no longer than the text, each of its characters
/// is of the class, and the character after it, if any, is not.
pub proof fn lemma_run_length(input: Seq<char>, class: CharClass)
    ensures
        run_length(input, class) <= input.len(),
        forall|i: int| 0 <= i < run_length(input, class) ==> class.contains(#[trigger] input[i]),
        run_length(input, class) < input.len() ==> !class.contains(
            input[run_length(input, class) as int],
        ),
    decreases input.len(),
{
    if input.len() > 0 && class.contains(input[0]) {
        lemma_run_length(input.skip(1), class);
        let n = run_length(input.skip(1), class);
        assert forall|i: int| 0 <= i < 1 + n implies class.contains(#[trigger] input[i]) by {
            if i > 0 {
                assert(input[i] == input.skip(1)[i - 1]);
            }
        }
    }
}

/// The character that stands behind a backslash for `c`, if `c` is a known
/// escape.
pub open spec fn unescaped(c: char) -> Option<char> {
    if c == 'n' {
        Some('\n')
    } else if c == 't' {
        Some('\t')
    } else if c == '\\' {
        Some('\\')
    } else if c == '\'' {
        Some('\'')
    } else if c == '"' {
        Some('"')
    } else {
        None
    }
}

/// What reading the inside of a string literal comes to.
pub enum StringBody {
    /// The closing quote was found. `length` counts what was passed, the
    /// closing quote included.
    Closed { value: Seq<char>, length: nat },
    /// The literal is broken at the character `found`, after `length`
    /// characters: an unknown escape, or the end of the input (`'\0'`).
    Broken { found: char, length: nat },
}

impl StringBody {
    /// This outcome, read behind `value` and `passed` earlier characters.
    pub open spec fn prefixed(self, value: Seq<char>, passed: nat) -> StringBody {
        match self {
            StringBody::Closed { value: v, length } => StringBody::Closed {
                value: value + v,
                length: passed + length,
            },
            StringBody::Broken { found, length } => StringBody::Broken {
                found,
                length: passed + length,
            },
        }
    }

    pub open spec fn length(self) -> nat {
        match self {
            StringBody::Closed { length, .. } => length,
            StringBody::Broken { length, .. } => length,
        }
    }

    /// Two prefixes in a row are one.
    pub proof fn lemma_prefixed_twice(self, a: Seq<char>, j: nat, b: Seq<char>, k: nat)
        ensures
            self.prefixed(b, k).prefixed(a, j) == self.prefixed(a + b, j + k),
    {
        match self {
            StringBody::Closed { value: v, length } => {
                assert(a + (b + v) =~= (a + b) + v);
            },
            StringBody::Broken { .. } => {},
        }
    }
}

/// Reads the inside of a string literal that was opened with `quote`;
/// `input` starts behind the opening quote.
pub open spec fn string_body(input: Seq<char>, quote: char) -> StringBody
    decreases input.len(),
{
    if input.len() == 0 {
        StringBody::Broken { found: '\0', length: 0 }
    } else if input[0] == quote {
        StringBody::Closed { value: Seq::empty(), length: 1 }
    } else if input[0] == '\\' {
        if input.len() < 2 {
            StringBody::Broken { found: '\0', length: 1 }
        } else {
            match unescaped(input[1]) {
                Some(c) => string_body(input.skip(2), quote).prefixed(seq![c], 2),
                None => StringBody::Broken { found: input[1], length: 1 },
            }
        }
    } else {
        string_body(input.skip(1), quote).prefixed(seq![input[0]], 1)
    }
}

/// Reading a string literal never passes more than there is.
pub proof fn lemma_string_body_length(input: Seq<char>, quote: char)
    ensures
        string_body(input, quote).length() <= input.len(),
    decreases input.len(),
{
    if input.len() == 0 {
    } else if input[0] == quote {
    } else if input[0] == '\\' {
        if input.len() >= 2 && unescaped(input[1]) is Some {
            lemma_string_body_length(input.skip(2), quote);
        }
    } else {
        lemma_string_body_length(input.skip(1), quote);
    }
}

/// The kind of the token that the punctuation character `c` is by itself.
pub open spec fn symbol_kind(c: char) -> Option<TokenType> {
    if c == '@' {
        Some(TokenType::At)
    } else if c == '&' {
        Some(TokenType::And)
    } else if c == '|' {
        Some(TokenType::Or)
    } else if c == '=' {
        Some(TokenType::Assign)
    } else if c == '<' {
        Some(TokenType::LessThan)
    } else if c == '>' {
        Some(TokenType::GreaterThan)
    } else if c == '!' {
        Some(TokenType::Not)
    } else if c == '(' {
        Some(TokenType::OpenParen)
    } else if c == ')' {
        Some(TokenType::CloseParen)
    } else if c == '[' {
        Some(TokenType::OpenBracket)
    } else if c == ']' {
        Some(TokenType::CloseBracket)
    } else if c == '{' {
        Some(TokenType::OpenBrace)
    } else if c == '}' {
        Some(TokenType::CloseBrace)
    } else if c == ',' {
        Some(TokenType::Comma)
    } else if c == ':' {
        Some(TokenType::Colon)
    } else if c == '+' {
        Some(TokenType::Plus)
    } else if c == '-' {
        Some(TokenType::Minus)
    } else if c == '*' {
        Some(TokenType::Mul)
    } else if c == '/' {
        Some(TokenType::Div)
    } else if c == '%' {
        Some(TokenType::Mod)
    } else if c == '^' {
        Some(TokenType::Exp)
    } else if c == '#' {
        Some(TokenType::Concat)
    } else {
        None
    }
}

/// The kind of the two-character token that `c` opens when `=` follows it.
pub open spec fn paired_kind(c: char) -> Option<TokenType> {
    if c == '=' {
        Some(TokenType::Equal)
    } else if c == '<' {
        Some(TokenType::LTEqual)
    } else if c == '>' {
        Some(TokenType::GTEqual)
    } else if c == '!' {
        Some(TokenType::NEqual)
    } else {
        None
    }
}

/// Whether `c` is one of the three blanks that may stand before a token.
pub open spec fn is_blank(c: char) -> bool {
    c == ' ' || c == '\t' || c == '\n'
}

/// The outcome of one scanning step.
pub struct Scan {
    /// The token, or the lexical error.
    pub result: Result<TokenView, TokenErrorView>,
    /// What is left unread afterwards.
    pub rest: Seq<char>,
    /// Where the cursor stands afterwards.
    pub position: Position,
}

/// The step that passes the first `length` characters of `input` and
/// returns `token`.
pub open spec fn taken(input: Seq<char>, position: Position, length: nat, token: TokenView)
    -> Scan {
    Scan {
        result: Ok(token),
        rest: input.skip(length as int),
        position: position.after(input.take(length as int)),
    }
}

/// The token that the word `word` is: one of the two boolean literals, or an
/// identifier.
pub open spec fn word_token(word: Seq<char>, position: Position) -> TokenView {
    if word == "true"@ {
        TokenView::boolean(true, position)
    } else if word == "false"@ {
        TokenView::boolean(false, position)
    } else {
        TokenView::identifier(word, position)
    }
}

/// One scanning step on the unread text `input`, with the cursor at
/// `position`.
///
/// - A digit opens a number: the longest run of digits.
/// - A letter or an underscore opens a word: that character and the longest
///   run of alphanumeric characters behind it. `true` and `false` are
///   boolean literals, every other word is an identifier.
/// - A quote opens a string literal, closed by the same quote.
/// - A blank is passed together with the run of whitespace behind it, and
///   the step starts again.
/// - `=`, `<`, `>`, `!` take a directly following `=` with them.
/// - The end sentinel gives the end token, and nothing is passed.
/// - Any other character is an error, and nothing is passed.
pub open spec fn scan(input: Seq<char>, position: Position) -> Scan
    decreases input.len(),
{
    let c = peek(input);
    if is_digit(c) {
        let n = run_length(input, CharClass::Digit);
        taken(input, position, n, TokenView::number(input.take(n as int), position))
    } else if is_word_start(c) {
        let n = 1 + run_length(input.skip(1), CharClass::Alphanumeric);
        taken(input, position, n, word_token(input.take(n as int), position))
    } else if c == '"' || c == '\'' {
        match string_body(input.skip(1), c) {
            StringBody::Closed { value, length } => taken(
                input,
                position,
                1 + length,
                TokenView::string(value, position),
            ),
            StringBody::Broken { found, length } => {
                let at = position.after(input.take(1 + length as int));
                Scan {
                    result: Err(TokenErrorView::unexpected(found, at)),
                    rest: input.skip(1 + length as int),
                    position: at,
                }
            },
        }
    } else if is_blank(c) {
        let n = 1 + run_length(input.skip(1), CharClass::Whitespace);
        proof {
            lemma_run_length(input.skip(1), CharClass::Whitespace);
        }
        scan(input.skip(n as int), position.after(input.take(n as int)))
    } else if paired_kind(c) is Some && peek(input.skip(1)) == '=' {
        taken(input, position, 2, TokenView::symbol(paired_kind(c)->0, position))
    } else if symbol_kind(c) is Some {
        taken(input, position, 1, TokenView::symbol(symbol_kind(c)->0, position))
    } else if c == '\0' {
        Scan { result: Ok(TokenView::symbol(TokenType::EOF, position)), rest: input, position }
    } else {
        Scan { result: Err(TokenErrorView::unexpected(c, position)), rest: input, position }
    }
}

/// A step never gives text back, and a token other than the end token has
/// passed at least one character.
pub proof fn lemma_scan_consumes(input: Seq<char>, position: Position)
    ensures
        scan(input, position).rest.len() <= input.len(),
        scan(input, position).result is Ok && scan(input, position).result->Ok_0.token_type
            != TokenType::EOF ==> scan(input, position).rest.len() < input.len(),
        scan(input, position).result is Ok && scan(input, position).result->Ok_0.token_type
            == TokenType::EOF ==> peek(scan(input, position).rest) == '\0',
    decreases input.len(),
{
    let c = peek(input);
    if is_digit(c) {
        lemma_run_length(input, CharClass::Digit);
    } else if is_word_start(c) {
        lemma_run_length(input.skip(1), CharClass::Alphanumeric);
    } else if c == '"' || c == '\'' {
        lemma_string_body_length(input.skip(1), c);
    } else if is_blank(c) {
        let n = 1 + run_length(input.skip(1), CharClass::Whitespace);
        lemma_run_length(input.skip(1), CharClass::Whitespace);
        lemma_scan_consumes(input.skip(n as int), position.after(input.take(n as int)));
    } else {
    }
}

/// All that a tokeniser yields from a given state on: the tokens in order,
/// and the error that it answers with once they are handed out. That error
/// is the lexical error that ended the tokens, or, behind the end token, the
/// error that says that nothing is left.
pub struct TokenStream {
    pub tokens: Seq<TokenView>,
    pub failure: TokenErrorView,
}

impl TokenStream {
    /// Whether the tokens ran up to the end of the input.
    pub open spec fn complete(self) -> bool {
        self.tokens.len() > 0 && self.tokens.last().token_type == TokenType::EOF
    }
}

/// The tokens of the unread text `input`, with the cursor at `position`.
pub open spec fn token_stream(input: Seq<char>, position: Position) -> TokenStream
    decreases input.len(),
{
    let step = scan(input, position);
    match step.result {
        Err(e) => TokenStream { tokens: Seq::empty(), failure: e },
        Ok(t) => if t.token_type == TokenType::EOF {
            TokenStream { tokens: seq![t], failure: TokenErrorView::exhausted(0) }
        } else {
            proof {
                lemma_scan_consumes(input, position);
            }
            let then = token_stream(step.rest, step.position);
            TokenStream { tokens: seq![t] + then.tokens, failure: then.failure }
        },
    }
}

/// The end token ends a stream: no token before the last is the end token,
/// and behind the end token the tokeniser answers that nothing is left.
pub proof fn lemma_token_stream_shape(input: Seq<char>, position: Position)
    ensures
        forall|i: int|
            0 <= i < token_stream(input, position).tokens.len() - 1 ==> (#[trigger] token_stream(
                input,
                position,
            ).tokens[i]).token_type != TokenType::EOF,
        token_stream(input, position).complete() ==> token_stream(input, position).failure
            == TokenErrorView::exhausted(0),
    decreases input.len(),
{
    let step = scan(input, position);
    match step.result {
        Err(e) => {},
        Ok(t) => {
            if t.token_type != TokenType::EOF {
                lemma_scan_consumes(input, position);
                lemma_token_stream_shape(step.rest, step.position);
                let all = token_stream(input, position);
                assert forall|i: int| 0 <= i < all.tokens.len() - 1 implies (
                #[trigger] all.tokens[i]).token_type != TokenType::EOF by {}
            }
        },
    }
}

} // verus!

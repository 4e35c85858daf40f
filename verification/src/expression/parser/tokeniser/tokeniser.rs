//! The tokeniser: it hands out the tokens of a text one by one, and is
//! proved to hand out what the lexical rules say.
use vstd::prelude::*;
use vstd::string::*;
use std::collections::VecDeque;
use super::super::Position;
use super::error::{TokenError, TokenErrorView, TokenResult};
use super::lexical::{
    lemma_run_length, paired_kind, peek, run_length, scan, string_body, symbol_kind, token_stream,
    CharClass, TokenStream,
};
use super::token::{Token, TokenType, TokenView};
use crate::text::{chars_of, is_digit, is_word_start, push_char};

verus! {

/// How many characters the lookahead buffer of a tokeniser holds at most.
pub const LOOKAHEAD: usize = 10;

/// A lexer over a text held in memory. It reads the text through a small
/// lookahead buffer that it refills in chunks, and hands out one token per
/// call until it has handed out the end token.
#[derive(Debug)]
pub struct Tokeniser {
    /// The text, followed by the end sentinel; `None` until a text is given.
    source: Option<Vec<char>>,
    /// How many characters of `source` have been moved into `buffer`.
    loaded: usize,
    position: Position,
    buffer: VecDeque<char>,
    bufsiz: usize,
    exhausted: bool,
}

/// What a tokeniser is, to its callers.
pub struct TokeniserView {
    /// Whether it has been given a text.
    pub sourced: bool,
    /// The part of the text that it has not passed yet.
    pub unread: Seq<char>,
    /// Where its cursor stands.
    pub position: Position,
    /// Whether it has handed out the end token.
    pub exhausted: bool,
}

impl TokeniserView {
    /// What the next call of `get_token` returns.
    pub open spec fn next_result(self) -> Result<TokenView, TokenErrorView> {
        if self.exhausted {
            Err(TokenErrorView::exhausted(0))
        } else if !self.sourced {
            Err(TokenErrorView::no_source())
        } else {
            scan(self.unread, self.position).result
        }
    }

    /// The state that the next call of `get_token` leaves.
    pub open spec fn next_state(self) -> TokeniserView {
        if self.exhausted || !self.sourced {
            self
        } else {
            let step = scan(self.unread, self.position);
            TokeniserView {
                sourced: true,
                unread: step.rest,
                position: step.position,
                exhausted: step.result is Ok && step.result->Ok_0.token_type == TokenType::EOF,
            }
        }
    }

    /// All the tokens that are still to come, and the error that follows
    /// them.
    pub open spec fn stream(self) -> TokenStream {
        if self.exhausted {
            TokenStream { tokens: Seq::empty(), failure: TokenErrorView::exhausted(0) }
        } else if !self.sourced {
            TokenStream { tokens: Seq::empty(), failure: TokenErrorView::no_source() }
        } else {
            token_stream(self.unread, self.position)
        }
    }

    /// What is still to come is what the next call returns, followed by
    /// what is to come after it.
    pub proof fn lemma_stream_unfolds(self)
        ensures
            match self.next_result() {
                Ok(t) => self.stream().tokens == seq![t] + self.next_state().stream().tokens
                    && self.stream().failure == self.next_state().stream().failure,
                Err(e) => self.stream().tokens == Seq::<TokenView>::empty() && self.stream().failure
                    == e,
            },
    {
    }
}

impl View for Tokeniser {
    type V = TokeniserView;

    closed spec fn view(&self) -> TokeniserView {
        TokeniserView {
            sourced: self.source is Some,
            unread: match self.source {
                Some(src) => src@.subrange(self.passed(), src@.len() - 1),
                None => Seq::empty(),
            },
            position: self.position,
            exhausted: self.exhausted,
        }
    }
}

impl Default for Tokeniser {
    fn default() -> (t: Tokeniser)
        ensures
            t.wf(),
            t@ == (TokeniserView {
                sourced: false,
                unread: Seq::empty(),
                position: Position { line: 1, column: 1 },
                exhausted: false,
            }),
    {
        Tokeniser {
            source: None,
            loaded: 0,
            position: Position { line: 1, column: 1 },
            buffer: VecDeque::new(),
            bufsiz: LOOKAHEAD,
            exhausted: false,
        }
    }
}

impl Tokeniser {
    /// How many characters of the source the cursor has passed.
    closed spec fn passed(&self) -> int {
        self.loaded - self.buffer@.len()
    }

    /// The invariant of a tokeniser: the buffer holds the part of the source
    /// between the cursor and what was loaded, the end sentinel is never
    /// passed, and line and column are bounded by what was passed.
    pub closed spec fn wf(&self) -> bool {
        &&& self.bufsiz == LOOKAHEAD
        &&& self.buffer@.len() <= self.bufsiz
        &&& match self.source {
            Some(src) => {
                &&& src@.len() >= 1
                &&& src@.last() == '\0'
                &&& self.loaded <= src@.len()
                &&& self.buffer@.len() <= self.loaded
                &&& self.buffer@ == src@.subrange(self.passed(), self.loaded as int)
                &&& self.passed() < src@.len()
                &&& self.position.line <= self.passed() + 1
                &&& self.position.column <= self.passed() + 1
            },
            None => self.buffer@.len() == 0 && self.loaded == 0,
        }
    }

    /// How many characters the tokeniser holds in its lookahead buffer.
    pub closed spec fn lookahead(&self) -> nat {
        self.buffer@.len()
    }

    /// The lookahead buffer is bounded.
    pub proof fn lemma_lookahead_is_bounded(&self)
        requires
            self.wf(),
        ensures
            self.lookahead() <= LOOKAHEAD,
    {
    }

    /// A tokeniser without a text. Every call of `get_token` on it fails.
    pub fn new() -> (t: Tokeniser)
        ensures
            t.wf(),
            t@ == (TokeniserView {
                sourced: false,
                unread: Seq::empty(),
                position: Position { line: 1, column: 1 },
                exhausted: false,
            }),
    {
        Default::default()
    }

    /// Gives the tokeniser its text: `source` with the end sentinel behind
    /// it.
    fn init(&mut self, source: Vec<char>)
        requires
            old(self).wf(),
            !old(self)@.sourced,
            source@.len() >= 1,
            source@.last() == '\0',
            old(self).position.line <= 1,
            old(self).position.column <= 1,
        ensures
            final(self).wf(),
            final(self)@ == (TokeniserView {
                sourced: true,
                unread: source@.drop_last(),
                ..old(self)@
            }),
    {
        self.source = Some(source);
        assert(self.buffer@ =~= source@.subrange(0, 0));
    }

    /// A tokeniser at the start of `input`, at line 1 and column 1.
    pub fn from_string(input: &String) -> (t: Tokeniser)
        ensures
            t.wf(),
            t@ == (TokeniserView {
                sourced: true,
                unread: input@,
                position: Position { line: 1, column: 1 },
                exhausted: false,
            }),
    {
        let mut tokeniser = Tokeniser::new();
        let mut source = chars_of(input.as_str());
        source.push('\0');
        assert(source@.drop_last() =~= input@);
        tokeniser.init(source);
        tokeniser
    }

    /// Where the cursor stands.
    pub fn position(&self) -> (p: Position)
        ensures
            p == self@.position,
    {
        self.position
    }

    /// Whether the end token has been handed out.
    pub fn is_exhausted(&self) -> (b: bool)
        ensures
            b == self@.exhausted,
    {
        self.exhausted
    }

    /// Fills the lookahead buffer from the source: afterwards it holds what
    /// stands before the cursor, the end sentinel included, up to
    /// `LOOKAHEAD` characters. What it held before stays at its front.
    /// Fails, and leaves the buffer as it is, where no text was given.
    fn pad_buffer(&mut self) -> (r: TokenResult<()>)
        requires
            old(self).wf(),
        ensures
            final(self).wf(),
            final(self)@ == old(self)@,
            match r {
                Ok(_) => {
                    let ahead = old(self)@.unread.push('\0');
                    &&& old(self)@.sourced
                    &&& final(self).buffer@.len() == if ahead.len() < LOOKAHEAD {
                        ahead.len()
                    } else {
                        LOOKAHEAD as nat
                    }
                    &&& final(self).buffer@ == ahead.take(final(self).buffer@.len() as int)
                    &&& old(self).buffer@ == final(self).buffer@.take(
                        old(self).buffer@.len() as int,
                    )
                },
                Err(e) => {
                    &&& !old(self)@.sourced
                    &&& e@ == TokenErrorView::no_source()
                    &&& final(self).buffer@ == old(self).buffer@
                },
            },
    {
        if let Some(source) = &self.source {
            while self.buffer.len() < self.bufsiz && self.loaded < source.len()
                invariant
                    self.wf(),
                    self.source == Some(*source),
                    self.source == old(self).source,
                    self.passed() == old(self).passed(),
                    self.position == old(self).position,
                    self.exhausted == old(self).exhausted,
                    old(self).buffer@.len() <= self.buffer@.len(),
                    old(self).buffer@ == self.buffer@.take(old(self).buffer@.len() as int),
                decreases source.len() - self.loaded,
            {
                self.buffer.push_back(source[self.loaded]);
                self.loaded += 1;
                assert(self.buffer@ =~= source@.subrange(self.passed(), self.loaded as int));
                assert(old(self).buffer@ =~= self.buffer@.take(old(self).buffer@.len() as int));
            }
            proof {
                let ahead = old(self)@.unread.push('\0');
                assert(ahead =~= source@.subrange(self.passed(), source@.len() as int));
                assert(self.buffer@ =~= ahead.take(self.buffer@.len() as int));
            }
            Ok(())
        } else {
            Err(TokenError::no_source())
        }
    }

    /// Passes the character under the cursor, which is not the end sentinel.
    fn advance(&mut self) -> (r: TokenResult<()>)
        requires
            old(self).wf(),
            old(self)@.unread.len() > 0,
        ensures
            final(self).wf(),
            r is Ok,
            final(self)@ == (TokeniserView {
                unread: old(self)@.unread.skip(1),
                position: old(self)@.position.advance(old(self)@.unread[0]),
                ..old(self)@
            }),
    {
        if self.buffer.len() == 0 {
            self.pad_buffer()?;
        }
        assert(self.position.line < self.source->0.len());
        if let Some(c) = self.buffer.pop_front() {
            if c == '\n' {
                self.position.line += 1;
                self.position.column = 1;
            } else {
                self.position.column += 1;
            }
        };
        assert(self.buffer@ =~= self.source->0@.subrange(self.passed(), self.loaded as int));
        assert(self@.unread =~= old(self)@.unread.skip(1));
        Ok(())
    }

    /// The character under the cursor.
    fn get_char(&mut self) -> (r: TokenResult<char>)
        requires
            old(self).wf(),
        ensures
            final(self).wf(),
            final(self)@ == old(self)@,
            match r {
                Ok(c) => old(self)@.sourced && c == peek(old(self)@.unread),
                Err(e) => !old(self)@.sourced && e@ == TokenErrorView::no_source(),
            },
    {
        if self.buffer.len() < self.bufsiz / 2 {
            self.pad_buffer()?;
        }
        if self.buffer.len() > 0 {
            Ok(self.buffer[0])
        } else {
            // not reached: after padding the buffer holds the end sentinel at least
            Err(TokenError::exhausted(1))
        }
    }

    /// Whether nothing but the end sentinel is left.
    fn at_end(&self) -> (b: bool)
        requires
            self.wf(),
            self@.sourced,
        ensures
            b == (self@.unread.len() == 0),
    {
        match &self.source {
            Some(source) => self.loaded - self.buffer.len() == source.len() - 1,
            None => true,
        }
    }

    /// Passes the longest run of characters of `class` under the cursor,
    /// and appends it to `value` if `keep` is set.
    fn read_run(&mut self, class: CharClass, value: &mut String, keep: bool) -> (r: TokenResult<
        (),
    >)
        requires
            old(self).wf(),
            old(self)@.sourced,
        ensures
            final(self).wf(),
            r is Ok,
            final(self)@ == (TokeniserView {
                unread: old(self)@.unread.skip(run_length(old(self)@.unread, class) as int),
                position: old(self)@.position.after(
                    old(self)@.unread.take(run_length(old(self)@.unread, class) as int),
                ),
                ..old(self)@
            }),
            final(value)@ == if keep {
                old(value)@ + old(self)@.unread.take(run_length(old(self)@.unread, class) as int)
            } else {
                old(value)@
            },
    {
        let ghost input = self@.unread;
        let ghost start = self@.position;
        let ghost mut i: int = 0;
        let mut c = self.get_char()?;
        assert(input.skip(0) =~= input);
        while !self.at_end() && in_class(class, c)
            invariant
                self.wf(),
                self@.sourced,
                self@.exhausted == old(self)@.exhausted,
                0 <= i <= input.len(),
                input == old(self)@.unread,
                start == old(self)@.position,
                self@.unread == input.skip(i),
                self@.position == start.after(input.take(i)),
                value@ == if keep {
                    old(value)@ + input.take(i)
                } else {
                    old(value)@
                },
                run_length(input, class) == i + run_length(input.skip(i), class),
                c == peek(self@.unread),
            decreases input.len() - i,
        {
            if keep {
                push_char(value, c);
            }
            self.advance()?;
            c = self.get_char()?;
            proof {
                assert(input.skip(i).skip(1) =~= input.skip(i + 1));
                assert(input.take(i + 1).drop_last() =~= input.take(i));
                i = i + 1;
            }
        }
        Ok(())
    }

    /// Reads a number: the longest run of digits under the cursor.
    fn read_number(&mut self) -> (r: TokenResult<Token>)
        requires
            old(self).wf(),
            old(self)@.sourced,
            !old(self)@.exhausted,
            is_digit(peek(old(self)@.unread)),
        ensures
            final(self).wf(),
            result_view(r) == old(self)@.next_result(),
            final(self)@ == old(self)@.next_state(),
    {
        let start = self.position;
        let mut value = String::new();
        self.read_run(CharClass::Digit, &mut value, true)?;
        Ok(Token::number(value, &start))
    }

    /// Reads a word: the character under the cursor, which opens it, and the
    /// longest run of alphanumeric characters behind it.
    fn read_word(&mut self) -> (r: TokenResult<Token>)
        requires
            old(self).wf(),
            old(self)@.sourced,
            !old(self)@.exhausted,
            is_word_start(peek(old(self)@.unread)),
        ensures
            final(self).wf(),
            result_view(r) == old(self)@.next_result(),
            final(self)@ == old(self)@.next_state(),
    {
        let ghost input = self@.unread;
        let start = self.position;
        let mut value = String::new();
        let c = self.get_char()?;
        push_char(&mut value, c);
        self.advance()?;
        self.read_run(CharClass::Alphanumeric, &mut value, true)?;
        proof {
            let m = run_length(input.skip(1), CharClass::Alphanumeric) as int;
            lemma_run_length(input.skip(1), CharClass::Alphanumeric);
            assert(seq![c] + input.skip(1).take(m) =~= input.take(1 + m));
            assert(input.skip(1).skip(m) =~= input.skip(1 + m));
            start.lemma_after_one(c);
            start.lemma_after_concat(seq![c], input.skip(1).take(m));
        }
        if same_text(value.as_str(), "true") {
            Ok(Token::boolean(true, &start))
        } else if same_text(value.as_str(), "false") {
            Ok(Token::boolean(false, &start))
        } else {
            Ok(Token::identifier(value, &start))
        }
    }

    /// Reads a string literal; the opening quote is under the cursor.
    fn read_string(&mut self) -> (r: TokenResult<Token>)
        requires
            old(self).wf(),
            old(self)@.sourced,
            !old(self)@.exhausted,
            peek(old(self)@.unread) == '"' || peek(old(self)@.unread) == '\'',
        ensures
            final(self).wf(),
            result_view(r) == old(self)@.next_result(),
            final(self)@ == old(self)@.next_state(),
    {
        let ghost input = self@.unread;
        let start = self.position;
        let mut value = String::new();
        let quote = self.get_char()?;
        self.advance()?;
        let ghost body = input.skip(1);
        let ghost mut i: int = 0;
        proof {
            start.lemma_after_one(quote);
            assert(input.take(1) =~= seq![quote]);
            assert(body.skip(0) =~= body);
        }
        let mut c = self.get_char()?;
        loop
            invariant
                self.wf(),
                self@.sourced,
                !self@.exhausted,
                old(self)@.sourced,
                !old(self)@.exhausted,
                input == old(self)@.unread,
                start == old(self)@.position,
                body == input.skip(1),
                input.len() > 0,
                quote == input[0],
                quote == '"' || quote == '\'',
                0 <= i <= body.len(),
                self@.unread == body.skip(i),
                self@.position == start.after(input.take(1 + i)),
                c == peek(self@.unread),
                string_body(body, quote) == string_body(body.skip(i), quote).prefixed(
                    value@,
                    i as nat,
                ),
            decreases body.len() - i,
        {
            let ghost rest = body.skip(i);
            let ghost before = value@;
            proof {
                assert(rest =~= input.skip(1 + i));
                if rest.len() > 0 {
                    assert(input.take(1 + i + 1) =~= input.take(1 + i).push(rest[0]));
                    start.lemma_after_push(input.take(1 + i), rest[0]);
                    assert(rest.skip(1) =~= body.skip(i + 1));
                    assert(rest.skip(1) =~= input.skip(1 + i + 1));
                }
                if rest.len() > 1 {
                    assert(input.take(1 + i + 2) =~= input.take(1 + i + 1).push(rest[1]));
                    start.lemma_after_push(input.take(1 + i + 1), rest[1]);
                    assert(rest.skip(2) =~= body.skip(i + 2));
                }
            }
            if self.at_end() {
                return Err(TokenError::unexpected(c, self.position));
            }
            if c == quote {
                self.advance()?;
                return Ok(Token::string(value, &start));
            }
            if c == '\\' {
                self.advance()?;
                c = self.get_char()?;
                let decoded = match c {
                    'n' => '\n',
                    't' => '\t',
                    '\\' => '\\',
                    '\'' => '\'',
                    '"' => '"',
                    _ => {
                        return Err(TokenError::unexpected(c, self.position));
                    },
                };
                push_char(&mut value, decoded);
                self.advance()?;
                proof {
                    string_body(rest.skip(2), quote).lemma_prefixed_twice(
                        before,
                        i as nat,
                        seq![decoded],
                        2,
                    );
                    assert(before + seq![decoded] =~= value@);
                    i = i + 2;
                }
                c = self.get_char()?;
            } else {
                push_char(&mut value, c);
                self.advance()?;
                proof {
                    string_body(rest.skip(1), quote).lemma_prefixed_twice(
                        before,
                        i as nat,
                        seq![rest[0]],
                        1,
                    );
                    assert(before + seq![rest[0]] =~= value@);
                    i = i + 1;
                }
                c = self.get_char()?;
            }
        }
    }

    /// Passes the character under the cursor and returns the symbol
    /// `token_type`.
    fn read_symbol(&mut self, token_type: TokenType) -> (r: TokenResult<Token>)
        requires
            old(self).wf(),
            old(self)@.unread.len() > 0,
        ensures
            final(self).wf(),
            r is Ok,
            final(self)@ == (TokeniserView {
                unread: old(self)@.unread.skip(1),
                position: old(self)@.position.after(old(self)@.unread.take(1)),
                ..old(self)@
            }),
            r->Ok_0@ == TokenView::symbol(token_type, old(self)@.position),
    {
        let ghost input = self@.unread;
        let start = self.position;
        self.advance()?;
        proof {
            start.lemma_after_one(input[0]);
            assert(input.take(1) =~= seq![input[0]]);
        }
        Ok(Token::symbol(token_type, &start))
    }

    /// The next token.
    ///
    /// Fails once the end token has been handed out, where no text was
    /// given, and where the text under the cursor is no token: a character
    /// that opens none, an unknown escape in a string literal, or a string
    /// literal that the input ends in. A failure that stems from the text
    /// leaves the cursor at the offending character.
    pub fn get_token(&mut self) -> (r: TokenResult<Token>)
        requires
            old(self).wf(),
        ensures
            final(self).wf(),
            result_view(r) == old(self)@.next_result(),
            final(self)@ == old(self)@.next_state(),
        decreases old(self)@.unread.len(),
    {
        if self.exhausted {
            return Err(TokenError::exhausted(0));
        }
        let c = self.get_char()?;
        let start = self.position;
        let ghost input = self@.unread;
        if c >= '0' && c <= '9' {
            self.read_number()
        } else if (c >= 'a' && c <= 'z') || (c >= 'A' && c <= 'Z') || c == '_' {
            self.read_word()
        } else if c == '"' || c == '\'' {
            self.read_string()
        } else if c == ' ' || c == '\t' || c == '\n' {
            let mut skipped = String::new();
            self.advance()?;
            self.read_run(CharClass::Whitespace, &mut skipped, false)?;
            proof {
                let m = run_length(input.skip(1), CharClass::Whitespace) as int;
                lemma_run_length(input.skip(1), CharClass::Whitespace);
                assert(seq![c] + input.skip(1).take(m) =~= input.take(1 + m));
                assert(input.skip(1).skip(m) =~= input.skip(1 + m));
                start.lemma_after_one(c);
                start.lemma_after_concat(seq![c], input.skip(1).take(m));
            }
            self.get_token()
        } else {
            match paired_symbol(c) {
                Some((single, pair)) => {
                    self.advance()?;
                    let d = self.get_char()?;
                    proof {
                        start.lemma_after_one(c);
                        assert(input.take(1) =~= seq![c]);
                    }
                    if d == '=' {
                        self.advance()?;
                        proof {
                            assert(input.take(2).drop_last() =~= input.take(1));
                            assert(input.skip(1).skip(1) =~= input.skip(2));
                        }
                        Ok(Token::symbol(pair, &start))
                    } else {
                        Ok(Token::symbol(single, &start))
                    }
                },
                None => match single_symbol(c) {
                    Some(single) => self.read_symbol(single),
                    None => {
                        if c == '\0' {
                            self.exhausted = true;
                            Ok(Token::symbol(TokenType::EOF, &start))
                        } else {
                            Err(TokenError::unexpected(c, start))
                        }
                    },
                },
            }
        }
    }

    /// The next token, as a stream hands it out: `None` where `get_token`
    /// fails, so that a lexical error ends the stream like the end of the
    /// input does.
    pub fn next(&mut self) -> (t: Option<Token>)
        requires
            old(self).wf(),
        ensures
            final(self).wf(),
            final(self)@ == old(self)@.next_state(),
            match t {
                Some(token) => old(self)@.next_result() == Ok::<TokenView, TokenErrorView>(token@),
                None => old(self)@.next_result() is Err,
            },
    {
        match self.get_token() {
            Ok(token) => Some(token),
            Err(_) => None,
        }
    }
}

/// The result of `get_token`, as the lexical rules speak of it.
pub open spec fn result_view(r: TokenResult<Token>) -> Result<TokenView, TokenErrorView> {
    match r {
        Ok(t) => Ok(t@),
        Err(e) => Err(e@),
    }
}

/// Whether `c` belongs to `class`.
fn in_class(class: CharClass, c: char) -> (b: bool)
    ensures
        b == class.contains(c),
{
    match class {
        CharClass::Digit => c >= '0' && c <= '9',
        CharClass::Alphanumeric => c.is_alphanumeric(),
        CharClass::Whitespace => c.is_whitespace(),
    }
}

/// Whether two texts are the same, character by character.
fn same_text(a: &str, b: &str) -> (same: bool)
    ensures
        same == (a@ == b@),
{
    String::from_str(a) == String::from_str(b)
}

fn single_symbol(c: char) -> (k: Option<TokenType>)
    ensures
        k == symbol_kind(c),
{
    match c {
        '@' => Some(TokenType::At),
        '&' => Some(TokenType::And),
        '|' => Some(TokenType::Or),
        '=' => Some(TokenType::Assign),
        '<' => Some(TokenType::LessThan),
        '>' => Some(TokenType::GreaterThan),
        '!' => Some(TokenType::Not),
        '(' => Some(TokenType::OpenParen),
        ')' => Some(TokenType::CloseParen),
        '[' => Some(TokenType::OpenBracket),
        ']' => Some(TokenType::CloseBracket),
        '{' => Some(TokenType::OpenBrace),
        '}' => Some(TokenType::CloseBrace),
        ',' => Some(TokenType::Comma),
        ':' => Some(TokenType::Colon),
        '+' => Some(TokenType::Plus),
        '-' => Some(TokenType::Minus),
        '*' => Some(TokenType::Mul),
        '/' => Some(TokenType::Div),
        '%' => Some(TokenType::Mod),
        '^' => Some(TokenType::Exp),
        '#' => Some(TokenType::Concat),
        _ => None,
    }
}

/// For a character that takes a following `=` with it: the kind of the
/// token that it is alone, and the kind of the token that it is with `=`.
fn paired_symbol(c: char) -> (k: Option<(TokenType, TokenType)>)
    ensures
        match k {
            Some((single, pair)) => symbol_kind(c) == Some(single) && paired_kind(c) == Some(pair),
            None => paired_kind(c) is None,
        },
{
    match c {
        '=' => Some((TokenType::Assign, TokenType::Equal)),
        '<' => Some((TokenType::LessThan, TokenType::LTEqual)),
        '>' => Some((TokenType::GreaterThan, TokenType::GTEqual)),
        '!' => Some((TokenType::Not, TokenType::NEqual)),
        _ => None,
    }
}

} // verus!

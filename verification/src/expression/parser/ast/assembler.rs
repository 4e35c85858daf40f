//! The parser: a recursive descent with one token of lookahead, proved to
//! read what the grammar says.
use vstd::prelude::*;
use vstd::string::*;
use super::super::tokeniser::lexical::{token_stream, TokenStream};
use super::super::tokeniser::{Token, TokenType, TokenValue, TokenView, Tokeniser};
use super::super::Position;
use super::error::{ParseError, ParseResult};
use super::grammar::{
    expected, left, parse_arguments, parse_binary, parse_call_arguments, parse_formula, parse_not,
    parse_operand, parse_primary, parse_tail, parse_unary, pulled, retrieval_error, text_of,
    token_at, Level, Parsed,
};
use super::node::{BinaryOpType, Identifier, Node, NodeView, UnaryOpType};

verus! {

/// A parser over the tokens of one formula. It looks one token ahead, the
/// token `current`, and is used for one parse: after an error it is spent.
pub struct Assembler {
    source: Tokeniser,
    current: Token,
    /// All the tokens of the formula, and the error behind them.
    stream: Ghost<TokenStream>,
    /// The index of `current` among them.
    index: Ghost<nat>,
}

/// `parsed`, counted from `by` tokens earlier.
pub open spec fn shifted(parsed: Parsed, by: nat) -> Parsed {
    match parsed {
        Ok((node, used)) => Ok((node, by + used)),
        Err(e) => Err(e),
    }
}

impl Assembler {
    /// All the tokens of the formula that the parser was made for, and the
    /// error that the tokeniser answers with behind them.
    pub closed spec fn stream(&self) -> TokenStream {
        self.stream@
    }

    /// The index of the current token in the stream.
    pub closed spec fn index(&self) -> nat {
        self.index@
    }

    /// The current token.
    pub closed spec fn current_view(&self) -> TokenView {
        self.current@
    }

    /// The invariant of a parser that is not spent: its current token is
    /// the token of the stream at its index, and its tokeniser is about to
    /// yield the rest of the stream.
    pub closed spec fn wf(&self) -> bool {
        &&& self.source.wf()
        &&& self.index@ < self.stream@.tokens.len()
        &&& self.stream@.tokens[self.index@ as int] == self.current@
        &&& self.source@.stream().tokens == self.stream@.tokens.skip(self.index@ as int + 1)
        &&& self.source@.stream().failure == self.stream@.failure
        &&& self.source@.exhausted == (self.current@.token_type == TokenType::EOF)
    }

    /// What `wf` says of the current token.
    pub proof fn lemma_current(&self)
        requires
            self.wf(),
        ensures
            self.index() < self.stream().tokens.len(),
            self.current_view() == token_at(self.stream(), self.index()),
    {
    }

    /// How a call has gone that the grammar expects to go as `goal`: with
    /// the tree of `goal` and the parser that many tokens on, or with the
    /// error of `goal`.
    pub open spec fn follows(&self, before: &Assembler, r: ParseResult<Node>, goal: Parsed)
        -> bool {
        match goal {
            Ok((node, used)) => {
                &&& r is Ok
                &&& r->Ok_0@ == node
                &&& self.wf()
                &&& self.stream() == before.stream()
                &&& self.index() == before.index() + used
            },
            Err(e) => r is Err && r->Err_0@ == e,
        }
    }

    /// A parser at the first token of `input`. Fails, with the lexical
    /// error as the cause, where `input` does not start with a token.
    pub fn from_string(input: &str) -> (r: ParseResult<Assembler>)
        ensures
            match r {
                Ok(assembler) => {
                    &&& assembler.wf()
                    &&& assembler.stream() == token_stream(input@, Position { line: 1, column: 1 })
                    &&& assembler.index() == 0
                },
                Err(e) => {
                    &&& token_stream(input@, Position { line: 1, column: 1 }).tokens.len() == 0
                    &&& e@ == retrieval_error(
                        token_stream(input@, Position { line: 1, column: 1 }),
                    )
                },
            },
    {
        let text = String::from_str(input);
        let mut source = Tokeniser::from_string(&text);
        let ghost stream = source@.stream();
        match source.get_token() {
            Ok(token) => {
                let assembler = Assembler {
                    source,
                    current: token,
                    stream: Ghost(stream),
                    index: Ghost(0),
                };
                proof {
                    assert(stream.tokens.skip(1) =~= assembler.source@.stream().tokens);
                }
                Ok(assembler)
            },
            Err(e) => Err(ParseError::from(e)),
        }
    }

    /// The kind of the current token.
    pub fn current_type(&self) -> (kind: TokenType)
        ensures
            kind == self.current_view().token_type,
    {
        self.current.token_type
    }

    /// The current token.
    pub fn current(&self) -> (token: &Token)
        ensures
            token@ == self.current_view(),
    {
        &self.current
    }

    /// Goes on to the next token. Fails where the stream has none: behind
    /// the end token, and where the text that follows is no token.
    pub fn advance(&mut self) -> (r: ParseResult<()>)
        requires
            old(self).wf(),
        ensures
            match pulled(old(self).stream(), old(self).index()) {
                Ok(_) => {
                    &&& r is Ok
                    &&& final(self).wf()
                    &&& final(self).stream() == old(self).stream()
                    &&& final(self).index() == old(self).index() + 1
                },
                Err(e) => r is Err && r->Err_0@ == e,
            },
    {
        let was_exhausted = self.source.is_exhausted();
        match self.source.get_token() {
            Ok(token) => {
                proof {
                    let tokens = self.stream@.tokens;
                    let at = self.index@ as int;
                    assert(tokens.skip(at + 1)[0] == token@);
                    assert(tokens.skip(at + 1).skip(1) =~= tokens.skip(at + 2));
                    assert((seq![token@] + self.source@.stream().tokens).skip(1)
                        =~= self.source@.stream().tokens);
                    self.index = Ghost((self.index@ + 1) as nat);
                }
                self.current = token;
                Ok(())
            },
            Err(e) => {
                if was_exhausted {
                    Err(ParseError::out_of_tokens(e))
                } else {
                    Err(ParseError::from(e))
                }
            },
        }
    }

    /// Passes a token of kind `token_type`. Fails where the current token
    /// is of another kind, and where `advance` fails.
    pub fn expect(&mut self, token_type: TokenType) -> (r: ParseResult<()>)
        requires
            old(self).wf(),
        ensures
            match expected(old(self).stream(), old(self).index(), token_type) {
                Ok(_) => {
                    &&& r is Ok
                    &&& final(self).wf()
                    &&& final(self).stream() == old(self).stream()
                    &&& final(self).index() == old(self).index() + 1
                },
                Err(e) => r is Err && r->Err_0@ == e,
            },
    {
        if self.current.token_type == token_type {
            self.advance()
        } else {
            Err(ParseError::expected(&token_type, &self.current.token_type, self.current.position))
        }
    }
}

/// The operator of `level` that a token of kind `kind` stands for.
fn operator_of(level: Level, kind: TokenType) -> (op: Option<BinaryOpType>)
    ensures
        op == level.operator(kind),
{
    match level {
        Level::Or => match kind {
            TokenType::Or => Some(BinaryOpType::Or),
            _ => None,
        },
        Level::And => match kind {
            TokenType::And => Some(BinaryOpType::And),
            _ => None,
        },
        Level::Comparison => match kind {
            TokenType::Equal => Some(BinaryOpType::Eq),
            TokenType::NEqual => Some(BinaryOpType::Ne),
            TokenType::LessThan => Some(BinaryOpType::Lt),
            TokenType::GreaterThan => Some(BinaryOpType::Gt),
            TokenType::LTEqual => Some(BinaryOpType::Le),
            TokenType::GTEqual => Some(BinaryOpType::Ge),
            _ => None,
        },
        Level::Sum => match kind {
            TokenType::Plus => Some(BinaryOpType::Add),
            TokenType::Minus => Some(BinaryOpType::Sub),
            _ => None,
        },
        Level::Product => match kind {
            TokenType::Mul => Some(BinaryOpType::Mul),
            TokenType::Div => Some(BinaryOpType::Div),
            TokenType::Mod => Some(BinaryOpType::Mod),
            _ => None,
        },
        Level::Power => match kind {
            TokenType::Exp => Some(BinaryOpType::Pow),
            _ => None,
        },
    }
}

impl Assembler {
    /// Parses a formula: `=` and an expression.
    pub fn parse(&mut self) -> (r: ParseResult<Node>)
        requires
            old(self).wf(),
        ensures
            final(self).follows(old(self), r, parse_formula(old(self).stream(), old(self).index())),
    {
        self.expect(TokenType::Assign)?;
        self.parse_or_expr()
    }

    /// `or_expr := and_expr ('|' and_expr)*`
    pub fn parse_or_expr(&mut self) -> (r: ParseResult<Node>)
        requires
            old(self).wf(),
        ensures
            final(self).follows(
                old(self),
                r,
                parse_binary(old(self).stream(), old(self).index(), Level::Or),
            ),
            r is Ok ==> final(self).index() > old(self).index(),
        decreases left(old(self).stream(), old(self).index()), 40nat,
    {
        self.parse_level(Level::Or)
    }

    /// `and_expr := not_expr ('&' not_expr)*`
    pub fn parse_and_expr(&mut self) -> (r: ParseResult<Node>)
        requires
            old(self).wf(),
        ensures
            final(self).follows(
                old(self),
                r,
                parse_binary(old(self).stream(), old(self).index(), Level::And),
            ),
            r is Ok ==> final(self).index() > old(self).index(),
        decreases left(old(self).stream(), old(self).index()), 36nat,
    {
        self.parse_level(Level::And)
    }

    /// `not_expr := '!' not_expr | cmp_expr`
    pub fn parse_not_expr(&mut self) -> (r: ParseResult<Node>)
        requires
            old(self).wf(),
        ensures
            final(self).follows(old(self), r, parse_not(old(self).stream(), old(self).index())),
            r is Ok ==> final(self).index() > old(self).index(),
        decreases left(old(self).stream(), old(self).index()), 32nat,
    {
        if self.current.token_type == TokenType::Not {
            self.advance()?;
            let operand = self.parse_not_expr()?;
            Ok(Node::UnaryOp { op: Some(UnaryOpType::Not), right: Box::new(operand) })
        } else {
            self.parse_cmp_expr()
        }
    }

    /// `cmp_expr := add_expr (('=='|'!='|'<'|'<='|'>'|'>=') add_expr)*`
    pub fn parse_cmp_expr(&mut self) -> (r: ParseResult<Node>)
        requires
            old(self).wf(),
        ensures
            final(self).follows(
                old(self),
                r,
                parse_binary(old(self).stream(), old(self).index(), Level::Comparison),
            ),
            r is Ok ==> final(self).index() > old(self).index(),
        decreases left(old(self).stream(), old(self).index()), 28nat,
    {
        self.parse_level(Level::Comparison)
    }

    /// `add_expr := mul_expr (('+'|'-') mul_expr)*`
    pub fn parse_add_expr(&mut self) -> (r: ParseResult<Node>)
        requires
            old(self).wf(),
        ensures
            final(self).follows(
                old(self),
                r,
                parse_binary(old(self).stream(), old(self).index(), Level::Sum),
            ),
            r is Ok ==> final(self).index() > old(self).index(),
        decreases left(old(self).stream(), old(self).index()), 24nat,
    {
        self.parse_level(Level::Sum)
    }

    /// `mul_expr := pow_expr (('*'|'/'|'%') pow_expr)*`
    pub fn parse_mul_expr(&mut self) -> (r: ParseResult<Node>)
        requires
            old(self).wf(),
        ensures
            final(self).follows(
                old(self),
                r,
                parse_binary(old(self).stream(), old(self).index(), Level::Product),
            ),
            r is Ok ==> final(self).index() > old(self).index(),
        decreases left(old(self).stream(), old(self).index()), 20nat,
    {
        self.parse_level(Level::Product)
    }

    /// `pow_expr := unary_expr ('^' unary_expr)*`
    pub fn parse_pow_expr(&mut self) -> (r: ParseResult<Node>)
        requires
            old(self).wf(),
        ensures
            final(self).follows(
                old(self),
                r,
                parse_binary(old(self).stream(), old(self).index(), Level::Power),
            ),
            r is Ok ==> final(self).index() > old(self).index(),
        decreases left(old(self).stream(), old(self).index()), 16nat,
    {
        self.parse_level(Level::Power)
    }

    /// An operand of the binary level `level`.
    fn parse_operand(&mut self, level: Level) -> (r: ParseResult<Node>)
        requires
            old(self).wf(),
        ensures
            final(self).follows(
                old(self),
                r,
                parse_operand(old(self).stream(), old(self).index(), level),
            ),
            r is Ok ==> final(self).index() > old(self).index(),
        decreases left(old(self).stream(), old(self).index()), 2 * level.depth() - 2,
    {
        match level {
            Level::Or => self.parse_and_expr(),
            Level::And => self.parse_not_expr(),
            Level::Comparison => self.parse_add_expr(),
            Level::Sum => self.parse_mul_expr(),
            Level::Product => self.parse_pow_expr(),
            Level::Power => self.parse_unary_expr(),
        }
    }

    /// The binary level `level`: an operand, and after it the pairs of an
    /// operator of the level and an operand, folded to the left.
    fn parse_level(&mut self, level: Level) -> (r: ParseResult<Node>)
        requires
            old(self).wf(),
        ensures
            final(self).follows(
                old(self),
                r,
                parse_binary(old(self).stream(), old(self).index(), level),
            ),
            r is Ok ==> final(self).index() > old(self).index(),
        decreases left(old(self).stream(), old(self).index()), 2 * level.depth() - 1,
    {
        let ghost stream = self.stream();
        let ghost start = self.index();
        let mut node = self.parse_operand(level)?;
        let mut op = operator_of(level, self.current.token_type);
        while op.is_some()
            invariant
                self.wf(),
                self.stream() == stream,
                stream == old(self).stream(),
                start == old(self).index(),
                self.index() > start,
                op == level.operator(self.current_view().token_type),
                parse_binary(stream, start, level) == shifted(
                    parse_tail(stream, self.index(), level, node@),
                    (self.index() - start) as nat,
                ),
            decreases left(stream, self.index()),
        {
            self.advance()?;
            let operand = self.parse_operand(level)?;
            node = Node::BinaryOp {
                left: Box::new(node),
                right: Some((op.unwrap(), Box::new(operand))),
            };
            op = operator_of(level, self.current.token_type);
        }
        Ok(node)
    }

    /// `unary_expr := '-'? primary`
    pub fn parse_unary_expr(&mut self) -> (r: ParseResult<Node>)
        requires
            old(self).wf(),
        ensures
            final(self).follows(old(self), r, parse_unary(old(self).stream(), old(self).index())),
            r is Ok ==> final(self).index() > old(self).index(),
        decreases left(old(self).stream(), old(self).index()), 12nat,
    {
        if self.current.token_type == TokenType::Minus {
            self.advance()?;
            let operand = self.parse_primary()?;
            Ok(Node::UnaryOp { op: Some(UnaryOpType::Neg), right: Box::new(operand) })
        } else {
            self.parse_primary()
        }
    }

    /// The text that the current token carries.
    fn current_text(&self) -> (text: String)
        ensures
            text@ == text_of(self.current_view()),
    {
        match &self.current.value {
            TokenValue::String(s) => s.clone(),
            TokenValue::Number(s) => s.clone(),
            _ => String::new(),
        }
    }

    /// A literal, an identifier, a call, or an expression in parentheses. An
    /// identifier with `(` directly behind it is a call; its arguments may be
    /// parted by commas.
    pub fn parse_primary(&mut self) -> (r: ParseResult<Node>)
        requires
            old(self).wf(),
        ensures
            final(self).follows(old(self), r, parse_primary(old(self).stream(), old(self).index())),
            r is Ok ==> final(self).index() > old(self).index(),
        decreases left(old(self).stream(), old(self).index()), 10nat,
    {
        match self.current.token_type {
            TokenType::String => {
                let value = self.current_text();
                self.advance()?;
                Ok(Node::String(value))
            },
            TokenType::Number => {
                let value = self.current_text();
                self.advance()?;
                Ok(Node::Number(value))
            },
            TokenType::Boolean => {
                let value = match self.current.value {
                    TokenValue::Boolean(b) => b,
                    _ => false,
                };
                self.advance()?;
                Ok(Node::Boolean(value))
            },
            TokenType::Identifier => {
                let value = self.current_text();
                self.advance()?;
                if self.current.token_type == TokenType::OpenParen {
                    self.advance()?;
                    let args = self.parse_arguments()?;
                    self.expect(TokenType::CloseParen)?;
                    let ghost list = super::node::views(args@);
                    let node = Node::Function { name: Identifier(value), args };
                    assert(node@->Function_args =~= list);
                    Ok(node)
                } else {
                    Ok(Node::Identifier(Identifier(value)))
                }
            },
            TokenType::OpenParen => {
                self.advance()?;
                let node = self.parse_or_expr()?;
                self.expect(TokenType::CloseParen)?;
                Ok(node)
            },
            _ => Err(ParseError::expected_primary(&self.current)),
        }
    }

    /// What stands between the parentheses of a call: nothing, or
    /// arguments with a comma between each two of them.
    fn parse_arguments(&mut self) -> (r: ParseResult<Vec<Node>>)
        requires
            old(self).wf(),
        ensures
            match parse_call_arguments(old(self).stream(), old(self).index()) {
                Ok((args, used)) => {
                    &&& r is Ok
                    &&& super::node::views(r->Ok_0@) == args
                    &&& final(self).wf()
                    &&& final(self).stream() == old(self).stream()
                    &&& final(self).index() == old(self).index() + used
                },
                Err(e) => r is Err && r->Err_0@ == e,
            },
        decreases left(old(self).stream(), old(self).index()), 44nat,
    {
        let ghost stream = self.stream();
        let ghost start = self.index();
        let mut args: Vec<Node> = Vec::new();
        assert(super::node::views(args@) =~= Seq::<NodeView>::empty());
        if self.current.token_type == TokenType::CloseParen {
            return Ok(args);
        }
        loop
            invariant
                self.wf(),
                self.stream() == stream,
                stream == old(self).stream(),
                start == old(self).index(),
                self.index() >= start,
                parse_call_arguments(stream, start) == (match parse_arguments(
                    stream,
                    self.index(),
                    super::node::views(args@),
                ) {
                    Ok((all, used)) => Ok((all, (self.index() - start + used) as nat)),
                    Err(e) => Err(e),
                }),
            decreases left(stream, self.index()),
        {
            let ghost before = super::node::views(args@);
            let node = self.parse_or_expr()?;
            args.push(node);
            assert(super::node::views(args@) =~= before.push(node@));
            if self.current.token_type == TokenType::Comma {
                self.advance()?;
            } else {
                return Ok(args);
            }
        }
    }
}

} // verus!

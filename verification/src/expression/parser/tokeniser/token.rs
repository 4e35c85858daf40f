//! Tokens: their kinds, what they carry, and where they stand.
use vstd::prelude::*;
use vstd::string::*;
use super::super::Position;

verus! {

#[derive(Debug, Clone, Copy, PartialEq, Eq, Structural)]
pub enum TokenType {
    /// A string
    String,
    /// A number
    Number,
    /// A boolean value
    Boolean,
    /// An identifier to a variable or function
    Identifier,
    /// ( - Open parenthesis
    OpenParen,
    /// ) - Close parenthesis
    CloseParen,
    /// [ - Open bracket
    OpenBracket,
    /// ] - Close bracket
    CloseBracket,
    /// { - Open brace
    OpenBrace,
    /// } - Close brace
    CloseBrace,
    /// , - Comma
    Comma,
    /// : - Colon
    Colon,
    /// + - Plus
    Plus,
    /// - - Minus
    Minus,
    /// * - Multiply
    Mul,
    /// / - Divide
    Div,
    /// % - Modulus
    Mod,
    /// ^ - Exponent
    Exp,
    /// # - Concatenate
    Concat,
    /// & - And
    And,
    /// | - Or
    Or,
    /// ! - Not
    Not,
    /// = - Assign
    Assign,
    /// == - Equal
    Equal,
    /// != - Not equal
    NEqual,
    /// < - Less than
    LessThan,
    /// > - Greater than
    GreaterThan,
    /// <= - Less than or equal
    LTEqual,
    /// >= - Greater than or equal
    GTEqual,
    /// @ - Column specifier
    At,
    /// EOF - End of file
    EOF,
}

impl TokenType {
    /// The name of the kind, as it stands in messages.
    pub open spec fn name_text(self) -> Seq<char> {
        match self {
            TokenType::String => "String"@,
            TokenType::Number => "Number"@,
            TokenType::Boolean => "Boolean"@,
            TokenType::Identifier => "Identifier"@,
            TokenType::OpenParen => "OpenParen"@,
            TokenType::CloseParen => "CloseParen"@,
            TokenType::OpenBracket => "OpenBracket"@,
            TokenType::CloseBracket => "CloseBracket"@,
            TokenType::OpenBrace => "OpenBrace"@,
            TokenType::CloseBrace => "CloseBrace"@,
            TokenType::Comma => "Comma"@,
            TokenType::Colon => "Colon"@,
            TokenType::Plus => "Plus"@,
            TokenType::Minus => "Minus"@,
            TokenType::Mul => "Mul"@,
            TokenType::Div => "Div"@,
            TokenType::Mod => "Mod"@,
            TokenType::Exp => "Exp"@,
            TokenType::Concat => "Concat"@,
            TokenType::And => "And"@,
            TokenType::Or => "Or"@,
            TokenType::Not => "Not"@,
            TokenType::Assign => "Assign"@,
            TokenType::Equal => "Equal"@,
            TokenType::NEqual => "NEqual"@,
            TokenType::LessThan => "LessThan"@,
            TokenType::GreaterThan => "GreaterThan"@,
            TokenType::LTEqual => "LTEqual"@,
            TokenType::GTEqual => "GTEqual"@,
            TokenType::At => "At"@,
            TokenType::EOF => "EOF"@,
        }
    }

    /// The name of the kind, as it stands in messages.
    pub fn name(&self) -> (s: &'static str)
        ensures
            s@ == self.name_text(),
    {
        match self {
            TokenType::String => "String",
            TokenType::Number => "Number",
            TokenType::Boolean => "Boolean",
            TokenType::Identifier => "Identifier",
            TokenType::OpenParen => "OpenParen",
            TokenType::CloseParen => "CloseParen",
            TokenType::OpenBracket => "OpenBracket",
            TokenType::CloseBracket => "CloseBracket",
            TokenType::OpenBrace => "OpenBrace",
            TokenType::CloseBrace => "CloseBrace",
            TokenType::Comma => "Comma",
            TokenType::Colon => "Colon",
            TokenType::Plus => "Plus",
            TokenType::Minus => "Minus",
            TokenType::Mul => "Mul",
            TokenType::Div => "Div",
            TokenType::Mod => "Mod",
            TokenType::Exp => "Exp",
            TokenType::Concat => "Concat",
            TokenType::And => "And",
            TokenType::Or => "Or",
            TokenType::Not => "Not",
            TokenType::Assign => "Assign",
            TokenType::Equal => "Equal",
            TokenType::NEqual => "NEqual",
            TokenType::LessThan => "LessThan",
            TokenType::GreaterThan => "GreaterThan",
            TokenType::LTEqual => "LTEqual",
            TokenType::GTEqual => "GTEqual",
            TokenType::At => "At",
            TokenType::EOF => "EOF",
        }
    }
}

/// What a token carries besides its kind. A number is carried as the run of
/// decimal digits that was read; turning it into a machine number is left to
/// the evaluator.
#[derive(Debug, Clone)]
pub enum TokenValue {
    String(String),
    Number(String),
    Boolean(bool),
    Symbol,
}

pub enum TokenValueView {
    String(Seq<char>),
    Number(Seq<char>),
    Boolean(bool),
    Symbol,
}

impl View for TokenValue {
    type V = TokenValueView;

    open spec fn view(&self) -> TokenValueView {
        match self {
            TokenValue::String(s) => TokenValueView::String(s@),
            TokenValue::Number(s) => TokenValueView::Number(s@),
            TokenValue::Boolean(b) => TokenValueView::Boolean(*b),
            TokenValue::Symbol => TokenValueView::Symbol,
        }
    }
}

#[derive(Debug)]
pub struct Token {
    pub token_type: TokenType,
    pub value: TokenValue,
    pub position: Position,
}

pub struct TokenView {
    pub token_type: TokenType,
    pub value: TokenValueView,
    pub position: Position,
}

impl View for Token {
    type V = TokenView;

    open spec fn view(&self) -> TokenView {
        TokenView { token_type: self.token_type, value: self.value@, position: self.position }
    }
}

impl TokenView {
    pub open spec fn string(value: Seq<char>, position: Position) -> TokenView {
        TokenView { token_type: TokenType::String, value: TokenValueView::String(value), position }
    }

    pub open spec fn number(digits: Seq<char>, position: Position) -> TokenView {
        TokenView { token_type: TokenType::Number, value: TokenValueView::Number(digits), position }
    }

    pub open spec fn identifier(value: Seq<char>, position: Position) -> TokenView {
        TokenView {
            token_type: TokenType::Identifier,
            value: TokenValueView::String(value),
            position,
        }
    }

    pub open spec fn boolean(value: bool, position: Position) -> TokenView {
        TokenView {
            token_type: TokenType::Boolean,
            value: TokenValueView::Boolean(value),
            position,
        }
    }

    pub open spec fn symbol(token_type: TokenType, position: Position) -> TokenView {
        TokenView { token_type, value: TokenValueView::Symbol, position }
    }

    /// The token that stands for the end of the input where no place is known.
    pub open spec fn eof() -> TokenView {
        TokenView::symbol(TokenType::EOF, Position { line: 0, column: 0 })
    }
}

impl Token {
    pub fn string(value: String, position: &Position) -> (t: Token)
        ensures
            t@ == TokenView::string(value@, *position),
    {
        Token {
            token_type: TokenType::String,
            value: TokenValue::String(value),
            position: *position,
        }
    }

    /// A number token; `value` is the run of digits as read.
    pub fn number(value: String, position: &Position) -> (t: Token)
        ensures
            t@ == TokenView::number(value@, *position),
    {
        Token {
            token_type: TokenType::Number,
            value: TokenValue::Number(value),
            position: *position,
        }
    }

    pub fn identifier(value: String, position: &Position) -> (t: Token)
        ensures
            t@ == TokenView::identifier(value@, *position),
    {
        Token {
            token_type: TokenType::Identifier,
            value: TokenValue::String(value),
            position: *position,
        }
    }

    pub fn boolean(value: bool, position: &Position) -> (t: Token)
        ensures
            t@ == TokenView::boolean(value, *position),
    {
        Token {
            token_type: TokenType::Boolean,
            value: TokenValue::Boolean(value),
            position: *position,
        }
    }

    pub fn symbol(token_type: TokenType, position: &Position) -> (t: Token)
        ensures
            t@ == TokenView::symbol(token_type, *position),
    {
        Token { token_type, value: TokenValue::Symbol, position: *position }
    }

    pub fn eof() -> (t: Token)
        ensures
            t@ == TokenView::eof(),
    {
        Token {
            token_type: TokenType::EOF,
            value: TokenValue::Symbol,
            position: Position::new(0, 0),
        }
    }

    /// Whether the kind of this token is one of `token_type`.
    pub fn matches(&self, token_type: &[&TokenType]) -> (found: bool)
        ensures
            found == exists|i: int|
                0 <= i < token_type@.len() && *token_type@[i] == self.token_type,
    {
        let mut i: usize = 0;
        while i < token_type.len()
            invariant
                i <= token_type@.len(),
                forall|j: int| 0 <= j < i ==> *token_type@[j] != self.token_type,
            decreases token_type@.len() - i,
        {
            if *token_type[i] == self.token_type {
                return true;
            }
            i += 1;
        }
        false
    }
}

} // verus!

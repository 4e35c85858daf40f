pub mod ast;
pub mod position;
pub mod tokeniser;

pub use position::Position;
pub use tokeniser::{Token, TokenError, TokenType, TokenValue, Tokeniser};
pub use ast::{
    Assembler, BinaryOpType, Identifier, Node, NodeView, ParseError, ParseResult, UnaryOpType,
};

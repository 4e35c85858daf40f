pub mod assembler;
pub mod error;
pub mod grammar;
pub mod node;
pub mod roundtrip;
pub mod shape;
pub mod writing;

pub use node::{BinaryOpType, Identifier, Node, NodeView, UnaryOpType};
pub use error::{ParseError, ParseErrorView, ParseResult};
pub use assembler::Assembler;

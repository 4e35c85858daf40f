//! A formula expression engine.
//!
//! A formula is a line of text that starts with `=`. The engine scans it into
//! tokens, parses the tokens into a syntax tree, brings the tree into canonical
//! form, prints it back with as few parentheses as the grammar allows, and
//! compiles it into an expression whose function calls are bound to the
//! built-in functions. Every step is stated against a mathematical model and
//! proved.
pub mod error;
pub mod expression;
pub mod text;

pub use error::{Error, LogLine, Severity};
pub use expression::parser::Position;

pub mod error;
pub mod lexical;
pub mod token;
pub mod tokeniser;

pub use error::{TokenError, TokenErrorView, TokenResult};
pub use token::{Token, TokenType, TokenValue, TokenValueView, TokenView};
pub use tokeniser::{Tokeniser, TokeniserView};

pub mod error;
pub mod expression;
pub mod function;
pub mod parser;
pub mod statistics;
pub mod value;

pub use error::{ExpressionError, ExpressionResult};
pub use expression::{ExprNode, Expression, LiteralValue};
pub use function::{Function, Plan};
pub use value::{Value, ValueType};

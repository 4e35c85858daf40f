use formula_engine::expression::expression::{BinaryOpType, ExprNode, LiteralValue, UnaryOpType};
use formula_engine::expression::parser::ast;
use formula_engine::expression::parser::ast::{Assembler, Identifier, Node, ParseError};
use formula_engine::expression::parser::tokeniser::TokenError;
use formula_engine::expression::parser::Position;
use formula_engine::expression::{
    Expression, ExpressionError, Function, Value, ValueType,
};
use formula_engine::{Error, Severity};

fn compile(input: &str) -> Result<Expression, ExpressionError> {
    let mut assembler = Assembler::from_string(input).unwrap();
    Expression::from_ast(assembler.parse().unwrap())
}

#[test]
fn from_ast() {
    let ast = Node::BinaryOp {
        left: Box::new(Node::Number("1".to_string())),
        right: Some((ast::BinaryOpType::Add, Box::new(Node::Number("2".to_string())))),
    };
    let _expr = Expression::from_ast(ast).unwrap();
}

#[test]
fn from_ast_builds_the_bound_tree() {
    let ast = Node::BinaryOp {
        left: Box::new(Node::Number("1".to_string())),
        right: Some((ast::BinaryOpType::Add, Box::new(Node::Number("2".to_string())))),
    };
    let expr = Expression::from_ast(ast).unwrap();
    assert_eq!(
        format!("{:?}", expr.root()),
        "BinaryOp { left: Literal { value: Number(\"1\") }, op: Add, \
         right: Literal { value: Number(\"2\") } }"
    );
}

#[test]
fn compiling_binds_calls_and_variables() {
    let expr = compile("=-sum(x, 'a', true) < mean(1)").unwrap();
    match expr.root() {
        ExprNode::BinaryOp { left, op, right } => {
            assert_eq!(*op, BinaryOpType::Lt);
            match &**left {
                ExprNode::UnaryOp { op, right } => {
                    assert_eq!(*op, UnaryOpType::Neg);
                    match &**right {
                        ExprNode::FunctionCall { target, args } => {
                            assert_eq!(*target, Function::Sum);
                            assert_eq!(args.len(), 3);
                            assert!(matches!(&args[0], ExprNode::Variable { name } if name == "x"));
                            assert!(matches!(
                                &args[1],
                                ExprNode::Literal { value: LiteralValue::String(s) } if s == "a"
                            ));
                            assert!(matches!(
                                &args[2],
                                ExprNode::Literal { value: LiteralValue::Boolean(true) }
                            ));
                        }
                        _ => panic!(),
                    }
                }
                _ => panic!(),
            }
            assert!(matches!(
                &**right,
                ExprNode::FunctionCall { target: Function::Mean, args } if args.len() == 1
            ));
        }
        _ => panic!(),
    }
}

#[test]
fn compiling_removes_wrappers() {
    let ast = Node::BinaryOp {
        left: Box::new(Node::UnaryOp { op: None, right: Box::new(Node::Boolean(false)) }),
        right: None,
    };
    let expr = Expression::from_ast(ast).unwrap();
    assert_eq!(format!("{:?}", expr.root()), "Literal { value: Boolean(false) }");
    let node = Node::BinaryOp { left: Box::new(Node::Number("7".to_string())), right: None };
    let compiled = Expression::from_ast_node(&node).unwrap();
    assert_eq!(format!("{:?}", compiled), "Literal { value: Number(\"7\") }");
}

#[test]
fn an_unknown_function_fails_the_compilation() {
    let error = compile("=1 + FUNC(2)").unwrap_err();
    assert_eq!(error.message(), "Unknown function FUNC");
    assert_eq!(error.position(), None);
    assert!(error.source().is_none());
    let error = compile("=sum(Sum(1), nope(2))").unwrap_err();
    assert_eq!(error.message(), "Unknown function Sum");
    let error = compile("=first(second(1))").unwrap_err();
    assert_eq!(error.message(), "Unknown function first");
    let error = compile("=sum(a(1)) + b(2)").unwrap_err();
    assert_eq!(error.message(), "Unknown function a");
}

#[test]
fn static_means_without_variables() {
    assert!(compile("=1 + 2 * sum(3, -4)").unwrap().root().is_static());
    assert!(!compile("=1 + x").unwrap().root().is_static());
    assert!(!compile("=sum(1, mean(2, x))").unwrap().root().is_static());
    assert!(!compile("=-x").unwrap().root().is_static());
    assert!(compile("=sum()").unwrap().root().is_static());
}

#[test]
fn operators_carry_over() {
    assert_eq!(BinaryOpType::from_binary_op(ast::BinaryOpType::Add), BinaryOpType::Add);
    assert_eq!(BinaryOpType::from_binary_op(ast::BinaryOpType::Sub), BinaryOpType::Sub);
    assert_eq!(BinaryOpType::from_binary_op(ast::BinaryOpType::Mul), BinaryOpType::Mul);
    assert_eq!(BinaryOpType::from_binary_op(ast::BinaryOpType::Div), BinaryOpType::Div);
    assert_eq!(BinaryOpType::from_binary_op(ast::BinaryOpType::Mod), BinaryOpType::Mod);
    assert_eq!(BinaryOpType::from_binary_op(ast::BinaryOpType::Pow), BinaryOpType::Pow);
    assert_eq!(BinaryOpType::from_binary_op(ast::BinaryOpType::Eq), BinaryOpType::Eq);
    assert_eq!(BinaryOpType::from_binary_op(ast::BinaryOpType::Ne), BinaryOpType::Ne);
    assert_eq!(BinaryOpType::from_binary_op(ast::BinaryOpType::Lt), BinaryOpType::Lt);
    assert_eq!(BinaryOpType::from_binary_op(ast::BinaryOpType::Le), BinaryOpType::Le);
    assert_eq!(BinaryOpType::from_binary_op(ast::BinaryOpType::Gt), BinaryOpType::Gt);
    assert_eq!(BinaryOpType::from_binary_op(ast::BinaryOpType::Ge), BinaryOpType::Ge);
    assert_eq!(BinaryOpType::from_binary_op(ast::BinaryOpType::And), BinaryOpType::And);
    assert_eq!(BinaryOpType::from_binary_op(ast::BinaryOpType::Or), BinaryOpType::Or);
    assert_eq!(UnaryOpType::from_unary_op(ast::UnaryOpType::Neg), UnaryOpType::Neg);
    assert_eq!(UnaryOpType::from_unary_op(ast::UnaryOpType::Not), UnaryOpType::Not);
}

#[test]
fn literals_carry_over() {
    let l = LiteralValue::from_literal(&Node::Number("12".to_string()));
    assert!(matches!(l, LiteralValue::Number(s) if s == "12"));
    let l = LiteralValue::from_literal(&Node::String("s".to_string()));
    assert!(matches!(l, LiteralValue::String(s) if s == "s"));
    let l = LiteralValue::from_literal(&Node::Boolean(true));
    assert!(matches!(l, LiteralValue::Boolean(true)));
}

#[test]
fn functions_by_name() {
    assert_eq!(Function::from_str("sum"), Some(Function::Sum));
    assert_eq!(Function::from_str("mean"), Some(Function::Mean));
    assert_eq!(Function::from_str("median"), Some(Function::Median));
    assert_eq!(Function::from_str("mode"), Some(Function::Mode));
    assert_eq!(Function::from_str("Sum"), None);
    assert_eq!(Function::from_str("su"), None);
    assert_eq!(Function::from_str("summ"), None);
    assert_eq!(Function::from_str(""), None);
}

#[test]
fn every_function_returns_a_number() {
    for f in [Function::Sum, Function::Mean, Function::Median, Function::Mode] {
        assert!(matches!(f.return_type(), ValueType::Number));
    }
}

fn at(column: usize) -> Position {
    Position::new(1, column)
}

fn column_of(element: ValueType) -> ValueType {
    ValueType::Column(Box::new(element))
}

#[test]
fn no_argument_is_an_error_of_its_own() {
    for f in [Function::Sum, Function::Mean, Function::Median, Function::Mode] {
        let error = f.validate(&vec![]).unwrap_err();
        assert_eq!(error.message(), "Expected at least one argument");
        assert_eq!(error.position(), None);
        assert_eq!(
            error.message(),
            ExpressionError::missing_arguments().message()
        );
    }
}

#[test]
fn numbers_and_a_column_of_numbers_are_accepted() {
    let f = Function::Sum;
    assert!(f.validate(&vec![(ValueType::Number, at(5))]).is_ok());
    assert!(f
        .validate(&vec![
            (ValueType::Number, at(5)),
            (ValueType::Number, at(7)),
            (ValueType::Number, at(9))
        ])
        .is_ok());
    assert!(Function::Median.validate(&vec![(column_of(ValueType::Number), at(5))]).is_ok());
}

#[test]
fn the_first_argument_that_does_not_fit_is_named() {
    let error = Function::Mean
        .validate(&vec![
            (ValueType::Number, at(5)),
            (ValueType::String, at(7)),
            (ValueType::Boolean, at(9)),
        ])
        .unwrap_err();
    assert_eq!(error.message(), "Type String not valid, require Number");
    assert_eq!(error.position(), Some(at(7)));

    let error = Function::Mode.validate(&vec![(column_of(ValueType::String), at(6))]).unwrap_err();
    assert_eq!(error.message(), "Type Column(String) not valid, require Column(Number)");
    assert_eq!(error.position(), Some(at(6)));

    let error = Function::Sum
        .validate(&vec![(column_of(ValueType::Number), at(5)), (ValueType::Number, at(8))])
        .unwrap_err();
    assert_eq!(error.message(), "Type Column(Number) not valid, require Number");
    assert_eq!(error.position(), Some(at(5)));

    let error = Function::Sum.validate(&vec![(ValueType::Null, at(2))]).unwrap_err();
    assert_eq!(error.message(), "Type Null not valid, require Number");
    let error = Function::Sum.validate(&vec![(ValueType::Array, at(2))]).unwrap_err();
    assert_eq!(error.message(), "Type Array not valid, require Number");
}

#[test]
fn types_of_values() {
    assert!(matches!(Value::Number(0).value_type(), ValueType::Number));
    assert!(matches!(Value::String("s".to_string()).value_type(), ValueType::String));
    assert!(matches!(Value::Boolean(true).value_type(), ValueType::Boolean));
    assert!(matches!(Value::Array(vec![Value::Null]).value_type(), ValueType::Array));
    assert!(matches!(Value::Null.value_type(), ValueType::Null));
    let column = Value::Column(Box::new(Value::Number(1)));
    assert_eq!(format!("{:?}", column.value_type()), "Column(Number)");
    let nested = Value::Column(Box::new(Value::Column(Box::new(Value::String(String::new())))));
    assert_eq!(nested.value_type().name(), "Column(Column(String))");
    assert_eq!(ValueType::Array.name(), "Array");
    assert_eq!(format!("{:?}", nested.value_type().clone()), "Column(Column(String))");
}

#[test]
fn expression_error_constructors() {
    let place = Position::new(3, 14);
    let e = ExpressionError::new("m", Some(&place));
    assert_eq!(e.message(), "m");
    assert_eq!(e.position(), Some(place));
    assert!(e.source().is_none());
    assert_eq!(e.to_string(), " 003:014 | m");
    assert_eq!(e.as_string(), " 003:014 | m");
    let e = ExpressionError::new("m", None);
    assert_eq!(e.to_string(), "m");
    let e = ExpressionError::type_error(&ValueType::Number, &ValueType::Boolean, place);
    assert_eq!(e.message(), "Type Boolean not valid, require Number");
    assert_eq!(e.position(), Some(place));
    let e = ExpressionError::type_error(
        &ValueType::Number,
        &ValueType::String,
        Position::new(1, 5),
    );
    assert_eq!(e.message(), "Type String not valid, require Number");
    assert_eq!(e.position(), Some(Position::new(1, 5)));
    assert_eq!(e.to_string(), " 001:005 | Type String not valid, require Number");
    let e = ExpressionError::unknown_function("f");
    assert_eq!(e.message(), "Unknown function f");
}

#[test]
fn errors_chain_tier_by_tier() {
    let place = Position::new(1, 4);
    let lexical = TokenError::unexpected('$', place);
    assert_eq!(lexical.to_string(), " 001:004 | Disallowed char $ found");
    assert_eq!(lexical.as_string(), " 001:004 | Disallowed char $ found");
    assert!(lexical.source_message().is_none());
    let line = lexical.warn();
    assert_eq!(line.severity, Severity::Warn);
    assert_eq!(line.text, " 001:004 | Disallowed char $ found");
    let line = Error::error(&lexical);
    assert_eq!(line.severity, Severity::Error);
    assert_eq!(line.text, " 001:004 | Disallowed char $ found");

    let syntactic = ParseError::from(lexical);
    assert_eq!(syntactic.message, "Token error");
    assert_eq!(syntactic.position, Some(place));
    assert_eq!(syntactic.source().unwrap().message, "Disallowed char $ found");
    assert_eq!(syntactic.source_message().unwrap(), "Disallowed char $ found");
    let line = syntactic.warn();
    assert_eq!(line.severity, Severity::Warn);
    assert_eq!(line.text, "Token error: Disallowed char $ found");
    let line = syntactic.error();
    assert_eq!(line.severity, Severity::Error);
    assert_eq!(line.text, "Token error: Disallowed char $ found");
    assert_eq!(syntactic.as_string(), " 001:004 | Token error");

    let semantic = ExpressionError::from(syntactic);
    assert_eq!(semantic.message(), "Parse error");
    assert_eq!(semantic.position(), Some(place));
    assert_eq!(semantic.source().unwrap().message, "Token error");
    assert_eq!(Error::warn(&semantic).text, "Parse error: Token error");
    assert_eq!(Error::error(&semantic).severity, Severity::Error);
    assert_eq!(semantic.as_string(), " 001:004 | Parse error");
}

#[test]
fn an_error_without_a_place_is_its_message() {
    let e = ParseError::unexpected_eof();
    assert_eq!(e.as_string(), "Unexpected end of file");
    assert_eq!(e.warn().text, "Unexpected end of file");
    assert_eq!(e.error().text, "Unexpected end of file");
    let e = TokenError::no_source();
    assert_eq!(e.warn().text, "No source provided");
}

#[test]
fn places_are_filled_up_to_three_digits() {
    let e = ParseError::new("m", Some(&Position::new(0, 9)));
    assert_eq!(e.as_string(), " 000:009 | m");
    let e = ParseError::new("m", Some(&Position::new(10, 99)));
    assert_eq!(e.as_string(), " 010:099 | m");
    let e = ParseError::new("m", Some(&Position::new(100, 999)));
    assert_eq!(e.as_string(), " 100:999 | m");
    let e = ParseError::new("m", Some(&Position::new(1000, 123456)));
    assert_eq!(e.as_string(), " 1000:123456 | m");
}

#[test]
fn identifier_is_cloned() {
    let id = Identifier("name".to_string());
    assert_eq!(id.clone().0, "name");
}

#[test]
fn positions() {
    let p = Position::new(3, 4);
    assert_eq!(p.line(), 3);
    assert_eq!(p.column(), 4);
    assert_eq!(p.line, 3);
    assert_eq!(p.column, 4);
    assert_eq!(p, Position { line: 3, column: 4 });
}

use formula_engine::expression::parser::ast::{Assembler, Node, ParseError};
use formula_engine::expression::parser::tokeniser::TokenType;
use formula_engine::expression::parser::Position;
use formula_engine::Error;

fn parse(input: &str) -> Result<Node, ParseError> {
    let mut assembler = Assembler::from_string(input)?;
    assembler.parse()
}

fn shown(input: &str) -> String {
    parse(input).unwrap().to_string()
}

#[test]
fn check_assembler() {
    let mut assembler = Assembler::from_string("=2*FUNC(hello, 3+2, 6          ^7)").unwrap();
    for _ in 0..10 {
        println!("{:?}", assembler.current());
        assembler.advance().unwrap();
    }
}

#[test]
fn test_assembler() {
    let mut assembler = Assembler::from_string("=2*FUNC(hello, 3+2, 6          ^7)").unwrap();
    match assembler.parse() {
        Ok(node) => {
            println!("{}", node.make_expr());
            println!("{}", node.pprint(0));
        }
        Err(e) => {
            println!("{}", e.error().text);
            panic!();
        }
    }
}

#[test]
fn the_formula_of_the_example() {
    let node = parse("=2*FUNC(hello, 3+2, 6          ^7)").unwrap();
    assert_eq!(node.make_expr(), "2 * FUNC(hello, 3 + 2, 6 ^ 7)");
    assert_eq!(node.to_string(), "(2 * FUNC(hello, (3 + 2), (6 ^ 7)))");
}

#[test]
fn the_current_token_moves_on() {
    let mut assembler = Assembler::from_string("=2*x").unwrap();
    assert_eq!(assembler.current_type(), TokenType::Assign);
    assembler.advance().unwrap();
    assert_eq!(assembler.current_type(), TokenType::Number);
    assert_eq!(assembler.current().position, Position::new(1, 2));
    assembler.expect(TokenType::Number).unwrap();
    assert_eq!(assembler.current_type(), TokenType::Mul);
    let error = assembler.expect(TokenType::Plus).unwrap_err();
    assert_eq!(error.message, "Expected Plus but found Mul");
    assert_eq!(error.position, Some(Position::new(1, 3)));
    assert!(error.source().is_none());
}

#[test]
fn minimal_parentheses_after_parsing() {
    assert_eq!(parse("=1+2").unwrap().make_expr(), "1 + 2");
    assert_eq!(parse("=(1+2)*3").unwrap().make_expr(), "(1 + 2) * 3");
    assert_eq!(parse("=((1))+(2*3)").unwrap().make_expr(), "1 + 2 * 3");
}

#[test]
fn precedence_climbs() {
    assert_eq!(shown("=1+2*3"), "(1 + (2 * 3))");
    assert_eq!(shown("=1*2+3"), "((1 * 2) + 3)");
    assert_eq!(shown("=1|2&3"), "(1 | (2 & 3))");
    assert_eq!(shown("=1&2==3"), "(1 & (2 == 3))");
    assert_eq!(shown("=1<2+3"), "(1 < (2 + 3))");
    assert_eq!(shown("=1+2%3^4"), "(1 + (2 % (3 ^ 4)))");
    assert_eq!(shown("=!1==2"), "!(1 == 2)");
    assert_eq!(shown("=!!a"), "!!a");
    assert_eq!(shown("=-1^2"), "(-1 ^ 2)");
    assert_eq!(shown("=2^-1"), "(2 ^ -1)");
    assert_eq!(shown("=a!=b"), "(a != b)");
    assert_eq!(shown("=a<=b"), "(a <= b)");
    assert_eq!(shown("=a>=b"), "(a >= b)");
    assert_eq!(shown("=a>b"), "(a > b)");
    assert_eq!(shown("=a/b"), "(a / b)");
}

#[test]
fn every_level_folds_to_the_left() {
    assert_eq!(shown("=1-2-3"), "((1 - 2) - 3)");
    assert_eq!(shown("=1/2*3"), "((1 / 2) * 3)");
    assert_eq!(shown("=2^3^4"), "((2 ^ 3) ^ 4)");
    assert_eq!(shown("=1<2<3"), "((1 < 2) < 3)");
    assert_eq!(shown("=a|b|c"), "((a | b) | c)");
    assert_eq!(shown("=a&b&c"), "((a & b) & c)");
}

#[test]
fn primaries() {
    assert_eq!(format!("{:?}", parse("=12").unwrap()), "Number(\"12\")");
    assert_eq!(format!("{:?}", parse("='a b'").unwrap()), "String(\"a b\")");
    assert_eq!(format!("{:?}", parse("=true").unwrap()), "Boolean(true)");
    assert_eq!(format!("{:?}", parse("=false").unwrap()), "Boolean(false)");
    assert_eq!(format!("{:?}", parse("=x").unwrap()), "Identifier(Identifier(\"x\"))");
    assert_eq!(
        format!("{:?}", parse("=f()").unwrap()),
        "Function { name: Identifier(\"f\"), args: [] }"
    );
    assert_eq!(shown("=f(1)"), "f(1)");
    assert_eq!(shown("=f(1,2+3,g(x))"), "f(1, (2 + 3), g(x))");
    assert_eq!(shown("=(1)"), "1");
    assert_eq!(shown("=-(1+2)"), "-(1 + 2)");
    assert_eq!(shown("=-f(1)"), "-f(1)");
}

#[test]
fn arguments_are_parted_by_commas() {
    assert_eq!(shown("=f(1, 2 ,3)"), "f(1, 2, 3)");
    let error = parse("=f(1 2)").unwrap_err();
    assert_eq!(error.message, "Expected CloseParen but found Number");
    assert_eq!(error.position, Some(Position::new(1, 6)));
    let error = parse("=f(1,)").unwrap_err();
    assert_eq!(
        error.message,
        "Expected primary expression ([String, Number, Identifier, OpenParen]), found CloseParen"
    );
    assert_eq!(error.position, Some(Position::new(1, 6)));
    let error = parse("=f(,1)").unwrap_err();
    assert_eq!(
        error.message,
        "Expected primary expression ([String, Number, Identifier, OpenParen]), found Comma"
    );
    assert_eq!(error.position, Some(Position::new(1, 4)));
}

#[test]
fn what_follows_an_expression_is_left_alone() {
    let mut assembler = Assembler::from_string("=1 2").unwrap();
    assert_eq!(assembler.parse().unwrap().to_string(), "1");
    assert_eq!(assembler.current_type(), TokenType::Number);
    assert_eq!(assembler.current().position, Position::new(1, 4));
}

#[test]
fn a_formula_starts_with_the_equal_sign() {
    let error = parse("1+2").unwrap_err();
    assert_eq!(error.message, "Expected Assign but found Number");
    assert_eq!(error.position, Some(Position::new(1, 1)));
    assert!(error.source().is_none());
    let error = parse("").unwrap_err();
    assert_eq!(error.message, "Expected Assign but found EOF");
    assert_eq!(error.position, Some(Position::new(1, 1)));
}

#[test]
fn an_operand_is_missing_at_the_end() {
    let error = parse("=1/").unwrap_err();
    assert_eq!(
        error.message,
        "Expected primary expression ([String, Number, Identifier, OpenParen]), found EOF"
    );
    assert_eq!(error.position, Some(Position::new(1, 4)));
    assert!(error.source().is_none());
    assert_eq!(
        error.as_string(),
        " 001:004 | Expected primary expression ([String, Number, Identifier, OpenParen]), found EOF"
    );
}

#[test]
fn an_operand_is_missing_in_the_middle() {
    let error = parse("=1+*2").unwrap_err();
    assert_eq!(
        error.message,
        "Expected primary expression ([String, Number, Identifier, OpenParen]), found Mul"
    );
    assert_eq!(error.position, Some(Position::new(1, 4)));
    let error = parse("=--1").unwrap_err();
    assert_eq!(
        error.message,
        "Expected primary expression ([String, Number, Identifier, OpenParen]), found Minus"
    );
    assert_eq!(error.position, Some(Position::new(1, 3)));
}

#[test]
fn a_parenthesis_is_not_closed() {
    let error = parse("=(1+2").unwrap_err();
    assert_eq!(error.message, "Expected CloseParen but found EOF");
    assert_eq!(error.position, Some(Position::new(1, 6)));
    let error = parse("=f(1,2").unwrap_err();
    assert_eq!(error.message, "Expected CloseParen but found EOF");
    assert_eq!(error.position, Some(Position::new(1, 7)));
    let error = parse("=f(").unwrap_err();
    assert_eq!(
        error.message,
        "Expected primary expression ([String, Number, Identifier, OpenParen]), found EOF"
    );
    assert_eq!(error.position, Some(Position::new(1, 4)));
    let error = parse("=(1 2)").unwrap_err();
    assert_eq!(error.message, "Expected CloseParen but found Number");
    assert_eq!(error.position, Some(Position::new(1, 5)));
}

#[test]
fn a_lexical_error_is_the_cause() {
    let error = parse("=1+$").unwrap_err();
    assert_eq!(error.message, "Token error");
    assert_eq!(error.position, Some(Position::new(1, 4)));
    let cause = error.source().unwrap();
    assert_eq!(cause.message, "Disallowed char $ found");
    assert_eq!(cause.position, Some(Position::new(1, 4)));
    assert_eq!(error.warn().text, "Token error: Disallowed char $ found");

    let error = parse("=f(\"ab").unwrap_err();
    assert_eq!(error.message, "Token error");
    assert_eq!(error.source().unwrap().message, "Disallowed char \0 found");
    assert_eq!(error.position, Some(Position::new(1, 7)));
}

#[test]
fn a_lexical_error_at_the_first_token_is_the_cause() {
    let error = Assembler::from_string("$").err().unwrap();
    assert_eq!(error.message, "Token error");
    assert_eq!(error.position, Some(Position::new(1, 1)));
    assert_eq!(error.source().unwrap().message, "Disallowed char $ found");
}

#[test]
fn behind_the_end_token_nothing_is_left() {
    let mut assembler = Assembler::from_string("=").unwrap();
    assembler.advance().unwrap();
    assert_eq!(assembler.current_type(), TokenType::EOF);
    let error = assembler.advance().unwrap_err();
    assert_eq!(error.message, "Unexpected end of file");
    assert_eq!(error.position, None);
    assert_eq!(
        error.source().unwrap().message,
        "Attempted 0 char read on exhausted source"
    );
}

#[test]
fn the_levels_can_be_entered_one_by_one() {
    let mut assembler = Assembler::from_string("1*2+3|4").unwrap();
    assert_eq!(assembler.parse_mul_expr().unwrap().to_string(), "(1 * 2)");
    assert_eq!(assembler.current_type(), TokenType::Plus);
    let mut assembler = Assembler::from_string("1*2+3|4").unwrap();
    assert_eq!(assembler.parse_add_expr().unwrap().to_string(), "((1 * 2) + 3)");
    let mut assembler = Assembler::from_string("1*2+3|4").unwrap();
    assert_eq!(assembler.parse_or_expr().unwrap().to_string(), "(((1 * 2) + 3) | 4)");
    let mut assembler = Assembler::from_string("1&2|3").unwrap();
    assert_eq!(assembler.parse_and_expr().unwrap().to_string(), "(1 & 2)");
    let mut assembler = Assembler::from_string("!1<2&3").unwrap();
    assert_eq!(assembler.parse_not_expr().unwrap().to_string(), "!(1 < 2)");
    let mut assembler = Assembler::from_string("1<2&3").unwrap();
    assert_eq!(assembler.parse_cmp_expr().unwrap().to_string(), "(1 < 2)");
    let mut assembler = Assembler::from_string("1^2*3").unwrap();
    assert_eq!(assembler.parse_pow_expr().unwrap().to_string(), "(1 ^ 2)");
    let mut assembler = Assembler::from_string("-1^2").unwrap();
    assert_eq!(assembler.parse_unary_expr().unwrap().to_string(), "-1");
    let mut assembler = Assembler::from_string("x(1)+2").unwrap();
    assert_eq!(assembler.parse_primary().unwrap().to_string(), "x(1)");
}

#[test]
fn printing_and_parsing_again_gives_the_same_tree() {
    for formula in [
        "=1+2*3",
        "=(1+2)*3",
        "=1-2-3",
        "=f(1, g(2, 3), -4) ^ 2",
        "=!true | false & 1 < 2",
        "=(!true) == false",
        "=-(1+2)*3",
        "=2 ^ -1",
        "=(1|2)&(3|4)",
    ] {
        let first = parse(formula).unwrap();
        let text = format!("={}", first.make_expr());
        let second = parse(&text).unwrap();
        assert_eq!(format!("{:?}", first), format!("{:?}", second), "{}", formula);
    }
}

#[test]
fn parse_error_constructors() {
    let place = Position::new(12, 1234);
    let e = ParseError::new("m", Some(&place));
    assert_eq!(e.message, "m");
    assert_eq!(e.position, Some(place));
    assert!(e.source().is_none());
    assert_eq!(e.to_string(), " 012:1234 | m");
    let e = ParseError::new("m", None);
    assert_eq!(e.position, None);
    assert_eq!(e.to_string(), "m");
    let e = ParseError::expected(&TokenType::CloseParen, &TokenType::Comma, place);
    assert_eq!(e.message, "Expected CloseParen but found Comma");
    assert_eq!(e.position, Some(place));
    let e = ParseError::unexpected_eof();
    assert_eq!(e.message, "Unexpected end of file");
    assert_eq!(e.position, None);
    assert!(e.source().is_none());
}

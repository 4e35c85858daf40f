use formula_engine::expression::parser::ast::{BinaryOpType, Identifier, Node, UnaryOpType};

fn number(digits: &str) -> Node {
    Node::Number(digits.to_string())
}

fn binary(left: Node, op: BinaryOpType, right: Node) -> Node {
    Node::BinaryOp { left: Box::new(left), right: Some((op, Box::new(right))) }
}

fn unary(op: UnaryOpType, right: Node) -> Node {
    Node::UnaryOp { op: Some(op), right: Box::new(right) }
}

fn call(name: &str, args: Vec<Node>) -> Node {
    Node::Function { name: Identifier(name.to_string()), args }
}

fn comes_back(tree: &Node) -> bool {
    match tree.reparse() {
        Ok(again) => format!("{:?}", again) == format!("{:?}", tree),
        Err(_) => false,
    }
}

#[test]
fn trees_come_back_from_their_text() {
    let all = [
        BinaryOpType::Add,
        BinaryOpType::Sub,
        BinaryOpType::Mul,
        BinaryOpType::Div,
        BinaryOpType::Mod,
        BinaryOpType::Pow,
        BinaryOpType::Eq,
        BinaryOpType::Ne,
        BinaryOpType::Lt,
        BinaryOpType::Le,
        BinaryOpType::Gt,
        BinaryOpType::Ge,
        BinaryOpType::And,
        BinaryOpType::Or,
    ];
    assert!(comes_back(&number("0")));
    assert!(comes_back(&number("0012")));
    assert!(comes_back(&Node::Boolean(true)));
    assert!(comes_back(&Node::Boolean(false)));
    assert!(comes_back(&call("f", vec![])));
    assert!(comes_back(&call("_f1", vec![number("1"), Node::Boolean(true)])));
    for outer in all {
        for inner in all {
            // a binary operation on the left, whatever its precedence
            let tree = binary(binary(number("1"), inner, number("2")), outer, number("3"));
            assert!(comes_back(&tree), "{:?} {:?}", outer, inner);
            // on the right, where the precedences differ
            if inner.precedence() != outer.precedence() {
                let tree = binary(number("1"), outer, binary(number("2"), inner, number("3")));
                assert!(comes_back(&tree), "{:?} {:?}", outer, inner);
            }
            // below a unary operator
            let tree = unary(
                UnaryOpType::Neg,
                binary(binary(number("1"), inner, number("2")), outer, Node::Boolean(true)),
            );
            assert!(comes_back(&tree), "{:?} {:?}", outer, inner);
            let tree = binary(
                unary(UnaryOpType::Neg, call("f", vec![binary(number("1"), inner, number("2"))])),
                outer,
                unary(UnaryOpType::Neg, number("3")),
            );
            assert!(comes_back(&tree), "{:?} {:?}", outer, inner);
        }
        let negation = unary(UnaryOpType::Not, unary(UnaryOpType::Not, number("1")));
        assert!(comes_back(&binary(negation.clone(), outer, number("2"))), "{:?}", outer);
        assert!(comes_back(&binary(number("2"), outer, negation.clone())), "{:?}", outer);
        assert!(comes_back(&unary(
            UnaryOpType::Not,
            unary(UnaryOpType::Neg, binary(number("1"), outer, number("2")))
        )));
    }
    let tree = call(
        "sum",
        vec![
            unary(UnaryOpType::Not, binary(Node::Boolean(true), BinaryOpType::Or, number("1"))),
            call("g", vec![binary(number("1"), BinaryOpType::Sub, number("2"))]),
        ],
    );
    assert!(comes_back(&tree));
}

#[test]
fn operands_of_unary_operators_come_back() {
    let a = || Node::Identifier(Identifier("a".to_string()));
    let b = || Node::Identifier(Identifier("b".to_string()));
    let tree = unary(UnaryOpType::Not, binary(a(), BinaryOpType::Eq, b()));
    assert_eq!(tree.make_expr(), "!a == b");
    assert!(comes_back(&tree));
    let tree = unary(
        UnaryOpType::Neg,
        binary(binary(number("1"), BinaryOpType::Mul, number("2")), BinaryOpType::Add, number("3")),
    );
    assert_eq!(tree.make_expr(), "-(1 * 2 + 3)");
    assert!(comes_back(&tree));
    let tree = unary(UnaryOpType::Neg, unary(UnaryOpType::Not, number("1")));
    assert_eq!(tree.make_expr(), "-(!1)");
    assert!(comes_back(&tree));
    let tree = unary(
        UnaryOpType::Neg,
        binary(unary(UnaryOpType::Not, number("1")), BinaryOpType::Eq, number("2")),
    );
    assert_eq!(tree.make_expr(), "-((!1) == 2)");
    assert!(comes_back(&tree));
    let tree = unary(UnaryOpType::Not, binary(a(), BinaryOpType::Or, b()));
    assert_eq!(tree.make_expr(), "!(a | b)");
    assert!(comes_back(&tree));
    let tree = unary(UnaryOpType::Not, binary(a(), BinaryOpType::And, b()));
    assert_eq!(tree.make_expr(), "!(a & b)");
    assert!(comes_back(&tree));
    let tree = binary(
        binary(a(), BinaryOpType::And, unary(UnaryOpType::Not, binary(b(), BinaryOpType::Lt, a()))),
        BinaryOpType::Or,
        unary(UnaryOpType::Not, unary(UnaryOpType::Neg, binary(a(), BinaryOpType::Pow, b()))),
    );
    assert_eq!(tree.make_expr(), "a & !b < a | !-(a ^ b)");
    assert!(comes_back(&tree));
    let tree = call("f", vec![unary(UnaryOpType::Not, binary(a(), BinaryOpType::Add, b())), a()]);
    assert_eq!(tree.make_expr(), "f(!a + b, a)");
    assert!(comes_back(&tree));
}

#[test]
fn trees_that_do_not_come_back() {
    // the grammar folds to the left
    let tree = binary(
        number("1"),
        BinaryOpType::Sub,
        binary(number("2"), BinaryOpType::Sub, number("3")),
    );
    assert_eq!(tree.make_expr(), "1 - 2 - 3");
    assert!(!comes_back(&tree));
    let tree = binary(
        number("1"),
        BinaryOpType::Add,
        binary(number("2"), BinaryOpType::Sub, number("3")),
    );
    assert!(!comes_back(&tree));
    // a string is written without its quotes
    assert!(!comes_back(&Node::String("abc".to_string())));
    assert!(!comes_back(&Node::String("a b".to_string())));
    // two unary minus in a row
    let tree = unary(UnaryOpType::Neg, unary(UnaryOpType::Neg, number("1")));
    assert_eq!(tree.make_expr(), "--1");
    assert!(!comes_back(&tree));
    let tree = binary(
        number("2"),
        BinaryOpType::Mul,
        unary(UnaryOpType::Neg, unary(UnaryOpType::Neg, call("f", vec![]))),
    );
    assert_eq!(tree.make_expr(), "2 * --f()");
    assert!(!comes_back(&tree));
    // a wrapper is not printed
    let tree = Node::BinaryOp { left: Box::new(number("1")), right: None };
    assert!(!comes_back(&tree));
    // a number that is no run of digits, a name that is no word
    assert!(!comes_back(&number("")));
    assert!(!comes_back(&number("1x")));
    assert!(!comes_back(&call("true", vec![])));
    assert!(!comes_back(&call("a b", vec![])));
}

#[test]
fn reparse_is_parsing_the_printed_text() {
    let tree = Node::Identifier(Identifier("x".to_string()));
    assert!(comes_back(&tree));
    let tree = Node::String("x".to_string());
    assert_eq!(format!("{:?}", tree.reparse().unwrap()), "Identifier(Identifier(\"x\"))");
    let error = Node::String("$".to_string()).reparse().unwrap_err();
    assert_eq!(error.message, "Token error");
    let error = Node::String("".to_string()).reparse().unwrap_err();
    assert_eq!(
        error.message,
        "Expected primary expression ([String, Number, Identifier, OpenParen]), found EOF"
    );
}

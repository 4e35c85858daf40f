use formula_engine::expression::parser::ast::{BinaryOpType, Identifier, Node, UnaryOpType};

fn number(digits: &str) -> Node {
    Node::Number(digits.to_string())
}

fn binary(left: Node, op: BinaryOpType, right: Node) -> Node {
    Node::BinaryOp { left: Box::new(left), right: Some((op, Box::new(right))) }
}

fn wrapper(inner: Node) -> Node {
    Node::BinaryOp { left: Box::new(inner), right: None }
}

fn unary(op: UnaryOpType, right: Node) -> Node {
    Node::UnaryOp { op: Some(op), right: Box::new(right) }
}

fn call(name: &str, args: Vec<Node>) -> Node {
    Node::Function { name: Identifier(name.to_string()), args }
}

#[test]
fn make_expr() {
    let ast = Node::BinaryOp {
        left: Box::new(Node::Number("1".to_string())),
        right: Some((BinaryOpType::Add, Box::new(Node::Number("2".to_string())))),
    };
    let ast = Node::BinaryOp {
        left: Box::new(ast.clone()),
        right: Some((BinaryOpType::Mul, Box::new(ast))),
    };
    let ast = Node::BinaryOp {
        left: Box::new(ast),
        right: Some((BinaryOpType::Pow, Box::new(Node::Number("8".to_string())))),
    };
    let ast = Node::BinaryOp {
        left: Box::new(Node::Number("5".to_string())),
        right: Some((BinaryOpType::Add, Box::new(ast))),
    };
    println!("{}", ast.make_expr());
}

#[test]
fn make_expr_text() {
    let sum = binary(number("1"), BinaryOpType::Add, number("2"));
    let ast = binary(sum.clone(), BinaryOpType::Mul, sum);
    let ast = binary(ast, BinaryOpType::Pow, number("8"));
    let ast = binary(number("5"), BinaryOpType::Add, ast);
    assert_eq!(ast.make_expr(), "5 + ((1 + 2) * (1 + 2)) ^ 8");
    assert_eq!(ast.to_string(), "(5 + (((1 + 2) * (1 + 2)) ^ 8))");
}

#[test]
fn test_ast_reduce() {
    let ast = Node::BinaryOp {
        left: Box::new(Node::BinaryOp {
            left: Box::new(Node::BinaryOp {
                left: Box::new(Node::BinaryOp {
                    left: Box::new(Node::BinaryOp {
                        left: Box::new(Node::Number("1".to_string())),
                        right: Some((BinaryOpType::Add, Box::new(Node::Number("2".to_string())))),
                    }),
                    right: None,
                }),
                right: None,
            }),
            right: Some((BinaryOpType::Mul, Box::new(Node::Number("3".to_string())))),
        }),
        right: Some((BinaryOpType::Pow, Box::new(Node::Number("4".to_string())))),
    };
    let reduced_ast = ast.reduce();
    println!("Original AST:");
    println!("{}", ast.pprint(0));
    println!("\nReduced AST:");
    println!("{}", reduced_ast.pprint(0));
}

#[test]
fn reduce_strips_wrappers_at_every_depth() {
    let inner = binary(number("1"), BinaryOpType::Add, number("2"));
    let ast = binary(
        binary(wrapper(wrapper(inner)), BinaryOpType::Mul, number("3")),
        BinaryOpType::Pow,
        Node::UnaryOp { op: None, right: Box::new(wrapper(number("4"))) },
    );
    let reduced = ast.reduce();
    let expected = binary(
        binary(
            binary(number("1"), BinaryOpType::Add, number("2")),
            BinaryOpType::Mul,
            number("3"),
        ),
        BinaryOpType::Pow,
        number("4"),
    );
    assert_eq!(format!("{:?}", reduced), format!("{:?}", Box::new(expected)));
}

#[test]
fn reduce_goes_into_arguments_and_operands() {
    let ast = call(
        "f",
        vec![
            wrapper(number("1")),
            unary(UnaryOpType::Neg, wrapper(number("2"))),
            call("g", vec![Node::UnaryOp { op: None, right: Box::new(number("3")) }]),
        ],
    );
    let expected = call(
        "f",
        vec![number("1"), unary(UnaryOpType::Neg, number("2")), call("g", vec![number("3")])],
    );
    assert_eq!(format!("{:?}", ast.reduce()), format!("{:?}", Box::new(expected)));
}

#[test]
fn reduce_twice_is_reduce_once() {
    let ast = binary(
        wrapper(Node::UnaryOp { op: None, right: Box::new(wrapper(number("1"))) }),
        BinaryOpType::Sub,
        call("f", vec![wrapper(Node::String("s".to_string())), Node::Boolean(true)]),
    );
    let once = ast.reduce();
    let twice = once.reduce();
    assert_eq!(format!("{:?}", once), format!("{:?}", twice));
}

#[test]
fn reduce_leaves_the_original() {
    let ast = wrapper(number("1"));
    let before = format!("{:?}", ast);
    let _ = ast.reduce();
    assert_eq!(format!("{:?}", ast), before);
}

#[test]
fn clone_is_a_deep_copy() {
    let ast = call("f", vec![binary(number("1"), BinaryOpType::Lt, Node::Boolean(false))]);
    assert_eq!(format!("{:?}", ast.clone()), format!("{:?}", ast));
    assert_eq!(format!("{:?}", ast.duplicate()), format!("{:?}", ast));
}

#[test]
fn precedences() {
    assert_eq!(BinaryOpType::Or.precedence(), 1);
    assert_eq!(BinaryOpType::And.precedence(), 2);
    assert_eq!(UnaryOpType::Not.precedence(), 3);
    assert_eq!(BinaryOpType::Eq.precedence(), 4);
    assert_eq!(BinaryOpType::Ne.precedence(), 4);
    assert_eq!(BinaryOpType::Lt.precedence(), 4);
    assert_eq!(BinaryOpType::Le.precedence(), 4);
    assert_eq!(BinaryOpType::Gt.precedence(), 4);
    assert_eq!(BinaryOpType::Ge.precedence(), 4);
    assert_eq!(BinaryOpType::Add.precedence(), 5);
    assert_eq!(BinaryOpType::Sub.precedence(), 5);
    assert_eq!(BinaryOpType::Mul.precedence(), 6);
    assert_eq!(BinaryOpType::Div.precedence(), 6);
    assert_eq!(BinaryOpType::Mod.precedence(), 6);
    assert_eq!(BinaryOpType::Pow.precedence(), 7);
    assert_eq!(UnaryOpType::Neg.precedence(), 8);
    assert_eq!(number("1").precedence(), 255);
    assert_eq!(wrapper(binary(number("1"), BinaryOpType::Add, number("2"))).precedence(), 5);
    assert_eq!(Node::UnaryOp { op: None, right: Box::new(number("1")) }.precedence(), 255);
    assert_eq!(unary(UnaryOpType::Not, number("1")).precedence(), 3);
}

#[test]
fn operator_symbols() {
    assert_eq!(BinaryOpType::Add.to_string(), "+");
    assert_eq!(BinaryOpType::Sub.to_string(), "-");
    assert_eq!(BinaryOpType::Mul.to_string(), "*");
    assert_eq!(BinaryOpType::Div.to_string(), "/");
    assert_eq!(BinaryOpType::Mod.to_string(), "%");
    assert_eq!(BinaryOpType::Pow.to_string(), "^");
    assert_eq!(BinaryOpType::Eq.to_string(), "==");
    assert_eq!(BinaryOpType::Ne.to_string(), "!=");
    assert_eq!(BinaryOpType::Lt.to_string(), "<");
    assert_eq!(BinaryOpType::Le.to_string(), "<=");
    assert_eq!(BinaryOpType::Gt.to_string(), ">");
    assert_eq!(BinaryOpType::Ge.to_string(), ">=");
    assert_eq!(BinaryOpType::And.to_string(), "&");
    assert_eq!(BinaryOpType::Or.to_string(), "|");
    assert_eq!(UnaryOpType::Neg.to_string(), "-");
    assert_eq!(UnaryOpType::Not.to_string(), "!");
    assert_eq!(BinaryOpType::Ge.name(), "Ge");
    assert_eq!(UnaryOpType::Neg.name(), "Neg");
}

#[test]
fn parentheses_only_where_the_parent_binds_tighter() {
    let sum = binary(number("1"), BinaryOpType::Add, number("2"));
    assert_eq!(sum.make_expr(), "1 + 2");
    assert_eq!(binary(sum.clone(), BinaryOpType::Mul, number("3")).make_expr(), "(1 + 2) * 3");
    assert_eq!(binary(number("3"), BinaryOpType::Mul, sum.clone()).make_expr(), "3 * (1 + 2)");
    let product = binary(number("1"), BinaryOpType::Mul, number("2"));
    assert_eq!(binary(product, BinaryOpType::Add, number("3")).make_expr(), "1 * 2 + 3");
    assert_eq!(binary(sum.clone(), BinaryOpType::Sub, sum.clone()).make_expr(), "1 + 2 - 1 + 2");
    let negated = unary(UnaryOpType::Not, Node::Boolean(true));
    assert_eq!(
        binary(negated.clone(), BinaryOpType::Eq, Node::Boolean(false)).make_expr(),
        "(!true) == false"
    );
    assert_eq!(
        binary(negated, BinaryOpType::And, Node::Boolean(false)).make_expr(),
        "!true & false"
    );
}

#[test]
fn texts_of_the_other_nodes() {
    assert_eq!(Node::Boolean(true).make_expr(), "true");
    assert_eq!(Node::Boolean(false).to_string(), "false");
    assert_eq!(Node::String("a b".to_string()).make_expr(), "a b");
    assert_eq!(Node::Identifier(Identifier("x".to_string())).make_expr(), "x");
    assert_eq!(number("42").make_expr(), "42");
    let sum = binary(number("1"), BinaryOpType::Add, number("2"));
    assert_eq!(unary(UnaryOpType::Neg, sum.clone()).make_expr(), "-(1 + 2)");
    assert_eq!(unary(UnaryOpType::Neg, sum.clone()).to_string(), "-(1 + 2)");
    let nested = binary(
        binary(number("1"), BinaryOpType::Mul, number("2")),
        BinaryOpType::Add,
        number("3"),
    );
    assert_eq!(unary(UnaryOpType::Neg, nested.clone()).make_expr(), "-(1 * 2 + 3)");
    assert_eq!(unary(UnaryOpType::Neg, nested.clone()).to_string(), "-((1 * 2) + 3)");
    assert_eq!(unary(UnaryOpType::Not, nested).make_expr(), "!1 * 2 + 3");
    let equal = binary(number("1"), BinaryOpType::Eq, number("2"));
    assert_eq!(unary(UnaryOpType::Not, equal.clone()).make_expr(), "!1 == 2");
    assert_eq!(unary(UnaryOpType::Not, equal).to_string(), "!(1 == 2)");
    let either = binary(number("1"), BinaryOpType::Or, number("2"));
    assert_eq!(unary(UnaryOpType::Not, either).make_expr(), "!(1 | 2)");
    assert_eq!(
        unary(UnaryOpType::Neg, unary(UnaryOpType::Not, number("1"))).make_expr(),
        "-(!1)"
    );
    assert_eq!(
        unary(UnaryOpType::Not, unary(UnaryOpType::Neg, number("1"))).make_expr(),
        "!-1"
    );
    assert_eq!(
        unary(UnaryOpType::Neg, unary(UnaryOpType::Neg, number("1"))).make_expr(),
        "--1"
    );
    assert_eq!(unary(UnaryOpType::Not, number("1")).make_expr(), "!1");
    assert_eq!(wrapper(sum.clone()).make_expr(), "(1 + 2)");
    assert_eq!(Node::UnaryOp { op: None, right: Box::new(sum.clone()) }.to_string(), "(1 + 2)");
    assert_eq!(call("f", vec![]).make_expr(), "f()");
    assert_eq!(call("f", vec![sum.clone()]).make_expr(), "f(1 + 2)");
    assert_eq!(
        call("f", vec![sum.clone(), number("3"), call("g", vec![])]).make_expr(),
        "f(1 + 2, 3, g())"
    );
    assert_eq!(call("f", vec![sum.clone(), number("3")]).to_string(), "f((1 + 2), 3)");
}

#[test]
fn dump_of_a_tree() {
    let ast = binary(
        wrapper(number("1")),
        BinaryOpType::Add,
        call(
            "f",
            vec![
                Node::String("a\"b".to_string()),
                unary(UnaryOpType::Neg, Node::Boolean(true)),
                Node::Identifier(Identifier("x".to_string())),
            ],
        ),
    );
    let expected = [
        " <BinaryOp BinOpType =Add>",
        "   <BinaryOp>",
        "     <Number =1>",
        "   </BinaryOp>",
        "   <Function FunctionName =Identifier(\"f\")>",
        "     <String =\"a\\\"b\">",
        "     <UnaryOp UnaryOpType =Neg>",
        "       <Boolean =true>",
        "     </UnaryOp>",
        "     <Identifier =Identifier(\"x\")>",
        "   </Function>",
        " </BinaryOp>",
        "",
    ]
    .join("\n");
    assert_eq!(ast.pprint(1), expected);
    assert_eq!(
        Node::UnaryOp { op: None, right: Box::new(Node::Boolean(false)) }.pprint(0),
        "<UnaryOp>\n  <Boolean =false>\n</UnaryOp>\n"
    );
}

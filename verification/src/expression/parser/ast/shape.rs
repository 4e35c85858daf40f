//! Printed syntax: what a formula looks like on the page, parentheses
//! included. A shape has a tree, which is what it means, and tokens, which
//! is how it is written. The parser is shown here to read the tokens of a
//! well-formed shape back into the tree of the shape.
use vstd::prelude::*;
use super::super::tokeniser::lexical::TokenStream;
use super::super::tokeniser::{TokenType, TokenValueView, TokenView};
use super::assembler::shifted;
use super::error::ParseErrorView;
use super::grammar::{
    left, parse_arguments, parse_binary, parse_formula, parse_not, parse_operand, parse_primary,
    parse_tail, parse_unary, token_at, Level,
};
use super::node::{BinaryOpType, NodeView, UnaryOpType};

verus! {

/// A token without its place: its kind and what it carries.
pub struct Lexeme {
    pub kind: TokenType,
    pub value: TokenValueView,
}

impl Lexeme {
    pub open spec fn of(token: TokenView) -> Lexeme {
        Lexeme { kind: token.token_type, value: token.value }
    }

    pub open spec fn symbol(kind: TokenType) -> Lexeme {
        Lexeme { kind, value: TokenValueView::Symbol }
    }
}

/// The level of the grammar that the operator belongs to.
pub open spec fn level_of(op: BinaryOpType) -> Level {
    match op {
        BinaryOpType::Or => Level::Or,
        BinaryOpType::And => Level::And,
        BinaryOpType::Eq
        | BinaryOpType::Ne
        | BinaryOpType::Lt
        | BinaryOpType::Le
        | BinaryOpType::Gt
        | BinaryOpType::Ge => Level::Comparison,
        BinaryOpType::Add | BinaryOpType::Sub => Level::Sum,
        BinaryOpType::Mul | BinaryOpType::Div | BinaryOpType::Mod => Level::Product,
        BinaryOpType::Pow => Level::Power,
    }
}

/// The kind of the token that stands for the operator.
pub open spec fn kind_of(op: BinaryOpType) -> TokenType {
    match op {
        BinaryOpType::Add => TokenType::Plus,
        BinaryOpType::Sub => TokenType::Minus,
        BinaryOpType::Mul => TokenType::Mul,
        BinaryOpType::Div => TokenType::Div,
        BinaryOpType::Mod => TokenType::Mod,
        BinaryOpType::Pow => TokenType::Exp,
        BinaryOpType::Eq => TokenType::Equal,
        BinaryOpType::Ne => TokenType::NEqual,
        BinaryOpType::Lt => TokenType::LessThan,
        BinaryOpType::Le => TokenType::LTEqual,
        BinaryOpType::Gt => TokenType::GreaterThan,
        BinaryOpType::Ge => TokenType::GTEqual,
        BinaryOpType::And => TokenType::And,
        BinaryOpType::Or => TokenType::Or,
    }
}

/// The kind of the token that stands for the unary operator.
pub open spec fn prefix_kind(op: UnaryOpType) -> TokenType {
    match op {
        UnaryOpType::Neg => TokenType::Minus,
        UnaryOpType::Not => TokenType::Not,
    }
}

/// A formula as it is written.
pub enum Shape {
    Number(Seq<char>),
    Boolean(bool),
    /// The name of a variable.
    Name(Seq<char>),
    /// An expression in parentheses.
    Group(Box<Shape>),
    Call { name: Seq<char>, args: Seq<Shape> },
    Prefix { op: UnaryOpType, operand: Box<Shape> },
    Infix { left: Box<Shape>, op: BinaryOpType, right: Box<Shape> },
}

impl Shape {
    /// The tree that the shape means. Parentheses leave no trace in it.
    pub open spec fn tree(self) -> NodeView
        decreases self,
    {
        match self {
            Shape::Number(digits) => NodeView::Number(digits),
            Shape::Boolean(b) => NodeView::Boolean(b),
            Shape::Name(name) => NodeView::Identifier(name),
            Shape::Group(inner) => inner.tree(),
            Shape::Call { name, args } => NodeView::Function {
                name,
                args: Seq::new(
                    args.len(),
                    |i: int|
                        if 0 <= i < args.len() {
                            args[i].tree()
                        } else {
                            NodeView::Boolean(false)
                        },
                ),
            },
            Shape::Prefix { op, operand } => NodeView::UnaryOp {
                op: Some(op),
                right: Box::new(operand.tree()),
            },
            Shape::Infix { left, op, right } => NodeView::BinaryOp {
                left: Box::new(left.tree()),
                right: Some((op, Box::new(right.tree()))),
            },
        }
    }

    /// The tokens that the shape is written with, without their places.
    pub open spec fn lexemes(self) -> Seq<Lexeme>
        decreases self, 0nat,
    {
        match self {
            Shape::Number(digits) => seq![
                Lexeme { kind: TokenType::Number, value: TokenValueView::Number(digits) },
            ],
            Shape::Boolean(b) => seq![
                Lexeme { kind: TokenType::Boolean, value: TokenValueView::Boolean(b) },
            ],
            Shape::Name(name) => seq![
                Lexeme { kind: TokenType::Identifier, value: TokenValueView::String(name) },
            ],
            Shape::Group(inner) => seq![Lexeme::symbol(TokenType::OpenParen)] + inner.lexemes()
                + seq![Lexeme::symbol(TokenType::CloseParen)],
            Shape::Call { name, args } => seq![
                Lexeme { kind: TokenType::Identifier, value: TokenValueView::String(name) },
                Lexeme::symbol(TokenType::OpenParen),
            ] + Shape::lexemes_from(args, 0) + seq![Lexeme::symbol(TokenType::CloseParen)],
            Shape::Prefix { op, operand } => seq![Lexeme::symbol(prefix_kind(op))]
                + operand.lexemes(),
            Shape::Infix { left, op, right } => left.lexemes() + seq![Lexeme::symbol(kind_of(op))]
                + right.lexemes(),
        }
    }

    /// The tokens of the arguments from index `from` on, with a comma
    /// between each two of them.
    pub open spec fn lexemes_from(args: Seq<Shape>, from: nat) -> Seq<Lexeme>
        decreases args, args.len() - from,
    {
        if from >= args.len() {
            Seq::empty()
        } else if from + 1 == args.len() {
            args[from as int].lexemes()
        } else {
            args[from as int].lexemes() + seq![Lexeme::symbol(TokenType::Comma)]
                + Shape::lexemes_from(args, from + 1)
        }
    }

    /// Whether the shape is one that the grammar calls a primary.
    pub open spec fn is_primary(self) -> bool {
        self is Number || self is Boolean || self is Name || self is Group || self is Call
    }

    /// Whether the shape, written without parentheses around it, can stand
    /// where the grammar reads an expression of level `level`.
    pub open spec fn fits(self, level: Level) -> bool {
        match self {
            Shape::Infix { op, .. } => level_of(op).depth() <= level.depth(),
            Shape::Prefix { op: UnaryOpType::Not, .. } => level.depth() >= Level::And.depth(),
            _ => true,
        }
    }

    /// Whether the shape, written without parentheses around it, can stand
    /// as an operand of an operator of level `level`.
    pub open spec fn fits_operand(self, level: Level) -> bool {
        match self {
            Shape::Infix { op, .. } => level_of(op).depth() < level.depth(),
            Shape::Prefix { op: UnaryOpType::Not, .. } => level.depth() >= Level::And.depth(),
            _ => true,
        }
    }

    /// Whether the grammar reads the shape as it is written: each operand
    /// of a binary operator binds at least as tightly as the operator on
    /// the left and tighter on the right, `-` stands before a primary, and
    /// `!` before another `!` or before what can stand at the level of
    /// comparisons.
    pub open spec fn well_formed(self) -> bool
        decreases self,
    {
        match self {
            Shape::Number(_) => true,
            Shape::Boolean(_) => true,
            Shape::Name(_) => true,
            Shape::Group(inner) => inner.well_formed(),
            Shape::Call { name, args } => forall|i: int|
                0 <= i < args.len() ==> (#[trigger] args[i]).well_formed(),
            Shape::Prefix { op, operand } => operand.well_formed() && match op {
                UnaryOpType::Neg => operand.is_primary(),
                UnaryOpType::Not => operand.fits(Level::Comparison) || (*operand
                    matches Shape::Prefix { op: UnaryOpType::Not, .. }),
            },
            Shape::Infix { left, op, right } => left.well_formed() && right.well_formed()
                && left.fits(level_of(op)) && right.fits_operand(level_of(op)),
        }
    }
}

/// Whether the tokens of `stream` from index `at` on are `lexemes`, places
/// apart.
pub open spec fn spells(stream: TokenStream, at: nat, lexemes: Seq<Lexeme>) -> bool {
    &&& at + lexemes.len() <= stream.tokens.len()
    &&& forall|i: int|
        0 <= i < lexemes.len() ==> Lexeme::of(#[trigger] stream.tokens[at + i]) == lexemes[i]
}

/// Whether the token at `at` ends an expression of `level`: it opens no
/// parenthesis, and it is no operator of `level` or of a tighter level.
pub open spec fn quiet(stream: TokenStream, at: nat, level: Level) -> bool {
    &&& token_at(stream, at).token_type != TokenType::OpenParen
    &&& forall|other: Level|
        other.depth() <= level.depth() ==> (#[trigger] other.operator(
            token_at(stream, at).token_type,
        )) is None
}

/// Whether the token at `at` ends an operand of `level`: it opens no
/// parenthesis, and it is no operator of a level tighter than `level`.
pub open spec fn quiet_below(stream: TokenStream, at: nat, level: Level) -> bool {
    &&& token_at(stream, at).token_type != TokenType::OpenParen
    &&& forall|other: Level|
        other.depth() < level.depth() ==> (#[trigger] other.operator(
            token_at(stream, at).token_type,
        )) is None
}

/// Tokens that spell two texts in a row spell each at its place.
pub proof fn lemma_spells_split(stream: TokenStream, at: nat, a: Seq<Lexeme>, b: Seq<Lexeme>)
    requires
        spells(stream, at, a + b),
    ensures
        spells(stream, at, a),
        spells(stream, at + a.len(), b),
{
    assert forall|i: int| 0 <= i < a.len() implies Lexeme::of(#[trigger] stream.tokens[at + i])
        == a[i] by {}
    assert forall|i: int| 0 <= i < b.len() implies Lexeme::of(
        #[trigger] stream.tokens[at + a.len() + i],
    ) == b[i] by {
        assert(Lexeme::of(stream.tokens[at + (a.len() + i)]) == (a + b)[a.len() + i]);
    }
}

/// A shape is written with at least one token, and the first is none that
/// closes a parenthesis. It is `!` only where the shape cannot stand at the
/// level of comparisons.
pub proof fn lemma_first_lexeme(shape: Shape)
    requires
        shape.well_formed(),
    ensures
        shape.lexemes().len() >= 1,
        shape.lexemes()[0].kind != TokenType::CloseParen,
        shape.lexemes()[0].kind == TokenType::Not ==> !(shape.fits(Level::Comparison)),
        shape.is_primary() ==> shape.lexemes()[0].kind != TokenType::Minus,
    decreases shape,
{
    match shape {
        Shape::Infix { left, op, right } => {
            lemma_first_lexeme(*left);
        },
        _ => {},
    }
}

/// The token of an operator is an operator of the level of that operator,
/// and of no other level.
pub proof fn lemma_operator_level(op: BinaryOpType)
    ensures
        level_of(op).operator(kind_of(op)) == Some(op),
        forall|other: Level|
            other != level_of(op) ==> (#[trigger] other.operator(kind_of(op))) is None,
        forall|other: Level| (#[trigger] other.operator(TokenType::CloseParen)) is None,
        forall|other: Level| (#[trigger] other.operator(TokenType::Comma)) is None,
        forall|other: Level| (#[trigger] other.operator(TokenType::EOF)) is None,
        kind_of(op) != TokenType::OpenParen,
{
}

/// The trees of the shapes `args` from index `from` on.
pub open spec fn trees_from(args: Seq<Shape>, from: nat) -> Seq<NodeView> {
    Seq::new((args.len() - from) as nat, |i: int| args[from + i].tree())
}

/// The outcome of a step that read `node` from `used` tokens.
pub open spec fn read(node: NodeView, used: nat) -> Result<(NodeView, nat), ParseErrorView> {
    Ok((node, used))
}

/// The outcome of a step that read the arguments `nodes` from `used` tokens.
pub open spec fn read_all(nodes: Seq<NodeView>, used: nat) -> Result<
    (Seq<NodeView>, nat),
    ParseErrorView,
> {
    Ok((nodes, used))
}

/// What the lemmas below ask of the tokens: from `at` on they spell
/// `shape`, one more token follows, and `shape` is well formed.
pub open spec fn written(stream: TokenStream, at: nat, shape: Shape) -> bool {
    &&& shape.well_formed()
    &&& spells(stream, at, shape.lexemes())
    &&& at + shape.lexemes().len() < stream.tokens.len()
}

/// Where the token behind a shape continues no level from `level` on, the
/// grammar reads the shape at `level` as its tree.
pub proof fn lemma_reads_binary(stream: TokenStream, at: nat, shape: Shape, level: Level)
    requires
        written(stream, at, shape),
        shape.fits(level),
        quiet(stream, at + shape.lexemes().len(), level),
    ensures
        parse_binary(stream, at, level) == read(shape.tree(), shape.lexemes().len()),
    decreases shape, level.depth(), 2nat,
{
    lemma_reads_chain(stream, at, shape, level);
}

/// Having read a shape at `level`, the grammar stands in the loop of that
/// level with the tree of the shape in hand.
pub proof fn lemma_reads_chain(stream: TokenStream, at: nat, shape: Shape, level: Level)
    requires
        written(stream, at, shape),
        shape.fits(level),
        quiet_below(stream, at + shape.lexemes().len(), level),
    ensures
        parse_binary(stream, at, level) == shifted(
            parse_tail(stream, at + shape.lexemes().len(), level, shape.tree()),
            shape.lexemes().len(),
        ),
    decreases shape, level.depth(), 1nat,
{
    let chained = match shape {
        Shape::Infix { op, .. } => level_of(op) == level,
        _ => false,
    };
    if chained {
        let l = *shape->Infix_left;
        let r = *shape->Infix_right;
        let op = shape->Infix_op;
        let nl = l.lexemes().len();
        let sign = seq![Lexeme::symbol(kind_of(op))];
        lemma_spells_split(stream, at, l.lexemes() + sign, r.lexemes());
        // the left operand, with the operator behind it
        lemma_reads_chain(stream, at, l, level);
        // the operator and the right operand
        lemma_reads_operand(stream, at + nl + 1, r, level);
    } else {
        lemma_reads_operand(stream, at, shape, level);
    }
}

/// Where the token behind a shape continues no level tighter than `level`,
/// the grammar reads the shape as an operand of `level`.
pub proof fn lemma_reads_operand(stream: TokenStream, at: nat, shape: Shape, level: Level)
    requires
        written(stream, at, shape),
        shape.fits_operand(level),
        quiet_below(stream, at + shape.lexemes().len(), level),
    ensures
        parse_operand(stream, at, level) == read(shape.tree(), shape.lexemes().len()),
    decreases shape, level.depth(), 0nat,
{
    match level {
        Level::Or => {
            lemma_reads_binary(stream, at, shape, Level::And);
        },
        Level::And => {
            lemma_reads_not(stream, at, shape);
        },
        Level::Comparison => {
            lemma_reads_binary(stream, at, shape, Level::Sum);
        },
        Level::Sum => {
            lemma_reads_binary(stream, at, shape, Level::Product);
        },
        Level::Product => {
            lemma_reads_binary(stream, at, shape, Level::Power);
        },
        Level::Power => {
            lemma_reads_unary(stream, at, shape);
        },
    }
}

/// The grammar reads a shape that starts with `!`, or that can stand at the
/// level of comparisons, as a `not_expr`.
pub proof fn lemma_reads_not(stream: TokenStream, at: nat, shape: Shape)
    requires
        written(stream, at, shape),
        shape.fits(Level::And),
        !(shape is Infix) || shape.fits(Level::Comparison),
        quiet(stream, at + shape.lexemes().len(), Level::Comparison),
    ensures
        parse_not(stream, at) == read(shape.tree(), shape.lexemes().len()),
    decreases shape, 16nat, 0nat,
{
    lemma_first_lexeme(shape);
    assert(Lexeme::of(stream.tokens[at + 0int]) == shape.lexemes()[0]);
    match shape {
        Shape::Prefix { op: UnaryOpType::Not, operand } => {
            let sign = seq![Lexeme::symbol(TokenType::Not)];
            lemma_spells_split(stream, at, sign, operand.lexemes());
            lemma_reads_not(stream, at + 1, *operand);
        },
        _ => {
            lemma_reads_binary(stream, at, shape, Level::Comparison);
        },
    }
}

/// The grammar reads a primary, and a primary with `-` before it, as a
/// `unary_expr`.
pub proof fn lemma_reads_unary(stream: TokenStream, at: nat, shape: Shape)
    requires
        written(stream, at, shape),
        shape.fits_operand(Level::Power),
        quiet_below(stream, at + shape.lexemes().len(), Level::Power),
    ensures
        parse_unary(stream, at) == read(shape.tree(), shape.lexemes().len()),
    decreases shape, 6nat, 0nat,
{
    assert(Lexeme::of(stream.tokens[at + 0int]) == shape.lexemes()[0]);
    match shape {
        Shape::Prefix { op: UnaryOpType::Neg, operand } => {
            let sign = seq![Lexeme::symbol(TokenType::Minus)];
            lemma_spells_split(stream, at, sign, operand.lexemes());
            lemma_reads_primary(stream, at + 1, *operand);
        },
        _ => {
            lemma_reads_primary(stream, at, shape);
        },
    }
}

/// The grammar reads a number, a boolean, a name, a call and an expression
/// in parentheses as a primary.
pub proof fn lemma_reads_primary(stream: TokenStream, at: nat, shape: Shape)
    requires
        written(stream, at, shape),
        shape.is_primary(),
        quiet_below(stream, at + shape.lexemes().len(), Level::Power),
    ensures
        parse_primary(stream, at) == read(shape.tree(), shape.lexemes().len()),
    decreases shape, 5nat, 0nat,
{
    assert(Lexeme::of(stream.tokens[at + 0int]) == shape.lexemes()[0]);
    match shape {
        Shape::Group(inner) => {
            let open = seq![Lexeme::symbol(TokenType::OpenParen)];
            let close = seq![Lexeme::symbol(TokenType::CloseParen)];
            let n = inner.lexemes().len();
            lemma_spells_split(stream, at, open, inner.lexemes());
            lemma_operator_level(BinaryOpType::Or);
            lemma_reads_binary(stream, at + 1, *inner, Level::Or);
        },
        Shape::Call { name, args } => {
            let head = seq![
                Lexeme { kind: TokenType::Identifier, value: TokenValueView::String(name) },
                Lexeme::symbol(TokenType::OpenParen),
            ];
            let close = seq![Lexeme::symbol(TokenType::CloseParen)];
            let list = Shape::lexemes_from(args, 0);
            let n = list.len();
            lemma_spells_split(stream, at, head, list);
            assert(Lexeme::of(stream.tokens[at + 1int]) == head[1]);
            if args.len() > 0 {
                lemma_first_lexeme(args[0]);
                lemma_reads_arguments(stream, at + 2, args, 0, Seq::empty());
            }
            assert(Seq::<NodeView>::empty() + trees_from(args, 0) =~= shape.tree()->Function_args);
        },
        _ => {},
    }
}

/// The grammar reads the arguments of a call, from index `from` on, up to
/// the parenthesis that closes the call.
pub proof fn lemma_reads_arguments(
    stream: TokenStream,
    at: nat,
    args: Seq<Shape>,
    from: nat,
    read: Seq<NodeView>,
)
    requires
        from < args.len(),
        forall|i: int| 0 <= i < args.len() ==> (#[trigger] args[i]).well_formed(),
        spells(stream, at, Shape::lexemes_from(args, from)),
        at + Shape::lexemes_from(args, from).len() < stream.tokens.len(),
        token_at(stream, at + Shape::lexemes_from(args, from).len()).token_type
            == TokenType::CloseParen,
    ensures
        parse_arguments(stream, at, read) == read_all(
            read + trees_from(args, from),
            Shape::lexemes_from(args, from).len(),
        ),
    decreases args, args.len() - from, 0nat,
{
    let first = args[from as int];
    let n = first.lexemes().len();
    if from + 1 == args.len() {
        lemma_reads_binary(stream, at, first, Level::Or);
        assert(read.push(first.tree()) =~= read + trees_from(args, from));
    } else {
        let comma = seq![Lexeme::symbol(TokenType::Comma)];
        let rest = Shape::lexemes_from(args, from + 1);
        lemma_spells_split(stream, at, first.lexemes() + comma, rest);
        lemma_reads_binary(stream, at, first, Level::Or);
        lemma_reads_arguments(stream, at + n + 1, args, from + 1, read.push(first.tree()));
        assert(read.push(first.tree()) + trees_from(args, from + 1) =~= read + trees_from(
            args,
            from,
        ));
    }
}

/// The grammar reads `=` and a well-formed shape, with the end token behind
/// them, as the formula of the tree of the shape.
pub proof fn lemma_reads_formula(stream: TokenStream, shape: Shape)
    requires
        shape.well_formed(),
        spells(
            stream,
            0,
            seq![Lexeme::symbol(TokenType::Assign)] + shape.lexemes() + seq![
                Lexeme::symbol(TokenType::EOF),
            ],
        ),
    ensures
        parse_formula(stream, 0) == read(shape.tree(), 1 + shape.lexemes().len()),
{
    let sign = seq![Lexeme::symbol(TokenType::Assign)];
    let end = seq![Lexeme::symbol(TokenType::EOF)];
    lemma_spells_split(stream, 0, sign + shape.lexemes(), end);
    lemma_spells_split(stream, 0, sign, shape.lexemes());
    assert(Lexeme::of(stream.tokens[0 + 0int]) == sign[0]);
    lemma_reads_binary(stream, 1, shape, Level::Or);
}

} // verus!

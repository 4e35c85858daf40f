//! Printing a tree and parsing the text again gives the tree back. This
//! holds of the trees that `reads_back` describes, and it is proved by way
//! of the printed syntax: a tree is printed as the text of a well-formed
//! shape, the tokeniser reads that text as the tokens of the shape, and the
//! grammar reads those tokens as the tree.
use vstd::prelude::*;
use vstd::string::*;
use super::super::tokeniser::lexical::token_stream;
use super::super::tokeniser::TokenType;
use super::super::Position;
use super::assembler::Assembler;
use super::error::ParseResult;
use super::grammar::{parse_formula, retrieval_error, Level};
use super::node::{wrapped, Node, NodeView, UnaryOpType};
use super::shape::{lemma_reads_formula, level_of, read, spells, Lexeme, Shape};
use super::writing::{
    is_numeral, is_word, lemma_first_char, lemma_reads_shape, lemma_reads_symbol, lexemes_of,
};

verus! {

/// `shape`, in parentheses if `yes`.
pub open spec fn grouped(shape: Shape, yes: bool) -> Shape {
    if yes {
        Shape::Group(Box::new(shape))
    } else {
        shape
    }
}

impl NodeView {
    /// How the tree is written: each operand in parentheses if and only if
    /// its operator binds strictly tighter than the operand.
    pub open spec fn shape(self) -> Shape
        decreases self,
    {
        match self {
            NodeView::BinaryOp { left, right: Some((op, right)) } => Shape::Infix {
                left: Box::new(grouped(left.shape(), op.rank() > left.rank())),
                op,
                right: Box::new(grouped(right.shape(), op.rank() > right.rank())),
            },
            NodeView::UnaryOp { op: Some(op), right } => Shape::Prefix {
                op,
                operand: Box::new(grouped(right.shape(), op.rank() > right.rank())),
            },
            NodeView::Number(digits) => Shape::Number(digits),
            NodeView::Boolean(b) => Shape::Boolean(b),
            NodeView::Identifier(name) => Shape::Name(name),
            NodeView::Function { name, args } => Shape::Call {
                name,
                args: Seq::new(
                    args.len(),
                    |i: int|
                        if 0 <= i < args.len() {
                            args[i].shape()
                        } else {
                            Shape::Boolean(false)
                        },
                ),
            },
            _ => Shape::Boolean(false),
        }
    }

    /// Whether the tree is read back from its formula text:
    ///
    /// - a number is one or more digits, a name is written like an
    ///   identifier, and there is neither a string nor a wrapper in the
    ///   tree;
    /// - the right operand of a binary operation is no binary operation of
    ///   the same precedence (the text has no parentheses there, and the
    ///   grammar folds to the left);
    /// - the operand of `-` is no operation with `-` (the text has no
    ///   parentheses there, and the grammar reads a primary behind `-`).
    pub open spec fn reads_back(self) -> bool
        decreases self,
    {
        match self {
            NodeView::BinaryOp { left, right: Some((op, right)) } => {
                &&& left.reads_back()
                &&& right.reads_back()
                &&& !(*right matches NodeView::BinaryOp { right: Some((other, _)), .. }
                    && other.rank() == op.rank())
            },
            NodeView::UnaryOp { op: Some(UnaryOpType::Neg), right } => right.reads_back() && !(
            *right matches NodeView::UnaryOp { op: Some(UnaryOpType::Neg), .. }),
            NodeView::UnaryOp { op: Some(UnaryOpType::Not), right } => right.reads_back(),
            NodeView::Number(digits) => is_numeral(digits),
            NodeView::Boolean(_) => true,
            NodeView::Identifier(name) => is_word(name),
            NodeView::Function { name, args } => is_word(name) && forall|i: int|
                0 <= i < args.len() ==> (#[trigger] args[i]).reads_back(),
            _ => false,
        }
    }
}

/// The text of a list of trees is the text of the list of their shapes.
proof fn lemma_list_text(args: Seq<NodeView>, shapes: Seq<Shape>, k: nat)
    requires
        shapes.len() == args.len(),
        forall|i: int| 0 <= i < args.len() ==> (#[trigger] shapes[i]).text() == args[i].expr_text(),
        1 <= k <= args.len(),
    ensures
        NodeView::expr_list(args, args.len()) == NodeView::expr_list(args, k) + if k < args.len() {
            ", "@ + Shape::text_from(shapes, k)
        } else {
            Seq::empty()
        },
    decreases args.len() - k,
{
    if k < args.len() {
        lemma_list_text(args, shapes, k + 1);
    }
}

/// The text of a call is the text of the call of the shapes of its
/// arguments.
proof fn lemma_call_text(name: Seq<char>, args: Seq<NodeView>, shapes: Seq<Shape>)
    requires
        shapes.len() == args.len(),
        forall|i: int| 0 <= i < args.len() ==> (#[trigger] shapes[i]).text() == args[i].expr_text(),
    ensures
        (Shape::Call { name, args: shapes }).text() == name + "("@ + NodeView::expr_list(
            args,
            args.len(),
        ) + ")"@,
{
    let call = Shape::Call { name, args: shapes };
    assert(call.text() == name + "("@ + Shape::text_from(shapes, 0) + ")"@);
    if args.len() > 0 {
        lemma_list_text(args, shapes, 1);
    }
}

impl NodeView {
    /// A tree that is read back is written as a well-formed, legible shape
    /// whose tree it is and whose text is its formula text.
    pub proof fn lemma_shape(self)
        requires
            self.reads_back(),
        ensures
            self.shape().tree() == self,
            self.shape().well_formed(),
            self.shape().legible(),
            self.shape().text() == self.expr_text(),
            match self.shape() {
                Shape::Infix { op, .. } => self matches NodeView::BinaryOp {
                    right: Some((o, _)),
                    ..
                } && o == op,
                Shape::Prefix { op, .. } => self matches NodeView::UnaryOp { op: Some(o), .. } && o
                    == op,
                _ => !(self is BinaryOp) && !(self is UnaryOp),
            },
        decreases self,
    {
        reveal_with_fuel(Shape::tree, 2);
        reveal_with_fuel(Shape::well_formed, 2);
        reveal_with_fuel(Shape::legible, 2);
        reveal_with_fuel(Shape::text, 2);
        match self {
            NodeView::BinaryOp { left, right: Some((op, right)) } => {
                left.lemma_shape();
                right.lemma_shape();
                let l = grouped(left.shape(), op.rank() > left.rank());
                let r = grouped(right.shape(), op.rank() > right.rank());
                assert(l.fits(level_of(op)));
                assert(r.fits_operand(level_of(op)));
                assert(l.text() == wrapped(left.expr_text(), op.rank() > left.rank()));
                assert(r.text() == wrapped(right.expr_text(), op.rank() > right.rank()));
                assert(self.shape().text() =~= self.expr_text());
            },
            NodeView::UnaryOp { op: Some(op), right } => {
                right.lemma_shape();
                let operand = grouped(right.shape(), op.rank() > right.rank());
                assert(operand.text() == wrapped(right.expr_text(), op.rank() > right.rank()));
                if op == UnaryOpType::Neg {
                    assert(operand.is_primary());
                } else {
                    assert(operand.fits(Level::Comparison) || (operand matches Shape::Prefix {
                        op: UnaryOpType::Not,
                        ..
                    }));
                }
            },
            NodeView::Function { name, args } => {
                let shapes = self.shape()->Call_args;
                assert forall|i: int| 0 <= i < args.len() implies (#[trigger] shapes[i]).tree()
                    == args[i] && shapes[i].well_formed() && shapes[i].legible()
                    && shapes[i].text() == args[i].expr_text() by {
                    args[i].lemma_shape();
                }
                assert(self.shape().tree()->Function_args =~= args);
                lemma_call_text(name, args, shapes);
            },
            _ => {},
        }
    }
}

/// The text of a formula: `=` and the formula text of the tree.
pub open spec fn formula_text(tree: NodeView) -> Seq<char> {
    "="@ + tree.expr_text()
}

/// Printing a tree as a formula and parsing the text gives the tree back,
/// and the parser stops at the end token. This holds of the trees that
/// `reads_back` describes.
pub proof fn lemma_round_trip(tree: NodeView)
    requires
        tree.reads_back(),
    ensures
        parse_formula(token_stream(formula_text(tree), Position { line: 1, column: 1 }), 0) == read(
            tree,
            1 + tree.shape().lexemes().len(),
        ),
        token_stream(formula_text(tree), Position { line: 1, column: 1 }).tokens.len() == 2
            + tree.shape().lexemes().len(),
{
    reveal_strlit("=");
    let start = Position { line: 1, column: 1 };
    let shape = tree.shape();
    let text = tree.expr_text();
    let empty = Seq::<char>::empty();
    tree.lemma_shape();
    lemma_first_char(shape);
    assert("="@ =~= seq!['=']);
    lemma_reads_symbol('=', text + empty, start);
    let after_sign = start.after(seq!['=']);
    lemma_reads_shape(shape, empty, after_sign);
    let stream = token_stream(formula_text(tree), start);
    let all = seq![Lexeme::symbol(TokenType::Assign)] + shape.lexemes() + seq![
        Lexeme::symbol(TokenType::EOF),
    ];
    assert(lexemes_of(stream.tokens) =~= all);
    assert(spells(stream, 0, all)) by {
        assert forall|i: int| 0 <= i < all.len() implies Lexeme::of(
            #[trigger] stream.tokens[0 + i],
        ) == all[i] by {}
    }
    lemma_reads_formula(stream, shape);
}

impl Node {
    /// Prints the tree as a formula and parses the text.
    ///
    /// The result is what the grammar makes of the tokens of that text. For
    /// a tree that `reads_back` describes it is the tree itself.
    pub fn reparse(&self) -> (r: ParseResult<Node>)
        ensures
            ({
                let stream = token_stream(formula_text(self@), Position { line: 1, column: 1 });
                if stream.tokens.len() == 0 {
                    r is Err && r->Err_0@ == retrieval_error(stream)
                } else {
                    match parse_formula(stream, 0) {
                        Ok((node, _)) => r is Ok && r->Ok_0@ == node,
                        Err(e) => r is Err && r->Err_0@ == e,
                    }
                }
            }),
            self@.reads_back() ==> r is Ok && r->Ok_0@ == self@,
    {
        proof {
            if self@.reads_back() {
                lemma_round_trip(self@);
            }
        }
        let mut text = String::from_str("=");
        let formula = self.make_expr();
        text.append(formula.as_str());
        let mut assembler = Assembler::from_string(text.as_str())?;
        proof {
            assembler.lemma_current();
        }
        assembler.parse()
    }
}

} // verus!

//! Compiled expressions: syntax trees without wrappers, with their calls
//! bound to the built-in functions.
use vstd::prelude::*;
use vstd::string::*;
use super::error::{ExpressionError, ExpressionErrorView, ExpressionResult};
use super::function::Function;
use super::parser::ast::node::{Node, NodeView};

verus! {

/// The binary operators of a compiled expression.
#[derive(Debug, Clone, Copy, PartialEq, Eq, Structural)]
pub enum BinaryOpType {
    Add,
    Sub,
    Mul,
    Div,
    Mod,
    Pow,
    Eq,
    Ne,
    Lt,
    Le,
    Gt,
    Ge,
    And,
    Or,
}

impl BinaryOpType {
    /// The compiled operator for the operator `op` of a syntax tree.
    pub open spec fn of(op: super::parser::ast::BinaryOpType) -> BinaryOpType {
        match op {
            super::parser::ast::BinaryOpType::Add => BinaryOpType::Add,
            super::parser::ast::BinaryOpType::Sub => BinaryOpType::Sub,
            super::parser::ast::BinaryOpType::Mul => BinaryOpType::Mul,
            super::parser::ast::BinaryOpType::Div => BinaryOpType::Div,
            super::parser::ast::BinaryOpType::Mod => BinaryOpType::Mod,
            super::parser::ast::BinaryOpType::Pow => BinaryOpType::Pow,
            super::parser::ast::BinaryOpType::Eq => BinaryOpType::Eq,
            super::parser::ast::BinaryOpType::Ne => BinaryOpType::Ne,
            super::parser::ast::BinaryOpType::Lt => BinaryOpType::Lt,
            super::parser::ast::BinaryOpType::Le => BinaryOpType::Le,
            super::parser::ast::BinaryOpType::Gt => BinaryOpType::Gt,
            super::parser::ast::BinaryOpType::Ge => BinaryOpType::Ge,
            super::parser::ast::BinaryOpType::And => BinaryOpType::And,
            super::parser::ast::BinaryOpType::Or => BinaryOpType::Or,
        }
    }

    /// The compiled operator for the operator `op` of a syntax tree.
    pub fn from_binary_op(op: super::parser::ast::BinaryOpType) -> (compiled: BinaryOpType)
        ensures
            compiled == BinaryOpType::of(op),
    {
        match op {
            super::parser::ast::BinaryOpType::Add => Self::Add,
            super::parser::ast::BinaryOpType::Sub => Self::Sub,
            super::parser::ast::BinaryOpType::Mul => Self::Mul,
            super::parser::ast::BinaryOpType::Div => Self::Div,
            super::parser::ast::BinaryOpType::Mod => Self::Mod,
            super::parser::ast::BinaryOpType::Pow => Self::Pow,
            super::parser::ast::BinaryOpType::Eq => Self::Eq,
            super::parser::ast::BinaryOpType::Ne => Self::Ne,
            super::parser::ast::BinaryOpType::Lt => Self::Lt,
            super::parser::ast::BinaryOpType::Le => Self::Le,
            super::parser::ast::BinaryOpType::Gt => Self::Gt,
            super::parser::ast::BinaryOpType::Ge => Self::Ge,
            super::parser::ast::BinaryOpType::And => Self::And,
            super::parser::ast::BinaryOpType::Or => Self::Or,
        }
    }
}

/// The unary operators of a compiled expression.
#[derive(Debug, Clone, Copy, PartialEq, Eq, Structural)]
pub enum UnaryOpType {
    Neg,
    Not,
}

impl UnaryOpType {
    /// The compiled operator for the operator `op` of a syntax tree.
    pub open spec fn of(op: super::parser::ast::UnaryOpType) -> UnaryOpType {
        match op {
            super::parser::ast::UnaryOpType::Neg => UnaryOpType::Neg,
            super::parser::ast::UnaryOpType::Not => UnaryOpType::Not,
        }
    }

    /// The compiled operator for the operator `op` of a syntax tree.
    pub fn from_unary_op(op: super::parser::ast::UnaryOpType) -> (compiled: UnaryOpType)
        ensures
            compiled == UnaryOpType::of(op),
    {
        match op {
            super::parser::ast::UnaryOpType::Neg => Self::Neg,
            super::parser::ast::UnaryOpType::Not => Self::Not,
        }
    }
}

/// A literal of a compiled expression. A number is the run of decimal
/// digits that the formula holds.
#[derive(Debug)]
pub enum LiteralValue {
    String(String),
    Number(String),
    Boolean(bool),
}

pub enum LiteralView {
    String(Seq<char>),
    Number(Seq<char>),
    Boolean(bool),
}

impl View for LiteralValue {
    type V = LiteralView;

    open spec fn view(&self) -> LiteralView {
        match self {
            LiteralValue::String(s) => LiteralView::String(s@),
            LiteralValue::Number(s) => LiteralView::Number(s@),
            LiteralValue::Boolean(b) => LiteralView::Boolean(*b),
        }
    }
}

impl LiteralValue {
    /// The literal that the literal node `node` holds; `None` for a node of
    /// another kind.
    pub open spec fn of(node: NodeView) -> Option<LiteralView> {
        match node {
            NodeView::Number(digits) => Some(LiteralView::Number(digits)),
            NodeView::Boolean(b) => Some(LiteralView::Boolean(b)),
            NodeView::String(s) => Some(LiteralView::String(s)),
            _ => None,
        }
    }

    /// The literal that a number, boolean or string node holds.
    pub fn from_literal(node: &Node) -> (value: LiteralValue)
        requires
            LiteralValue::of(node@) is Some,
        ensures
            Some(value@) == LiteralValue::of(node@),
    {
        match node {
            Node::Number(digits) => LiteralValue::Number(digits.clone()),
            Node::Boolean(b) => LiteralValue::Boolean(*b),
            Node::String(s) => LiteralValue::String(s.clone()),
            _ => {
                // no other node is a literal
                proof {
                    assert(false);
                }
                LiteralValue::Boolean(false)
            },
        }
    }
}

/// A node of a compiled expression: like a node of a syntax tree, but
/// without wrappers, with identifiers as references to variables, and with
/// each call bound to the function that it calls.
#[derive(Debug)]
pub enum ExprNode {
    BinaryOp { left: Box<ExprNode>, op: BinaryOpType, right: Box<ExprNode> },
    UnaryOp { op: UnaryOpType, right: Box<ExprNode> },
    Literal { value: LiteralValue },
    Variable { name: String },
    FunctionCall { target: Function, args: Vec<ExprNode> },
}

/// A compiled expression as a mathematical value.
pub enum ExprView {
    BinaryOp { left: Box<ExprView>, op: BinaryOpType, right: Box<ExprView> },
    UnaryOp { op: UnaryOpType, right: Box<ExprView> },
    Literal { value: LiteralView },
    Variable { name: Seq<char> },
    FunctionCall { target: Function, args: Seq<ExprView> },
}

impl ExprView {
    /// Whether the expression refers to no variable, so that its value is
    /// fixed.
    pub open spec fn is_static(self) -> bool
        decreases self,
    {
        match self {
            ExprView::BinaryOp { left, op, right } => left.is_static() && right.is_static(),
            ExprView::UnaryOp { op, right } => right.is_static(),
            ExprView::Literal { .. } => true,
            ExprView::Variable { .. } => false,
            ExprView::FunctionCall { target, args } => forall|i: int|
                0 <= i < args.len() ==> (#[trigger] args[i]).is_static(),
        }
    }
}

/// What compiling the syntax tree `node` comes to: the compiled expression,
/// or the error for the first call, in the order of the formula, of a
/// function that the engine does not have. A wrapper compiles to what its
/// operand compiles to.
pub open spec fn compiled(node: NodeView) -> Result<ExprView, ExpressionErrorView>
    decreases node, 0nat,
{
    match node {
        NodeView::BinaryOp { left, right: Some((op, right)) } => match compiled(*left) {
            Err(e) => Err(e),
            Ok(l) => match compiled(*right) {
                Err(e) => Err(e),
                Ok(r) => Ok(
                    ExprView::BinaryOp {
                        left: Box::new(l),
                        op: BinaryOpType::of(op),
                        right: Box::new(r),
                    },
                ),
            },
        },
        NodeView::BinaryOp { left, right: None } => compiled(*left),
        NodeView::UnaryOp { op: Some(op), right } => match compiled(*right) {
            Err(e) => Err(e),
            Ok(r) => Ok(ExprView::UnaryOp { op: UnaryOpType::of(op), right: Box::new(r) }),
        },
        NodeView::UnaryOp { op: None, right } => compiled(*right),
        NodeView::Number(digits) => Ok(ExprView::Literal { value: LiteralView::Number(digits) }),
        NodeView::String(s) => Ok(ExprView::Literal { value: LiteralView::String(s) }),
        NodeView::Boolean(b) => Ok(ExprView::Literal { value: LiteralView::Boolean(b) }),
        NodeView::Identifier(name) => Ok(ExprView::Variable { name }),
        NodeView::Function { name, args } => match Function::named(name) {
            None => Err(ExpressionErrorView::unknown_function(name)),
            Some(target) => match compiled_list(args, args.len()) {
                Err(e) => Err(e),
                Ok(list) => Ok(ExprView::FunctionCall { target, args: list }),
            },
        },
    }
}

/// What compiling the first `count` trees of `args` comes to.
pub open spec fn compiled_list(args: Seq<NodeView>, count: nat) -> Result<
    Seq<ExprView>,
    ExpressionErrorView,
>
    decreases args, count,
{
    if count == 0 || count > args.len() {
        Ok(Seq::empty())
    } else {
        match compiled_list(args, (count - 1) as nat) {
            Err(e) => Err(e),
            Ok(list) => match compiled(args[count - 1]) {
                Err(e) => Err(e),
                Ok(last) => Ok(list.push(last)),
            },
        }
    }
}

impl ExprNode {
    /// The expression as a mathematical value.
    pub open spec fn model(&self) -> ExprView
        decreases self,
    {
        match self {
            ExprNode::BinaryOp { left, op, right } => ExprView::BinaryOp {
                left: Box::new(left.model()),
                op: *op,
                right: Box::new(right.model()),
            },
            ExprNode::UnaryOp { op, right } => ExprView::UnaryOp {
                op: *op,
                right: Box::new(right.model()),
            },
            ExprNode::Literal { value } => ExprView::Literal { value: value@ },
            ExprNode::Variable { name } => ExprView::Variable { name: name@ },
            ExprNode::FunctionCall { target, args } => ExprView::FunctionCall {
                target: *target,
                args: Seq::new(
                    args@.len(),
                    |i: int|
                        if 0 <= i < args@.len() {
                            args@[i].model()
                        } else {
                            ExprView::Variable { name: Seq::empty() }
                        },
                ),
            },
        }
    }
}

impl View for ExprNode {
    type V = ExprView;

    open spec fn view(&self) -> ExprView {
        self.model()
    }
}

impl ExprNode {
    /// Whether the expression refers to no variable.
    pub fn is_static(&self) -> (b: bool)
        ensures
            b == self@.is_static(),
        decreases self,
    {
        match self {
            ExprNode::BinaryOp { left, right, .. } => left.is_static() && right.is_static(),
            ExprNode::UnaryOp { right, .. } => right.is_static(),
            ExprNode::Literal { .. } => true,
            ExprNode::Variable { .. } => false,
            ExprNode::FunctionCall { args, .. } => {
                let mut i: usize = 0;
                while i < args.len()
                    invariant
                        self is FunctionCall,
                        self->FunctionCall_args == args,
                        i <= args.len(),
                        forall|j: int|
                            0 <= j < i ==> (#[trigger] self@->FunctionCall_args[j]).is_static(),
                    decreases args.len() - i,
                {
                    if !args[i].is_static() {
                        assert(!self@->FunctionCall_args[i as int].is_static());
                        return false;
                    }
                    i += 1;
                }
                true
            },
        }
    }
}

/// An expression that is ready to be evaluated. It is built once from a
/// syntax tree and not changed afterwards.
#[derive(Debug)]
pub struct Expression {
    root: ExprNode,
}

impl View for Expression {
    type V = ExprView;

    closed spec fn view(&self) -> ExprView {
        self.root@
    }
}

impl Expression {
    /// Compiles a syntax tree, after bringing it into canonical form. Fails
    /// where the tree calls a function that the engine does not have.
    pub fn from_ast(ast: Node) -> (r: ExpressionResult<Expression>)
        ensures
            match compiled(ast@.reduced()) {
                Ok(expression) => r is Ok && r->Ok_0@ == expression,
                Err(e) => r is Err && r->Err_0@ == e,
            },
    {
        let ast = ast.reduce();
        match Self::from_ast_node(&*ast) {
            Ok(root) => Ok(Expression { root }),
            Err(e) => Err(e),
        }
    }

    /// Compiles one node and what is below it.
    pub fn from_ast_node(node: &Node) -> (r: ExpressionResult<ExprNode>)
        ensures
            match compiled(node@) {
                Ok(expression) => r is Ok && r->Ok_0@ == expression,
                Err(e) => r is Err && r->Err_0@ == e,
            },
        decreases node,
    {
        match node {
            Node::BinaryOp { left, right: Some((op, right)) } => {
                let l = Self::from_ast_node(left)?;
                let r = Self::from_ast_node(right)?;
                Ok(
                    ExprNode::BinaryOp {
                        left: Box::new(l),
                        op: BinaryOpType::from_binary_op(*op),
                        right: Box::new(r),
                    },
                )
            },
            Node::BinaryOp { left, right: None } => Self::from_ast_node(left),
            Node::UnaryOp { op: Some(op), right } => {
                let r = Self::from_ast_node(right)?;
                Ok(ExprNode::UnaryOp { op: UnaryOpType::from_unary_op(*op), right: Box::new(r) })
            },
            Node::UnaryOp { op: None, right } => Self::from_ast_node(right),
            Node::Number(_) | Node::Boolean(_) | Node::String(_) => Ok(
                ExprNode::Literal { value: LiteralValue::from_literal(node) },
            ),
            Node::Identifier(name) => Ok(ExprNode::Variable { name: name.0.clone() }),
            Node::Function { name, args } => {
                let target = match Function::from_str(name.0.as_str()) {
                    Some(target) => target,
                    None => {
                        return Err(ExpressionError::unknown_function(name.0.as_str()));
                    },
                };
                let ghost list = node@->Function_args;
                let mut compiled_args: Vec<ExprNode> = Vec::new();
                let mut i: usize = 0;
                while i < args.len()
                    invariant
                        node is Function,
                        node->Function_args == args,
                        node->Function_name == name,
                        Function::named(name.0@) == Some(target),
                        list == node@->Function_args,
                        list.len() == args@.len(),
                        i <= args.len(),
                        compiled_list(list, i as nat) is Ok,
                        compiled_list(list, i as nat)->Ok_0 == Seq::new(
                            compiled_args@.len(),
                            |j: int| compiled_args@[j]@,
                        ),
                        compiled_args@.len() == i,
                    decreases args.len() - i,
                {
                    match Self::from_ast_node(&args[i]) {
                        Ok(arg) => {
                            compiled_args.push(arg);
                        },
                        Err(e) => {
                            proof {
                                lemma_compiled_list_fails(list, (i + 1) as nat, list.len());
                            }
                            return Err(e);
                        },
                    }
                    i += 1;
                }
                let call = ExprNode::FunctionCall { target, args: compiled_args };
                assert(call@->FunctionCall_args =~= compiled_list(list, list.len())->Ok_0);
                Ok(call)
            },
        }
    }

    /// The root of the compiled expression.
    pub fn root(&self) -> (root: &ExprNode)
        ensures
            root@ == self@,
    {
        &self.root
    }
}

/// Where compiling the first `count` trees fails, compiling more of them
/// fails with the same error.
pub proof fn lemma_compiled_list_fails(args: Seq<NodeView>, count: nat, more: nat)
    requires
        compiled_list(args, count) is Err,
        count <= more <= args.len(),
    ensures
        compiled_list(args, more) == compiled_list(args, count),
    decreases more,
{
    if more > count {
        lemma_compiled_list_fails(args, count, (more - 1) as nat);
    }
}

/// Wrappers leave no trace in what a tree compiles to: a tree compiles to
/// what its canonical form compiles to.
pub proof fn lemma_compiled_ignores_wrappers(node: NodeView)
    ensures
        compiled(node.reduced()) == compiled(node),
    decreases node, 0nat,
{
    match node {
        NodeView::BinaryOp { left, right: Some((op, right)) } => {
            lemma_compiled_ignores_wrappers(*left);
            lemma_compiled_ignores_wrappers(*right);
        },
        NodeView::BinaryOp { left, right: None } => {
            lemma_compiled_ignores_wrappers(*left);
        },
        NodeView::UnaryOp { op, right } => {
            lemma_compiled_ignores_wrappers(*right);
        },
        NodeView::Function { name, args } => {
            lemma_compiled_list_ignores_wrappers(args, args.len());
            assert(node.reduced()->Function_args =~= Seq::new(
                args.len(),
                |i: int| args[i].reduced(),
            ));
        },
        _ => {},
    }
}

/// The same, of the first `count` trees of a list.
proof fn lemma_compiled_list_ignores_wrappers(args: Seq<NodeView>, count: nat)
    requires
        count <= args.len(),
    ensures
        compiled_list(Seq::new(args.len(), |i: int| args[i].reduced()), count) == compiled_list(
            args,
            count,
        ),
    decreases args, count,
{
    if count > 0 {
        lemma_compiled_list_ignores_wrappers(args, (count - 1) as nat);
        lemma_compiled_ignores_wrappers(args[count - 1]);
    }
}

} // verus!

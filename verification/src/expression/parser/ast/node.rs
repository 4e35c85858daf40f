//! Syntax trees: their canonical form, their text with as few parentheses
//! as the precedences allow, and their dump.
use vstd::prelude::*;
use vstd::string::*;
use crate::text::{push_repeated, quoted, quoted_text, repeated};

verus! {

#[derive(Debug, Clone, Copy, PartialEq, Eq, Structural)]
pub enum BinaryOpType {
    Add,
    Sub,
    Mul,
    Div,
    Mod,
    Pow,
    Eq,
    Ne,
    Lt,
    Le,
    Gt,
    Ge,
    And,
    Or,
}

impl BinaryOpType {
    /// How tightly the operator binds: the higher, the tighter.
    pub open spec fn rank(self) -> u8 {
        match self {
            BinaryOpType::Or => 1,
            BinaryOpType::And => 2,
            BinaryOpType::Eq
            | BinaryOpType::Ne
            | BinaryOpType::Lt
            | BinaryOpType::Le
            | BinaryOpType::Gt
            | BinaryOpType::Ge => 4,
            BinaryOpType::Add | BinaryOpType::Sub => 5,
            BinaryOpType::Mul | BinaryOpType::Div | BinaryOpType::Mod => 6,
            BinaryOpType::Pow => 7,
        }
    }

    /// The operator as it is written in a formula.
    pub open spec fn symbol_text(self) -> Seq<char> {
        match self {
            BinaryOpType::Add => "+"@,
            BinaryOpType::Sub => "-"@,
            BinaryOpType::Mul => "*"@,
            BinaryOpType::Div => "/"@,
            BinaryOpType::Mod => "%"@,
            BinaryOpType::Pow => "^"@,
            BinaryOpType::Eq => "=="@,
            BinaryOpType::Ne => "!="@,
            BinaryOpType::Lt => "<"@,
            BinaryOpType::Le => "<="@,
            BinaryOpType::Gt => ">"@,
            BinaryOpType::Ge => ">="@,
            BinaryOpType::And => "&"@,
            BinaryOpType::Or => "|"@,
        }
    }

    /// The name of the operator, as it stands in a dump.
    pub open spec fn name_text(self) -> Seq<char> {
        match self {
            BinaryOpType::Add => "Add"@,
            BinaryOpType::Sub => "Sub"@,
            BinaryOpType::Mul => "Mul"@,
            BinaryOpType::Div => "Div"@,
            BinaryOpType::Mod => "Mod"@,
            BinaryOpType::Pow => "Pow"@,
            BinaryOpType::Eq => "Eq"@,
            BinaryOpType::Ne => "Ne"@,
            BinaryOpType::Lt => "Lt"@,
            BinaryOpType::Le => "Le"@,
            BinaryOpType::Gt => "Gt"@,
            BinaryOpType::Ge => "Ge"@,
            BinaryOpType::And => "And"@,
            BinaryOpType::Or => "Or"@,
        }
    }

    /// How tightly the operator binds: the higher, the tighter.
    pub fn precedence(&self) -> (p: u8)
        ensures
            p == self.rank(),
    {
        match self {
            BinaryOpType::Or => 1,
            BinaryOpType::And => 2,
            BinaryOpType::Eq
            | BinaryOpType::Ne
            | BinaryOpType::Lt
            | BinaryOpType::Le
            | BinaryOpType::Gt
            | BinaryOpType::Ge => 4,
            BinaryOpType::Add | BinaryOpType::Sub => 5,
            BinaryOpType::Mul | BinaryOpType::Div | BinaryOpType::Mod => 6,
            BinaryOpType::Pow => 7,
        }
    }

    /// The operator as it is written in a formula.
    pub fn symbol(&self) -> (s: &'static str)
        ensures
            s@ == self.symbol_text(),
    {
        match self {
            BinaryOpType::Add => "+",
            BinaryOpType::Sub => "-",
            BinaryOpType::Mul => "*",
            BinaryOpType::Div => "/",
            BinaryOpType::Mod => "%",
            BinaryOpType::Pow => "^",
            BinaryOpType::Eq => "==",
            BinaryOpType::Ne => "!=",
            BinaryOpType::Lt => "<",
            BinaryOpType::Le => "<=",
            BinaryOpType::Gt => ">",
            BinaryOpType::Ge => ">=",
            BinaryOpType::And => "&",
            BinaryOpType::Or => "|",
        }
    }

    /// The operator as it is written in a formula.
    pub fn to_string(&self) -> (s: String)
        ensures
            s@ == self.symbol_text(),
    {
        String::from_str(self.symbol())
    }

    /// The name of the operator, as it stands in a dump.
    pub fn name(&self) -> (s: &'static str)
        ensures
            s@ == self.name_text(),
    {
        match self {
            BinaryOpType::Add => "Add",
            BinaryOpType::Sub => "Sub",
            BinaryOpType::Mul => "Mul",
            BinaryOpType::Div => "Div",
            BinaryOpType::Mod => "Mod",
            BinaryOpType::Pow => "Pow",
            BinaryOpType::Eq => "Eq",
            BinaryOpType::Ne => "Ne",
            BinaryOpType::Lt => "Lt",
            BinaryOpType::Le => "Le",
            BinaryOpType::Gt => "Gt",
            BinaryOpType::Ge => "Ge",
            BinaryOpType::And => "And",
            BinaryOpType::Or => "Or",
        }
    }
}

#[derive(Debug, Clone, Copy, PartialEq, Eq, Structural)]
pub enum UnaryOpType {
    Neg,
    Not,
}

impl UnaryOpType {
    /// How tightly the operator binds: the higher, the tighter.
    pub open spec fn rank(self) -> u8 {
        match self {
            UnaryOpType::Neg => 8,
            UnaryOpType::Not => 3,
        }
    }

    /// The operator as it is written in a formula.
    pub open spec fn symbol_text(self) -> Seq<char> {
        match self {
            UnaryOpType::Neg => "-"@,
            UnaryOpType::Not => "!"@,
        }
    }

    /// The name of the operator, as it stands in a dump.
    pub open spec fn name_text(self) -> Seq<char> {
        match self {
            UnaryOpType::Neg => "Neg"@,
            UnaryOpType::Not => "Not"@,
        }
    }

    /// How tightly the operator binds: the higher, the tighter.
    pub fn precedence(&self) -> (p: u8)
        ensures
            p == self.rank(),
    {
        match self {
            UnaryOpType::Neg => 8,
            UnaryOpType::Not => 3,
        }
    }

    /// The operator as it is written in a formula.
    pub fn symbol(&self) -> (s: &'static str)
        ensures
            s@ == self.symbol_text(),
    {
        match self {
            UnaryOpType::Neg => "-",
            UnaryOpType::Not => "!",
        }
    }

    /// The operator as it is written in a formula.
    pub fn to_string(&self) -> (s: String)
        ensures
            s@ == self.symbol_text(),
    {
        String::from_str(self.symbol())
    }

    /// The name of the operator, as it stands in a dump.
    pub fn name(&self) -> (s: &'static str)
        ensures
            s@ == self.name_text(),
    {
        match self {
            UnaryOpType::Neg => "Neg",
            UnaryOpType::Not => "Not",
        }
    }
}

#[derive(Debug)]
pub struct Identifier(pub String);

impl Clone for Identifier {
    fn clone(&self) -> (c: Identifier)
        ensures
            c.0@ == self.0@,
    {
        Identifier(self.0.clone())
    }
}

/// A syntax tree. The parser may leave a `BinaryOp` or a `UnaryOp` without
/// an operator, as a mere wrapper of its operand; `reduce` removes such
/// wrappers. A number is the run of decimal digits that was read.
#[derive(Debug)]
#[allow(inconsistent_fields)]
pub enum Node {
    BinaryOp { left: Box<Node>, right: Option<(BinaryOpType, Box<Node>)> },
    UnaryOp { op: Option<UnaryOpType>, right: Box<Node> },
    Number(String),
    String(String),
    Boolean(bool),
    Identifier(Identifier),
    Function { name: Identifier, args: Vec<Node> },
}

/// A syntax tree as a mathematical value.
#[allow(inconsistent_fields)]
pub enum NodeView {
    BinaryOp { left: Box<NodeView>, right: Option<(BinaryOpType, Box<NodeView>)> },
    UnaryOp { op: Option<UnaryOpType>, right: Box<NodeView> },
    Number(Seq<char>),
    String(Seq<char>),
    Boolean(bool),
    Identifier(Seq<char>),
    Function { name: Seq<char>, args: Seq<NodeView> },
}

/// `text` as it stands, or in parentheses.
pub open spec fn wrapped(text: Seq<char>, in_parentheses: bool) -> Seq<char> {
    if in_parentheses {
        "("@ + text + ")"@
    } else {
        text
    }
}

/// One line of a dump: `content` behind `indent` spaces, and a line feed.
pub open spec fn dump_line(indent: nat, content: Seq<char>) -> Seq<char> {
    repeated(' ', indent) + content + "\n"@
}

/// How an identifier stands in a dump.
pub open spec fn identifier_dump(name: Seq<char>) -> Seq<char> {
    "Identifier("@ + quoted_text(name) + ")"@
}

impl NodeView {
    /// The precedence of the node: that of its operator, and the highest
    /// there is for a node without one. A binary wrapper has the precedence
    /// of its operand.
    pub open spec fn rank(self) -> u8
        decreases self,
    {
        match self {
            NodeView::BinaryOp { left, right: Some((op, _)) } => op.rank(),
            NodeView::BinaryOp { left, right: None } => left.rank(),
            NodeView::UnaryOp { op: Some(op), right } => op.rank(),
            _ => u8::MAX,
        }
    }

    /// Whether the tree is free of wrappers: every `BinaryOp` and every
    /// `UnaryOp` in it has its operator.
    pub open spec fn is_canonical(self) -> bool
        decreases self,
    {
        match self {
            NodeView::BinaryOp { left, right: Some((_, right)) } => left.is_canonical()
                && right.is_canonical(),
            NodeView::BinaryOp { left, right: None } => false,
            NodeView::UnaryOp { op: Some(_), right } => right.is_canonical(),
            NodeView::UnaryOp { op: None, right } => false,
            NodeView::Function { name, args } => forall|i: int|
                0 <= i < args.len() ==> (#[trigger] args[i]).is_canonical(),
            _ => true,
        }
    }

    /// The tree without its wrappers: each `BinaryOp` and `UnaryOp` that has
    /// no operator is replaced by its operand, at every depth.
    pub open spec fn reduced(self) -> NodeView
        decreases self,
    {
        match self {
            NodeView::BinaryOp { left, right: Some((op, right)) } => NodeView::BinaryOp {
                left: Box::new(left.reduced()),
                right: Some((op, Box::new(right.reduced()))),
            },
            NodeView::BinaryOp { left, right: None } => left.reduced(),
            NodeView::UnaryOp { op: Some(op), right } => NodeView::UnaryOp {
                op: Some(op),
                right: Box::new(right.reduced()),
            },
            NodeView::UnaryOp { op: None, right } => right.reduced(),
            NodeView::Function { name, args } => NodeView::Function {
                name,
                args: Seq::new(
                    args.len(),
                    |i: int|
                        if 0 <= i < args.len() {
                            args[i].reduced()
                        } else {
                            self
                        },
                ),
            },
            _ => self,
        }
    }

    /// The tree as plain text, every binary operation in parentheses.
    pub open spec fn shown(self) -> Seq<char>
        decreases self, 0nat,
    {
        match self {
            NodeView::BinaryOp { left, right: Some((op, right)) } => "("@ + left.shown() + " "@
                + op.symbol_text() + " "@ + right.shown() + ")"@,
            NodeView::BinaryOp { left, right: None } => left.shown(),
            NodeView::UnaryOp { op: Some(op), right } => op.symbol_text() + right.shown(),
            NodeView::UnaryOp { op: None, right } => right.shown(),
            NodeView::Number(digits) => digits,
            NodeView::String(s) => s,
            NodeView::Boolean(b) => if b {
                "true"@
            } else {
                "false"@
            },
            NodeView::Identifier(name) => name,
            NodeView::Function { name, args } => name + "("@ + NodeView::shown_list(
                args,
                args.len(),
            ) + ")"@,
        }
    }

    /// The first `count` trees of `args` as plain text, with `, ` between
    /// each two of them.
    pub open spec fn shown_list(args: Seq<NodeView>, count: nat) -> Seq<char>
        decreases args, count,
    {
        if count == 0 || count > args.len() {
            Seq::empty()
        } else if count == 1 {
            args[0].shown()
        } else {
            NodeView::shown_list(args, (count - 1) as nat) + ", "@ + args[count - 1].shown()
        }
    }

    /// The tree as formula text with as few parentheses as the precedences
    /// allow: an operand of a binary or of a unary operation stands in
    /// parentheses if and only if the operation binds strictly tighter than
    /// the operand. A literal and an identifier are written as they are, and
    /// so is a wrapper, as `shown` writes it.
    pub open spec fn expr_text(self) -> Seq<char>
        decreases self, 0nat,
    {
        match self {
            NodeView::BinaryOp { left, right: Some((op, right)) } => wrapped(
                left.expr_text(),
                op.rank() > left.rank(),
            ) + " "@ + op.symbol_text() + " "@ + wrapped(
                right.expr_text(),
                op.rank() > right.rank(),
            ),
            NodeView::UnaryOp { op: Some(op), right } => op.symbol_text() + wrapped(
                right.expr_text(),
                op.rank() > right.rank(),
            ),
            NodeView::Function { name, args } => name + "("@ + NodeView::expr_list(
                args,
                args.len(),
            ) + ")"@,
            _ => self.shown(),
        }
    }

    /// The first `count` trees of `args` as formula text, with `, ` between
    /// each two of them.
    pub open spec fn expr_list(args: Seq<NodeView>, count: nat) -> Seq<char>
        decreases args, count,
    {
        if count == 0 || count > args.len() {
            Seq::empty()
        } else if count == 1 {
            args[0].expr_text()
        } else {
            NodeView::expr_list(args, (count - 1) as nat) + ", "@ + args[count - 1].expr_text()
        }
    }

    /// The tree as an indented dump, one line per node and one more where a
    /// node with children ends; children stand two columns further in.
    pub open spec fn dump(self, indent: nat) -> Seq<char>
        decreases self, 0nat,
    {
        match self {
            NodeView::BinaryOp { left, right: Some((op, right)) } => dump_line(
                indent,
                "<BinaryOp BinOpType ="@ + op.name_text() + ">"@,
            ) + left.dump(indent + 2) + right.dump(indent + 2) + dump_line(indent, "</BinaryOp>"@),
            NodeView::BinaryOp { left, right: None } => dump_line(indent, "<BinaryOp>"@)
                + left.dump(indent + 2) + dump_line(indent, "</BinaryOp>"@),
            NodeView::UnaryOp { op: Some(op), right } => dump_line(
                indent,
                "<UnaryOp UnaryOpType ="@ + op.name_text() + ">"@,
            ) + right.dump(indent + 2) + dump_line(indent, "</UnaryOp>"@),
            NodeView::UnaryOp { op: None, right } => dump_line(indent, "<UnaryOp>"@) + right.dump(
                indent + 2,
            ) + dump_line(indent, "</UnaryOp>"@),
            NodeView::Number(digits) => dump_line(indent, "<Number ="@ + digits + ">"@),
            NodeView::String(s) => dump_line(indent, "<String ="@ + quoted_text(s) + ">"@),
            NodeView::Boolean(b) => dump_line(
                indent,
                "<Boolean ="@ + (if b {
                    "true"@
                } else {
                    "false"@
                }) + ">"@,
            ),
            NodeView::Identifier(name) => dump_line(
                indent,
                "<Identifier ="@ + identifier_dump(name) + ">"@,
            ),
            NodeView::Function { name, args } => dump_line(
                indent,
                "<Function FunctionName ="@ + identifier_dump(name) + ">"@,
            ) + NodeView::dump_list(args, args.len(), indent + 2) + dump_line(
                indent,
                "</Function>"@,
            ),
        }
    }

    /// The dumps of the first `count` trees of `args`, one behind the other.
    pub open spec fn dump_list(args: Seq<NodeView>, count: nat, indent: nat) -> Seq<char>
        decreases args, count,
    {
        if count == 0 || count > args.len() {
            Seq::empty()
        } else {
            NodeView::dump_list(args, (count - 1) as nat, indent) + args[count - 1].dump(indent)
        }
    }
}

impl NodeView {
    /// The canonical form of a tree is free of wrappers.
    pub proof fn lemma_reduced_is_canonical(self)
        ensures
            self.reduced().is_canonical(),
        decreases self,
    {
        match self {
            NodeView::BinaryOp { left, right: Some((op, right)) } => {
                left.lemma_reduced_is_canonical();
                right.lemma_reduced_is_canonical();
            },
            NodeView::BinaryOp { left, right: None } => {
                left.lemma_reduced_is_canonical();
            },
            NodeView::UnaryOp { op, right } => {
                right.lemma_reduced_is_canonical();
            },
            NodeView::Function { name, args } => {
                let reduced = self.reduced()->Function_args;
                assert forall|i: int| 0 <= i < reduced.len() implies (
                #[trigger] reduced[i]).is_canonical() by {
                    args[i].lemma_reduced_is_canonical();
                }
            },
            _ => {},
        }
    }

    /// A tree that is free of wrappers is its own canonical form.
    pub proof fn lemma_canonical_is_fixed(self)
        requires
            self.is_canonical(),
        ensures
            self.reduced() == self,
        decreases self,
    {
        match self {
            NodeView::BinaryOp { left, right: Some((op, right)) } => {
                left.lemma_canonical_is_fixed();
                right.lemma_canonical_is_fixed();
            },
            NodeView::UnaryOp { op: Some(op), right } => {
                right.lemma_canonical_is_fixed();
            },
            NodeView::Function { name, args } => {
                let reduced = self.reduced()->Function_args;
                assert forall|i: int| 0 <= i < args.len() implies reduced[i] == args[i] by {
                    args[i].lemma_canonical_is_fixed();
                }
                assert(reduced =~= args);
            },
            _ => {},
        }
    }

    /// Bringing a tree into canonical form twice gives what doing it once
    /// gives.
    pub proof fn lemma_reduced_idempotent(self)
        ensures
            self.reduced().reduced() == self.reduced(),
    {
        self.lemma_reduced_is_canonical();
        self.reduced().lemma_canonical_is_fixed();
    }
}

impl Node {
    /// The tree as a mathematical value.
    pub open spec fn model(&self) -> NodeView
        decreases self,
    {
        match self {
            Node::BinaryOp { left, right } => NodeView::BinaryOp {
                left: Box::new(left.model()),
                right: match right {
                    Some((op, r)) => Some((*op, Box::new(r.model()))),
                    None => None,
                },
            },
            Node::UnaryOp { op, right } => NodeView::UnaryOp {
                op: *op,
                right: Box::new(right.model()),
            },
            Node::Number(digits) => NodeView::Number(digits@),
            Node::String(s) => NodeView::String(s@),
            Node::Boolean(b) => NodeView::Boolean(*b),
            Node::Identifier(name) => NodeView::Identifier(name.0@),
            Node::Function { name, args } => NodeView::Function {
                name: name.0@,
                args: Seq::new(
                    args@.len(),
                    |i: int|
                        if 0 <= i < args@.len() {
                            args@[i].model()
                        } else {
                            NodeView::Boolean(false)
                        },
                ),
            },
        }
    }
}

impl View for Node {
    type V = NodeView;

    open spec fn view(&self) -> NodeView {
        self.model()
    }
}

/// The trees `nodes`, as mathematical values.
pub open spec fn views(nodes: Seq<Node>) -> Seq<NodeView> {
    Seq::new(nodes.len(), |i: int| nodes[i]@)
}

impl Clone for Node {
    fn clone(&self) -> (copy: Node)
        ensures
            copy@ == self@,
    {
        self.duplicate()
    }
}

impl Node {
    /// A copy of the tree.
    pub fn duplicate(&self) -> (copy: Node)
        ensures
            copy@ == self@,
        decreases self,
    {
        match self {
            Node::BinaryOp { left, right } => {
                let l = left.duplicate();
                match right {
                    Some((op, r)) => {
                        let r = r.duplicate();
                        Node::BinaryOp { left: Box::new(l), right: Some((*op, Box::new(r))) }
                    },
                    None => Node::BinaryOp { left: Box::new(l), right: None },
                }
            },
            Node::UnaryOp { op, right } => {
                let r = right.duplicate();
                Node::UnaryOp { op: *op, right: Box::new(r) }
            },
            Node::Number(digits) => Node::Number(digits.clone()),
            Node::String(s) => Node::String(s.clone()),
            Node::Boolean(b) => Node::Boolean(*b),
            Node::Identifier(name) => Node::Identifier(name.clone()),
            Node::Function { name, args } => {
                let mut copies: Vec<Node> = Vec::new();
                let mut i: usize = 0;
                while i < args.len()
                    invariant
                        self is Function,
                        self->Function_args == args,
                        i <= args.len(),
                        copies@.len() == i,
                        forall|j: int| 0 <= j < i ==> copies@[j]@ == args@[j]@,
                    decreases args.len() - i,
                {
                    let copy = args[i].duplicate();
                    copies.push(copy);
                    i += 1;
                }
                let copy = Node::Function { name: name.clone(), args: copies };
                assert(copy@->Function_args =~= self@->Function_args);
                copy
            },
        }
    }

    /// The precedence of the node: that of its operator, and the highest
    /// there is for a node without one.
    pub fn precedence(&self) -> (p: u8)
        ensures
            p == self@.rank(),
        decreases self,
    {
        match self {
            Node::BinaryOp { left: _, right: Some((op, _)) } => op.precedence(),
            Node::BinaryOp { left, right: None } => left.precedence(),
            Node::UnaryOp { op: Some(op), right: _ } => op.precedence(),
            _ => u8::MAX,
        }
    }

    /// The tree in canonical form: without the wrappers that the parser may
    /// have left.
    pub fn reduce(&self) -> (r: Box<Node>)
        ensures
            (*r)@ == self@.reduced(),
            (*r)@.is_canonical(),
        decreases self,
    {
        proof {
            self@.lemma_reduced_is_canonical();
        }
        match self {
            Node::BinaryOp { left, right } => match right {
                Some((op, right)) => {
                    let l = left.reduce();
                    let r = right.reduce();
                    Box::new(Node::BinaryOp { left: l, right: Some((*op, r)) })
                },
                None => left.reduce(),
            },
            Node::UnaryOp { op, right } => match op {
                Some(op) => {
                    let r = right.reduce();
                    Box::new(Node::UnaryOp { op: Some(*op), right: r })
                },
                None => right.reduce(),
            },
            Node::Function { name, args } => {
                let mut reduced: Vec<Node> = Vec::new();
                let mut i: usize = 0;
                while i < args.len()
                    invariant
                        self is Function,
                        self->Function_args == args,
                        i <= args.len(),
                        reduced@.len() == i,
                        forall|j: int| 0 <= j < i ==> reduced@[j]@ == args@[j]@.reduced(),
                    decreases args.len() - i,
                {
                    let r = args[i].reduce();
                    reduced.push(*r);
                    i += 1;
                }
                let r = Node::Function { name: name.clone(), args: reduced };
                assert(r@->Function_args =~= self@.reduced()->Function_args);
                Box::new(r)
            },
            _ => Box::new(self.duplicate()),
        }
    }

    /// The tree as plain text, every binary operation in parentheses.
    pub fn to_string(&self) -> (s: String)
        ensures
            s@ == self@.shown(),
        decreases self,
    {
        match self {
            Node::BinaryOp { left, right } => match right {
                Some((op, right)) => {
                    let mut s = String::from_str("(");
                    let l = left.to_string();
                    s.append(l.as_str());
                    s.append(" ");
                    s.append(op.symbol());
                    s.append(" ");
                    let r = right.to_string();
                    s.append(r.as_str());
                    s.append(")");
                    s
                },
                None => left.to_string(),
            },
            Node::UnaryOp { op, right } => match op {
                Some(op) => {
                    let mut s = String::from_str(op.symbol());
                    let r = right.to_string();
                    s.append(r.as_str());
                    s
                },
                None => right.to_string(),
            },
            Node::Number(digits) => digits.clone(),
            Node::String(s) => s.clone(),
            Node::Boolean(b) => if *b {
                String::from_str("true")
            } else {
                String::from_str("false")
            },
            Node::Identifier(name) => name.0.clone(),
            Node::Function { name, args } => {
                let mut s = name.0.clone();
                s.append("(");
                let ghost list = self@->Function_args;
                let mut i: usize = 0;
                while i < args.len()
                    invariant
                        self is Function,
                        self->Function_args == args,
                        self->Function_name == name,
                        list == self@->Function_args,
                        list.len() == args@.len(),
                        i <= args.len(),
                        s@ == name.0@ + "("@ + NodeView::shown_list(list, i as nat),
                    decreases args.len() - i,
                {
                    if i > 0 {
                        s.append(", ");
                    }
                    let t = args[i].to_string();
                    s.append(t.as_str());
                    i += 1;
                }
                s.append(")");
                s
            },
        }
    }

    /// The tree as formula text, with as few parentheses as the precedences
    /// allow.
    pub fn make_expr(&self) -> (s: String)
        ensures
            s@ == self@.expr_text(),
        decreases self,
    {
        match self {
            Node::BinaryOp { left, right: Some((op, right)) } => {
                let mut s = String::new();
                let l = left.make_expr();
                if op.precedence() > left.precedence() {
                    s.append("(");
                    s.append(l.as_str());
                    s.append(")");
                } else {
                    s.append(l.as_str());
                }
                s.append(" ");
                s.append(op.symbol());
                s.append(" ");
                let r = right.make_expr();
                if op.precedence() > right.precedence() {
                    s.append("(");
                    s.append(r.as_str());
                    s.append(")");
                } else {
                    s.append(r.as_str());
                }
                s
            },
            Node::UnaryOp { op: Some(op), right } => {
                let mut s = String::from_str(op.symbol());
                let r = right.make_expr();
                if op.precedence() > right.precedence() {
                    s.append("(");
                    s.append(r.as_str());
                    s.append(")");
                } else {
                    s.append(r.as_str());
                }
                assert(s@ =~= self@.expr_text());
                s
            },
            Node::Function { name, args } => {
                let mut s = name.0.clone();
                s.append("(");
                let ghost list = self@->Function_args;
                let mut i: usize = 0;
                while i < args.len()
                    invariant
                        self is Function,
                        self->Function_args == args,
                        self->Function_name == name,
                        list == self@->Function_args,
                        list.len() == args@.len(),
                        i <= args.len(),
                        s@ == name.0@ + "("@ + NodeView::expr_list(list, i as nat),
                    decreases args.len() - i,
                {
                    if i > 0 {
                        s.append(", ");
                    }
                    let t = args[i].make_expr();
                    s.append(t.as_str());
                    i += 1;
                }
                s.append(")");
                s
            },
            _ => self.to_string(),
        }
    }

    /// The tree as an indented dump, the root `indent` columns in. The
    /// caller prints it.
    pub fn pprint(&self, indent: usize) -> (s: String)
        ensures
            s@ == self@.dump(indent as nat),
    {
        let mut margin = String::new();
        push_repeated(&mut margin, ' ', indent);
        let mut s = String::new();
        self.dump_into(&mut s, margin.as_str());
        s
    }

    /// Appends the dump of the tree to `out`, each line behind `margin`.
    fn dump_into(&self, out: &mut String, margin: &str)
        requires
            margin@ == repeated(' ', margin@.len()),
        ensures
            final(out)@ == old(out)@ + self@.dump(margin@.len()),
        decreases self,
    {
        let mut inner = String::from_str(margin);
        inner.append("  ");
        proof {
            reveal_strlit("  ");
            assert(inner@ =~= repeated(' ', margin@.len() + 2));
        }
        match self {
            Node::BinaryOp { left, right } => {
                match right {
                    Some((op, right)) => {
                        let open = tag("<BinaryOp BinOpType =", op.name(), ">");
                        push_line(out, margin, open.as_str());
                        left.dump_into(out, inner.as_str());
                        right.dump_into(out, inner.as_str());
                    },
                    None => {
                        push_line(out, margin, "<BinaryOp>");
                        left.dump_into(out, inner.as_str());
                    },
                }
                push_line(out, margin, "</BinaryOp>");
            },
            Node::UnaryOp { op, right } => {
                match op {
                    Some(op) => {
                        let open = tag("<UnaryOp UnaryOpType =", op.name(), ">");
                        push_line(out, margin, open.as_str());
                    },
                    None => {
                        push_line(out, margin, "<UnaryOp>");
                    },
                }
                right.dump_into(out, inner.as_str());
                push_line(out, margin, "</UnaryOp>");
            },
            Node::Number(digits) => {
                let line = tag("<Number =", digits.as_str(), ">");
                push_line(out, margin, line.as_str());
            },
            Node::String(s) => {
                let q = quoted(s.as_str());
                let line = tag("<String =", q.as_str(), ">");
                push_line(out, margin, line.as_str());
            },
            Node::Boolean(b) => {
                let line = tag(
                    "<Boolean =",
                    if *b {
                        "true"
                    } else {
                        "false"
                    },
                    ">",
                );
                push_line(out, margin, line.as_str());
            },
            Node::Identifier(name) => {
                let q = quoted(name.0.as_str());
                let id = tag("Identifier(", q.as_str(), ")");
                let line = tag("<Identifier =", id.as_str(), ">");
                push_line(out, margin, line.as_str());
            },
            Node::Function { name, args } => {
                let q = quoted(name.0.as_str());
                let id = tag("Identifier(", q.as_str(), ")");
                let line = tag("<Function FunctionName =", id.as_str(), ">");
                push_line(out, margin, line.as_str());
                let ghost head = out@;
                let ghost list = self@->Function_args;
                let mut i: usize = 0;
                while i < args.len()
                    invariant
                        self is Function,
                        self->Function_args == args,
                        list == self@->Function_args,
                        list.len() == args@.len(),
                        i <= args.len(),
                        inner@ == repeated(' ', margin@.len() + 2),
                        inner@.len() == margin@.len() + 2,
                        out@ == head + NodeView::dump_list(
                            list,
                            i as nat,
                            (margin@.len() + 2) as nat,
                        ),
                    decreases args.len() - i,
                {
                    args[i].dump_into(out, inner.as_str());
                    i += 1;
                }
                push_line(out, margin, "</Function>");
            },
        }
    }
}

/// The three texts, one behind the other.
fn tag(open: &str, middle: &str, close: &str) -> (s: String)
    ensures
        s@ == open@ + middle@ + close@,
{
    let mut s = String::from_str(open);
    s.append(middle);
    s.append(close);
    s
}

/// Appends one line of a dump to `out`.
fn push_line(out: &mut String, margin: &str, content: &str)
    requires
        margin@ == repeated(' ', margin@.len()),
    ensures
        final(out)@ == old(out)@ + dump_line(margin@.len(), content@),
{
    out.append(margin);
    out.append(content);
    out.append("\n");
}

} // verus!

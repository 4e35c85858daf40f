//! The text of printed syntax, and the proof that the tokeniser reads the
//! text of a shape as the tokens of the shape.
use vstd::prelude::*;
use super::super::tokeniser::lexical::{
    paired_kind, peek, run_length, symbol_kind, token_stream, CharClass,
};
use super::super::tokeniser::{TokenType, TokenValueView, TokenView};
use super::super::Position;
use super::node::{BinaryOpType, UnaryOpType};
use super::shape::{kind_of, Lexeme, Shape};
use crate::text::{alphanumeric, is_digit, is_word_start, whitespace};

verus! {

/// The tokens `tokens` without their places.
pub open spec fn lexemes_of(tokens: Seq<TokenView>) -> Seq<Lexeme> {
    Seq::new(tokens.len(), |i: int| Lexeme::of(tokens[i]))
}

/// The tokens of the text `input`, without their places.
pub open spec fn spelling(input: Seq<char>, position: Position) -> Seq<Lexeme> {
    lexemes_of(token_stream(input, position).tokens)
}

/// A binary operator as it stands between its operands: between two
/// blanks.
pub open spec fn operator_text(op: BinaryOpType) -> Seq<char> {
    " "@ + op.symbol_text() + " "@
}

/// Whether `name` is written like an identifier: a letter or an underscore
/// and alphanumeric characters behind it, and neither `true` nor `false`.
pub open spec fn is_word(name: Seq<char>) -> bool {
    &&& name.len() >= 1
    &&& is_word_start(name[0])
    &&& forall|i: int| 1 <= i < name.len() ==> alphanumeric(#[trigger] name[i])
    &&& name != "true"@
    &&& name != "false"@
}

/// Whether `digits` is written like a number: one or more decimal digits.
pub open spec fn is_numeral(digits: Seq<char>) -> bool {
    &&& digits.len() >= 1
    &&& forall|i: int| 0 <= i < digits.len() ==> is_digit(#[trigger] digits[i])
}

/// Whether the text `rest` ends a number or a word that stands before it.
pub open spec fn ends_a_word(rest: Seq<char>) -> bool {
    rest.len() == 0 || (!is_digit(rest[0]) && !alphanumeric(rest[0]))
}

impl Shape {
    /// The shape as text: binary operators between blanks, a comma and a
    /// blank between arguments, nothing else added.
    pub open spec fn text(self) -> Seq<char>
        decreases self, 0nat,
    {
        match self {
            Shape::Number(digits) => digits,
            Shape::Boolean(b) => if b {
                "true"@
            } else {
                "false"@
            },
            Shape::Name(name) => name,
            Shape::Group(inner) => "("@ + inner.text() + ")"@,
            Shape::Call { name, args } => name + "("@ + Shape::text_from(args, 0) + ")"@,
            Shape::Prefix { op, operand } => op.symbol_text() + operand.text(),
            Shape::Infix { left, op, right } => left.text() + operator_text(op) + right.text(),
        }
    }

    /// The text of the arguments from index `from` on.
    pub open spec fn text_from(args: Seq<Shape>, from: nat) -> Seq<char>
        decreases args, args.len() - from,
    {
        if from >= args.len() {
            Seq::empty()
        } else if from + 1 == args.len() {
            args[from as int].text()
        } else {
            args[from as int].text() + ", "@ + Shape::text_from(args, from + 1)
        }
    }

    /// Whether every number in the shape is written like a number and
    /// every name like an identifier.
    pub open spec fn legible(self) -> bool
        decreases self,
    {
        match self {
            Shape::Number(digits) => is_numeral(digits),
            Shape::Boolean(_) => true,
            Shape::Name(name) => is_word(name),
            Shape::Group(inner) => inner.legible(),
            Shape::Call { name, args } => is_word(name) && forall|i: int|
                0 <= i < args.len() ==> (#[trigger] args[i]).legible(),
            Shape::Prefix { op, operand } => operand.legible(),
            Shape::Infix { left, op, right } => left.legible() && right.legible(),
        }
    }
}

/// Whether a token can start with `c`: a digit, a letter, an underscore, an
/// opening parenthesis, `-` or `!`.
pub open spec fn opens_a_shape(c: char) -> bool {
    is_digit(c) || is_word_start(c) || c == '(' || c == '-' || c == '!'
}

/// The text of a legible shape is not empty, and its first character is
/// one that a shape can start with.
pub proof fn lemma_first_char(shape: Shape)
    requires
        shape.legible(),
    ensures
        shape.text().len() >= 1,
        opens_a_shape(shape.text()[0]),
    decreases shape,
{
    reveal_strlit("true");
    reveal_strlit("false");
    reveal_strlit("(");
    reveal_strlit("-");
    reveal_strlit("!");
    match shape {
        Shape::Infix { left, op, right } => {
            lemma_first_char(*left);
        },
        Shape::Prefix { op, operand } => {},
        Shape::Call { name, args } => {},
        _ => {},
    }
}

/// A numeral before a text that ends it is read as one number.
pub proof fn lemma_reads_numeral(digits: Seq<char>, rest: Seq<char>, position: Position)
    requires
        is_numeral(digits),
        rest.len() == 0 || !is_digit(rest[0]),
    ensures
        spelling(digits + rest, position) == seq![
            Lexeme { kind: TokenType::Number, value: TokenValueView::Number(digits) },
        ] + spelling(rest, position.after(digits)),
{
    let input = digits + rest;
    lemma_run_of(input, digits.len(), CharClass::Digit);
    assert(input.take(digits.len() as int) =~= digits);
    assert(input.skip(digits.len() as int) =~= rest);
}

/// Where the first `n` characters of `input` are of `class` and the next
/// one, if there is one, is not, the run of `class` at the start of
/// `input` is `n` long.
pub proof fn lemma_run_of(input: Seq<char>, n: nat, class: CharClass)
    requires
        n <= input.len(),
        forall|i: int| 0 <= i < n ==> class.contains(#[trigger] input[i]),
        n < input.len() ==> !class.contains(input[n as int]),
    ensures
        run_length(input, class) == n,
    decreases n,
{
    if n > 0 {
        assert forall|i: int| 0 <= i < n - 1 implies class.contains(
            #[trigger] input.skip(1)[i],
        ) by {}
        lemma_run_of(input.skip(1), (n - 1) as nat, class);
    }
}

/// The lexeme of the word `word`: a boolean for `true` and `false`, an
/// identifier for every other word.
pub open spec fn word_lexeme(word: Seq<char>) -> Lexeme {
    if word == "true"@ {
        Lexeme { kind: TokenType::Boolean, value: TokenValueView::Boolean(true) }
    } else if word == "false"@ {
        Lexeme { kind: TokenType::Boolean, value: TokenValueView::Boolean(false) }
    } else {
        Lexeme { kind: TokenType::Identifier, value: TokenValueView::String(word) }
    }
}

/// A word before a text that ends it is read as one word.
pub proof fn lemma_reads_word(word: Seq<char>, rest: Seq<char>, position: Position)
    requires
        word.len() >= 1,
        is_word_start(word[0]),
        forall|i: int| 1 <= i < word.len() ==> alphanumeric(#[trigger] word[i]),
        rest.len() == 0 || !alphanumeric(rest[0]),
    ensures
        spelling(word + rest, position) == seq![word_lexeme(word)] + spelling(
            rest,
            position.after(word),
        ),
{
    let input = word + rest;
    let tail = input.skip(1);
    let n = (word.len() - 1) as nat;
    assert forall|i: int| 0 <= i < n implies CharClass::Alphanumeric.contains(
        #[trigger] tail[i],
    ) by {}
    lemma_run_of(tail, n, CharClass::Alphanumeric);
    assert(input.take(word.len() as int) =~= word);
    assert(input.skip(word.len() as int) =~= rest);
}

/// A character that is a token by itself is read as that token, unless it
/// is one that takes a following `=` with it and `=` follows.
pub proof fn lemma_reads_symbol(c: char, rest: Seq<char>, position: Position)
    requires
        symbol_kind(c) is Some,
        paired_kind(c) is None || peek(rest) != '=',
    ensures
        spelling(seq![c] + rest, position) == seq![Lexeme::symbol(symbol_kind(c)->0)] + spelling(
            rest,
            position.after(seq![c]),
        ),
{
    let input = seq![c] + rest;
    assert(input.take(1) =~= seq![c]);
    assert(input.skip(1) =~= rest);
}

/// `==`, `!=`, `<=` and `>=` are read as one token each.
pub proof fn lemma_reads_pair(c: char, rest: Seq<char>, position: Position)
    requires
        paired_kind(c) is Some,
    ensures
        spelling(seq![c, '='] + rest, position) == seq![Lexeme::symbol(paired_kind(c)->0)]
            + spelling(rest, position.after(seq![c, '='])),
{
    let input = seq![c, '='] + rest;
    assert(input.take(2) =~= seq![c, '=']);
    assert(input.skip(2) =~= rest);
}

/// A blank before a character that is no whitespace is passed over.
pub proof fn lemma_reads_blank(rest: Seq<char>, position: Position)
    requires
        rest.len() == 0 || !whitespace(rest[0]),
    ensures
        spelling(seq![' '] + rest, position) == spelling(rest, position.after(seq![' '])),
{
    let input = seq![' '] + rest;
    assert(input.skip(1) =~= rest);
    assert(input.take(1) =~= seq![' ']);
}

/// The first character of the operator as it is written.
pub open spec fn sign_of(op: BinaryOpType) -> char {
    match op {
        BinaryOpType::Add => '+',
        BinaryOpType::Sub => '-',
        BinaryOpType::Mul => '*',
        BinaryOpType::Div => '/',
        BinaryOpType::Mod => '%',
        BinaryOpType::Pow => '^',
        BinaryOpType::Eq => '=',
        BinaryOpType::Ne => '!',
        BinaryOpType::Lt => '<',
        BinaryOpType::Le => '<',
        BinaryOpType::Gt => '>',
        BinaryOpType::Ge => '>',
        BinaryOpType::And => '&',
        BinaryOpType::Or => '|',
    }
}

/// Whether the operator is written with two characters, the second one
/// being `=`.
pub open spec fn is_pair(op: BinaryOpType) -> bool {
    op == BinaryOpType::Eq || op == BinaryOpType::Ne || op == BinaryOpType::Le || op
        == BinaryOpType::Ge
}

/// How the operators are written, character by character.
pub proof fn lemma_signs(op: BinaryOpType)
    ensures
        op.symbol_text() == if is_pair(op) {
            seq![sign_of(op), '=']
        } else {
            seq![sign_of(op)]
        },
        is_pair(op) ==> paired_kind(sign_of(op)) == Some(kind_of(op)),
        !is_pair(op) ==> symbol_kind(sign_of(op)) == Some(kind_of(op)),
        ' ' < sign_of(op) && sign_of(op) <= '~',
{
    reveal_strlit("+");
    reveal_strlit("-");
    reveal_strlit("*");
    reveal_strlit("/");
    reveal_strlit("%");
    reveal_strlit("^");
    reveal_strlit("==");
    reveal_strlit("!=");
    reveal_strlit("<");
    reveal_strlit("<=");
    reveal_strlit(">");
    reveal_strlit(">=");
    reveal_strlit("&");
    reveal_strlit("|");
}

/// A binary operator between two blanks, before a character that is no
/// whitespace, is read as the token of the operator.
pub proof fn lemma_reads_operator(op: BinaryOpType, rest: Seq<char>, position: Position)
    requires
        rest.len() == 0 || !whitespace(rest[0]),
    ensures
        spelling(operator_text(op) + rest, position) == seq![Lexeme::symbol(kind_of(op))]
            + spelling(rest, position.after(operator_text(op))),
        operator_text(op).len() >= 1,
        operator_text(op)[0] == ' ',
{
    reveal_strlit(" ");
    lemma_signs(op);
    let blank = seq![' '];
    let sign = op.symbol_text();
    let c = sign_of(op);
    assert(" "@ =~= blank);
    let input = " "@ + sign + " "@ + rest;
    assert(input =~= blank + (sign + (blank + rest)));
    lemma_reads_blank(sign + (blank + rest), position);
    let pos1 = position.after(blank);
    if is_pair(op) {
        lemma_reads_pair(c, blank + rest, pos1);
    } else {
        lemma_reads_symbol(c, blank + rest, pos1);
    }
    let pos2 = pos1.after(sign);
    lemma_reads_blank(rest, pos2);
    position.lemma_after_concat(blank, sign);
    position.lemma_after_concat(blank + sign, blank);
}

/// The tokeniser reads the text of a legible shape, before a text that
/// ends a word, as the tokens of the shape.
pub proof fn lemma_reads_shape(shape: Shape, rest: Seq<char>, position: Position)
    requires
        shape.legible(),
        ends_a_word(rest),
    ensures
        spelling(shape.text() + rest, position) == shape.lexemes() + spelling(
            rest,
            position.after(shape.text()),
        ),
    decreases shape, 1nat,
{
    match shape {
        Shape::Number(digits) => {
            lemma_reads_numeral(digits, rest, position);
        },
        Shape::Boolean(b) => {
            lemma_reads_boolean(b, rest, position);
        },
        Shape::Name(name) => {
            lemma_reads_word(name, rest, position);
        },
        Shape::Group(inner) => {
            lemma_reads_group(shape, rest, position);
        },
        Shape::Call { name, args } => {
            lemma_reads_call(shape, rest, position);
        },
        Shape::Prefix { op, operand } => {
            lemma_reads_prefix(shape, rest, position);
        },
        Shape::Infix { left, op, right } => {
            lemma_reads_infix(shape, rest, position);
        },
    }
}

proof fn lemma_reads_boolean(b: bool, rest: Seq<char>, position: Position)
    requires
        ends_a_word(rest),
    ensures
        spelling(Shape::Boolean(b).text() + rest, position) == Shape::Boolean(b).lexemes()
            + spelling(rest, position.after(Shape::Boolean(b).text())),
{
    reveal_strlit("true");
    reveal_strlit("false");
    let word = Shape::Boolean(b).text();
    lemma_reads_word(word, rest, position);
}

proof fn lemma_reads_group(shape: Shape, rest: Seq<char>, position: Position)
    requires
        shape is Group,
        shape.legible(),
        ends_a_word(rest),
    ensures
        spelling(shape.text() + rest, position) == shape.lexemes() + spelling(
            rest,
            position.after(shape.text()),
        ),
    decreases shape, 0nat,
{
    reveal_strlit("(");
    reveal_strlit(")");
    let inner = *shape->Group_0;
    let open = seq!['('];
    let close = seq![')'];
    assert("("@ =~= open);
    assert(")"@ =~= close);
    let t = inner.text();
    assert(shape.text() + rest =~= open + (t + (close + rest)));
    lemma_reads_symbol('(', t + (close + rest), position);
    let pos1 = position.after(open);
    lemma_reads_shape(inner, close + rest, pos1);
    let pos2 = pos1.after(t);
    lemma_reads_symbol(')', rest, pos2);
    position.lemma_after_concat(open, t);
    position.lemma_after_concat(open + t, close);
}

proof fn lemma_reads_call(shape: Shape, rest: Seq<char>, position: Position)
    requires
        shape is Call,
        shape.legible(),
        ends_a_word(rest),
    ensures
        spelling(shape.text() + rest, position) == shape.lexemes() + spelling(
            rest,
            position.after(shape.text()),
        ),
    decreases shape, 0nat,
{
    reveal_strlit("(");
    reveal_strlit(")");
    let name = shape->Call_name;
    let args = shape->Call_args;
    let open = seq!['('];
    let close = seq![')'];
    assert("("@ =~= open);
    assert(")"@ =~= close);
    let list = Shape::text_from(args, 0);
    assert(shape.text() + rest =~= name + (open + (list + (close + rest))));
    lemma_reads_word(name, open + (list + (close + rest)), position);
    let pos1 = position.after(name);
    lemma_reads_symbol('(', list + (close + rest), pos1);
    let pos2 = pos1.after(open);
    lemma_reads_list(args, 0, close + rest, pos2);
    let pos3 = pos2.after(list);
    lemma_reads_symbol(')', rest, pos3);
    position.lemma_after_concat(name, open);
    position.lemma_after_concat(name + open, list);
    position.lemma_after_concat(name + open + list, close);
}

proof fn lemma_reads_prefix(shape: Shape, rest: Seq<char>, position: Position)
    requires
        shape is Prefix,
        shape.legible(),
        ends_a_word(rest),
    ensures
        spelling(shape.text() + rest, position) == shape.lexemes() + spelling(
            rest,
            position.after(shape.text()),
        ),
    decreases shape, 0nat,
{
    reveal_strlit("-");
    reveal_strlit("!");
    let op = shape->Prefix_op;
    let operand = *shape->Prefix_operand;
    let t = operand.text();
    let c = if op == UnaryOpType::Neg {
        '-'
    } else {
        '!'
    };
    assert(op.symbol_text() =~= seq![c]);
    assert(shape.text() + rest =~= seq![c] + (t + rest));
    lemma_first_char(operand);
    lemma_reads_symbol(c, t + rest, position);
    let pos1 = position.after(seq![c]);
    lemma_reads_shape(operand, rest, pos1);
    position.lemma_after_concat(seq![c], t);
}

proof fn lemma_reads_infix(shape: Shape, rest: Seq<char>, position: Position)
    requires
        shape is Infix,
        shape.legible(),
        ends_a_word(rest),
    ensures
        spelling(shape.text() + rest, position) == shape.lexemes() + spelling(
            rest,
            position.after(shape.text()),
        ),
    decreases shape, 0nat,
{
    let left = *shape->Infix_left;
    let right = *shape->Infix_right;
    let op = shape->Infix_op;
    let tl = left.text();
    let tr = right.text();
    let mid = operator_text(op);
    let pos1 = position.after(tl);
    let pos2 = pos1.after(mid);
    lemma_first_char(right);
    lemma_reads_operator(op, tr + rest, pos1);

    lemma_reads_shape(left, mid + (tr + rest), position);
    lemma_reads_shape(right, rest, pos2);
    position.lemma_after_concat(tl, mid);
    position.lemma_after_concat(tl + mid, tr);
    lemma_infix_sums(tl, mid, tr, rest);
}

/// Four texts in a row, bracketed from the left and from the right.
proof fn lemma_infix_sums<T>(a: Seq<T>, b: Seq<T>, c: Seq<T>, d: Seq<T>)
    ensures
        a + b + c + d == a + (b + (c + d)),
{
}

/// The tokeniser reads the text of the arguments of a call, from index
/// `from` on, as their tokens with commas between them.
pub proof fn lemma_reads_list(args: Seq<Shape>, from: nat, rest: Seq<char>, position: Position)
    requires
        forall|i: int| 0 <= i < args.len() ==> (#[trigger] args[i]).legible(),
        ends_a_word(rest),
    ensures
        spelling(Shape::text_from(args, from) + rest, position) == Shape::lexemes_from(args, from)
            + spelling(rest, position.after(Shape::text_from(args, from))),
    decreases args, args.len() - from,
{
    reveal_strlit(", ");
    if from >= args.len() {
    } else if from + 1 == args.len() {
        lemma_reads_shape(args[from as int], rest, position);
    } else {
        let first = args[from as int];
        let t = first.text();
        let more = Shape::text_from(args, from + 1);
        let comma = seq![','];
        let blank = seq![' '];
        assert(Shape::text_from(args, from) + rest =~= t + (comma + (blank + (more + rest))));
        lemma_reads_shape(first, comma + (blank + (more + rest)), position);
        let pos1 = position.after(t);
        lemma_reads_symbol(',', blank + (more + rest), pos1);
        let pos2 = pos1.after(comma);
        lemma_first_char(args[from + 1int]);
        lemma_reads_blank(more + rest, pos2);
        let pos3 = pos2.after(blank);
        lemma_reads_list(args, from + 1, rest, pos3);
        position.lemma_after_concat(t, comma);
        position.lemma_after_concat(t + comma, blank);
        position.lemma_after_concat(t + comma + blank, more);
        assert(Shape::text_from(args, from) =~= t + comma + blank + more);
    }
}

} // verus!

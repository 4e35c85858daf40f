//! Building text: the few operations on characters and strings that the rest
//! of the library shares.
use vstd::prelude::*;
use vstd::string::*;

verus! {

/// The decimal digit for `d`, for `d` below ten.
pub open spec fn digit_char(d: nat) -> char {
    if d == 0 {
        '0'
    } else if d == 1 {
        '1'
    } else if d == 2 {
        '2'
    } else if d == 3 {
        '3'
    } else if d == 4 {
        '4'
    } else if d == 5 {
        '5'
    } else if d == 6 {
        '6'
    } else if d == 7 {
        '7'
    } else if d == 8 {
        '8'
    } else {
        '9'
    }
}

/// `n` written in decimal, without leading zeros.
pub open spec fn decimal_text(n: nat) -> Seq<char>
    decreases n,
{
    if n < 10 {
        seq![digit_char(n)]
    } else {
        decimal_text(n / 10).push(digit_char(n % 10))
    }
}

/// `count` copies of the character `c`.
pub open spec fn repeated(c: char, count: nat) -> Seq<char> {
    Seq::new(count, |i: int| c)
}

/// `text` filled up on the left with `fill` to at least `width` characters.
pub open spec fn padded_left(text: Seq<char>, fill: char, width: nat) -> Seq<char> {
    if text.len() < width {
        repeated(fill, (width - text.len()) as nat) + text
    } else {
        text
    }
}

/// Whether `c` is one of the ten decimal digits.
pub open spec fn is_digit(c: char) -> bool {
    '0' <= c && c <= '9'
}

/// Whether `c` may open an identifier: an ASCII letter or the underscore.
pub open spec fn is_word_start(c: char) -> bool {
    ('a' <= c && c <= 'z') || ('A' <= c && c <= 'Z') || c == '_'
}

/// Whether `c` is a letter of the ASCII alphabet.
pub open spec fn is_ascii_letter(c: char) -> bool {
    ('a' <= c && c <= 'z') || ('A' <= c && c <= 'Z')
}

/// What `char::is_alphanumeric` answers for a character beyond ASCII:
/// whether it is alphabetic or numeric by the Unicode tables of the standard
/// library.
pub uninterp spec fn alphanumeric_beyond_ascii(c: char) -> bool;

/// What `char::is_alphanumeric` answers for `c`. Of the ASCII characters
/// the letters and the digits are alphanumeric, and no others; beyond ASCII
/// the answer is named and not stated.
pub open spec fn alphanumeric(c: char) -> bool {
    if c <= '\x7f' {
        is_digit(c) || is_ascii_letter(c)
    } else {
        alphanumeric_beyond_ascii(c)
    }
}

/// What `char::is_whitespace` answers for `c`: whether `c` has the Unicode
/// property `White_Space`. These are the blank, the characters from the
/// tabulator to the carriage return, the next line character, the
/// no-break space, the ogham space mark, the spaces from the en quad to the
/// hair space, the line and the paragraph separator, the narrow no-break
/// space, the medium mathematical space and the ideographic space.
pub open spec fn whitespace(c: char) -> bool {
    ||| c == ' '
    ||| ('\t' <= c && c <= '\r')
    ||| c == '\u{85}'
    ||| c == '\u{a0}'
    ||| c == '\u{1680}'
    ||| ('\u{2000}' <= c && c <= '\u{200a}')
    ||| c == '\u{2028}'
    ||| c == '\u{2029}'
    ||| c == '\u{202f}'
    ||| c == '\u{205f}'
    ||| c == '\u{3000}'
}

/// Taken on trust of `char::is_alphanumeric`: its answer depends on the
/// character alone; for an ASCII character it is whether the character is
/// a letter or a digit, and beyond ASCII it is named
/// `alphanumeric_beyond_ascii` and not stated.
pub assume_specification[ char::is_alphanumeric ](c: char) -> (b: bool)
    ensures
        b == if c <= '\x7f' {
            is_digit(c) || is_ascii_letter(c)
        } else {
            alphanumeric_beyond_ascii(c)
        },
;

/// Taken on trust of `char::is_whitespace`: it holds of the characters with
/// the Unicode property `White_Space`, which `whitespace` lists.
pub assume_specification[ char::is_whitespace ](c: char) -> (b: bool)
    ensures
        b == whitespace(c),
;

/// What `{:?}` prints for a string: the string in double quotes, with the
/// characters escaped that `Debug` escapes.
pub uninterp spec fn quoted_text(s: Seq<char>) -> Seq<char>;

/// Formats a string with `{:?}`, the `Debug` formatting of `str`. Taken on
/// trust: what is printed depends on the string alone. It is named
/// `quoted_text`; nothing more is claimed of it.
#[verifier::external_body]
pub(crate) fn quoted(s: &str) -> (q: String)
    ensures
        q@ == quoted_text(s@),
{
    format!("{:?}", s)
}

/// Calls `String::push`. Taken on trust: afterwards the string is what it
/// was, with `c` appended.
#[verifier::external_body]
pub(crate) fn push_char(s: &mut String, c: char)
    ensures
        final(s)@ == old(s)@.push(c),
{
    s.push(c)
}

/// The characters of `s`, in order.
pub fn chars_of(s: &str) -> (v: Vec<char>)
    ensures
        v@ == s@,
{
    let mut v: Vec<char> = Vec::new();
    for c in it: s.chars()
        invariant
            v@ == s@.subrange(0, it.index() as int),
            it.seq() == s@,
    {
        v.push(c);
    }
    v
}

fn digit(d: usize) -> (c: char)
    requires
        d < 10,
    ensures
        c == digit_char(d as nat),
{
    if d == 0 {
        '0'
    } else if d == 1 {
        '1'
    } else if d == 2 {
        '2'
    } else if d == 3 {
        '3'
    } else if d == 4 {
        '4'
    } else if d == 5 {
        '5'
    } else if d == 6 {
        '6'
    } else if d == 7 {
        '7'
    } else if d == 8 {
        '8'
    } else {
        '9'
    }
}

/// Appends `n` in decimal to `s`.
pub fn push_decimal(s: &mut String, n: usize)
    ensures
        final(s)@ == old(s)@ + decimal_text(n as nat),
    decreases n,
{
    if n >= 10 {
        push_decimal(s, n / 10);
    }
    push_char(s, digit(n % 10));
}

/// Appends `count` copies of `c` to `s`.
pub fn push_repeated(s: &mut String, c: char, count: usize)
    ensures
        final(s)@ == old(s)@ + repeated(c, count as nat),
{
    let mut i: usize = 0;
    while i < count
        invariant
            i <= count,
            s@ == old(s)@ + repeated(c, i as nat),
        decreases count - i,
    {
        push_char(s, c);
        i += 1;
    }
}

/// The decimal text of a number of three or more digits is at least three
/// characters long; below that it is as long as the number of its digits.
pub proof fn lemma_decimal_width(n: nat)
    ensures
        decimal_text(n).len() >= 1,
        n < 10 ==> decimal_text(n).len() == 1,
        10 <= n < 100 ==> decimal_text(n).len() == 2,
        n >= 100 ==> decimal_text(n).len() >= 3,
    decreases n,
{
    if n >= 10 {
        lemma_decimal_width(n / 10);
    }
}

/// Appends `n` in decimal to `s`, filled up with zeros on the left to at
/// least three digits.
pub fn push_padded3(s: &mut String, n: usize)
    ensures
        final(s)@ == old(s)@ + padded_left(decimal_text(n as nat), '0', 3),
{
    proof {
        lemma_decimal_width(n as nat);
    }
    if n < 10 {
        push_repeated(s, '0', 2);
    } else if n < 100 {
        push_repeated(s, '0', 1);
    }
    push_decimal(s, n);
}

} // verus!

//! Places in the source text, and how the cursor moves over it.
use vstd::prelude::*;

verus! {

/// A place in the source text. Lines and columns count from 1; the pair
/// `0:0` stands for "no place".
#[derive(Clone, Copy, Debug, PartialEq, Eq, Structural)]
pub struct Position {
    pub line: usize,
    pub column: usize,
}

impl Position {
    pub fn new(line: usize, column: usize) -> (p: Position)
        ensures
            p == (Position { line, column }),
    {
        Position { line, column }
    }

    pub fn line(&self) -> (l: usize)
        ensures
            l == self.line,
    {
        self.line
    }

    pub fn column(&self) -> (c: usize)
        ensures
            c == self.column,
    {
        self.column
    }

    /// The place of the cursor once it has passed the character `c`: a line
    /// feed opens the next line at column 1, any other character moves one
    /// column to the right.
    pub open spec fn advance(self, c: char) -> Position {
        if c == '\n' {
            Position { line: (self.line + 1) as usize, column: 1 }
        } else {
            Position { line: self.line, column: (self.column + 1) as usize }
        }
    }

    /// The place of the cursor once it has passed every character of `text`.
    pub open spec fn after(self, text: Seq<char>) -> Position
        decreases text.len(),
    {
        if text.len() == 0 {
            self
        } else {
            self.after(text.drop_last()).advance(text.last())
        }
    }

    /// Passing `a + b` is passing `a` and then `b`.
    pub proof fn lemma_after_concat(self, a: Seq<char>, b: Seq<char>)
        ensures
            self.after(a + b) == self.after(a).after(b),
        decreases b.len(),
    {
        if b.len() == 0 {
        } else {
            assert((a + b).drop_last() =~= a + b.drop_last());
            self.lemma_after_concat(a, b.drop_last());
        }
    }

    /// Passing one more character is one more `advance`.
    pub proof fn lemma_after_push(self, text: Seq<char>, c: char)
        ensures
            self.after(text.push(c)) == self.after(text).advance(c),
    {
        assert(text.push(c).drop_last() =~= text);
    }

    /// Passing a single character is one `advance`.
    pub proof fn lemma_after_one(self, c: char)
        ensures
            self.after(seq![c]) == self.advance(c),
    {
        assert(self.after(seq![c]) == self.after(seq![c].drop_last()).advance(c));
    }
}

} // verus!

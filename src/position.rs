//! Cursor coordinates inside a character source.
use vstd::prelude::*;

verus! {

/// A cursor position: the index of a character, with its zero-based line
/// and column.
#[derive(Debug, Clone, Copy, PartialEq, Eq, Structural)]
pub struct Position {
    pub offset: usize,
    pub line: usize,
    pub column: usize,
}

/// Line and column of the character at index `i` of `s`: a newline starts a
/// new line at column zero, any other character moves one column on.
pub open spec fn line_col(s: Seq<char>, i: nat) -> (nat, nat)
    decreases i,
{
    if i == 0 || i > s.len() {
        (0, 0)
    } else {
        let lc = line_col(s, (i - 1) as nat);
        if s[i - 1] == '\n' {
            (lc.0 + 1, 0)
        } else {
            (lc.0, lc.1 + 1)
        }
    }
}

/// The position of index `i` in `s`.
pub open spec fn position_at(s: Seq<char>, i: nat) -> Position {
    Position {
        offset: i as usize,
        line: line_col(s, i).0 as usize,
        column: line_col(s, i).1 as usize,
    }
}

/// Line and column never exceed the index.
pub proof fn lemma_line_col_bounded(s: Seq<char>, i: nat)
    ensures
        line_col(s, i).0 <= i,
        line_col(s, i).1 <= i,
    decreases i,
{
    if i > 0 && i <= s.len() {
        lemma_line_col_bounded(s, (i - 1) as nat);
    }
}

impl Position {
    pub open spec fn spec_start() -> Position {
        Position { offset: 0, line: 0, column: 0 }
    }

    /// The start of any input.
    pub fn start() -> (r: Position)
        ensures
            r == Position::spec_start(),
    {
        Position { offset: 0, line: 0, column: 0 }
    }
}

} // verus!

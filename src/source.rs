//! An in-memory character source with a cursor.
use vstd::prelude::*;

use crate::chars::{ident_char, is_ident_char, is_non_ident_char, is_space, non_ident_boundary, whitespace_class};
use crate::position::{lemma_line_col_bounded, line_col, position_at, Position};

verus! {

/// The character at index `i`, or `None` past the end.
pub open spec fn char_at(s: Seq<char>, i: nat) -> Option<char> {
    if i < s.len() {
        Some(s[i as int])
    } else {
        None
    }
}

/// The first index at or after `i` that does not hold whitespace.
pub open spec fn ws_end(s: Seq<char>, i: nat) -> nat
    decreases s.len() - i,
{
    if i < s.len() && whitespace_class(s[i as int]) {
        ws_end(s, i + 1)
    } else {
        i
    }
}

/// The first index at or after `i` that does not hold an identifier character.
pub open spec fn ident_end(s: Seq<char>, i: nat) -> nat
    decreases s.len() - i,
{
    if i < s.len() && ident_char(s[i as int]) {
        ident_end(s, i + 1)
    } else {
        i
    }
}

/// Whether `w` stands at index `i` of `s` and is followed by a boundary.
pub open spec fn word_at(s: Seq<char>, i: nat, w: Seq<char>) -> bool {
    &&& i + w.len() <= s.len()
    &&& s.subrange(i as int, (i + w.len()) as int) == w
    &&& non_ident_boundary(char_at(s, i + w.len()))
}

pub proof fn lemma_ws_end_bounds(s: Seq<char>, i: nat)
    requires
        i <= s.len(),
    ensures
        i <= ws_end(s, i) <= s.len(),
        forall|k: nat| i <= k < ws_end(s, i) ==> whitespace_class(#[trigger] s[k as int]),
        ws_end(s, i) < s.len() ==> !whitespace_class(s[ws_end(s, i) as int]),
    decreases s.len() - i,
{
    if i < s.len() && whitespace_class(s[i as int]) {
        lemma_ws_end_bounds(s, i + 1);
    }
}

pub proof fn lemma_ident_end_bounds(s: Seq<char>, i: nat)
    requires
        i <= s.len(),
    ensures
        i <= ident_end(s, i) <= s.len(),
    decreases s.len() - i,
{
    if i < s.len() && ident_char(s[i as int]) {
        lemma_ident_end_bounds(s, i + 1);
    }
}

/// Characters held in memory, read from a cursor that knows its line and
/// column.
pub struct CharSource {
    chars: Vec<char>,
    pos: Position,
}

impl CharSource {
    #[verifier::type_invariant]
    spec fn inv(self) -> bool {
        &&& self.pos.offset <= self.chars@.len()
        &&& self.pos == position_at(self.chars@, self.pos.offset as nat)
    }

    /// All characters of the source.
    pub closed spec fn text(self) -> Seq<char> {
        self.chars@
    }

    /// The index of the character under the cursor.
    pub closed spec fn cursor(self) -> nat {
        self.pos.offset as nat
    }

    /// A source over `chars`, with the cursor at the start.
    pub fn new(chars: Vec<char>) -> (r: CharSource)
        ensures
            r.text() == chars@,
            r.cursor() == 0,
    {
        CharSource { chars, pos: Position::start() }
    }

    /// The position of the cursor.
    pub fn position(&self) -> (r: Position)
        ensures
            r == position_at(self.text(), self.cursor()),
            r.offset == self.cursor(),
            self.cursor() <= self.text().len(),
    {
        proof { use_type_invariant(self); }
        self.pos
    }

    /// The characters from the cursor on.
    pub fn remaining(&self) -> (r: Vec<char>)
        ensures
            r@ == self.text().subrange(self.cursor() as int, self.text().len() as int),
    {
        proof { use_type_invariant(self); }
        let mut out: Vec<char> = Vec::new();
        let mut i: usize = self.pos.offset;
        while i < self.chars.len()
            invariant
                self.pos.offset <= i <= self.chars@.len(),
                out@ == self.chars@.subrange(self.pos.offset as int, i as int),
            decreases self.chars@.len() - i,
        {
            out.push(self.chars[i]);
            i = i + 1;
            assert(out@ =~= self.chars@.subrange(self.pos.offset as int, i as int));
        }
        out
    }

    /// Whether the cursor is past the last character.
    pub fn eof(&self) -> (r: bool)
        ensures
            r == (self.cursor() >= self.text().len()),
            self.cursor() <= self.text().len(),
    {
        proof { use_type_invariant(self); }
        self.pos.offset >= self.chars.len()
    }

    /// The character `lookahead` places after the cursor, without consuming.
    pub fn peek_char(&self, lookahead: usize) -> (r: Option<char>)
        ensures
            r == char_at(self.text(), (self.cursor() + lookahead) as nat),
    {
        proof { use_type_invariant(self); }
        if lookahead < self.chars.len() - self.pos.offset {
            Some(self.chars[self.pos.offset + lookahead])
        } else {
            None
        }
    }

    /// Moves the cursor over one character.
    fn advance(&mut self)
        requires
            old(self).cursor() < old(self).text().len(),
        ensures
            final(self).text() == old(self).text(),
            final(self).cursor() == old(self).cursor() + 1,
    {
        proof { use_type_invariant(&*self); }
        let i = self.pos.offset;
        let n: usize = self.chars.len();
        let c = self.chars[i];
        proof {
            lemma_line_col_bounded(self.chars@, (i + 1) as nat);
            assert(line_col(self.chars@, (i + 1) as nat) == (if c == '\n' {
                (line_col(self.chars@, i as nat).0 + 1, 0nat)
            } else {
                (line_col(self.chars@, i as nat).0, line_col(self.chars@, i as nat).1 + 1)
            }));
        }
        let next = if c == '\n' {
            Position { offset: i + 1, line: self.pos.line + 1, column: 0 }
        } else {
            Position { offset: i + 1, line: self.pos.line, column: self.pos.column + 1 }
        };
        self.pos = next;
    }

    /// Consumes the character under the cursor and returns it; `None` at the
    /// end of input.
    pub fn next_char(&mut self) -> (r: Option<char>)
        ensures
            final(self).text() == old(self).text(),
            r == char_at(old(self).text(), old(self).cursor()),
            final(self).cursor() == (if r is Some {
                old(self).cursor() + 1
            } else {
                old(self).cursor()
            }),
    {
        proof { use_type_invariant(&*self); }
        if self.pos.offset < self.chars.len() {
            let c = self.chars[self.pos.offset];
            self.advance();
            Some(c)
        } else {
            None
        }
    }

    /// Consumes up to `count` characters, stopping at the end of input.
    pub fn skip_chars(&mut self, count: usize)
        ensures
            final(self).text() == old(self).text(),
            final(self).cursor() == vstd::math::min(
                (old(self).cursor() + count) as int,
                old(self).text().len() as int,
            ),
    {
        proof { use_type_invariant(&*self); }
        let mut k: usize = 0;
        while k < count && self.pos.offset < self.chars.len()
            invariant
                self.text() == old(self).text(),
                k <= count,
                self.cursor() == old(self).cursor() + k,
                self.cursor() <= self.text().len(),
            decreases count - k,
        {
            self.advance();
            k = k + 1;
            proof { use_type_invariant(&*self); }
        }
    }

    /// Consumes whitespace up to the next other character or the end.
    pub fn skip_whitespace(&mut self)
        ensures
            final(self).text() == old(self).text(),
            final(self).cursor() == ws_end(old(self).text(), old(self).cursor()),
    {
        proof { use_type_invariant(&*self); }
        while self.pos.offset < self.chars.len() && is_space(self.chars[self.pos.offset])
            invariant
                self.text() == old(self).text(),
                self.cursor() <= self.text().len(),
                ws_end(self.text(), self.cursor()) == ws_end(old(self).text(), old(self).cursor()),
            decreases self.text().len() - self.cursor(),
        {
            self.advance();
            proof { use_type_invariant(&*self); }
        }
    }

    /// Consumes identifier characters up to the next other character or the
    /// end.
    pub fn skip_ident_chars(&mut self)
        ensures
            final(self).text() == old(self).text(),
            final(self).cursor() == ident_end(old(self).text(), old(self).cursor()),
    {
        proof { use_type_invariant(&*self); }
        while self.pos.offset < self.chars.len() && is_ident_char(self.chars[self.pos.offset])
            invariant
                self.text() == old(self).text(),
                self.cursor() <= self.text().len(),
                ident_end(self.text(), self.cursor()) == ident_end(old(self).text(), old(self).cursor()),
            decreases self.text().len() - self.cursor(),
        {
            self.advance();
            proof { use_type_invariant(&*self); }
        }
    }

    /// Whether `word` stands at the cursor, followed by the end of input or a
    /// character that cannot continue an identifier. Consumes nothing.
    pub fn match_str_term(&self, word: &Vec<char>) -> (r: bool)
        ensures
            r == word_at(self.text(), self.cursor(), word@),
    {
        proof { use_type_invariant(self); }
        let start = self.pos.offset;
        let n: usize = self.chars.len();
        if word.len() > n - start {
            return false;
        }
        let mut j: usize = 0;
        while j < word.len()
            invariant
                j <= word@.len(),
                start == self.cursor(),
                start + word@.len() <= self.chars@.len(),
                self.chars@.len() == n,
                forall|k: int| 0 <= k < j ==> self.chars@[start + k] == word@[k],
            decreases word.len() - j,
        {
            if self.chars[start + j] != word[j] {
                assert(self.chars@.subrange(start as int, start + word@.len())[j as int] != word@[j as int]);
                return false;
            }
            j = j + 1;
        }
        let end = start + word.len();
        assert(self.chars@.subrange(start as int, end as int) =~= word@);
        let next = if end < self.chars.len() {
            Some(self.chars[end])
        } else {
            None
        };
        is_non_ident_char(next)
    }

    /// Moves the cursor to `pos.offset`, or to the end where that lies past
    /// it; line and column are counted again from the text.
    pub fn seek(&mut self, pos: Position)
        ensures
            final(self).text() == old(self).text(),
            final(self).cursor() == vstd::math::min(pos.offset as int, old(self).text().len() as int),
    {
        let target = if pos.offset < self.chars.len() {
            pos.offset
        } else {
            self.chars.len()
        };
        self.pos = Position::start();
        while self.pos.offset < target
            invariant
                self.text() == old(self).text(),
                target <= self.text().len(),
                self.cursor() <= target,
            decreases target - self.cursor(),
        {
            self.advance();
        }
    }
}

} // verus!

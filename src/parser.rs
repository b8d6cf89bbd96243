//! The lexer and the token stream that a grammar consumes.
use vstd::prelude::*;
use std::collections::VecDeque;

use crate::chars::{ident_start, is_ident_start};
use crate::error::ParseErrorDetail;
use crate::position::{position_at, Position};
use crate::source::{lemma_ws_end_bounds, lemma_ident_end_bounds, ident_end, word_at, ws_end, CharSource};
use crate::token::{notation_terminal, number_terminal, NumberConfig, NumberScan, Terminal, Token};

verus! {

/// The kind of a one-character punctuation token.
pub open spec fn punct_terminal(c: char) -> Option<Terminal> {
    if c == ',' {
        Some(Terminal::Comma)
    } else if c == ';' {
        Some(Terminal::Semicolon)
    } else if c == '(' {
        Some(Terminal::ParenLeft)
    } else if c == ')' {
        Some(Terminal::ParenRight)
    } else if c == '[' {
        Some(Terminal::BracketLeft)
    } else if c == ']' {
        Some(Terminal::BracketRight)
    } else if c == '{' {
        Some(Terminal::BraceLeft)
    } else if c == '}' {
        Some(Terminal::BraceRight)
    } else {
        None
    }
}

fn punct_kind(c: char) -> (r: Option<Terminal>)
    ensures
        r == punct_terminal(c),
{
    match c {
        ',' => Some(Terminal::Comma),
        ';' => Some(Terminal::Semicolon),
        '(' => Some(Terminal::ParenLeft),
        ')' => Some(Terminal::ParenRight),
        '[' => Some(Terminal::BracketLeft),
        ']' => Some(Terminal::BracketRight),
        '{' => Some(Terminal::BraceLeft),
        '}' => Some(Terminal::BraceRight),
        _ => None,
    }
}

/// The index of the quote `q` that closes a literal whose body starts at `i`;
/// a backslash takes the character after it verbatim. `None` where the input
/// ends first.
pub open spec fn string_close(s: Seq<char>, i: nat, q: char) -> Option<nat>
    decreases s.len() - i,
{
    if i >= s.len() {
        None
    } else if s[i as int] == '\\' {
        if i + 1 >= s.len() {
            None
        } else {
            string_close(s, i + 2, q)
        }
    } else if s[i as int] == q {
        Some(i)
    } else {
        string_close(s, i + 1, q)
    }
}

/// A token of kind `k` over the indices `[a, b)` of `s`.
pub open spec fn span_token(s: Seq<char>, k: Terminal, a: nat, b: nat) -> Token {
    Token { kind: k, from: position_at(s, a), to: position_at(s, b) }
}

/// Whether a number literal handed to the lexer fits the input: it is not
/// empty and ends within `s`, counted from the first non-whitespace index.
pub open spec fn scan_fits(s: Seq<char>, cursor: nat, num: Option<NumberScan>) -> bool {
    match num {
        Some(n) => n.len > 0 && ws_end(s, cursor) + n.len <= s.len(),
        None => true,
    }
}

/// The outcome of lexing at index `at`, which holds no whitespace, and the
/// index the cursor is left at. `num` is the number literal that starts at
/// `at`, if one does.
pub open spec fn lex_at(s: Seq<char>, at: nat, num: Option<NumberScan>, partial: bool) -> (
    Result<Token, ParseErrorDetail>,
    nat,
) {
    match num {
        Some(n) => (Ok(span_token(s, notation_terminal(n.notation), at, (at + n.len) as nat)), (at + n.len) as nat),
        None => if at >= s.len() {
            (Ok(span_token(s, Terminal::End, at, at)), at)
        } else {
            let c = s[at as int];
            if punct_terminal(c) is Some {
                (Ok(span_token(s, punct_terminal(c).unwrap(), at, at + 1)), at + 1)
            } else if c == 'n' && word_at(s, at, seq!['n', 'u', 'l', 'l']) {
                (Ok(span_token(s, Terminal::Null, at, at + 4)), at + 4)
            } else if c == 't' && word_at(s, at, seq!['t', 'r', 'u', 'e']) {
                (Ok(span_token(s, Terminal::True, at, at + 4)), at + 4)
            } else if c == 'f' && word_at(s, at, seq!['f', 'a', 'l', 's', 'e']) {
                (Ok(span_token(s, Terminal::False, at, at + 5)), at + 5)
            } else if ident_start(c) {
                let e = ident_end(s, at + 1);
                (Ok(span_token(s, Terminal::Id, at, e)), e)
            } else if c == '\'' || c == '"' {
                match string_close(s, at + 1, c) {
                    Some(e) => (Ok(span_token(s, Terminal::String, at, e + 1)), e + 1),
                    None => (
                        Err(ParseErrorDetail::InvalidInputOne { pos: position_at(s, s.len()), quote: c }),
                        s.len(),
                    ),
                }
            } else if partial {
                (Ok(span_token(s, Terminal::End, at, at)), at)
            } else {
                (Err(ParseErrorDetail::InvalidInput { pos: position_at(s, at), found: c }), at)
            }
        },
    }
}

/// The outcome of lexing from `cursor`: whitespace is skipped first.
pub open spec fn lex_step(s: Seq<char>, cursor: nat, num: Option<NumberScan>, partial: bool) -> (
    Result<Token, ParseErrorDetail>,
    nat,
) {
    lex_at(s, ws_end(s, cursor), num, partial)
}

/// What a parser holds, as plain values.
pub struct ParserState {
    pub number_config: NumberConfig,
    pub partial: bool,
    pub prev_pos: Position,
    pub next_pos: Position,
    pub queue: Seq<Token>,
}

/// The state after `t` was lexed afresh.
pub open spec fn after_lex(p: ParserState, t: Token) -> ParserState {
    ParserState { prev_pos: p.next_pos, next_pos: t.to, ..p }
}

/// The state after `t` was pushed back.
pub open spec fn pushed(p: ParserState, t: Token) -> ParserState {
    ParserState { next_pos: p.prev_pos, queue: seq![t] + p.queue, ..p }
}

/// The state after the first pending token was taken again.
pub open spec fn replayed(p: ParserState) -> ParserState {
    ParserState { next_pos: p.queue[0].to, queue: p.queue.drop_first(), ..p }
}

/// The outcome of asking for the next token: the result, the new state, and
/// the new cursor. A pending token comes first and leaves the source alone.
pub open spec fn next_step(p: ParserState, s: Seq<char>, cursor: nat, num: Option<NumberScan>) -> (
    Result<Token, ParseErrorDetail>,
    ParserState,
    nat,
) {
    if p.queue.len() > 0 {
        (Ok(p.queue[0]), replayed(p), cursor)
    } else {
        let (r, c) = lex_step(s, cursor, num, p.partial);
        match r {
            Ok(t) => (r, after_lex(p, t), c),
            Err(_) => (r, p, c),
        }
    }
}

/// Whether a call that asks for the next token is well supplied: a pending
/// token is there, or the number literal handed over fits the input.
pub open spec fn can_step(p: ParserState, s: Seq<char>, cursor: nat, num: Option<NumberScan>) -> bool {
    p.queue.len() > 0 || scan_fits(s, cursor, num)
}

/// The result of expecting kind `term` of the outcome `r` of a step.
pub open spec fn expect_one(r: Result<Token, ParseErrorDetail>, term: Terminal) -> Result<Token, ParseErrorDetail> {
    match r {
        Ok(t) => if t.kind == term {
            Ok(t)
        } else {
            Err(ParseErrorDetail::UnexpectedTokenOne { token: t, expected: term })
        },
        Err(e) => Err(e),
    }
}

/// Whether `k` is one of `terms`.
fn contains_kind(terms: &[Terminal], k: Terminal) -> (r: bool)
    ensures
        r == terms@.contains(k),
{
    let mut i: usize = 0;
    while i < terms.len()
        invariant
            i <= terms@.len(),
            forall|j: int| 0 <= j < i ==> terms@[j] != k,
        decreases terms.len() - i,
    {
        if terms[i] == k {
            return true;
        }
        i = i + 1;
    }
    false
}

/// A grammar that builds a value from the token stream.
pub trait Grammar {
    type Output;

    /// Parses one expression, taking tokens from `p` over `r`. It is handed a
    /// stream with nothing pending, whose position is the cursor of `r`.
    fn parse_expr(&mut self, p: &mut Parser, r: &mut CharSource) -> Result<Self::Output, ParseErrorDetail>
        requires
            old(p)@.queue.len() == 0,
            old(p)@.next_pos == position_at(old(r).text(), old(r).cursor()),
    ;
}

/// A lexer with one token of pushback and the positions around the last
/// token.
pub struct Parser {
    num_config: NumberConfig,
    partial: bool,
    prev_pos: Position,
    next_pos: Position,
    token_queue: VecDeque<Token>,
}

impl View for Parser {
    type V = ParserState;

    closed spec fn view(&self) -> ParserState {
        ParserState {
            number_config: self.num_config,
            partial: self.partial,
            prev_pos: self.prev_pos,
            next_pos: self.next_pos,
            queue: self.token_queue@,
        }
    }
}

impl Parser {
    /// A parser outside partial mode, with nothing pending; its number
    /// recognizer accepts no leading sign.
    pub fn new() -> (r: Parser)
        ensures
            r@.number_config.unsigned(),
            !r@.partial,
            r@.prev_pos == Position::spec_start(),
            r@.next_pos == Position::spec_start(),
            r@.queue.len() == 0,
    {
        Parser {
            num_config: NumberConfig::without_signs(),
            partial: false,
            prev_pos: Position::start(),
            next_pos: Position::start(),
            token_queue: VecDeque::new(),
        }
    }
    /// Reads one token from `r`, after skipping whitespace. `num` is what a
    /// number recognizer found at the first non-whitespace character, if
    /// anything; a number literal wins over every other rule.
    fn lex(&self, r: &mut CharSource, num: Option<NumberScan>) -> (res: Result<Token, ParseErrorDetail>)
        requires
            scan_fits(old(r).text(), old(r).cursor(), num),
        ensures
            final(r).text() == old(r).text(),
            (res, final(r).cursor()) == lex_step(old(r).text(), old(r).cursor(), num, self@.partial),
    {
        let ghost s = r.text();
        r.skip_whitespace();
        let p1 = r.position();
        let ghost at = r.cursor();
        proof { lemma_ws_end_bounds(s, old(r).cursor()); }
        match num {
            Some(n) => {
                r.skip_chars(n.len);
                let p2 = r.position();
                return Ok(Token::new(number_terminal(n.notation), p1, p2));
            },
            None => {},
        }
        let c = match r.peek_char(0) {
            None => {
                return Ok(Token::new(Terminal::End, p1, p1));
            },
            Some(c) => c,
        };
        assert(c == s[at as int]);
        match punct_kind(c) {
            Some(t) => {
                r.skip_chars(1);
                let p2 = r.position();
                return Ok(Token::new(t, p1, p2));
            },
            None => {},
        }
        if c == 'n' && r.match_str_term(&vec!['n', 'u', 'l', 'l']) {
            r.skip_chars(4);
            let p2 = r.position();
            Ok(Token::new(Terminal::Null, p1, p2))
        } else if c == 't' && r.match_str_term(&vec!['t', 'r', 'u', 'e']) {
            r.skip_chars(4);
            let p2 = r.position();
            Ok(Token::new(Terminal::True, p1, p2))
        } else if c == 'f' && r.match_str_term(&vec!['f', 'a', 'l', 's', 'e']) {
            r.skip_chars(5);
            let p2 = r.position();
            Ok(Token::new(Terminal::False, p1, p2))
        } else if is_ident_start(c) {
            r.next_char();
            proof { lemma_ident_end_bounds(s, at + 1); }
            r.skip_ident_chars();
            let p2 = r.position();
            Ok(Token::new(Terminal::Id, p1, p2))
        } else if c == '\'' || c == '"' {
            r.next_char();
            let ghost outcome = lex_step(s, old(r).cursor(), num, self@.partial);
            assert(outcome == match string_close(s, at + 1, c) {
                Some(e) => (Ok(span_token(s, Terminal::String, at, e + 1)), e + 1),
                None => (
                    Err(ParseErrorDetail::InvalidInputOne { pos: position_at(s, s.len()), quote: c }),
                    s.len(),
                ),
            });
            loop
                invariant
                    r.text() == s,
                    s == old(r).text(),
                    outcome == lex_step(s, old(r).cursor(), num, self@.partial),
                    outcome == match string_close(s, at + 1, c) {
                        Some(e) => (Ok(span_token(s, Terminal::String, at, e + 1)), e + 1),
                        None => (
                            Err(ParseErrorDetail::InvalidInputOne { pos: position_at(s, s.len()), quote: c }),
                            s.len(),
                        ),
                    },
                    at + 1 <= r.cursor() <= s.len(),
                    string_close(s, r.cursor(), c) == string_close(s, at + 1, c),
                    p1 == position_at(s, at),
                decreases s.len() - r.cursor(),
            {
                let ghost j = r.cursor();
                match r.next_char() {
                    None => {
                        let pe = r.position();
                        return Err(ParseErrorDetail::InvalidInputOne { pos: pe, quote: c });
                    },
                    Some(k) => {
                        if k == '\\' {
                            match r.next_char() {
                                None => {
                                    let pe = r.position();
                                    return Err(ParseErrorDetail::InvalidInputOne { pos: pe, quote: c });
                                },
                                Some(_) => {},
                            }
                        } else if k == c {
                            let p2 = r.position();
                            return Ok(Token::new(Terminal::String, p1, p2));
                        }
                    },
                }
            }
        } else if self.partial {
            Ok(Token::new(Terminal::End, p1, p1))
        } else {
            Err(ParseErrorDetail::InvalidInput { pos: p1, found: c })
        }
    }
    /// Turns partial mode on or off.
    pub fn set_partial(&mut self, partial: bool)
        ensures
            final(self)@ == (ParserState { partial, ..old(self)@ }),
    {
        self.partial = partial;
    }

    pub fn is_partial(&self) -> (r: bool)
        ensures
            r == self@.partial,
    {
        self.partial
    }

    /// The sign policies that a number recognizer serving this parser follows.
    pub fn number_config(&self) -> (r: NumberConfig)
        ensures
            r == self@.number_config,
    {
        self.num_config
    }

    /// The end of the token that was read last.
    pub fn next_pos(&self) -> (r: Position)
        ensures
            r == self@.next_pos,
    {
        self.next_pos
    }

    /// Where the stream stood before the token that was lexed last.
    pub fn prev_pos(&self) -> (r: Position)
        ensures
            r == self@.prev_pos,
    {
        self.prev_pos
    }

    /// Whether a token is pending, so that the next call of `next_token` does
    /// not read the source.
    pub fn has_pending(&self) -> (r: bool)
        ensures
            r == (self@.queue.len() > 0),
    {
        self.token_queue.len() > 0
    }

    /// Takes the first pending token, or else lexes one from `r`. `num` is
    /// what a number recognizer found at the first non-whitespace character
    /// of `r`; it is not looked at while a token is pending.
    pub fn next_token(&mut self, r: &mut CharSource, num: Option<NumberScan>) -> (res: Result<Token, ParseErrorDetail>)
        requires
            can_step(old(self)@, old(r).text(), old(r).cursor(), num),
        ensures
            final(r).text() == old(r).text(),
            (res, final(self)@, final(r).cursor()) == next_step(old(self)@, old(r).text(), old(r).cursor(), num),
    {
        match self.token_queue.pop_front() {
            Some(t) => {
                self.next_pos = t.to;
                Ok(t)
            },
            None => {
                let t = self.lex(r, num)?;
                self.prev_pos = self.next_pos;
                self.next_pos = t.to;
                Ok(t)
            },
        }
    }

    /// Hands `t` back: the next call of `next_token` returns it, and the
    /// stream stands again where it stood before the last lexed token.
    pub fn push_token(&mut self, t: Token)
        ensures
            final(self)@ == pushed(old(self)@, t),
    {
        self.next_pos = self.prev_pos;
        self.token_queue.push_front(t);
    }

    /// Takes the next token and fails unless it is of kind `term`.
    pub fn expect_token(&mut self, r: &mut CharSource, term: Terminal, num: Option<NumberScan>) -> (res: Result<Token, ParseErrorDetail>)
        requires
            can_step(old(self)@, old(r).text(), old(r).cursor(), num),
        ensures
            final(r).text() == old(r).text(),
            final(self)@ == next_step(old(self)@, old(r).text(), old(r).cursor(), num).1,
            final(r).cursor() == next_step(old(self)@, old(r).text(), old(r).cursor(), num).2,
            res == expect_one(next_step(old(self)@, old(r).text(), old(r).cursor(), num).0, term),
    {
        let t = self.next_token(r, num)?;
        if t.term() == term {
            Ok(t)
        } else {
            Err(ParseErrorDetail::UnexpectedTokenOne { token: t, expected: term })
        }
    }

    /// Takes the next token and fails unless its kind is one of `terms`; the
    /// error lists `terms`.
    pub fn expect_token_many(&mut self, r: &mut CharSource, terms: &[Terminal], num: Option<NumberScan>) -> (res: Result<Token, ParseErrorDetail>)
        requires
            can_step(old(self)@, old(r).text(), old(r).cursor(), num),
        ensures
            final(r).text() == old(r).text(),
            final(self)@ == next_step(old(self)@, old(r).text(), old(r).cursor(), num).1,
            final(r).cursor() == next_step(old(self)@, old(r).text(), old(r).cursor(), num).2,
            match next_step(old(self)@, old(r).text(), old(r).cursor(), num).0 {
                Ok(t) => if terms@.contains(t.kind) {
                    res == Ok::<Token, ParseErrorDetail>(t)
                } else {
                    match res {
                        Err(ParseErrorDetail::UnexpectedTokenMany { token, expected_set }) => token == t && expected_set@ == terms@,
                        _ => false,
                    }
                },
                Err(e) => res == Err::<Token, ParseErrorDetail>(e),
            },
    {
        let t = self.next_token(r, num)?;
        if contains_kind(terms, t.kind) {
            return Ok(t);
        }
        Err(ParseErrorDetail::UnexpectedTokenMany { token: t, expected_set: vstd::slice::slice_to_vec(terms) })
    }

    /// Parses one expression from `r` with `g`, which sees a stream with
    /// nothing pending whose last token ends at the cursor. In partial mode a
    /// success leaves `r` at the end of the last token taken, and a failure
    /// leaves it where it was. What the grammar gives is settled by `finish`.
    pub fn parse<G: Grammar>(&mut self, r: &mut CharSource, g: &mut G) -> (res: Result<G::Output, ParseErrorDetail>)
        ensures
            final(self)@.partial && res is Ok ==> final(r).cursor() == vstd::math::min(
                final(self)@.next_pos.offset as int,
                final(r).text().len() as int,
            ),
            final(self)@.partial && res is Err ==> final(r).cursor() == vstd::math::min(
                old(r).cursor() as int,
                final(r).text().len() as int,
            ),
            final(self)@.partial && res is Err && final(r).text() == old(r).text() ==> final(r).cursor()
                == old(r).cursor(),
    {
        let p = r.position();
        self.token_queue.clear();
        self.next_pos = p;
        let e = g.parse_expr(self, r);
        self.finish(r, p, e)
    }

    /// Settles a parse that began at `start` and whose grammar gave `e`: the
    /// result is `e` itself. Outside partial mode `r` stays where it is; in
    /// partial mode a success commits `r` up to the end of the last token
    /// taken, `next_pos`, and a failure takes it back to `start`.
    pub fn finish<T>(&self, r: &mut CharSource, start: Position, e: Result<T, ParseErrorDetail>) -> (res: Result<
        T,
        ParseErrorDetail,
    >)
        ensures
            res == e,
            final(r).text() == old(r).text(),
            !self@.partial ==> final(r).cursor() == old(r).cursor(),
            self@.partial && e is Ok ==> final(r).cursor() == vstd::math::min(
                self@.next_pos.offset as int,
                old(r).text().len() as int,
            ),
            self@.partial && e is Err ==> final(r).cursor() == vstd::math::min(
                start.offset as int,
                old(r).text().len() as int,
            ),
    {
        if self.partial {
            match e {
                Ok(_) => r.seek(self.next_pos),
                Err(_) => r.seek(start),
            }
        }
        e
    }
}

} // verus!

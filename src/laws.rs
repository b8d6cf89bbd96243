//! Laws of the lexer and the token stream.
use vstd::prelude::*;

use crate::chars::whitespace_class;
use crate::error::ParseErrorDetail;
use crate::parser::{
    after_lex, lex_at, lex_step, next_step, pushed, scan_fits, span_token, string_close, ParserState,
};
use crate::position::position_at;
use crate::source::{lemma_ident_end_bounds, lemma_ws_end_bounds, ws_end};
use crate::token::{notation_terminal, NumberScan, Terminal, Token};

verus! {

proof fn lemma_string_close_bounds(s: Seq<char>, i: nat, q: char)
    ensures
        string_close(s, i, q) matches Some(e) ==> i <= e < s.len(),
    decreases s.len() - i,
{
    if i < s.len() {
        if s[i as int] == '\\' {
            if i + 1 < s.len() {
                lemma_string_close_bounds(s, i + 2, q);
            }
        } else if s[i as int] != q {
            lemma_string_close_bounds(s, i + 1, q);
        }
    }
}

/// Where the token that `lex_at` gives starts and ends: it starts at `at`,
/// ends where the cursor is left, within the input; only the end token is
/// empty, and outside partial mode it stands at the end of the input.
proof fn lemma_lex_at_span(s: Seq<char>, at: nat, num: Option<NumberScan>, partial: bool)
    requires
        at <= s.len(),
        num matches Some(n) ==> n.len > 0 && at + n.len <= s.len(),
    ensures
        lex_at(s, at, num, partial).1 <= s.len(),
        lex_at(s, at, num, partial).0 matches Ok(t) ==> {
            &&& t == span_token(s, t.kind, at, lex_at(s, at, num, partial).1)
            &&& at <= lex_at(s, at, num, partial).1
            &&& t.kind != Terminal::End ==> at < lex_at(s, at, num, partial).1
            &&& t.kind == Terminal::End ==> lex_at(s, at, num, partial).1 == at
            &&& t.kind == Terminal::End && !partial ==> at == s.len()
        },
{
    if num is None && at < s.len() {
        lemma_ident_end_bounds(s, at + 1);
        lemma_string_close_bounds(s, at + 1, s[at as int]);
    }
}

/// One lexing step from `cursor`: the token starts after the whitespace that
/// follows `cursor`, ends where the cursor is left, and is empty only if it is
/// the end token, which outside partial mode stands at the end of the input.
pub proof fn lemma_lex_step_span(s: Seq<char>, cursor: nat, num: Option<NumberScan>, partial: bool)
    requires
        cursor <= s.len(),
        scan_fits(s, cursor, num),
    ensures
        cursor <= ws_end(s, cursor) <= lex_step(s, cursor, num, partial).1 <= s.len(),
        forall|k: nat| cursor <= k < ws_end(s, cursor) ==> whitespace_class(#[trigger] s[k as int]),
        lex_step(s, cursor, num, partial).0 matches Ok(t) ==> {
            &&& t.from == position_at(s, ws_end(s, cursor))
            &&& t.to == position_at(s, lex_step(s, cursor, num, partial).1)
            &&& t.kind != Terminal::End ==> ws_end(s, cursor) < lex_step(s, cursor, num, partial).1
            &&& t.kind == Terminal::End ==> lex_step(s, cursor, num, partial).1 == ws_end(s, cursor)
            &&& t.kind == Terminal::End && !partial ==> lex_step(s, cursor, num, partial).1 == s.len()
        },
{
    lemma_ws_end_bounds(s, cursor);
    lemma_lex_at_span(s, ws_end(s, cursor), num, partial);
}

/// The tokens read from `cursor` on, up to and including the end token, where
/// `nums(i)` is the number literal found at index `i`, if any. The run stops
/// early at an error, or where a number literal does not fit the input.
pub open spec fn token_run(
    s: Seq<char>,
    cursor: nat,
    nums: spec_fn(nat) -> Option<NumberScan>,
    partial: bool,
) -> Seq<Token>
    decreases s.len() - cursor,
    via token_run_decreases
{
    if cursor > s.len() || !scan_fits(s, cursor, nums(ws_end(s, cursor))) {
        seq![]
    } else {
        let step = lex_step(s, cursor, nums(ws_end(s, cursor)), partial);
        match step.0 {
            Ok(t) => if t.kind == Terminal::End {
                seq![t]
            } else {
                seq![t] + token_run(s, step.1, nums, partial)
            },
            Err(_) => seq![],
        }
    }
}

#[via_fn]
proof fn token_run_decreases(
    s: Seq<char>,
    cursor: nat,
    nums: spec_fn(nat) -> Option<NumberScan>,
    partial: bool,
) {
    if cursor <= s.len() && scan_fits(s, cursor, nums(ws_end(s, cursor))) {
        lemma_lex_step_span(s, cursor, nums(ws_end(s, cursor)), partial);
    }
}

/// The shape of a run of tokens read from `cursor`: spans within the input,
/// each token starting past the whitespace after the one before it, only the
/// last one the end token, and a final end token outside partial mode at the
/// end of the input.
pub open spec fn run_shape(s: Seq<char>, cursor: nat, run: Seq<Token>, partial: bool) -> bool {
    &&& run.len() <= s.len() - cursor + 1
    &&& forall|i: int|
        0 <= i < run.len() ==> {
            let t = #[trigger] run[i];
            cursor <= t.from.offset <= t.to.offset <= s.len()
        }
    &&& forall|i: int|
        0 <= i < run.len() - 1 ==> {
            let t = #[trigger] run[i];
            &&& t.kind != Terminal::End
            &&& t.from.offset < t.to.offset
        }
    &&& forall|i: int, j: int|
        #![trigger run[i], run[j]]
        0 <= i && j == i + 1 && j < run.len() ==> run[j].from.offset == ws_end(s, run[i].to.offset as nat)
    &&& run.len() > 0 ==> run[0].from.offset == ws_end(s, cursor)
    &&& run.len() > 0 && run.last().kind == Terminal::End && !partial ==> run.last().to.offset == s.len()
}

proof fn lemma_run_shape_cons(s: Seq<char>, cursor: nat, t: Token, c: nat, rest: Seq<Token>, partial: bool)
    requires
        cursor <= t.from.offset < t.to.offset,
        t.to.offset == c,
        c <= s.len(),
        t.from.offset == ws_end(s, cursor),
        t.kind != Terminal::End,
        run_shape(s, c, rest, partial),
    ensures
        run_shape(s, cursor, seq![t] + rest, partial),
{
    let run = seq![t] + rest;
    assert forall|i: int| 0 <= i < run.len() implies {
        let u = #[trigger] run[i];
        cursor <= u.from.offset <= u.to.offset <= s.len()
    } by {
        if i > 0 {
            assert(run[i] == rest[i - 1]);
        }
    }
    assert forall|i: int| 0 <= i < run.len() - 1 implies {
        let u = #[trigger] run[i];
        &&& u.kind != Terminal::End
        &&& u.from.offset < u.to.offset
    } by {
        if i > 0 {
            assert(run[i] == rest[i - 1]);
        }
    }
    assert forall|i: int, j: int|
        #![trigger run[i], run[j]]
        0 <= i && j == i + 1 && j < run.len() implies run[j].from.offset == ws_end(
        s,
        run[i].to.offset as nat,
    ) by {
        assert(run[j] == rest[j - 1]);
        if i > 0 {
            assert(run[i] == rest[i - 1]);
        }
    }
    if rest.len() > 0 {
        assert(run.last() == rest.last());
    }
}

/// Reading tokens until the end token gives finitely many, at most one per
/// character and one more. Each starts past the whitespace after the one
/// before it; none but the last is the end token; the first starts past the
/// whitespace at `cursor`; and outside partial mode a final end token stands
/// at the end of the input, so the tokens and the whitespace between them
/// make up the whole input.
pub proof fn lemma_token_run(s: Seq<char>, cursor: nat, nums: spec_fn(nat) -> Option<NumberScan>, partial: bool)
    requires
        cursor <= s.len(),
        s.len() <= usize::MAX,
    ensures
        run_shape(s, cursor, token_run(s, cursor, nums, partial), partial),
    decreases s.len() - cursor,
{
    if scan_fits(s, cursor, nums(ws_end(s, cursor))) {
        let num = nums(ws_end(s, cursor));
        let step = lex_step(s, cursor, num, partial);
        lemma_lex_step_span(s, cursor, num, partial);
        if let Ok(t) = step.0 {
            if t.kind != Terminal::End {
                lemma_token_run(s, step.1, nums, partial);
                lemma_run_shape_cons(s, cursor, t, step.1, token_run(s, step.1, nums, partial), partial);
            }
        }
    }
}

/// Pushing back a token and asking for the next one gives that token again.
/// Where the token was just lexed, the stream stands, while it is pending,
/// where it stood before the token was lexed, and once it is taken again,
/// exactly as right after it was first lexed.
pub proof fn lemma_pushback_replays(
    p: ParserState,
    t: Token,
    s: Seq<char>,
    cursor: nat,
    num: Option<NumberScan>,
)
    ensures
        next_step(pushed(p, t), s, cursor, num).0 == Ok::<Token, ParseErrorDetail>(t),
        next_step(pushed(p, t), s, cursor, num).1.next_pos == t.to,
        next_step(pushed(p, t), s, cursor, num).1.queue == p.queue,
        next_step(pushed(p, t), s, cursor, num).2 == cursor,
        p.queue.len() == 0 && next_step(p, s, cursor, num).0 == Ok::<Token, ParseErrorDetail>(t) ==> {
            let q = next_step(p, s, cursor, num).1;
            &&& q == after_lex(p, t)
            &&& pushed(q, t).next_pos == p.next_pos
            &&& next_step(pushed(q, t), s, cursor, num).1 == q
        },
{
    assert((seq![t] + p.queue).drop_first() =~= p.queue);
}

/// A number literal found at the first non-whitespace character always makes
/// one token, of the kind its notation maps to, spanning exactly the literal.
pub proof fn lemma_number_dispatch(s: Seq<char>, cursor: nat, n: NumberScan, partial: bool)
    requires
        scan_fits(s, cursor, Some(n)),
    ensures
        lex_step(s, cursor, Some(n), partial) == (
            Ok::<Token, ParseErrorDetail>(
                span_token(s, notation_terminal(n.notation), ws_end(s, cursor), (ws_end(s, cursor) + n.len) as nat),
            ),
            (ws_end(s, cursor) + n.len) as nat,
        ),
{
}

/// Whenever a token comes out of the stream, the stream's position is the end
/// of that token, whether it was pending or lexed afresh.
pub proof fn lemma_next_pos_is_token_end(p: ParserState, s: Seq<char>, cursor: nat, num: Option<NumberScan>)
    ensures
        next_step(p, s, cursor, num).0 matches Ok(t) ==> next_step(p, s, cursor, num).1.next_pos == t.to,
        next_step(p, s, cursor, num).0 is Err ==> next_step(p, s, cursor, num).1 == p,
{
}

/// Asking the stream for tokens with nothing pending walks the run of
/// tokens: the first answer is the run's first token, the queue stays empty,
/// and unless that token is the end token the rest of the run is read from
/// where the cursor was left. An error ends the run. So repeated calls of
/// `next_token` give the tokens of `token_run`, in order, and inherit what
/// `lemma_token_run` states of them.
pub proof fn lemma_next_step_walks_run(
    p: ParserState,
    s: Seq<char>,
    cursor: nat,
    nums: spec_fn(nat) -> Option<NumberScan>,
)
    requires
        p.queue.len() == 0,
        cursor <= s.len(),
        scan_fits(s, cursor, nums(ws_end(s, cursor))),
    ensures
        next_step(p, s, cursor, nums(ws_end(s, cursor))).1.queue.len() == 0,
        next_step(p, s, cursor, nums(ws_end(s, cursor))).1.partial == p.partial,
        next_step(p, s, cursor, nums(ws_end(s, cursor))).0 matches Ok(t) ==> token_run(s, cursor, nums, p.partial)
            == if t.kind == Terminal::End {
            seq![t]
        } else {
            seq![t] + token_run(s, next_step(p, s, cursor, nums(ws_end(s, cursor))).2, nums, p.partial)
        },
        next_step(p, s, cursor, nums(ws_end(s, cursor))).0 is Err ==> token_run(s, cursor, nums, p.partial) =~= seq![],
{
}

} // verus!

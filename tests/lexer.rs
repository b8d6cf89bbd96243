use opath_lex::chars::{is_ident_char, is_ident_start, is_space};
use opath_lex::{CharSource, Grammar, Notation, NumberScan, ParseErrorDetail, Parser, Position, Terminal, Token};

fn source(s: &str) -> CharSource {
    CharSource::new(s.chars().collect())
}

fn pos(offset: usize, line: usize, column: usize) -> Position {
    Position { offset, line, column }
}

fn tok(kind: Terminal, from: usize, to: usize) -> Token {
    Token { kind, from: pos(from, 0, from), to: pos(to, 0, to) }
}

fn all_tokens(s: &str, partial: bool) -> Result<Vec<Token>, ParseErrorDetail> {
    let mut r = source(s);
    let mut p = Parser::new();
    p.set_partial(partial);
    let mut out = Vec::new();
    loop {
        let t = p.next_token(&mut r, None)?;
        out.push(t);
        if t.kind == Terminal::End {
            return Ok(out);
        }
    }
}

#[test]
fn null_alone_is_reserved_word() {
    let ts = all_tokens("null", false).unwrap();
    assert_eq!(ts, vec![tok(Terminal::Null, 0, 4), tok(Terminal::End, 4, 4)]);
}

#[test]
fn null_prefix_is_identifier() {
    let ts = all_tokens("nullable", false).unwrap();
    assert_eq!(ts, vec![tok(Terminal::Id, 0, 8), tok(Terminal::End, 8, 8)]);
}

#[test]
fn null_followed_by_space() {
    let ts = all_tokens("null ", false).unwrap();
    assert_eq!(ts, vec![tok(Terminal::Null, 0, 4), tok(Terminal::End, 5, 5)]);
}

#[test]
fn true_and_false_words() {
    let ts = all_tokens("true false truex f", false).unwrap();
    let kinds: Vec<Terminal> = ts.iter().map(|t| t.kind).collect();
    assert_eq!(kinds, vec![Terminal::True, Terminal::False, Terminal::Id, Terminal::Id, Terminal::End]);
    assert_eq!(ts[1], tok(Terminal::False, 5, 10));
}

#[test]
fn string_with_escaped_quote() {
    let input = "'it\\'s'";
    let n = input.chars().count();
    let ts = all_tokens(input, false).unwrap();
    assert_eq!(ts, vec![tok(Terminal::String, 0, n), tok(Terminal::End, n, n)]);
}

#[test]
fn double_quoted_string() {
    let ts = all_tokens("\"a'b\" x", false).unwrap();
    assert_eq!(ts[0], tok(Terminal::String, 0, 5));
    assert_eq!(ts[1], tok(Terminal::Id, 6, 7));
}

#[test]
fn unterminated_string_fails() {
    let e = all_tokens("'unterminated", false).unwrap_err();
    assert_eq!(e, ParseErrorDetail::InvalidInputOne { pos: pos(13, 0, 13), quote: '\'' });
    assert_eq!(e.code(), 602);
}

#[test]
fn string_ending_in_backslash_fails() {
    let e = all_tokens("\"ab\\", false).unwrap_err();
    assert_eq!(e, ParseErrorDetail::InvalidInputOne { pos: pos(4, 0, 4), quote: '"' });
}

fn lex_number(s: &str, notation: Notation) -> Token {
    let mut r = source(s);
    let mut p = Parser::new();
    let n = NumberScan { notation, len: s.chars().count() };
    p.next_token(&mut r, Some(n)).unwrap()
}

#[test]
fn number_notations_map_to_kinds() {
    assert_eq!(lex_number("0x1F", Notation::Hex), tok(Terminal::IntHex, 0, 4));
    assert_eq!(lex_number("0b101", Notation::Binary), tok(Terminal::IntBinary, 0, 5));
    assert_eq!(lex_number("3.14", Notation::Float), tok(Terminal::Float, 0, 4));
    assert_eq!(lex_number("42", Notation::Decimal), tok(Terminal::IntDecimal, 0, 2));
    assert_eq!(lex_number("0o17", Notation::Octal), tok(Terminal::IntOctal, 0, 4));
    assert_eq!(lex_number("1e5", Notation::Exponent), tok(Terminal::Float, 0, 3));
}

#[test]
fn number_after_whitespace() {
    let mut r = source("  42,");
    let mut p = Parser::new();
    r.skip_whitespace();
    let t = p.next_token(&mut r, Some(NumberScan { notation: Notation::Decimal, len: 2 })).unwrap();
    assert_eq!(t, tok(Terminal::IntDecimal, 2, 4));
    assert_eq!(p.next_token(&mut r, None).unwrap(), tok(Terminal::Comma, 4, 5));
}

#[test]
fn number_recognizer_takes_no_sign() {
    let c = Parser::new().number_config();
    assert!(!c.decimal.allow_plus && !c.decimal.allow_minus);
    assert!(!c.hex.allow_plus && !c.hex.allow_minus);
    assert!(!c.octal.allow_plus && !c.octal.allow_minus);
    assert!(!c.binary.allow_plus && !c.binary.allow_minus);
}

#[test]
fn punctuation_tokens() {
    let ts = all_tokens(",;()[]{}", false).unwrap();
    let kinds: Vec<Terminal> = ts.iter().map(|t| t.kind).collect();
    assert_eq!(
        kinds,
        vec![
            Terminal::Comma,
            Terminal::Semicolon,
            Terminal::ParenLeft,
            Terminal::ParenRight,
            Terminal::BracketLeft,
            Terminal::BracketRight,
            Terminal::BraceLeft,
            Terminal::BraceRight,
            Terminal::End,
        ]
    );
    assert_eq!(ts[3], tok(Terminal::ParenRight, 3, 4));
}

#[test]
fn invalid_character_fails_outside_partial_mode() {
    let e = all_tokens("a #", false).unwrap_err();
    assert_eq!(e, ParseErrorDetail::InvalidInput { pos: pos(2, 0, 2), found: '#' });
    assert_eq!(e.code(), 601);
}

#[test]
fn invalid_character_ends_stream_in_partial_mode() {
    let ts = all_tokens("foo[#", true).unwrap();
    assert_eq!(ts, vec![tok(Terminal::Id, 0, 3), tok(Terminal::BracketLeft, 3, 4), tok(Terminal::End, 4, 4)]);
}

#[test]
fn unicode_letters_and_spaces() {
    let ts = all_tokens("\u{3000}\u{e9}t\u{e9} _x1", false).unwrap();
    assert_eq!(ts[0], tok(Terminal::Id, 1, 4));
    assert_eq!(ts[1], tok(Terminal::Id, 5, 8));
    assert_eq!(ts[2], tok(Terminal::End, 8, 8));
}

#[test]
fn lines_and_columns() {
    let ts = all_tokens("a\n  b", false).unwrap();
    assert_eq!(ts[1], Token { kind: Terminal::Id, from: pos(4, 1, 2), to: pos(5, 1, 3) });
}

#[test]
fn token_spans_cover_input() {
    let s = " a, (b)\t'x y' null;x ";
    let ts = all_tokens(s, false).unwrap();
    let chars: Vec<char> = s.chars().collect();
    let mut at = 0usize;
    for t in &ts {
        assert!(at <= t.from.offset);
        for k in at..t.from.offset {
            assert!(chars[k].is_whitespace());
        }
        assert!(t.from.offset <= t.to.offset);
        at = t.to.offset;
    }
    assert_eq!(ts.last().unwrap().kind, Terminal::End);
    assert_eq!(ts.last().unwrap().to.offset, chars.len());
    assert_eq!(ts.len(), 10);
}

#[test]
fn pushback_replays_token() {
    let mut r = source("a b");
    let mut p = Parser::new();
    let first = p.next_token(&mut r, None).unwrap();
    let before = p.next_pos();
    let t = p.next_token(&mut r, None).unwrap();
    assert_eq!(t, tok(Terminal::Id, 2, 3));
    assert_eq!(p.next_pos(), pos(3, 0, 3));
    p.push_token(t);
    assert_eq!(p.next_pos(), before);
    assert_eq!(before, first.to);
    let again = p.next_token(&mut r, None).unwrap();
    assert_eq!(again, t);
    assert_eq!(p.next_pos(), pos(3, 0, 3));
    assert_eq!(p.next_token(&mut r, None).unwrap(), tok(Terminal::End, 3, 3));
}

#[test]
fn expect_token_matches_kind() {
    let mut r = source("x ,");
    let mut p = Parser::new();
    assert_eq!(p.expect_token(&mut r, Terminal::Id, None).unwrap(), tok(Terminal::Id, 0, 1));
    let e = p.expect_token(&mut r, Terminal::Semicolon, None).unwrap_err();
    assert_eq!(e, ParseErrorDetail::UnexpectedTokenOne { token: tok(Terminal::Comma, 2, 3), expected: Terminal::Semicolon });
    assert_eq!(e.code(), 603);
}

#[test]
fn expect_token_many_lists_expected_kinds() {
    let mut r = source("x y");
    let mut p = Parser::new();
    let t = p.expect_token_many(&mut r, &[Terminal::Comma, Terminal::Id], None).unwrap();
    assert_eq!(t, tok(Terminal::Id, 0, 1));
    let terms = [Terminal::Comma, Terminal::Semicolon];
    let e = p.expect_token_many(&mut r, &terms, None).unwrap_err();
    assert_eq!(e, ParseErrorDetail::UnexpectedTokenMany { token: tok(Terminal::Id, 2, 3), expected_set: terms.to_vec() });
    assert_eq!(e.code(), 604);
}

#[test]
fn expect_token_many_with_no_kinds_fails() {
    let mut r = source("x");
    let mut p = Parser::new();
    let e = p.expect_token_many(&mut r, &[], None).unwrap_err();
    assert_eq!(e, ParseErrorDetail::UnexpectedTokenMany { token: tok(Terminal::Id, 0, 1), expected_set: vec![] });
}

#[test]
fn terminal_texts() {
    assert_eq!(Terminal::End.text(), "END");
    assert_eq!(Terminal::Comma.text(), "','");
    assert_eq!(Terminal::Id.text(), "ID");
    assert_eq!(Terminal::BraceLeft.text(), "'{'");
    assert_eq!(Terminal::BraceRight.text(), "'}'");
    assert_eq!(Terminal::IntHex.text(), "hex integer literal");
    assert_eq!(Terminal::Null.text(), "'null'");
}

/// Reads an identifier followed by `[`, then one more token that must be
/// `]`, or, with `lenient`, anything.
struct IndexGrammar {
    lenient: bool,
}

impl Grammar for IndexGrammar {
    type Output = Token;

    fn parse_expr(&mut self, p: &mut Parser, r: &mut CharSource) -> Result<Token, ParseErrorDetail> {
        let id = p.expect_token(r, Terminal::Id, None)?;
        p.expect_token(r, Terminal::BracketLeft, None)?;
        if self.lenient {
            p.next_token(r, None)?;
        } else {
            p.expect_token(r, Terminal::BracketRight, None)?;
        }
        Ok(id)
    }
}

#[test]
fn partial_parse_success_commits_to_last_token() {
    let mut r = source("foo[ #");
    let mut p = Parser::new();
    p.set_partial(true);
    let mut g = IndexGrammar { lenient: true };
    let id = p.parse(&mut r, &mut g).unwrap();
    assert_eq!(id, tok(Terminal::Id, 0, 3));
    assert_eq!(r.position(), pos(5, 0, 5));
}

#[test]
fn partial_parse_failure_rolls_back() {
    let mut r = source("  foo[ #");
    r.skip_chars(2);
    let mut p = Parser::new();
    p.set_partial(true);
    let mut g = IndexGrammar { lenient: false };
    let e = p.parse(&mut r, &mut g).unwrap_err();
    assert_eq!(e, ParseErrorDetail::UnexpectedTokenOne { token: tok(Terminal::End, 7, 7), expected: Terminal::BracketRight });
    assert_eq!(r.position(), pos(2, 0, 2));
}

#[test]
fn parse_outside_partial_mode_does_not_seek() {
    let mut r = source("foo[ #");
    let mut p = Parser::new();
    let mut g = IndexGrammar { lenient: false };
    let e = p.parse(&mut r, &mut g).unwrap_err();
    assert_eq!(e, ParseErrorDetail::InvalidInput { pos: pos(5, 0, 5), found: '#' });
    assert_eq!(r.position(), pos(5, 0, 5));
}

#[test]
fn seek_recounts_lines() {
    let mut r = source("a\nbc");
    r.skip_chars(4);
    assert!(r.eof());
    r.seek(pos(3, 0, 0));
    assert_eq!(r.position(), pos(3, 1, 1));
    r.seek(pos(99, 0, 0));
    assert_eq!(r.position(), pos(4, 1, 2));
}

#[test]
fn word_match_needs_boundary() {
    let r = source("null_x");
    assert!(!r.match_str_term(&vec!['n', 'u', 'l', 'l']));
    let r = source("null)");
    assert!(r.match_str_term(&vec!['n', 'u', 'l', 'l']));
}

#[test]
fn parse_drops_stale_pending_token() {
    let mut r = source("foo[]");
    let mut p = Parser::new();
    p.push_token(tok(Terminal::Comma, 9, 10));
    let mut g = IndexGrammar { lenient: false };
    let id = p.parse(&mut r, &mut g).unwrap();
    assert_eq!(id, tok(Terminal::Id, 0, 3));
    assert_eq!(p.next_pos(), pos(5, 0, 5));
}

#[test]
fn finish_hands_result_back() {
    let mut r = source("ab cd");
    r.skip_chars(4);
    let mut p = Parser::new();
    let e: Result<u8, ParseErrorDetail> = Err(ParseErrorDetail::InvalidInput { pos: pos(1, 0, 1), found: 'x' });
    assert_eq!(p.finish(&mut r, pos(1, 0, 1), e.clone()), e);
    assert_eq!(r.position(), pos(4, 0, 4));
    p.set_partial(true);
    assert_eq!(p.finish(&mut r, pos(1, 0, 1), e.clone()), e);
    assert_eq!(r.position(), pos(1, 0, 1));
    let t = p.next_token(&mut r, None).unwrap();
    assert_eq!(t, tok(Terminal::Id, 1, 2));
    r.skip_chars(3);
    assert_eq!(p.finish(&mut r, pos(0, 0, 0), Ok::<u8, ParseErrorDetail>(7)), Ok(7));
    assert_eq!(r.position(), pos(2, 0, 2));
}

#[test]
fn pending_token_is_reported() {
    let mut r = source("a");
    let mut p = Parser::new();
    assert!(!p.has_pending());
    let t = p.next_token(&mut r, None).unwrap();
    p.push_token(t);
    assert!(p.has_pending());
    p.next_token(&mut r, None).unwrap();
    assert!(!p.has_pending());
}

#[test]
fn character_classes() {
    assert!(is_space(' ') && is_space('\t') && is_space('\u{3000}'));
    assert!(!is_space('a') && !is_space(','));
    assert!(is_ident_start('x') && is_ident_start('_') && is_ident_start('\u{e9}'));
    assert!(!is_ident_start('1') && !is_ident_start('\''));
    assert!(is_ident_char('1') && is_ident_char('_') && !is_ident_char('-'));
}

//! Token kinds, tokens, and the notations a number literal may carry.
use vstd::prelude::*;

use crate::position::Position;

verus! {

/// The lexical categories of the expression language.
#[derive(Debug, Clone, Copy, PartialEq, Eq, Structural)]
pub enum Terminal {
    End,
    Comma,
    Semicolon,
    ParenLeft,
    ParenRight,
    BracketLeft,
    BracketRight,
    BraceLeft,
    BraceRight,
    KwMod,
    KwFn,
    KwLet,
    KwIf,
    KwElse,
    KwFor,
    Id,
    String,
    IntDecimal,
    IntHex,
    IntOctal,
    IntBinary,
    Float,
    True,
    False,
    Null,
}

/// The text that diagnostics print for each kind.
pub open spec fn terminal_text(t: Terminal) -> Seq<char> {
    match t {
        Terminal::End => "END"@,
        Terminal::Comma => "','"@,
        Terminal::Semicolon => "';'"@,
        Terminal::ParenLeft => "'('"@,
        Terminal::ParenRight => "')'"@,
        Terminal::BracketLeft => "'['"@,
        Terminal::BracketRight => "']'"@,
        Terminal::BraceLeft => "'{'"@,
        Terminal::BraceRight => "'}'"@,
        Terminal::KwMod => "'mod'"@,
        Terminal::KwFn => "'fn'"@,
        Terminal::KwLet => "'let'"@,
        Terminal::KwIf => "'if'"@,
        Terminal::KwElse => "'else'"@,
        Terminal::KwFor => "'for'"@,
        Terminal::Id => "ID"@,
        Terminal::String => "string literal"@,
        Terminal::IntDecimal => "integer literal"@,
        Terminal::IntHex => "hex integer literal"@,
        Terminal::IntOctal => "octal integer literal"@,
        Terminal::IntBinary => "binary integer literal"@,
        Terminal::Float => "float literal"@,
        Terminal::True => "'true'"@,
        Terminal::False => "'false'"@,
        Terminal::Null => "'null'"@,
    }
}

impl Terminal {
    /// The text that diagnostics print for this kind.
    pub fn text(&self) -> (r: &'static str)
        ensures
            r@ == terminal_text(*self),
    {
        match self {
            Terminal::End => "END",
            Terminal::Comma => "','",
            Terminal::Semicolon => "';'",
            Terminal::ParenLeft => "'('",
            Terminal::ParenRight => "')'",
            Terminal::BracketLeft => "'['",
            Terminal::BracketRight => "']'",
            Terminal::BraceLeft => "'{'",
            Terminal::BraceRight => "'}'",
            Terminal::KwMod => "'mod'",
            Terminal::KwFn => "'fn'",
            Terminal::KwLet => "'let'",
            Terminal::KwIf => "'if'",
            Terminal::KwElse => "'else'",
            Terminal::KwFor => "'for'",
            Terminal::Id => "ID",
            Terminal::String => "string literal",
            Terminal::IntDecimal => "integer literal",
            Terminal::IntHex => "hex integer literal",
            Terminal::IntOctal => "octal integer literal",
            Terminal::IntBinary => "binary integer literal",
            Terminal::Float => "float literal",
            Terminal::True => "'true'",
            Terminal::False => "'false'",
            Terminal::Null => "'null'",
        }
    }
}

/// An occurrence of a kind, over the half-open span `[from, to)`.
#[derive(Debug, Clone, Copy, PartialEq, Eq, Structural)]
pub struct Token {
    pub kind: Terminal,
    pub from: Position,
    pub to: Position,
}

impl Token {
    pub fn new(kind: Terminal, from: Position, to: Position) -> (r: Token)
        ensures
            r == (Token { kind, from, to }),
    {
        Token { kind, from, to }
    }

    pub fn term(&self) -> (r: Terminal)
        ensures
            r == self.kind,
    {
        self.kind
    }

    pub fn from(&self) -> (r: Position)
        ensures
            r == self.from,
    {
        self.from
    }

    pub fn to(&self) -> (r: Position)
        ensures
            r == self.to,
    {
        self.to
    }
}

/// The notations a number literal may be written in.
#[derive(Debug, Clone, Copy, PartialEq, Eq, Structural)]
pub enum Notation {
    Decimal,
    Hex,
    Octal,
    Binary,
    Float,
    Exponent,
}

/// The kind of token that a number literal of notation `n` makes.
pub open spec fn notation_terminal(n: Notation) -> Terminal {
    match n {
        Notation::Decimal => Terminal::IntDecimal,
        Notation::Hex => Terminal::IntHex,
        Notation::Octal => Terminal::IntOctal,
        Notation::Binary => Terminal::IntBinary,
        Notation::Float | Notation::Exponent => Terminal::Float,
    }
}

/// The kind of token that a number literal of notation `n` makes.
pub fn number_terminal(n: Notation) -> (r: Terminal)
    ensures
        r == notation_terminal(n),
{
    match n {
        Notation::Decimal => Terminal::IntDecimal,
        Notation::Hex => Terminal::IntHex,
        Notation::Octal => Terminal::IntOctal,
        Notation::Binary => Terminal::IntBinary,
        Notation::Float | Notation::Exponent => Terminal::Float,
    }
}

/// A number literal found at the cursor by a number recognizer: its notation
/// and its length in characters.
#[derive(Debug, Clone, Copy, PartialEq, Eq, Structural)]
pub struct NumberScan {
    pub notation: Notation,
    pub len: usize,
}

/// Whether a number literal of some notation may start with a sign.
#[derive(Debug, Clone, Copy, PartialEq, Eq, Structural)]
pub struct SignPolicy {
    pub allow_plus: bool,
    pub allow_minus: bool,
}

/// The sign policies a number recognizer is to follow, per integer notation.
#[derive(Debug, Clone, Copy, PartialEq, Eq, Structural)]
pub struct NumberConfig {
    pub decimal: SignPolicy,
    pub hex: SignPolicy,
    pub octal: SignPolicy,
    pub binary: SignPolicy,
}

impl NumberConfig {
    /// No notation accepts a leading sign.
    pub open spec fn unsigned(self) -> bool {
        let none = SignPolicy { allow_plus: false, allow_minus: false };
        self.decimal == none && self.hex == none && self.octal == none && self.binary == none
    }

    pub fn without_signs() -> (r: NumberConfig)
        ensures
            r.unsigned(),
    {
        let none = SignPolicy { allow_plus: false, allow_minus: false };
        NumberConfig { decimal: none, hex: none, octal: none, binary: none }
    }
}

} // verus!

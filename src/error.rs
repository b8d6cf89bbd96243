//! Diagnostics produced by the lexer and the token stream.
use vstd::prelude::*;

use crate::position::Position;
use crate::token::{Terminal, Token};

verus! {

/// The offset added to each diagnostic's index to make its code.
pub const CODE_OFFSET: u32 = 600;

/// What went wrong while lexing or consuming tokens.
#[derive(Debug, Clone, PartialEq, Eq)]
pub enum ParseErrorDetail {
    /// A character that starts no token, outside partial mode.
    InvalidInput { pos: Position, found: char },
    /// A quoted literal that the input ends inside of; `quote` is the opening
    /// quote character.
    InvalidInputOne { pos: Position, quote: char },
    /// A token of another kind than the one expected.
    UnexpectedTokenOne { token: Token, expected: Terminal },
    /// A token of none of the expected kinds.
    UnexpectedTokenMany { token: Token, expected_set: Vec<Terminal> },
}

/// The stable code of each diagnostic.
pub open spec fn detail_code(d: ParseErrorDetail) -> u32 {
    match d {
        ParseErrorDetail::InvalidInput { .. } => 601,
        ParseErrorDetail::InvalidInputOne { .. } => 602,
        ParseErrorDetail::UnexpectedTokenOne { .. } => 603,
        ParseErrorDetail::UnexpectedTokenMany { .. } => 604,
    }
}

impl ParseErrorDetail {
    /// The stable code of this diagnostic.
    pub fn code(&self) -> (r: u32)
        ensures
            r == detail_code(*self),
    {
        match self {
            ParseErrorDetail::InvalidInput { .. } => CODE_OFFSET + 1,
            ParseErrorDetail::InvalidInputOne { .. } => CODE_OFFSET + 2,
            ParseErrorDetail::UnexpectedTokenOne { .. } => CODE_OFFSET + 3,
            ParseErrorDetail::UnexpectedTokenMany { .. } => CODE_OFFSET + 4,
        }
    }
}

} // verus!

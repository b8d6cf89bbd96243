//! Lexer and token stream for a path-like expression language.
//!
//! A [`CharSource`] holds the input and a cursor; a [`Parser`] turns the
//! characters under the cursor into [`Token`]s, keeps tokens that a grammar
//! hands back, and checks that a token is of an expected kind. Number literals
//! are recognized outside the lexer: whoever drives it passes what a number
//! recognizer found at the cursor as a [`NumberScan`].
use vstd::prelude::*;

pub mod chars;
pub mod error;
pub mod laws;
pub mod parser;
pub mod position;
pub mod source;
pub mod token;

pub use crate::error::ParseErrorDetail;
pub use crate::parser::{Grammar, Parser};
pub use crate::position::Position;
pub use crate::source::CharSource;
pub use crate::token::{Notation, NumberConfig, NumberScan, SignPolicy, Terminal, Token};

verus! {

} // verus!

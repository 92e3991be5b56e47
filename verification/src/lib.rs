//! Lexical scanner for a small scripting language: source text in, classified
//! tokens out, one per call.
//!
//! `chars` holds the character classes, `token` the tokens and the keyword
//! table, `grammar` the definition of the token that stands at a position,
//! `scanner` the scanner itself, and `laws` what holds of every scan.

pub mod chars;
pub mod token;
pub mod grammar;
pub mod scanner;
pub mod laws;

pub use crate::scanner::Scanner;
pub use crate::token::{LexError, Token, TokenEnum};

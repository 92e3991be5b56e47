//! The lexical grammar, as functions from a source text and a position to the
//! token that the scanner reports there.

use vstd::prelude::*;
use crate::chars::{peek, is_blank, is_word_start, is_digit, run_len, newlines, CharClass};
use crate::token::{Token, TokenEnum, LexError, keyword_of};

verus! {

/// Where the scanner stands after it has passed the blanks and comments that
/// begin at `i`: the first position at or after `i` that holds neither a blank
/// nor the `#` of a comment.
pub open spec fn skip_end(src: Seq<char>, i: int) -> int
    decreases (if i < src.len() { src.len() - i } else { 0 }),
{
    if i < 0 || i >= src.len() {
        i
    } else if is_blank(src[i]) {
        skip_end(src, i + 1)
    } else if src[i] == '#' {
        skip_end(src, i + 1 + run_len(src, i + 1, CharClass::Comment))
    } else {
        i
    }
}

/// The kind of a punctuation character that is a token by itself.
pub open spec fn punctuation(c: char) -> Option<TokenEnum> {
    if c == '(' {
        Some(TokenEnum::TOKEN_LEFT_PAREN)
    } else if c == ')' {
        Some(TokenEnum::TOKEN_RIGHT_PAREN)
    } else if c == '{' {
        Some(TokenEnum::TOKEN_LEFT_BRACE)
    } else if c == '}' {
        Some(TokenEnum::TOKEN_RIGHT_BRACE)
    } else if c == ',' {
        Some(TokenEnum::TOKEN_COMMA)
    } else if c == '.' {
        Some(TokenEnum::TOKEN_DOT)
    } else if c == '-' {
        Some(TokenEnum::TOKEN_MINUS)
    } else if c == '+' {
        Some(TokenEnum::TOKEN_PLUS)
    } else if c == ';' {
        Some(TokenEnum::TOKEN_SEMICOLON)
    } else if c == '/' {
        Some(TokenEnum::TOKEN_SLASH)
    } else if c == '*' {
        Some(TokenEnum::TOKEN_STAR)
    } else {
        None
    }
}

/// The two kinds of an operator character: alone, and followed by `=`.
pub open spec fn operator(c: char) -> Option<(TokenEnum, TokenEnum)> {
    if c == '!' {
        Some((TokenEnum::TOKEN_BANG, TokenEnum::TOKEN_BANG_EQUAL))
    } else if c == '=' {
        Some((TokenEnum::TOKEN_EQUAL, TokenEnum::TOKEN_EQUAL_EQUAL))
    } else if c == '>' {
        Some((TokenEnum::TOKEN_GREATER, TokenEnum::TOKEN_GREATER_EQUAL))
    } else if c == '<' {
        Some((TokenEnum::TOKEN_LESS, TokenEnum::TOKEN_LESS_EQUAL))
    } else {
        None
    }
}

/// A token that is no error.
pub open spec fn plain(kind: TokenEnum, start: int, length: int, line: int) -> Token {
    Token { token: kind, start: start as usize, length: length as usize, line: line as usize, error: None }
}

/// An error token.
pub open spec fn failed(error: LexError, start: int, length: int, line: int) -> Token {
    Token {
        token: TokenEnum::TOKEN_ERROR,
        start: start as usize,
        length: length as usize,
        line: line as usize,
        error: Some(error),
    }
}

/// Number of characters that a number takes from `i` on, after its first
/// digit: a run of digits, and a dot with the digits behind it only where a
/// digit follows the dot.
pub open spec fn number_rest(src: Seq<char>, i: int) -> int {
    let whole = run_len(src, i, CharClass::Digit) as int;
    if peek(src, i + whole) == '.' && is_digit(peek(src, i + whole + 1)) {
        whole + 1 + run_len(src, i + whole + 1, CharClass::Digit)
    } else {
        whole
    }
}

/// The token that begins at `p`, where no blank or comment stands, and the
/// position just after it. Its line is one more than the number of newlines
/// before `p`.
pub open spec fn lex_at(src: Seq<char>, p: int) -> (Token, int) {
    let c = peek(src, p);
    let line = 1 + newlines(src, p) as int;
    if c == '\0' {
        (plain(TokenEnum::TOKEN_EOF, p, 0, line), p)
    } else if let Some(kind) = punctuation(c) {
        (plain(kind, p, 1, line), p + 1)
    } else if let Some((one, two)) = operator(c) {
        if peek(src, p + 1) == '=' {
            (plain(two, p, 2, line), p + 2)
        } else {
            (plain(one, p, 1, line), p + 1)
        }
    } else if c == '"' {
        let body = run_len(src, p + 1, CharClass::Text) as int;
        if peek(src, p + 1 + body) == '"' {
            (plain(TokenEnum::TOKEN_STRING, p + 1, body, line), p + body + 2)
        } else {
            (failed(LexError::UnterminatedString, p, body + 1, line), p + body + 1)
        }
    } else if is_word_start(c) {
        let length = 1 + run_len(src, p + 1, CharClass::Word) as int;
        (plain(keyword_of(src.subrange(p, p + length)), p, length, line), p + length)
    } else if is_digit(c) {
        let length = 1 + number_rest(src, p + 1);
        (plain(TokenEnum::TOKEN_NUMBER, p, length, line), p + length)
    } else {
        (failed(LexError::UnexpectedCharacter, p, 1, line), p + 1)
    }
}

/// The next token of `src` for a scanner that stands at `pos`, and the
/// position at which it stands afterwards.
pub open spec fn scan_from(src: Seq<char>, pos: int) -> (Token, int) {
    lex_at(src, skip_end(src, pos))
}

} // verus!

//! What holds of every scan: where tokens lie, how lines are counted, what
//! happens at the end of the source, and that nothing of the source is lost.

use vstd::prelude::*;
use crate::chars::{peek, is_blank, run_len, newlines, CharClass, lemma_run_bounded,
    lemma_newlines_bounded};
use crate::token::{TokenEnum, keyword_of, is_keyword, is_keyword_kind};
use crate::grammar::{skip_end, scan_from};

verus! {

/// Whether `src` holds from `i` on nothing but blanks and comments;
/// `in_comment` says that `i` lies inside a comment.
pub open spec fn only_trivia(src: Seq<char>, i: int, in_comment: bool) -> bool
    decreases src.len() - i,
{
    if i < 0 || i >= src.len() {
        true
    } else if in_comment {
        only_trivia(src, i + 1, src[i] != '\n')
    } else if is_blank(src[i]) {
        only_trivia(src, i + 1, false)
    } else if src[i] == '#' {
        only_trivia(src, i + 1, true)
    } else {
        false
    }
}

/// The source as the scanner gives it back from `pos` on: for each token up
/// to the end-of-input token, what was passed over before it and then what
/// the token covers, and at last what was passed over before the end.
pub open spec fn reassembled(src: Seq<char>, pos: int) -> Seq<char>
    decreases (if pos < src.len() { src.len() - pos } else { 0 }),
{
    let (tok, end) = scan_from(src, pos);
    let skipped = src.subrange(pos, tok.span_start());
    if tok.token == TokenEnum::TOKEN_EOF || end <= pos {
        skipped
    } else {
        skipped + tok.span_in(src) + reassembled(src, end)
    }
}

/// The position at which a scanner that starts at `pos` reports the end of
/// input.
pub open spec fn scan_stop(src: Seq<char>, pos: int) -> int
    decreases (if pos < src.len() { src.len() - pos } else { 0 }),
{
    let (tok, end) = scan_from(src, pos);
    if tok.token == TokenEnum::TOKEN_EOF || end <= pos {
        end
    } else {
        scan_stop(src, end)
    }
}

/// Skipping ends inside the source, at the sentinel or at a character that is
/// neither a blank nor the beginning of a comment, and skipping again from
/// there moves nothing.
pub proof fn lemma_skip(src: Seq<char>, pos: int)
    requires
        0 <= pos <= src.len(),
    ensures
        pos <= skip_end(src, pos) <= src.len(),
        !is_blank(peek(src, skip_end(src, pos))),
        peek(src, skip_end(src, pos)) != '#',
        skip_end(src, skip_end(src, pos)) == skip_end(src, pos),
    decreases src.len() - pos,
{
    if pos < src.len() {
        if is_blank(src[pos]) {
            lemma_skip(src, pos + 1);
        } else if src[pos] == '#' {
            lemma_run_bounded(src, pos + 1, CharClass::Comment);
            lemma_skip(src, pos + 1 + run_len(src, pos + 1, CharClass::Comment));
        }
    }
}

/// Where a token lies: it begins where skipping ended and ends where the
/// scanner stands afterwards, inside the source; every token but the
/// end-of-input token covers at least one character; the end-of-input token
/// comes exactly at the sentinel; and only an error token carries an error.
pub proof fn lemma_token_span(src: Seq<char>, pos: int)
    requires
        0 <= pos <= src.len() < usize::MAX,
    ensures
        ({
            let (tok, end) = scan_from(src, pos);
            &&& pos <= skip_end(src, pos) == tok.span_start()
            &&& tok.span_start() <= tok.start
            &&& tok.start + tok.length <= tok.span_end() == end <= src.len()
            &&& tok.token != TokenEnum::TOKEN_EOF ==> tok.span_start() < end
            &&& tok.token == TokenEnum::TOKEN_EOF <==> peek(src, skip_end(src, pos)) == '\0'
            &&& tok.wf()
        }),
{
    lemma_skip(src, pos);
    let p = skip_end(src, pos);
    lemma_newlines_bounded(src, p);
    if p < src.len() {
        lemma_run_bounded(src, p + 1, CharClass::Text);
        lemma_run_bounded(src, p + 1, CharClass::Word);
        lemma_run_bounded(src, p + 1, CharClass::Digit);
        let dot = p + 1 + run_len(src, p + 1, CharClass::Digit);
        if dot + 1 <= src.len() {
            lemma_run_bounded(src, dot + 1, CharClass::Digit);
        }
    }
}

/// A source of blanks and comments alone gives the end-of-input token at
/// the first call.
pub proof fn lemma_trivia_scans_to_end(src: Seq<char>)
    requires
        only_trivia(src, 0, false),
    ensures
        scan_from(src, 0).0.token == TokenEnum::TOKEN_EOF,
{
    lemma_trivia_skipped(src, 0, false);
}

/// From a position after which only blanks and comments follow, skipping
/// reaches the sentinel.
pub proof fn lemma_trivia_skipped(src: Seq<char>, i: int, in_comment: bool)
    requires
        0 <= i <= src.len(),
        only_trivia(src, i, in_comment),
    ensures
        peek(
            src,
            skip_end(
                src,
                if in_comment {
                    i + run_len(src, i, CharClass::Comment)
                } else {
                    i
                },
            ),
        ) == '\0',
    decreases src.len() - i,
{
    if i < src.len() {
        if in_comment {
            if src[i] == '\n' {
                lemma_trivia_skipped(src, i + 1, false);
            } else if src[i] != '\0' {
                lemma_trivia_skipped(src, i + 1, true);
            }
        } else if is_blank(src[i]) {
            lemma_trivia_skipped(src, i + 1, false);
        } else {
            lemma_trivia_skipped(src, i + 1, true);
        }
    }
}

/// A token has the kind of a keyword only where its lexeme spells that
/// keyword, letter for letter: a word that only begins like a keyword, or
/// holds one, is an identifier.
pub proof fn lemma_word_tokens(src: Seq<char>, pos: int)
    requires
        0 <= pos <= src.len() < usize::MAX,
    ensures
        ({
            let tok = scan_from(src, pos).0;
            let word = tok.lexeme_in(src);
            &&& tok.token == TokenEnum::TOKEN_IDENTIFIER || is_keyword_kind(tok.token)
                ==> tok.token == keyword_of(word)
            &&& is_keyword_kind(tok.token) ==> is_keyword(word)
            &&& !is_keyword(word) ==> !is_keyword_kind(tok.token)
        }),
{
    lemma_token_span(src, pos);
}

/// A token's line is one more than the number of newlines before the place
/// where it begins: for a string literal, before its opening quote.
pub proof fn lemma_token_line(src: Seq<char>, pos: int)
    requires
        0 <= pos <= src.len() < usize::MAX,
    ensures
        scan_from(src, pos).0.line == 1 + newlines(src, scan_from(src, pos).0.span_start()),
{
    lemma_token_span(src, pos);
    lemma_newlines_bounded(src, skip_end(src, pos));
}

/// Once the end-of-input token was given, the next call gives the same
/// token and leaves the scanner where it stands.
pub proof fn lemma_end_is_final(src: Seq<char>, pos: int)
    requires
        0 <= pos <= src.len() < usize::MAX,
        scan_from(src, pos).0.token == TokenEnum::TOKEN_EOF,
    ensures
        scan_from(src, scan_from(src, pos).1) == scan_from(src, pos),
        skip_end(src, scan_from(src, pos).1) == scan_from(src, pos).1,
{
    lemma_token_span(src, pos);
}

/// Tokens neither overlap nor go back: a token begins at or after the end
/// of the token before it.
pub proof fn lemma_tokens_in_order(src: Seq<char>, pos: int)
    requires
        0 <= pos <= src.len() < usize::MAX,
    ensures
        ({
            let (first, mid) = scan_from(src, pos);
            let (second, end) = scan_from(src, mid);
            first.span_end() <= second.span_start() <= second.span_end()
        }),
{
    lemma_token_span(src, pos);
    lemma_token_span(src, scan_from(src, pos).1);
}

/// Nothing of the source is lost: what was passed over and what the tokens
/// cover, put together in order, is the source from `pos` to the place where
/// the end of input is reported. That place holds the sentinel, and is the
/// end of a source that holds no sentinel character of its own.
pub proof fn lemma_round_trip(src: Seq<char>, pos: int)
    requires
        0 <= pos <= src.len() < usize::MAX,
    ensures
        pos <= scan_stop(src, pos) <= src.len(),
        peek(src, scan_stop(src, pos)) == '\0',
        reassembled(src, pos) == src.subrange(pos, scan_stop(src, pos)),
        (forall|i: int| 0 <= i < src.len() ==> src[i] != '\0') ==> reassembled(src, pos)
            == src.subrange(pos, src.len() as int),
    decreases src.len() - pos,
{
    lemma_token_span(src, pos);
    let (tok, end) = scan_from(src, pos);
    if tok.token != TokenEnum::TOKEN_EOF {
        lemma_round_trip(src, end);
        assert(reassembled(src, pos) =~= src.subrange(pos, scan_stop(src, pos)));
    }
}

} // verus!

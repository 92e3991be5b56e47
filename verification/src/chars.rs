//! Character classes of the language and maximal runs over them.

use vstd::prelude::*;

verus! {

/// Whether `c` has the Unicode `Alphabetic` property, as `char::is_alphabetic` reports it.
pub uninterp spec fn unicode_alphabetic(c: char) -> bool;

/// Whether `c` is in one of the Unicode numeric categories, as `char::is_numeric` reports it.
pub uninterp spec fn unicode_numeric(c: char) -> bool;

/// `char::is_alphabetic` of std: the answer depends on the character alone and is
/// given the name `unicode_alphabetic`; nothing else is claimed of it.
pub assume_specification[ char::is_alphabetic ](c: char) -> (b: bool)
    ensures
        b == unicode_alphabetic(c),
;

/// `char::is_numeric` of std: the answer depends on the character alone and is
/// given the name `unicode_numeric`; nothing else is claimed of it.
pub assume_specification[ char::is_numeric ](c: char) -> (b: bool)
    ensures
        b == unicode_numeric(c),
;

/// The character at `i`, or the sentinel `'\0'` past the end of the text.
pub open spec fn peek(src: Seq<char>, i: int) -> char {
    if 0 <= i < src.len() {
        src[i]
    } else {
        '\0'
    }
}

/// The families of characters that the scanner consumes in maximal runs.
#[derive(Clone, Copy, PartialEq, Eq, Structural, Debug)]
pub enum CharClass {
    /// What a comment holds after its `#`: anything up to the end of the line.
    Comment,
    /// What an identifier holds after its first character.
    Word,
    /// What a number holds.
    Digit,
    /// What a string literal holds between its quotes.
    Text,
}

/// Space, tab, carriage return or newline.
pub open spec fn is_blank(c: char) -> bool {
    c == ' ' || c == '\t' || c == '\r' || c == '\n'
}

/// Whether a character can begin an identifier, given whether it is a letter:
/// a letter or `_`, and never the sentinel or a newline.
pub open spec fn begins_word(c: char, alphabetic: bool) -> bool {
    c != '\0' && c != '\n' && (c == '_' || alphabetic)
}

/// Whether a character belongs to `class`, given whether it is a letter and
/// whether it is numeric. The sentinel belongs to no class, and a newline only
/// to `Text`.
pub open spec fn class_has(class: CharClass, c: char, alphabetic: bool, numeric: bool) -> bool {
    match class {
        CharClass::Comment => c != '\0' && c != '\n',
        CharClass::Word => c != '\0' && c != '\n' && (c == '_' || alphabetic || numeric),
        CharClass::Digit => c != '\0' && c != '\n' && numeric,
        CharClass::Text => c != '\0' && c != '"',
    }
}

/// A character that can begin an identifier: a letter or `_`.
pub open spec fn is_word_start(c: char) -> bool {
    begins_word(c, unicode_alphabetic(c))
}

/// A character of a number.
pub open spec fn is_digit(c: char) -> bool {
    in_class(CharClass::Digit, c)
}

/// Whether `c` belongs to `class`.
pub open spec fn in_class(class: CharClass, c: char) -> bool {
    class_has(class, c, unicode_alphabetic(c), unicode_numeric(c))
}

/// Length of the longest run of characters of `class` that starts at `i`.
pub open spec fn run_len(src: Seq<char>, i: int, class: CharClass) -> nat
    decreases src.len() - i,
{
    if 0 <= i < src.len() && in_class(class, src[i]) {
        1 + run_len(src, i + 1, class)
    } else {
        0
    }
}

/// Number of newline characters among the first `n` characters of `src`.
pub open spec fn newlines(src: Seq<char>, n: int) -> nat
    decreases n,
{
    if n <= 0 || n > src.len() {
        0
    } else if src[n - 1] == '\n' {
        1 + newlines(src, n - 1)
    } else {
        newlines(src, n - 1)
    }
}

/// Decides whether `c` can begin an identifier, from the character and the
/// answer to whether it is a letter.
pub fn word_start_given(c: char, alphabetic: bool) -> (b: bool)
    ensures
        b == begins_word(c, alphabetic),
{
    c != '\0' && c != '\n' && (c == '_' || alphabetic)
}

/// Decides whether `c` belongs to `class`, from the character and the answers
/// to whether it is a letter and whether it is numeric.
pub fn class_member(class: CharClass, c: char, alphabetic: bool, numeric: bool) -> (b: bool)
    ensures
        b == class_has(class, c, alphabetic, numeric),
{
    match class {
        CharClass::Comment => c != '\0' && c != '\n',
        CharClass::Word => c != '\0' && c != '\n' && (c == '_' || alphabetic || numeric),
        CharClass::Digit => c != '\0' && c != '\n' && numeric,
        CharClass::Text => c != '\0' && c != '"',
    }
}

/// Whether `c` can begin an identifier.
pub fn word_start(c: char) -> (b: bool)
    ensures
        b == is_word_start(c),
{
    word_start_given(c, c.is_alphabetic())
}

/// Whether `c` is a character of a number.
pub fn digit(c: char) -> (b: bool)
    ensures
        b == is_digit(c),
{
    class_member(CharClass::Digit, c, c.is_alphabetic(), c.is_numeric())
}

/// Whether `c` belongs to `class`.
pub fn class_holds(class: CharClass, c: char) -> (b: bool)
    ensures
        b == in_class(class, c),
{
    class_member(class, c, c.is_alphabetic(), c.is_numeric())
}

/// There are no more newlines than characters.
pub proof fn lemma_newlines_bounded(src: Seq<char>, n: int)
    requires
        0 <= n,
    ensures
        newlines(src, n) <= n,
    decreases n,
{
    if 0 < n <= src.len() {
        lemma_newlines_bounded(src, n - 1);
    }
}

/// A run never leaves the text.
pub proof fn lemma_run_bounded(src: Seq<char>, i: int, class: CharClass)
    requires
        0 <= i <= src.len(),
    ensures
        i + run_len(src, i, class) <= src.len(),
        !in_class(class, peek(src, i + run_len(src, i, class))),
        forall|k: int| i <= k < i + run_len(src, i, class) ==> in_class(class, #[trigger] src[k]),
    decreases src.len() - i,
{
    if i < src.len() && in_class(class, src[i]) {
        lemma_run_bounded(src, i + 1, class);
    }
}

} // verus!

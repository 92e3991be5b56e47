//! Tokens: their kinds, the source range each one names, and the keyword table.

use vstd::prelude::*;
use vstd::string::StrSliceExecFns;

verus! {

/// The tag by which a parser tells tokens apart.
#[allow(non_camel_case_types)]
#[derive(Clone, Copy, PartialEq, Eq, Structural, Debug)]
pub enum TokenEnum {
    // Single Character
    TOKEN_LEFT_PAREN,
    TOKEN_RIGHT_PAREN,
    TOKEN_LEFT_BRACE,
    TOKEN_RIGHT_BRACE,
    TOKEN_COMMA,
    TOKEN_DOT,
    TOKEN_MINUS,
    TOKEN_PLUS,
    TOKEN_SEMICOLON,
    TOKEN_SLASH,
    TOKEN_STAR,
    // One or two characters
    TOKEN_BANG,
    TOKEN_BANG_EQUAL,
    TOKEN_EQUAL,
    TOKEN_EQUAL_EQUAL,
    TOKEN_GREATER,
    TOKEN_GREATER_EQUAL,
    TOKEN_LESS,
    TOKEN_LESS_EQUAL,
    // Literals
    TOKEN_IDENTIFIER,
    TOKEN_STRING,
    TOKEN_NUMBER,
    // Keywords
    TOKEN_AND,
    TOKEN_CLASS,
    TOKEN_ELSE,
    TOKEN_FALSE,
    TOKEN_FOR,
    TOKEN_FUN,
    TOKEN_IF,
    TOKEN_NIL,
    TOKEN_OR,
    TOKEN_PRINT,
    TOKEN_RETURN,
    TOKEN_SUPER,
    TOKEN_THIS,
    TOKEN_TRUE,
    TOKEN_VAR,
    TOKEN_WHILE,
    /// A lexical error; the token's `error` field says which.
    TOKEN_ERROR,
    /// End of input.
    TOKEN_EOF,
}

/// What went wrong where an error token stands.
#[derive(Clone, Copy, PartialEq, Eq, Structural, Debug)]
pub enum LexError {
    /// The input ended inside a string literal.
    UnterminatedString,
    /// A character that begins no token.
    UnexpectedCharacter,
}

/// One token: its kind, the range of the source that is its lexeme, and the
/// line on which it begins. The lexeme of a string literal leaves out the two
/// quotes; that of an error token is the text that was consumed for it.
#[derive(Clone, Copy, PartialEq, Eq, Structural, Debug)]
pub struct Token {
    pub token: TokenEnum,
    pub start: usize,
    pub length: usize,
    pub line: usize,
    pub error: Option<LexError>,
}

impl LexError {
    /// The message of an error, as text.
    pub open spec fn text(self) -> Seq<char> {
        match self {
            LexError::UnterminatedString => "Unterminated string."@,
            LexError::UnexpectedCharacter => "Unexpected character."@,
        }
    }

    /// A description of the error for the user.
    pub fn message(self) -> (m: &'static str)
        ensures
            m@ == self.text(),
    {
        match self {
            LexError::UnterminatedString => "Unterminated string.",
            LexError::UnexpectedCharacter => "Unexpected character.",
        }
    }
}

impl Token {
    /// An error token has its error, and no other token has one.
    pub open spec fn wf(self) -> bool {
        (self.token == TokenEnum::TOKEN_ERROR) == self.error.is_some()
    }

    /// First position of the source that the token covers: for a string
    /// literal, its opening quote.
    pub open spec fn span_start(self) -> int {
        if self.token == TokenEnum::TOKEN_STRING {
            self.start - 1
        } else {
            self.start as int
        }
    }

    /// Position just after what the token covers: for a string literal, after
    /// its closing quote.
    pub open spec fn span_end(self) -> int {
        if self.token == TokenEnum::TOKEN_STRING {
            self.start + self.length + 1
        } else {
            self.start + self.length
        }
    }

    /// The lexeme as a piece of `src`.
    pub open spec fn lexeme_in(self, src: Seq<char>) -> Seq<char>
        recommends
            self.start + self.length <= src.len(),
    {
        src.subrange(self.start as int, self.start + self.length)
    }

    /// The part of `src` that the token covers.
    pub open spec fn span_in(self, src: Seq<char>) -> Seq<char>
        recommends
            0 <= self.span_start() <= self.span_end() <= src.len(),
    {
        src.subrange(self.span_start(), self.span_end())
    }

    /// The message of an error token; `None` for every other token.
    pub fn message(&self) -> (m: Option<&'static str>)
        ensures
            m.is_some() == self.error.is_some(),
            self.error matches Some(e) ==> m.unwrap()@ == e.text(),
    {
        match self.error {
            Some(e) => Some(e.message()),
            None => None,
        }
    }
}

/// The kind of a word: that of the keyword it spells, letter for letter, and
/// identifier for every other word.
pub open spec fn keyword_of(word: Seq<char>) -> TokenEnum {
    if word == "and"@ {
        TokenEnum::TOKEN_AND
    } else if word == "class"@ {
        TokenEnum::TOKEN_CLASS
    } else if word == "else"@ {
        TokenEnum::TOKEN_ELSE
    } else if word == "false"@ {
        TokenEnum::TOKEN_FALSE
    } else if word == "for"@ {
        TokenEnum::TOKEN_FOR
    } else if word == "fun"@ {
        TokenEnum::TOKEN_FUN
    } else if word == "if"@ {
        TokenEnum::TOKEN_IF
    } else if word == "nil"@ {
        TokenEnum::TOKEN_NIL
    } else if word == "or"@ {
        TokenEnum::TOKEN_OR
    } else if word == "print"@ {
        TokenEnum::TOKEN_PRINT
    } else if word == "return"@ {
        TokenEnum::TOKEN_RETURN
    } else if word == "super"@ {
        TokenEnum::TOKEN_SUPER
    } else if word == "this"@ {
        TokenEnum::TOKEN_THIS
    } else if word == "true"@ {
        TokenEnum::TOKEN_TRUE
    } else if word == "var"@ {
        TokenEnum::TOKEN_VAR
    } else if word == "while"@ {
        TokenEnum::TOKEN_WHILE
    } else {
        TokenEnum::TOKEN_IDENTIFIER
    }
}

/// Whether `word` spells one of the sixteen keywords.
pub open spec fn is_keyword(word: Seq<char>) -> bool {
    word == "and"@ || word == "class"@ || word == "else"@ || word == "false"@ || word == "for"@
        || word == "fun"@ || word == "if"@ || word == "nil"@ || word == "or"@ || word == "print"@
        || word == "return"@ || word == "super"@ || word == "this"@ || word == "true"@ || word
        == "var"@ || word == "while"@
}

/// Whether `kind` is the kind of one of the sixteen keywords.
pub open spec fn is_keyword_kind(kind: TokenEnum) -> bool {
    kind == TokenEnum::TOKEN_AND || kind == TokenEnum::TOKEN_CLASS || kind == TokenEnum::TOKEN_ELSE
        || kind == TokenEnum::TOKEN_FALSE || kind == TokenEnum::TOKEN_FOR || kind
        == TokenEnum::TOKEN_FUN || kind == TokenEnum::TOKEN_IF || kind == TokenEnum::TOKEN_NIL
        || kind == TokenEnum::TOKEN_OR || kind == TokenEnum::TOKEN_PRINT || kind
        == TokenEnum::TOKEN_RETURN || kind == TokenEnum::TOKEN_SUPER || kind
        == TokenEnum::TOKEN_THIS || kind == TokenEnum::TOKEN_TRUE || kind == TokenEnum::TOKEN_VAR
        || kind == TokenEnum::TOKEN_WHILE
}

/// Whether `text[from .. from + len]` spells `word`, every letter compared.
pub fn spells(text: &Vec<char>, from: usize, len: usize, word: &str) -> (b: bool)
    requires
        from + len <= text@.len(),
    ensures
        b == (text@.subrange(from as int, from + len) == word@),
{
    let n: usize = word.unicode_len();
    if n != len {
        return false;
    }
    let mut i: usize = 0;
    while i < len
        invariant
            i <= len,
            n == len,
            word@.len() == len,
            from + len <= text.len(),
            forall|k: int| 0 <= k < i ==> text@[from + k] == word@[k],
        decreases len - i,
    {
        if text[from + i] != word.get_char(i) {
            assert(text@.subrange(from as int, from + len)[i as int] != word@[i as int]);
            return false;
        }
        i += 1;
    }
    assert(text@.subrange(from as int, from + len) =~= word@);
    true
}

/// A word that is no keyword is an identifier, whatever keyword it begins with.
pub proof fn lemma_other_words_are_identifiers(word: Seq<char>)
    requires
        !is_keyword(word),
    ensures
        keyword_of(word) == TokenEnum::TOKEN_IDENTIFIER,
{
}

/// Each keyword, spelled exactly, has its own kind.
pub proof fn lemma_keywords_resolve()
    ensures
        keyword_of("and"@) == TokenEnum::TOKEN_AND,
        keyword_of("class"@) == TokenEnum::TOKEN_CLASS,
        keyword_of("else"@) == TokenEnum::TOKEN_ELSE,
        keyword_of("false"@) == TokenEnum::TOKEN_FALSE,
        keyword_of("for"@) == TokenEnum::TOKEN_FOR,
        keyword_of("fun"@) == TokenEnum::TOKEN_FUN,
        keyword_of("if"@) == TokenEnum::TOKEN_IF,
        keyword_of("nil"@) == TokenEnum::TOKEN_NIL,
        keyword_of("or"@) == TokenEnum::TOKEN_OR,
        keyword_of("print"@) == TokenEnum::TOKEN_PRINT,
        keyword_of("return"@) == TokenEnum::TOKEN_RETURN,
        keyword_of("super"@) == TokenEnum::TOKEN_SUPER,
        keyword_of("this"@) == TokenEnum::TOKEN_THIS,
        keyword_of("true"@) == TokenEnum::TOKEN_TRUE,
        keyword_of("var"@) == TokenEnum::TOKEN_VAR,
        keyword_of("while"@) == TokenEnum::TOKEN_WHILE,
        is_keyword("and"@) && is_keyword("class"@) && is_keyword("else"@) && is_keyword("false"@)
            && is_keyword("for"@) && is_keyword("fun"@) && is_keyword("if"@) && is_keyword("nil"@)
            && is_keyword("or"@) && is_keyword("print"@) && is_keyword("return"@) && is_keyword(
            "super"@,
        ) && is_keyword("this"@) && is_keyword("true"@) && is_keyword("var"@) && is_keyword(
            "while"@,
        ),
{
    reveal_strlit("and");
    reveal_strlit("class");
    reveal_strlit("else");
    reveal_strlit("false");
    reveal_strlit("for");
    reveal_strlit("fun");
    reveal_strlit("if");
    reveal_strlit("nil");
    reveal_strlit("or");
    reveal_strlit("print");
    reveal_strlit("return");
    reveal_strlit("super");
    reveal_strlit("this");
    reveal_strlit("true");
    reveal_strlit("var");
    reveal_strlit("while");
    assert("and"@[0] == 'a' && "and"@[1] == 'n');
    assert("class"@[0] == 'c' && "class"@[1] == 'l');
    assert("else"@[0] == 'e' && "else"@[1] == 'l');
    assert("false"@[0] == 'f' && "false"@[1] == 'a');
    assert("for"@[0] == 'f' && "for"@[1] == 'o');
    assert("fun"@[0] == 'f' && "fun"@[1] == 'u');
    assert("if"@[0] == 'i' && "if"@[1] == 'f');
    assert("nil"@[0] == 'n' && "nil"@[1] == 'i');
    assert("or"@[0] == 'o' && "or"@[1] == 'r');
    assert("print"@[0] == 'p' && "print"@[1] == 'r');
    assert("return"@[0] == 'r' && "return"@[1] == 'e');
    assert("super"@[0] == 's' && "super"@[1] == 'u');
    assert("this"@[0] == 't' && "this"@[1] == 'h');
    assert("true"@[0] == 't' && "true"@[1] == 'r');
    assert("var"@[0] == 'v' && "var"@[1] == 'a');
    assert("while"@[0] == 'w' && "while"@[1] == 'h');
}

} // verus!

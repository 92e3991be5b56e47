//! The scanner: a cursor over a source text that hands out one token per call.

use vstd::prelude::*;
use vstd::slice::slice_subrange;
use crate::chars::{peek, run_len, newlines, CharClass, class_holds, word_start, digit,
    lemma_newlines_bounded};
use crate::token::{Token, TokenEnum, LexError, keyword_of, spells};
use crate::grammar::{skip_end, punctuation, operator, plain, failed, number_rest, scan_from};

verus! {

/// A scanner over one source text. The text is held once, followed by the
/// sentinel `'\0'`; a `'\0'` in the text itself is taken for the end of the
/// input as well.
pub struct Scanner {
    /// The source, followed by the sentinel.
    string: Vec<char>,
    start: usize,
    current: usize,
    line: usize,
}

/// What a scanner is, to its callers.
pub struct ScannerView {
    /// The text being scanned, without the sentinel.
    pub source: Seq<char>,
    /// Where the token that was scanned last begins.
    pub start: int,
    /// The next unread character.
    pub current: int,
    /// The line, counted from 1, of the next unread character.
    pub line: int,
}

impl ScannerView {
    /// The cursor lies inside the text, the text and its sentinel fit the
    /// machine, and the line counts the newlines that were consumed.
    pub open spec fn wf(self) -> bool {
        &&& 0 <= self.start <= self.current <= self.source.len() < usize::MAX
        &&& self.line == 1 + newlines(self.source, self.current)
    }
}

impl View for Scanner {
    type V = ScannerView;

    closed spec fn view(&self) -> ScannerView {
        ScannerView {
            source: self.string@.drop_last(),
            start: self.start as int,
            current: self.current as int,
            line: self.line as int,
        }
    }
}

impl Scanner {
    /// The buffer ends with the sentinel.
    pub closed spec fn terminated(&self) -> bool {
        1 <= self.string@.len() <= usize::MAX && self.string@.last() == '\0'
    }

    /// The scanner's invariant.
    pub open spec fn wf(&self) -> bool {
        self.terminated() && self@.wf()
    }

    /// A scanner at the beginning of `source`, on line 1.
    pub fn new(source: String) -> (s: Scanner)
        ensures
            s.wf(),
            s@ == (ScannerView { source: source@, start: 0, current: 0, line: 1 }),
    {
        let text = source.as_str();
        let mut string: Vec<char> = Vec::new();
        let chars = text.chars();
        for c in it: chars
            invariant
                it.seq() == text@,
                string@ == text@.take(it.index()),
        {
            string.push(c);
            assert(text@.take(it.index() + 1) =~= text@.take(it.index()).push(c));
        }
        assert(string@ == text@) by {
            assert(text@.take(text@.len() as int) =~= text@);
        }
        string.push('\0');
        assert(string@.drop_last() =~= source@);
        assert(string@.len() == string.len());
        Scanner { string, start: 0, current: 0, line: 1 }
    }

    /// The buffer holds at each position what `peek` reads from the source.
    proof fn lemma_buffer(&self)
        requires
            self.wf(),
        ensures
            self.string@.len() == self@.source.len() + 1,
            forall|i: int| 0 <= i < self.string@.len() ==> #[trigger] self.string@[i] == peek(self@.source, i),
    {
    }

    /// The position of the next unread character.
    pub fn position(&self) -> (p: usize)
        ensures
            p == self@.current,
    {
        self.current
    }

    /// The line of the next unread character, counted from 1.
    pub fn line(&self) -> (l: usize)
        ensures
            l == self@.line,
    {
        self.line
    }

    /// Whether the next unread character is the sentinel.
    pub fn at_end(&self) -> (b: bool)
        requires
            self.wf(),
        ensures
            b == (peek(self@.source, self@.current) == '\0'),
    {
        self.curr() == '\0'
    }

    /// The next unread character: the sentinel at the end of the source.
    pub fn curr(&self) -> (c: char)
        requires
            self.wf(),
        ensures
            c == peek(self@.source, self@.current),
    {
        proof {
            self.lemma_buffer();
        }
        self.string[self.current]
    }

    /// Consumes one character, counting the line if it is a newline, and
    /// returns the character that is next after it.
    pub fn fwd(&mut self) -> (c: char)
        requires
            old(self).wf(),
            peek(old(self)@.source, old(self)@.current) != '\0',
        ensures
            final(self).wf(),
            final(self)@.source == old(self)@.source,
            final(self)@.start == old(self)@.start,
            final(self)@.current == old(self)@.current + 1,
            c == peek(old(self)@.source, old(self)@.current + 1),
    {
        proof {
            self.lemma_buffer();
            lemma_newlines_bounded(self@.source, self@.current);
        }
        if self.string[self.current] == '\n' {
            self.line += 1;
        }
        self.current += 1;
        self.string[self.current]
    }

    /// Consumes the longest run of characters of `class` that begins at the
    /// cursor.
    pub fn consume_run(&mut self, class: CharClass)
        requires
            old(self).wf(),
        ensures
            final(self).wf(),
            final(self)@.source == old(self)@.source,
            final(self)@.start == old(self)@.start,
            final(self)@.current == old(self)@.current + run_len(
                old(self)@.source,
                old(self)@.current,
                class,
            ),
    {
        while class_holds(class, self.curr())
            invariant
                self.wf(),
                self@.source == old(self)@.source,
                self@.start == old(self)@.start,
                old(self)@.current <= self@.current,
                self@.current + run_len(self@.source, self@.current, class) == old(self)@.current
                    + run_len(self@.source, old(self)@.current, class),
            decreases self@.source.len() - self@.current,
        {
            self.fwd();
        }
    }

    /// Consumes blanks and comments up to the next character that can begin a
    /// token, or to the end of the source.
    pub fn skip_whitespace(&mut self)
        requires
            old(self).wf(),
        ensures
            final(self).wf(),
            final(self)@.source == old(self)@.source,
            final(self)@.start == old(self)@.start,
            final(self)@.current == skip_end(old(self)@.source, old(self)@.current),
    {
        let mut more: bool = true;
        while more
            invariant
                self.wf(),
                self@.source == old(self)@.source,
                self@.start == old(self)@.start,
                skip_end(self@.source, self@.current) == skip_end(
                    self@.source,
                    old(self)@.current,
                ),
                !more ==> skip_end(self@.source, self@.current) == self@.current,
            decreases self@.source.len() - self@.current + (if more { 1int } else { 0int }),
        {
            let c = self.curr();
            if c == ' ' || c == '\r' || c == '\t' || c == '\n' {
                self.fwd();
            } else if c == '#' {
                self.fwd();
                self.consume_run(CharClass::Comment);
            } else {
                more = false;
            }
        }
    }

    /// The kind `token` if the lexeme between `start` and the cursor spells
    /// `word`, and identifier if it does not.
    pub fn check_keyword(&self, word: &str, token: TokenEnum) -> (kind: TokenEnum)
        requires
            self.wf(),
        ensures
            kind == if self@.source.subrange(self@.start, self@.current) == word@ {
                token
            } else {
                TokenEnum::TOKEN_IDENTIFIER
            },
    {
        proof {
            self.lemma_buffer();
            assert(self.string@.subrange(self@.start, self@.current) =~= self@.source.subrange(
                self@.start,
                self@.current,
            ));
        }
        if spells(&self.string, self.start, self.current - self.start, word) {
            token
        } else {
            TokenEnum::TOKEN_IDENTIFIER
        }
    }

    /// The kind of the word between `start` and the cursor.
    pub fn keyword(&self) -> (kind: TokenEnum)
        requires
            self.wf(),
        ensures
            kind == keyword_of(self@.source.subrange(self@.start, self@.current)),
    {
        let mut kind = self.check_keyword("and", TokenEnum::TOKEN_AND);
        if kind == TokenEnum::TOKEN_IDENTIFIER {
            kind = self.check_keyword("class", TokenEnum::TOKEN_CLASS);
        }
        if kind == TokenEnum::TOKEN_IDENTIFIER {
            kind = self.check_keyword("else", TokenEnum::TOKEN_ELSE);
        }
        if kind == TokenEnum::TOKEN_IDENTIFIER {
            kind = self.check_keyword("false", TokenEnum::TOKEN_FALSE);
        }
        if kind == TokenEnum::TOKEN_IDENTIFIER {
            kind = self.check_keyword("for", TokenEnum::TOKEN_FOR);
        }
        if kind == TokenEnum::TOKEN_IDENTIFIER {
            kind = self.check_keyword("fun", TokenEnum::TOKEN_FUN);
        }
        if kind == TokenEnum::TOKEN_IDENTIFIER {
            kind = self.check_keyword("if", TokenEnum::TOKEN_IF);
        }
        if kind == TokenEnum::TOKEN_IDENTIFIER {
            kind = self.check_keyword("nil", TokenEnum::TOKEN_NIL);
        }
        if kind == TokenEnum::TOKEN_IDENTIFIER {
            kind = self.check_keyword("or", TokenEnum::TOKEN_OR);
        }
        if kind == TokenEnum::TOKEN_IDENTIFIER {
            kind = self.check_keyword("print", TokenEnum::TOKEN_PRINT);
        }
        if kind == TokenEnum::TOKEN_IDENTIFIER {
            kind = self.check_keyword("return", TokenEnum::TOKEN_RETURN);
        }
        if kind == TokenEnum::TOKEN_IDENTIFIER {
            kind = self.check_keyword("super", TokenEnum::TOKEN_SUPER);
        }
        if kind == TokenEnum::TOKEN_IDENTIFIER {
            kind = self.check_keyword("this", TokenEnum::TOKEN_THIS);
        }
        if kind == TokenEnum::TOKEN_IDENTIFIER {
            kind = self.check_keyword("true", TokenEnum::TOKEN_TRUE);
        }
        if kind == TokenEnum::TOKEN_IDENTIFIER {
            kind = self.check_keyword("var", TokenEnum::TOKEN_VAR);
        }
        if kind == TokenEnum::TOKEN_IDENTIFIER {
            kind = self.check_keyword("while", TokenEnum::TOKEN_WHILE);
        }
        kind
    }

    /// Finishes an identifier or keyword that began at `start`: takes the rest
    /// of the word and resolves the whole of it against the keywords.
    pub fn identifier(&mut self, line: usize) -> (tok: Token)
        requires
            old(self).wf(),
        ensures
            final(self).wf(),
            final(self)@.source == old(self)@.source,
            final(self)@.start == old(self)@.start,
            final(self)@.current == old(self)@.current + run_len(
                old(self)@.source,
                old(self)@.current,
                CharClass::Word,
            ),
            tok == plain(
                keyword_of(old(self)@.source.subrange(old(self)@.start, final(self)@.current)),
                old(self)@.start,
                final(self)@.current - old(self)@.start,
                line as int,
            ),
    {
        self.consume_run(CharClass::Word);
        let kind = self.keyword();
        Token::new(self, kind, line)
    }

    /// Finishes a number that began at `start`: takes the rest of the digits,
    /// and a dot with the digits after it where a digit follows the dot.
    pub fn number(&mut self, line: usize) -> (tok: Token)
        requires
            old(self).wf(),
        ensures
            final(self).wf(),
            final(self)@.source == old(self)@.source,
            final(self)@.start == old(self)@.start,
            final(self)@.current == old(self)@.current + number_rest(
                old(self)@.source,
                old(self)@.current,
            ),
            tok == plain(
                TokenEnum::TOKEN_NUMBER,
                old(self)@.start,
                final(self)@.current - old(self)@.start,
                line as int,
            ),
    {
        self.consume_run(CharClass::Digit);
        if self.curr() == '.' {
            proof {
                self.lemma_buffer();
            }
            if digit(self.string[self.current + 1]) {
                self.fwd();
                self.consume_run(CharClass::Digit);
            }
        }
        Token::new(self, TokenEnum::TOKEN_NUMBER, line)
    }

    /// Finishes a string literal whose opening quote, at `start`, was
    /// consumed: takes the text up to the closing quote and the quote itself;
    /// the lexeme is what stands between the two. Where the source ends
    /// first, the result is an error token for all that was consumed, and the
    /// cursor stays at the end.
    pub fn string(&mut self, line: usize) -> (tok: Token)
        requires
            old(self).wf(),
            old(self)@.start < old(self)@.current,
        ensures
            final(self).wf(),
            final(self)@.source == old(self)@.source,
            final(self)@.start == old(self)@.start,
            ({
                let src = old(self)@.source;
                let start = old(self)@.start;
                let close = old(self)@.current + run_len(src, old(self)@.current, CharClass::Text);
                if peek(src, close) == '"' {
                    &&& final(self)@.current == close + 1
                    &&& tok == plain(
                        TokenEnum::TOKEN_STRING,
                        start + 1,
                        close - start - 1,
                        line as int,
                    )
                } else {
                    &&& final(self)@.current == close
                    &&& tok == failed(LexError::UnterminatedString, start, close - start, line as int)
                }
            }),
    {
        self.consume_run(CharClass::Text);
        if self.curr() == '"' {
            self.fwd();
            Token {
                token: TokenEnum::TOKEN_STRING,
                start: self.start + 1,
                length: self.current - self.start - 2,
                line,
                error: None,
            }
        } else {
            Token::failed(self, LexError::UnterminatedString, line)
        }
    }

    /// Scans the next token. Blanks and comments before it are passed over;
    /// at the end of the source the token is the end-of-input token, on this
    /// call and on every later one. An error token stands for a character
    /// that begins no token, or for a string that the source leaves open;
    /// scanning goes on behind it.
    pub fn next_token(&mut self) -> (tok: Token)
        requires
            old(self).wf(),
        ensures
            final(self).wf(),
            final(self)@.source == old(self)@.source,
            final(self)@.start == skip_end(old(self)@.source, old(self)@.current),
            tok == scan_from(old(self)@.source, old(self)@.current).0,
            final(self)@.current == scan_from(old(self)@.source, old(self)@.current).1,
    {
        self.skip_whitespace();
        self.start = self.current;
        let line = self.line;
        let c = self.curr();
        if c == '\0' {
            return Token::new(self, TokenEnum::TOKEN_EOF, line);
        }
        let next = self.fwd();
        if let Some(kind) = punctuation_kind(c) {
            Token::new(self, kind, line)
        } else if let Some((one, two)) = operator_kinds(c) {
            if next == '=' {
                self.fwd();
                Token::new(self, two, line)
            } else {
                Token::new(self, one, line)
            }
        } else if c == '"' {
            self.string(line)
        } else if word_start(c) {
            self.identifier(line)
        } else if digit(c) {
            self.number(line)
        } else {
            Token::failed(self, LexError::UnexpectedCharacter, line)
        }
    }

    /// The lexeme of `token`, borrowed from the source; `None` where the
    /// token's range does not lie in this scanner's source.
    pub fn lexeme(&self, token: &Token) -> (text: Option<&[char]>)
        requires
            self.wf(),
        ensures
            text.is_some() == (token.start + token.length <= self@.source.len()),
            text matches Some(t) ==> t@ == token.lexeme_in(self@.source),
    {
        proof {
            self.lemma_buffer();
        }
        let n: usize = self.string.len() - 1;
        if token.length <= n && token.start <= n - token.length {
            let t = slice_subrange(self.string.as_slice(), token.start, token.start + token.length);
            assert(t@ =~= token.lexeme_in(self@.source));
            Some(t)
        } else {
            None
        }
    }
}

/// The kind of a punctuation character that is a token by itself.
pub fn punctuation_kind(c: char) -> (kind: Option<TokenEnum>)
    ensures
        kind == punctuation(c),
{
    if c == '(' {
        Some(TokenEnum::TOKEN_LEFT_PAREN)
    } else if c == ')' {
        Some(TokenEnum::TOKEN_RIGHT_PAREN)
    } else if c == '{' {
        Some(TokenEnum::TOKEN_LEFT_BRACE)
    } else if c == '}' {
        Some(TokenEnum::TOKEN_RIGHT_BRACE)
    } else if c == ',' {
        Some(TokenEnum::TOKEN_COMMA)
    } else if c == '.' {
        Some(TokenEnum::TOKEN_DOT)
    } else if c == '-' {
        Some(TokenEnum::TOKEN_MINUS)
    } else if c == '+' {
        Some(TokenEnum::TOKEN_PLUS)
    } else if c == ';' {
        Some(TokenEnum::TOKEN_SEMICOLON)
    } else if c == '/' {
        Some(TokenEnum::TOKEN_SLASH)
    } else if c == '*' {
        Some(TokenEnum::TOKEN_STAR)
    } else {
        None
    }
}

/// The two kinds of an operator character: alone, and followed by `=`.
pub fn operator_kinds(c: char) -> (kinds: Option<(TokenEnum, TokenEnum)>)
    ensures
        kinds == operator(c),
{
    if c == '!' {
        Some((TokenEnum::TOKEN_BANG, TokenEnum::TOKEN_BANG_EQUAL))
    } else if c == '=' {
        Some((TokenEnum::TOKEN_EQUAL, TokenEnum::TOKEN_EQUAL_EQUAL))
    } else if c == '>' {
        Some((TokenEnum::TOKEN_GREATER, TokenEnum::TOKEN_GREATER_EQUAL))
    } else if c == '<' {
        Some((TokenEnum::TOKEN_LESS, TokenEnum::TOKEN_LESS_EQUAL))
    } else {
        None
    }
}

impl Token {
    /// A token of `kind` whose lexeme runs from the scanner's `start` to its
    /// cursor.
    pub fn new(scanner: &Scanner, token: TokenEnum, line: usize) -> (tok: Token)
        requires
            scanner.wf(),
        ensures
            tok == (Token {
                token,
                start: scanner@.start as usize,
                length: (scanner@.current - scanner@.start) as usize,
                line,
                error: None,
            }),
    {
        Token {
            token,
            start: scanner.start,
            length: scanner.current - scanner.start,
            line,
            error: None,
        }
    }

    /// An error token whose lexeme runs from the scanner's `start` to its
    /// cursor.
    pub fn failed(scanner: &Scanner, error: LexError, line: usize) -> (tok: Token)
        requires
            scanner.wf(),
        ensures
            tok == (Token {
                token: TokenEnum::TOKEN_ERROR,
                start: scanner@.start as usize,
                length: (scanner@.current - scanner@.start) as usize,
                line,
                error: Some(error),
            }),
    {
        Token {
            token: TokenEnum::TOKEN_ERROR,
            start: scanner.start,
            length: scanner.current - scanner.start,
            line,
            error: Some(error),
        }
    }
}

} // verus!

//! The scanner: from characters to tokens.
use vstd::prelude::*;
use vstd::string::*;
use crate::error::{SyntaxError, SyntaxErrorView};
use crate::lexical::{
    converter_ready, holds_at, is_alpha_char, is_digit_char, keyword, lemma_newlines_bound,
    lemma_number_is_numeral, lemma_run_end, lemma_scan_shape, lemma_step_advances,
    lemma_tokens_match_lines, lemma_tokens_match_push, newlines, number_end,
    operator_step, run_end, scan_from, step_at, step_error, token_matches, tokens_match,
    word_type, CharClass, Found, Span,
};
use crate::number::Number;
use crate::object::{Object, ObjectView};
use crate::text::{same_text, slice_to_string};
use crate::token::{literal_view, Token, TokenType, TokenView};

verus! {

/// A scanner over one source text. It holds the tokens read so far, the
/// position and the line where the token being read starts, the position of
/// the next character to read, and the line of that character.
pub struct Scanner {
    source: Vec<char>,
    tokens: Vec<Token>,
    start: usize,
    start_line: usize,
    current: usize,
    line: usize,
}

impl Scanner {
    /// The source text.
    pub closed spec fn source(&self) -> Seq<char> {
        self.source@
    }

    /// The tokens read so far.
    pub closed spec fn tokens(&self) -> Seq<Token> {
        self.tokens@
    }

    /// The position of the next character to read.
    pub closed spec fn position(&self) -> int {
        self.current as int
    }

    /// The line of the next character to read.
    pub closed spec fn line(&self) -> int {
        self.line as int
    }

    /// The scanner's invariant: its positions lie within the source, and the
    /// line count is one more than a number of characters already read.
    pub closed spec fn well_formed(&self) -> bool {
        &&& self.start <= self.current <= self.source.len()
        &&& self.source.len() < usize::MAX
        &&& 1 <= self.start_line <= self.line <= self.current + 1
    }

    /// What the token being read is, once `typ` and `literal` are known.
    spec fn pending(&self, typ: TokenType, literal: Option<Object>) -> TokenView {
        TokenView {
            typ,
            lexeme: self.source@.subrange(self.start as int, self.current as int),
            literal: literal_view(literal),
            line: self.start_line,
        }
    }

    /// Whether the scanner is about to read a token: it is well formed, the
    /// token starts at the current character, and there is one.
    spec fn at_token_start(&self) -> bool {
        &&& self.well_formed()
        &&& self.start == self.current
        &&& self.start_line == self.line
        &&& self.current < self.source.len()
    }

    /// Whether the scanner differs from `before` only in having taken the
    /// step that starts at `before`'s current position.
    spec fn stepped<F: Fn(String) -> Number>(&self, before: Scanner, to_number: F) -> bool {
        let s = before.source@;
        let step = step_at(s, before.current as int, before.line as int);
        &&& self.source == before.source
        &&& self.current == step.end
        &&& self.line == step.line
        &&& self.well_formed()
        &&& match step.found {
            Found::Token(typ) => {
                &&& self.tokens@.len() == before.tokens@.len() + 1
                &&& self.tokens@.drop_last() == before.tokens@
                &&& token_matches(
                    s,
                    Span {
                        typ,
                        start: before.current as int,
                        end: step.end,
                        line: before.line as int,
                    },
                    self.tokens@.last()@,
                    to_number,
                )
            },
            _ => self.tokens == before.tokens,
        }
    }

    /// A scanner at the start of `source`, on line one, with no tokens.
    pub fn new(source: Vec<char>) -> (r: Scanner)
        requires
            source.len() < usize::MAX,
        ensures
            r.well_formed(),
            r.source() == source@,
            r.tokens() == Seq::<Token>::empty(),
            r.position() == 0,
            r.line() == 1,
    {
        Scanner { source, tokens: Vec::new(), start: 0, start_line: 1, current: 0, line: 1 }
    }

    /// The tokens read so far.
    pub fn scanned(&self) -> (r: &Vec<Token>)
        ensures
            r@ == self.tokens(),
    {
        &self.tokens
    }

    /// Scans from the current position to the end of the source and appends
    /// the tokens found, the end marker last. The tokens are those of
    /// `scan_from`; each number carries what `to_number` gave for its text,
    /// and `to_number` is asked about numerals only. The scan does not stop
    /// at an error: it reads on, and fails at the end with the last error
    /// met. The tokens can be had from `scanned` in either case.
    pub fn scan_tokens<F: Fn(String) -> Number>(&mut self, to_number: &F) -> (r: Result<
        &Vec<Token>,
        SyntaxError,
    >)
        requires
            old(self).well_formed(),
            converter_ready(*to_number),
        ensures
            final(self).well_formed(),
            final(self).source() == old(self).source(),
            final(self).position() == final(self).source().len(),
            ({
                let s = old(self).source();
                let found = scan_from(s, old(self).position(), old(self).line());
                let before = old(self).tokens().len() as int;
                let tokens = final(self).tokens();
                &&& tokens.len() == before + found.spans.len()
                &&& tokens.subrange(0, before) == old(self).tokens()
                &&& tokens_match(s, found.spans, tokens.subrange(before, tokens.len() as int), *to_number)
                &&& tokens.last()@.typ == TokenType::Eof
                &&& tokens.last()@.line == final(self).line()
                &&& forall|i: int, j: int|
                    before <= i <= j < tokens.len() ==> (#[trigger] tokens[i])@.line <= (
                    #[trigger] tokens[j])@.line
                &&& forall|i: int| before <= i < tokens.len() ==> (#[trigger] tokens[i])@.well_formed()
                &&& match r {
                    Ok(list) => found.error is None && list@ == tokens,
                    Err(e) => found.error == Some(e@),
                }
            }),
    {
        let ghost s = self.source@;
        let ghost found = scan_from(s, self.current as int, self.line as int);
        let ghost before = self.tokens@.len() as int;
        let ghost done: Seq<Span> = Seq::empty();
        let mut had_error: Option<SyntaxError> = None;
        while !self.is_at_end()
            invariant
                self.well_formed(),
                self.source@ == s,
                converter_ready(*to_number),
                0 <= before <= self.tokens@.len(),
                self.tokens@.subrange(0, before) == old(self).tokens@,
                tokens_match(
                    s,
                    done,
                    self.tokens@.subrange(before, self.tokens@.len() as int),
                    *to_number,
                ),
                found.spans == done + scan_from(s, self.current as int, self.line as int).spans,
                found.error == (if scan_from(s, self.current as int, self.line as int).error is Some {
                    scan_from(s, self.current as int, self.line as int).error
                } else {
                    match had_error {
                        Some(e) => Some(e@),
                        None => None,
                    }
                }),
            decreases self.source.len() - self.current,
        {
            self.start = self.current;
            self.start_line = self.line;
            let ghost here = *self;
            let ghost step = step_at(s, self.current as int, self.line as int);
            proof {
                lemma_step_advances(s, self.current as int, self.line as int);
            }
            match self.scan_token(to_number) {
                Ok(_) => {},
                Err(e) => {
                    had_error = Some(e);
                },
            }
            proof {
                let was = here.tokens@.subrange(before, here.tokens@.len() as int);
                match step.found {
                    Found::Token(typ) => {
                        let span = Span {
                            typ,
                            start: here.current as int,
                            end: step.end,
                            line: here.line as int,
                        };
                        lemma_tokens_match_push(s, done, was, span, self.tokens@.last(), *to_number);
                        done = done.push(span);
                    },
                    _ => {},
                }
            }
        }
        let ghost inner = *self;
        self.add_token_eof();
        proof {
            let eof = Span {
                typ: TokenType::Eof,
                start: s.len() as int,
                end: s.len() as int,
                line: self.line as int,
            };
            let was = inner.tokens@.subrange(before, inner.tokens@.len() as int);
            let now = self.tokens@.subrange(before, self.tokens@.len() as int);
            assert(s.subrange(s.len() as int, s.len() as int) =~= Seq::<char>::empty());
            lemma_tokens_match_push(s, done, was, eof, self.tokens@.last(), *to_number);
            lemma_scan_shape(s, old(self).current as int, old(self).line as int);
            lemma_tokens_match_lines(s, found.spans, now, *to_number);
            assert forall|i: int, j: int| before <= i <= j < self.tokens@.len() implies (
            #[trigger] self.tokens@[i])@.line <= (#[trigger] self.tokens@[j])@.line by {
                assert(self.tokens@[i] == now[i - before]);
                assert(self.tokens@[j] == now[j - before]);
            }
            assert forall|i: int| before <= i < self.tokens@.len() implies (
            #[trigger] self.tokens@[i])@.well_formed() by {
                assert(token_matches(s, found.spans[i - before], now[i - before]@, *to_number));
            }
        }
        if let Some(e) = had_error {
            Err(e)
        } else {
            Ok(&self.tokens)
        }
    }

    /// Reads one token, or the white space or comment, that starts at the
    /// current position.
    fn scan_token<F: Fn(String) -> Number>(&mut self, to_number: &F) -> (r: Result<
        (),
        SyntaxError,
    >)
        requires
            old(self).at_token_start(),
            converter_ready(*to_number),
        ensures
            final(self).stepped(*old(self), *to_number),
            ({
                let step = step_at(
                    old(self).source@,
                    old(self).current as int,
                    old(self).line as int,
                );
                match r {
                    Ok(_) => step_error(step.found, old(self).line as int) is None,
                    Err(e) => step_error(step.found, old(self).line as int) == Some(e@),
                }
            }),
    {
        proof {
            reveal(step_at);
            lemma_step_advances(self.source@, self.current as int, self.line as int);
        }
        let c = self.advance();
        if c == '(' {
            self.add_token(TokenType::LeftParen);
        } else if c == ')' {
            self.add_token(TokenType::RightParen);
        } else if c == '{' {
            self.add_token(TokenType::LeftBrace);
        } else if c == '}' {
            self.add_token(TokenType::RightBrace);
        } else if c == ',' {
            self.add_token(TokenType::Comma);
        } else if c == '.' {
            self.add_token(TokenType::Dot);
        } else if c == '-' {
            self.add_token(TokenType::Minus);
        } else if c == '+' {
            self.add_token(TokenType::Plus);
        } else if c == ';' {
            self.add_token(TokenType::SemiColon);
        } else if c == '*' {
            self.add_token(TokenType::Star);
        } else if c == '!' {
            self.operator(TokenType::Bang, TokenType::BangEqual);
        } else if c == '=' {
            self.operator(TokenType::Equal, TokenType::EqualEqual);
        } else if c == '>' {
            self.operator(TokenType::Greater, TokenType::GreaterEqual);
        } else if c == '<' {
            self.operator(TokenType::Less, TokenType::LessEqual);
        } else if c == '/' {
            if self.try_match('/') {
                self.advance_while(CharClass::InLine);
            } else {
                self.add_token(TokenType::Slash);
            }
        } else if c == ' ' || c == '\r' || c == '\t' {
        } else if c == '\n' {
            self.line += 1;
        } else if c == '"' {
            return self.string();
        } else if Scanner::is_digit(Some(c)) {
            self.number(to_number);
        } else if Scanner::is_alpha(Some(c)) {
            self.identifier();
        } else {
            return Err(SyntaxError::new(self.line, String::from_str("Unexpected character")));
        }
        Ok(())
    }

    /// Reads `long` if `=` comes next, `short` otherwise.
    fn operator(&mut self, short: TokenType, long: TokenType)
        requires
            old(self).well_formed(),
            old(self).start + 1 == old(self).current,
        ensures
            ({
                let step = operator_step(
                    old(self).source@,
                    old(self).start as int,
                    old(self).line as int,
                    short,
                    long,
                );
                &&& final(self).current == step.end
                &&& final(self).tokens@.len() == old(self).tokens@.len() + 1
                &&& final(self).tokens@.drop_last() == old(self).tokens@
                &&& final(self).tokens@.last()@ == (TokenView {
                    typ: step.found->Token_0,
                    lexeme: old(self).source@.subrange(old(self).start as int, step.end),
                    literal: None,
                    line: old(self).start_line,
                })
                &&& *final(self) == (Scanner {
                    tokens: final(self).tokens,
                    current: final(self).current,
                    ..*old(self)
                })
            }),
    {
        let token = if self.try_match('=') {
            long
        } else {
            short
        };
        self.add_token(token);
    }

    /// Reads a string whose opening quote has just been read.
    fn string(&mut self) -> (r: Result<(), SyntaxError>)
        requires
            old(self).well_formed(),
            old(self).start + 1 == old(self).current,
            old(self).start_line == old(self).line,
            old(self).line <= old(self).current,
            old(self).source@[old(self).start as int] == '"',
        ensures
            ({
                let s = old(self).source@;
                let close = run_end(s, old(self).current as int, CharClass::InString);
                let line = old(self).line + newlines(s, old(self).current as int, close);
                &&& final(self).well_formed()
                &&& final(self).source == old(self).source
                &&& final(self).line == line
                &&& if close < s.len() {
                    &&& r is Ok
                    &&& final(self).current == close + 1
                    &&& final(self).tokens@.len() == old(self).tokens@.len() + 1
                    &&& final(self).tokens@.drop_last() == old(self).tokens@
                    &&& final(self).tokens@.last()@ == (TokenView {
                        typ: TokenType::String,
                        lexeme: s.subrange(old(self).start as int, close + 1),
                        literal: Some(ObjectView::Str(s.subrange(old(self).start + 1, close))),
                        line: old(self).line,
                    })
                } else {
                    &&& r is Err
                    &&& r->Err_0@ == (SyntaxErrorView {
                        line: old(self).line,
                        message: "Unterminated string"@,
                    })
                    &&& final(self).current == close
                    &&& final(self).tokens == old(self).tokens
                }
            }),
    {
        let ghost s = self.source@;
        let ghost first = self.current as int;
        proof {
            lemma_run_end(s, first, CharClass::InString);
        }
        while self.current < self.source.len() && self.source[self.current] != '"'
            invariant
                first <= self.current <= self.source.len(),
                self.source.len() < usize::MAX,
                1 <= self.start_line,
                first == self.start + 1,
                old(self).line <= first,
                s == self.source@,
                *self == (Scanner { current: self.current, line: self.line, ..*old(self) }),
                self.line == old(self).line + newlines(s, first, self.current as int),
                run_end(s, self.current as int, CharClass::InString) == run_end(
                    s,
                    first,
                    CharClass::InString,
                ),
            decreases self.source.len() - self.current,
        {
            proof {
                lemma_newlines_bound(s, first, self.current as int);
            }
            if self.source[self.current] == '\n' {
                self.line += 1;
            }
            self.advance();
        }
        proof {
            lemma_newlines_bound(s, first, self.current as int);
        }
        if self.is_at_end() {
            return Err(SyntaxError::new(self.start_line, String::from_str("Unterminated string")));
        }
        self.advance();
        let string = slice_to_string(&self.source, self.start + 1, self.current - 1);
        self.add_token_object(TokenType::String, Some(Object::Str(string)));
        Ok(())
    }

    /// Reads a number whose first digit has just been read, and asks
    /// `to_number` for its value.
    fn number<F: Fn(String) -> Number>(&mut self, to_number: &F)
        requires
            old(self).well_formed(),
            old(self).start + 1 == old(self).current,
            old(self).start_line == old(self).line,
            is_digit_char(old(self).source@[old(self).start as int]),
            converter_ready(*to_number),
        ensures
            final(self).well_formed(),
            final(self).source == old(self).source,
            final(self).line == old(self).line,
            final(self).current == number_end(old(self).source@, old(self).current as int),
            final(self).tokens@.len() == old(self).tokens@.len() + 1,
            final(self).tokens@.drop_last() == old(self).tokens@,
            token_matches(
                old(self).source@,
                Span {
                    typ: TokenType::Number,
                    start: old(self).start as int,
                    end: final(self).current as int,
                    line: old(self).line as int,
                },
                final(self).tokens@.last()@,
                *to_number,
            ),
    {
        proof {
            lemma_number_is_numeral(self.source@, self.start as int);
        }
        self.advance_while(CharClass::Digit);
        let dot = match self.peek() {
            Some(c) => c == '.',
            None => false,
        };
        if dot && Scanner::is_digit(self.peek_next()) {
            self.advance();
            self.advance_while(CharClass::Digit);
        }
        let text = slice_to_string(&self.source, self.start, self.current);
        let number = to_number(text);
        self.add_token_object(TokenType::Number, Some(Object::Num(number)));
    }

    /// Reads a word whose first character has just been read.
    fn identifier(&mut self)
        requires
            old(self).well_formed(),
            old(self).start + 1 == old(self).current,
            old(self).start_line == old(self).line,
        ensures
            final(self).well_formed(),
            final(self).current == run_end(
                old(self).source@,
                old(self).current as int,
                CharClass::Word,
            ),
            final(self).tokens@.len() == old(self).tokens@.len() + 1,
            final(self).tokens@.drop_last() == old(self).tokens@,
            final(self).tokens@.last()@ == (TokenView {
                typ: word_type(
                    old(self).source@.subrange(old(self).start as int, final(self).current as int),
                ),
                lexeme: old(self).source@.subrange(
                    old(self).start as int,
                    final(self).current as int,
                ),
                literal: None,
                line: old(self).line,
            }),
            *final(self) == (Scanner {
                tokens: final(self).tokens,
                current: final(self).current,
                ..*old(self)
            }),
    {
        self.advance_while(CharClass::Word);
        let word = slice_to_string(&self.source, self.start, self.current);
        if let Some(typ) = Scanner::keywords(word.as_str()) {
            self.add_token(typ);
        } else {
            self.add_token(TokenType::Identifier);
        }
    }

    /// Whether every character has been read.
    fn is_at_end(&self) -> (r: bool)
        ensures
            r == (self.current >= self.source.len()),
    {
        self.current >= self.source.len()
    }

    /// Reads the next character.
    fn advance(&mut self) -> (c: char)
        requires
            old(self).current < old(self).source.len(),
        ensures
            c == old(self).source@[old(self).current as int],
            *final(self) == (Scanner { current: (old(self).current + 1) as usize, ..*old(self) }),
    {
        self.current += 1;
        self.source[self.current - 1]
    }

    /// Reads on to the end of the run of `class` that starts at the current
    /// position.
    fn advance_while(&mut self, class: CharClass)
        requires
            old(self).current <= old(self).source.len(),
        ensures
            *final(self) == (Scanner { current: final(self).current, ..*old(self) }),
            final(self).current == run_end(old(self).source@, old(self).current as int, class),
            old(self).current <= final(self).current <= old(self).source.len(),
    {
        while self.current < self.source.len() && class.contains(self.source[self.current])
            invariant
                old(self).current <= self.current <= self.source.len(),
                *self == (Scanner { current: self.current, ..*old(self) }),
                run_end(self.source@, self.current as int, class) == run_end(
                    old(self).source@,
                    old(self).current as int,
                    class,
                ),
            decreases self.source.len() - self.current,
        {
            self.current += 1;
        }
    }

    /// Reads the next character if it is `expected`.
    fn try_match(&mut self, expected: char) -> (r: bool)
        requires
            old(self).current <= old(self).source.len(),
        ensures
            r == holds_at(old(self).source@, old(self).current as int, expected),
            r ==> *final(self) == (Scanner {
                current: (old(self).current + 1) as usize,
                ..*old(self)
            }),
            !r ==> *final(self) == *old(self),
    {
        if self.current < self.source.len() && self.source[self.current] == expected {
            self.current += 1;
            true
        } else {
            false
        }
    }

    /// The next character, if there is one.
    fn peek(&self) -> (r: Option<char>)
        ensures
            r == (if self.current < self.source.len() {
                Some(self.source@[self.current as int])
            } else {
                None
            }),
    {
        if self.current < self.source.len() {
            Some(self.source[self.current])
        } else {
            None
        }
    }

    /// The character behind the next one, if there is one.
    fn peek_next(&self) -> (r: Option<char>)
        requires
            self.current < usize::MAX,
        ensures
            r == (if self.current + 1 < self.source.len() {
                Some(self.source@[self.current + 1])
            } else {
                None
            }),
    {
        if self.current + 1 < self.source.len() {
            Some(self.source[self.current + 1])
        } else {
            None
        }
    }

    /// Appends the token of kind `typ` that has just been read.
    fn add_token(&mut self, typ: TokenType)
        requires
            old(self).start <= old(self).current <= old(self).source.len(),
        ensures
            final(self).tokens@.len() == old(self).tokens@.len() + 1,
            final(self).tokens@.drop_last() == old(self).tokens@,
            final(self).tokens@.last()@ == old(self).pending(typ, None),
            *final(self) == (Scanner { tokens: final(self).tokens, ..*old(self) }),
    {
        self.add_token_object(typ, None);
    }

    /// Appends the token of kind `typ` that has just been read, with the
    /// value it carries.
    fn add_token_object(&mut self, typ: TokenType, literal: Option<Object>)
        requires
            old(self).start <= old(self).current <= old(self).source.len(),
        ensures
            final(self).tokens@.len() == old(self).tokens@.len() + 1,
            final(self).tokens@.drop_last() == old(self).tokens@,
            final(self).tokens@.last()@ == old(self).pending(typ, literal),
            *final(self) == (Scanner { tokens: final(self).tokens, ..*old(self) }),
    {
        let lexeme = slice_to_string(&self.source, self.start, self.current);
        self.tokens.push(Token { typ, lexeme, literal, line: self.start_line });
    }

    /// Appends the end marker.
    fn add_token_eof(&mut self)
        ensures
            final(self).tokens@.len() == old(self).tokens@.len() + 1,
            final(self).tokens@.drop_last() == old(self).tokens@,
            final(self).tokens@.last()@ == (TokenView {
                typ: TokenType::Eof,
                lexeme: Seq::<char>::empty(),
                literal: None,
                line: old(self).line,
            }),
            *final(self) == (Scanner { tokens: final(self).tokens, ..*old(self) }),
    {
        self.tokens.push(Token { typ: TokenType::Eof, lexeme: String::new(), literal: None, line: self.line });
    }

    /// Whether `ch` is a decimal digit.
    fn is_digit(ch: Option<char>) -> (r: bool)
        ensures
            r == (ch is Some && is_digit_char(ch->Some_0)),
    {
        match ch {
            Some(c) => '0' <= c && c <= '9',
            None => false,
        }
    }

    /// Whether `ch` is a letter or an underscore.
    fn is_alpha(ch: Option<char>) -> (r: bool)
        ensures
            r == (ch is Some && is_alpha_char(ch->Some_0)),
    {
        match ch {
            Some(c) => ('a' <= c && c <= 'z') || ('A' <= c && c <= 'Z') || c == '_',
            None => false,
        }
    }

    /// The kind of the keyword that `word` spells, if it spells one.
    fn keywords(word: &str) -> (r: Option<TokenType>)
        ensures
            r == keyword(word@),
    {
        if same_text(word, "and") {
            Some(TokenType::And)
        } else if same_text(word, "class") {
            Some(TokenType::Class)
        } else if same_text(word, "else") {
            Some(TokenType::Else)
        } else if same_text(word, "false") {
            Some(TokenType::False)
        } else if same_text(word, "for") {
            Some(TokenType::For)
        } else if same_text(word, "fun") {
            Some(TokenType::Fun)
        } else if same_text(word, "if") {
            Some(TokenType::If)
        } else if same_text(word, "nil") {
            Some(TokenType::Nil)
        } else if same_text(word, "or") {
            Some(TokenType::Or)
        } else if same_text(word, "print") {
            Some(TokenType::Print)
        } else if same_text(word, "return") {
            Some(TokenType::Return)
        } else if same_text(word, "super") {
            Some(TokenType::Super)
        } else if same_text(word, "this") {
            Some(TokenType::This)
        } else if same_text(word, "true") {
            Some(TokenType::True)
        } else if same_text(word, "var") {
            Some(TokenType::Var)
        } else if same_text(word, "while") {
            Some(TokenType::While)
        } else {
            None
        }
    }
}

} // verus!

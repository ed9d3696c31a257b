//! The lexical structure of the language: which tokens a text holds.
use vstd::prelude::*;
use crate::error::SyntaxErrorView;
use crate::number::Number;
use crate::object::ObjectView;
use crate::token::{Token, TokenType, TokenView};

verus! {

/// Whether `c` is a decimal digit.
pub open spec fn is_digit_char(c: char) -> bool {
    '0' <= c <= '9'
}

/// Whether `c` may start an identifier: a letter of the Latin alphabet or an
/// underscore.
pub open spec fn is_alpha_char(c: char) -> bool {
    ('a' <= c <= 'z') || ('A' <= c <= 'Z') || c == '_'
}

/// A class of characters that a run is made of.
#[derive(Debug, Clone, Copy, PartialEq, Eq, Structural)]
pub enum CharClass {
    /// Decimal digits.
    Digit,
    /// Letters, digits and the underscore.
    Word,
    /// Everything but the line feed.
    InLine,
    /// Everything but the double quote.
    InString,
}

impl CharClass {
    /// Whether `c` belongs to the class.
    pub open spec fn holds(self, c: char) -> bool {
        match self {
            CharClass::Digit => is_digit_char(c),
            CharClass::Word => is_alpha_char(c) || is_digit_char(c),
            CharClass::InLine => c != '\n',
            CharClass::InString => c != '"',
        }
    }

    /// Whether `c` belongs to the class.
    pub fn contains(&self, c: char) -> (r: bool)
        ensures
            r == self.holds(c),
    {
        match self {
            CharClass::Digit => '0' <= c && c <= '9',
            CharClass::Word => ('a' <= c && c <= 'z') || ('A' <= c && c <= 'Z') || c == '_' || (
            '0' <= c && c <= '9'),
            CharClass::InLine => c != '\n',
            CharClass::InString => c != '"',
        }
    }
}

/// Where the longest run of characters of `class` that starts at `pos` ends:
/// the first position from `pos` on that holds no such character, or the end
/// of `s`.
pub open spec fn run_end(s: Seq<char>, pos: int, class: CharClass) -> int
    decreases s.len() - pos,
{
    if 0 <= pos < s.len() && class.holds(s[pos]) {
        run_end(s, pos + 1, class)
    } else {
        pos
    }
}

/// How many line feeds `s` holds from `from` up to, not including, `to`.
pub open spec fn newlines(s: Seq<char>, from: int, to: int) -> int
    decreases to - from,
{
    if from >= to {
        0
    } else {
        newlines(s, from, to - 1) + if s[to - 1] == '\n' {
            1int
        } else {
            0int
        }
    }
}

/// Whether the character at `pos` is `c`.
pub open spec fn holds_at(s: Seq<char>, pos: int, c: char) -> bool {
    0 <= pos < s.len() && s[pos] == c
}

/// Where a number ends whose first digit stands just before `pos`: after the
/// digits that follow and, if a dot and a digit come next, after the digits
/// behind that dot. A dot without a digit behind it is left alone.
pub open spec fn number_end(s: Seq<char>, pos: int) -> int {
    let whole = run_end(s, pos, CharClass::Digit);
    if holds_at(s, whole, '.') && whole + 1 < s.len() && is_digit_char(s[whole + 1]) {
        run_end(s, whole + 1, CharClass::Digit)
    } else {
        whole
    }
}

/// Whether `text` is a numeral: one digit or more, then possibly a dot and
/// one digit or more, and nothing else.
pub open spec fn is_numeral(text: Seq<char>) -> bool {
    let whole = run_end(text, 0, CharClass::Digit);
    &&& 1 <= whole
    &&& whole == text.len() || {
        &&& text[whole] == '.'
        &&& whole + 1 < text.len()
        &&& run_end(text, whole + 1, CharClass::Digit) == text.len()
    }
}

/// The keyword that `word` spells, if it spells one.
pub open spec fn keyword(word: Seq<char>) -> Option<TokenType> {
    if word == "and"@ {
        Some(TokenType::And)
    } else if word == "class"@ {
        Some(TokenType::Class)
    } else if word == "else"@ {
        Some(TokenType::Else)
    } else if word == "false"@ {
        Some(TokenType::False)
    } else if word == "for"@ {
        Some(TokenType::For)
    } else if word == "fun"@ {
        Some(TokenType::Fun)
    } else if word == "if"@ {
        Some(TokenType::If)
    } else if word == "nil"@ {
        Some(TokenType::Nil)
    } else if word == "or"@ {
        Some(TokenType::Or)
    } else if word == "print"@ {
        Some(TokenType::Print)
    } else if word == "return"@ {
        Some(TokenType::Return)
    } else if word == "super"@ {
        Some(TokenType::Super)
    } else if word == "this"@ {
        Some(TokenType::This)
    } else if word == "true"@ {
        Some(TokenType::True)
    } else if word == "var"@ {
        Some(TokenType::Var)
    } else if word == "while"@ {
        Some(TokenType::While)
    } else {
        None
    }
}

/// The kind of the word `word`: that of the keyword it spells, or
/// `Identifier`.
pub open spec fn word_type(word: Seq<char>) -> TokenType {
    match keyword(word) {
        Some(t) => t,
        None => TokenType::Identifier,
    }
}

/// What the scanner finds when it reads on from one position.
pub enum Found {
    /// A token of the given kind.
    Token(TokenType),
    /// White space or a comment.
    Nothing,
    /// A character that starts no token.
    Unexpected,
    /// A string that the end of the source cuts short.
    Unterminated,
}

/// One step of the scanner: what it found, where it stands afterwards and
/// what line that is.
pub struct Step {
    pub found: Found,
    pub end: int,
    pub line: int,
}

/// The one- or two-character operator read at `pos`: `long` if `=` follows
/// the first character, `short` otherwise.
pub open spec fn operator_step(s: Seq<char>, pos: int, line: int, short: TokenType, long: TokenType) -> Step {
    if holds_at(s, pos + 1, '=') {
        Step { found: Found::Token(long), end: pos + 2, line }
    } else {
        Step { found: Found::Token(short), end: pos + 1, line }
    }
}

/// The step that the scanner takes at `pos`, a position inside `s`, when the
/// character there is on line `line`. It always reads the longest token that
/// starts there.
#[verifier::opaque]
pub open spec fn step_at(s: Seq<char>, pos: int, line: int) -> Step
    recommends
        0 <= pos < s.len(),
{
    let c = s[pos];
    let single = |t: TokenType| Step { found: Found::Token(t), end: pos + 1, line };
    if c == '(' {
        single(TokenType::LeftParen)
    } else if c == ')' {
        single(TokenType::RightParen)
    } else if c == '{' {
        single(TokenType::LeftBrace)
    } else if c == '}' {
        single(TokenType::RightBrace)
    } else if c == ',' {
        single(TokenType::Comma)
    } else if c == '.' {
        single(TokenType::Dot)
    } else if c == '-' {
        single(TokenType::Minus)
    } else if c == '+' {
        single(TokenType::Plus)
    } else if c == ';' {
        single(TokenType::SemiColon)
    } else if c == '*' {
        single(TokenType::Star)
    } else if c == '!' {
        operator_step(s, pos, line, TokenType::Bang, TokenType::BangEqual)
    } else if c == '=' {
        operator_step(s, pos, line, TokenType::Equal, TokenType::EqualEqual)
    } else if c == '>' {
        operator_step(s, pos, line, TokenType::Greater, TokenType::GreaterEqual)
    } else if c == '<' {
        operator_step(s, pos, line, TokenType::Less, TokenType::LessEqual)
    } else if c == '/' {
        if holds_at(s, pos + 1, '/') {
            Step { found: Found::Nothing, end: run_end(s, pos + 2, CharClass::InLine), line }
        } else {
            single(TokenType::Slash)
        }
    } else if c == ' ' || c == '\r' || c == '\t' {
        Step { found: Found::Nothing, end: pos + 1, line }
    } else if c == '\n' {
        Step { found: Found::Nothing, end: pos + 1, line: line + 1 }
    } else if c == '"' {
        let close = run_end(s, pos + 1, CharClass::InString);
        if close < s.len() {
            Step {
                found: Found::Token(TokenType::String),
                end: close + 1,
                line: line + newlines(s, pos + 1, close),
            }
        } else {
            Step { found: Found::Unterminated, end: close, line: line + newlines(s, pos + 1, close) }
        }
    } else if is_digit_char(c) {
        Step { found: Found::Token(TokenType::Number), end: number_end(s, pos + 1), line }
    } else if is_alpha_char(c) {
        let end = run_end(s, pos + 1, CharClass::Word);
        Step { found: Found::Token(word_type(s.subrange(pos, end))), end, line }
    } else {
        Step { found: Found::Unexpected, end: pos + 1, line }
    }
}

/// The place of a token in the source: its kind, the positions where its
/// text starts and ends, and the line of its first character.
pub struct Span {
    pub typ: TokenType,
    pub start: int,
    pub end: int,
    pub line: int,
}

/// What a scan yields: the places of the tokens, in order, and the error that
/// the scan reports, if there was one.
pub struct Scanned {
    pub spans: Seq<Span>,
    pub error: Option<SyntaxErrorView>,
}

/// The error that a step stands for, if it stands for one. An unexpected
/// character is attributed to its line, an unterminated string to the line
/// on which it starts.
pub open spec fn step_error(found: Found, line: int) -> Option<SyntaxErrorView> {
    match found {
        Found::Unexpected => Some(
            SyntaxErrorView { line: line as usize, message: "Unexpected character"@ },
        ),
        Found::Unterminated => Some(
            SyntaxErrorView { line: line as usize, message: "Unterminated string"@ },
        ),
        _ => None,
    }
}

/// The scan of `s` from `pos` on, where the character at `pos` is on line
/// `line`. Each step contributes its token, if it found one; the end of the
/// source contributes the end marker, with empty text, on the line reached.
/// Of several errors the scan reports the last.
pub open spec fn scan_from(s: Seq<char>, pos: int, line: int) -> Scanned
    decreases s.len() - pos,
    via scan_from_terminates
{
    if !(0 <= pos < s.len()) {
        Scanned {
            spans: seq![Span { typ: TokenType::Eof, start: s.len() as int, end: s.len() as int, line }],
            error: None,
        }
    } else {
        let step = step_at(s, pos, line);
        let rest = scan_from(s, step.end, step.line);
        Scanned {
            spans: match step.found {
                Found::Token(typ) => seq![Span { typ, start: pos, end: step.end, line }]
                    + rest.spans,
                _ => rest.spans,
            },
            error: if rest.error is Some {
                rest.error
            } else {
                step_error(step.found, line)
            },
        }
    }
}

/// The scan comes to an end because every step moves forward.
#[via_fn]
proof fn scan_from_terminates(s: Seq<char>, pos: int, line: int) {
    if 0 <= pos < s.len() {
        lemma_step_advances(s, pos, line);
    }
}

/// The scan of the whole of `s`.
pub open spec fn scan(s: Seq<char>) -> Scanned {
    scan_from(s, 0, 1)
}

/// Whether `to_number` can be asked for the value of every numeral.
pub open spec fn converter_ready<F: Fn(String) -> Number>(to_number: F) -> bool {
    forall|text: String| is_numeral(text@) ==> #[trigger] to_number.requires((text,))
}

/// Whether `n` is a value that `to_number` may give for the numeral `lexeme`.
pub open spec fn converts_to<F: Fn(String) -> Number>(to_number: F, lexeme: Seq<char>, n: Number) -> bool {
    exists|text: String| text@ == lexeme && to_number.ensures((text,), n)
}

/// Whether `token` is the token that stands at `span` in `s`: of that kind,
/// with the text of that place and on that line. A string carries the text
/// between its quotes, a number the value that `to_number` gave for its
/// text, and no other token carries a value.
pub open spec fn token_matches<F: Fn(String) -> Number>(
    s: Seq<char>,
    span: Span,
    token: TokenView,
    to_number: F,
) -> bool {
    &&& token.typ == span.typ
    &&& token.lexeme == s.subrange(span.start, span.end)
    &&& token.line == span.line
    &&& match span.typ {
        TokenType::String => token.literal == Some(
            ObjectView::Str(s.subrange(span.start + 1, span.end - 1)),
        ),
        TokenType::Number => token.literal is Some && token.literal->Some_0 is Num && converts_to(
            to_number,
            token.lexeme,
            token.literal->Some_0->Num_0,
        ),
        _ => token.literal is None,
    }
}

/// Whether `tokens` are, one by one, the tokens that stand at `spans` in `s`.
pub open spec fn tokens_match<F: Fn(String) -> Number>(
    s: Seq<char>,
    spans: Seq<Span>,
    tokens: Seq<Token>,
    to_number: F,
) -> bool {
    &&& tokens.len() == spans.len()
    &&& forall|i: int|
        0 <= i < spans.len() ==> token_matches(s, #[trigger] spans[i], tokens[i]@, to_number)
}

/// Whether every value that `to_number` may give for a text is the one that
/// `table` holds for its characters: whether `to_number` computes the
/// function `table`.
pub open spec fn reads<F: Fn(String) -> Number>(
    to_number: F,
    table: spec_fn(Seq<char>) -> Number,
) -> bool {
    forall|text: String, n: Number| #[trigger] to_number.ensures((text,), n) ==> n == table(text@)
}

/// The token that stands at `span` in `s` when numerals have the values
/// that `table` holds.
pub open spec fn token_at(s: Seq<char>, span: Span, table: spec_fn(Seq<char>) -> Number) -> TokenView {
    let lexeme = s.subrange(span.start, span.end);
    TokenView {
        typ: span.typ,
        lexeme,
        literal: match span.typ {
            TokenType::String => Some(ObjectView::Str(s.subrange(span.start + 1, span.end - 1))),
            TokenType::Number => Some(ObjectView::Num(table(lexeme))),
            _ => None,
        },
        line: span.line as usize,
    }
}

/// A run ends between its start and the end of the source, holds only
/// characters of its class, and stops at the first character that is not of
/// the class.
pub proof fn lemma_run_end(s: Seq<char>, pos: int, class: CharClass)
    requires
        0 <= pos <= s.len(),
    ensures
        pos <= run_end(s, pos, class) <= s.len(),
        forall|i: int| pos <= i < run_end(s, pos, class) ==> class.holds(#[trigger] s[i]),
        run_end(s, pos, class) < s.len() ==> !class.holds(s[run_end(s, pos, class)]),
    decreases s.len() - pos,
{
    if pos < s.len() && class.holds(s[pos]) {
        lemma_run_end(s, pos + 1, class);
    }
}

/// A range holds no more line feeds than characters.
pub proof fn lemma_newlines_bound(s: Seq<char>, from: int, to: int)
    requires
        from <= to,
    ensures
        0 <= newlines(s, from, to) <= to - from,
    decreases to - from,
{
    if from < to {
        lemma_newlines_bound(s, from, to - 1);
    }
}

/// Every step moves forward, stays within the source, and never lowers the
/// line count nor raises it by more than the characters it reads.
pub proof fn lemma_step_advances(s: Seq<char>, pos: int, line: int)
    requires
        0 <= pos < s.len(),
    ensures
        pos < step_at(s, pos, line).end <= s.len(),
        line <= step_at(s, pos, line).line <= line + (step_at(s, pos, line).end - pos),
{
    reveal(step_at);
    lemma_run_end(s, pos + 1, CharClass::Digit);
    lemma_run_end(s, pos + 1, CharClass::Word);
    lemma_run_end(s, pos + 1, CharClass::InString);
    let whole = run_end(s, pos + 1, CharClass::Digit);
    if whole + 1 < s.len() {
        lemma_run_end(s, whole + 1, CharClass::Digit);
    }
    if pos + 2 <= s.len() {
        lemma_run_end(s, pos + 2, CharClass::InLine);
    }
    let close = run_end(s, pos + 1, CharClass::InString);
    lemma_newlines_bound(s, pos + 1, close);
}

/// A scan ends with the end marker and with no other; the lines of its
/// tokens never decrease; each token but the end marker has text of its own
/// inside the source, and the texts follow one another.
pub proof fn lemma_scan_shape(s: Seq<char>, pos: int, line: int)
    requires
        0 <= pos <= s.len(),
    ensures
        ({
            let spans = scan_from(s, pos, line).spans;
            &&& spans.len() >= 1
            &&& spans.last().typ == TokenType::Eof
            &&& forall|i: int|
                0 <= i < spans.len() ==> {
                    &&& line <= (#[trigger] spans[i]).line
                    &&& pos <= spans[i].start <= spans[i].end <= s.len()
                }
            &&& forall|i: int, j: int|
                0 <= i <= j < spans.len() ==> (#[trigger] spans[i]).line <= (#[trigger] spans[j]).line
            &&& forall|i: int|
                0 <= i < spans.len() - 1 ==> {
                    &&& (#[trigger] spans[i]).typ != TokenType::Eof
                    &&& spans[i].start < spans[i].end
                }
            &&& forall|i: int, j: int|
                0 <= i < j < spans.len() ==> (#[trigger] spans[i]).end <= (#[trigger] spans[j]).start
        }),
    decreases s.len() - pos,
{
    if pos < s.len() {
        let step = step_at(s, pos, line);
        lemma_step_advances(s, pos, line);
        lemma_scan_shape(s, step.end, step.line);
        let rest = scan_from(s, step.end, step.line).spans;
        let spans = scan_from(s, pos, line).spans;
        match step.found {
            Found::Token(typ) => {
                assert(typ != TokenType::Eof) by {
                    reveal(step_at);
                }
                assert forall|i: int| 0 < i < spans.len() implies #[trigger] spans[i] == rest[i - 1] by {}
            },
            _ => {},
        }
    }
}

/// The scan of a whole text ends with the end marker, which stands nowhere
/// else in it, and the lines of its tokens start at one and never decrease.
pub proof fn lemma_scan_ends_and_lines_rise(s: Seq<char>)
    ensures
        scan(s).spans.len() >= 1,
        scan(s).spans.last().typ == TokenType::Eof,
        forall|i: int|
            0 <= i < scan(s).spans.len() - 1 ==> (#[trigger] scan(s).spans[i]).typ
                != TokenType::Eof,
        forall|i: int| 0 <= i < scan(s).spans.len() ==> 1 <= (#[trigger] scan(s).spans[i]).line,
        forall|i: int, j: int|
            0 <= i <= j < scan(s).spans.len() ==> (#[trigger] scan(s).spans[i]).line <= (
            #[trigger] scan(s).spans[j]).line,
{
    lemma_scan_shape(s, 0, 1);
}

/// Inside a part of the source that a run does not leave, the run is the
/// same as in the whole.
pub proof fn lemma_run_end_in_part(s: Seq<char>, from: int, to: int, pos: int, class: CharClass)
    requires
        0 <= from <= pos <= to <= s.len(),
        run_end(s, pos, class) <= to,
    ensures
        run_end(s.subrange(from, to), pos - from, class) == run_end(s, pos, class) - from,
    decreases to - pos,
{
    if pos < s.len() && class.holds(s[pos]) {
        lemma_run_end(s, pos + 1, class);
        assert(s.subrange(from, to)[pos - from] == s[pos]);
        lemma_run_end_in_part(s, from, to, pos + 1, class);
    }
}

/// The text of a number token is a numeral.
pub proof fn lemma_number_is_numeral(s: Seq<char>, start: int)
    requires
        0 <= start < s.len(),
        is_digit_char(s[start]),
    ensures
        start < number_end(s, start + 1) <= s.len(),
        is_numeral(s.subrange(start, number_end(s, start + 1))),
{
    let end = number_end(s, start + 1);
    let whole = run_end(s, start + 1, CharClass::Digit);
    lemma_run_end(s, start + 1, CharClass::Digit);
    if whole + 1 < s.len() {
        lemma_run_end(s, whole + 1, CharClass::Digit);
    }
    lemma_run_end_in_part(s, start, end, start + 1, CharClass::Digit);
    if holds_at(s, whole, '.') && whole + 1 < s.len() && is_digit_char(s[whole + 1]) {
        assert(end >= whole + 2) by {
            reveal_with_fuel(run_end, 2);
        }
        lemma_run_end_in_part(s, start, end, whole + 1, CharClass::Digit);
    }
}

/// Matching tokens stay matching when a matching token joins each list.
pub proof fn lemma_tokens_match_push<F: Fn(String) -> Number>(
    s: Seq<char>,
    spans: Seq<Span>,
    tokens: Seq<Token>,
    span: Span,
    token: Token,
    to_number: F,
)
    requires
        tokens_match(s, spans, tokens, to_number),
        token_matches(s, span, token@, to_number),
    ensures
        tokens_match(s, spans.push(span), tokens.push(token), to_number),
{
    let grown = spans.push(span);
    assert forall|i: int| 0 <= i < grown.len() implies token_matches(
        s,
        #[trigger] grown[i],
        tokens.push(token)[i]@,
        to_number,
    ) by {
        if i < spans.len() {
            assert(grown[i] == spans[i]);
        }
    }
}

/// The lines of matching tokens are those of their places.
pub proof fn lemma_tokens_match_lines<F: Fn(String) -> Number>(
    s: Seq<char>,
    spans: Seq<Span>,
    tokens: Seq<Token>,
    to_number: F,
)
    requires
        tokens_match(s, spans, tokens, to_number),
    ensures
        forall|i: int|
            0 <= i < tokens.len() ==> {
                &&& (#[trigger] tokens[i])@.line == spans[i].line
                &&& tokens[i]@.typ == spans[i].typ
            },
{
    assert forall|i: int| 0 <= i < tokens.len() implies {
        &&& (#[trigger] tokens[i])@.line == spans[i].line
        &&& tokens[i]@.typ == spans[i].typ
    } by {
        assert(token_matches(s, spans[i], tokens[i]@, to_number));
    }
}

/// Where `to_number` computes the function `table`, one token only stands
/// at a place.
pub proof fn lemma_token_matches_is_token_at<F: Fn(String) -> Number>(
    s: Seq<char>,
    span: Span,
    token: TokenView,
    to_number: F,
    table: spec_fn(Seq<char>) -> Number,
)
    requires
        token_matches(s, span, token, to_number),
        reads(to_number, table),
    ensures
        token == token_at(s, span, table),
{
}

/// A token that stands at a place carries a value where its kind asks for
/// one, and nowhere else.
pub proof fn lemma_matching_token_is_well_formed<F: Fn(String) -> Number>(
    s: Seq<char>,
    span: Span,
    token: TokenView,
    to_number: F,
)
    requires
        token_matches(s, span, token, to_number),
    ensures
        token.well_formed(),
{
}

} // verus!

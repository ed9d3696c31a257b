//! Lexical units.
use vstd::prelude::*;
use vstd::string::*;
use crate::number::Number;
use crate::object::{display_ready, shown, writes, written, Object, ObjectView};

verus! {

/// The lexical category of a token.
#[derive(Debug, Clone, Copy, PartialEq, Eq, Structural)]
pub enum TokenType {
    LeftParen,
    RightParen,
    LeftBrace,
    RightBrace,
    Comma,
    Dot,
    Minus,
    Plus,
    SemiColon,
    Slash,
    Star,
    Bang,
    BangEqual,
    Equal,
    EqualEqual,
    Greater,
    GreaterEqual,
    Less,
    LessEqual,
    Identifier,
    String,
    Number,
    And,
    Class,
    Else,
    False,
    Fun,
    For,
    If,
    Nil,
    Or,
    Print,
    Return,
    Super,
    This,
    True,
    Var,
    While,
    Eof,
}

impl TokenType {
    /// Whether a statement may begin with a token of this kind.
    pub open spec fn spec_starts_statement(self) -> bool {
        self == TokenType::Class || self == TokenType::Fun || self == TokenType::Var
            || self == TokenType::For || self == TokenType::If || self == TokenType::While
            || self == TokenType::Print || self == TokenType::Return
    }

    /// The name of the kind, as it is written in this file.
    pub open spec fn spec_name(self) -> Seq<char> {
        match self {
            TokenType::LeftParen => "LeftParen"@,
            TokenType::RightParen => "RightParen"@,
            TokenType::LeftBrace => "LeftBrace"@,
            TokenType::RightBrace => "RightBrace"@,
            TokenType::Comma => "Comma"@,
            TokenType::Dot => "Dot"@,
            TokenType::Minus => "Minus"@,
            TokenType::Plus => "Plus"@,
            TokenType::SemiColon => "SemiColon"@,
            TokenType::Slash => "Slash"@,
            TokenType::Star => "Star"@,
            TokenType::Bang => "Bang"@,
            TokenType::BangEqual => "BangEqual"@,
            TokenType::Equal => "Equal"@,
            TokenType::EqualEqual => "EqualEqual"@,
            TokenType::Greater => "Greater"@,
            TokenType::GreaterEqual => "GreaterEqual"@,
            TokenType::Less => "Less"@,
            TokenType::LessEqual => "LessEqual"@,
            TokenType::Identifier => "Identifier"@,
            TokenType::String => "String"@,
            TokenType::Number => "Number"@,
            TokenType::And => "And"@,
            TokenType::Class => "Class"@,
            TokenType::Else => "Else"@,
            TokenType::False => "False"@,
            TokenType::Fun => "Fun"@,
            TokenType::For => "For"@,
            TokenType::If => "If"@,
            TokenType::Nil => "Nil"@,
            TokenType::Or => "Or"@,
            TokenType::Print => "Print"@,
            TokenType::Return => "Return"@,
            TokenType::Super => "Super"@,
            TokenType::This => "This"@,
            TokenType::True => "True"@,
            TokenType::Var => "Var"@,
            TokenType::While => "While"@,
            TokenType::Eof => "Eof"@,
        }
    }

    /// Whether a statement may begin with a token of this kind.
    #[verifier::when_used_as_spec(spec_starts_statement)]
    pub fn starts_statement(self) -> (r: bool)
        ensures
            r == self.spec_starts_statement(),
    {
        self == TokenType::Class || self == TokenType::Fun || self == TokenType::Var
            || self == TokenType::For || self == TokenType::If || self == TokenType::While
            || self == TokenType::Print || self == TokenType::Return
    }

    /// The name of the kind, as it is written in this file.
    pub fn name(self) -> (r: &'static str)
        ensures
            r@ == self.spec_name(),
    {
        match self {
            TokenType::LeftParen => "LeftParen",
            TokenType::RightParen => "RightParen",
            TokenType::LeftBrace => "LeftBrace",
            TokenType::RightBrace => "RightBrace",
            TokenType::Comma => "Comma",
            TokenType::Dot => "Dot",
            TokenType::Minus => "Minus",
            TokenType::Plus => "Plus",
            TokenType::SemiColon => "SemiColon",
            TokenType::Slash => "Slash",
            TokenType::Star => "Star",
            TokenType::Bang => "Bang",
            TokenType::BangEqual => "BangEqual",
            TokenType::Equal => "Equal",
            TokenType::EqualEqual => "EqualEqual",
            TokenType::Greater => "Greater",
            TokenType::GreaterEqual => "GreaterEqual",
            TokenType::Less => "Less",
            TokenType::LessEqual => "LessEqual",
            TokenType::Identifier => "Identifier",
            TokenType::String => "String",
            TokenType::Number => "Number",
            TokenType::And => "And",
            TokenType::Class => "Class",
            TokenType::Else => "Else",
            TokenType::False => "False",
            TokenType::Fun => "Fun",
            TokenType::For => "For",
            TokenType::If => "If",
            TokenType::Nil => "Nil",
            TokenType::Or => "Or",
            TokenType::Print => "Print",
            TokenType::Return => "Return",
            TokenType::Super => "Super",
            TokenType::This => "This",
            TokenType::True => "True",
            TokenType::Var => "Var",
            TokenType::While => "While",
            TokenType::Eof => "Eof",
        }
    }
}

/// A lexical unit: its kind, the source text it was read from, the value it
/// denotes if it is a literal, and the line on which it starts.
#[derive(Debug)]
pub struct Token {
    pub typ: TokenType,
    pub lexeme: std::string::String,
    pub literal: Option<Object>,
    pub line: usize,
}

/// What a `Token` is: its fields, with characters in place of strings.
pub struct TokenView {
    pub typ: TokenType,
    pub lexeme: Seq<char>,
    pub literal: Option<ObjectView>,
    pub line: usize,
}

/// What an optional value is.
pub open spec fn literal_view(literal: Option<Object>) -> Option<ObjectView> {
    match literal {
        Some(v) => Some(v@),
        None => None,
    }
}

impl View for Token {
    type V = TokenView;

    open spec fn view(&self) -> TokenView {
        TokenView {
            typ: self.typ,
            lexeme: self.lexeme@,
            literal: literal_view(self.literal),
            line: self.line,
        }
    }
}

/// What the tokens of a list are.
pub open spec fn token_views(tokens: Seq<Token>) -> Seq<TokenView> {
    tokens.map_values(|t: Token| t@)
}

impl TokenView {
    /// A number token carries a number, a string token carries a string, and
    /// no other token carries a value.
    pub open spec fn well_formed(self) -> bool {
        match self.typ {
            TokenType::Number => self.literal is Some && self.literal->Some_0 is Num,
            TokenType::String => self.literal is Some && self.literal->Some_0 is Str,
            _ => self.literal is None,
        }
    }
}

/// The text of a token whose value reads `literal`: the name of its kind,
/// its lexeme and the value, with a space between each two.
pub open spec fn token_text(name: Seq<char>, lexeme: Seq<char>, literal: Seq<char>) -> Seq<char> {
    name + " "@ + lexeme + " "@ + literal
}

/// Whether `text` describes `token` when numbers are written by `show`:
/// its kind, its lexeme, and its value or, where it carries none, `None`.
pub open spec fn describes<F: Fn(Number) -> std::string::String>(
    token: TokenView,
    show: F,
    text: Seq<char>,
) -> bool {
    exists|literal: Seq<char>|
        {
            &&& match token.literal {
                Some(v) => shown(v, show, literal),
                None => literal == "None"@,
            }
            &&& text == #[trigger] token_text(token.typ.spec_name(), token.lexeme, literal)
        }
}

/// The text that describes `token` when numbers are written as `table`
/// says.
pub open spec fn description(token: TokenView, table: spec_fn(Number) -> Seq<char>) -> Seq<char> {
    token_text(
        token.typ.spec_name(),
        token.lexeme,
        match token.literal {
            Some(v) => written(v, table),
            None => "None"@,
        },
    )
}

impl Clone for Token {
    fn clone(&self) -> (r: Token)
        ensures
            r@ == self@,
    {
        let literal = match &self.literal {
            Some(v) => Some(v.clone()),
            None => None,
        };
        Token { typ: self.typ, lexeme: self.lexeme.clone(), literal, line: self.line }
    }
}

impl Token {
    /// A token made of the four given parts.
    pub fn new(typ: TokenType, lexeme: &str, literal: Option<Object>, line: usize) -> (r: Token)
        ensures
            r@ == (TokenView { typ, lexeme: lexeme@, literal: literal_view(literal), line }),
    {
        Token { typ, lexeme: std::string::String::from_str(lexeme), literal, line }
    }

    /// The token as text, with numbers written by `show`.
    pub fn to_string<F: Fn(Number) -> std::string::String>(&self, show: &F) -> (r:
        std::string::String)
        requires
            display_ready(*show),
        ensures
            describes(self@, *show, r@),
    {
        let literal = match &self.literal {
            Some(literal) => literal.to_string(show),
            None => std::string::String::from_str("None"),
        };
        let mut out = std::string::String::from_str(self.typ.name());
        out.append(" ");
        out.append(self.lexeme.as_str());
        out.append(" ");
        out.append(literal.as_str());
        assert(out@ == token_text(self@.typ.spec_name(), self@.lexeme, literal@));
        out
    }
}

/// Where `show` computes the function `table`, a token is described in one
/// way only.
pub proof fn lemma_describes_is_description<F: Fn(Number) -> std::string::String>(
    token: TokenView,
    show: F,
    table: spec_fn(Number) -> Seq<char>,
    text: Seq<char>,
)
    requires
        describes(token, show, text),
        writes(show, table),
    ensures
        text == description(token, table),
{
}

} // verus!

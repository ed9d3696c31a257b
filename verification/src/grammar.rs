//! The grammar of expressions: which tree a list of tokens stands for.
use vstd::prelude::*;
use crate::error::SyntaxErrorView;
use crate::expr::ExprView;
use crate::object::ObjectView;
use crate::token::{TokenType, TokenView};

verus! {

/// A level of binary operators, from the one that binds tightest to the one
/// that binds loosest.
#[derive(Debug, Clone, Copy, PartialEq, Eq, Structural)]
pub enum Level {
    /// `/` and `*`
    Factor,
    /// `-` and `+`
    Term,
    /// `>`, `>=`, `<` and `<=`
    Comparison,
    /// `!=` and `==`
    Equality,
}

impl Level {
    /// The place of the level, counted from the tightest.
    pub open spec fn rank(self) -> nat {
        match self {
            Level::Factor => 1,
            Level::Term => 2,
            Level::Comparison => 3,
            Level::Equality => 4,
        }
    }

    /// Whether `typ` is an operator of the level.
    pub open spec fn has_operator(self, typ: TokenType) -> bool {
        match self {
            Level::Factor => typ == TokenType::Slash || typ == TokenType::Star,
            Level::Term => typ == TokenType::Minus || typ == TokenType::Plus,
            Level::Comparison => typ == TokenType::Greater || typ == TokenType::GreaterEqual || typ
                == TokenType::Less || typ == TokenType::LessEqual,
            Level::Equality => typ == TokenType::BangEqual || typ == TokenType::EqualEqual,
        }
    }
}

/// What parsing from one position comes to: a tree and the position behind
/// it, or an error and the position of the token it was detected at.
pub enum Parsed {
    Tree { expr: ExprView, next: int },
    Failure { error: SyntaxErrorView, at: int },
}

/// The kind of the token at `pos`, if there is one.
pub open spec fn kind_at(ts: Seq<TokenView>, pos: int) -> Option<TokenType> {
    if 0 <= pos < ts.len() {
        Some(ts[pos].typ)
    } else {
        None
    }
}

/// Whether the token at `pos` is an operator of `level`.
pub open spec fn operator_at(ts: Seq<TokenView>, pos: int, level: Level) -> bool {
    0 <= pos < ts.len() && level.has_operator(ts[pos].typ)
}

/// The line that an error at `pos` is attributed to: that of the token
/// there; behind the last token, that of the last token; line one if there
/// is no token at all.
pub open spec fn line_at(ts: Seq<TokenView>, pos: int) -> usize {
    if 0 <= pos < ts.len() {
        ts[pos].line
    } else if ts.len() > 0 {
        ts.last().line
    } else {
        1
    }
}

/// The failure to find, at `pos`, what `message` asks for.
pub open spec fn failure_at(ts: Seq<TokenView>, pos: int, message: Seq<char>) -> Parsed {
    Parsed::Failure { error: SyntaxErrorView { line: line_at(ts, pos), message }, at: pos }
}

/// `primary`: one of `false`, `true`, `nil`, a number, a string, or an
/// expression between parentheses. A number or string token that carries no
/// value is no expression.
pub open spec fn parse_primary(ts: Seq<TokenView>, pos: int) -> Parsed
    decreases ts.len() - pos, 0nat,
{
    match kind_at(ts, pos) {
        Some(TokenType::False) => Parsed::Tree {
            expr: ExprView::Literal(ObjectView::False),
            next: pos + 1,
        },
        Some(TokenType::True) => Parsed::Tree {
            expr: ExprView::Literal(ObjectView::True),
            next: pos + 1,
        },
        Some(TokenType::Nil) => Parsed::Tree {
            expr: ExprView::Literal(ObjectView::Nil),
            next: pos + 1,
        },
        Some(TokenType::Number) | Some(TokenType::String) => match ts[pos].literal {
            Some(value) => Parsed::Tree { expr: ExprView::Literal(value), next: pos + 1 },
            None => failure_at(ts, pos, "Expect expression."@),
        },
        Some(TokenType::LeftParen) => match parse_expression(ts, pos + 1) {
            Parsed::Tree { expr, next } => if kind_at(ts, next) == Some(TokenType::RightParen) {
                Parsed::Tree { expr: ExprView::Grouping(Box::new(expr)), next: next + 1 }
            } else {
                failure_at(ts, next, "Expect ')' after expression."@)
            },
            failure => failure,
        },
        _ => failure_at(ts, pos, "Expect expression."@),
    }
}

/// `unary`: `!` or `-` in front of a `unary`, or else a `primary`.
pub open spec fn parse_unary(ts: Seq<TokenView>, pos: int) -> Parsed
    decreases ts.len() - pos, 1nat,
{
    if kind_at(ts, pos) == Some(TokenType::Bang) || kind_at(ts, pos) == Some(TokenType::Minus) {
        match parse_unary(ts, pos + 1) {
            Parsed::Tree { expr, next } => Parsed::Tree {
                expr: ExprView::Unary(ts[pos], Box::new(expr)),
                next,
            },
            failure => failure,
        }
    } else {
        parse_primary(ts, pos)
    }
}

/// An operand of `level`: an expression of the level below, a `unary` below
/// the lowest.
pub open spec fn parse_operand(ts: Seq<TokenView>, pos: int, level: Level) -> Parsed
    decreases ts.len() - pos, 3 * level.rank(),
{
    match level {
        Level::Factor => parse_unary(ts, pos),
        Level::Term => parse_level(ts, pos, Level::Factor),
        Level::Comparison => parse_level(ts, pos, Level::Term),
        Level::Equality => parse_level(ts, pos, Level::Comparison),
    }
}

/// What follows the operand `left` of `level` that ends at `pos`: as long as
/// an operator of the level comes next, the operand behind it, joined with
/// all that stands before into one binary node. This nests to the left.
///
/// The test on `next` is there for the recursion to be well founded. It
/// always holds, since an operand ends behind the position it starts at
/// (`lemma_parse_bounds`).
pub open spec fn parse_chain(ts: Seq<TokenView>, left: ExprView, pos: int, level: Level) -> Parsed
    decreases ts.len() - pos, 3 * level.rank() + 1,
{
    if operator_at(ts, pos, level) {
        match parse_operand(ts, pos + 1, level) {
            Parsed::Tree { expr, next } => {
                let joined = ExprView::Binary(Box::new(left), ts[pos], Box::new(expr));
                if pos < next <= ts.len() {
                    parse_chain(ts, joined, next, level)
                } else {
                    Parsed::Tree { expr: joined, next }
                }
            },
            failure => failure,
        }
    } else {
        Parsed::Tree { expr: left, next: pos }
    }
}

/// An expression of `level`: one operand, then the chain of operators and
/// operands behind it. The test on `next` always holds, as in `parse_chain`.
pub open spec fn parse_level(ts: Seq<TokenView>, pos: int, level: Level) -> Parsed
    decreases ts.len() - pos, 3 * level.rank() + 2,
{
    match parse_operand(ts, pos, level) {
        Parsed::Tree { expr, next } => if pos <= next <= ts.len() {
            parse_chain(ts, expr, next, level)
        } else {
            Parsed::Tree { expr, next }
        },
        failure => failure,
    }
}

/// `expression`: an expression of the loosest level.
pub open spec fn parse_expression(ts: Seq<TokenView>, pos: int) -> Parsed
    decreases ts.len() - pos, 15nat,
{
    parse_level(ts, pos, Level::Equality)
}

/// Where skipping stops when it stands at `pos`, behind a token already
/// skipped: at `pos` if the token before is a `;`, if the token there may
/// start a statement, or if no token is left; else where it stops from the
/// next position.
pub open spec fn resume_point(ts: Seq<TokenView>, pos: int) -> int
    decreases ts.len() - pos,
{
    if !(1 <= pos < ts.len()) {
        pos
    } else if ts[pos - 1].typ == TokenType::SemiColon {
        pos
    } else if ts[pos].typ.spec_starts_statement() {
        pos
    } else {
        resume_point(ts, pos + 1)
    }
}

/// Where recovery from an error at `pos` resumes: the token at `pos` is
/// skipped, and then all tokens up to a statement boundary. With no token at
/// `pos` there is nothing to skip.
pub open spec fn synchronized(ts: Seq<TokenView>, pos: int) -> int {
    if 0 <= pos < ts.len() {
        resume_point(ts, pos + 1)
    } else {
        pos
    }
}

/// Whether `parsed` lies within `len` tokens and behind `pos`: a tree ends
/// behind `pos`, a failure is detected at `pos` or behind it.
pub open spec fn parse_bounded(parsed: Parsed, pos: int, len: int) -> bool {
    match parsed {
        Parsed::Tree { expr, next } => pos < next <= len,
        Parsed::Failure { error, at } => pos <= at <= len,
    }
}

/// Parsing moves forward and stays within the tokens: a tree ends behind
/// the position it starts at, and a failure is detected at that position or
/// behind it.
pub proof fn lemma_parse_bounds(ts: Seq<TokenView>, pos: int)
    requires
        0 <= pos <= ts.len(),
    ensures
        parse_bounded(parse_primary(ts, pos), pos, ts.len() as int),
        parse_bounded(parse_unary(ts, pos), pos, ts.len() as int),
        forall|level: Level|
            parse_bounded(#[trigger] parse_operand(ts, pos, level), pos, ts.len() as int),
        forall|level: Level|
            parse_bounded(#[trigger] parse_level(ts, pos, level), pos, ts.len() as int),
        parse_bounded(parse_expression(ts, pos), pos, ts.len() as int),
{
    lemma_primary_bounds(ts, pos);
    lemma_unary_bounds(ts, pos);
    assert forall|level: Level|
        parse_bounded(#[trigger] parse_operand(ts, pos, level), pos, ts.len() as int) by {
        lemma_operand_bounds(ts, pos, level);
    }
    assert forall|level: Level|
        parse_bounded(#[trigger] parse_level(ts, pos, level), pos, ts.len() as int) by {
        lemma_level_bounds(ts, pos, level);
    }
    lemma_level_bounds(ts, pos, Level::Equality);
}

pub proof fn lemma_primary_bounds(ts: Seq<TokenView>, pos: int)
    requires
        0 <= pos <= ts.len(),
    ensures
        parse_bounded(parse_primary(ts, pos), pos, ts.len() as int),
    decreases ts.len() - pos, 0nat,
{
    if kind_at(ts, pos) == Some(TokenType::LeftParen) {
        lemma_level_bounds(ts, pos + 1, Level::Equality);
    }
}

pub proof fn lemma_unary_bounds(ts: Seq<TokenView>, pos: int)
    requires
        0 <= pos <= ts.len(),
    ensures
        parse_bounded(parse_unary(ts, pos), pos, ts.len() as int),
    decreases ts.len() - pos, 1nat,
{
    if kind_at(ts, pos) == Some(TokenType::Bang) || kind_at(ts, pos) == Some(TokenType::Minus) {
        lemma_unary_bounds(ts, pos + 1);
    } else {
        lemma_primary_bounds(ts, pos);
    }
}

pub proof fn lemma_operand_bounds(ts: Seq<TokenView>, pos: int, level: Level)
    requires
        0 <= pos <= ts.len(),
    ensures
        parse_bounded(parse_operand(ts, pos, level), pos, ts.len() as int),
    decreases ts.len() - pos, 3 * level.rank(),
{
    match level {
        Level::Factor => lemma_unary_bounds(ts, pos),
        Level::Term => lemma_level_bounds(ts, pos, Level::Factor),
        Level::Comparison => lemma_level_bounds(ts, pos, Level::Term),
        Level::Equality => lemma_level_bounds(ts, pos, Level::Comparison),
    }
}

pub proof fn lemma_chain_bounds(ts: Seq<TokenView>, left: ExprView, pos: int, level: Level)
    requires
        0 <= pos <= ts.len(),
    ensures
        match parse_chain(ts, left, pos, level) {
            Parsed::Tree { expr, next } => pos <= next <= ts.len(),
            Parsed::Failure { error, at } => pos < at <= ts.len(),
        },
    decreases ts.len() - pos, 3 * level.rank() + 1,
{
    if operator_at(ts, pos, level) {
        lemma_operand_bounds(ts, pos + 1, level);
        match parse_operand(ts, pos + 1, level) {
            Parsed::Tree { expr, next } => {
                let joined = ExprView::Binary(Box::new(left), ts[pos], Box::new(expr));
                lemma_chain_bounds(ts, joined, next, level);
            },
            _ => {},
        }
    }
}

pub proof fn lemma_level_bounds(ts: Seq<TokenView>, pos: int, level: Level)
    requires
        0 <= pos <= ts.len(),
    ensures
        parse_bounded(parse_level(ts, pos, level), pos, ts.len() as int),
    decreases ts.len() - pos, 3 * level.rank() + 2,
{
    lemma_operand_bounds(ts, pos, level);
    match parse_operand(ts, pos, level) {
        Parsed::Tree { expr, next } => {
            lemma_chain_bounds(ts, expr, next, level);
        },
        _ => {},
    }
}

/// Operators of one level nest to the left: where a second operator of the
/// level follows the operand behind the first, the first operator and its
/// two operands become the left operand of the second.
pub proof fn lemma_chain_nests_left(
    ts: Seq<TokenView>,
    a: ExprView,
    first: int,
    level: Level,
    b: ExprView,
    second: int,
    c: ExprView,
    next: int,
)
    requires
        0 <= first < ts.len(),
        operator_at(ts, first, level),
        parse_operand(ts, first + 1, level) == (Parsed::Tree { expr: b, next: second }),
        operator_at(ts, second, level),
        parse_operand(ts, second + 1, level) == (Parsed::Tree { expr: c, next }),
    ensures
        parse_chain(ts, a, first, level) == parse_chain(
            ts,
            ExprView::Binary(
                Box::new(ExprView::Binary(Box::new(a), ts[first], Box::new(b))),
                ts[second],
                Box::new(c),
            ),
            next,
            level,
        ),
{
    lemma_operand_bounds(ts, first + 1, level);
    lemma_operand_bounds(ts, second + 1, level);
    let ab = ExprView::Binary(Box::new(a), ts[first], Box::new(b));
    assert(parse_chain(ts, a, first, level) == parse_chain(ts, ab, second, level));
}

} // verus!

//! The parser: from tokens to an expression tree.
use vstd::prelude::*;
use vstd::string::*;
use crate::error::{SyntaxError, SyntaxErrorView};
use crate::expr::{BinaryExpr, Expr, GroupingExpr, LiteralExpr, UnaryExpr};
use crate::grammar::{
    kind_at, lemma_operand_bounds, line_at, parse_chain, parse_expression, parse_level,
    parse_primary, parse_unary, resume_point, synchronized, Level, Parsed,
};
use crate::object::Object;
use crate::token::{token_views, Token, TokenType, TokenView};

verus! {

/// A parser over one list of tokens, with the position of the next token to
/// read.
pub struct Parser {
    tokens: Vec<Token>,
    current: usize,
}

impl Parser {
    /// The tokens that the parser reads.
    pub closed spec fn tokens(&self) -> Seq<Token> {
        self.tokens@
    }

    /// The position of the next token to read.
    pub closed spec fn position(&self) -> int {
        self.current as int
    }

    /// The parser's invariant: its position lies within the tokens or just
    /// behind them.
    pub closed spec fn well_formed(&self) -> bool {
        self.current <= self.tokens.len()
    }

    /// What the tokens that the parser reads are.
    spec fn ts(&self) -> Seq<TokenView> {
        token_views(self.tokens@)
    }

    /// Whether the parser stands where `parsed` ends, over the tokens of
    /// `before`, and `r` is the result that `parsed` stands for.
    spec fn follows(&self, before: Parser, parsed: Parsed, r: Result<Box<Expr>, SyntaxError>) -> bool {
        &&& self.tokens == before.tokens
        &&& self.well_formed()
        &&& match parsed {
            Parsed::Tree { expr, next } => r is Ok && r->Ok_0@ == expr && self.current == next,
            Parsed::Failure { error, at } => r is Err && r->Err_0@ == error && self.current == at,
        }
    }

    /// A parser at the first of `tokens`.
    pub fn new(tokens: Vec<Token>) -> (r: Parser)
        ensures
            r.well_formed(),
            r.tokens() == tokens@,
            r.position() == 0,
    {
        Parser { tokens, current: 0 }
    }

    /// Parses one expression from the current position on. On success the
    /// parser stands behind the expression; what follows it is not looked
    /// at. On failure it stands at the token that the error was detected at.
    pub fn parse(&mut self) -> (r: Result<Box<Expr>, SyntaxError>)
        requires
            old(self).well_formed(),
        ensures
            final(self).well_formed(),
            final(self).tokens() == old(self).tokens(),
            match parse_expression(token_views(old(self).tokens()), old(self).position()) {
                Parsed::Tree { expr, next } => r is Ok && r->Ok_0@ == expr && final(self).position()
                    == next,
                Parsed::Failure { error, at } => r is Err && r->Err_0@ == error
                    && final(self).position() == at,
            },
    {
        return self.expression();
    }

    /// `expression`
    fn expression(&mut self) -> (r: Result<Box<Expr>, SyntaxError>)
        requires
            old(self).well_formed(),
        ensures
            final(self).follows(
                *old(self),
                parse_expression(old(self).ts(), old(self).current as int),
                r,
            ),
        decreases old(self).tokens.len() - old(self).current, 15nat,
    {
        return self.equality();
    }

    /// `equality`: comparisons joined by `!=` and `==`.
    fn equality(&mut self) -> (r: Result<Box<Expr>, SyntaxError>)
        requires
            old(self).well_formed(),
        ensures
            final(self).follows(
                *old(self),
                parse_level(old(self).ts(), old(self).current as int, Level::Equality),
                r,
            ),
        decreases old(self).tokens.len() - old(self).current, 14nat,
    {
        let ghost ts = self.ts();
        let ghost goal = parse_level(ts, self.current as int, Level::Equality);
        proof {
            lemma_operand_bounds(ts, self.current as int, Level::Equality);
        }
        let mut left = self.comparison()?;
        while self.try_match(&[TokenType::BangEqual, TokenType::EqualEqual])
            invariant
                self.well_formed(),
                self.tokens == old(self).tokens,
                old(self).current <= self.current,
                ts == self.ts(),
                goal == parse_level(ts, old(self).current as int, Level::Equality),
                parse_chain(ts, left@, self.current as int, Level::Equality) == goal,
            decreases self.tokens.len() - self.current,
        {
            let operator = self.tokens[self.current - 1].clone();
            proof {
                lemma_operand_bounds(ts, self.current as int, Level::Equality);
            }
            let right = self.comparison()?;
            left = BinaryExpr::new(left, operator, right);
        }
        Ok(left)
    }

    /// `comparison`: terms joined by `>`, `>=`, `<` and `<=`.
    fn comparison(&mut self) -> (r: Result<Box<Expr>, SyntaxError>)
        requires
            old(self).well_formed(),
        ensures
            final(self).follows(
                *old(self),
                parse_level(old(self).ts(), old(self).current as int, Level::Comparison),
                r,
            ),
        decreases old(self).tokens.len() - old(self).current, 11nat,
    {
        let ghost ts = self.ts();
        let ghost goal = parse_level(ts, self.current as int, Level::Comparison);
        proof {
            lemma_operand_bounds(ts, self.current as int, Level::Comparison);
        }
        let mut left = self.term()?;
        while self.try_match(
            &[
                TokenType::Greater,
                TokenType::GreaterEqual,
                TokenType::Less,
                TokenType::LessEqual,
            ],
        )
            invariant
                self.well_formed(),
                self.tokens == old(self).tokens,
                old(self).current <= self.current,
                ts == self.ts(),
                goal == parse_level(ts, old(self).current as int, Level::Comparison),
                parse_chain(ts, left@, self.current as int, Level::Comparison) == goal,
            decreases self.tokens.len() - self.current,
        {
            let operator = self.tokens[self.current - 1].clone();
            proof {
                lemma_operand_bounds(ts, self.current as int, Level::Comparison);
            }
            let right = self.term()?;
            left = BinaryExpr::new(left, operator, right);
        }
        Ok(left)
    }

    /// `term`: factors joined by `-` and `+`.
    fn term(&mut self) -> (r: Result<Box<Expr>, SyntaxError>)
        requires
            old(self).well_formed(),
        ensures
            final(self).follows(
                *old(self),
                parse_level(old(self).ts(), old(self).current as int, Level::Term),
                r,
            ),
        decreases old(self).tokens.len() - old(self).current, 8nat,
    {
        let ghost ts = self.ts();
        let ghost goal = parse_level(ts, self.current as int, Level::Term);
        proof {
            lemma_operand_bounds(ts, self.current as int, Level::Term);
        }
        let mut left = self.factor()?;
        while self.try_match(&[TokenType::Minus, TokenType::Plus])
            invariant
                self.well_formed(),
                self.tokens == old(self).tokens,
                old(self).current <= self.current,
                ts == self.ts(),
                goal == parse_level(ts, old(self).current as int, Level::Term),
                parse_chain(ts, left@, self.current as int, Level::Term) == goal,
            decreases self.tokens.len() - self.current,
        {
            let operator = self.tokens[self.current - 1].clone();
            proof {
                lemma_operand_bounds(ts, self.current as int, Level::Term);
            }
            let right = self.factor()?;
            left = BinaryExpr::new(left, operator, right);
        }
        Ok(left)
    }

    /// `factor`: unary expressions joined by `/` and `*`.
    fn factor(&mut self) -> (r: Result<Box<Expr>, SyntaxError>)
        requires
            old(self).well_formed(),
        ensures
            final(self).follows(
                *old(self),
                parse_level(old(self).ts(), old(self).current as int, Level::Factor),
                r,
            ),
        decreases old(self).tokens.len() - old(self).current, 5nat,
    {
        let ghost ts = self.ts();
        let ghost goal = parse_level(ts, self.current as int, Level::Factor);
        proof {
            lemma_operand_bounds(ts, self.current as int, Level::Factor);
        }
        let mut left = self.unary()?;
        while self.try_match(&[TokenType::Slash, TokenType::Star])
            invariant
                self.well_formed(),
                self.tokens == old(self).tokens,
                old(self).current <= self.current,
                ts == self.ts(),
                goal == parse_level(ts, old(self).current as int, Level::Factor),
                parse_chain(ts, left@, self.current as int, Level::Factor) == goal,
            decreases self.tokens.len() - self.current,
        {
            let operator = self.tokens[self.current - 1].clone();
            proof {
                lemma_operand_bounds(ts, self.current as int, Level::Factor);
            }
            let right = self.unary()?;
            left = BinaryExpr::new(left, operator, right);
        }
        Ok(left)
    }

    /// `unary`: `!` or `-` in front of a unary expression, or else a primary
    /// one.
    fn unary(&mut self) -> (r: Result<Box<Expr>, SyntaxError>)
        requires
            old(self).well_formed(),
        ensures
            final(self).follows(
                *old(self),
                parse_unary(old(self).ts(), old(self).current as int),
                r,
            ),
        decreases old(self).tokens.len() - old(self).current, 1nat,
    {
        if self.try_match(&[TokenType::Bang, TokenType::Minus]) {
            let operator = self.tokens[self.current - 1].clone();
            let right = self.unary()?;
            return Ok(UnaryExpr::new(operator, right));
        }
        return self.primary();
    }

    /// `primary`: a literal, or an expression between parentheses.
    fn primary(&mut self) -> (r: Result<Box<Expr>, SyntaxError>)
        requires
            old(self).well_formed(),
        ensures
            final(self).follows(
                *old(self),
                parse_primary(old(self).ts(), old(self).current as int),
                r,
            ),
        decreases old(self).tokens.len() - old(self).current, 0nat,
    {
        if self.try_match(&[TokenType::False]) {
            return Ok(LiteralExpr::new(Object::False));
        }
        if self.try_match(&[TokenType::True]) {
            return Ok(LiteralExpr::new(Object::True));
        }
        if self.try_match(&[TokenType::Nil]) {
            return Ok(LiteralExpr::new(Object::Nil));
        }
        if self.check(&TokenType::Number) || self.check(&TokenType::String) {
            if let Some(value) = &self.tokens[self.current].literal {
                let value = value.clone();
                self.current += 1;
                return Ok(LiteralExpr::new(value));
            }
        } else if self.try_match(&[TokenType::LeftParen]) {
            let expr = self.expression()?;
            self.consume(&TokenType::RightParen, "Expect ')' after expression.")?;
            return Ok(GroupingExpr::new(expr));
        }
        let line = self.line_here();
        Err(SyntaxError::new(line, String::from_str("Expect expression.")))
    }

    /// Reads the next token if its kind is one of `types`.
    fn try_match(&mut self, types: &[TokenType]) -> (r: bool)
        requires
            old(self).well_formed(),
        ensures
            r == (old(self).current < old(self).tokens.len() && types@.contains(
                old(self).ts()[old(self).current as int].typ,
            )),
            r ==> *final(self) == (Parser {
                current: (old(self).current + 1) as usize,
                ..*old(self)
            }),
            !r ==> *final(self) == *old(self),
    {
        let mut i: usize = 0;
        while i < types.len()
            invariant
                0 <= i <= types@.len(),
                *self == *old(self),
                forall|k: int|
                    0 <= k < i ==> kind_at(self.ts(), self.current as int) != Some(
                        #[trigger] types@[k],
                    ),
            decreases types@.len() - i,
        {
            if self.check(&types[i]) {
                self.advance();
                return true;
            }
            i += 1;
        }
        false
    }

    /// Reads the next token.
    fn advance(&mut self) -> (r: Option<&Token>)
        requires
            old(self).current < old(self).tokens.len(),
        ensures
            *final(self) == (Parser { current: (old(self).current + 1) as usize, ..*old(self) }),
            r is Some,
            *r->Some_0 == old(self).tokens@[old(self).current as int],
    {
        self.current += 1;
        self.previous()
    }

    /// Whether the next token is of kind `typ`.
    fn check(&self, typ: &TokenType) -> (r: bool)
        ensures
            r == (kind_at(self.ts(), self.current as int) == Some(*typ)),
    {
        match self.peek() {
            Some(token) => token.typ == *typ,
            None => false,
        }
    }

    /// The next token, if there is one.
    fn peek(&self) -> (r: Option<&Token>)
        ensures
            match r {
                Some(t) => self.current < self.tokens.len() && *t == self.tokens@[
                    self.current as int],
                None => self.current >= self.tokens.len(),
            },
    {
        if self.current < self.tokens.len() {
            Some(&self.tokens[self.current])
        } else {
            None
        }
    }

    /// The token read last, if there is one.
    fn previous(&self) -> (r: Option<&Token>)
        ensures
            match r {
                Some(t) => 1 <= self.current <= self.tokens.len() && *t == self.tokens@[self.current
                    - 1],
                None => !(1 <= self.current <= self.tokens.len()),
            },
    {
        if 1 <= self.current && self.current <= self.tokens.len() {
            Some(&self.tokens[self.current - 1])
        } else {
            None
        }
    }

    /// Reads the next token if it is of kind `typ`, and fails with `message`
    /// if it is not.
    fn consume(&mut self, typ: &TokenType, message: &str) -> (r: Result<Option<&Token>, SyntaxError>)
        requires
            old(self).well_formed(),
        ensures
            final(self).well_formed(),
            final(self).tokens == old(self).tokens,
            match r {
                Ok(_) => kind_at(old(self).ts(), old(self).current as int) == Some(*typ)
                    && final(self).current == old(self).current + 1,
                Err(e) => kind_at(old(self).ts(), old(self).current as int) != Some(*typ)
                    && final(self).current == old(self).current && e@ == (SyntaxErrorView {
                    line: line_at(old(self).ts(), old(self).current as int),
                    message: message@,
                }),
            },
    {
        if self.check(typ) {
            return Ok(self.advance());
        } else {
            let line = self.line_here();
            Err(SyntaxError::new(line, String::from_str(message)))
        }
    }

    /// The line that an error at the current position is attributed to.
    fn line_here(&self) -> (r: usize)
        requires
            self.well_formed(),
        ensures
            r == line_at(self.ts(), self.current as int),
    {
        match self.peek() {
            Some(token) => token.line,
            None => {
                if self.tokens.len() > 0 {
                    self.tokens[self.tokens.len() - 1].line
                } else {
                    1
                }
            },
        }
    }

    /// Skips the current token and then all tokens up to the next statement
    /// boundary: the parser stops behind a `;`, or in front of a token that
    /// may start a statement, or behind the last token.
    pub fn synchronize(&mut self)
        requires
            old(self).well_formed(),
        ensures
            final(self).well_formed(),
            final(self).tokens() == old(self).tokens(),
            final(self).position() == synchronized(
                token_views(old(self).tokens()),
                old(self).position(),
            ),
    {
        if self.current >= self.tokens.len() {
            return;
        }
        self.advance();
        while self.current < self.tokens.len()
            invariant
                1 <= self.current <= self.tokens.len(),
                self.tokens == old(self).tokens,
                resume_point(self.ts(), self.current as int) == resume_point(
                    self.ts(),
                    old(self).current + 1,
                ),
            decreases self.tokens.len() - self.current,
        {
            if self.tokens[self.current - 1].typ == TokenType::SemiColon {
                return;
            }
            if self.tokens[self.current].typ.starts_statement() {
                return;
            }
            self.advance();
        }
    }
}

} // verus!

//! Expression trees, their evaluation and their rendering as text.
use vstd::prelude::*;
use vstd::string::*;
use crate::error::{check_number_operands, check_string_operands, RuntimeError, RuntimeErrorView};
use crate::number::Number;
use crate::object::{display_ready, Object, ObjectView};
use crate::semantics::{
    applied, arithmetic_ready, binary_text, evaluates, grouping_text, lemma_binary_evaluates,
    lemma_unary_evaluates, negated, renders, unary_text, ArithOp, VerdictView,
};
use crate::token::{Token, TokenType, TokenView};

verus! {

/// An expression: a closed set of four kinds of node.
#[derive(Debug)]
pub enum Expr {
    Binary(BinaryExpr),
    Unary(UnaryExpr),
    Grouping(GroupingExpr),
    Literal(LiteralExpr),
}

/// Two operands joined by an operator.
#[derive(Debug)]
pub struct BinaryExpr {
    left: Box<Expr>,
    operator: Token,
    right: Box<Expr>,
}

/// An expression in parentheses.
#[derive(Debug)]
pub struct GroupingExpr {
    expression: Box<Expr>,
}

/// A value written out.
#[derive(Debug)]
pub struct LiteralExpr {
    value: Object,
}

/// An operator in front of its operand.
#[derive(Debug)]
pub struct UnaryExpr {
    operator: Token,
    right: Box<Expr>,
}

/// What an `Expr` is: the tree, with views in place of tokens and values.
pub enum ExprView {
    Binary(Box<ExprView>, TokenView, Box<ExprView>),
    Unary(TokenView, Box<ExprView>),
    Grouping(Box<ExprView>),
    Literal(ObjectView),
}

/// The tree that `e` holds.
pub closed spec fn tree(e: Expr) -> ExprView
    decreases e,
{
    match e {
        Expr::Binary(b) => ExprView::Binary(
            Box::new(tree(*b.left)),
            b.operator@,
            Box::new(tree(*b.right)),
        ),
        Expr::Unary(u) => ExprView::Unary(u.operator@, Box::new(tree(*u.right))),
        Expr::Grouping(g) => ExprView::Grouping(Box::new(tree(*g.expression))),
        Expr::Literal(l) => ExprView::Literal(l.value@),
    }
}

impl View for Expr {
    type V = ExprView;

    open spec fn view(&self) -> ExprView {
        tree(*self)
    }
}

impl View for BinaryExpr {
    type V = ExprView;

    closed spec fn view(&self) -> ExprView {
        ExprView::Binary(Box::new(tree(*self.left)), self.operator@, Box::new(tree(*self.right)))
    }
}

impl View for GroupingExpr {
    type V = ExprView;

    closed spec fn view(&self) -> ExprView {
        ExprView::Grouping(Box::new(tree(*self.expression)))
    }
}

impl View for LiteralExpr {
    type V = ExprView;

    closed spec fn view(&self) -> ExprView {
        ExprView::Literal(self.value@)
    }
}

impl View for UnaryExpr {
    type V = ExprView;

    closed spec fn view(&self) -> ExprView {
        ExprView::Unary(self.operator@, Box::new(tree(*self.right)))
    }
}

/// What a binary operator comes to, once both operands are known: a result,
/// which may be a failure, or an arithmetic operation that is still to be
/// carried out on two numbers.
#[derive(Debug)]
pub enum Verdict {
    Done(Result<Object, RuntimeError>),
    Compute(ArithOp, Number, Number),
}

/// What the result of an evaluation is.
pub open spec fn outcome_view(r: Result<Object, RuntimeError>) -> Result<
    ObjectView,
    RuntimeErrorView,
> {
    match r {
        Ok(v) => Ok(v@),
        Err(e) => Err(e@),
    }
}

impl View for Verdict {
    type V = VerdictView;

    open spec fn view(&self) -> VerdictView {
        match self {
            Verdict::Done(r) => VerdictView::Done(outcome_view(*r)),
            Verdict::Compute(op, a, b) => VerdictView::Compute(*op, *a, *b),
        }
    }
}

impl Expr {
    /// Evaluates the expression. Sums, differences, products and quotients
    /// of numbers are asked of `arith`, operands in the order written;
    /// everything else is decided here.
    pub fn eval<F: Fn(ArithOp, Number, Number) -> Number>(&self, arith: &F) -> (r: Result<
        Object,
        RuntimeError,
    >)
        requires
            arithmetic_ready(*arith),
        ensures
            evaluates(self@, *arith, outcome_view(r)),
        decreases self,
    {
        match self {
            Expr::Binary(b) => b.eval(arith),
            Expr::Unary(u) => u.eval(arith),
            Expr::Grouping(g) => g.eval(arith),
            Expr::Literal(l) => l.eval(),
        }
    }

    /// The expression in prefix form, with numbers written by `show`.
    pub fn to_string<F: Fn(Number) -> String>(&self, show: &F) -> (r: String)
        requires
            display_ready(*show),
        ensures
            renders(self@, *show, r@),
        decreases self,
    {
        match self {
            Expr::Binary(b) => b.to_string(show),
            Expr::Unary(u) => u.to_string(show),
            Expr::Grouping(g) => g.to_string(show),
            Expr::Literal(l) => l.to_string(show),
        }
    }
}

impl BinaryExpr {
    /// The node `left operator right`.
    pub fn new(left: Box<Expr>, operator: Token, right: Box<Expr>) -> (r: Box<Expr>)
        ensures
            r@ == ExprView::Binary(Box::new(left@), operator@, Box::new(right@)),
    {
        Box::new(Expr::Binary(BinaryExpr { left, operator, right }))
    }

    /// What `operator` comes to on the operands `left` and `right`.
    pub fn apply(operator: &Token, left: &Object, right: &Object) -> (v: Verdict)
        ensures
            v@ == applied(operator@, left@, right@),
    {
        match operator.typ {
            TokenType::EqualEqual => Verdict::Done(Ok(Object::new_bool(*left == *right))),
            TokenType::BangEqual => Verdict::Done(Ok(Object::new_bool(!(*left == *right)))),
            TokenType::Greater => match check_number_operands(operator, &[left, right]) {
                Err(e) => Verdict::Done(Err(e)),
                Ok(_) => Verdict::Done(Ok(Object::new_bool(left.num().greater(right.num())))),
            },
            TokenType::GreaterEqual => match check_number_operands(operator, &[left, right]) {
                Err(e) => Verdict::Done(Err(e)),
                Ok(_) => Verdict::Done(
                    Ok(Object::new_bool(left.num().greater_equal(right.num()))),
                ),
            },
            TokenType::Less => match check_number_operands(operator, &[left, right]) {
                Err(e) => Verdict::Done(Err(e)),
                Ok(_) => Verdict::Done(Ok(Object::new_bool(left.num().less(right.num())))),
            },
            TokenType::LessEqual => match check_number_operands(operator, &[left, right]) {
                Err(e) => Verdict::Done(Err(e)),
                Ok(_) => Verdict::Done(Ok(Object::new_bool(left.num().less_equal(right.num())))),
            },
            TokenType::Minus => match check_number_operands(operator, &[left, right]) {
                Err(e) => Verdict::Done(Err(e)),
                Ok(_) => Verdict::Compute(ArithOp::Subtract, left.num(), right.num()),
            },
            TokenType::Slash => match check_number_operands(operator, &[left, right]) {
                Err(e) => Verdict::Done(Err(e)),
                Ok(_) => Verdict::Compute(ArithOp::Divide, left.num(), right.num()),
            },
            TokenType::Star => match check_number_operands(operator, &[left, right]) {
                Err(e) => Verdict::Done(Err(e)),
                Ok(_) => Verdict::Compute(ArithOp::Multiply, left.num(), right.num()),
            },
            TokenType::Plus => {
                if check_number_operands(operator, &[left, right]).is_ok() {
                    Verdict::Compute(ArithOp::Add, left.num(), right.num())
                } else if check_string_operands(operator, &[left, right]).is_ok() {
                    Verdict::Done(Ok(Object::Str(String::from_str(left.str()).concat(right.str()))))
                } else {
                    Verdict::Done(
                        Err(
                            RuntimeError::new(
                                operator.clone(),
                                String::from_str("Operands must be numbers or strings."),
                            ),
                        ),
                    )
                }
            },
            _ => Verdict::Done(Ok(Object::Nil)),
        }
    }

    /// Evaluates the left operand, then the right one, and applies the
    /// operator to both.
    pub fn eval<F: Fn(ArithOp, Number, Number) -> Number>(&self, arith: &F) -> (r: Result<
        Object,
        RuntimeError,
    >)
        requires
            arithmetic_ready(*arith),
        ensures
            evaluates(self@, *arith, outcome_view(r)),
        decreases self,
    {
        let ghost l = tree(*self.left);
        let ghost r = tree(*self.right);
        let ghost op = self.operator@;
        let left = match self.left.eval(arith) {
            Ok(v) => v,
            Err(e) => {
                proof {
                    lemma_binary_evaluates(l, op, r, *arith, Err(e@), Err(e@), Err(e@));
                }
                return Err(e);
            },
        };
        let right = match self.right.eval(arith) {
            Ok(v) => v,
            Err(e) => {
                proof {
                    lemma_binary_evaluates(l, op, r, *arith, Ok(left@), Err(e@), Err(e@));
                }
                return Err(e);
            },
        };
        let out = match BinaryExpr::apply(&self.operator, &left, &right) {
            Verdict::Done(r) => r,
            Verdict::Compute(kind, a, b) => Ok(Object::Num(arith(kind, a, b))),
        };
        proof {
            lemma_binary_evaluates(l, op, r, *arith, Ok(left@), Ok(right@), outcome_view(out));
        }
        out
    }

    /// `( operator left right )`
    pub fn to_string<F: Fn(Number) -> String>(&self, show: &F) -> (r: String)
        requires
            display_ready(*show),
        ensures
            renders(self@, *show, r@),
        decreases self,
    {
        let left = self.left.to_string(show);
        let right = self.right.to_string(show);
        let mut out = String::from_str("( ");
        out.append(self.operator.lexeme.as_str());
        out.append(" ");
        out.append(left.as_str());
        out.append(" ");
        out.append(right.as_str());
        out.append(" )");
        assert(out@ == binary_text(self.operator@.lexeme, left@, right@));
        out
    }
}

impl GroupingExpr {
    /// The node `( expression )`.
    pub fn new(expression: Box<Expr>) -> (r: Box<Expr>)
        ensures
            r@ == ExprView::Grouping(Box::new(expression@)),
    {
        Box::new(Expr::Grouping(GroupingExpr { expression }))
    }

    /// Evaluates the expression inside.
    pub fn eval<F: Fn(ArithOp, Number, Number) -> Number>(&self, arith: &F) -> (r: Result<
        Object,
        RuntimeError,
    >)
        requires
            arithmetic_ready(*arith),
        ensures
            evaluates(self@, *arith, outcome_view(r)),
        decreases self,
    {
        self.expression.eval(arith)
    }

    /// `( expression )`
    pub fn to_string<F: Fn(Number) -> String>(&self, show: &F) -> (r: String)
        requires
            display_ready(*show),
        ensures
            renders(self@, *show, r@),
        decreases self,
    {
        let inner = self.expression.to_string(show);
        let mut out = String::from_str("( ");
        out.append(inner.as_str());
        out.append(" )");
        assert(out@ == grouping_text(inner@));
        out
    }
}

impl LiteralExpr {
    /// The node that stands for `value`.
    pub fn new(value: Object) -> (r: Box<Expr>)
        ensures
            r@ == ExprView::Literal(value@),
    {
        Box::new(Expr::Literal(LiteralExpr { value }))
    }

    /// The value written out.
    pub fn eval(&self) -> (r: Result<Object, RuntimeError>)
        ensures
            r is Ok,
            ExprView::Literal(r->Ok_0@) == self@,
    {
        Ok(self.value.clone())
    }

    /// The value as text.
    pub fn to_string<F: Fn(Number) -> String>(&self, show: &F) -> (r: String)
        requires
            display_ready(*show),
        ensures
            renders(self@, *show, r@),
    {
        self.value.to_string(show)
    }
}

impl UnaryExpr {
    /// The node `operator right`.
    pub fn new(operator: Token, right: Box<Expr>) -> (r: Box<Expr>)
        ensures
            r@ == ExprView::Unary(operator@, Box::new(right@)),
    {
        Box::new(Expr::Unary(UnaryExpr { operator, right }))
    }

    /// What `operator` yields on the operand `right`.
    pub fn apply(operator: &Token, right: &Object) -> (r: Result<Object, RuntimeError>)
        ensures
            outcome_view(r) == negated(operator@, right@),
    {
        match operator.typ {
            TokenType::Minus => {
                match check_number_operands(operator, &[right]) {
                    Err(e) => Err(e),
                    Ok(_) => Ok(Object::Num(right.num().negate())),
                }
            },
            TokenType::Bang => Ok(Object::new_bool(!right.is_true())),
            _ => Ok(Object::Nil),
        }
    }

    /// Evaluates the operand and applies the operator to it.
    pub fn eval<F: Fn(ArithOp, Number, Number) -> Number>(&self, arith: &F) -> (r: Result<
        Object,
        RuntimeError,
    >)
        requires
            arithmetic_ready(*arith),
        ensures
            evaluates(self@, *arith, outcome_view(r)),
        decreases self,
    {
        let right = match self.right.eval(arith) {
            Ok(v) => v,
            Err(e) => {
                proof {
                    lemma_unary_evaluates(self.operator@, tree(*self.right), *arith, Err(e@));
                }
                return Err(e);
            },
        };
        proof {
            lemma_unary_evaluates(self.operator@, tree(*self.right), *arith, Ok(right@));
        }
        UnaryExpr::apply(&self.operator, &right)
    }

    /// `( operator right )`
    pub fn to_string<F: Fn(Number) -> String>(&self, show: &F) -> (r: String)
        requires
            display_ready(*show),
        ensures
            renders(self@, *show, r@),
        decreases self,
    {
        let right = self.right.to_string(show);
        let mut out = String::from_str("( ");
        out.append(self.operator.lexeme.as_str());
        out.append(" ");
        out.append(right.as_str());
        out.append(" )");
        assert(out@ == unary_text(self.operator@.lexeme, right@));
        out
    }
}

} // verus!

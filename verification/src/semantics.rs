//! The meaning of expressions: what a tree evaluates to, and how it is
//! written out.
use vstd::prelude::*;
use crate::error::RuntimeErrorView;
use crate::expr::ExprView;
use crate::number::Number;
use crate::object::{shown, writes, written, ObjectView};
use crate::token::{TokenType, TokenView};

verus! {

/// An operation on two numbers whose result has to be rounded.
#[derive(Debug, Clone, Copy, PartialEq, Eq, Structural)]
pub enum ArithOp {
    Add,
    Subtract,
    Multiply,
    Divide,
}

/// What a `Verdict` is.
pub enum VerdictView {
    Done(Result<ObjectView, RuntimeErrorView>),
    Compute(ArithOp, Number, Number),
}

/// What an evaluation comes to: a value or a failure.
pub type Outcome = Result<ObjectView, RuntimeErrorView>;

/// The verdict of a comparison: `holds` as a value if both operands are
/// numbers, a failure at `op` otherwise.
pub open spec fn compared(op: TokenView, a: ObjectView, b: ObjectView, holds: bool) -> VerdictView {
    if a is Num && b is Num {
        VerdictView::Done(Ok(ObjectView::from_bool(holds)))
    } else {
        VerdictView::Done(Err(RuntimeErrorView::numbers_expected(op)))
    }
}

/// The verdict of an arithmetic operator that takes numbers only: the
/// operation `kind` on the two numbers, or a failure at `op`.
pub open spec fn computed(op: TokenView, a: ObjectView, b: ObjectView, kind: ArithOp) -> VerdictView {
    if a is Num && b is Num {
        VerdictView::Compute(kind, a->Num_0, b->Num_0)
    } else {
        VerdictView::Done(Err(RuntimeErrorView::numbers_expected(op)))
    }
}

/// What the operator `op` comes to on the operands `a` and `b`.
///
/// `==` and `!=` compare any two values and never fail. The four order
/// comparisons and `-`, `/`, `*` take two numbers and fail on anything
/// else. `+` adds two numbers, joins two strings, and fails on anything
/// else. A token that is no binary operator yields `nil`.
pub open spec fn applied(op: TokenView, a: ObjectView, b: ObjectView) -> VerdictView {
    match op.typ {
        TokenType::EqualEqual => VerdictView::Done(Ok(ObjectView::from_bool(a.equals(b)))),
        TokenType::BangEqual => VerdictView::Done(Ok(ObjectView::from_bool(!a.equals(b)))),
        TokenType::Greater => compared(op, a, b, a->Num_0.spec_greater(b->Num_0)),
        TokenType::GreaterEqual => compared(op, a, b, a->Num_0.spec_greater_equal(b->Num_0)),
        TokenType::Less => compared(op, a, b, a->Num_0.spec_less(b->Num_0)),
        TokenType::LessEqual => compared(op, a, b, a->Num_0.spec_less_equal(b->Num_0)),
        TokenType::Minus => computed(op, a, b, ArithOp::Subtract),
        TokenType::Slash => computed(op, a, b, ArithOp::Divide),
        TokenType::Star => computed(op, a, b, ArithOp::Multiply),
        TokenType::Plus => if a is Num && b is Num {
            VerdictView::Compute(ArithOp::Add, a->Num_0, b->Num_0)
        } else if a is Str && b is Str {
            VerdictView::Done(Ok(ObjectView::Str(a->Str_0 + b->Str_0)))
        } else {
            VerdictView::Done(Err(RuntimeErrorView::numbers_or_strings_expected(op)))
        },
        _ => VerdictView::Done(Ok(ObjectView::Nil)),
    }
}

/// What the operator `op` yields on the operand `v`.
///
/// `-` changes the sign of a number and fails on anything else. `!` yields
/// `true` for `nil` and `false`, and `false` for every other value. A token
/// that is no unary operator yields `nil`.
pub open spec fn negated(op: TokenView, v: ObjectView) -> Result<ObjectView, RuntimeErrorView> {
    match op.typ {
        TokenType::Minus => if v is Num {
            Ok(ObjectView::Num(v->Num_0.spec_negate()))
        } else {
            Err(RuntimeErrorView::numbers_expected(op))
        },
        TokenType::Bang => Ok(ObjectView::from_bool(!v.is_true())),
        _ => Ok(ObjectView::Nil),
    }
}

/// Whether `arith` can be asked for every operation on every two numbers.
pub open spec fn arithmetic_ready<F: Fn(ArithOp, Number, Number) -> Number>(arith: F) -> bool {
    forall|kind: ArithOp, a: Number, b: Number| #[trigger] arith.requires((kind, a, b))
}

/// Whether `out` is a result that `verdict` allows when the arithmetic is
/// done by `arith`: the verdict's own result, or a number that `arith` may
/// give for the operation asked.
pub open spec fn settles<F: Fn(ArithOp, Number, Number) -> Number>(
    verdict: VerdictView,
    arith: F,
    out: Outcome,
) -> bool {
    match verdict {
        VerdictView::Done(r) => out == r,
        VerdictView::Compute(kind, a, b) => out is Ok && out->Ok_0 is Num && arith.ensures(
            (kind, a, b),
            out->Ok_0->Num_0,
        ),
    }
}

/// What a unary node yields when its operand came to `v`: what `op` makes
/// of the operand's value, or the operand's failure.
pub open spec fn unary_outcome(op: TokenView, v: Outcome) -> Outcome {
    match v {
        Ok(x) => negated(op, x),
        Err(e) => Err(e),
    }
}

/// Whether `out` is a result of a binary node whose left operand came to
/// `a` and whose right operand, if the left one yielded a value, came to
/// `b`: the first failure, or what settles the verdict of `op`.
pub open spec fn binary_outcome<F: Fn(ArithOp, Number, Number) -> Number>(
    op: TokenView,
    a: Outcome,
    b: Outcome,
    arith: F,
    out: Outcome,
) -> bool {
    match a {
        Err(e) => out == Err::<ObjectView, RuntimeErrorView>(e),
        Ok(x) => match b {
            Err(e) => out == Err::<ObjectView, RuntimeErrorView>(e),
            Ok(y) => settles(applied(op, x, y), arith, out),
        },
    }
}

/// Whether `out` is a result of evaluating `e` when the arithmetic is done
/// by `arith`.
///
/// A literal yields its value and a grouping what is inside it. A unary
/// node evaluates its operand and applies its operator. A binary node
/// evaluates the left operand, then the right one, and applies its operator
/// to both. The first failure met is the result, and an operand behind a
/// failure is not evaluated.
pub open spec fn evaluates<F: Fn(ArithOp, Number, Number) -> Number>(
    e: ExprView,
    arith: F,
    out: Outcome,
) -> bool
    decreases e,
{
    match e {
        ExprView::Literal(v) => out == Ok::<ObjectView, RuntimeErrorView>(v),
        ExprView::Grouping(inner) => evaluates(*inner, arith, out),
        ExprView::Unary(op, right) => exists|v: Outcome|
            {
                &&& evaluates(*right, arith, v)
                &&& out == #[trigger] unary_outcome(op, v)
            },
        ExprView::Binary(left, op, right) => exists|a: Outcome, b: Outcome|
            {
                &&& evaluates(*left, arith, a)
                &&& a is Ok ==> evaluates(*right, arith, b)
                &&& #[trigger] binary_outcome(op, a, b, arith, out)
            },
    }
}

/// Whether every result that `arith` may give is the one that `table`
/// holds: whether `arith` computes the function `table`.
pub open spec fn computes<F: Fn(ArithOp, Number, Number) -> Number>(
    arith: F,
    table: spec_fn(ArithOp, Number, Number) -> Number,
) -> bool {
    forall|kind: ArithOp, a: Number, b: Number, n: Number|
        #[trigger] arith.ensures((kind, a, b), n) ==> n == table(kind, a, b)
}

/// The result of evaluating `e` when arithmetic is the function `table`.
pub open spec fn value_of(e: ExprView, table: spec_fn(ArithOp, Number, Number) -> Number) -> Outcome
    decreases e,
{
    match e {
        ExprView::Literal(v) => Ok(v),
        ExprView::Grouping(inner) => value_of(*inner, table),
        ExprView::Unary(op, right) => unary_outcome(op, value_of(*right, table)),
        ExprView::Binary(left, op, right) => match value_of(*left, table) {
            Err(e) => Err(e),
            Ok(x) => match value_of(*right, table) {
                Err(e) => Err(e),
                Ok(y) => match applied(op, x, y) {
                    VerdictView::Done(r) => r,
                    VerdictView::Compute(kind, a, b) => Ok(ObjectView::Num(table(kind, a, b))),
                },
            },
        },
    }
}

/// The text of a grouping around what reads `inner`.
pub open spec fn grouping_text(inner: Seq<char>) -> Seq<char> {
    "( "@ + inner + " )"@
}

/// The text of a unary node: the operator as written, then the operand.
pub open spec fn unary_text(operator: Seq<char>, right: Seq<char>) -> Seq<char> {
    "( "@ + operator + " "@ + right + " )"@
}

/// The text of a binary node: the operator as written, then the two
/// operands.
pub open spec fn binary_text(operator: Seq<char>, left: Seq<char>, right: Seq<char>) -> Seq<char> {
    "( "@ + operator + " "@ + left + " "@ + right + " )"@
}

/// Whether `text` is `e` written in prefix form, each node but a literal in
/// parentheses, with numbers written by `show`.
pub open spec fn renders<F: Fn(Number) -> String>(e: ExprView, show: F, text: Seq<char>) -> bool
    decreases e,
{
    match e {
        ExprView::Literal(v) => shown(v, show, text),
        ExprView::Grouping(inner) => exists|t: Seq<char>|
            renders(*inner, show, t) && text == #[trigger] grouping_text(t),
        ExprView::Unary(op, right) => exists|t: Seq<char>|
            renders(*right, show, t) && text == #[trigger] unary_text(op.lexeme, t),
        ExprView::Binary(left, op, right) => exists|l: Seq<char>, r: Seq<char>|
            {
                &&& renders(*left, show, l)
                &&& renders(*right, show, r)
                &&& text == #[trigger] binary_text(op.lexeme, l, r)
            },
    }
}

/// `e` in prefix form, each node but a literal in parentheses, with numbers
/// written as `table` says.
pub open spec fn text_of(e: ExprView, table: spec_fn(Number) -> Seq<char>) -> Seq<char>
    decreases e,
{
    match e {
        ExprView::Literal(v) => written(v, table),
        ExprView::Grouping(inner) => grouping_text(text_of(*inner, table)),
        ExprView::Unary(op, right) => unary_text(op.lexeme, text_of(*right, table)),
        ExprView::Binary(left, op, right) => binary_text(
            op.lexeme,
            text_of(*left, table),
            text_of(*right, table),
        ),
    }
}

/// Whether `typ` is one of `-`, `/`, `*` and `+`.
pub open spec fn is_arithmetic(typ: TokenType) -> bool {
    typ == TokenType::Minus || typ == TokenType::Slash || typ == TokenType::Star || typ
        == TokenType::Plus
}

/// Whether `typ` is one of `>`, `>=`, `<` and `<=`.
pub open spec fn is_order(typ: TokenType) -> bool {
    typ == TokenType::Greater || typ == TokenType::GreaterEqual || typ == TokenType::Less || typ
        == TokenType::LessEqual
}

/// A unary node yields what its operator makes of its operand, or the
/// operand's failure.
pub proof fn lemma_unary_evaluates<F: Fn(ArithOp, Number, Number) -> Number>(
    op: TokenView,
    right: ExprView,
    arith: F,
    v: Outcome,
)
    requires
        evaluates(right, arith, v),
    ensures
        evaluates(ExprView::Unary(op, Box::new(right)), arith, unary_outcome(op, v)),
{
}

/// A binary node yields the failure of its left operand, else that of its
/// right operand, else what settles the verdict of its operator.
pub proof fn lemma_binary_evaluates<F: Fn(ArithOp, Number, Number) -> Number>(
    left: ExprView,
    op: TokenView,
    right: ExprView,
    arith: F,
    a: Outcome,
    b: Outcome,
    out: Outcome,
)
    requires
        evaluates(left, arith, a),
        a is Ok ==> evaluates(right, arith, b),
        binary_outcome(op, a, b, arith, out),
    ensures
        evaluates(ExprView::Binary(Box::new(left), op, Box::new(right)), arith, out),
{
}

/// Where arithmetic is a function, so is evaluation: an expression has one
/// result, the one that `value_of` gives.
pub proof fn lemma_evaluation_is_a_function<F: Fn(ArithOp, Number, Number) -> Number>(
    e: ExprView,
    arith: F,
    table: spec_fn(ArithOp, Number, Number) -> Number,
    out: Outcome,
)
    requires
        evaluates(e, arith, out),
        computes(arith, table),
    ensures
        out == value_of(e, table),
    decreases e,
{
    match e {
        ExprView::Literal(v) => {},
        ExprView::Grouping(inner) => {
            lemma_evaluation_is_a_function(*inner, arith, table, out);
        },
        ExprView::Unary(op, right) => {
            let v = choose|v: Outcome|
                evaluates(*right, arith, v) && out == #[trigger] unary_outcome(op, v);
            lemma_evaluation_is_a_function(*right, arith, table, v);
        },
        ExprView::Binary(left, op, right) => {
            let (a, b) = choose|a: Outcome, b: Outcome|
                {
                    &&& evaluates(*left, arith, a)
                    &&& a is Ok ==> evaluates(*right, arith, b)
                    &&& #[trigger] binary_outcome(op, a, b, arith, out)
                };
            lemma_evaluation_is_a_function(*left, arith, table, a);
            if a is Ok {
                lemma_evaluation_is_a_function(*right, arith, table, b);
            }
        },
    }
}

/// Where `show` computes the function `table`, an expression is rendered
/// in one way only, the one that `text_of` gives.
pub proof fn lemma_rendering_is_a_function<F: Fn(Number) -> String>(
    e: ExprView,
    show: F,
    table: spec_fn(Number) -> Seq<char>,
    text: Seq<char>,
)
    requires
        renders(e, show, text),
        writes(show, table),
    ensures
        text == text_of(e, table),
    decreases e,
{
    match e {
        ExprView::Literal(v) => {},
        ExprView::Grouping(inner) => {
            let t = choose|t: Seq<char>|
                renders(*inner, show, t) && text == #[trigger] grouping_text(t);
            lemma_rendering_is_a_function(*inner, show, table, t);
        },
        ExprView::Unary(op, right) => {
            let t = choose|t: Seq<char>|
                renders(*right, show, t) && text == #[trigger] unary_text(op.lexeme, t);
            lemma_rendering_is_a_function(*right, show, table, t);
        },
        ExprView::Binary(left, op, right) => {
            let (l, r) = choose|l: Seq<char>, r: Seq<char>|
                {
                    &&& renders(*left, show, l)
                    &&& renders(*right, show, r)
                    &&& text == #[trigger] binary_text(op.lexeme, l, r)
                };
            lemma_rendering_is_a_function(*left, show, table, l);
            lemma_rendering_is_a_function(*right, show, table, r);
        },
    }
}

/// `==` and `!=` never fail, whatever their operands are. On operands of
/// different cases `==` yields `false` and `!=` yields `true`.
pub proof fn lemma_equality_never_fails(op: TokenView, a: ObjectView, b: ObjectView)
    requires
        op.typ == TokenType::EqualEqual || op.typ == TokenType::BangEqual,
    ensures
        applied(op, a, b) == VerdictView::Done(
            Ok(ObjectView::from_bool(a.equals(b) == (op.typ == TokenType::EqualEqual))),
        ),
        !a.same_kind(b) ==> applied(op, a, b) == VerdictView::Done(
            Ok(ObjectView::from_bool(op.typ == TokenType::BangEqual)),
        ),
{
}

/// On two numbers no operator fails: an arithmetic operator asks for its
/// operation on the two, in the order given, whatever they are (a division
/// by zero is asked for like any other), and an order comparison yields
/// `true` or `false`.
pub proof fn lemma_numbers_never_fail(op: TokenView, a: Number, b: Number)
    ensures
        is_arithmetic(op.typ) ==> applied(op, ObjectView::Num(a), ObjectView::Num(b)) is Compute,
        is_arithmetic(op.typ) ==> applied(op, ObjectView::Num(a), ObjectView::Num(b))->Compute_1 == a,
        is_arithmetic(op.typ) ==> applied(op, ObjectView::Num(a), ObjectView::Num(b))->Compute_2 == b,
        is_order(op.typ) ==> applied(op, ObjectView::Num(a), ObjectView::Num(b)) is Done,
        is_order(op.typ) ==> {
            let out = applied(op, ObjectView::Num(a), ObjectView::Num(b))->Done_0;
            out == Ok::<ObjectView, RuntimeErrorView>(ObjectView::True) || out == Ok::<
                ObjectView,
                RuntimeErrorView,
            >(ObjectView::False)
        },
        !(applied(op, ObjectView::Num(a), ObjectView::Num(b)) is Done && applied(
            op,
            ObjectView::Num(a),
            ObjectView::Num(b),
        )->Done_0 is Err),
{
}

/// An order comparison or an arithmetic operator other than `+` fails as
/// soon as one operand is no number, and `+` fails unless its operands are
/// two numbers or two strings.
pub proof fn lemma_ill_typed_operands_fail(op: TokenView, a: ObjectView, b: ObjectView)
    ensures
        (is_order(op.typ) || (is_arithmetic(op.typ) && op.typ != TokenType::Plus)) && !(a is Num
            && b is Num) ==> applied(op, a, b) == VerdictView::Done(
            Err(RuntimeErrorView::numbers_expected(op)),
        ),
        op.typ == TokenType::Plus && !(a is Num && b is Num) && !(a is Str && b is Str) ==> applied(
            op,
            a,
            b,
        ) == VerdictView::Done(Err(RuntimeErrorView::numbers_or_strings_expected(op))),
{
}

/// `!` never fails: it yields `true` for `nil` and for `false`, and `false`
/// for every other value.
pub proof fn lemma_bang_tells_truthiness(op: TokenView, v: ObjectView)
    requires
        op.typ == TokenType::Bang,
    ensures
        negated(op, v) == Ok::<ObjectView, RuntimeErrorView>(
            ObjectView::from_bool(v is Nil || v is False),
        ),
{
}

} // verus!

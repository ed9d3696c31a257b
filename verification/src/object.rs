//! Runtime values.
use vstd::prelude::*;
use vstd::string::*;
use crate::number::Number;

verus! {

/// A runtime value: a number, a string, `nil`, `true` or `false`.
#[derive(Debug)]
pub enum Object {
    Num(Number),
    Str(String),
    Nil,
    True,
    False,
}

/// What an `Object` is: the same five cases, with the characters of a string
/// in place of the string.
pub enum ObjectView {
    Num(Number),
    Str(Seq<char>),
    Nil,
    True,
    False,
}

impl View for Object {
    type V = ObjectView;

    open spec fn view(&self) -> ObjectView {
        match self {
            Object::Num(n) => ObjectView::Num(*n),
            Object::Str(s) => ObjectView::Str(s@),
            Object::Nil => ObjectView::Nil,
            Object::True => ObjectView::True,
            Object::False => ObjectView::False,
        }
    }
}

impl ObjectView {
    /// Only `nil` and `false` are falsy.
    pub open spec fn is_true(self) -> bool {
        !(self is Nil) && !(self is False)
    }

    /// Whether two values are of the same case.
    pub open spec fn same_kind(self, other: ObjectView) -> bool {
        match (self, other) {
            (ObjectView::Num(_), ObjectView::Num(_)) => true,
            (ObjectView::Str(_), ObjectView::Str(_)) => true,
            (ObjectView::Nil, ObjectView::Nil) => true,
            (ObjectView::True, ObjectView::True) => true,
            (ObjectView::False, ObjectView::False) => true,
            _ => false,
        }
    }

    /// Two values are equal when they are of the same case and hold equal
    /// contents; numbers are compared as numbers. Values of different cases
    /// are never equal.
    pub open spec fn equals(self, other: ObjectView) -> bool {
        match (self, other) {
            (ObjectView::Num(a), ObjectView::Num(b)) => a.spec_equals(b),
            (ObjectView::Str(a), ObjectView::Str(b)) => a == b,
            (ObjectView::Nil, ObjectView::Nil) => true,
            (ObjectView::True, ObjectView::True) => true,
            (ObjectView::False, ObjectView::False) => true,
            _ => false,
        }
    }

    /// The value `true` or the value `false`.
    pub open spec fn from_bool(b: bool) -> ObjectView {
        if b {
            ObjectView::True
        } else {
            ObjectView::False
        }
    }
}

/// Whether `show` can be asked for the text of every number.
pub open spec fn display_ready<F: Fn(Number) -> String>(show: F) -> bool {
    forall|n: Number| #[trigger] show.requires((n,))
}

/// Whether `text` is a text that `show` may give for the number `n`.
pub open spec fn number_shown<F: Fn(Number) -> String>(show: F, n: Number, text: Seq<char>) -> bool {
    exists|out: String| #[trigger] show.ensures((n,), out) && out@ == text
}

/// Whether `text` is how `v` is written when numbers are written by `show`:
/// a number as `show` gives it, a string between double quotes, and `nil`,
/// `true` and `false` as these words.
pub open spec fn shown<F: Fn(Number) -> String>(v: ObjectView, show: F, text: Seq<char>) -> bool {
    match v {
        ObjectView::Num(n) => number_shown(show, n, text),
        ObjectView::Str(s) => text == "\""@ + s + "\""@,
        ObjectView::Nil => text == "nil"@,
        ObjectView::True => text == "true"@,
        ObjectView::False => text == "false"@,
    }
}

/// Whether every text that `show` may give for a number is the one that
/// `table` holds: whether `show` computes the function `table`.
pub open spec fn writes<F: Fn(Number) -> String>(show: F, table: spec_fn(Number) -> Seq<char>) -> bool {
    forall|n: Number, out: String| #[trigger] show.ensures((n,), out) ==> out@ == table(n)
}

/// How `v` is written when numbers are written as `table` says.
pub open spec fn written(v: ObjectView, table: spec_fn(Number) -> Seq<char>) -> Seq<char> {
    match v {
        ObjectView::Num(n) => table(n),
        ObjectView::Str(s) => "\""@ + s + "\""@,
        ObjectView::Nil => "nil"@,
        ObjectView::True => "true"@,
        ObjectView::False => "false"@,
    }
}

impl Clone for Object {
    fn clone(&self) -> (r: Object)
        ensures
            r@ == self@,
    {
        match self {
            Object::Num(n) => Object::Num(*n),
            Object::Str(s) => Object::Str(s.clone()),
            Object::Nil => Object::Nil,
            Object::True => Object::True,
            Object::False => Object::False,
        }
    }
}

impl PartialEq for Object {
    fn eq(&self, other: &Object) -> (r: bool) {
        match self {
            Object::Num(a) => match other {
                Object::Num(b) => a.equals(*b),
                _ => false,
            },
            Object::Str(a) => match other {
                Object::Str(b) => *a == *b,
                _ => false,
            },
            Object::Nil => match other {
                Object::Nil => true,
                _ => false,
            },
            Object::True => match other {
                Object::True => true,
                _ => false,
            },
            Object::False => match other {
                Object::False => true,
                _ => false,
            },
        }
    }
}

impl vstd::std_specs::cmp::PartialEqSpecImpl for Object {
    open spec fn obeys_eq_spec() -> bool {
        true
    }

    open spec fn eq_spec(&self, other: &Object) -> bool {
        self@.equals(other@)
    }
}

impl Object {
    /// The number that a number value holds; zero for every other value.
    pub fn num(&self) -> (r: Number)
        ensures
            r == (match self@ {
                ObjectView::Num(n) => n,
                _ => Number { bits: 0 },
            }),
    {
        match self {
            Object::Num(x) => *x,
            _ => Number::from_bits(0),
        }
    }

    /// Whether the value is a number.
    pub fn is_num(&self) -> (r: bool)
        ensures
            r == (self@ is Num),
    {
        match self {
            Object::Num(_) => true,
            _ => false,
        }
    }

    /// The text that a string value holds; the empty text for every other
    /// value.
    pub fn str(&self) -> (r: &str)
        ensures
            r@ == (match self@ {
                ObjectView::Str(s) => s,
                _ => Seq::<char>::empty(),
            }),
    {
        match self {
            Object::Str(x) => x.as_str(),
            _ => {
                proof {
                    reveal_strlit("");
                }
                ""
            },
        }
    }

    /// Whether the value is a string.
    pub fn is_str(&self) -> (r: bool)
        ensures
            r == (self@ is Str),
    {
        match self {
            Object::Str(_) => true,
            _ => false,
        }
    }

    /// Whether the value counts as true: every value but `nil` and `false`
    /// does.
    pub fn is_true(&self) -> (r: bool)
        ensures
            r == self@.is_true(),
    {
        match self {
            Object::Nil => false,
            Object::False => false,
            _ => true,
        }
    }

    /// The value `true` or the value `false`.
    pub fn new_bool(x: bool) -> (r: Object)
        ensures
            r@ == ObjectView::from_bool(x),
    {
        if x {
            Object::True
        } else {
            Object::False
        }
    }

    /// The value as text, with numbers written by `show`.
    pub fn to_string<F: Fn(Number) -> String>(&self, show: &F) -> (r: String)
        requires
            display_ready(*show),
        ensures
            shown(self@, *show, r@),
    {
        match self {
            Object::Num(x) => show(*x),
            Object::Str(x) => {
                let mut out = String::from_str("\"");
                out.append(x.as_str());
                out.append("\"");
                out
            },
            Object::Nil => String::from_str("nil"),
            Object::True => String::from_str("true"),
            Object::False => String::from_str("false"),
        }
    }
}

/// Values of different cases are never equal, whatever they hold.
pub proof fn lemma_equality_is_type_aware(a: ObjectView, b: ObjectView)
    requires
        !a.same_kind(b),
    ensures
        !a.equals(b),
        !b.equals(a),
{
}

/// Equality of values is symmetric, and every value equals itself but a
/// number that is a NaN.
pub proof fn lemma_equality_of_values(a: ObjectView, b: ObjectView)
    ensures
        a.equals(b) == b.equals(a),
        a.equals(a) == !(a is Num && a->Num_0.spec_is_nan()),
{
}

/// Every number and every string counts as true, zero and the empty string
/// included.
pub proof fn lemma_numbers_and_strings_are_true(v: ObjectView)
    requires
        v is Num || v is Str,
    ensures
        v.is_true(),
{
}

/// Where `show` computes the function `table`, a value is written in one
/// way only.
pub proof fn lemma_shown_is_written<F: Fn(Number) -> String>(
    v: ObjectView,
    show: F,
    table: spec_fn(Number) -> Seq<char>,
    text: Seq<char>,
)
    requires
        shown(v, show, text),
        writes(show, table),
    ensures
        text == written(v, table),
{
}

} // verus!

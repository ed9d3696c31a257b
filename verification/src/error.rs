//! Errors of the scanner, the parser and the evaluator.
use vstd::prelude::*;
use vstd::string::*;
use crate::object::Object;
use crate::text::{decimal, push_decimal};
use crate::token::{Token, TokenView};

verus! {

/// A failure to scan or to parse, with the line it is attributed to.
#[derive(Debug)]
pub struct SyntaxError {
    line: usize,
    message: String,
}

/// What a `SyntaxError` is.
pub struct SyntaxErrorView {
    pub line: usize,
    pub message: Seq<char>,
}

impl View for SyntaxError {
    type V = SyntaxErrorView;

    closed spec fn view(&self) -> SyntaxErrorView {
        SyntaxErrorView { line: self.line, message: self.message@ }
    }
}

impl SyntaxErrorView {
    /// The line that names the failure as a whole:
    /// `Syntax error: [line N] message.`
    pub open spec fn summary(self) -> Seq<char> {
        "Syntax error: [line "@ + decimal(self.line as nat) + "] "@ + self.message + "."@
    }

    /// The line printed where the failure is detected:
    /// `[line N] Error<location>: message`
    pub open spec fn report(self, location: Seq<char>) -> Seq<char> {
        "[line "@ + decimal(self.line as nat) + "] Error"@ + location + ": "@ + self.message
    }
}

impl SyntaxError {
    /// An error on the given line.
    pub fn new(line: usize, message: String) -> (r: SyntaxError)
        ensures
            r@ == (SyntaxErrorView { line, message: message@ }),
    {
        SyntaxError { line, message }
    }

    /// The line the error is attributed to.
    pub fn line(&self) -> (r: usize)
        ensures
            r == self@.line,
    {
        self.line
    }

    /// What went wrong.
    pub fn message(&self) -> (r: &str)
        ensures
            r@ == self@.message,
    {
        self.message.as_str()
    }

    /// The line printed where the failure is detected.
    pub fn report(&self, location: &str) -> (r: String)
        ensures
            r@ == self@.report(location@),
    {
        let mut out = String::from_str("[line ");
        push_decimal(&mut out, self.line);
        out.append("] Error");
        out.append(location);
        out.append(": ");
        out.append(self.message.as_str());
        out
    }

    /// The line that names the failure as a whole.
    pub fn to_string(&self) -> (r: String)
        ensures
            r@ == self@.summary(),
    {
        let mut out = String::from_str("Syntax error: [line ");
        push_decimal(&mut out, self.line);
        out.append("] ");
        out.append(self.message.as_str());
        out.append(".");
        out
    }
}

impl Clone for SyntaxError {
    fn clone(&self) -> (r: SyntaxError)
        ensures
            r@ == self@,
    {
        SyntaxError { line: self.line, message: self.message.clone() }
    }
}

/// A failure to evaluate, with the operator it is attributed to.
#[derive(Debug)]
pub struct RuntimeError {
    token: Token,
    message: String,
}

/// What a `RuntimeError` is.
pub struct RuntimeErrorView {
    pub token: TokenView,
    pub message: Seq<char>,
}

impl View for RuntimeError {
    type V = RuntimeErrorView;

    closed spec fn view(&self) -> RuntimeErrorView {
        RuntimeErrorView { token: self.token@, message: self.message@ }
    }
}

impl RuntimeErrorView {
    /// The line that names the failure as a whole:
    /// `Runtime error: [line N] message.`
    pub open spec fn summary(self) -> Seq<char> {
        "Runtime error: [line "@ + decimal(self.token.line as nat) + "] "@ + self.message + "."@
    }

    /// The failure of the operator `token` on operands that are not all
    /// numbers.
    pub open spec fn numbers_expected(token: TokenView) -> RuntimeErrorView {
        RuntimeErrorView { token, message: "Operands must be numbers."@ }
    }

    /// The failure of the operator `token` on operands that are not all
    /// strings.
    pub open spec fn strings_expected(token: TokenView) -> RuntimeErrorView {
        RuntimeErrorView { token, message: "Operands must be strings."@ }
    }

    /// The failure of the operator `token` on operands that are neither two
    /// numbers nor two strings.
    pub open spec fn numbers_or_strings_expected(token: TokenView) -> RuntimeErrorView {
        RuntimeErrorView { token, message: "Operands must be numbers or strings."@ }
    }
}

impl RuntimeError {
    /// An error at the given operator.
    pub fn new(token: Token, message: String) -> (r: RuntimeError)
        ensures
            r@ == (RuntimeErrorView { token: token@, message: message@ }),
    {
        RuntimeError { token, message }
    }

    /// The operator the error is attributed to.
    pub fn token(&self) -> (r: &Token)
        ensures
            r@ == self@.token,
    {
        &self.token
    }

    /// What went wrong.
    pub fn message(&self) -> (r: &str)
        ensures
            r@ == self@.message,
    {
        self.message.as_str()
    }

    /// The line that names the failure as a whole.
    pub fn to_string(&self) -> (r: String)
        ensures
            r@ == self@.summary(),
    {
        let mut out = String::from_str("Runtime error: [line ");
        push_decimal(&mut out, self.token.line);
        out.append("] ");
        out.append(self.message.as_str());
        out.append(".");
        out
    }
}

/// Any failure of the pipeline.
#[derive(Debug)]
pub enum LoxError {
    Syntax(SyntaxError),
    Runtime(RuntimeError),
}

/// What a `LoxError` is.
pub enum LoxErrorView {
    Syntax(SyntaxErrorView),
    Runtime(RuntimeErrorView),
}

impl View for LoxError {
    type V = LoxErrorView;

    open spec fn view(&self) -> LoxErrorView {
        match self {
            LoxError::Syntax(e) => LoxErrorView::Syntax(e@),
            LoxError::Runtime(e) => LoxErrorView::Runtime(e@),
        }
    }
}

impl LoxErrorView {
    /// The summary line of the error inside.
    pub open spec fn summary(self) -> Seq<char> {
        match self {
            LoxErrorView::Syntax(e) => e.summary(),
            LoxErrorView::Runtime(e) => e.summary(),
        }
    }
}

impl LoxError {
    /// The summary line of the error inside.
    pub fn to_string(&self) -> (r: String)
        ensures
            r@ == self@.summary(),
    {
        match self {
            LoxError::Syntax(e) => e.to_string(),
            LoxError::Runtime(e) => e.to_string(),
        }
    }
}

/// Succeeds when every one of `nums` is a number; fails at `operator`
/// otherwise.
pub fn check_number_operands(operator: &Token, nums: &[&Object]) -> (r: Result<(), RuntimeError>)
    ensures
        r is Ok <==> forall|i: int| 0 <= i < nums@.len() ==> (#[trigger] nums@[i])@ is Num,
        r is Err ==> r->Err_0@ == RuntimeErrorView::numbers_expected(operator@),
{
    let mut i: usize = 0;
    while i < nums.len()
        invariant
            0 <= i <= nums@.len(),
            forall|k: int| 0 <= k < i ==> (#[trigger] nums@[k])@ is Num,
        decreases nums@.len() - i,
    {
        if !nums[i].is_num() {
            return Err(
                RuntimeError::new(operator.clone(), String::from_str("Operands must be numbers.")),
            );
        }
        i += 1;
    }
    Ok(())
}

/// Succeeds when every one of `str_arr` is a string; fails at `operator`
/// otherwise.
pub fn check_string_operands(operator: &Token, str_arr: &[&Object]) -> (r: Result<
    (),
    RuntimeError,
>)
    ensures
        r is Ok <==> forall|i: int| 0 <= i < str_arr@.len() ==> (#[trigger] str_arr@[i])@ is Str,
        r is Err ==> r->Err_0@ == RuntimeErrorView::strings_expected(operator@),
{
    let mut i: usize = 0;
    while i < str_arr.len()
        invariant
            0 <= i <= str_arr@.len(),
            forall|k: int| 0 <= k < i ==> (#[trigger] str_arr@[k])@ is Str,
        decreases str_arr@.len() - i,
    {
        if !str_arr[i].is_str() {
            return Err(
                RuntimeError::new(operator.clone(), String::from_str("Operands must be strings.")),
            );
        }
        i += 1;
    }
    Ok(())
}

} // verus!

//! Front end of a small dynamically-typed expression language: a scanner
//! that turns characters into tokens, a recursive-descent parser that turns
//! tokens into an expression tree, and a tree-walking evaluator.
//!
//! Numbers are held by their bit patterns. The library decides everything
//! that does not need rounding; sums, differences, products, quotients and
//! the conversion of numbers from and to decimal text are asked of
//! functions that the caller hands in.
pub mod error;
pub mod expr;
pub mod grammar;
pub mod lexical;
pub mod number;
pub mod object;
pub mod parser;
pub mod scanner;
pub mod semantics;
pub mod text;
pub mod token;

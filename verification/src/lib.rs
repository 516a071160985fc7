//! Type checking of pipe-operator chains.
//!
//! A chain `a |> b |> c(d)` is rewritten, during type checking, into a
//! series of bindings of a synthetic variable and one terminal expression.
//! The modules here hold the syntax tree model, the unifier, a small
//! expression inferer, and the pipe rewriting pass itself.

pub mod ast;
pub mod expression;
pub mod laws;
pub mod pipe;
pub mod typer;
pub mod unify;
pub mod vec1_support;

//! Parsing and evaluation of flat arithmetic expressions built from decimal
//! literals, parentheses and the operators `+`, `-`, `*` (also written `x`).
//!
//! The builder splits an expression at the first operator that stands outside
//! a parenthesised group, scanning left to right; there is no precedence.
pub mod operator;
pub mod error;
pub mod equation;
pub mod literal;
pub mod builder;
pub mod evaluate;
pub mod laws;

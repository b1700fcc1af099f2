//! The concrete syntax of expressions.

pub mod lexeme;
pub mod parse_constructors;
pub mod parse_expr;

//! Direct evaluation of expressions.

pub mod interpreter;

//! The data model: expressions, types and type errors.

pub mod expr;
pub mod ty;
pub mod typeerror;

//! Type elaboration.

pub mod elaborate;
pub mod env;
pub mod theorems;

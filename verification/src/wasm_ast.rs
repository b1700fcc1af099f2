//! Instruction trees and their textual form.

pub mod pretty;
pub mod theorems;
pub mod types;

//! Code generation: lowering expressions to stack-machine instructions.

pub mod encoder;
pub mod expr_to_wasm;
pub mod instruction;
pub mod machine;
pub mod theorems;

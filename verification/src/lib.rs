//! A small compiler front end for a minimal expression language: boolean
//! and integer literals, conditionals, bindings and variables.
//!
//! A text is parsed to an expression ([`parser`]); the expression is
//! elaborated, which checks its types and annotates every node with its
//! type ([`typecheck`]); the elaborated tree is evaluated by the reference
//! interpreter ([`interpret`]) or lowered to stack-machine instructions and
//! encoded as a binary module ([`compile`]). Instruction trees can be
//! rendered as text ([`wasm_ast`]).
//!
//! Every function states what it computes over a mathematical model of its
//! data, and Verus proves that it does. Beside the functions stand the
//! theorems that relate them: elaboration is sound for evaluation, the
//! lowered code agrees with the interpreter on a model of the stack
//! machine, and the text of an instruction tree determines the tree. What
//! is taken on trust is confined to [`compile::encoder`], which states what
//! the binary encoder does.

pub mod compile;
pub mod interpret;
pub mod parser;
pub mod typecheck;
pub mod types;
pub mod wasm_ast;

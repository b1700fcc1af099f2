//! Instruction trees: the folded form of stack-machine code.

use vstd::prelude::*;

verus! {

/// A number literal.
pub enum Number {
    I32(i32),
}

/// An instruction with its operands.
pub enum Value {
    /// A constant.
    Const(Number),
    /// A binary operator applied to two operands.
    BinaryOp { op: BinaryOp, left: Box<Value>, right: Box<Value> },
    /// The value of `then_expr` where `pred_expr` is not zero, else that of
    /// `else_expr`.
    Select { pred_expr: Box<Value>, then_expr: Box<Value>, else_expr: Box<Value> },
}

/// A value type of the stack machine.
pub enum Type {
    Int32,
    Int64,
}

/// A binary operator, at the type of its operands.
pub enum BinaryOp {
    Equal(Type),
}

/// A module of one function, `main`, without parameters, whose result is
/// the value of `main`.
pub struct WasmModule {
    pub main: Value,
}

} // verus!

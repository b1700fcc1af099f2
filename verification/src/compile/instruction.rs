//! The stack-machine instructions that the code generator emits.

use vstd::prelude::*;

verus! {

/// One instruction of the stack machine.
#[derive(Debug, PartialEq, Eq, Copy)]
pub enum Instr {
    /// Pushes a constant.
    I32Const(i32),
    /// Pops a condition and two operands and pushes the first operand
    /// where the condition is not zero, else the second.
    Select,
    /// Pops a condition and opens a conditional block that leaves one
    /// value: its first arm runs where the condition is not zero.
    If,
    /// Ends the first arm of a conditional block and begins its second.
    Else,
    /// Closes a conditional block, or ends the function body.
    End,
}

impl Clone for Instr {
    fn clone(&self) -> (res: Self)
        ensures
            res == *self,
    {
        *self
    }
}

/// How a conditional expression is lowered.
#[derive(Debug, PartialEq, Eq, Copy)]
pub enum IfStrategy {
    /// Both branches are computed, then the predicate, and one `Select`
    /// keeps the value of the chosen branch.
    ValueSelect,
    /// The predicate is computed and a conditional block runs the chosen
    /// branch only.
    StructuredBranch,
}

impl Clone for IfStrategy {
    fn clone(&self) -> (res: Self)
        ensures
            res == *self,
    {
        *self
    }
}

} // verus!

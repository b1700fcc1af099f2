//! A model of the stack machine, as far as the emitted code uses it: how a
//! validated instruction sequence runs.

use super::instruction::Instr;
use vstd::prelude::*;

verus! {

/// Scanning forward from `pc` inside a conditional block, with `depth`
/// blocks opened since: the index of the `Else` or `End` that ends the arm
/// in which the scan began.
pub open spec fn arm_end(code: Seq<Instr>, pc: int, depth: nat) -> Option<int>
    decreases code.len() - pc,
{
    if pc < 0 || pc >= code.len() {
        None
    } else {
        match code[pc] {
            Instr::If => arm_end(code, pc + 1, depth + 1),
            Instr::Else => if depth == 0 {
                Some(pc)
            } else {
                arm_end(code, pc + 1, depth)
            },
            Instr::End => if depth == 0 {
                Some(pc)
            } else {
                arm_end(code, pc + 1, (depth - 1) as nat)
            },
            _ => arm_end(code, pc + 1, depth),
        }
    }
}

/// The stack left when `code` has run from `pc` to its end, starting with
/// `stack`; `None` where an instruction lacks its operands or a block is
/// not closed.
///
/// - `I32Const` pushes its constant.
/// - `Select` pops a condition, then two operands, and pushes the operand
///   pushed first where the condition is not zero, else the other.
/// - `If` pops a condition. Where it is not zero the first arm runs;
///   else control passes behind the `Else` or `End` that ends that arm.
/// - `Else`, reached at the end of a first arm, passes control behind the
///   `End` of its block.
/// - `End` passes control on.
pub open spec fn run_from(code: Seq<Instr>, pc: int, stack: Seq<i32>) -> Option<Seq<i32>>
    decreases code.len() - pc,
{
    if pc < 0 {
        None
    } else if pc >= code.len() {
        Some(stack)
    } else {
        match code[pc] {
            Instr::I32Const(value) => run_from(code, pc + 1, stack.push(value)),
            Instr::Select => if stack.len() >= 3 {
                let condition = stack[stack.len() - 1];
                let second = stack[stack.len() - 2];
                let first = stack[stack.len() - 3];
                let rest = stack.take(stack.len() - 3);
                run_from(
                    code,
                    pc + 1,
                    rest.push(
                        if condition != 0 {
                            first
                        } else {
                            second
                        },
                    ),
                )
            } else {
                None
            },
            Instr::If => if stack.len() >= 1 {
                if stack.last() != 0 {
                    run_from(code, pc + 1, stack.drop_last())
                } else {
                    match arm_end(code, pc + 1, 0) {
                        Some(end) => if pc < end < code.len() {
                            run_from(code, end + 1, stack.drop_last())
                        } else {
                            None
                        },
                        None => None,
                    }
                }
            } else {
                None
            },
            Instr::Else => match arm_end(code, pc + 1, 0) {
                Some(end) => if pc < end < code.len() && code[end] == Instr::End {
                    run_from(code, end + 1, stack)
                } else {
                    None
                },
                None => None,
            },
            Instr::End => run_from(code, pc + 1, stack),
        }
    }
}

/// The result of a function whose body is `code`: the one value that
/// running the body leaves on an empty stack.
pub open spec fn result_of(code: Seq<Instr>) -> Option<i32> {
    match run_from(code, 0, Seq::empty()) {
        Some(stack) if stack.len() == 1 => Some(stack[0]),
        _ => None,
    }
}

} // verus!

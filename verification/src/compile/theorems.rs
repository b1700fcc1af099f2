//! The code generator agrees with the interpreter: the lowered code of an
//! expression, run on the machine model, leaves the value that evaluation
//! gives.

use super::expr_to_wasm::{binding_free, function_body, lowered, prim_value};
use super::instruction::{IfStrategy, Instr};
use super::machine::{arm_end, result_of, run_from};
use crate::interpret::interpreter::evaluated;
use crate::typecheck::elaborate::inferred;
use crate::typecheck::theorems::{
    elaborated_has_value_of_its_type, elaborated_tree_has_value_of_its_type,
    elaboration_preserves_structure, variable_free,
};
use crate::types::expr::ExprView;
use crate::types::ty::Type;
use vstd::prelude::*;

verus! {

/// What the lowered code of a binding-free expression computes: a literal
/// denotes its machine value, and a conditional what the branch denotes
/// that its predicate selects, any value but zero selecting the first.
pub open spec fn denoted<Ann>(e: ExprView<Ann>) -> i32
    decreases e,
{
    match e {
        ExprView::Prim { prim, .. } => prim_value(prim),
        ExprView::If { pred_expr, then_expr, else_expr, .. } => if denoted(*pred_expr) != 0 {
            denoted(*then_expr)
        } else {
            denoted(*else_expr)
        },
        ExprView::Let { .. } => 0,
        ExprView::Var { .. } => 0,
    }
}

/// Whether `part` stands in `code` from index `at` on.
pub open spec fn occurs_at(code: Seq<Instr>, at: int, part: Seq<Instr>) -> bool {
    &&& 0 <= at
    &&& at + part.len() <= code.len()
    &&& forall|i: int| 0 <= i < part.len() ==> code[at + i] == #[trigger] part[i]
}

/// Where a concatenation stands in the code, so do its two parts.
proof fn lemma_occurs_split(code: Seq<Instr>, at: int, a: Seq<Instr>, b: Seq<Instr>)
    requires
        occurs_at(code, at, a + b),
    ensures
        occurs_at(code, at, a),
        occurs_at(code, at + a.len(), b),
{
    assert forall|i: int| 0 <= i < a.len() implies code[at + i] == #[trigger] a[i] by {
        assert((a + b)[i] == a[i]);
    }
    assert forall|i: int| 0 <= i < b.len() implies code[at + a.len() + i] == #[trigger] b[i] by {
        assert((a + b)[a.len() + i] == b[i]);
    }
}

/// Where a one-instruction sequence stands in the code, the instruction is
/// at that index.
proof fn lemma_occurs_single(code: Seq<Instr>, at: int, instr: Instr)
    requires
        occurs_at(code, at, seq![instr]),
    ensures
        0 <= at < code.len(),
        code[at] == instr,
{
    assert(seq![instr][0] == instr);
}

/// The value of a binding-free expression is what it denotes.
pub proof fn value_is_denoted<Ann>(e: ExprView<Ann>)
    requires
        binding_free(e),
        evaluated(e) is Some,
    ensures
        evaluated(e) matches Some(ExprView::Prim { prim, .. }) && prim_value(prim) == denoted(e),
    decreases e,
{
    match e {
        ExprView::If { pred_expr, then_expr, else_expr, .. } => {
            value_is_denoted(*pred_expr);
            if denoted(*pred_expr) != 0 {
                value_is_denoted(*then_expr);
            } else {
                value_is_denoted(*else_expr);
            }
        },
        _ => {},
    }
}

/// The lowered code of a binding-free expression is balanced: a scan for
/// the end of an enclosing arm passes over it.
proof fn lemma_scan_passes<Ann>(
    e: ExprView<Ann>,
    how: IfStrategy,
    code: Seq<Instr>,
    at: int,
    depth: nat,
)
    requires
        binding_free(e),
        occurs_at(code, at, lowered(e, how)),
    ensures
        arm_end(code, at, depth) == arm_end(code, at + lowered(e, how).len(), depth),
    decreases e,
{
    match e {
        ExprView::Prim { prim, .. } => {
            lemma_occurs_single(code, at, Instr::I32Const(prim_value(prim)));
        },
        ExprView::If { pred_expr, then_expr, else_expr, .. } => {
            let p = lowered(*pred_expr, how);
            let t = lowered(*then_expr, how);
            let f = lowered(*else_expr, how);
            match how {
                IfStrategy::ValueSelect => {
                    lemma_occurs_split(code, at, t + f + p, seq![Instr::Select]);
                    lemma_occurs_split(code, at, t + f, p);
                    lemma_occurs_split(code, at, t, f);
                    lemma_scan_passes(*then_expr, how, code, at, depth);
                    lemma_scan_passes(*else_expr, how, code, at + t.len(), depth);
                    lemma_scan_passes(*pred_expr, how, code, at + t.len() + f.len(), depth);
                    lemma_occurs_single(code, at + t.len() + f.len() + p.len(), Instr::Select);
                },
                IfStrategy::StructuredBranch => {
                    let at_if = at + p.len();
                    let at_else = at_if + 1 + t.len();
                    let at_end = at_else + 1 + f.len();
                    lemma_occurs_split(
                        code,
                        at,
                        p + seq![Instr::If] + t + seq![Instr::Else] + f,
                        seq![Instr::End],
                    );
                    lemma_occurs_split(code, at, p + seq![Instr::If] + t + seq![Instr::Else], f);
                    lemma_occurs_split(code, at, p + seq![Instr::If] + t, seq![Instr::Else]);
                    lemma_occurs_split(code, at, p + seq![Instr::If], t);
                    lemma_occurs_split(code, at, p, seq![Instr::If]);
                    lemma_occurs_single(code, at_if, Instr::If);
                    lemma_occurs_single(code, at_else, Instr::Else);
                    lemma_occurs_single(code, at_end, Instr::End);
                    lemma_scan_passes(*pred_expr, how, code, at, depth);
                    lemma_scan_passes(*then_expr, how, code, at_if + 1, depth + 1);
                    lemma_scan_passes(*else_expr, how, code, at_else + 1, depth + 1);
                },
            }
        },
        _ => {},
    }
}

/// Running the lowered code of a binding-free expression, wherever it
/// stands, pushes what the expression denotes and passes control behind
/// the code.
pub proof fn lowered_code_pushes_denotation<Ann>(
    e: ExprView<Ann>,
    how: IfStrategy,
    code: Seq<Instr>,
    at: int,
    stack: Seq<i32>,
)
    requires
        binding_free(e),
        occurs_at(code, at, lowered(e, how)),
    ensures
        run_from(code, at, stack) == run_from(
            code,
            at + lowered(e, how).len(),
            stack.push(denoted(e)),
        ),
    decreases e,
{
    match e {
        ExprView::Prim { prim, .. } => {
            lemma_occurs_single(code, at, Instr::I32Const(prim_value(prim)));
        },
        ExprView::If { pred_expr, then_expr, else_expr, .. } => {
            let p = lowered(*pred_expr, how);
            let t = lowered(*then_expr, how);
            let f = lowered(*else_expr, how);
            match how {
                IfStrategy::ValueSelect => {
                    lemma_occurs_split(code, at, t + f + p, seq![Instr::Select]);
                    lemma_occurs_split(code, at, t + f, p);
                    lemma_occurs_split(code, at, t, f);
                    let at_select = at + t.len() + f.len() + p.len();
                    lemma_occurs_single(code, at_select, Instr::Select);
                    let pushed = stack.push(denoted(*then_expr)).push(denoted(*else_expr)).push(
                        denoted(*pred_expr),
                    );
                    lowered_code_pushes_denotation(*then_expr, how, code, at, stack);
                    lowered_code_pushes_denotation(
                        *else_expr,
                        how,
                        code,
                        at + t.len(),
                        stack.push(denoted(*then_expr)),
                    );
                    lowered_code_pushes_denotation(
                        *pred_expr,
                        how,
                        code,
                        at + t.len() + f.len(),
                        stack.push(denoted(*then_expr)).push(denoted(*else_expr)),
                    );
                    assert(run_from(code, at, stack) == run_from(code, at_select, pushed));
                    assert(pushed.take(pushed.len() - 3) =~= stack);
                },
                IfStrategy::StructuredBranch => {
                    let at_if = at + p.len();
                    let at_else = at_if + 1 + t.len();
                    let at_end = at_else + 1 + f.len();
                    lemma_occurs_split(
                        code,
                        at,
                        p + seq![Instr::If] + t + seq![Instr::Else] + f,
                        seq![Instr::End],
                    );
                    lemma_occurs_split(code, at, p + seq![Instr::If] + t + seq![Instr::Else], f);
                    lemma_occurs_split(code, at, p + seq![Instr::If] + t, seq![Instr::Else]);
                    lemma_occurs_split(code, at, p + seq![Instr::If], t);
                    lemma_occurs_split(code, at, p, seq![Instr::If]);
                    lemma_occurs_single(code, at_if, Instr::If);
                    lemma_occurs_single(code, at_else, Instr::Else);
                    lemma_occurs_single(code, at_end, Instr::End);
                    let tested = stack.push(denoted(*pred_expr));
                    lowered_code_pushes_denotation(*pred_expr, how, code, at, stack);
                    assert(tested.drop_last() =~= stack);
                    assert(run_from(code, at, stack) == run_from(code, at_if, tested));
                    if denoted(*pred_expr) != 0 {
                        lowered_code_pushes_denotation(*then_expr, how, code, at_if + 1, stack);
                        lemma_scan_passes(*else_expr, how, code, at_else + 1, 0);
                        assert(arm_end(code, at_else + 1, 0) == Some(at_end));
                        let kept = stack.push(denoted(*then_expr));
                        assert(run_from(code, at_else, kept) == run_from(code, at_end + 1, kept));
                    } else {
                        lemma_scan_passes(*then_expr, how, code, at_if + 1, 0);
                        assert(arm_end(code, at_if + 1, 0) == Some(at_else));
                        lowered_code_pushes_denotation(*else_expr, how, code, at_else + 1, stack);
                        let kept = stack.push(denoted(*else_expr));
                        assert(run_from(code, at_end, kept) == run_from(code, at_end + 1, kept));
                    }
                },
            }
        },
        _ => {},
    }
}

/// The function compiled from a binding-free expression returns what the
/// expression denotes, with either lowering of conditionals.
pub proof fn compiled_function_returns_denotation<Ann>(e: ExprView<Ann>, how: IfStrategy)
    requires
        binding_free(e),
    ensures
        result_of(function_body(e, how)) == Some(denoted(e)),
{
    let code = function_body(e, how);
    let body = lowered(e, how);
    assert(occurs_at(code, 0, body));
    lowered_code_pushes_denotation(e, how, code, 0, Seq::empty());
    let stack = Seq::<i32>::empty().push(denoted(e));
    let end = body.len() as int;
    assert(code[end] == Instr::End);
    assert(run_from(code, end, stack) == run_from(code, end + 1, stack));
    assert(run_from(code, end + 1, stack) == Some(stack));
}

/// The code generator agrees with the interpreter: the function compiled
/// from a binding-free expression that has a value returns the machine
/// value of that value, with either lowering of conditionals.
pub proof fn compiled_function_returns_value<Ann>(e: ExprView<Ann>, how: IfStrategy)
    requires
        binding_free(e),
        evaluated(e) is Some,
    ensures
        evaluated(e) matches Some(ExprView::Prim { prim, .. }) && result_of(function_body(e, how))
            == Some(prim_value(prim)),
{
    value_is_denoted(e);
    compiled_function_returns_denotation(e, how);
}

/// A binding-free expression holds no variable.
pub proof fn binding_free_is_variable_free<Ann>(e: ExprView<Ann>)
    requires
        binding_free(e),
    ensures
        variable_free(e),
    decreases e,
{
    match e {
        ExprView::If { pred_expr, then_expr, else_expr, .. } => {
            binding_free_is_variable_free(*pred_expr);
            binding_free_is_variable_free(*then_expr);
            binding_free_is_variable_free(*else_expr);
        },
        _ => {},
    }
}

/// Every well-typed binding-free expression compiles to a function that
/// returns the machine value of the literal that the interpreter reduces
/// it to, with either lowering of conditionals.
pub proof fn well_typed_code_agrees_with_interpreter<Ann: Clone + Copy>(
    env: Map<Seq<char>, Type<Ann>>,
    e: ExprView<Ann>,
    how: IfStrategy,
)
    requires
        binding_free(e),
        inferred(env, e) is Ok,
    ensures
        evaluated(e) matches Some(ExprView::Prim { prim, .. }) && result_of(function_body(e, how))
            == Some(prim_value(prim)),
{
    binding_free_is_variable_free(e);
    elaborated_has_value_of_its_type(env, e);
    compiled_function_returns_value(e, how);
}

/// Lowering does not depend on annotations.
pub proof fn lowering_ignores_annotations<Ann>(e: ExprView<Ann>, how: IfStrategy)
    ensures
        lowered(e.erased(), how) == lowered(e, how),
    decreases e,
{
    match e {
        ExprView::If { pred_expr, then_expr, else_expr, .. } => {
            lowering_ignores_annotations(*pred_expr, how);
            lowering_ignores_annotations(*then_expr, how);
            lowering_ignores_annotations(*else_expr, how);
        },
        _ => {},
    }
}

/// The pipeline is sound: where a binding-free expression elaborates, the
/// function compiled from the elaborated tree returns the machine value of
/// the literal that the interpreter reduces that tree to, with either
/// lowering of conditionals.
pub proof fn elaborated_code_agrees_with_interpreter<Ann: Clone + Copy>(
    env: Map<Seq<char>, Type<Ann>>,
    e: ExprView<Ann>,
    how: IfStrategy,
)
    requires
        binding_free(e),
        inferred(env, e) is Ok,
    ensures
        evaluated(inferred(env, e)->Ok_0) matches Some(ExprView::Prim { prim, .. }) && result_of(
            function_body(inferred(env, e)->Ok_0, how),
        ) == Some(prim_value(prim)),
{
    let elaborated = inferred(env, e)->Ok_0;
    binding_free_is_variable_free(e);
    elaborated_tree_has_value_of_its_type(env, e);
    elaboration_preserves_structure(env, e);
    lemma_binding_free_erased(e);
    lemma_binding_free_erased(elaborated);
    compiled_function_returns_value(elaborated, how);
}

/// Whether an expression is binding-free does not depend on annotations.
proof fn lemma_binding_free_erased<Ann>(e: ExprView<Ann>)
    ensures
        binding_free(e.erased()) == binding_free(e),
    decreases e,
{
    match e {
        ExprView::If { pred_expr, then_expr, else_expr, .. } => {
            lemma_binding_free_erased(*pred_expr);
            lemma_binding_free_erased(*then_expr);
            lemma_binding_free_erased(*else_expr);
        },
        _ => {},
    }
}

} // verus!

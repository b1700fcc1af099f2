//! The reference interpreter: a structural evaluator that reduces an
//! expression to a literal.
//!
//! The interpreter keeps no environment. It is meant for trees that have
//! passed elaboration and hold no variable: a variable has no value, and a
//! binding is evaluated as its body, the name left unsubstituted.

use crate::types::expr::{Expr, ExprView, Prim};
use vstd::pervasive::unreached;
use vstd::prelude::*;

verus! {

/// The value of `e`: the literal node that it reduces to, or `None` where
/// evaluation is stuck.
///
/// - A literal is its own value.
/// - A conditional whose predicate reduces to a boolean literal has the
///   value of the branch that the literal selects; the other branch is not
///   looked at. With any other predicate it is stuck.
/// - A binding has the value of its body; the bound expression is not
///   looked at and the name is not substituted.
/// - A variable is stuck.
pub open spec fn evaluated<Ann>(e: ExprView<Ann>) -> Option<ExprView<Ann>>
    decreases e,
{
    match e {
        ExprView::Prim { .. } => Some(e),
        ExprView::If { pred_expr, then_expr, else_expr, .. } => match evaluated(*pred_expr) {
            Some(ExprView::Prim { prim: Prim::PBool { bool: true }, .. }) => evaluated(*then_expr),
            Some(ExprView::Prim { prim: Prim::PBool { bool: false }, .. }) => evaluated(
                *else_expr,
            ),
            _ => None,
        },
        ExprView::Let { rest_expr, .. } => evaluated(*rest_expr),
        ExprView::Var { .. } => None,
    }
}

/// The literal node of `expr` that is its value, or `None` where
/// evaluation is stuck.
pub fn value_of<Ann>(expr: &Expr<Ann>) -> (value: Option<&Expr<Ann>>)
    ensures
        match value {
            Some(node) => evaluated(expr@) == Some(node@),
            None => evaluated(expr@) is None,
        },
    decreases expr,
{
    match expr {
        Expr::EPrim { .. } => Some(expr),
        Expr::EIf { pred_expr, then_expr, else_expr, .. } => match value_of(pred_expr) {
            Some(Expr::EPrim { prim: Prim::PBool { bool: true }, .. }) => value_of(then_expr),
            Some(Expr::EPrim { prim: Prim::PBool { bool: false }, .. }) => value_of(else_expr),
            _ => None,
        },
        Expr::ELet { rest_expr, .. } => value_of(rest_expr),
        Expr::EVar { .. } => None,
    }
}

/// Evaluates `expr` to a literal. The expression must have a value: no
/// variable is reached and every predicate reached reduces to a boolean.
pub fn interpret_expr<Ann>(expr: Expr<Ann>) -> (value: Expr<Ann>)
    requires
        evaluated(expr@) is Some,
    ensures
        evaluated(expr@) == Some(value@),
        value@ is Prim,
    decreases expr,
{
    match expr {
        Expr::EPrim { ann, prim } => Expr::EPrim { ann, prim },
        Expr::EIf { pred_expr, then_expr, else_expr, .. } => {
            let interpreted_pred = interpret_expr(*pred_expr);
            match interpreted_pred {
                Expr::EPrim { prim: Prim::PBool { bool: true }, .. } => interpret_expr(*then_expr),
                Expr::EPrim { prim: Prim::PBool { bool: false }, .. } => interpret_expr(
                    *else_expr,
                ),
                _ => unreached(),
            }
        },
        Expr::ELet { rest_expr, .. } => interpret_expr(*rest_expr),
        Expr::EVar { .. } => unreached(),
    }
}

/// A literal evaluates to itself.
pub proof fn literal_is_its_own_value<Ann>(ann: Ann, prim: Prim)
    ensures
        evaluated(ExprView::Prim { ann, prim }) == Some(ExprView::Prim { ann, prim }),
{
}

/// A conditional whose predicate is the literal `true` evaluates as its
/// then branch, and one whose predicate is the literal `false` as its else
/// branch, whatever the other branch is.
pub proof fn conditional_selects_branch<Ann>(
    ann: Ann,
    pred_ann: Ann,
    choice: bool,
    then_expr: ExprView<Ann>,
    else_expr: ExprView<Ann>,
)
    ensures
        evaluated(
            ExprView::If {
                ann,
                pred_expr: Box::new(
                    ExprView::Prim { ann: pred_ann, prim: Prim::PBool { bool: choice } },
                ),
                then_expr: Box::new(then_expr),
                else_expr: Box::new(else_expr),
            },
        ) == if choice {
            evaluated(then_expr)
        } else {
            evaluated(else_expr)
        },
{
    reveal_with_fuel(evaluated, 2);
}

/// Whatever has a value has a literal for its value.
pub proof fn value_is_literal<Ann>(e: ExprView<Ann>)
    ensures
        evaluated(e) matches Some(v) ==> v is Prim,
    decreases e,
{
    match e {
        ExprView::Prim { .. } => {},
        ExprView::If { then_expr, else_expr, .. } => {
            value_is_literal(*then_expr);
            value_is_literal(*else_expr);
        },
        ExprView::Let { rest_expr, .. } => {
            value_is_literal(*rest_expr);
        },
        ExprView::Var { .. } => {},
    }
}

/// Evaluation does not depend on annotations: erasing them before
/// evaluating gives the value with its annotation erased.
pub proof fn evaluation_ignores_annotations<Ann>(e: ExprView<Ann>)
    ensures
        evaluated(e.erased()) == match evaluated(e) {
            Some(v) => Some(v.erased()),
            None => None,
        },
    decreases e,
{
    match e {
        ExprView::Prim { .. } => {},
        ExprView::If { pred_expr, then_expr, else_expr, .. } => {
            evaluation_ignores_annotations(*pred_expr);
            evaluation_ignores_annotations(*then_expr);
            evaluation_ignores_annotations(*else_expr);
            value_is_literal(*pred_expr);
        },
        ExprView::Let { rest_expr, .. } => {
            evaluation_ignores_annotations(*rest_expr);
        },
        ExprView::Var { .. } => {},
    }
}

} // verus!

//! Constructors of unannotated expressions.

use crate::types::expr::{Expr, ExprView, Prim};
use vstd::prelude::*;
use vstd::string::StringExecFns;

verus! {

/// The integer literal `int_val`.
pub fn mk_int(int_val: i32) -> (expr: Expr<()>)
    ensures
        expr@ == (ExprView::Prim { ann: (), prim: Prim::PInt { int: int_val } }),
{
    Expr::EPrim { ann: (), prim: Prim::PInt { int: int_val } }
}

/// The boolean literal `bool_val`.
pub fn bool(bool_val: bool) -> (expr: Expr<()>)
    ensures
        expr@ == (ExprView::Prim { ann: (), prim: Prim::PBool { bool: bool_val } }),
{
    Expr::EPrim { ann: (), prim: Prim::PBool { bool: bool_val } }
}

/// The variable named `identifier`.
pub fn var(identifier: &str) -> (expr: Expr<()>)
    ensures
        expr@ == (ExprView::Var { ann: (), identifier: identifier@ }),
{
    Expr::EVar { ann: (), identifier: String::from_str(identifier) }
}

/// The conditional with the given predicate and branches.
pub fn mk_if(pred_expr: Expr<()>, then_expr: Expr<()>, else_expr: Expr<()>) -> (expr: Expr<()>)
    ensures
        expr@ == (ExprView::If {
            ann: (),
            pred_expr: Box::new(pred_expr@),
            then_expr: Box::new(then_expr@),
            else_expr: Box::new(else_expr@),
        }),
{
    Expr::EIf {
        ann: (),
        pred_expr: Box::new(pred_expr),
        then_expr: Box::new(then_expr),
        else_expr: Box::new(else_expr),
    }
}

} // verus!

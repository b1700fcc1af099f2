//! The elaborator: infers the type of every node of an expression and
//! rewrites the tree's annotations to the inferred types.

use super::env::Env;
use crate::types::expr::{lemma_every_annotation, lemma_related_filled, map_expr, max3};
use crate::types::expr::{Expr, ExprView, Prim};
use crate::types::ty::{map_type, Type};
use crate::types::typeerror::{TypeError, TypeErrorView};
use vstd::prelude::*;

verus! {

/// The outcome of elaboration, as a value of the model.
pub type Elaboration<Ann> = Result<ExprView<Type<Ann>>, TypeErrorView<Ann>>;

/// The model of what an elaboration function returned.
pub open spec fn outcome<Ann: Clone + Copy>(
    r: Result<Expr<Type<Ann>>, TypeError<Ann>>,
) -> Elaboration<Ann> {
    match r {
        Ok(expr) => Ok(expr@),
        Err(err) => Err(err@),
    }
}

/// The type of a literal annotated `ann`.
pub open spec fn prim_type<Ann: Clone + Copy>(prim: Prim, ann: Ann) -> Type<Ann> {
    match prim {
        Prim::PInt { .. } => Type::TInt { ann },
        Prim::PBool { .. } => Type::TBool { ann },
    }
}

/// The subtype check: `type_a` where the two types are compatible, else the
/// mismatch of the two.
pub open spec fn subtyped<Ann: Clone + Copy>(type_a: Type<Ann>, type_b: Type<Ann>) -> Result<
    Type<Ann>,
    TypeErrorView<Ann>,
> {
    if type_a.compatible(type_b) {
        Ok(type_a)
    } else {
        Err(TypeErrorView::TypeMismatch { type_a, type_b })
    }
}

/// A mismatch found while checking the predicate of the conditional
/// annotated `ann`, reported as such; any other error unchanged.
pub open spec fn as_predicate_error<Ann: Clone + Copy>(
    err: TypeErrorView<Ann>,
    ann: Ann,
) -> TypeErrorView<Ann> {
    match err {
        TypeErrorView::TypeMismatch { type_b, .. } => TypeErrorView::PredicateShouldBeBool {
            ann,
            found: type_b,
        },
        other => other,
    }
}

/// A mismatch found while checking the else branch of the conditional
/// annotated `ann` against its then branch, reported as such; any other
/// error unchanged.
pub open spec fn as_branch_error<Ann: Clone + Copy>(
    err: TypeErrorView<Ann>,
    ann: Ann,
) -> TypeErrorView<Ann> {
    match err {
        TypeErrorView::TypeMismatch { type_a, type_b } => TypeErrorView::MismatchedIfBranches {
            ann,
            then_found: type_a,
            else_found: type_b,
        },
        other => other,
    }
}

/// Type inference. In environment `env`, the elaboration of `e`: the same
/// tree, each node annotated with its type, or the first error met.
///
/// - A literal has the type of its kind, carrying the literal's annotation.
/// - A variable has the type bound to it in `env`, carrying the variable's
///   annotation; without a binding it is an error.
/// - A binding has the type of its body, inferred with the name bound to
///   the type of the bound expression.
/// - A conditional has the type of its then branch; see [`inferred_if`].
pub open spec fn inferred<Ann: Clone + Copy>(
    env: Map<Seq<char>, Type<Ann>>,
    e: ExprView<Ann>,
) -> Elaboration<Ann>
    decreases e.height(), 0nat,
{
    match e {
        ExprView::Prim { ann, prim } => Ok(ExprView::Prim { ann: prim_type(prim, ann), prim }),
        ExprView::Var { ann, identifier } => if env.dom().contains(identifier) {
            Ok(ExprView::Var { ann: env[identifier].with_annotation(ann), identifier })
        } else {
            Err(TypeErrorView::UnboundVariable { name: identifier })
        },
        ExprView::Let { identifier, bound_expr, rest_expr, .. } => match inferred(
            env,
            *bound_expr,
        ) {
            Err(err) => Err(err),
            Ok(bound) => match inferred(env.insert(identifier, bound.annotation()), *rest_expr) {
                Err(err) => Err(err),
                Ok(rest) => Ok(
                    ExprView::Let {
                        ann: rest.annotation(),
                        identifier,
                        bound_expr: Box::new(bound),
                        rest_expr: Box::new(rest),
                    },
                ),
            },
        },
        ExprView::If { ann, pred_expr, then_expr, else_expr } => inferred_if(
            env,
            ann,
            *pred_expr,
            *then_expr,
            *else_expr,
        ),
    }
}

/// Inference for the conditional annotated `ann`: the predicate is checked
/// against the boolean type, the then branch is inferred, and the else
/// branch is checked against the type of the then branch, which is the type
/// of the conditional.
pub open spec fn inferred_if<Ann: Clone + Copy>(
    env: Map<Seq<char>, Type<Ann>>,
    ann: Ann,
    pred_expr: ExprView<Ann>,
    then_expr: ExprView<Ann>,
    else_expr: ExprView<Ann>,
) -> Elaboration<Ann>
    decreases max3(pred_expr.height(), then_expr.height(), else_expr.height()), 2nat,
{
    match checked(env, pred_expr, Type::TBool { ann }) {
        Err(err) => Err(as_predicate_error(err, ann)),
        Ok(pred) => match inferred(env, then_expr) {
            Err(err) => Err(err),
            Ok(then) => match checked(env, else_expr, then.annotation()) {
                Err(err) => Err(as_branch_error(err, ann)),
                Ok(els) => Ok(
                    ExprView::If {
                        ann: then.annotation(),
                        pred_expr: Box::new(pred),
                        then_expr: Box::new(then),
                        else_expr: Box::new(els),
                    },
                ),
            },
        },
    }
}

/// Type checking: `e` is inferred and its type compared with `expected`;
/// on success every annotation of the elaborated tree is `expected`.
pub open spec fn checked<Ann: Clone + Copy>(
    env: Map<Seq<char>, Type<Ann>>,
    e: ExprView<Ann>,
    expected: Type<Ann>,
) -> Elaboration<Ann>
    decreases e.height(), 1nat,
{
    match inferred(env, e) {
        Err(err) => Err(err),
        Ok(elaborated) => match subtyped(expected, elaborated.annotation()) {
            Err(err) => Err(err),
            Ok(unified) => Ok(elaborated.filled(unified)),
        },
    }
}

/// Elaborates a closed expression: infers its type in the empty environment.
pub fn elaborate_expr<Ann>(expr: Expr<Ann>) -> (r: Result<Expr<Type<Ann>>, TypeError<Ann>>) where
    Ann: Clone + Copy,

    ensures
        outcome(r) == inferred(Map::empty(), expr@),
{
    let mut env = Env::new();
    infer(&mut env, expr)
}

/// Infers the type of `expr` in `env`, which is left as it was found.
pub fn infer<Ann>(env: &mut Env<Ann>, expr: Expr<Ann>) -> (r: Result<
    Expr<Type<Ann>>,
    TypeError<Ann>,
>) where Ann: Clone + Copy
    ensures
        outcome(r) == inferred(old(env)@, expr@),
        final(env).scopes() == old(env).scopes(),
    decreases expr@.height(), 0nat,
{
    match expr {
        Expr::EPrim { ann, prim } => {
            let ty = match prim {
                Prim::PInt { .. } => Type::TInt { ann },
                Prim::PBool { .. } => Type::TBool { ann },
            };
            Ok(Expr::EPrim { ann: ty, prim })
        },
        Expr::EIf { ann, pred_expr, then_expr, else_expr } => infer_if(
            env,
            ann,
            *pred_expr,
            *then_expr,
            *else_expr,
        ),
        Expr::ELet { identifier, bound_expr, rest_expr, .. } => {
            let bound = match infer(env, *bound_expr) {
                Ok(bound) => bound,
                Err(err) => {
                    return Err(err);
                },
            };
            env.push(identifier.clone(), root_type(&bound));
            let inferred_rest = infer(env, *rest_expr);
            env.pop();
            assert(env.scopes() =~= old(env).scopes());
            match inferred_rest {
                Ok(rest) => Ok(
                    Expr::ELet {
                        ann: root_type(&rest),
                        identifier,
                        bound_expr: Box::new(bound),
                        rest_expr: Box::new(rest),
                    },
                ),
                Err(err) => Err(err),
            }
        },
        Expr::EVar { identifier, ann } => match env.lookup(&identifier) {
            Some(ty) => {
                let relabel = |_bound: Ann| -> (own: Ann)
                    ensures
                        own == ann,
                    { ann };
                let type_with_ann = map_type(ty, relabel);
                Ok(Expr::EVar { ann: type_with_ann, identifier })
            },
            None => Err(TypeError::UnboundVariable { name: identifier }),
        },
    }
}

/// Infers the type of the conditional annotated `ann`.
pub fn infer_if<Ann>(
    env: &mut Env<Ann>,
    ann: Ann,
    pred_expr: Expr<Ann>,
    then_expr: Expr<Ann>,
    else_expr: Expr<Ann>,
) -> (r: Result<Expr<Type<Ann>>, TypeError<Ann>>) where Ann: Clone + Copy
    ensures
        outcome(r) == inferred_if(old(env)@, ann, pred_expr@, then_expr@, else_expr@),
        final(env).scopes() == old(env).scopes(),
    decreases max3(pred_expr@.height(), then_expr@.height(), else_expr@.height()), 2nat,
{
    let pred = match check(env, pred_expr, Type::TBool { ann }) {
        Ok(pred) => pred,
        Err(TypeError::TypeMismatch { type_b, .. }) => {
            return Err(TypeError::PredicateShouldBeBool { ann, found: type_b });
        },
        Err(other) => {
            return Err(other);
        },
    };
    let then = match infer(env, then_expr) {
        Ok(then) => then,
        Err(err) => {
            return Err(err);
        },
    };
    let then_type = root_type(&then);
    match check(env, else_expr, then_type) {
        Ok(els) => Ok(
            Expr::EIf {
                ann: then_type,
                pred_expr: Box::new(pred),
                then_expr: Box::new(then),
                else_expr: Box::new(els),
            },
        ),
        Err(TypeError::TypeMismatch { type_a, type_b }) => Err(
            TypeError::MismatchedIfBranches { ann, then_found: type_a, else_found: type_b },
        ),
        Err(other) => Err(other),
    }
}

/// Checks `expr` against `expected_type` in `env`, which is left as it was
/// found.
pub fn check<Ann>(env: &mut Env<Ann>, expr: Expr<Ann>, expected_type: Type<Ann>) -> (r: Result<
    Expr<Type<Ann>>,
    TypeError<Ann>,
>) where Ann: Clone + Copy
    ensures
        outcome(r) == checked(old(env)@, expr@, expected_type),
        final(env).scopes() == old(env).scopes(),
    decreases expr@.height(), 1nat,
{
    let expr_a = match infer(env, expr) {
        Ok(expr_a) => expr_a,
        Err(err) => {
            return Err(err);
        },
    };
    let found_type = root_type(&expr_a);
    let combined_type = match subtype(expected_type, found_type) {
        Ok(combined_type) => combined_type,
        Err(err) => {
            return Err(err);
        },
    };
    let fill = |_found: Type<Ann>| -> (unified: Type<Ann>)
        ensures
            unified == combined_type,
        { combined_type };
    proof {
        lemma_every_annotation(expr_a@, |a: Type<Ann>| call_requires(fill, (a,)));
    }
    let rewritten = map_expr(expr_a, fill);
    proof {
        lemma_related_filled(
            expr_a@,
            rewritten@,
            |a: Type<Ann>, b: Type<Ann>| call_ensures(fill, (a,), b),
            combined_type,
        );
    }
    Ok(rewritten)
}

/// The subtype check: `type_a` where the two types agree once their
/// annotations are erased, else the mismatch of the two.
pub fn subtype<Ann>(type_a: Type<Ann>, type_b: Type<Ann>) -> (r: Result<
    Type<Ann>,
    TypeError<Ann>,
>) where Ann: Clone + Copy
    ensures
        match r {
            Ok(ty) => subtyped(type_a, type_b) == Ok::<Type<Ann>, TypeErrorView<Ann>>(ty),
            Err(err) => subtyped(type_a, type_b) == Err::<Type<Ann>, TypeErrorView<Ann>>(err@),
        },
{
    let compatible = match (type_a, type_b) {
        (Type::TInt { .. }, Type::TInt { .. }) => true,
        (Type::TBool { .. }, Type::TBool { .. }) => true,
        _ => false,
    };
    if compatible {
        Ok(type_a)
    } else {
        Err(TypeError::TypeMismatch { type_a, type_b })
    }
}

/// The type at the root of an elaborated expression.
fn root_type<Ann>(expr: &Expr<Type<Ann>>) -> (ty: Type<Ann>) where Ann: Clone + Copy
    ensures
        ty == expr@.annotation(),
{
    match expr {
        Expr::EPrim { ann, .. } => *ann,
        Expr::EIf { ann, .. } => *ann,
        Expr::ELet { ann, .. } => *ann,
        Expr::EVar { ann, .. } => *ann,
    }
}

} // verus!

//! What elaboration guarantees, stated over the model and proved.

use super::elaborate::{checked, inferred, inferred_if, prim_type};
use crate::interpret::interpreter::{evaluated, evaluation_ignores_annotations};
use crate::types::expr::{ExprView, Prim};
use crate::types::ty::Type;
use crate::types::typeerror::TypeErrorView;
use vstd::prelude::*;

verus! {

/// A boolean literal elaborates to itself at the boolean type, in any
/// environment.
pub proof fn bool_literal_is_bool<Ann: Clone + Copy>(
    env: Map<Seq<char>, Type<Ann>>,
    ann: Ann,
    b: bool,
)
    ensures
        inferred(env, ExprView::Prim { ann, prim: Prim::PBool { bool: b } }) == Ok::<
            ExprView<Type<Ann>>,
            TypeErrorView<Ann>,
        >(ExprView::Prim { ann: Type::TBool { ann }, prim: Prim::PBool { bool: b } }),
{
}

/// An integer literal elaborates to itself at the integer type, in any
/// environment.
pub proof fn int_literal_is_int<Ann: Clone + Copy>(
    env: Map<Seq<char>, Type<Ann>>,
    ann: Ann,
    n: i32,
)
    ensures
        inferred(env, ExprView::Prim { ann, prim: Prim::PInt { int: n } }) == Ok::<
            ExprView<Type<Ann>>,
            TypeErrorView<Ann>,
        >(ExprView::Prim { ann: Type::TInt { ann }, prim: Prim::PInt { int: n } }),
{
}

/// The conditional annotated `ann` with the given parts.
pub open spec fn conditional<Ann>(
    ann: Ann,
    pred_expr: ExprView<Ann>,
    then_expr: ExprView<Ann>,
    else_expr: ExprView<Ann>,
) -> ExprView<Ann> {
    ExprView::If {
        ann,
        pred_expr: Box::new(pred_expr),
        then_expr: Box::new(then_expr),
        else_expr: Box::new(else_expr),
    }
}

/// The binding annotated `ann` of `identifier` to `bound_expr` in
/// `rest_expr`.
pub open spec fn binding<Ann>(
    ann: Ann,
    identifier: Seq<char>,
    bound_expr: ExprView<Ann>,
    rest_expr: ExprView<Ann>,
) -> ExprView<Ann> {
    ExprView::Let {
        ann,
        identifier,
        bound_expr: Box::new(bound_expr),
        rest_expr: Box::new(rest_expr),
    }
}

/// Inference never reports a bare mismatch: every mismatch is reported as
/// a fault of the conditional in which it was found.
pub proof fn inference_reports_no_bare_mismatch<Ann: Clone + Copy>(
    env: Map<Seq<char>, Type<Ann>>,
    e: ExprView<Ann>,
)
    ensures
        inferred(env, e) matches Err(err) ==> !(err is TypeMismatch),
    decreases e,
{
    reveal_with_fuel(inferred, 2);
    reveal_with_fuel(inferred_if, 2);
    reveal_with_fuel(checked, 2);
    match e {
        ExprView::Prim { .. } => {},
        ExprView::Var { .. } => {},
        ExprView::Let { identifier, bound_expr, rest_expr, .. } => {
            inference_reports_no_bare_mismatch(env, *bound_expr);
            if let Ok(bound) = inferred(env, *bound_expr) {
                inference_reports_no_bare_mismatch(
                    env.insert(identifier, bound.annotation()),
                    *rest_expr,
                );
            }
        },
        ExprView::If { pred_expr, then_expr, else_expr, .. } => {
            inference_reports_no_bare_mismatch(env, *pred_expr);
            inference_reports_no_bare_mismatch(env, *then_expr);
            inference_reports_no_bare_mismatch(env, *else_expr);
        },
    }
}

/// A conditional whose predicate elaborates to a type that is not boolean
/// fails with `PredicateShouldBeBool`, which reports that type.
pub proof fn predicate_must_be_bool<Ann: Clone + Copy>(
    env: Map<Seq<char>, Type<Ann>>,
    ann: Ann,
    pred_expr: ExprView<Ann>,
    then_expr: ExprView<Ann>,
    else_expr: ExprView<Ann>,
)
    requires
        inferred(env, pred_expr) matches Ok(pred) && !(pred.annotation() is TBool),
    ensures
        inferred(env, conditional(ann, pred_expr, then_expr, else_expr)) == Err::<
            ExprView<Type<Ann>>,
            TypeErrorView<Ann>,
        >(
            TypeErrorView::PredicateShouldBeBool {
                ann,
                found: inferred(env, pred_expr)->Ok_0.annotation(),
            },
        ),
{
    reveal_with_fuel(inferred, 2);
    reveal_with_fuel(inferred_if, 2);
    reveal_with_fuel(checked, 2);
    assert(checked(env, pred_expr, Type::TBool { ann }) is Err);
    assert(inferred(env, conditional(ann, pred_expr, then_expr, else_expr)) == inferred_if(
        env,
        ann,
        pred_expr,
        then_expr,
        else_expr,
    ));
}

/// A conditional whose predicate is boolean and whose branches elaborate to
/// incompatible types fails with `MismatchedIfBranches`, which reports the
/// types of the two branches.
pub proof fn branches_must_agree<Ann: Clone + Copy>(
    env: Map<Seq<char>, Type<Ann>>,
    ann: Ann,
    pred_expr: ExprView<Ann>,
    then_expr: ExprView<Ann>,
    else_expr: ExprView<Ann>,
)
    requires
        inferred(env, pred_expr) matches Ok(pred) && pred.annotation() is TBool,
        inferred(env, then_expr) is Ok,
        inferred(env, else_expr) is Ok,
        !inferred(env, then_expr)->Ok_0.annotation().compatible(
            inferred(env, else_expr)->Ok_0.annotation(),
        ),
    ensures
        inferred(env, conditional(ann, pred_expr, then_expr, else_expr)) == Err::<
            ExprView<Type<Ann>>,
            TypeErrorView<Ann>,
        >(
            TypeErrorView::MismatchedIfBranches {
                ann,
                then_found: inferred(env, then_expr)->Ok_0.annotation(),
                else_found: inferred(env, else_expr)->Ok_0.annotation(),
            },
        ),
{
    reveal_with_fuel(inferred, 2);
    reveal_with_fuel(inferred_if, 2);
    reveal_with_fuel(checked, 2);
    let then = inferred(env, then_expr)->Ok_0;
    assert(checked(env, pred_expr, Type::TBool { ann }) is Ok);
    assert(checked(env, else_expr, then.annotation()) is Err);
    assert(inferred(env, conditional(ann, pred_expr, then_expr, else_expr)) == inferred_if(
        env,
        ann,
        pred_expr,
        then_expr,
        else_expr,
    ));
}

/// A conditional whose predicate is boolean and whose branches elaborate to
/// compatible types elaborates, to the type of its then branch, which the
/// else branch shares.
pub proof fn conditional_has_branch_type<Ann: Clone + Copy>(
    env: Map<Seq<char>, Type<Ann>>,
    ann: Ann,
    pred_expr: ExprView<Ann>,
    then_expr: ExprView<Ann>,
    else_expr: ExprView<Ann>,
)
    requires
        inferred(env, pred_expr) matches Ok(pred) && pred.annotation() is TBool,
        inferred(env, then_expr) is Ok,
        inferred(env, else_expr) is Ok,
        inferred(env, then_expr)->Ok_0.annotation().compatible(
            inferred(env, else_expr)->Ok_0.annotation(),
        ),
    ensures
        inferred(env, conditional(ann, pred_expr, then_expr, else_expr)) matches Ok(elaborated)
            && elaborated.annotation() == inferred(env, then_expr)->Ok_0.annotation()
            && elaborated.annotation().compatible(inferred(env, else_expr)->Ok_0.annotation()),
{
    reveal_with_fuel(inferred, 2);
    reveal_with_fuel(inferred_if, 2);
    reveal_with_fuel(checked, 2);
    let then = inferred(env, then_expr)->Ok_0;
    assert(checked(env, pred_expr, Type::TBool { ann }) is Ok);
    assert(checked(env, else_expr, then.annotation()) is Ok);
    assert(inferred(env, conditional(ann, pred_expr, then_expr, else_expr)) == inferred_if(
        env,
        ann,
        pred_expr,
        then_expr,
        else_expr,
    ));
}

/// A binding elaborates as its body does where the name is bound to the
/// type of the bound expression, and to the same type.
pub proof fn binding_has_body_type<Ann: Clone + Copy>(
    env: Map<Seq<char>, Type<Ann>>,
    ann: Ann,
    identifier: Seq<char>,
    bound_expr: ExprView<Ann>,
    rest_expr: ExprView<Ann>,
)
    requires
        inferred(env, bound_expr) is Ok,
    ensures
        ({
            let inner = env.insert(identifier, inferred(env, bound_expr)->Ok_0.annotation());
            match inferred(inner, rest_expr) {
                Ok(rest) => inferred(env, binding(ann, identifier, bound_expr, rest_expr))
                    matches Ok(elaborated) && elaborated.annotation() == rest.annotation(),
                Err(err) => inferred(env, binding(ann, identifier, bound_expr, rest_expr)) == Err::<
                    ExprView<Type<Ann>>,
                    TypeErrorView<Ann>,
                >(err),
            }
        }),
{
}

/// A binding is visible in its body only: a use of the name in the sibling
/// branch of a conditional, where no enclosing scope binds it, is unbound
/// although the other branch binds it.
pub proof fn binding_stays_in_its_body<Ann: Clone + Copy>(
    env: Map<Seq<char>, Type<Ann>>,
    ann: Ann,
    pred_expr: ExprView<Ann>,
    let_ann: Ann,
    identifier: Seq<char>,
    bound_expr: ExprView<Ann>,
    rest_expr: ExprView<Ann>,
    var_ann: Ann,
)
    requires
        !env.dom().contains(identifier),
        inferred(env, pred_expr) matches Ok(pred) && pred.annotation() is TBool,
        inferred(env, binding(let_ann, identifier, bound_expr, rest_expr)) is Ok,
    ensures
        inferred(
            env,
            conditional(
                ann,
                pred_expr,
                binding(let_ann, identifier, bound_expr, rest_expr),
                ExprView::Var { ann: var_ann, identifier },
            ),
        ) == Err::<ExprView<Type<Ann>>, TypeErrorView<Ann>>(
            TypeErrorView::UnboundVariable { name: identifier },
        ),
{
    reveal_with_fuel(inferred, 2);
    reveal_with_fuel(inferred_if, 2);
    reveal_with_fuel(checked, 2);
    let scoped = binding(let_ann, identifier, bound_expr, rest_expr);
    let sibling = ExprView::Var { ann: var_ann, identifier };
    let then = inferred(env, scoped)->Ok_0;
    assert(checked(env, pred_expr, Type::TBool { ann }) is Ok);
    assert(inferred(env, sibling) is Err);
    assert(checked(env, sibling, then.annotation()) is Err);
    assert(inferred(env, conditional(ann, pred_expr, scoped, sibling)) == inferred_if(
        env,
        ann,
        pred_expr,
        scoped,
        sibling,
    ));
}

/// Filling a tree twice is filling it with the second annotation.
pub proof fn filled_twice<A, B, C>(e: ExprView<A>, b: B, c: C)
    ensures
        e.filled(b).filled(c) == e.filled(c),
    decreases e,
{
    match e {
        ExprView::Prim { .. } => {},
        ExprView::If { pred_expr, then_expr, else_expr, .. } => {
            filled_twice(*pred_expr, b, c);
            filled_twice(*then_expr, b, c);
            filled_twice(*else_expr, b, c);
        },
        ExprView::Let { bound_expr, rest_expr, .. } => {
            filled_twice(*bound_expr, b, c);
            filled_twice(*rest_expr, b, c);
        },
        ExprView::Var { .. } => {},
    }
}

/// Elaboration preserves structure: the elaborated tree is the tree given
/// but for its annotations.
pub proof fn elaboration_preserves_structure<Ann: Clone + Copy>(
    env: Map<Seq<char>, Type<Ann>>,
    e: ExprView<Ann>,
)
    ensures
        inferred(env, e) matches Ok(elaborated) ==> elaborated.erased() == e.erased(),
    decreases e,
{
    reveal_with_fuel(inferred, 2);
    reveal_with_fuel(inferred_if, 2);
    reveal_with_fuel(checked, 2);
    match e {
        ExprView::Prim { .. } => {},
        ExprView::Var { .. } => {},
        ExprView::Let { identifier, bound_expr, rest_expr, .. } => {
            elaboration_preserves_structure(env, *bound_expr);
            if let Ok(bound) = inferred(env, *bound_expr) {
                elaboration_preserves_structure(
                    env.insert(identifier, bound.annotation()),
                    *rest_expr,
                );
            }
        },
        ExprView::If { ann, pred_expr, then_expr, else_expr } => {
            elaboration_preserves_structure(env, *pred_expr);
            elaboration_preserves_structure(env, *then_expr);
            elaboration_preserves_structure(env, *else_expr);
            assert(inferred(env, e) == inferred_if(env, ann, *pred_expr, *then_expr, *else_expr));
            if inferred(env, e) is Ok {
                let pred = inferred(env, *pred_expr)->Ok_0;
                let then = inferred(env, *then_expr)->Ok_0;
                let els = inferred(env, *else_expr)->Ok_0;
                assert(checked(env, *pred_expr, Type::TBool { ann }) == Ok::<
                    ExprView<Type<Ann>>,
                    TypeErrorView<Ann>,
                >(pred.filled(Type::TBool { ann })));
                assert(checked(env, *else_expr, then.annotation()) == Ok::<
                    ExprView<Type<Ann>>,
                    TypeErrorView<Ann>,
                >(els.filled(then.annotation())));
                filled_twice(pred, Type::TBool { ann }, ());
                filled_twice(els, then.annotation(), ());
            }
        },
    }
}

/// Whether no variable occurs in `e`.
pub open spec fn variable_free<Ann>(e: ExprView<Ann>) -> bool
    decreases e,
{
    match e {
        ExprView::Prim { .. } => true,
        ExprView::If { pred_expr, then_expr, else_expr, .. } => {
            &&& variable_free(*pred_expr)
            &&& variable_free(*then_expr)
            &&& variable_free(*else_expr)
        },
        ExprView::Let { bound_expr, rest_expr, .. } => {
            &&& variable_free(*bound_expr)
            &&& variable_free(*rest_expr)
        },
        ExprView::Var { .. } => false,
    }
}

/// Type soundness: an expression without variables that elaborates has a
/// value, and the value is a literal of the type that elaboration gave the
/// expression.
pub proof fn elaborated_has_value_of_its_type<Ann: Clone + Copy>(
    env: Map<Seq<char>, Type<Ann>>,
    e: ExprView<Ann>,
)
    requires
        variable_free(e),
        inferred(env, e) is Ok,
    ensures
        evaluated(e) matches Some(ExprView::Prim { prim, .. }) && prim_type(prim, ())
            == inferred(env, e)->Ok_0.annotation().erased(),
    decreases e,
{
    reveal_with_fuel(inferred, 2);
    reveal_with_fuel(inferred_if, 2);
    reveal_with_fuel(checked, 2);
    match e {
        ExprView::Prim { .. } => {},
        ExprView::Var { .. } => {},
        ExprView::Let { identifier, bound_expr, rest_expr, .. } => {
            let bound = inferred(env, *bound_expr)->Ok_0;
            elaborated_has_value_of_its_type(
                env.insert(identifier, bound.annotation()),
                *rest_expr,
            );
        },
        ExprView::If { ann, pred_expr, then_expr, else_expr } => {
            assert(inferred(env, e) == inferred_if(env, ann, *pred_expr, *then_expr, *else_expr));
            assert(checked(env, *pred_expr, Type::TBool { ann }) is Ok);
            let then = inferred(env, *then_expr)->Ok_0;
            assert(checked(env, *else_expr, then.annotation()) is Ok);
            elaborated_has_value_of_its_type(env, *pred_expr);
            elaborated_has_value_of_its_type(env, *then_expr);
            elaborated_has_value_of_its_type(env, *else_expr);
        },
    }
}

/// What elaboration hands on can be evaluated: the elaborated tree of an
/// expression without variables has a value, which is a literal of the
/// type at the root of the tree.
pub proof fn elaborated_tree_has_value_of_its_type<Ann: Clone + Copy>(
    env: Map<Seq<char>, Type<Ann>>,
    e: ExprView<Ann>,
)
    requires
        variable_free(e),
        inferred(env, e) is Ok,
    ensures
        evaluated(inferred(env, e)->Ok_0) matches Some(ExprView::Prim { prim, .. }) && prim_type(
            prim,
            (),
        ) == inferred(env, e)->Ok_0.annotation().erased(),
{
    let elaborated = inferred(env, e)->Ok_0;
    elaborated_has_value_of_its_type(env, e);
    elaboration_preserves_structure(env, e);
    evaluation_ignores_annotations(e);
    evaluation_ignores_annotations(elaborated);
}

} // verus!

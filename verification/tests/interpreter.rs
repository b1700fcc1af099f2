use compiler::interpret::interpreter::{interpret_expr, value_of};
use compiler::parser::parse_constructors::{bool, mk_if, mk_int};
use compiler::typecheck::elaborate::elaborate_expr;
use compiler::types::expr::{map_expr, Expr, Prim};

#[test]
fn interpreter_test_interpret_if() {
    let int_one = mk_int(1);

    let int_two = mk_int(2);

    let if_expr = Expr::EIf {
        ann: (),
        pred_expr: Box::new(bool(true)),
        then_expr: Box::new(int_one.clone()),
        else_expr: Box::new(int_two.clone()),
    };

    assert_eq!(interpret_expr(if_expr), int_one);

    let if_expr_2 = Expr::EIf {
        ann: (),
        pred_expr: Box::new(Expr::EPrim {
            ann: (),
            prim: Prim::PBool { bool: false },
        }),
        then_expr: Box::new(int_one.clone()),
        else_expr: Box::new(int_two.clone()),
    };

    assert_eq!(interpret_expr(if_expr_2), int_two);
}

#[test]
fn test_interpret_if() {
    let int_one = Expr::EPrim { ann: (), prim: Prim::PInt { int: 1 } };
    let int_two = Expr::EPrim { ann: (), prim: Prim::PInt { int: 2 } };
    let if_expr = Expr::EIf {
        ann: (),
        pred_expr: Box::new(Expr::EPrim {
            ann: (),
            prim: Prim::PBool { bool: true },
        }),
        then_expr: Box::new(int_one.clone()),
        else_expr: Box::new(int_two.clone()),
    };

    assert_eq!(interpret_expr(if_expr), int_one);

    let if_expr_2 = Expr::EIf {
        ann: (),
        pred_expr: Box::new(Expr::EPrim {
            ann: (),
            prim: Prim::PBool { bool: false },
        }),
        then_expr: Box::new(int_one.clone()),
        else_expr: Box::new(int_two.clone()),
    };

    assert_eq!(interpret_expr(if_expr_2), int_two);
}

#[test]
fn literals_evaluate_to_themselves() {
    assert_eq!(interpret_expr(mk_int(-5)), mk_int(-5));
    assert_eq!(interpret_expr(bool(true)), bool(true));
    assert_eq!(interpret_expr(bool(false)), bool(false));
}

#[test]
fn value_keeps_the_annotation_of_its_literal() {
    let expr = Expr::EIf {
        ann: 0u8,
        pred_expr: Box::new(Expr::EPrim { ann: 1, prim: Prim::PBool { bool: false } }),
        then_expr: Box::new(Expr::EPrim { ann: 2, prim: Prim::PInt { int: 10 } }),
        else_expr: Box::new(Expr::EPrim { ann: 3, prim: Prim::PInt { int: 20 } }),
    };
    assert_eq!(interpret_expr(expr), Expr::EPrim { ann: 3, prim: Prim::PInt { int: 20 } });
}

#[test]
fn nested_predicates_are_evaluated() {
    // if (if False then False else True) then 1 else 2
    let pred = mk_if(bool(false), bool(false), bool(true));
    assert_eq!(interpret_expr(mk_if(pred, mk_int(1), mk_int(2))), mk_int(1));
}

#[test]
fn branch_not_taken_is_not_evaluated() {
    // The else branch is a variable, which has no value.
    let stuck = Expr::EVar { ann: (), identifier: "x".to_string() };
    assert_eq!(interpret_expr(mk_if(bool(true), mk_int(1), stuck)), mk_int(1));
}

#[test]
fn binding_evaluates_to_its_body() {
    let expr = Expr::ELet {
        ann: (),
        identifier: "x".to_string(),
        bound_expr: Box::new(Expr::EVar { ann: (), identifier: "unbound".to_string() }),
        rest_expr: Box::new(mk_int(4)),
    };
    assert_eq!(interpret_expr(expr), mk_int(4));
}

#[test]
fn elaborated_expression_evaluates_as_the_plain_one() {
    let expr = mk_if(mk_if(bool(true), bool(false), bool(true)), mk_int(1), mk_int(2));
    let elaborated = elaborate_expr(expr.clone()).unwrap();
    assert_eq!(map_expr(interpret_expr(elaborated), |_| ()), interpret_expr(expr));
}

#[test]
fn value_of_finds_the_literal_or_nothing() {
    let expr = mk_if(bool(true), mk_int(1), mk_int(2));
    assert_eq!(value_of(&expr), Some(&mk_int(1)));
    assert_eq!(value_of(&mk_int(7)), Some(&mk_int(7)));

    let variable = Expr::EVar { ann: (), identifier: "x".to_string() };
    assert_eq!(value_of(&variable), None);
    // A predicate that is no boolean has no value, nor has what tests it.
    assert_eq!(value_of(&mk_if(mk_int(1), mk_int(1), mk_int(2))), None);
    assert_eq!(value_of(&mk_if(variable.clone(), mk_int(1), mk_int(2))), None);
    assert_eq!(value_of(&mk_if(bool(false), mk_int(1), variable.clone())), None);
    assert_eq!(value_of(&mk_if(bool(true), mk_int(1), variable)), Some(&mk_int(1)));
}

#[test]
fn what_has_a_value_is_interpreted_to_it() {
    let exprs = [
        mk_int(0),
        bool(true),
        mk_if(bool(false), mk_int(1), mk_int(2)),
        mk_if(mk_if(bool(true), bool(false), bool(true)), mk_int(1), mk_int(2)),
    ];
    for expr in exprs {
        let value = value_of(&expr).cloned();
        assert_eq!(value, Some(interpret_expr(expr)));
    }
}

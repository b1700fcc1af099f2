use compiler::compile::expr_to_wasm::{
    expr_to_function, expr_to_function_with, expr_to_instructions, expr_to_wasm,
    expr_to_wasm_with, instructions_to_function, instructions_to_wasm, is_binding_free,
    prim_to_const,
};
use compiler::compile::instruction::{IfStrategy, Instr};
use compiler::interpret::interpreter::interpret_expr;
use compiler::parser::parse_constructors::{bool, mk_if, mk_int, var};
use compiler::parser::parse_expr::parse_my_expr;
use compiler::types::expr::{Expr, Prim};
use compiler::wasm_ast::pretty::Pretty;
use compiler::wasm_ast::types::{BinaryOp, Number, Type, Value, WasmModule};

// Every module handed to these takes no arguments and returns an `i32`;
// its `main` function is run.
fn run_wasm(wasm_bytes: Vec<u8>) -> wasmtime::Result<i32> {
    let engine = wasmtime::Engine::default();
    let module = wasmtime::Module::new(&engine, wasm_bytes)?;
    let linker = wasmtime::Linker::new(&engine);
    let mut store = wasmtime::Store::new(&engine, 4);
    let instance = linker.instantiate(&mut store, &module)?;
    let main_fn = instance.get_typed_func::<(), i32>(&mut store, "main")?;
    main_fn.call(&mut store, ())
}

fn run_wasm_from_string(wat_string: String) -> wasmtime::Result<i32> {
    run_wasm(wat_string.into_bytes())
}

fn lower<Ann>(expr: Expr<Ann>, how: IfStrategy) -> Vec<Instr> {
    let mut code = Vec::new();
    expr_to_instructions(&mut code, expr, how);
    code
}

fn value_of(expr: Expr<()>) -> i32 {
    match interpret_expr(expr) {
        Expr::EPrim { prim: Prim::PInt { int }, .. } => int,
        Expr::EPrim { prim: Prim::PBool { bool: true }, .. } => 1,
        Expr::EPrim { prim: Prim::PBool { bool: false }, .. } => 0,
        _ => unreachable!(),
    }
}

const EMPTY_MODULE_PREFIX: [u8; 29] = [
    0x00, 0x61, 0x73, 0x6D, 0x01, 0x00, 0x00, 0x00, // header
    0x01, 0x05, 0x01, 0x60, 0x00, 0x01, 0x7F, // types: [] -> [i32]
    0x03, 0x02, 0x01, 0x00, // functions: type 0
    0x07, 0x08, 0x01, 0x04, 0x6D, 0x61, 0x69, 0x6E, 0x00, 0x00, // exports: "main" = func 0
];

#[test]
fn expr_to_wasm_test_run_wasm_eq_from_ast() {
    let (_, input) = parse_my_expr("if True then 42 else 41").unwrap();
    let wasm = expr_to_wasm(input);

    let result = run_wasm(wasm).unwrap();
    assert_eq!(result, 42)
}

#[test]
fn test_run_sample_wasm_int() {
    let expr = Expr::EPrim {
        ann: (),
        prim: Prim::PInt { int: 21 },
    };
    match run_wasm(expr_to_wasm(expr)) {
        Ok(a) => assert_eq!(a, 21),
        Err(err) => {
            println!("{}", err);
            assert_eq!(true, false)
        }
    }
}

#[test]
fn test_run_sample_wasm_if() {
    let expr = Expr::EIf {
        ann: (),
        pred_expr: Box::new(Expr::EPrim {
            ann: (),
            prim: Prim::PBool { bool: false },
        }),
        then_expr: Box::new(Expr::EPrim {
            ann: (),
            prim: Prim::PInt { int: 21 },
        }),
        else_expr: Box::new(Expr::EPrim {
            ann: (),
            prim: Prim::PInt { int: 42 },
        }),
    };

    match run_wasm(expr_to_wasm(expr)) {
        Ok(a) => assert_eq!(a, 42),
        Err(err) => {
            println!("{}", err);
            assert_eq!(true, false)
        }
    }
}

#[test]
fn run_wasm_test_run_wasm_eq_from_ast() {
    // 100 == 1
    let input = WasmModule {
        main: Value::BinaryOp {
            op: BinaryOp::Equal(Type::Int32),
            left: Box::new(Value::Const(Number::I32(100))),
            right: Box::new(Value::Const(Number::I32(1))),
        },
    };
    let mut wat_string = "".to_string();
    input.pretty(&mut wat_string);

    let result = run_wasm_from_string(wat_string).unwrap();
    assert_eq!(result, 0)
}

#[test]
fn test_run_wasm_if_from_ast() {
    // if 1 then 42 else 41
    let input = WasmModule {
        main: Value::Select {
            pred_expr: Box::new(Value::Const(Number::I32(1))),
            then_expr: Box::new(Value::Const(Number::I32(42))),
            else_expr: Box::new(Value::Const(Number::I32(41))),
        },
    };
    let mut wat_string = "".to_string();
    input.pretty(&mut wat_string);

    let result = run_wasm_from_string(wat_string).unwrap();
    assert_eq!(result, 42)
}

#[test]
fn test_run_wasm_from_string() {
    // 100 == 1
    let input = WasmModule {
        main: Value::BinaryOp {
            op: BinaryOp::Equal(Type::Int32),
            left: Box::new(Value::Const(Number::I32(100))),
            right: Box::new(Value::Const(Number::I32(1))),
        },
    };
    let mut wat_string = "".to_string();
    input.pretty(&mut wat_string);

    let result = run_wasm_from_string(wat_string).unwrap();
    assert_eq!(result, 0)
}

#[test]
fn rendered_comparison_of_equals_runs_to_one() {
    let input = WasmModule {
        main: Value::BinaryOp {
            op: BinaryOp::Equal(Type::Int32),
            left: Box::new(Value::Const(Number::I32(-100))),
            right: Box::new(Value::Const(Number::I32(-100))),
        },
    };
    let mut wat_string = String::new();
    input.pretty(&mut wat_string);
    assert_eq!(run_wasm_from_string(wat_string).unwrap(), 1);
}

#[test]
fn rendered_selection_takes_the_else_operand_on_zero() {
    let input = WasmModule {
        main: Value::Select {
            pred_expr: Box::new(Value::Const(Number::I32(0))),
            then_expr: Box::new(Value::Const(Number::I32(42))),
            else_expr: Box::new(Value::Const(Number::I32(41))),
        },
    };
    let mut wat_string = String::new();
    input.pretty(&mut wat_string);
    assert_eq!(run_wasm_from_string(wat_string).unwrap(), 41);
}

#[test]
fn rendered_negative_constants_run() {
    let input = WasmModule { main: Value::Const(Number::I32(i32::MIN)) };
    let mut wat_string = String::new();
    input.pretty(&mut wat_string);
    assert_eq!(run_wasm_from_string(wat_string).unwrap(), i32::MIN);
}

#[test]
fn literals_lower_to_one_constant() {
    assert_eq!(prim_to_const(Prim::PInt { int: -7 }), Instr::I32Const(-7));
    assert_eq!(prim_to_const(Prim::PBool { bool: true }), Instr::I32Const(1));
    assert_eq!(prim_to_const(Prim::PBool { bool: false }), Instr::I32Const(0));
    assert_eq!(lower(mk_int(21), IfStrategy::ValueSelect), vec![Instr::I32Const(21)]);
    assert_eq!(lower(bool(true), IfStrategy::StructuredBranch), vec![Instr::I32Const(1)]);
}

#[test]
fn value_select_pushes_operands_before_the_predicate() {
    let expr = mk_if(bool(true), mk_int(42), mk_int(41));
    assert_eq!(
        lower(expr, IfStrategy::ValueSelect),
        vec![Instr::I32Const(42), Instr::I32Const(41), Instr::I32Const(1), Instr::Select]
    );
}

#[test]
fn structured_branch_emits_the_true_arm_first() {
    let expr = mk_if(bool(false), mk_int(21), mk_int(42));
    assert_eq!(
        lower(expr, IfStrategy::StructuredBranch),
        vec![
            Instr::I32Const(0),
            Instr::If,
            Instr::I32Const(21),
            Instr::Else,
            Instr::I32Const(42),
            Instr::End,
        ]
    );
}

#[test]
fn nested_conditionals_lower_recursively() {
    let inner = mk_if(bool(false), mk_int(1), mk_int(2));
    let expr = mk_if(bool(true), inner, mk_int(3));
    assert_eq!(
        lower(expr.clone(), IfStrategy::ValueSelect),
        vec![
            Instr::I32Const(1),
            Instr::I32Const(2),
            Instr::I32Const(0),
            Instr::Select,
            Instr::I32Const(3),
            Instr::I32Const(1),
            Instr::Select,
        ]
    );
    assert_eq!(
        lower(expr, IfStrategy::StructuredBranch),
        vec![
            Instr::I32Const(1),
            Instr::If,
            Instr::I32Const(0),
            Instr::If,
            Instr::I32Const(1),
            Instr::Else,
            Instr::I32Const(2),
            Instr::End,
            Instr::Else,
            Instr::I32Const(3),
            Instr::End,
        ]
    );
}

#[test]
fn lowering_appends_to_the_code_given() {
    let mut code = vec![Instr::I32Const(9)];
    expr_to_instructions(&mut code, mk_int(8), IfStrategy::ValueSelect);
    assert_eq!(code, vec![Instr::I32Const(9), Instr::I32Const(8)]);
}

#[test]
fn bindings_and_variables_are_not_supported() {
    let binding = Expr::ELet {
        ann: (),
        identifier: "x".to_string(),
        bound_expr: Box::new(mk_int(1)),
        rest_expr: Box::new(mk_int(2)),
    };
    assert!(!is_binding_free(&binding));
    assert!(!is_binding_free(&var("x")));
    assert!(!is_binding_free(&mk_if(bool(true), mk_int(1), var("x"))));
    assert!(!is_binding_free(&mk_if(bool(true), binding, mk_int(1))));
    assert!(!is_binding_free(&mk_if(var("p"), mk_int(2), mk_int(1))));
    assert!(is_binding_free(&mk_int(1)));
    assert!(is_binding_free(&mk_if(bool(true), mk_int(1), mk_if(mk_int(0), bool(true), mk_int(2)))));
}

#[test]
fn function_body_is_locals_code_and_end() {
    let body = expr_to_function(mk_int(21)).into_raw_body();
    assert_eq!(body, vec![0x00, 0x41, 21, 0x0B]);

    let expr = mk_if(bool(true), mk_int(42), mk_int(41));
    let body = expr_to_function_with(expr.clone(), IfStrategy::ValueSelect).into_raw_body();
    assert_eq!(body, vec![0x00, 0x41, 42, 0x41, 41, 0x41, 1, 0x1B, 0x0B]);

    let body = expr_to_function_with(expr, IfStrategy::StructuredBranch).into_raw_body();
    assert_eq!(body, vec![0x00, 0x41, 1, 0x04, 0x7F, 0x41, 42, 0x05, 0x41, 41, 0x0B, 0x0B]);
}

#[test]
fn instructions_are_encoded_in_order_and_closed_by_end() {
    let code = vec![Instr::I32Const(7), Instr::I32Const(8), Instr::I32Const(0), Instr::Select];
    assert_eq!(
        instructions_to_function(&code).into_raw_body(),
        vec![0x00, 0x41, 7, 0x41, 8, 0x41, 0, 0x1B, 0x0B]
    );
    assert_eq!(run_wasm(instructions_to_wasm(&code)).unwrap(), 8);
    assert_eq!(instructions_to_function(&vec![]).into_raw_body(), vec![0x00, 0x0B]);
}

#[test]
fn constants_are_encoded_as_signed_leb128() {
    let body = expr_to_function(mk_int(-1)).into_raw_body();
    assert_eq!(body, vec![0x00, 0x41, 0x7F, 0x0B]);
    let body = expr_to_function(mk_int(64)).into_raw_body();
    assert_eq!(body, vec![0x00, 0x41, 0xC0, 0x00, 0x0B]);
    let body = expr_to_function(mk_int(i32::MIN)).into_raw_body();
    assert_eq!(body, vec![0x00, 0x41, 0x80, 0x80, 0x80, 0x80, 0x78, 0x0B]);
}

#[test]
fn module_holds_type_function_export_and_code_sections() {
    let mut expected = EMPTY_MODULE_PREFIX.to_vec();
    // code: one body of 4 bytes: no locals, i32.const 21, end
    expected.extend_from_slice(&[0x0A, 0x06, 0x01, 0x04, 0x00, 0x41, 21, 0x0B]);
    assert_eq!(expr_to_wasm(mk_int(21)), expected);
}

#[test]
fn module_for_a_conditional_has_the_lowered_body() {
    let expr = mk_if(bool(true), mk_int(42), mk_int(41));

    let mut expected = EMPTY_MODULE_PREFIX.to_vec();
    expected.extend_from_slice(&[0x0A, 0x0B, 0x01, 0x09]);
    expected.extend_from_slice(&[0x00, 0x41, 42, 0x41, 41, 0x41, 1, 0x1B, 0x0B]);
    assert_eq!(expr_to_wasm(expr.clone()), expected);
    assert_eq!(expr_to_wasm_with(expr.clone(), IfStrategy::ValueSelect), expected);

    let mut expected = EMPTY_MODULE_PREFIX.to_vec();
    expected.extend_from_slice(&[0x0A, 0x0E, 0x01, 0x0C]);
    expected.extend_from_slice(&[0x00, 0x41, 1, 0x04, 0x7F, 0x41, 42, 0x05, 0x41, 41, 0x0B, 0x0B]);
    assert_eq!(expr_to_wasm_with(expr, IfStrategy::StructuredBranch), expected);
}

#[test]
fn compiled_literal_returns_its_machine_value() {
    for how in [IfStrategy::ValueSelect, IfStrategy::StructuredBranch] {
        assert_eq!(run_wasm(expr_to_wasm_with(mk_int(21), how)).unwrap(), 21);
        assert_eq!(run_wasm(expr_to_wasm_with(mk_int(-300), how)).unwrap(), -300);
        assert_eq!(run_wasm(expr_to_wasm_with(mk_int(i32::MAX), how)).unwrap(), i32::MAX);
        assert_eq!(run_wasm(expr_to_wasm_with(mk_int(i32::MIN), how)).unwrap(), i32::MIN);
        assert_eq!(run_wasm(expr_to_wasm_with(bool(true), how)).unwrap(), 1);
        assert_eq!(run_wasm(expr_to_wasm_with(bool(false), how)).unwrap(), 0);
    }
}

#[test]
fn both_lowerings_agree_with_the_interpreter_on_the_truth_table() {
    for how in [IfStrategy::ValueSelect, IfStrategy::StructuredBranch] {
        for pred in [true, false] {
            for (then, els) in [(42, 41), (21, 42), (0, -1), (i32::MIN, i32::MAX)] {
                let expr = mk_if(bool(pred), mk_int(then), mk_int(els));
                let expected = if pred { then } else { els };
                assert_eq!(value_of(expr.clone()), expected);
                assert_eq!(run_wasm(expr_to_wasm_with(expr, how)).unwrap(), expected);
            }
            for (then, els) in [(true, false), (false, true)] {
                let expr = mk_if(bool(pred), bool(then), bool(els));
                let expected = value_of(expr.clone());
                assert_eq!(run_wasm(expr_to_wasm_with(expr, how)).unwrap(), expected);
            }
        }
    }
}

#[test]
fn both_lowerings_agree_with_the_interpreter_on_nested_conditionals() {
    let sources = [
        "if if True then False else True then 1 else 2",
        "if True then if False then 1 else 2 else 3",
        "if False then 1 else if True then 2 else 3",
        "if if False then True else False then if True then 1 else 2 else if False then 3 else 4",
        "if True then if True then if True then 7 else 8 else 9 else 10",
    ];
    for source in sources {
        let (rest, expr) = parse_my_expr(source).unwrap();
        assert_eq!(rest, "");
        let expected = value_of(expr.clone());
        for how in [IfStrategy::ValueSelect, IfStrategy::StructuredBranch] {
            assert_eq!(run_wasm(expr_to_wasm_with(expr.clone(), how)).unwrap(), expected);
        }
    }
}

#[test]
fn compiled_module_ignores_annotations() {
    let expr = Expr::EIf {
        ann: "if",
        pred_expr: Box::new(Expr::EPrim { ann: "pred", prim: Prim::PBool { bool: true } }),
        then_expr: Box::new(Expr::EPrim { ann: "then", prim: Prim::PInt { int: 5 } }),
        else_expr: Box::new(Expr::EPrim { ann: "else", prim: Prim::PInt { int: 6 } }),
    };
    let plain = mk_if(bool(true), mk_int(5), mk_int(6));
    assert_eq!(expr_to_wasm(expr), expr_to_wasm(plain));
}

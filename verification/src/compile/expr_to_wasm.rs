//! Lowering of expressions to instructions, and of instructions to a
//! binary module.
//!
//! The code generator checks no types: it is meant for trees that have
//! passed elaboration. It allocates no locals, so it supports literals and
//! conditionals only; bindings and variables must be gone before a tree is
//! lowered.

use super::encoder::{
    add_export, add_function_body, add_function_type, append_code_section, append_export_section,
    append_function_section, append_type_section, declare_function, emit, finish_module,
    new_code_section, new_export_section, new_function, new_function_section, new_module,
    new_type_section,
};
use super::encoder::{
    export_image, function_bytes, function_type_image, instruction_image, module_header,
    section_image, unsigned_leb128, ExportKind,
};
use super::instruction::{IfStrategy, Instr};
use crate::types::expr::{Expr, ExprView, Prim};
use crate::wasm_ast::types::Type;
use vstd::pervasive::unreached;
use vstd::prelude::*;
use vstd::string::is_ascii_spec_bytes;

verus! {

/// The machine value of a literal: an integer is itself, `true` is 1 and
/// `false` is 0.
pub open spec fn prim_value(prim: Prim) -> i32 {
    match prim {
        Prim::PInt { int: n } => n,
        Prim::PBool { bool: true } => 1,
        Prim::PBool { bool: false } => 0,
    }
}

/// Whether `e` holds literals and conditionals only: no binding and no
/// variable. The code generator supports no other expression.
pub open spec fn binding_free<Ann>(e: ExprView<Ann>) -> bool
    decreases e,
{
    match e {
        ExprView::Prim { .. } => true,
        ExprView::If { pred_expr, then_expr, else_expr, .. } => {
            &&& binding_free(*pred_expr)
            &&& binding_free(*then_expr)
            &&& binding_free(*else_expr)
        },
        ExprView::Let { .. } => false,
        ExprView::Var { .. } => false,
    }
}

/// The instructions that compute `e`.
///
/// - A literal is one constant.
/// - A conditional lowered by value selection is its then branch, its else
///   branch and its predicate, in that order, and one `Select`.
/// - A conditional lowered as a structured branch is its predicate, `If`,
///   its then branch, `Else`, its else branch and `End`.
/// - Bindings and variables are not supported: they have no instructions.
pub open spec fn lowered<Ann>(e: ExprView<Ann>, how: IfStrategy) -> Seq<Instr>
    decreases e,
{
    match e {
        ExprView::Prim { prim, .. } => seq![Instr::I32Const(prim_value(prim))],
        ExprView::If { pred_expr, then_expr, else_expr, .. } => match how {
            IfStrategy::ValueSelect => lowered(*then_expr, how) + lowered(*else_expr, how)
                + lowered(*pred_expr, how) + seq![Instr::Select],
            IfStrategy::StructuredBranch => lowered(*pred_expr, how) + seq![Instr::If] + lowered(
                *then_expr,
                how,
            ) + seq![Instr::Else] + lowered(*else_expr, how) + seq![Instr::End],
        },
        ExprView::Let { .. } => Seq::empty(),
        ExprView::Var { .. } => Seq::empty(),
    }
}

/// The body of the function that computes `e`: its instructions and the
/// end marker.
pub open spec fn function_body<Ann>(e: ExprView<Ann>, how: IfStrategy) -> Seq<Instr> {
    lowered(e, how).push(Instr::End)
}

/// The constant instruction for a literal.
pub fn prim_to_const(prim: Prim) -> (instr: Instr)
    ensures
        instr == Instr::I32Const(prim_value(prim)),
{
    match prim {
        Prim::PInt { int: n } => Instr::I32Const(n),
        Prim::PBool { bool: true } => Instr::I32Const(1),
        Prim::PBool { bool: false } => Instr::I32Const(0),
    }
}

/// Whether the code generator supports `expr`: whether it is free of
/// bindings and variables.
pub fn is_binding_free<Ann>(expr: &Expr<Ann>) -> (r: bool)
    ensures
        r == binding_free(expr@),
    decreases expr,
{
    match expr {
        Expr::EPrim { .. } => true,
        Expr::EIf { pred_expr, then_expr, else_expr, .. } => {
            is_binding_free(pred_expr) && is_binding_free(then_expr) && is_binding_free(else_expr)
        },
        Expr::ELet { .. } => false,
        Expr::EVar { .. } => false,
    }
}

/// Appends to `code` the instructions that compute `expr`, which must be
/// free of bindings and variables.
pub fn expr_to_instructions<Ann>(code: &mut Vec<Instr>, expr: Expr<Ann>, how: IfStrategy)
    requires
        binding_free(expr@),
    ensures
        final(code)@ == old(code)@ + lowered(expr@, how),
    decreases expr,
{
    match expr {
        Expr::EPrim { prim, .. } => {
            code.push(prim_to_const(prim));
        },
        Expr::EIf { pred_expr, then_expr, else_expr, .. } => match how {
            IfStrategy::ValueSelect => {
                expr_to_instructions(code, *then_expr, how);
                expr_to_instructions(code, *else_expr, how);
                expr_to_instructions(code, *pred_expr, how);
                code.push(Instr::Select);
            },
            IfStrategy::StructuredBranch => {
                expr_to_instructions(code, *pred_expr, how);
                code.push(Instr::If);
                expr_to_instructions(code, *then_expr, how);
                code.push(Instr::Else);
                expr_to_instructions(code, *else_expr, how);
                code.push(Instr::End);
            },
        },
        Expr::ELet { .. } => unreached(),
        Expr::EVar { .. } => unreached(),
    }
}

/// The most instructions that a function body may hold beside its end
/// marker: with so many, every length in the module fits the 32 bits that
/// the binary format gives it.
pub const MAX_INSTRUCTIONS: usize = 0x2000_0000;

/// The bytes of a sequence of instructions.
pub open spec fn code_image(code: Seq<Instr>) -> Seq<u8>
    decreases code.len(),
{
    if code.len() == 0 {
        Seq::empty()
    } else {
        code_image(code.drop_last()) + instruction_image(code.last())
    }
}

/// The bytes of a function body without locals whose instructions are
/// `code`.
pub open spec fn function_image(code: Seq<Instr>) -> Seq<u8> {
    unsigned_leb128(0) + code_image(code)
}

/// The name under which the compiled function is exported.
pub open spec fn entry_point() -> Seq<char> {
    "main"@
}

/// The bytes of the module that holds one function, of type `[] -> [i32]`,
/// exported as `main`, whose body is `code`: the header and the type,
/// function, export and code sections, each with one entry.
pub open spec fn module_image(code: Seq<Instr>) -> Seq<u8> {
    module_header() + section_image(
        1,
        1,
        function_type_image(Seq::empty(), seq![Type::Int32]),
    ) + section_image(3, 1, unsigned_leb128(0)) + section_image(
        7,
        1,
        export_image(entry_point(), ExportKind::Func, 0),
    ) + section_image(
        10,
        1,
        unsigned_leb128(function_image(code).len() as u32) + function_image(code),
    )
}

/// The function body, without locals, that holds `code` and the end
/// marker.
pub fn instructions_to_function(code: &Vec<Instr>) -> (function: wasm_encoder::Function)
    requires
        code@.len() <= MAX_INSTRUCTIONS,
    ensures
        function_bytes(function) == function_image(code@.push(Instr::End)),
        function_bytes(function).len() <= 11 + 6 * code@.len(),
{
    let mut function = new_function(Vec::new());
    let mut i: usize = 0;
    assert(code@.take(0) =~= Seq::empty());
    while i < code.len()
        invariant
            i <= code@.len(),
            function_bytes(function) == function_image(code@.take(i as int)),
            function_bytes(function).len() <= 5 + 6 * i,
        decreases code@.len() - i,
    {
        assert(code@.take(i + 1).drop_last() =~= code@.take(i as int));
        emit(&mut function, code[i]);
        i = i + 1;
    }
    assert(code@.take(i as int) =~= code@);
    assert(code@.push(Instr::End).drop_last() =~= code@);
    emit(&mut function, Instr::End);
    function
}

/// The binary module whose exported function `main` has the body `code`
/// and the end marker.
pub fn instructions_to_wasm(code: &Vec<Instr>) -> (wasm_bytes: Vec<u8>)
    requires
        code@.len() <= MAX_INSTRUCTIONS,
    ensures
        wasm_bytes@ == module_image(code@.push(Instr::End)),
{
    let mut module = new_module();

    let mut types = new_type_section();
    let params: Vec<Type> = Vec::new();
    let mut results: Vec<Type> = Vec::new();
    results.push(Type::Int32);
    assert(params@ =~= Seq::empty());
    assert(results@ =~= seq![Type::Int32]);
    add_function_type(&mut types, params, results);
    append_type_section(&mut module, &types);

    let mut functions = new_function_section();
    let type_index: u32 = 0;
    declare_function(&mut functions, type_index);
    append_function_section(&mut module, &functions);

    let mut exports = new_export_section();
    proof {
        reveal_strlit("main");
        is_ascii_spec_bytes("main");
    }
    add_export(&mut exports, "main", ExportKind::Func, 0);
    append_export_section(&mut module, &exports);

    let mut codes = new_code_section();
    let function = instructions_to_function(code);
    add_function_body(&mut codes, &function);
    append_code_section(&mut module, &codes);

    finish_module(module)
}

/// The function body, without locals, that computes `expr`, conditionals
/// lowered as `how` says: the instructions of `expr` and the end marker.
/// The expression must be free of bindings and variables.
pub fn expr_to_function_with<Ann>(expr: Expr<Ann>, how: IfStrategy) -> (function:
    wasm_encoder::Function)
    requires
        binding_free(expr@),
        lowered(expr@, how).len() <= MAX_INSTRUCTIONS,
    ensures
        function_bytes(function) == function_image(function_body(expr@, how)),
{
    let mut code: Vec<Instr> = Vec::new();
    expr_to_instructions(&mut code, expr, how);
    instructions_to_function(&code)
}

/// The function body that computes `expr`, conditionals lowered by value
/// selection. The expression must be free of bindings and variables.
pub fn expr_to_function<Ann>(expr: Expr<Ann>) -> (function: wasm_encoder::Function)
    requires
        binding_free(expr@),
        lowered(expr@, IfStrategy::ValueSelect).len() <= MAX_INSTRUCTIONS,
    ensures
        function_bytes(function) == function_image(
            function_body(expr@, IfStrategy::ValueSelect),
        ),
{
    expr_to_function_with(expr, IfStrategy::ValueSelect)
}

/// The binary module whose exported function `main` computes `expr`,
/// conditionals lowered as `how` says. The expression must be free of
/// bindings and variables.
pub fn expr_to_wasm_with<Ann>(expr: Expr<Ann>, how: IfStrategy) -> (wasm_bytes: Vec<u8>)
    requires
        binding_free(expr@),
        lowered(expr@, how).len() <= MAX_INSTRUCTIONS,
    ensures
        wasm_bytes@ == module_image(function_body(expr@, how)),
{
    let mut code: Vec<Instr> = Vec::new();
    expr_to_instructions(&mut code, expr, how);
    instructions_to_wasm(&code)
}

/// The binary module whose exported function `main` computes `expr`,
/// conditionals lowered by value selection. The expression must be free of
/// bindings and variables.
pub fn expr_to_wasm<Ann>(expr: Expr<Ann>) -> (wasm_bytes: Vec<u8>)
    requires
        binding_free(expr@),
        lowered(expr@, IfStrategy::ValueSelect).len() <= MAX_INSTRUCTIONS,
    ensures
        wasm_bytes@ == module_image(function_body(expr@, IfStrategy::ValueSelect)),
{
    expr_to_wasm_with(expr, IfStrategy::ValueSelect)
}

} // verus!

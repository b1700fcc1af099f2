//! The binary encoder, `wasm_encoder`, as the code generator sees it.
//!
//! Nothing in this file is proved: its contracts are taken on trust. Each
//! function wraps one operation of `wasm_encoder` and states what that
//! operation does to the bytes that the encoder's builders hold, as the
//! source of `wasm_encoder` shows it. How `wasm_encoder` writes an integer
//! is not spelled out: the two functions without a body stand for it.

use super::instruction::Instr;
use crate::wasm_ast::types::Type;
use vstd::prelude::*;
use vstd::utf8::encode_utf8;
use wasm_encoder::{BlockType, Instruction, ValType};

verus! {

/// `wasm_encoder::Module`: a module that is being written.
#[verifier::external_type_specification]
#[verifier::external_body]
pub struct ExModule(wasm_encoder::Module);

/// `wasm_encoder::TypeSection`: the function types of a module.
#[verifier::external_type_specification]
#[verifier::external_body]
pub struct ExTypeSection(wasm_encoder::TypeSection);

/// `wasm_encoder::FunctionSection`: for each function of a module, the
/// index of its type.
#[verifier::external_type_specification]
#[verifier::external_body]
pub struct ExFunctionSection(wasm_encoder::FunctionSection);

/// `wasm_encoder::ExportSection`: the exports of a module.
#[verifier::external_type_specification]
#[verifier::external_body]
pub struct ExExportSection(wasm_encoder::ExportSection);

/// `wasm_encoder::CodeSection`: the bodies of the functions of a module.
#[verifier::external_type_specification]
#[verifier::external_body]
pub struct ExCodeSection(wasm_encoder::CodeSection);

/// `wasm_encoder::Function`: the body of one function.
#[verifier::external_type_specification]
#[verifier::external_body]
pub struct ExFunction(wasm_encoder::Function);

/// The bytes that `wasm_encoder` writes for a `u32`, by its `Encode` for
/// `u32`: the unsigned LEB128 form of the number.
pub uninterp spec fn unsigned_leb128(value: u32) -> Seq<u8>;

/// The bytes that `wasm_encoder` writes for an `i32`, by its `Encode` for
/// `i32`: the signed LEB128 form of the number.
pub uninterp spec fn signed_leb128(value: i32) -> Seq<u8>;

/// The bytes written to a `wasm_encoder::Module` so far.
pub uninterp spec fn module_bytes(module: wasm_encoder::Module) -> Seq<u8>;

/// The bytes of the entries of a `wasm_encoder::TypeSection`.
pub uninterp spec fn type_section_bytes(section: wasm_encoder::TypeSection) -> Seq<u8>;

/// The number of entries of a `wasm_encoder::TypeSection`.
pub uninterp spec fn type_section_count(section: wasm_encoder::TypeSection) -> u32;

/// The bytes of the entries of a `wasm_encoder::FunctionSection`.
pub uninterp spec fn function_section_bytes(section: wasm_encoder::FunctionSection) -> Seq<u8>;

/// The number of entries of a `wasm_encoder::FunctionSection`.
pub uninterp spec fn function_section_count(section: wasm_encoder::FunctionSection) -> u32;

/// The bytes of the entries of a `wasm_encoder::ExportSection`.
pub uninterp spec fn export_section_bytes(section: wasm_encoder::ExportSection) -> Seq<u8>;

/// The number of entries of a `wasm_encoder::ExportSection`.
pub uninterp spec fn export_section_count(section: wasm_encoder::ExportSection) -> u32;

/// The bytes of the entries of a `wasm_encoder::CodeSection`.
pub uninterp spec fn code_section_bytes(section: wasm_encoder::CodeSection) -> Seq<u8>;

/// The number of entries of a `wasm_encoder::CodeSection`.
pub uninterp spec fn code_section_count(section: wasm_encoder::CodeSection) -> u32;

/// The bytes of a `wasm_encoder::Function`: its locals and the
/// instructions written so far, without the length that precedes them in a
/// code section.
pub uninterp spec fn function_bytes(function: wasm_encoder::Function) -> Seq<u8>;

/// What a module can export.
#[derive(Debug, PartialEq, Eq)]
pub enum ExportKind {
    Func,
    Table,
    Memory,
    Global,
    Tag,
}

/// The header of every module: the magic number and the version.
pub open spec fn module_header() -> Seq<u8> {
    seq![0x00u8, 0x61u8, 0x73u8, 0x6Du8, 0x01u8, 0x00u8, 0x00u8, 0x00u8]
}

/// The byte that stands for a value type.
pub open spec fn value_type_byte(ty: Type) -> u8 {
    match ty {
        Type::Int32 => 0x7F,
        Type::Int64 => 0x7E,
    }
}

/// The bytes of a list of value types, one byte each.
pub open spec fn value_types_image(types: Seq<Type>) -> Seq<u8> {
    Seq::new(types.len(), |i: int| value_type_byte(types[i]))
}

/// The byte that stands for a kind of export.
pub open spec fn export_kind_byte(kind: ExportKind) -> u8 {
    match kind {
        ExportKind::Func => 0x00,
        ExportKind::Table => 0x01,
        ExportKind::Memory => 0x02,
        ExportKind::Global => 0x03,
        ExportKind::Tag => 0x04,
    }
}

/// The bytes of a function type: the marker `0x60`, then the parameters and
/// the results, each list preceded by its length.
pub open spec fn function_type_image(params: Seq<Type>, results: Seq<Type>) -> Seq<u8> {
    seq![0x60u8] + unsigned_leb128(params.len() as u32) + value_types_image(params)
        + unsigned_leb128(results.len() as u32) + value_types_image(results)
}

/// The bytes of an export: the name in UTF-8 preceded by its length in
/// bytes, the kind, and the index of what is exported.
pub open spec fn export_image(name: Seq<char>, kind: ExportKind, index: u32) -> Seq<u8> {
    unsigned_leb128(encode_utf8(name).len() as u32) + encode_utf8(name) + seq![
        export_kind_byte(kind),
    ] + unsigned_leb128(index)
}

/// The bytes of the declarations of locals: for each run, its length and
/// the type of its locals.
pub open spec fn locals_image(locals: Seq<(u32, Type)>) -> Seq<u8>
    decreases locals.len(),
{
    if locals.len() == 0 {
        Seq::empty()
    } else {
        locals_image(locals.drop_last()) + unsigned_leb128(locals.last().0) + seq![
            value_type_byte(locals.last().1),
        ]
    }
}

/// The bytes of one instruction: its opcode and its immediate. A
/// conditional block is encoded with the block type of one `i32` result.
pub open spec fn instruction_image(instr: Instr) -> Seq<u8> {
    match instr {
        Instr::I32Const(value) => seq![0x41u8] + signed_leb128(value),
        Instr::Select => seq![0x1Bu8],
        Instr::If => seq![0x04u8, 0x7Fu8],
        Instr::Else => seq![0x05u8],
        Instr::End => seq![0x0Bu8],
    }
}

/// The bytes of a section in a module: its identifier, the length in bytes
/// of what follows, the number of entries, and the entries.
pub open spec fn section_image(id: u8, count: u32, entries: Seq<u8>) -> Seq<u8> {
    seq![id] + unsigned_leb128((unsigned_leb128(count).len() + entries.len()) as u32)
        + unsigned_leb128(count) + entries
}

/// `wasm_encoder::Module::new`: a module that holds the header only.
#[verifier::external_body]
pub(crate) fn new_module() -> (module: wasm_encoder::Module)
    ensures
        module_bytes(module) == module_header(),
{
    wasm_encoder::Module::new()
}

/// `wasm_encoder::Module::finish`: the bytes written to the module.
#[verifier::external_body]
pub(crate) fn finish_module(module: wasm_encoder::Module) -> (bytes: Vec<u8>)
    ensures
        bytes@ == module_bytes(module),
{
    module.finish()
}

/// `wasm_encoder::TypeSection::new`: a type section without entries.
#[verifier::external_body]
pub(crate) fn new_type_section() -> (section: wasm_encoder::TypeSection)
    ensures
        type_section_bytes(section) == Seq::<u8>::empty(),
        type_section_count(section) == 0,
{
    wasm_encoder::TypeSection::new()
}

/// `wasm_encoder::TypeSection::ty` and `CoreTypeEncoder::function`: the
/// section has one more entry, the function type with these parameters and
/// results, of at most 11 bytes beside its value types.
#[verifier::external_body]
pub(crate) fn add_function_type(
    section: &mut wasm_encoder::TypeSection,
    params: Vec<Type>,
    results: Vec<Type>,
)
    requires
        type_section_count(*old(section)) < u32::MAX,
        params@.len() <= u32::MAX,
        results@.len() <= u32::MAX,
    ensures
        type_section_bytes(*final(section)) == type_section_bytes(*old(section))
            + function_type_image(params@, results@),
        type_section_bytes(*final(section)).len() <= type_section_bytes(*old(section)).len() + 11
            + params@.len() + results@.len(),
        type_section_count(*final(section)) == type_section_count(*old(section)) + 1,
{
    let convert = |ty: Type| match ty {
        Type::Int32 => ValType::I32,
        Type::Int64 => ValType::I64,
    };
    section.ty().function(params.into_iter().map(convert), results.into_iter().map(convert));
}

/// `wasm_encoder::FunctionSection::new`: a function section without
/// entries.
#[verifier::external_body]
pub(crate) fn new_function_section() -> (section: wasm_encoder::FunctionSection)
    ensures
        function_section_bytes(section) == Seq::<u8>::empty(),
        function_section_count(section) == 0,
{
    wasm_encoder::FunctionSection::new()
}

/// `wasm_encoder::FunctionSection::function`: the section has one more
/// entry, the index of the function's type, of at most 5 bytes.
#[verifier::external_body]
pub(crate) fn declare_function(section: &mut wasm_encoder::FunctionSection, type_index: u32)
    requires
        function_section_count(*old(section)) < u32::MAX,
    ensures
        function_section_bytes(*final(section)) == function_section_bytes(*old(section))
            + unsigned_leb128(type_index),
        function_section_bytes(*final(section)).len() <= function_section_bytes(
            *old(section),
        ).len() + 5,
        function_section_count(*final(section)) == function_section_count(*old(section)) + 1,
{
    section.function(type_index);
}

/// `wasm_encoder::ExportSection::new`: an export section without entries.
#[verifier::external_body]
pub(crate) fn new_export_section() -> (section: wasm_encoder::ExportSection)
    ensures
        export_section_bytes(section) == Seq::<u8>::empty(),
        export_section_count(section) == 0,
{
    wasm_encoder::ExportSection::new()
}

/// `wasm_encoder::ExportSection::export`: the section has one more entry,
/// the export of this name, kind and index, of at most 11 bytes beside the
/// name.
#[verifier::external_body]
pub(crate) fn add_export(
    section: &mut wasm_encoder::ExportSection,
    name: &str,
    kind: ExportKind,
    index: u32,
)
    requires
        export_section_count(*old(section)) < u32::MAX,
        encode_utf8(name@).len() <= u32::MAX,
    ensures
        export_section_bytes(*final(section)) == export_section_bytes(*old(section))
            + export_image(name@, kind, index),
        export_section_bytes(*final(section)).len() <= export_section_bytes(*old(section)).len()
            + 11 + encode_utf8(name@).len(),
        export_section_count(*final(section)) == export_section_count(*old(section)) + 1,
{
    let kind = match kind {
        ExportKind::Func => wasm_encoder::ExportKind::Func,
        ExportKind::Table => wasm_encoder::ExportKind::Table,
        ExportKind::Memory => wasm_encoder::ExportKind::Memory,
        ExportKind::Global => wasm_encoder::ExportKind::Global,
        ExportKind::Tag => wasm_encoder::ExportKind::Tag,
    };
    section.export(name, kind, index);
}

/// `wasm_encoder::CodeSection::new`: a code section without entries.
#[verifier::external_body]
pub(crate) fn new_code_section() -> (section: wasm_encoder::CodeSection)
    ensures
        code_section_bytes(section) == Seq::<u8>::empty(),
        code_section_count(section) == 0,
{
    wasm_encoder::CodeSection::new()
}

/// `wasm_encoder::CodeSection::function`: the section has one more entry,
/// the bytes of the function preceded by their number, which takes at most
/// 5 bytes.
#[verifier::external_body]
pub(crate) fn add_function_body(
    section: &mut wasm_encoder::CodeSection,
    function: &wasm_encoder::Function,
)
    requires
        code_section_count(*old(section)) < u32::MAX,
        function_bytes(*function).len() <= u32::MAX,
    ensures
        code_section_bytes(*final(section)) == code_section_bytes(*old(section)) + unsigned_leb128(
            function_bytes(*function).len() as u32,
        ) + function_bytes(*function),
        code_section_bytes(*final(section)).len() <= code_section_bytes(*old(section)).len() + 5
            + function_bytes(*function).len(),
        code_section_count(*final(section)) == code_section_count(*old(section)) + 1,
{
    section.function(function);
}

/// `wasm_encoder::Function::new`: a function body that holds the
/// declarations of its locals, each of at most 6 bytes, preceded by their
/// number, of at most 5 bytes.
#[verifier::external_body]
pub(crate) fn new_function(locals: Vec<(u32, Type)>) -> (function: wasm_encoder::Function)
    requires
        locals@.len() <= u32::MAX,
    ensures
        function_bytes(function) == unsigned_leb128(locals@.len() as u32) + locals_image(locals@),
        function_bytes(function).len() <= 5 + 6 * locals@.len(),
{
    wasm_encoder::Function::new(
        locals.into_iter().map(
            |(count, ty)| match ty {
                Type::Int32 => (count, ValType::I32),
                Type::Int64 => (count, ValType::I64),
            },
        ),
    )
}

/// `wasm_encoder::Function::instruction`: the function has one more
/// instruction, of at most 6 bytes: its opcode and its immediate, as
/// [`instruction_image`] gives them.
#[verifier::external_body]
pub(crate) fn emit(function: &mut wasm_encoder::Function, instr: Instr)
    ensures
        function_bytes(*final(function)) == function_bytes(*old(function)) + (match instr {
            Instr::I32Const(value) => seq![0x41u8] + signed_leb128(value),
            Instr::Select => seq![0x1Bu8],
            Instr::If => seq![0x04u8, 0x7Fu8],
            Instr::Else => seq![0x05u8],
            Instr::End => seq![0x0Bu8],
        }),
        function_bytes(*final(function)).len() <= function_bytes(*old(function)).len() + 6,
{
    let instruction = match instr {
        Instr::I32Const(value) => Instruction::I32Const(value),
        Instr::Select => Instruction::Select,
        Instr::If => Instruction::If(BlockType::Result(ValType::I32)),
        Instr::Else => Instruction::Else,
        Instr::End => Instruction::End,
    };
    function.instruction(&instruction);
}

/// `wasm_encoder::Module::section`, called with a type section: the
/// module has the section behind what it had, under the identifier 1, as
/// [`section_image`] gives it.
#[verifier::external_body]
pub(crate) fn append_type_section(
    module: &mut wasm_encoder::Module,
    section: &wasm_encoder::TypeSection,
)
    requires
        type_section_bytes(*section).len() + 5 <= u32::MAX,
    ensures
        module_bytes(*final(module)) == module_bytes(*old(module)) + section_image(
            1,
            type_section_count(*section),
            type_section_bytes(*section),
        ),
{
    module.section(section);
}

/// `wasm_encoder::Module::section`, called with a function section: the
/// module has the section behind what it had, under the identifier 3, as
/// [`section_image`] gives it.
#[verifier::external_body]
pub(crate) fn append_function_section(
    module: &mut wasm_encoder::Module,
    section: &wasm_encoder::FunctionSection,
)
    requires
        function_section_bytes(*section).len() + 5 <= u32::MAX,
    ensures
        module_bytes(*final(module)) == module_bytes(*old(module)) + section_image(
            3,
            function_section_count(*section),
            function_section_bytes(*section),
        ),
{
    module.section(section);
}

/// `wasm_encoder::Module::section`, called with an export section: the
/// module has the section behind what it had, under the identifier 7, as
/// [`section_image`] gives it.
#[verifier::external_body]
pub(crate) fn append_export_section(
    module: &mut wasm_encoder::Module,
    section: &wasm_encoder::ExportSection,
)
    requires
        export_section_bytes(*section).len() + 5 <= u32::MAX,
    ensures
        module_bytes(*final(module)) == module_bytes(*old(module)) + section_image(
            7,
            export_section_count(*section),
            export_section_bytes(*section),
        ),
{
    module.section(section);
}

/// `wasm_encoder::Module::section`, called with a code section: the
/// module has the section behind what it had, under the identifier 10, as
/// [`section_image`] gives it.
#[verifier::external_body]
pub(crate) fn append_code_section(
    module: &mut wasm_encoder::Module,
    section: &wasm_encoder::CodeSection,
)
    requires
        code_section_bytes(*section).len() + 5 <= u32::MAX,
    ensures
        module_bytes(*final(module)) == module_bytes(*old(module)) + section_image(
            10,
            code_section_count(*section),
            code_section_bytes(*section),
        ),
{
    module.section(section);
}

} // verus!

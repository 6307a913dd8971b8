//! The fixed-shape records that attributes hold in their tables.

use crate::cursor::{spec_u2, ClassParser};
use crate::error::DecodeError;
use crate::outcome::{plain, viewed, viewed_list, views, Decoded};
use crate::repeat::{
    lemma_repeat_done, lemma_repeat_start, lemma_repeat_step, lemma_views_push, prepend,
    spec_counted, spec_repeat, spec_u2_list, spec_u2_run, u2_list_from_bytes,
};
use vstd::prelude::*;

verus! {

#[derive(Clone, Copy, Debug, PartialEq, Eq, Structural)]
pub struct ExceptionTableEntry {
    pub start_pc: u16,
    pub end_pc: u16,
    pub handler_pc: u16,
    pub catch_type: u16,
}

#[derive(Clone, Copy, Debug, PartialEq, Eq, Structural)]
pub struct InnerClass {
    pub inner_class_info_index: u16,
    pub outer_class_info_index: u16,
    pub inner_name_index: u16,
    pub inner_class_access_flags: u16,
}

#[derive(Clone, Copy, Debug, PartialEq, Eq, Structural)]
pub struct LineNumber {
    pub start_pc: u16,
    pub line_number: u16,
}

#[derive(Clone, Copy, Debug, PartialEq, Eq, Structural)]
pub struct LocalVariable {
    pub start_pc: u16,
    pub length: u16,
    pub name_index: u16,
    pub descriptor_index: u16,
    pub index: u16,
}

#[derive(Clone, Copy, Debug, PartialEq, Eq, Structural)]
pub struct LocalVariableType {
    pub start_pc: u16,
    pub length: u16,
    pub name_index: u16,
    pub descriptor_index: u16,
    pub index: u16,
}

#[derive(Clone, Copy, Debug, PartialEq, Eq, Structural)]
pub struct MethodParameter {
    pub name_index: u16,
    pub access_flags: u16,
}

#[derive(Clone, Copy, Debug, PartialEq, Eq, Structural)]
pub struct ModuleRequires {
    pub requires_index: u16,
    pub requires_flags: u16,
    pub requires_version_index: u16,
}

/// The decoder of one entry of a `Code` attribute's exception table, as a function of the position.
pub open spec fn exception_table_entry_at(
    bytes: Seq<u8>,
) -> spec_fn(int) -> Decoded<ExceptionTableEntry> {
    |pos: int| spec_exception_table_entry(bytes, pos)
}

/// One entry of a `Code` attribute's exception table at `pos`: four 16-bit values.
pub open spec fn spec_exception_table_entry(
    bytes: Seq<u8>,
    pos: int,
) -> Decoded<ExceptionTableEntry> {
    match spec_u2_run(bytes, pos, 4) {
        Err(e) => Err(e),
        Ok((fields, end)) => Ok(
            (
                ExceptionTableEntry {
                    start_pc: fields[0],
                    end_pc: fields[1],
                    handler_pc: fields[2],
                    catch_type: fields[3],
                },
                end,
            ),
        ),
    }
}

/// Reads one entry of a `Code` attribute's exception table.
pub fn exception_table_entry_from_bytes(
    parser: &mut ClassParser<'_>,
) -> (r: Result<ExceptionTableEntry, DecodeError>)
    ensures
        final(parser)@.bytes == old(parser)@.bytes,
        final(parser)@.position >= old(parser)@.position,
        plain(r, final(parser)@.position) == spec_exception_table_entry(
            old(parser)@.bytes,
            old(parser)@.position,
        ),
{
    proof {
        reveal_with_fuel(spec_repeat, 5);
    }
    let start_pc: u16 = parser.u2()?;
    let end_pc: u16 = parser.u2()?;
    let handler_pc: u16 = parser.u2()?;
    let catch_type: u16 = parser.u2()?;
    Ok(ExceptionTableEntry { start_pc, end_pc, handler_pc, catch_type })
}

/// The decoder of one entry of an `InnerClasses` attribute, as a function of the position.
pub open spec fn inner_class_at(bytes: Seq<u8>) -> spec_fn(int) -> Decoded<InnerClass> {
    |pos: int| spec_inner_class(bytes, pos)
}

/// One entry of an `InnerClasses` attribute at `pos`: four 16-bit values.
pub open spec fn spec_inner_class(bytes: Seq<u8>, pos: int) -> Decoded<InnerClass> {
    match spec_u2_run(bytes, pos, 4) {
        Err(e) => Err(e),
        Ok((fields, end)) => Ok(
            (
                InnerClass {
                    inner_class_info_index: fields[0],
                    outer_class_info_index: fields[1],
                    inner_name_index: fields[2],
                    inner_class_access_flags: fields[3],
                },
                end,
            ),
        ),
    }
}

/// Reads one entry of an `InnerClasses` attribute.
pub fn inner_class_from_bytes(parser: &mut ClassParser<'_>) -> (r: Result<InnerClass, DecodeError>)
    ensures
        final(parser)@.bytes == old(parser)@.bytes,
        final(parser)@.position >= old(parser)@.position,
        plain(r, final(parser)@.position) == spec_inner_class(
            old(parser)@.bytes,
            old(parser)@.position,
        ),
{
    proof {
        reveal_with_fuel(spec_repeat, 5);
    }
    let inner_class_info_index: u16 = parser.u2()?;
    let outer_class_info_index: u16 = parser.u2()?;
    let inner_name_index: u16 = parser.u2()?;
    let inner_class_access_flags: u16 = parser.u2()?;
    Ok(
        InnerClass {
            inner_class_info_index,
            outer_class_info_index,
            inner_name_index,
            inner_class_access_flags,
        },
    )
}

/// The decoder of one entry of a `LineNumberTable` attribute, as a function of the position.
pub open spec fn line_number_at(bytes: Seq<u8>) -> spec_fn(int) -> Decoded<LineNumber> {
    |pos: int| spec_line_number(bytes, pos)
}

/// One entry of a `LineNumberTable` attribute at `pos`: two 16-bit values.
pub open spec fn spec_line_number(bytes: Seq<u8>, pos: int) -> Decoded<LineNumber> {
    match spec_u2_run(bytes, pos, 2) {
        Err(e) => Err(e),
        Ok((fields, end)) => Ok(
            (
                LineNumber {
                    start_pc: fields[0],
                    line_number: fields[1],
                },
                end,
            ),
        ),
    }
}

/// Reads one entry of a `LineNumberTable` attribute.
pub fn line_number_from_bytes(parser: &mut ClassParser<'_>) -> (r: Result<LineNumber, DecodeError>)
    ensures
        final(parser)@.bytes == old(parser)@.bytes,
        final(parser)@.position >= old(parser)@.position,
        plain(r, final(parser)@.position) == spec_line_number(
            old(parser)@.bytes,
            old(parser)@.position,
        ),
{
    proof {
        reveal_with_fuel(spec_repeat, 3);
    }
    let start_pc: u16 = parser.u2()?;
    let line_number: u16 = parser.u2()?;
    Ok(LineNumber { start_pc, line_number })
}

/// The decoder of one entry of a `LocalVariableTable` attribute, as a function of the position.
pub open spec fn local_variable_at(bytes: Seq<u8>) -> spec_fn(int) -> Decoded<LocalVariable> {
    |pos: int| spec_local_variable(bytes, pos)
}

/// One entry of a `LocalVariableTable` attribute at `pos`: five 16-bit values.
pub open spec fn spec_local_variable(bytes: Seq<u8>, pos: int) -> Decoded<LocalVariable> {
    match spec_u2_run(bytes, pos, 5) {
        Err(e) => Err(e),
        Ok((fields, end)) => Ok(
            (
                LocalVariable {
                    start_pc: fields[0],
                    length: fields[1],
                    name_index: fields[2],
                    descriptor_index: fields[3],
                    index: fields[4],
                },
                end,
            ),
        ),
    }
}

/// Reads one entry of a `LocalVariableTable` attribute.
pub fn local_variable_from_bytes(
    parser: &mut ClassParser<'_>,
) -> (r: Result<LocalVariable, DecodeError>)
    ensures
        final(parser)@.bytes == old(parser)@.bytes,
        final(parser)@.position >= old(parser)@.position,
        plain(r, final(parser)@.position) == spec_local_variable(
            old(parser)@.bytes,
            old(parser)@.position,
        ),
{
    proof {
        reveal_with_fuel(spec_repeat, 6);
    }
    let start_pc: u16 = parser.u2()?;
    let length: u16 = parser.u2()?;
    let name_index: u16 = parser.u2()?;
    let descriptor_index: u16 = parser.u2()?;
    let index: u16 = parser.u2()?;
    Ok(LocalVariable { start_pc, length, name_index, descriptor_index, index })
}

/// The decoder of one entry of a `LocalVariableTypeTable` attribute, as a function of the position.
pub open spec fn local_variable_type_at(
    bytes: Seq<u8>,
) -> spec_fn(int) -> Decoded<LocalVariableType> {
    |pos: int| spec_local_variable_type(bytes, pos)
}

/// One entry of a `LocalVariableTypeTable` attribute at `pos`: five 16-bit values.
pub open spec fn spec_local_variable_type(bytes: Seq<u8>, pos: int) -> Decoded<LocalVariableType> {
    match spec_u2_run(bytes, pos, 5) {
        Err(e) => Err(e),
        Ok((fields, end)) => Ok(
            (
                LocalVariableType {
                    start_pc: fields[0],
                    length: fields[1],
                    name_index: fields[2],
                    descriptor_index: fields[3],
                    index: fields[4],
                },
                end,
            ),
        ),
    }
}

/// Reads one entry of a `LocalVariableTypeTable` attribute.
pub fn local_variable_type_from_bytes(
    parser: &mut ClassParser<'_>,
) -> (r: Result<LocalVariableType, DecodeError>)
    ensures
        final(parser)@.bytes == old(parser)@.bytes,
        final(parser)@.position >= old(parser)@.position,
        plain(r, final(parser)@.position) == spec_local_variable_type(
            old(parser)@.bytes,
            old(parser)@.position,
        ),
{
    proof {
        reveal_with_fuel(spec_repeat, 6);
    }
    let start_pc: u16 = parser.u2()?;
    let length: u16 = parser.u2()?;
    let name_index: u16 = parser.u2()?;
    let descriptor_index: u16 = parser.u2()?;
    let index: u16 = parser.u2()?;
    Ok(LocalVariableType { start_pc, length, name_index, descriptor_index, index })
}

/// The decoder of one entry of a `MethodParameters` attribute, as a function of the position.
pub open spec fn method_parameter_at(bytes: Seq<u8>) -> spec_fn(int) -> Decoded<MethodParameter> {
    |pos: int| spec_method_parameter(bytes, pos)
}

/// One entry of a `MethodParameters` attribute at `pos`: two 16-bit values.
pub open spec fn spec_method_parameter(bytes: Seq<u8>, pos: int) -> Decoded<MethodParameter> {
    match spec_u2_run(bytes, pos, 2) {
        Err(e) => Err(e),
        Ok((fields, end)) => Ok(
            (
                MethodParameter {
                    name_index: fields[0],
                    access_flags: fields[1],
                },
                end,
            ),
        ),
    }
}

/// Reads one entry of a `MethodParameters` attribute.
pub fn method_parameter_from_bytes(
    parser: &mut ClassParser<'_>,
) -> (r: Result<MethodParameter, DecodeError>)
    ensures
        final(parser)@.bytes == old(parser)@.bytes,
        final(parser)@.position >= old(parser)@.position,
        plain(r, final(parser)@.position) == spec_method_parameter(
            old(parser)@.bytes,
            old(parser)@.position,
        ),
{
    proof {
        reveal_with_fuel(spec_repeat, 3);
    }
    let name_index: u16 = parser.u2()?;
    let access_flags: u16 = parser.u2()?;
    Ok(MethodParameter { name_index, access_flags })
}

/// The decoder of one `requires` entry of a `Module` attribute, as a function of the position.
pub open spec fn module_require_at(bytes: Seq<u8>) -> spec_fn(int) -> Decoded<ModuleRequires> {
    |pos: int| spec_module_require(bytes, pos)
}

/// One `requires` entry of a `Module` attribute at `pos`: three 16-bit values.
pub open spec fn spec_module_require(bytes: Seq<u8>, pos: int) -> Decoded<ModuleRequires> {
    match spec_u2_run(bytes, pos, 3) {
        Err(e) => Err(e),
        Ok((fields, end)) => Ok(
            (
                ModuleRequires {
                    requires_index: fields[0],
                    requires_flags: fields[1],
                    requires_version_index: fields[2],
                },
                end,
            ),
        ),
    }
}

/// Reads one `requires` entry of a `Module` attribute.
pub fn module_require_from_bytes(
    parser: &mut ClassParser<'_>,
) -> (r: Result<ModuleRequires, DecodeError>)
    ensures
        final(parser)@.bytes == old(parser)@.bytes,
        final(parser)@.position >= old(parser)@.position,
        plain(r, final(parser)@.position) == spec_module_require(
            old(parser)@.bytes,
            old(parser)@.position,
        ),
{
    proof {
        reveal_with_fuel(spec_repeat, 4);
    }
    let requires_index: u16 = parser.u2()?;
    let requires_flags: u16 = parser.u2()?;
    let requires_version_index: u16 = parser.u2()?;
    Ok(ModuleRequires { requires_index, requires_flags, requires_version_index })
}

/// Reads an exception table: a 16-bit count and that many entries.
#[verifier::loop_isolation(false)]
pub fn exception_table_from_bytes(
    parser: &mut ClassParser<'_>,
) -> (r: Result<Vec<ExceptionTableEntry>, DecodeError>)
    ensures
        final(parser)@.bytes == old(parser)@.bytes,
        final(parser)@.position >= old(parser)@.position,
        viewed(r, final(parser)@.position) == spec_counted(
            old(parser)@.bytes,
            old(parser)@.position,
            exception_table_entry_at(old(parser)@.bytes),
        ),
{
    let count: u16 = parser.u2()?;
    let ghost item_at = exception_table_entry_at(parser@.bytes);
    let ghost first = parser@.position;
    let mut items: Vec<ExceptionTableEntry> = Vec::new();
    let mut i: u16 = 0;
    proof {
        lemma_repeat_start(item_at, first, count as nat);
    }
    while i < count
        invariant
            parser@.bytes == old(parser)@.bytes,
            parser@.position >= first,
            i <= count,
            spec_repeat(item_at, first, count as nat) == prepend(
                items@,
                spec_repeat(item_at, parser@.position, (count - i) as nat),
            ),
        decreases count - i,
    {
        proof {
            lemma_repeat_step(item_at, items@, parser@.position, (count - i) as nat);
        }
        let item = exception_table_entry_from_bytes(parser)?;
        items.push(item);
        i = i + 1;
    }
    proof {
        lemma_repeat_done(item_at, items@, parser@.position);
    }
    Ok(items)
}

/// Reads a 16-bit count and that many inner-class entries.
#[verifier::loop_isolation(false)]
pub fn inner_classes_from_bytes(
    parser: &mut ClassParser<'_>,
) -> (r: Result<Vec<InnerClass>, DecodeError>)
    ensures
        final(parser)@.bytes == old(parser)@.bytes,
        final(parser)@.position >= old(parser)@.position,
        viewed(r, final(parser)@.position) == spec_counted(
            old(parser)@.bytes,
            old(parser)@.position,
            inner_class_at(old(parser)@.bytes),
        ),
{
    let count: u16 = parser.u2()?;
    let ghost item_at = inner_class_at(parser@.bytes);
    let ghost first = parser@.position;
    let mut items: Vec<InnerClass> = Vec::new();
    let mut i: u16 = 0;
    proof {
        lemma_repeat_start(item_at, first, count as nat);
    }
    while i < count
        invariant
            parser@.bytes == old(parser)@.bytes,
            parser@.position >= first,
            i <= count,
            spec_repeat(item_at, first, count as nat) == prepend(
                items@,
                spec_repeat(item_at, parser@.position, (count - i) as nat),
            ),
        decreases count - i,
    {
        proof {
            lemma_repeat_step(item_at, items@, parser@.position, (count - i) as nat);
        }
        let item = inner_class_from_bytes(parser)?;
        items.push(item);
        i = i + 1;
    }
    proof {
        lemma_repeat_done(item_at, items@, parser@.position);
    }
    Ok(items)
}

/// Reads a 16-bit count and that many line-number entries.
#[verifier::loop_isolation(false)]
pub fn line_numbers_from_bytes(
    parser: &mut ClassParser<'_>,
) -> (r: Result<Vec<LineNumber>, DecodeError>)
    ensures
        final(parser)@.bytes == old(parser)@.bytes,
        final(parser)@.position >= old(parser)@.position,
        viewed(r, final(parser)@.position) == spec_counted(
            old(parser)@.bytes,
            old(parser)@.position,
            line_number_at(old(parser)@.bytes),
        ),
{
    let count: u16 = parser.u2()?;
    let ghost item_at = line_number_at(parser@.bytes);
    let ghost first = parser@.position;
    let mut items: Vec<LineNumber> = Vec::new();
    let mut i: u16 = 0;
    proof {
        lemma_repeat_start(item_at, first, count as nat);
    }
    while i < count
        invariant
            parser@.bytes == old(parser)@.bytes,
            parser@.position >= first,
            i <= count,
            spec_repeat(item_at, first, count as nat) == prepend(
                items@,
                spec_repeat(item_at, parser@.position, (count - i) as nat),
            ),
        decreases count - i,
    {
        proof {
            lemma_repeat_step(item_at, items@, parser@.position, (count - i) as nat);
        }
        let item = line_number_from_bytes(parser)?;
        items.push(item);
        i = i + 1;
    }
    proof {
        lemma_repeat_done(item_at, items@, parser@.position);
    }
    Ok(items)
}

/// Reads a 16-bit count and that many local-variable entries.
#[verifier::loop_isolation(false)]
pub fn local_variables_from_bytes(
    parser: &mut ClassParser<'_>,
) -> (r: Result<Vec<LocalVariable>, DecodeError>)
    ensures
        final(parser)@.bytes == old(parser)@.bytes,
        final(parser)@.position >= old(parser)@.position,
        viewed(r, final(parser)@.position) == spec_counted(
            old(parser)@.bytes,
            old(parser)@.position,
            local_variable_at(old(parser)@.bytes),
        ),
{
    let count: u16 = parser.u2()?;
    let ghost item_at = local_variable_at(parser@.bytes);
    let ghost first = parser@.position;
    let mut items: Vec<LocalVariable> = Vec::new();
    let mut i: u16 = 0;
    proof {
        lemma_repeat_start(item_at, first, count as nat);
    }
    while i < count
        invariant
            parser@.bytes == old(parser)@.bytes,
            parser@.position >= first,
            i <= count,
            spec_repeat(item_at, first, count as nat) == prepend(
                items@,
                spec_repeat(item_at, parser@.position, (count - i) as nat),
            ),
        decreases count - i,
    {
        proof {
            lemma_repeat_step(item_at, items@, parser@.position, (count - i) as nat);
        }
        let item = local_variable_from_bytes(parser)?;
        items.push(item);
        i = i + 1;
    }
    proof {
        lemma_repeat_done(item_at, items@, parser@.position);
    }
    Ok(items)
}

/// Reads a 16-bit count and that many local-variable-type entries.
#[verifier::loop_isolation(false)]
pub fn local_variable_types_from_bytes(
    parser: &mut ClassParser<'_>,
) -> (r: Result<Vec<LocalVariableType>, DecodeError>)
    ensures
        final(parser)@.bytes == old(parser)@.bytes,
        final(parser)@.position >= old(parser)@.position,
        viewed(r, final(parser)@.position) == spec_counted(
            old(parser)@.bytes,
            old(parser)@.position,
            local_variable_type_at(old(parser)@.bytes),
        ),
{
    let count: u16 = parser.u2()?;
    let ghost item_at = local_variable_type_at(parser@.bytes);
    let ghost first = parser@.position;
    let mut items: Vec<LocalVariableType> = Vec::new();
    let mut i: u16 = 0;
    proof {
        lemma_repeat_start(item_at, first, count as nat);
    }
    while i < count
        invariant
            parser@.bytes == old(parser)@.bytes,
            parser@.position >= first,
            i <= count,
            spec_repeat(item_at, first, count as nat) == prepend(
                items@,
                spec_repeat(item_at, parser@.position, (count - i) as nat),
            ),
        decreases count - i,
    {
        proof {
            lemma_repeat_step(item_at, items@, parser@.position, (count - i) as nat);
        }
        let item = local_variable_type_from_bytes(parser)?;
        items.push(item);
        i = i + 1;
    }
    proof {
        lemma_repeat_done(item_at, items@, parser@.position);
    }
    Ok(items)
}

/// Reads a 16-bit count and that many method-parameter entries.
#[verifier::loop_isolation(false)]
pub fn method_parameters_from_bytes(
    parser: &mut ClassParser<'_>,
) -> (r: Result<Vec<MethodParameter>, DecodeError>)
    ensures
        final(parser)@.bytes == old(parser)@.bytes,
        final(parser)@.position >= old(parser)@.position,
        viewed(r, final(parser)@.position) == spec_counted(
            old(parser)@.bytes,
            old(parser)@.position,
            method_parameter_at(old(parser)@.bytes),
        ),
{
    let count: u16 = parser.u2()?;
    let ghost item_at = method_parameter_at(parser@.bytes);
    let ghost first = parser@.position;
    let mut items: Vec<MethodParameter> = Vec::new();
    let mut i: u16 = 0;
    proof {
        lemma_repeat_start(item_at, first, count as nat);
    }
    while i < count
        invariant
            parser@.bytes == old(parser)@.bytes,
            parser@.position >= first,
            i <= count,
            spec_repeat(item_at, first, count as nat) == prepend(
                items@,
                spec_repeat(item_at, parser@.position, (count - i) as nat),
            ),
        decreases count - i,
    {
        proof {
            lemma_repeat_step(item_at, items@, parser@.position, (count - i) as nat);
        }
        let item = method_parameter_from_bytes(parser)?;
        items.push(item);
        i = i + 1;
    }
    proof {
        lemma_repeat_done(item_at, items@, parser@.position);
    }
    Ok(items)
}

/// Reads a 16-bit count and that many `requires` entries.
#[verifier::loop_isolation(false)]
pub fn module_requires_from_bytes(
    parser: &mut ClassParser<'_>,
) -> (r: Result<Vec<ModuleRequires>, DecodeError>)
    ensures
        final(parser)@.bytes == old(parser)@.bytes,
        final(parser)@.position >= old(parser)@.position,
        viewed(r, final(parser)@.position) == spec_counted(
            old(parser)@.bytes,
            old(parser)@.position,
            module_require_at(old(parser)@.bytes),
        ),
{
    let count: u16 = parser.u2()?;
    let ghost item_at = module_require_at(parser@.bytes);
    let ghost first = parser@.position;
    let mut items: Vec<ModuleRequires> = Vec::new();
    let mut i: u16 = 0;
    proof {
        lemma_repeat_start(item_at, first, count as nat);
    }
    while i < count
        invariant
            parser@.bytes == old(parser)@.bytes,
            parser@.position >= first,
            i <= count,
            spec_repeat(item_at, first, count as nat) == prepend(
                items@,
                spec_repeat(item_at, parser@.position, (count - i) as nat),
            ),
        decreases count - i,
    {
        proof {
            lemma_repeat_step(item_at, items@, parser@.position, (count - i) as nat);
        }
        let item = module_require_from_bytes(parser)?;
        items.push(item);
        i = i + 1;
    }
    proof {
        lemma_repeat_done(item_at, items@, parser@.position);
    }
    Ok(items)
}

#[derive(Debug, PartialEq, Eq)]
pub struct BootstrapMethod {
    pub bootstrap_method_ref: u16,
    pub bootstrap_arguments: Vec<u16>,
}

#[derive(Debug, PartialEq, Eq)]
pub struct ModuleExports {
    pub exports_index: u16,
    pub exports_flags: u16,
    pub exports_to_indices: Vec<u16>,
}

#[derive(Debug, PartialEq, Eq)]
pub struct ModuleOpens {
    pub opens_index: u16,
    pub opens_flags: u16,
    pub opens_to_indices: Vec<u16>,
}

#[derive(Debug, PartialEq, Eq)]
pub struct ModuleProvides {
    pub provides_index: u16,
    pub provides_with_indices: Vec<u16>,
}

/// The mathematical value of a [`BootstrapMethod`].
pub ghost struct BootstrapMethodView {
    pub bootstrap_method_ref: u16,
    pub bootstrap_arguments: Seq<u16>,
}

/// The mathematical value of a [`ModuleExports`].
pub ghost struct ModuleExportsView {
    pub exports_index: u16,
    pub exports_flags: u16,
    pub exports_to_indices: Seq<u16>,
}

/// The mathematical value of a [`ModuleOpens`].
pub ghost struct ModuleOpensView {
    pub opens_index: u16,
    pub opens_flags: u16,
    pub opens_to_indices: Seq<u16>,
}

/// The mathematical value of a [`ModuleProvides`].
pub ghost struct ModuleProvidesView {
    pub provides_index: u16,
    pub provides_with_indices: Seq<u16>,
}

impl View for BootstrapMethod {
    type V = BootstrapMethodView;

    open spec fn view(&self) -> BootstrapMethodView {
        BootstrapMethodView {
            bootstrap_method_ref: self.bootstrap_method_ref,
            bootstrap_arguments: self.bootstrap_arguments@,
        }
    }
}

impl View for ModuleExports {
    type V = ModuleExportsView;

    open spec fn view(&self) -> ModuleExportsView {
        ModuleExportsView {
            exports_index: self.exports_index,
            exports_flags: self.exports_flags,
            exports_to_indices: self.exports_to_indices@,
        }
    }
}

impl View for ModuleOpens {
    type V = ModuleOpensView;

    open spec fn view(&self) -> ModuleOpensView {
        ModuleOpensView {
            opens_index: self.opens_index,
            opens_flags: self.opens_flags,
            opens_to_indices: self.opens_to_indices@,
        }
    }
}

impl View for ModuleProvides {
    type V = ModuleProvidesView;

    open spec fn view(&self) -> ModuleProvidesView {
        ModuleProvidesView {
            provides_index: self.provides_index,
            provides_with_indices: self.provides_with_indices@,
        }
    }
}

/// The decoder of one entry of a `BootstrapMethods` attribute, as a function of the position.
pub open spec fn bootstrap_method_at(
    bytes: Seq<u8>,
) -> spec_fn(int) -> Decoded<BootstrapMethodView> {
    |pos: int| spec_bootstrap_method(bytes, pos)
}

/// One entry of a `BootstrapMethods` attribute at `pos`: a 16-bit value, then
/// a counted run of 16-bit values.
pub open spec fn spec_bootstrap_method(bytes: Seq<u8>, pos: int) -> Decoded<BootstrapMethodView> {
    match spec_u2(bytes, pos) {
        Err(e) => Err(e),
        Ok((bootstrap_method_ref, at_list)) => match spec_u2_list(bytes, at_list) {
            Err(e) => Err(e),
            Ok((bootstrap_arguments, end)) => Ok(
                (BootstrapMethodView { bootstrap_method_ref, bootstrap_arguments }, end),
            ),
        },
    }
}

/// Reads one entry of a `BootstrapMethods` attribute.
pub fn bootstrap_method_from_bytes(
    parser: &mut ClassParser<'_>,
) -> (r: Result<BootstrapMethod, DecodeError>)
    ensures
        final(parser)@.bytes == old(parser)@.bytes,
        final(parser)@.position >= old(parser)@.position,
        viewed(r, final(parser)@.position) == spec_bootstrap_method(
            old(parser)@.bytes,
            old(parser)@.position,
        ),
{
    let bootstrap_method_ref: u16 = parser.u2()?;
    let bootstrap_arguments = u2_list_from_bytes(parser)?;
    Ok(BootstrapMethod { bootstrap_method_ref, bootstrap_arguments })
}

/// The decoder of one `exports` entry of a `Module` attribute, as a function of the position.
pub open spec fn module_export_at(bytes: Seq<u8>) -> spec_fn(int) -> Decoded<ModuleExportsView> {
    |pos: int| spec_module_export(bytes, pos)
}

/// One `exports` entry of a `Module` attribute at `pos`: two 16-bit values,
/// then a counted run of 16-bit values.
pub open spec fn spec_module_export(bytes: Seq<u8>, pos: int) -> Decoded<ModuleExportsView> {
    match spec_u2_run(bytes, pos, 2) {
        Err(e) => Err(e),
        Ok((fields, at_list)) => match spec_u2_list(bytes, at_list) {
            Err(e) => Err(e),
            Ok((exports_to_indices, end)) => Ok(
                (
                    ModuleExportsView {
                        exports_index: fields[0],
                        exports_flags: fields[1],
                        exports_to_indices,
                    },
                    end,
                ),
            ),
        },
    }
}

/// Reads one `exports` entry of a `Module` attribute.
pub fn module_export_from_bytes(
    parser: &mut ClassParser<'_>,
) -> (r: Result<ModuleExports, DecodeError>)
    ensures
        final(parser)@.bytes == old(parser)@.bytes,
        final(parser)@.position >= old(parser)@.position,
        viewed(r, final(parser)@.position) == spec_module_export(
            old(parser)@.bytes,
            old(parser)@.position,
        ),
{
    proof {
        reveal_with_fuel(spec_repeat, 3);
    }
    let exports_index: u16 = parser.u2()?;
    let exports_flags: u16 = parser.u2()?;
    let exports_to_indices = u2_list_from_bytes(parser)?;
    Ok(ModuleExports { exports_index, exports_flags, exports_to_indices })
}

/// The decoder of one `opens` entry of a `Module` attribute, as a function of the position.
pub open spec fn module_opens_at(bytes: Seq<u8>) -> spec_fn(int) -> Decoded<ModuleOpensView> {
    |pos: int| spec_module_opens(bytes, pos)
}

/// One `opens` entry of a `Module` attribute at `pos`: two 16-bit values, then
/// a counted run of 16-bit values.
pub open spec fn spec_module_opens(bytes: Seq<u8>, pos: int) -> Decoded<ModuleOpensView> {
    match spec_u2_run(bytes, pos, 2) {
        Err(e) => Err(e),
        Ok((fields, at_list)) => match spec_u2_list(bytes, at_list) {
            Err(e) => Err(e),
            Ok((opens_to_indices, end)) => Ok(
                (
                    ModuleOpensView {
                        opens_index: fields[0],
                        opens_flags: fields[1],
                        opens_to_indices,
                    },
                    end,
                ),
            ),
        },
    }
}

/// Reads one `opens` entry of a `Module` attribute.
pub fn module_opens_from_bytes(
    parser: &mut ClassParser<'_>,
) -> (r: Result<ModuleOpens, DecodeError>)
    ensures
        final(parser)@.bytes == old(parser)@.bytes,
        final(parser)@.position >= old(parser)@.position,
        viewed(r, final(parser)@.position) == spec_module_opens(
            old(parser)@.bytes,
            old(parser)@.position,
        ),
{
    proof {
        reveal_with_fuel(spec_repeat, 3);
    }
    let opens_index: u16 = parser.u2()?;
    let opens_flags: u16 = parser.u2()?;
    let opens_to_indices = u2_list_from_bytes(parser)?;
    Ok(ModuleOpens { opens_index, opens_flags, opens_to_indices })
}

/// The decoder of one `provides` entry of a `Module` attribute, as a function of the position.
pub open spec fn module_provides_at(bytes: Seq<u8>) -> spec_fn(int) -> Decoded<ModuleProvidesView> {
    |pos: int| spec_module_provides(bytes, pos)
}

/// One `provides` entry of a `Module` attribute at `pos`: a 16-bit value, then
/// a counted run of 16-bit values.
pub open spec fn spec_module_provides(bytes: Seq<u8>, pos: int) -> Decoded<ModuleProvidesView> {
    match spec_u2(bytes, pos) {
        Err(e) => Err(e),
        Ok((provides_index, at_list)) => match spec_u2_list(bytes, at_list) {
            Err(e) => Err(e),
            Ok((provides_with_indices, end)) => Ok(
                (ModuleProvidesView { provides_index, provides_with_indices }, end),
            ),
        },
    }
}

/// Reads one `provides` entry of a `Module` attribute.
pub fn module_provides_from_bytes(
    parser: &mut ClassParser<'_>,
) -> (r: Result<ModuleProvides, DecodeError>)
    ensures
        final(parser)@.bytes == old(parser)@.bytes,
        final(parser)@.position >= old(parser)@.position,
        viewed(r, final(parser)@.position) == spec_module_provides(
            old(parser)@.bytes,
            old(parser)@.position,
        ),
{
    let provides_index: u16 = parser.u2()?;
    let provides_with_indices = u2_list_from_bytes(parser)?;
    Ok(ModuleProvides { provides_index, provides_with_indices })
}

/// Reads a 16-bit count and that many bootstrap-method entries.
#[verifier::loop_isolation(false)]
pub fn bootstrap_methods_from_bytes(
    parser: &mut ClassParser<'_>,
) -> (r: Result<Vec<BootstrapMethod>, DecodeError>)
    ensures
        final(parser)@.bytes == old(parser)@.bytes,
        final(parser)@.position >= old(parser)@.position,
        viewed_list(r, final(parser)@.position) == spec_counted(
            old(parser)@.bytes,
            old(parser)@.position,
            bootstrap_method_at(old(parser)@.bytes),
        ),
{
    let count: u16 = parser.u2()?;
    let ghost item_at = bootstrap_method_at(parser@.bytes);
    let ghost first = parser@.position;
    let mut items: Vec<BootstrapMethod> = Vec::new();
    let mut i: u16 = 0;
    proof {
        lemma_repeat_start(item_at, first, count as nat);
    }
    while i < count
        invariant
            parser@.bytes == old(parser)@.bytes,
            parser@.position >= first,
            i <= count,
            spec_repeat(item_at, first, count as nat) == prepend(
                views(items@),
                spec_repeat(item_at, parser@.position, (count - i) as nat),
            ),
        decreases count - i,
    {
        proof {
            lemma_repeat_step(item_at, views(items@), parser@.position, (count - i) as nat);
        }
        let item = bootstrap_method_from_bytes(parser)?;
        proof {
            lemma_views_push(items@, item);
        }
        items.push(item);
        i = i + 1;
    }
    proof {
        lemma_repeat_done(item_at, views(items@), parser@.position);
    }
    Ok(items)
}

/// Reads a 16-bit count and that many `exports` entries.
#[verifier::loop_isolation(false)]
pub fn module_exports_from_bytes(
    parser: &mut ClassParser<'_>,
) -> (r: Result<Vec<ModuleExports>, DecodeError>)
    ensures
        final(parser)@.bytes == old(parser)@.bytes,
        final(parser)@.position >= old(parser)@.position,
        viewed_list(r, final(parser)@.position) == spec_counted(
            old(parser)@.bytes,
            old(parser)@.position,
            module_export_at(old(parser)@.bytes),
        ),
{
    let count: u16 = parser.u2()?;
    let ghost item_at = module_export_at(parser@.bytes);
    let ghost first = parser@.position;
    let mut items: Vec<ModuleExports> = Vec::new();
    let mut i: u16 = 0;
    proof {
        lemma_repeat_start(item_at, first, count as nat);
    }
    while i < count
        invariant
            parser@.bytes == old(parser)@.bytes,
            parser@.position >= first,
            i <= count,
            spec_repeat(item_at, first, count as nat) == prepend(
                views(items@),
                spec_repeat(item_at, parser@.position, (count - i) as nat),
            ),
        decreases count - i,
    {
        proof {
            lemma_repeat_step(item_at, views(items@), parser@.position, (count - i) as nat);
        }
        let item = module_export_from_bytes(parser)?;
        proof {
            lemma_views_push(items@, item);
        }
        items.push(item);
        i = i + 1;
    }
    proof {
        lemma_repeat_done(item_at, views(items@), parser@.position);
    }
    Ok(items)
}

/// Reads a 16-bit count and that many `opens` entries.
#[verifier::loop_isolation(false)]
pub fn module_opens_list_from_bytes(
    parser: &mut ClassParser<'_>,
) -> (r: Result<Vec<ModuleOpens>, DecodeError>)
    ensures
        final(parser)@.bytes == old(parser)@.bytes,
        final(parser)@.position >= old(parser)@.position,
        viewed_list(r, final(parser)@.position) == spec_counted(
            old(parser)@.bytes,
            old(parser)@.position,
            module_opens_at(old(parser)@.bytes),
        ),
{
    let count: u16 = parser.u2()?;
    let ghost item_at = module_opens_at(parser@.bytes);
    let ghost first = parser@.position;
    let mut items: Vec<ModuleOpens> = Vec::new();
    let mut i: u16 = 0;
    proof {
        lemma_repeat_start(item_at, first, count as nat);
    }
    while i < count
        invariant
            parser@.bytes == old(parser)@.bytes,
            parser@.position >= first,
            i <= count,
            spec_repeat(item_at, first, count as nat) == prepend(
                views(items@),
                spec_repeat(item_at, parser@.position, (count - i) as nat),
            ),
        decreases count - i,
    {
        proof {
            lemma_repeat_step(item_at, views(items@), parser@.position, (count - i) as nat);
        }
        let item = module_opens_from_bytes(parser)?;
        proof {
            lemma_views_push(items@, item);
        }
        items.push(item);
        i = i + 1;
    }
    proof {
        lemma_repeat_done(item_at, views(items@), parser@.position);
    }
    Ok(items)
}

/// Reads a 16-bit count and that many `provides` entries.
#[verifier::loop_isolation(false)]
pub fn module_provides_list_from_bytes(
    parser: &mut ClassParser<'_>,
) -> (r: Result<Vec<ModuleProvides>, DecodeError>)
    ensures
        final(parser)@.bytes == old(parser)@.bytes,
        final(parser)@.position >= old(parser)@.position,
        viewed_list(r, final(parser)@.position) == spec_counted(
            old(parser)@.bytes,
            old(parser)@.position,
            module_provides_at(old(parser)@.bytes),
        ),
{
    let count: u16 = parser.u2()?;
    let ghost item_at = module_provides_at(parser@.bytes);
    let ghost first = parser@.position;
    let mut items: Vec<ModuleProvides> = Vec::new();
    let mut i: u16 = 0;
    proof {
        lemma_repeat_start(item_at, first, count as nat);
    }
    while i < count
        invariant
            parser@.bytes == old(parser)@.bytes,
            parser@.position >= first,
            i <= count,
            spec_repeat(item_at, first, count as nat) == prepend(
                views(items@),
                spec_repeat(item_at, parser@.position, (count - i) as nat),
            ),
        decreases count - i,
    {
        proof {
            lemma_repeat_step(item_at, views(items@), parser@.position, (count - i) as nat);
        }
        let item = module_provides_from_bytes(parser)?;
        proof {
            lemma_views_push(items@, item);
        }
        items.push(item);
        i = i + 1;
    }
    proof {
        lemma_repeat_done(item_at, views(items@), parser@.position);
    }
    Ok(items)
}

} // verus!

//! The attribute decoder: from an attribute's name and declared length to
//! what it holds.

use crate::annotation::{
    annotation_at, annotations_from_bytes, element_value_from_bytes, spec_element_value,
    type_annotation_at, type_annotations_from_bytes,
};
use crate::attribute::{
    attribute_kind, lemma_attribute_views, lemma_record_view, spec_attribute_kind, Attribute,
    AttributeInfo, AttributeInfoView, AttributeKind, AttributeView, RecordComponent,
    RecordComponentView,
};
use crate::constant_pool::{
    constant_pool_utf8, spec_constant_pool_utf8, ConstantPoolEntry, ConstantPoolEntryView,
};
use crate::cursor::{spec_take, spec_u2, spec_u4, ClassParser};
use crate::error::{DecodeError, DecodeErrorView};
use crate::options::{DecodeOptions, Depth};
use crate::outcome::{viewed, viewed_list, views, Decoded};
use crate::records::{
    bootstrap_method_at, bootstrap_methods_from_bytes, exception_table_entry_at,
    exception_table_from_bytes, inner_class_at, inner_classes_from_bytes, line_number_at,
    line_numbers_from_bytes, local_variable_at, local_variable_type_at,
    local_variable_types_from_bytes, local_variables_from_bytes, method_parameter_at,
    method_parameters_from_bytes, module_export_at, module_exports_from_bytes, module_opens_at,
    module_opens_list_from_bytes, module_provides_at, module_provides_list_from_bytes,
    module_require_at, module_requires_from_bytes,
};
use crate::repeat::{
    lemma_repeat_done, lemma_repeat_start, lemma_repeat_step, lemma_views_push, prepend,
    spec_counted, spec_repeat, spec_u2_list, spec_u2_run, u2_list_from_bytes,
};
use crate::stack_map::{stack_map_frame_at, stack_map_frames_from_bytes};
use crate::text::{cow_as_str, mutf8_to_utf8_text, utf8_lossy_text, CowExt};
use vstd::prelude::*;

verus! {

/// The body of an `AnnotationDefault` attribute: one element value at `pos`.
pub open spec fn spec_attribute_annotation_default(
    bytes: Seq<u8>,
    pos: int,
    depth: Depth,
) -> Decoded<
    AttributeInfoView,
> {
    match spec_element_value(bytes, pos, depth) {
        Err(e) => Err(e),
        Ok((default_value, end)) => Ok(
            (AttributeInfoView::AnnotationDefault { default_value }, end),
        ),
    }
}

/// Reads the body of an `AnnotationDefault` attribute: one element value.
pub fn attribute_annotation_default_from_bytes<'class>(
    parser: &mut ClassParser<'class>,
    depth: Depth,
) -> (r: Result<
    AttributeInfo<'class>,
    DecodeError,
>)
    ensures
        final(parser)@.bytes == old(parser)@.bytes,
        final(parser)@.position >= old(parser)@.position,
        viewed(r, final(parser)@.position) == spec_attribute_annotation_default(
            old(parser)@.bytes,
            old(parser)@.position,
            depth,
        ),
{
    let element_value = element_value_from_bytes(parser, depth)?;
    Ok(AttributeInfo::AnnotationDefault { default_value: element_value })
}

/// The body of a `BootstrapMethods` attribute: a counted run of entries at `pos`.
pub open spec fn spec_attribute_bootstrap_methods(bytes: Seq<u8>, pos: int) -> Decoded<
    AttributeInfoView,
> {
    match spec_counted(bytes, pos, bootstrap_method_at(bytes)) {
        Err(e) => Err(e),
        Ok((bootstrap_methods, end)) => Ok(
            (AttributeInfoView::BootstrapMethods { bootstrap_methods }, end),
        ),
    }
}

/// Reads the body of a `BootstrapMethods` attribute: a counted run of entries.
pub fn attribute_bootstrap_methods_from_bytes<'class>(
    parser: &mut ClassParser<'class>,
) -> (r: Result<
    AttributeInfo<'class>,
    DecodeError,
>)
    ensures
        final(parser)@.bytes == old(parser)@.bytes,
        final(parser)@.position >= old(parser)@.position,
        viewed(r, final(parser)@.position) == spec_attribute_bootstrap_methods(
            old(parser)@.bytes,
            old(parser)@.position,
        ),
{
    let bootstrap_methods = bootstrap_methods_from_bytes(parser)?;
    Ok(AttributeInfo::BootstrapMethods { bootstrap_methods })
}

/// The body of a `ConstantValue` attribute: one constant-pool index at `pos`.
pub open spec fn spec_attribute_constant_value(bytes: Seq<u8>, pos: int) -> Decoded<
    AttributeInfoView,
> {
    match spec_u2(bytes, pos) {
        Err(e) => Err(e),
        Ok((constantvalue_index, end)) => Ok(
            (AttributeInfoView::ConstantValue { constantvalue_index }, end),
        ),
    }
}

/// Reads the body of a `ConstantValue` attribute: one constant-pool index.
pub fn attribute_constant_value_from_bytes<'class>(parser: &mut ClassParser<'class>) -> (r: Result<
    AttributeInfo<'class>,
    DecodeError,
>)
    ensures
        final(parser)@.bytes == old(parser)@.bytes,
        final(parser)@.position >= old(parser)@.position,
        viewed(r, final(parser)@.position) == spec_attribute_constant_value(
            old(parser)@.bytes,
            old(parser)@.position,
        ),
{
    let constantvalue_index: u16 = parser.u2()?;
    Ok(AttributeInfo::ConstantValue { constantvalue_index })
}

/// The body of a `Deprecated` attribute, which is empty at `pos`.
pub open spec fn spec_attribute_deprecated(bytes: Seq<u8>, pos: int) -> Decoded<
    AttributeInfoView,
> {
    Ok((AttributeInfoView::Deprecated, pos))
}

/// Reads the body of a `Deprecated` attribute, which is empty.
pub fn attribute_deprecated_from_bytes<'class>(parser: &mut ClassParser<'class>) -> (r: Result<
    AttributeInfo<'class>,
    DecodeError,
>)
    ensures
        final(parser)@.bytes == old(parser)@.bytes,
        final(parser)@.position >= old(parser)@.position,
        viewed(r, final(parser)@.position) == spec_attribute_deprecated(
            old(parser)@.bytes,
            old(parser)@.position,
        ),
{
    Ok(AttributeInfo::Deprecated)
}

/// The body of an `EnclosingMethod` attribute: two constant-pool indices at `pos`.
pub open spec fn spec_attribute_enclosing_method(bytes: Seq<u8>, pos: int) -> Decoded<
    AttributeInfoView,
> {
    match spec_u2_run(bytes, pos, 2) {
        Err(e) => Err(e),
        Ok((indices, end)) => Ok(
            (
                AttributeInfoView::EnclosingMethod {
                    class_index: indices[0],
                    method_index: indices[1],
                },
                end,
            ),
        ),
    }
}

/// Reads the body of an `EnclosingMethod` attribute: two constant-pool indices.
pub fn attribute_enclosing_method_from_bytes<'class>(
    parser: &mut ClassParser<'class>,
) -> (r: Result<
    AttributeInfo<'class>,
    DecodeError,
>)
    ensures
        final(parser)@.bytes == old(parser)@.bytes,
        final(parser)@.position >= old(parser)@.position,
        viewed(r, final(parser)@.position) == spec_attribute_enclosing_method(
            old(parser)@.bytes,
            old(parser)@.position,
        ),
{
    proof {
        reveal_with_fuel(spec_repeat, 3);
    }
    let class_index: u16 = parser.u2()?;
    let method_index: u16 = parser.u2()?;
    Ok(AttributeInfo::EnclosingMethod { class_index, method_index })
}

/// The body of an `Exceptions` attribute: a counted run of constant-pool indices at `pos`.
pub open spec fn spec_attribute_exceptions(bytes: Seq<u8>, pos: int) -> Decoded<
    AttributeInfoView,
> {
    match spec_u2_list(bytes, pos) {
        Err(e) => Err(e),
        Ok((exception_index_table, end)) => Ok(
            (AttributeInfoView::Exceptions { exception_index_table }, end),
        ),
    }
}

/// Reads the body of an `Exceptions` attribute: a counted run of constant-pool indices.
pub fn attribute_exceptions_from_bytes<'class>(parser: &mut ClassParser<'class>) -> (r: Result<
    AttributeInfo<'class>,
    DecodeError,
>)
    ensures
        final(parser)@.bytes == old(parser)@.bytes,
        final(parser)@.position >= old(parser)@.position,
        viewed(r, final(parser)@.position) == spec_attribute_exceptions(
            old(parser)@.bytes,
            old(parser)@.position,
        ),
{
    let exception_index_table = u2_list_from_bytes(parser)?;
    Ok(AttributeInfo::Exceptions { exception_index_table })
}

/// The body of an `InnerClasses` attribute: a counted run of entries at `pos`.
pub open spec fn spec_attribute_inner_classes(bytes: Seq<u8>, pos: int) -> Decoded<
    AttributeInfoView,
> {
    match spec_counted(bytes, pos, inner_class_at(bytes)) {
        Err(e) => Err(e),
        Ok((classes, end)) => Ok((AttributeInfoView::InnerClasses { classes }, end)),
    }
}

/// Reads the body of an `InnerClasses` attribute: a counted run of entries.
pub fn attribute_inner_classes_from_bytes<'class>(parser: &mut ClassParser<'class>) -> (r: Result<
    AttributeInfo<'class>,
    DecodeError,
>)
    ensures
        final(parser)@.bytes == old(parser)@.bytes,
        final(parser)@.position >= old(parser)@.position,
        viewed(r, final(parser)@.position) == spec_attribute_inner_classes(
            old(parser)@.bytes,
            old(parser)@.position,
        ),
{
    let classes = inner_classes_from_bytes(parser)?;
    Ok(AttributeInfo::InnerClasses { classes })
}

/// The body of a `LineNumberTable` attribute: a counted run of entries at `pos`.
pub open spec fn spec_attribute_line_number_table(bytes: Seq<u8>, pos: int) -> Decoded<
    AttributeInfoView,
> {
    match spec_counted(bytes, pos, line_number_at(bytes)) {
        Err(e) => Err(e),
        Ok((line_number_table, end)) => Ok(
            (AttributeInfoView::LineNumberTable { line_number_table }, end),
        ),
    }
}

/// Reads the body of a `LineNumberTable` attribute: a counted run of entries.
pub fn attribute_line_number_table_from_bytes<'class>(
    parser: &mut ClassParser<'class>,
) -> (r: Result<
    AttributeInfo<'class>,
    DecodeError,
>)
    ensures
        final(parser)@.bytes == old(parser)@.bytes,
        final(parser)@.position >= old(parser)@.position,
        viewed(r, final(parser)@.position) == spec_attribute_line_number_table(
            old(parser)@.bytes,
            old(parser)@.position,
        ),
{
    let line_number_table = line_numbers_from_bytes(parser)?;
    Ok(AttributeInfo::LineNumberTable { line_number_table })
}

/// The body of a `LocalVariableTable` attribute: a counted run of entries at `pos`.
pub open spec fn spec_attribute_local_variable_table(bytes: Seq<u8>, pos: int) -> Decoded<
    AttributeInfoView,
> {
    match spec_counted(bytes, pos, local_variable_at(bytes)) {
        Err(e) => Err(e),
        Ok((local_variable_table, end)) => Ok(
            (AttributeInfoView::LocalVariableTable { local_variable_table }, end),
        ),
    }
}

/// Reads the body of a `LocalVariableTable` attribute: a counted run of entries.
pub fn attribute_local_variable_table_from_bytes<'class>(
    parser: &mut ClassParser<'class>,
) -> (r: Result<
    AttributeInfo<'class>,
    DecodeError,
>)
    ensures
        final(parser)@.bytes == old(parser)@.bytes,
        final(parser)@.position >= old(parser)@.position,
        viewed(r, final(parser)@.position) == spec_attribute_local_variable_table(
            old(parser)@.bytes,
            old(parser)@.position,
        ),
{
    let local_variable_table = local_variables_from_bytes(parser)?;
    Ok(AttributeInfo::LocalVariableTable { local_variable_table })
}

/// The body of a `LocalVariableTypeTable` attribute: a counted run of entries at `pos`.
pub open spec fn spec_attribute_local_variable_type_table(bytes: Seq<u8>, pos: int) -> Decoded<
    AttributeInfoView,
> {
    match spec_counted(bytes, pos, local_variable_type_at(bytes)) {
        Err(e) => Err(e),
        Ok((local_variable_type_table, end)) => Ok(
            (AttributeInfoView::LocalVariableTypeTable { local_variable_type_table }, end),
        ),
    }
}

/// Reads the body of a `LocalVariableTypeTable` attribute: a counted run of entries.
pub fn attribute_local_variable_type_table_from_bytes<'class>(
    parser: &mut ClassParser<'class>,
) -> (r: Result<
    AttributeInfo<'class>,
    DecodeError,
>)
    ensures
        final(parser)@.bytes == old(parser)@.bytes,
        final(parser)@.position >= old(parser)@.position,
        viewed(r, final(parser)@.position) == spec_attribute_local_variable_type_table(
            old(parser)@.bytes,
            old(parser)@.position,
        ),
{
    let local_variable_type_table = local_variable_types_from_bytes(parser)?;
    Ok(AttributeInfo::LocalVariableTypeTable { local_variable_type_table })
}

/// The body of a `MethodParameters` attribute: a counted run of entries at `pos`.
pub open spec fn spec_attribute_method_parameters(bytes: Seq<u8>, pos: int) -> Decoded<
    AttributeInfoView,
> {
    match spec_counted(bytes, pos, method_parameter_at(bytes)) {
        Err(e) => Err(e),
        Ok((parameters, end)) => Ok((AttributeInfoView::MethodParameters { parameters }, end)),
    }
}

/// Reads the body of a `MethodParameters` attribute: a counted run of entries.
pub fn attribute_method_parameters_from_bytes<'class>(
    parser: &mut ClassParser<'class>,
) -> (r: Result<
    AttributeInfo<'class>,
    DecodeError,
>)
    ensures
        final(parser)@.bytes == old(parser)@.bytes,
        final(parser)@.position >= old(parser)@.position,
        viewed(r, final(parser)@.position) == spec_attribute_method_parameters(
            old(parser)@.bytes,
            old(parser)@.position,
        ),
{
    let parameters = method_parameters_from_bytes(parser)?;
    Ok(AttributeInfo::MethodParameters { parameters })
}

/// The body of a `Module` attribute: three 16-bit values, then the counted runs of what the
/// module requires, exports, opens, uses and provides at `pos`.
pub open spec fn spec_attribute_module(bytes: Seq<u8>, pos: int) -> Decoded<
    AttributeInfoView,
> {
    match spec_u2_run(bytes, pos, 3) {
        Err(e) => Err(e),
        Ok((head, at_requires)) => match spec_counted(
            bytes,
            at_requires,
            module_require_at(bytes),
        ) {
            Err(e) => Err(e),
            Ok((module_requires, at_exports)) => match spec_counted(
                bytes,
                at_exports,
                module_export_at(bytes),
            ) {
                Err(e) => Err(e),
                Ok((exports, at_opens)) => match spec_counted(
                    bytes,
                    at_opens,
                    module_opens_at(bytes),
                ) {
                    Err(e) => Err(e),
                    Ok((opens, at_uses)) => match spec_u2_list(bytes, at_uses) {
                        Err(e) => Err(e),
                        Ok((uses, at_provides)) => match spec_counted(
                            bytes,
                            at_provides,
                            module_provides_at(bytes),
                        ) {
                            Err(e) => Err(e),
                            Ok((provides, end)) => Ok(
                                (
                                    AttributeInfoView::Module {
                                        module_name_index: head[0],
                                        module_flags: head[1],
                                        module_version_index: head[2],
                                        module_requires,
                                        exports,
                                        opens,
                                        uses,
                                        provides,
                                    },
                                    end,
                                ),
                            ),
                        },
                    },
                },
            },
        },
    }
}

/// Reads the body of a `Module` attribute: three 16-bit values, then the counted runs of what the
/// module requires, exports, opens, uses and provides.
pub fn attribute_module_from_bytes<'class>(parser: &mut ClassParser<'class>) -> (r: Result<
    AttributeInfo<'class>,
    DecodeError,
>)
    ensures
        final(parser)@.bytes == old(parser)@.bytes,
        final(parser)@.position >= old(parser)@.position,
        viewed(r, final(parser)@.position) == spec_attribute_module(
            old(parser)@.bytes,
            old(parser)@.position,
        ),
{
    proof {
        reveal_with_fuel(spec_repeat, 4);
    }
    let module_name_index: u16 = parser.u2()?;
    let module_flags: u16 = parser.u2()?;
    let module_version_index: u16 = parser.u2()?;
    let module_requires = module_requires_from_bytes(parser)?;
    let exports = module_exports_from_bytes(parser)?;
    let opens = module_opens_list_from_bytes(parser)?;
    let uses = u2_list_from_bytes(parser)?;
    let provides = module_provides_list_from_bytes(parser)?;
    Ok(
        AttributeInfo::Module {
            module_name_index,
            module_flags,
            module_version_index,
            module_requires,
            exports,
            opens,
            uses,
            provides,
        },
    )
}

/// The body of a `ModuleMainClass` attribute: one constant-pool index at `pos`.
pub open spec fn spec_attribute_module_main_class(bytes: Seq<u8>, pos: int) -> Decoded<
    AttributeInfoView,
> {
    match spec_u2(bytes, pos) {
        Err(e) => Err(e),
        Ok((main_class_index, end)) => Ok(
            (AttributeInfoView::ModuleMainClass { main_class_index }, end),
        ),
    }
}

/// Reads the body of a `ModuleMainClass` attribute: one constant-pool index.
pub fn attribute_module_main_class_from_bytes<'class>(
    parser: &mut ClassParser<'class>,
) -> (r: Result<
    AttributeInfo<'class>,
    DecodeError,
>)
    ensures
        final(parser)@.bytes == old(parser)@.bytes,
        final(parser)@.position >= old(parser)@.position,
        viewed(r, final(parser)@.position) == spec_attribute_module_main_class(
            old(parser)@.bytes,
            old(parser)@.position,
        ),
{
    let main_class_index: u16 = parser.u2()?;
    Ok(AttributeInfo::ModuleMainClass { main_class_index })
}

/// The body of a `ModulePackages` attribute: a counted run of constant-pool indices at `pos`.
pub open spec fn spec_attribute_module_packages(bytes: Seq<u8>, pos: int) -> Decoded<
    AttributeInfoView,
> {
    match spec_u2_list(bytes, pos) {
        Err(e) => Err(e),
        Ok((package_index, end)) => Ok((AttributeInfoView::ModulePackages { package_index }, end)),
    }
}

/// Reads the body of a `ModulePackages` attribute: a counted run of constant-pool indices.
pub fn attribute_module_packages_from_bytes<'class>(parser: &mut ClassParser<'class>) -> (r: Result<
    AttributeInfo<'class>,
    DecodeError,
>)
    ensures
        final(parser)@.bytes == old(parser)@.bytes,
        final(parser)@.position >= old(parser)@.position,
        viewed(r, final(parser)@.position) == spec_attribute_module_packages(
            old(parser)@.bytes,
            old(parser)@.position,
        ),
{
    let package_index = u2_list_from_bytes(parser)?;
    Ok(AttributeInfo::ModulePackages { package_index })
}

/// The body of a `NestHost` attribute: one constant-pool index at `pos`.
pub open spec fn spec_attribute_nest_host(bytes: Seq<u8>, pos: int) -> Decoded<
    AttributeInfoView,
> {
    match spec_u2(bytes, pos) {
        Err(e) => Err(e),
        Ok((host_class_index, end)) => Ok((AttributeInfoView::NestHost { host_class_index }, end)),
    }
}

/// Reads the body of a `NestHost` attribute: one constant-pool index.
pub fn attribute_nest_host_from_bytes<'class>(parser: &mut ClassParser<'class>) -> (r: Result<
    AttributeInfo<'class>,
    DecodeError,
>)
    ensures
        final(parser)@.bytes == old(parser)@.bytes,
        final(parser)@.position >= old(parser)@.position,
        viewed(r, final(parser)@.position) == spec_attribute_nest_host(
            old(parser)@.bytes,
            old(parser)@.position,
        ),
{
    let host_class_index: u16 = parser.u2()?;
    Ok(AttributeInfo::NestHost { host_class_index })
}

/// The body of a `NestMembers` attribute: a counted run of constant-pool indices at `pos`.
pub open spec fn spec_attribute_nest_members(bytes: Seq<u8>, pos: int) -> Decoded<
    AttributeInfoView,
> {
    match spec_u2_list(bytes, pos) {
        Err(e) => Err(e),
        Ok((classes, end)) => Ok((AttributeInfoView::NestMembers { classes }, end)),
    }
}

/// Reads the body of a `NestMembers` attribute: a counted run of constant-pool indices.
pub fn attribute_nest_members_from_bytes<'class>(parser: &mut ClassParser<'class>) -> (r: Result<
    AttributeInfo<'class>,
    DecodeError,
>)
    ensures
        final(parser)@.bytes == old(parser)@.bytes,
        final(parser)@.position >= old(parser)@.position,
        viewed(r, final(parser)@.position) == spec_attribute_nest_members(
            old(parser)@.bytes,
            old(parser)@.position,
        ),
{
    let classes = u2_list_from_bytes(parser)?;
    Ok(AttributeInfo::NestMembers { classes })
}

/// The body of a `PermittedSubclasses` attribute: a counted run of constant-pool indices at `pos`.
pub open spec fn spec_attribute_permitted_subclasses(bytes: Seq<u8>, pos: int) -> Decoded<
    AttributeInfoView,
> {
    match spec_u2_list(bytes, pos) {
        Err(e) => Err(e),
        Ok((classes, end)) => Ok((AttributeInfoView::PermittedSubclasses { classes }, end)),
    }
}

/// Reads the body of a `PermittedSubclasses` attribute: a counted run of constant-pool indices.
pub fn attribute_permitted_subclasses_from_bytes<'class>(
    parser: &mut ClassParser<'class>,
) -> (r: Result<
    AttributeInfo<'class>,
    DecodeError,
>)
    ensures
        final(parser)@.bytes == old(parser)@.bytes,
        final(parser)@.position >= old(parser)@.position,
        viewed(r, final(parser)@.position) == spec_attribute_permitted_subclasses(
            old(parser)@.bytes,
            old(parser)@.position,
        ),
{
    let classes = u2_list_from_bytes(parser)?;
    Ok(AttributeInfo::PermittedSubclasses { classes })
}

/// The body of a `RuntimeInvisibleAnnotations` attribute: a counted run of annotations at `pos`.
pub open spec fn spec_attribute_runtime_invisible_annotations(
    bytes: Seq<u8>,
    pos: int,
    depth: Depth,
) -> Decoded<
    AttributeInfoView,
> {
    match spec_counted(bytes, pos, annotation_at(bytes, depth)) {
        Err(e) => Err(e),
        Ok((annotations, end)) => Ok(
            (AttributeInfoView::RuntimeInvisibleAnnotations { annotations }, end),
        ),
    }
}

/// Reads the body of a `RuntimeInvisibleAnnotations` attribute: a counted run of annotations.
pub fn attribute_runtime_invisible_annotations_from_bytes<'class>(
    parser: &mut ClassParser<'class>,
    depth: Depth,
) -> (r: Result<
    AttributeInfo<'class>,
    DecodeError,
>)
    ensures
        final(parser)@.bytes == old(parser)@.bytes,
        final(parser)@.position >= old(parser)@.position,
        viewed(r, final(parser)@.position) == spec_attribute_runtime_invisible_annotations(
            old(parser)@.bytes,
            old(parser)@.position,
            depth,
        ),
{
    let annotations = annotations_from_bytes(parser, depth)?;
    Ok(AttributeInfo::RuntimeInvisibleAnnotations { annotations })
}

/// The body of a `RuntimeInvisibleParameterAnnotations` attribute: a counted run of
/// annotations at `pos`.
pub open spec fn spec_attribute_runtime_invisible_parameter_annotations(
    bytes: Seq<u8>,
    pos: int,
    depth: Depth,
) -> Decoded<
    AttributeInfoView,
> {
    match spec_counted(bytes, pos, annotation_at(bytes, depth)) {
        Err(e) => Err(e),
        Ok((parameter_annotations, end)) => Ok(
            (
                AttributeInfoView::RuntimeInvisibleParameterAnnotations { parameter_annotations },
                end,
            ),
        ),
    }
}

/// Reads the body of a `RuntimeInvisibleParameterAnnotations` attribute: a counted run of
/// annotations.
pub fn attribute_runtime_invisible_parameter_annotations_from_bytes<'class>(
    parser: &mut ClassParser<'class>,
    depth: Depth,
) -> (r: Result<
    AttributeInfo<'class>,
    DecodeError,
>)
    ensures
        final(parser)@.bytes == old(parser)@.bytes,
        final(parser)@.position >= old(parser)@.position,
        viewed(
            r,
            final(parser)@.position,
        ) == spec_attribute_runtime_invisible_parameter_annotations(
            old(parser)@.bytes,
            old(parser)@.position,
            depth,
        ),
{
    let parameter_annotations = annotations_from_bytes(parser, depth)?;
    Ok(AttributeInfo::RuntimeInvisibleParameterAnnotations { parameter_annotations })
}

/// The body of a `RuntimeInvisibleTypeAnnotations` attribute: a counted run of type
/// annotations at `pos`.
pub open spec fn spec_attribute_runtime_invisible_type_annotations(
    bytes: Seq<u8>,
    pos: int,
    depth: Depth,
) -> Decoded<
    AttributeInfoView,
> {
    match spec_counted(bytes, pos, type_annotation_at(bytes, depth)) {
        Err(e) => Err(e),
        Ok((type_annotations, end)) => Ok(
            (AttributeInfoView::RuntimeInvisibleTypeAnnotations { type_annotations }, end),
        ),
    }
}

/// Reads the body of a `RuntimeInvisibleTypeAnnotations` attribute: a counted run of type
/// annotations.
pub fn attribute_runtime_invisible_type_annotations_from_bytes<'class>(
    parser: &mut ClassParser<'class>,
    depth: Depth,
) -> (r: Result<
    AttributeInfo<'class>,
    DecodeError,
>)
    ensures
        final(parser)@.bytes == old(parser)@.bytes,
        final(parser)@.position >= old(parser)@.position,
        viewed(r, final(parser)@.position) == spec_attribute_runtime_invisible_type_annotations(
            old(parser)@.bytes,
            old(parser)@.position,
            depth,
        ),
{
    let type_annotations = type_annotations_from_bytes(parser, depth)?;
    Ok(AttributeInfo::RuntimeInvisibleTypeAnnotations { type_annotations })
}

/// The body of a `RuntimeVisibleAnnotations` attribute: a counted run of annotations at `pos`.
pub open spec fn spec_attribute_runtime_visible_annotations(
    bytes: Seq<u8>,
    pos: int,
    depth: Depth,
) -> Decoded<
    AttributeInfoView,
> {
    match spec_counted(bytes, pos, annotation_at(bytes, depth)) {
        Err(e) => Err(e),
        Ok((annotations, end)) => Ok(
            (AttributeInfoView::RuntimeVisibleAnnotations { annotations }, end),
        ),
    }
}

/// Reads the body of a `RuntimeVisibleAnnotations` attribute: a counted run of annotations.
pub fn attribute_runtime_visible_annotations_from_bytes<'class>(
    parser: &mut ClassParser<'class>,
    depth: Depth,
) -> (r: Result<
    AttributeInfo<'class>,
    DecodeError,
>)
    ensures
        final(parser)@.bytes == old(parser)@.bytes,
        final(parser)@.position >= old(parser)@.position,
        viewed(r, final(parser)@.position) == spec_attribute_runtime_visible_annotations(
            old(parser)@.bytes,
            old(parser)@.position,
            depth,
        ),
{
    let annotations = annotations_from_bytes(parser, depth)?;
    Ok(AttributeInfo::RuntimeVisibleAnnotations { annotations })
}

/// The body of a `RuntimeVisibleParameterAnnotations` attribute: a counted run of
/// annotations at `pos`.
pub open spec fn spec_attribute_runtime_visible_parameter_annotations(
    bytes: Seq<u8>,
    pos: int,
    depth: Depth,
) -> Decoded<
    AttributeInfoView,
> {
    match spec_counted(bytes, pos, annotation_at(bytes, depth)) {
        Err(e) => Err(e),
        Ok((parameter_annotations, end)) => Ok(
            (AttributeInfoView::RuntimeVisibleParameterAnnotations { parameter_annotations }, end),
        ),
    }
}

/// Reads the body of a `RuntimeVisibleParameterAnnotations` attribute: a counted run of
/// annotations.
pub fn attribute_runtime_visible_parameter_annotations_from_bytes<'class>(
    parser: &mut ClassParser<'class>,
    depth: Depth,
) -> (r: Result<
    AttributeInfo<'class>,
    DecodeError,
>)
    ensures
        final(parser)@.bytes == old(parser)@.bytes,
        final(parser)@.position >= old(parser)@.position,
        viewed(r, final(parser)@.position) == spec_attribute_runtime_visible_parameter_annotations(
            old(parser)@.bytes,
            old(parser)@.position,
            depth,
        ),
{
    let parameter_annotations = annotations_from_bytes(parser, depth)?;
    Ok(AttributeInfo::RuntimeVisibleParameterAnnotations { parameter_annotations })
}

/// The body of a `RuntimeVisibleTypeAnnotations` attribute: a counted run of type
/// annotations at `pos`.
pub open spec fn spec_attribute_runtime_visible_type_annotations(
    bytes: Seq<u8>,
    pos: int,
    depth: Depth,
) -> Decoded<
    AttributeInfoView,
> {
    match spec_counted(bytes, pos, type_annotation_at(bytes, depth)) {
        Err(e) => Err(e),
        Ok((type_annotations, end)) => Ok(
            (AttributeInfoView::RuntimeVisibleTypeAnnotations { type_annotations }, end),
        ),
    }
}

/// Reads the body of a `RuntimeVisibleTypeAnnotations` attribute: a counted run of type
/// annotations.
pub fn attribute_runtime_visible_type_annotations_from_bytes<'class>(
    parser: &mut ClassParser<'class>,
    depth: Depth,
) -> (r: Result<
    AttributeInfo<'class>,
    DecodeError,
>)
    ensures
        final(parser)@.bytes == old(parser)@.bytes,
        final(parser)@.position >= old(parser)@.position,
        viewed(r, final(parser)@.position) == spec_attribute_runtime_visible_type_annotations(
            old(parser)@.bytes,
            old(parser)@.position,
            depth,
        ),
{
    let type_annotations = type_annotations_from_bytes(parser, depth)?;
    Ok(AttributeInfo::RuntimeVisibleTypeAnnotations { type_annotations })
}

/// The body of a `Signature` attribute: one constant-pool index at `pos`.
pub open spec fn spec_attribute_signature(bytes: Seq<u8>, pos: int) -> Decoded<
    AttributeInfoView,
> {
    match spec_u2(bytes, pos) {
        Err(e) => Err(e),
        Ok((signature_index, end)) => Ok((AttributeInfoView::Signature { signature_index }, end)),
    }
}

/// Reads the body of a `Signature` attribute: one constant-pool index.
pub fn attribute_signature_from_bytes<'class>(parser: &mut ClassParser<'class>) -> (r: Result<
    AttributeInfo<'class>,
    DecodeError,
>)
    ensures
        final(parser)@.bytes == old(parser)@.bytes,
        final(parser)@.position >= old(parser)@.position,
        viewed(r, final(parser)@.position) == spec_attribute_signature(
            old(parser)@.bytes,
            old(parser)@.position,
        ),
{
    let signature_index: u16 = parser.u2()?;
    Ok(AttributeInfo::Signature { signature_index })
}

/// The body of a `SourceDebugExtension` attribute: as many bytes as the attribute
/// declares at `pos`.
pub open spec fn spec_attribute_source_debug_extension(
    bytes: Seq<u8>,
    pos: int,
    length: u32,
) -> Decoded<
    AttributeInfoView,
> {
    match spec_take(bytes, pos, length as int) {
        Err(e) => Err(e),
        Ok((debug_extension, end)) => Ok(
            (AttributeInfoView::SourceDebugExtension { debug_extension }, end),
        ),
    }
}

/// Reads the body of a `SourceDebugExtension` attribute: as many bytes as the attribute
/// declares.
pub fn attribute_source_debug_extension_from_bytes<'class>(
    parser: &mut ClassParser<'class>,
    length: u32,
) -> (r: Result<
    AttributeInfo<'class>,
    DecodeError,
>)
    ensures
        final(parser)@.bytes == old(parser)@.bytes,
        final(parser)@.position >= old(parser)@.position,
        viewed(r, final(parser)@.position) == spec_attribute_source_debug_extension(
            old(parser)@.bytes,
            old(parser)@.position,
            length,
        ),
{
    let debug_extension: &'class [u8] = parser.take(length as usize)?;
    Ok(AttributeInfo::SourceDebugExtension { debug_extension })
}

/// The body of a `SourceFile` attribute: one constant-pool index at `pos`.
pub open spec fn spec_attribute_source_file(bytes: Seq<u8>, pos: int) -> Decoded<
    AttributeInfoView,
> {
    match spec_u2(bytes, pos) {
        Err(e) => Err(e),
        Ok((sourcefile_index, end)) => Ok(
            (AttributeInfoView::SourceFile { sourcefile_index }, end),
        ),
    }
}

/// Reads the body of a `SourceFile` attribute: one constant-pool index.
pub fn attribute_source_file_from_bytes<'class>(parser: &mut ClassParser<'class>) -> (r: Result<
    AttributeInfo<'class>,
    DecodeError,
>)
    ensures
        final(parser)@.bytes == old(parser)@.bytes,
        final(parser)@.position >= old(parser)@.position,
        viewed(r, final(parser)@.position) == spec_attribute_source_file(
            old(parser)@.bytes,
            old(parser)@.position,
        ),
{
    let sourcefile_index: u16 = parser.u2()?;
    Ok(AttributeInfo::SourceFile { sourcefile_index })
}

/// The body of a `StackMapTable` attribute: a counted run of stack map frames at `pos`.
pub open spec fn spec_attribute_stack_map_table(bytes: Seq<u8>, pos: int) -> Decoded<
    AttributeInfoView,
> {
    match spec_counted(bytes, pos, stack_map_frame_at(bytes)) {
        Err(e) => Err(e),
        Ok((entries, end)) => Ok((AttributeInfoView::StackMapTable { entries }, end)),
    }
}

/// Reads the body of a `StackMapTable` attribute: a counted run of stack map frames.
pub fn attribute_stack_map_table_from_bytes<'class>(parser: &mut ClassParser<'class>) -> (r: Result<
    AttributeInfo<'class>,
    DecodeError,
>)
    ensures
        final(parser)@.bytes == old(parser)@.bytes,
        final(parser)@.position >= old(parser)@.position,
        viewed(r, final(parser)@.position) == spec_attribute_stack_map_table(
            old(parser)@.bytes,
            old(parser)@.position,
        ),
{
    let entries = stack_map_frames_from_bytes(parser)?;
    Ok(AttributeInfo::StackMapTable { entries })
}

/// The body of a `Synthetic` attribute, which is empty at `pos`.
pub open spec fn spec_attribute_synthetic(bytes: Seq<u8>, pos: int) -> Decoded<
    AttributeInfoView,
> {
    Ok((AttributeInfoView::Synthetic, pos))
}

/// Reads the body of a `Synthetic` attribute, which is empty.
pub fn attribute_synthetic_from_bytes<'class>(parser: &mut ClassParser<'class>) -> (r: Result<
    AttributeInfo<'class>,
    DecodeError,
>)
    ensures
        final(parser)@.bytes == old(parser)@.bytes,
        final(parser)@.position >= old(parser)@.position,
        viewed(r, final(parser)@.position) == spec_attribute_synthetic(
            old(parser)@.bytes,
            old(parser)@.position,
        ),
{
    Ok(AttributeInfo::Synthetic)
}

/// The body of a `Code` attribute at `pos`: the two limits, a 16-bit length
/// and that many bytes of code, the exception table, and a counted run of
/// attributes, which are one level further down.
pub open spec fn spec_attribute_code(
    bytes: Seq<u8>,
    pos: int,
    pool: Seq<ConstantPoolEntryView>,
    options: DecodeOptions,
    depth: Depth,
) -> Decoded<AttributeInfoView>
    decreases depth.left, 0int,
{
    match depth.spec_descend(pos) {
        Err(e) => Err(e),
        Ok(inner) => match spec_u2_run(bytes, pos, 3) {
            Err(e) => Err(e),
            Ok((head, at_code)) => match spec_take(bytes, at_code, head[2] as int) {
                Err(e) => Err(e),
                Ok((code, at_table)) => match spec_counted(
                    bytes,
                    at_table,
                    exception_table_entry_at(bytes),
                ) {
                    Err(e) => Err(e),
                    Ok((exception_table, at_attributes)) => match spec_attributes(
                        bytes,
                        at_attributes,
                        pool,
                        options,
                        inner,
                    ) {
                        Err(e) => Err(e),
                        Ok((attributes, end)) => Ok(
                            (
                                AttributeInfoView::Code {
                                    max_stack: head[0],
                                    max_locals: head[1],
                                    code,
                                    exception_table,
                                    attributes,
                                },
                                end,
                            ),
                        ),
                    },
                },
            },
        },
    }
}

/// The body of a `Record` attribute at `pos`: a counted run of record
/// components, which are one level further down.
pub open spec fn spec_attribute_record(
    bytes: Seq<u8>,
    pos: int,
    pool: Seq<ConstantPoolEntryView>,
    options: DecodeOptions,
    depth: Depth,
) -> Decoded<AttributeInfoView>
    decreases depth.left, 0int,
{
    match depth.spec_descend(pos) {
        Err(e) => Err(e),
        Ok(inner) => match spec_counted(
            bytes,
            pos,
            record_component_at(bytes, pool, options, inner),
        ) {
            Err(e) => Err(e),
            Ok((components, end)) => Ok((AttributeInfoView::Record { components }, end)),
        },
    }
}

/// The body at `pos` of the attribute that `kind` names. `length` is the
/// length that the attribute declares.
pub open spec fn spec_attribute_body(
    bytes: Seq<u8>,
    pos: int,
    kind: AttributeKind,
    length: u32,
    pool: Seq<ConstantPoolEntryView>,
    options: DecodeOptions,
    depth: Depth,
) -> Decoded<AttributeInfoView>
    decreases depth.left, 1int,
{
    match kind {
        AttributeKind::AnnotationDefault => spec_attribute_annotation_default(bytes, pos, depth),
        AttributeKind::BootstrapMethods => spec_attribute_bootstrap_methods(bytes, pos),
        AttributeKind::Code => spec_attribute_code(bytes, pos, pool, options, depth),
        AttributeKind::ConstantValue => spec_attribute_constant_value(bytes, pos),
        AttributeKind::Deprecated => spec_attribute_deprecated(bytes, pos),
        AttributeKind::EnclosingMethod => spec_attribute_enclosing_method(bytes, pos),
        AttributeKind::Exceptions => spec_attribute_exceptions(bytes, pos),
        AttributeKind::InnerClasses => spec_attribute_inner_classes(bytes, pos),
        AttributeKind::LineNumberTable => spec_attribute_line_number_table(bytes, pos),
        AttributeKind::LocalVariableTable => spec_attribute_local_variable_table(bytes, pos),
        AttributeKind::LocalVariableTypeTable => spec_attribute_local_variable_type_table(
            bytes,
            pos,
        ),
        AttributeKind::MethodParameters => spec_attribute_method_parameters(bytes, pos),
        AttributeKind::Module => spec_attribute_module(bytes, pos),
        AttributeKind::ModuleMainClass => spec_attribute_module_main_class(bytes, pos),
        AttributeKind::ModulePackages => spec_attribute_module_packages(bytes, pos),
        AttributeKind::NestHost => spec_attribute_nest_host(bytes, pos),
        AttributeKind::NestMembers => spec_attribute_nest_members(bytes, pos),
        AttributeKind::PermittedSubclasses => spec_attribute_permitted_subclasses(bytes, pos),
        AttributeKind::Record => spec_attribute_record(bytes, pos, pool, options, depth),
        AttributeKind::RuntimeInvisibleAnnotations => spec_attribute_runtime_invisible_annotations(
            bytes,
            pos,
            depth,
        ),
        AttributeKind::RuntimeInvisibleParameterAnnotations => {
            spec_attribute_runtime_invisible_parameter_annotations(bytes, pos, depth)
        },
        AttributeKind::RuntimeInvisibleTypeAnnotations => {
            spec_attribute_runtime_invisible_type_annotations(bytes, pos, depth)
        },
        AttributeKind::RuntimeVisibleAnnotations => spec_attribute_runtime_visible_annotations(
            bytes,
            pos,
            depth,
        ),
        AttributeKind::RuntimeVisibleParameterAnnotations => {
            spec_attribute_runtime_visible_parameter_annotations(bytes, pos, depth)
        },
        AttributeKind::RuntimeVisibleTypeAnnotations => {
            spec_attribute_runtime_visible_type_annotations(bytes, pos, depth)
        },
        AttributeKind::Signature => spec_attribute_signature(bytes, pos),
        AttributeKind::SourceDebugExtension => spec_attribute_source_debug_extension(
            bytes,
            pos,
            length,
        ),
        AttributeKind::SourceFile => spec_attribute_source_file(bytes, pos),
        AttributeKind::StackMapTable => spec_attribute_stack_map_table(bytes, pos),
        AttributeKind::Synthetic => spec_attribute_synthetic(bytes, pos),
    }
}

/// What the attribute named `name` holds, from its body at `pos` on.
/// `name_index` is the index of the name and `length` the length that the
/// attribute declares.
///
/// A name that a decoder is registered for has its body decoded, and the
/// body must take up exactly `length` bytes. Of any other name a permissive
/// decode keeps the `length` bytes of the body as they are, and a strict
/// decode fails. Both failures are reported at `pos`.
pub open spec fn spec_attribute_info(
    bytes: Seq<u8>,
    pos: int,
    name: Seq<char>,
    name_index: u16,
    length: u32,
    pool: Seq<ConstantPoolEntryView>,
    options: DecodeOptions,
    depth: Depth,
) -> Decoded<AttributeInfoView>
    decreases depth.left, 2int,
{
    match spec_attribute_kind(name) {
        Some(kind) => match spec_attribute_body(bytes, pos, kind, length, pool, options, depth) {
            Err(e) => Err(e),
            Ok((info, end)) => if end - pos == length {
                Ok((info, end))
            } else {
                Err(
                    DecodeErrorView::InvalidAttributeLength {
                        declared: length,
                        consumed: end - pos,
                        offset: pos,
                    },
                )
            },
        },
        None => if options.permissive {
            match spec_take(bytes, pos, length as int) {
                Err(e) => Err(e),
                Ok((info, end)) => Ok((AttributeInfoView::Unknown { name_index, info }, end)),
            }
        } else {
            Err(DecodeErrorView::UnknownAttribute { name, offset: pos })
        },
    }
}

/// The name of an attribute: the text of the `Utf8` entry that `name_index`
/// names, converted from modified UTF-8 and read as UTF-8, with U+FFFD in
/// place of what the conversion left that is not UTF-8. `offset` is where
/// the index was read; it goes into the error.
pub open spec fn spec_attribute_name(
    pool: Seq<ConstantPoolEntryView>,
    name_index: u16,
    offset: int,
) -> Result<Seq<char>, DecodeErrorView> {
    match spec_constant_pool_utf8(pool, name_index, offset) {
        Err(e) => Err(e),
        Ok(raw) => match mutf8_to_utf8_text(raw) {
            None => Err(DecodeErrorView::InvalidModifiedUtf8 { offset }),
            Some(utf8) => Ok(utf8_lossy_text(utf8)),
        },
    }
}

/// An attribute at `pos`: the index of its name, which must name a `Utf8`
/// entry of `pool` whose text converts; the length that it declares; and
/// the body that its name calls for.
pub open spec fn spec_attribute(
    bytes: Seq<u8>,
    pos: int,
    pool: Seq<ConstantPoolEntryView>,
    options: DecodeOptions,
    depth: Depth,
) -> Decoded<AttributeView>
    decreases depth.left, 3int,
{
    match spec_u2(bytes, pos) {
        Err(e) => Err(e),
        Ok((name_index, at_length)) => match spec_attribute_name(pool, name_index, pos) {
            Err(e) => Err(e),
            Ok(name) => match spec_u4(bytes, at_length) {
                Err(e) => Err(e),
                Ok((length, body)) => match spec_attribute_info(
                    bytes,
                    body,
                    name,
                    name_index,
                    length,
                    pool,
                    options,
                    depth,
                ) {
                    Err(e) => Err(e),
                    Ok((info, end)) => Ok((AttributeView { info }, end)),
                },
            },
        },
    }
}

/// The decoder of one attribute, as a function of the position.
pub open spec fn attribute_at(
    bytes: Seq<u8>,
    pool: Seq<ConstantPoolEntryView>,
    options: DecodeOptions,
    depth: Depth,
) -> spec_fn(int) -> Decoded<AttributeView>
    decreases depth.left, 4int,
{
    |pos: int| spec_attribute(bytes, pos, pool, options, depth)
}

/// A 16-bit count and that many attributes.
pub open spec fn spec_attributes(
    bytes: Seq<u8>,
    pos: int,
    pool: Seq<ConstantPoolEntryView>,
    options: DecodeOptions,
    depth: Depth,
) -> Decoded<Seq<AttributeView>>
    decreases depth.left, 5int,
{
    spec_counted(bytes, pos, attribute_at(bytes, pool, options, depth))
}

/// A record component at `pos`: the indices of its name and descriptor,
/// then its attributes.
pub open spec fn spec_record_component(
    bytes: Seq<u8>,
    pos: int,
    pool: Seq<ConstantPoolEntryView>,
    options: DecodeOptions,
    depth: Depth,
) -> Decoded<RecordComponentView>
    decreases depth.left, 6int,
{
    match spec_u2_run(bytes, pos, 2) {
        Err(e) => Err(e),
        Ok((head, at_attributes)) => match spec_attributes(
            bytes,
            at_attributes,
            pool,
            options,
            depth,
        ) {
            Err(e) => Err(e),
            Ok((attributes, end)) => Ok(
                (
                    RecordComponentView {
                        name_index: head[0],
                        descriptor_index: head[1],
                        attributes,
                    },
                    end,
                ),
            ),
        },
    }
}

/// The decoder of one record component, as a function of the position.
pub open spec fn record_component_at(
    bytes: Seq<u8>,
    pool: Seq<ConstantPoolEntryView>,
    options: DecodeOptions,
    depth: Depth,
) -> spec_fn(int) -> Decoded<RecordComponentView>
    decreases depth.left, 7int,
{
    |pos: int| spec_record_component(bytes, pos, pool, options, depth)
}

/// Reads the body of a `Code` attribute.
pub fn attribute_code_from_bytes<'class>(
    parser: &mut ClassParser<'class>,
    constant_pool: &[ConstantPoolEntry<'class>],
    options: DecodeOptions,
    depth: Depth,
) -> (r: Result<AttributeInfo<'class>, DecodeError>)
    ensures
        final(parser)@.bytes == old(parser)@.bytes,
        final(parser)@.position >= old(parser)@.position,
        viewed(r, final(parser)@.position) == spec_attribute_code(
            old(parser)@.bytes,
            old(parser)@.position,
            views(constant_pool@),
            options,
            depth,
        ),
    decreases depth.left, 0int,
{
    proof {
        reveal_with_fuel(spec_repeat, 4);
    }
    let inner = depth.descend(parser.position())?;
    let max_stack: u16 = parser.u2()?;
    let max_locals: u16 = parser.u2()?;
    let code_length: u16 = parser.u2()?;
    let code: &'class [u8] = parser.take(code_length as usize)?;
    let exception_table = exception_table_from_bytes(parser)?;
    let attributes = attributes_from_bytes(parser, constant_pool, options, inner)?;
    proof {
        lemma_attribute_views(attributes);
    }
    Ok(AttributeInfo::Code { max_stack, max_locals, code, exception_table, attributes })
}

/// Reads the body of a `Record` attribute.
#[verifier::loop_isolation(false)]
pub fn attribute_record_from_bytes<'class>(
    parser: &mut ClassParser<'class>,
    constant_pool: &[ConstantPoolEntry<'class>],
    options: DecodeOptions,
    depth: Depth,
) -> (r: Result<AttributeInfo<'class>, DecodeError>)
    ensures
        final(parser)@.bytes == old(parser)@.bytes,
        final(parser)@.position >= old(parser)@.position,
        viewed(r, final(parser)@.position) == spec_attribute_record(
            old(parser)@.bytes,
            old(parser)@.position,
            views(constant_pool@),
            options,
            depth,
        ),
    decreases depth.left, 0int,
{
    let inner = depth.descend(parser.position())?;
    let count: u16 = parser.u2()?;
    let ghost item_at = record_component_at(parser@.bytes, views(constant_pool@), options, inner);
    let ghost first = parser@.position;
    let mut components: Vec<RecordComponent<'class>> = Vec::new();
    let mut i: u16 = 0;
    proof {
        lemma_repeat_start(item_at, first, count as nat);
    }
    while i < count
        invariant
            parser@.bytes == old(parser)@.bytes,
            parser@.position >= first,
            i <= count,
            spec_repeat(item_at, first, count as nat) == prepend(
                views(components@),
                spec_repeat(item_at, parser@.position, (count - i) as nat),
            ),
        decreases count - i,
    {
        proof {
            lemma_repeat_step(item_at, views(components@), parser@.position, (count - i) as nat);
        }
        let component = record_component_from_bytes(parser, constant_pool, options, inner)?;
        proof {
            lemma_views_push(components@, component);
        }
        components.push(component);
        i = i + 1;
    }
    proof {
        lemma_repeat_done(item_at, views(components@), parser@.position);
        lemma_record_view(components);
    }
    Ok(AttributeInfo::Record { components })
}

/// Reads what the attribute named `name` holds: the body that the name
/// calls for, which must take up exactly `length` bytes. Of a name that no
/// decoder is registered for, a permissive decode keeps the `length` bytes of
/// the body as they are, and a strict decode fails.
pub fn attribute_info_from_bytes<'class>(
    parser: &mut ClassParser<'class>,
    name: &str,
    name_index: u16,
    length: u32,
    constant_pool: &[ConstantPoolEntry<'class>],
    options: DecodeOptions,
    depth: Depth,
) -> (r: Result<AttributeInfo<'class>, DecodeError>)
    ensures
        final(parser)@.bytes == old(parser)@.bytes,
        final(parser)@.position >= old(parser)@.position,
        viewed(r, final(parser)@.position) == spec_attribute_info(
            old(parser)@.bytes,
            old(parser)@.position,
            name@,
            name_index,
            length,
            views(constant_pool@),
            options,
            depth,
        ),
    decreases depth.left, 2int,
{
    let start: usize = parser.position();
    let kind = match attribute_kind(name) {
        Some(kind) => kind,
        None => {
            if options.permissive {
                let info: &'class [u8] = parser.take(length as usize)?;
                return Ok(AttributeInfo::Unknown { name_index, info });
            } else {
                return Err(DecodeError::UnknownAttribute { name: name.to_owned(), offset: start });
            }
        },
    };
    let info = match kind {
        AttributeKind::AnnotationDefault => attribute_annotation_default_from_bytes(parser, depth)?,
        AttributeKind::BootstrapMethods => attribute_bootstrap_methods_from_bytes(parser)?,
        AttributeKind::Code => attribute_code_from_bytes(parser, constant_pool, options, depth)?,
        AttributeKind::ConstantValue => attribute_constant_value_from_bytes(parser)?,
        AttributeKind::Deprecated => attribute_deprecated_from_bytes(parser)?,
        AttributeKind::EnclosingMethod => attribute_enclosing_method_from_bytes(parser)?,
        AttributeKind::Exceptions => attribute_exceptions_from_bytes(parser)?,
        AttributeKind::InnerClasses => attribute_inner_classes_from_bytes(parser)?,
        AttributeKind::LineNumberTable => attribute_line_number_table_from_bytes(parser)?,
        AttributeKind::LocalVariableTable => attribute_local_variable_table_from_bytes(parser)?,
        AttributeKind::LocalVariableTypeTable => attribute_local_variable_type_table_from_bytes(
            parser,
        )?,
        AttributeKind::MethodParameters => attribute_method_parameters_from_bytes(parser)?,
        AttributeKind::Module => attribute_module_from_bytes(parser)?,
        AttributeKind::ModuleMainClass => attribute_module_main_class_from_bytes(parser)?,
        AttributeKind::ModulePackages => attribute_module_packages_from_bytes(parser)?,
        AttributeKind::NestHost => attribute_nest_host_from_bytes(parser)?,
        AttributeKind::NestMembers => attribute_nest_members_from_bytes(parser)?,
        AttributeKind::PermittedSubclasses => attribute_permitted_subclasses_from_bytes(parser)?,
        AttributeKind::Record => attribute_record_from_bytes(
            parser,
            constant_pool,
            options,
            depth,
        )?,
        AttributeKind::RuntimeInvisibleAnnotations => {
            attribute_runtime_invisible_annotations_from_bytes(parser, depth)?
        },
        AttributeKind::RuntimeInvisibleParameterAnnotations => {
            attribute_runtime_invisible_parameter_annotations_from_bytes(parser, depth)?
        },
        AttributeKind::RuntimeInvisibleTypeAnnotations => {
            attribute_runtime_invisible_type_annotations_from_bytes(parser, depth)?
        },
        AttributeKind::RuntimeVisibleAnnotations => {
            attribute_runtime_visible_annotations_from_bytes(parser, depth)?
        },
        AttributeKind::RuntimeVisibleParameterAnnotations => {
            attribute_runtime_visible_parameter_annotations_from_bytes(parser, depth)?
        },
        AttributeKind::RuntimeVisibleTypeAnnotations => {
            attribute_runtime_visible_type_annotations_from_bytes(parser, depth)?
        },
        AttributeKind::Signature => attribute_signature_from_bytes(parser)?,
        AttributeKind::SourceDebugExtension => attribute_source_debug_extension_from_bytes(
            parser,
            length,
        )?,
        AttributeKind::SourceFile => attribute_source_file_from_bytes(parser)?,
        AttributeKind::StackMapTable => attribute_stack_map_table_from_bytes(parser)?,
        AttributeKind::Synthetic => attribute_synthetic_from_bytes(parser)?,
    };
    let consumed: usize = parser.position() - start;
    if consumed == length as usize {
        Ok(info)
    } else {
        Err(DecodeError::InvalidAttributeLength { declared: length, consumed, offset: start })
    }
}

/// Reads one attribute: the index of its name, the length that it declares,
/// and the body that its name calls for.
pub fn attribute_from_bytes<'class>(
    parser: &mut ClassParser<'class>,
    constant_pool: &[ConstantPoolEntry<'class>],
    options: DecodeOptions,
    depth: Depth,
) -> (r: Result<Attribute<'class>, DecodeError>)
    ensures
        final(parser)@.bytes == old(parser)@.bytes,
        final(parser)@.position >= old(parser)@.position,
        viewed(r, final(parser)@.position) == spec_attribute(
            old(parser)@.bytes,
            old(parser)@.position,
            views(constant_pool@),
            options,
            depth,
        ),
    decreases depth.left, 3int,
{
    let start: usize = parser.position();
    let attribute_name_index: u16 = parser.u2()?;
    let bytes: &'class [u8] = constant_pool_utf8(constant_pool, attribute_name_index, start)?;
    let utf8 = match mutf8::mutf8_to_utf8(bytes) {
        Ok(utf8) => utf8,
        Err(_) => {
            return Err(DecodeError::InvalidModifiedUtf8 { offset: start });
        },
    };
    let name = utf8.to_str_lossy();
    let length: u32 = parser.u4()?;
    let info = attribute_info_from_bytes(
        parser,
        cow_as_str(&name),
        attribute_name_index,
        length,
        constant_pool,
        options,
        depth,
    )?;
    Ok(Attribute { info })
}

/// Reads a 16-bit count and that many attributes.
#[verifier::loop_isolation(false)]
pub fn attributes_from_bytes<'class>(
    parser: &mut ClassParser<'class>,
    constant_pool: &[ConstantPoolEntry<'class>],
    options: DecodeOptions,
    depth: Depth,
) -> (r: Result<Vec<Attribute<'class>>, DecodeError>)
    ensures
        final(parser)@.bytes == old(parser)@.bytes,
        final(parser)@.position >= old(parser)@.position,
        viewed_list(r, final(parser)@.position) == spec_attributes(
            old(parser)@.bytes,
            old(parser)@.position,
            views(constant_pool@),
            options,
            depth,
        ),
    decreases depth.left, 4int,
{
    let count: u16 = parser.u2()?;
    let ghost item_at = attribute_at(parser@.bytes, views(constant_pool@), options, depth);
    let ghost first = parser@.position;
    let mut attributes: Vec<Attribute<'class>> = Vec::new();
    let mut i: u16 = 0;
    proof {
        lemma_repeat_start(item_at, first, count as nat);
    }
    while i < count
        invariant
            parser@.bytes == old(parser)@.bytes,
            parser@.position >= first,
            i <= count,
            spec_repeat(item_at, first, count as nat) == prepend(
                views(attributes@),
                spec_repeat(item_at, parser@.position, (count - i) as nat),
            ),
        decreases count - i,
    {
        proof {
            lemma_repeat_step(item_at, views(attributes@), parser@.position, (count - i) as nat);
        }
        let attribute = attribute_from_bytes(parser, constant_pool, options, depth)?;
        proof {
            lemma_views_push(attributes@, attribute);
        }
        attributes.push(attribute);
        i = i + 1;
    }
    proof {
        lemma_repeat_done(item_at, views(attributes@), parser@.position);
    }
    Ok(attributes)
}

/// Reads one record component: the indices of its name and descriptor, then
/// its attributes.
pub fn record_component_from_bytes<'class>(
    parser: &mut ClassParser<'class>,
    constant_pool: &[ConstantPoolEntry<'class>],
    options: DecodeOptions,
    depth: Depth,
) -> (r: Result<RecordComponent<'class>, DecodeError>)
    ensures
        final(parser)@.bytes == old(parser)@.bytes,
        final(parser)@.position >= old(parser)@.position,
        viewed(r, final(parser)@.position) == spec_record_component(
            old(parser)@.bytes,
            old(parser)@.position,
            views(constant_pool@),
            options,
            depth,
        ),
    decreases depth.left, 5int,
{
    proof {
        reveal_with_fuel(spec_repeat, 3);
    }
    let name_index: u16 = parser.u2()?;
    let descriptor_index: u16 = parser.u2()?;
    let attributes = attributes_from_bytes(parser, constant_pool, options, depth)?;
    proof {
        lemma_attribute_views(attributes);
    }
    Ok(RecordComponent { name_index, descriptor_index, attributes })
}

} // verus!

//! What a decoder makes of a buffer that is cut off.
//!
//! A decoder reads forward and decides by what it has read. So on a buffer
//! cut off at `limit` it does what it does on the whole buffer, up to the
//! first read that reaches past `limit`; that read fails for want of bytes.

use crate::annotation::{
    annotation_at, element_value_at, element_value_pair_at, local_var_at, spec_annotation,
    spec_element_value, spec_element_value_pair, spec_local_var, spec_target_info,
    spec_type_annotation, spec_type_path, spec_type_path_segment, type_annotation_at,
    type_path_segment_at,
};
use crate::attribute::{AttributeKind, spec_attribute_kind};
use crate::attribute_decoder::{
    attribute_at, record_component_at, spec_attribute, spec_attribute_annotation_default,
    spec_attribute_body, spec_attribute_bootstrap_methods, spec_attribute_code,
    spec_attribute_constant_value, spec_attribute_deprecated, spec_attribute_enclosing_method,
    spec_attribute_exceptions, spec_attribute_info, spec_attribute_inner_classes,
    spec_attribute_line_number_table, spec_attribute_local_variable_table,
    spec_attribute_local_variable_type_table, spec_attribute_method_parameters,
    spec_attribute_module, spec_attribute_module_main_class, spec_attribute_module_packages,
    spec_attribute_name, spec_attribute_nest_host, spec_attribute_nest_members,
    spec_attribute_permitted_subclasses, spec_attribute_record,
    spec_attribute_runtime_invisible_annotations,
    spec_attribute_runtime_invisible_parameter_annotations,
    spec_attribute_runtime_invisible_type_annotations, spec_attribute_runtime_visible_annotations,
    spec_attribute_runtime_visible_parameter_annotations,
    spec_attribute_runtime_visible_type_annotations, spec_attribute_signature,
    spec_attribute_source_debug_extension, spec_attribute_source_file,
    spec_attribute_stack_map_table, spec_attribute_synthetic, spec_attributes,
    spec_record_component,
};
use crate::classfile::{
    field_at, MAGIC, method_at, spec_classfile, spec_classfile_body, spec_classfile_version,
    spec_field, spec_method, Version,
};
use crate::constant_pool::{
    constant_pool_entry_at, ConstantPoolEntryView, spec_constant_pool, spec_constant_pool_body,
    spec_constant_pool_entry, spec_kind_of_tag, spec_live_entries,
};
use crate::cursor::{fits, spec_take, spec_u1, spec_u2, spec_u4};
use crate::error::{ConstantKind, DecodeErrorView};
use crate::options::{DecodeOptions, Depth};
use crate::outcome::Decoded;
use crate::records::{
    bootstrap_method_at, exception_table_entry_at, inner_class_at, line_number_at,
    local_variable_at, local_variable_type_at, method_parameter_at, module_export_at,
    module_opens_at, module_provides_at, module_require_at, spec_bootstrap_method,
    spec_exception_table_entry, spec_inner_class, spec_line_number, spec_local_variable,
    spec_local_variable_type, spec_method_parameter, spec_module_export, spec_module_opens,
    spec_module_provides, spec_module_require,
};
use crate::repeat::{spec_counted, spec_repeat, spec_u2_list, spec_u2_run, u1_at, u2_at};
use crate::stack_map::{
    spec_stack_map_frame, spec_verification_type_info, spec_verification_types, stack_map_frame_at,
    verification_type_info_at,
};
use vstd::prelude::*;

verus! {

/// Whether `cut` is a failure for want of bytes, found between `pos` and `limit`.
pub open spec fn runs_out<T>(cut: Decoded<T>, pos: int, limit: int) -> bool {
    match cut {
        Err(DecodeErrorView::UnexpectedEof { offset, .. }) => pos <= offset <= limit,
        _ => false,
    }
}

/// How the outcome `cut`, on a buffer cut off at `limit`, goes with the
/// outcome `full` on the whole buffer, both from `pos` on. A value of `full`
/// ends at or after `pos`. Where `pos` is at or before `limit`: if that
/// value ends at or before `limit`, `cut` is the same, and if it ends after
/// `limit`, `cut` runs out of bytes. Nothing is said where `full` is a
/// failure.
pub open spec fn survives_cut<T>(full: Decoded<T>, cut: Decoded<T>, pos: int, limit: int) -> bool {
    match full {
        Ok((_, end)) => pos <= end && (pos <= limit ==> if end <= limit {
            cut == full
        } else {
            runs_out(cut, pos, limit)
        }),
        Err(_) => true,
    }
}

/// Whether the decoder `cut` goes with the decoder `full` at every position.
pub open spec fn item_survives_cut<T>(
    full: spec_fn(int) -> Decoded<T>,
    cut: spec_fn(int) -> Decoded<T>,
    limit: int,
) -> bool {
    forall|p: int| survives_cut(#[trigger] full(p), cut(p), p, limit)
}

/// A read of one byte on a buffer that is cut off.
pub proof fn lemma_u1_cut(bytes: Seq<u8>, pos: int, limit: int)
    requires
        0 <= limit <= bytes.len(),
    ensures
        survives_cut(spec_u1(bytes, pos), spec_u1(bytes.take(limit), pos), pos, limit),
{
}

/// A read of a 16-bit value on a buffer that is cut off.
pub proof fn lemma_u2_cut(bytes: Seq<u8>, pos: int, limit: int)
    requires
        0 <= limit <= bytes.len(),
    ensures
        survives_cut(spec_u2(bytes, pos), spec_u2(bytes.take(limit), pos), pos, limit),
{
}

/// A read of a 32-bit value on a buffer that is cut off.
pub proof fn lemma_u4_cut(bytes: Seq<u8>, pos: int, limit: int)
    requires
        0 <= limit <= bytes.len(),
    ensures
        survives_cut(spec_u4(bytes, pos), spec_u4(bytes.take(limit), pos), pos, limit),
{
}

/// A read of a span on a buffer that is cut off.
pub proof fn lemma_take_cut(bytes: Seq<u8>, pos: int, len: int, limit: int)
    requires
        0 <= limit <= bytes.len(),
    ensures
        survives_cut(
            spec_take(bytes, pos, len),
            spec_take(bytes.take(limit), pos, len),
            pos,
            limit,
        ),
{
    if fits(bytes, pos, len) && pos + len <= limit {
        assert(bytes.take(limit).subrange(pos, pos + len) =~= bytes.subrange(pos, pos + len));
    }
}

/// A run on a buffer that is cut off, where its items go with the cut.
pub proof fn lemma_repeat_cut<T>(
    full: spec_fn(int) -> Decoded<T>,
    cut: spec_fn(int) -> Decoded<T>,
    pos: int,
    limit: int,
    count: nat,
)
    requires
        item_survives_cut(full, cut, limit),
    ensures
        survives_cut(spec_repeat(full, pos, count), spec_repeat(cut, pos, count), pos, limit),
    decreases count,
{
    if count > 0 {
        assert(survives_cut(full(pos), cut(pos), pos, limit));
        match full(pos) {
            Ok((_, next)) => {
                lemma_repeat_cut(full, cut, next, limit, (count - 1) as nat);
            },
            Err(_) => {},
        }
    }
}

/// A counted run on a buffer that is cut off, where its items go with the cut.
pub proof fn lemma_counted_cut<T>(
    bytes: Seq<u8>,
    full: spec_fn(int) -> Decoded<T>,
    cut: spec_fn(int) -> Decoded<T>,
    pos: int,
    limit: int,
)
    requires
        0 <= limit <= bytes.len(),
        item_survives_cut(full, cut, limit),
    ensures
        survives_cut(
            spec_counted(bytes, pos, full),
            spec_counted(bytes.take(limit), pos, cut),
            pos,
            limit,
        ),
{
    match spec_u2(bytes, pos) {
        Ok((count, first)) => {
            lemma_repeat_cut(full, cut, first, limit, count as nat);
        },
        Err(_) => {},
    }
}

/// The decoder of one byte goes with the cut.
pub proof fn lemma_u1_at_cut(bytes: Seq<u8>, limit: int)
    requires
        0 <= limit <= bytes.len(),
    ensures
        item_survives_cut(u1_at(bytes), u1_at(bytes.take(limit)), limit),
{
}

/// The decoder of one 16-bit value goes with the cut.
pub proof fn lemma_u2_at_cut(bytes: Seq<u8>, limit: int)
    requires
        0 <= limit <= bytes.len(),
    ensures
        item_survives_cut(u2_at(bytes), u2_at(bytes.take(limit)), limit),
{
}

/// A run of bytes on a buffer that is cut off.
pub proof fn lemma_u1_run_cut(bytes: Seq<u8>, pos: int, limit: int, count: nat)
    requires
        0 <= limit <= bytes.len(),
    ensures
        survives_cut(
            spec_repeat(u1_at(bytes), pos, count),
            spec_repeat(u1_at(bytes.take(limit)), pos, count),
            pos,
            limit,
        ),
{
    lemma_u1_at_cut(bytes, limit);
    lemma_repeat_cut(u1_at(bytes), u1_at(bytes.take(limit)), pos, limit, count);
}

/// A run of 16-bit values on a buffer that is cut off.
pub proof fn lemma_u2_run_cut(bytes: Seq<u8>, pos: int, limit: int, count: nat)
    requires
        0 <= limit <= bytes.len(),
    ensures
        survives_cut(
            spec_u2_run(bytes, pos, count),
            spec_u2_run(bytes.take(limit), pos, count),
            pos,
            limit,
        ),
{
    lemma_u2_at_cut(bytes, limit);
    lemma_repeat_cut(u2_at(bytes), u2_at(bytes.take(limit)), pos, limit, count);
}

/// A counted run of 16-bit values on a buffer that is cut off.
pub proof fn lemma_u2_list_cut(bytes: Seq<u8>, pos: int, limit: int)
    requires
        0 <= limit <= bytes.len(),
    ensures
        survives_cut(
            spec_u2_list(bytes, pos),
            spec_u2_list(bytes.take(limit), pos),
            pos,
            limit,
        ),
{
    lemma_u2_at_cut(bytes, limit);
    lemma_counted_cut(bytes, u2_at(bytes), u2_at(bytes.take(limit)), pos, limit);
}

/// A local-variable range on a buffer that is cut off.
pub proof fn lemma_local_var_cut(bytes: Seq<u8>, pos: int, limit: int)
    requires
        0 <= limit <= bytes.len(),
    ensures
        survives_cut(
            spec_local_var(bytes, pos),
            spec_local_var(bytes.take(limit), pos),
            pos,
            limit,
        ),
{
    lemma_u2_run_cut(bytes, pos, limit, 3);
}

/// The decoder of one local-variable range goes with the cut.
pub proof fn lemma_local_var_at_cut(bytes: Seq<u8>, limit: int)
    requires
        0 <= limit <= bytes.len(),
    ensures
        item_survives_cut(local_var_at(bytes), local_var_at(bytes.take(limit)), limit),
{
    assert forall|p: int|
        survives_cut(
            #[trigger] local_var_at(bytes)(p),
            local_var_at(bytes.take(limit))(p),
            p,
            limit,
        ) by {
        lemma_local_var_cut(bytes, p, limit);
    }
}

/// A target info on a buffer that is cut off.
pub proof fn lemma_target_info_cut(bytes: Seq<u8>, pos: int, limit: int, target_type: u8)
    requires
        0 <= limit <= bytes.len(),
    ensures
        survives_cut(
            spec_target_info(bytes, pos, target_type),
            spec_target_info(bytes.take(limit), pos, target_type),
            pos,
            limit,
        ),
{
    lemma_u1_cut(bytes, pos, limit);
    lemma_u2_cut(bytes, pos, limit);
    lemma_u1_run_cut(bytes, pos, limit, 2);
    lemma_local_var_at_cut(bytes, limit);
    lemma_counted_cut(bytes, local_var_at(bytes), local_var_at(bytes.take(limit)), pos, limit);
    lemma_u1_cut(bytes, pos + 2, limit);
}

/// One step of a type path on a buffer that is cut off.
pub proof fn lemma_type_path_segment_cut(bytes: Seq<u8>, pos: int, limit: int)
    requires
        0 <= limit <= bytes.len(),
    ensures
        survives_cut(
            spec_type_path_segment(bytes, pos),
            spec_type_path_segment(bytes.take(limit), pos),
            pos,
            limit,
        ),
{
    lemma_u1_run_cut(bytes, pos, limit, 2);
}

/// The decoder of one step of a type path goes with the cut.
pub proof fn lemma_type_path_segment_at_cut(bytes: Seq<u8>, limit: int)
    requires
        0 <= limit <= bytes.len(),
    ensures
        item_survives_cut(
            type_path_segment_at(bytes),
            type_path_segment_at(bytes.take(limit)),
            limit,
        ),
{
    assert forall|p: int|
        survives_cut(
            #[trigger] type_path_segment_at(bytes)(p),
            type_path_segment_at(bytes.take(limit))(p),
            p,
            limit,
        ) by {
        lemma_type_path_segment_cut(bytes, p, limit);
    }
}

/// A type path on a buffer that is cut off.
pub proof fn lemma_type_path_cut(bytes: Seq<u8>, pos: int, limit: int)
    requires
        0 <= limit <= bytes.len(),
    ensures
        survives_cut(
            spec_type_path(bytes, pos),
            spec_type_path(bytes.take(limit), pos),
            pos,
            limit,
        ),
{
    lemma_u1_cut(bytes, pos, limit);
    lemma_type_path_segment_at_cut(bytes, limit);
    match spec_u1(bytes, pos) {
        Ok((count, first)) => {
            lemma_repeat_cut(
                type_path_segment_at(bytes),
                type_path_segment_at(bytes.take(limit)),
                first,
                limit,
                count as nat,
            );
        },
        Err(_) => {},
    }
}

/// An element value on a buffer that is cut off.
pub proof fn lemma_element_value_cut(bytes: Seq<u8>, pos: int, limit: int, depth: Depth)
    requires
        0 <= limit <= bytes.len(),
    ensures
        survives_cut(
            spec_element_value(bytes, pos, depth),
            spec_element_value(bytes.take(limit), pos, depth),
            pos,
            limit,
        ),
    decreases depth.left, 0int,
{
    lemma_u1_cut(bytes, pos, limit);
    match spec_u1(bytes, pos) {
        Ok((tag, body)) => {
            lemma_u2_cut(bytes, body, limit);
            lemma_u2_run_cut(bytes, body, limit, 2);
            match depth.spec_descend(pos) {
                Ok(inner) => {
                    lemma_annotation_cut(bytes, body, limit, inner);
                    lemma_element_value_at_cut(bytes, limit, inner);
                    lemma_counted_cut(
                        bytes,
                        element_value_at(bytes, inner),
                        element_value_at(bytes.take(limit), inner),
                        body,
                        limit,
                    );
                },
                Err(_) => {},
            }
        },
        Err(_) => {},
    }
}

/// The decoder of one element value goes with the cut.
pub proof fn lemma_element_value_at_cut(bytes: Seq<u8>, limit: int, depth: Depth)
    requires
        0 <= limit <= bytes.len(),
    ensures
        item_survives_cut(
            element_value_at(bytes, depth),
            element_value_at(bytes.take(limit), depth),
            limit,
        ),
    decreases depth.left, 1int,
{
    assert forall|p: int|
        survives_cut(
            #[trigger] element_value_at(bytes, depth)(p),
            element_value_at(bytes.take(limit), depth)(p),
            p,
            limit,
        ) by {
        lemma_element_value_cut(bytes, p, limit, depth);
    }
}

/// An element-value pair on a buffer that is cut off.
pub proof fn lemma_element_value_pair_cut(bytes: Seq<u8>, pos: int, limit: int, depth: Depth)
    requires
        0 <= limit <= bytes.len(),
    ensures
        survives_cut(
            spec_element_value_pair(bytes, pos, depth),
            spec_element_value_pair(bytes.take(limit), pos, depth),
            pos,
            limit,
        ),
    decreases depth.left, 2int,
{
    lemma_u2_cut(bytes, pos, limit);
    lemma_element_value_cut(bytes, pos + 2, limit, depth);
}

/// The decoder of one element-value pair goes with the cut.
pub proof fn lemma_element_value_pair_at_cut(bytes: Seq<u8>, limit: int, depth: Depth)
    requires
        0 <= limit <= bytes.len(),
    ensures
        item_survives_cut(
            element_value_pair_at(bytes, depth),
            element_value_pair_at(bytes.take(limit), depth),
            limit,
        ),
    decreases depth.left, 3int,
{
    assert forall|p: int|
        survives_cut(
            #[trigger] element_value_pair_at(bytes, depth)(p),
            element_value_pair_at(bytes.take(limit), depth)(p),
            p,
            limit,
        ) by {
        lemma_element_value_pair_cut(bytes, p, limit, depth);
    }
}

/// An annotation on a buffer that is cut off.
pub proof fn lemma_annotation_cut(bytes: Seq<u8>, pos: int, limit: int, depth: Depth)
    requires
        0 <= limit <= bytes.len(),
    ensures
        survives_cut(
            spec_annotation(bytes, pos, depth),
            spec_annotation(bytes.take(limit), pos, depth),
            pos,
            limit,
        ),
    decreases depth.left, 4int,
{
    lemma_u2_cut(bytes, pos, limit);
    lemma_element_value_pair_at_cut(bytes, limit, depth);
    lemma_counted_cut(
        bytes,
        element_value_pair_at(bytes, depth),
        element_value_pair_at(bytes.take(limit), depth),
        pos + 2,
        limit,
    );
}

/// The decoder of one annotation goes with the cut.
pub proof fn lemma_annotation_at_cut(bytes: Seq<u8>, limit: int, depth: Depth)
    requires
        0 <= limit <= bytes.len(),
    ensures
        item_survives_cut(
            annotation_at(bytes, depth),
            annotation_at(bytes.take(limit), depth),
            limit,
        ),
{
    assert forall|p: int|
        survives_cut(
            #[trigger] annotation_at(bytes, depth)(p),
            annotation_at(bytes.take(limit), depth)(p),
            p,
            limit,
        ) by {
        lemma_annotation_cut(bytes, p, limit, depth);
    }
}

/// A type annotation on a buffer that is cut off.
pub proof fn lemma_type_annotation_cut(bytes: Seq<u8>, pos: int, limit: int, depth: Depth)
    requires
        0 <= limit <= bytes.len(),
    ensures
        survives_cut(
            spec_type_annotation(bytes, pos, depth),
            spec_type_annotation(bytes.take(limit), pos, depth),
            pos,
            limit,
        ),
{
    lemma_u1_cut(bytes, pos, limit);
    match spec_u1(bytes, pos) {
        Ok((target_type, at_info)) => {
            lemma_target_info_cut(bytes, at_info, limit, target_type);
            match spec_target_info(bytes, at_info, target_type) {
                Ok((_, at_path)) => {
                    lemma_type_path_cut(bytes, at_path, limit);
                    match spec_type_path(bytes, at_path) {
                        Ok((_, at_type)) => {
                            lemma_u2_cut(bytes, at_type, limit);
                            lemma_element_value_pair_at_cut(bytes, limit, depth);
                            lemma_counted_cut(
                                bytes,
                                element_value_pair_at(bytes, depth),
                                element_value_pair_at(bytes.take(limit), depth),
                                at_type + 2,
                                limit,
                            );
                        },
                        Err(_) => {},
                    }
                },
                Err(_) => {},
            }
        },
        Err(_) => {},
    }
}

/// The decoder of one type annotation goes with the cut.
pub proof fn lemma_type_annotation_at_cut(bytes: Seq<u8>, limit: int, depth: Depth)
    requires
        0 <= limit <= bytes.len(),
    ensures
        item_survives_cut(
            type_annotation_at(bytes, depth),
            type_annotation_at(bytes.take(limit), depth),
            limit,
        ),
{
    assert forall|p: int|
        survives_cut(
            #[trigger] type_annotation_at(bytes, depth)(p),
            type_annotation_at(bytes.take(limit), depth)(p),
            p,
            limit,
        ) by {
        lemma_type_annotation_cut(bytes, p, limit, depth);
    }
}

/// The body of a constant-pool entry on a buffer that is cut off.
pub proof fn lemma_constant_pool_body_cut(bytes: Seq<u8>, pos: int, limit: int, kind: ConstantKind)
    requires
        0 <= limit <= bytes.len(),
    ensures
        survives_cut(
            spec_constant_pool_body(bytes, pos, kind),
            spec_constant_pool_body(bytes.take(limit), pos, kind),
            pos,
            limit,
        ),
{
    lemma_u1_cut(bytes, pos, limit);
    lemma_u2_cut(bytes, pos, limit);
    lemma_u4_cut(bytes, pos, limit);
    lemma_u4_cut(bytes, pos + 4, limit);
    lemma_u2_cut(bytes, pos + 1, limit);
    lemma_u2_run_cut(bytes, pos, limit, 2);
    match spec_u2(bytes, pos) {
        Ok((length, text)) => {
            lemma_take_cut(bytes, text, length as int, limit);
        },
        Err(_) => {},
    }
}

/// A constant-pool entry on a buffer that is cut off.
pub proof fn lemma_constant_pool_entry_cut(bytes: Seq<u8>, pos: int, limit: int)
    requires
        0 <= limit <= bytes.len(),
    ensures
        survives_cut(
            spec_constant_pool_entry(bytes, pos),
            spec_constant_pool_entry(bytes.take(limit), pos),
            pos,
            limit,
        ),
{
    lemma_u1_cut(bytes, pos, limit);
    match spec_u1(bytes, pos) {
        Ok((tag, body)) => {
            match spec_kind_of_tag(tag) {
                Some(kind) => {
                    lemma_constant_pool_body_cut(bytes, body, limit, kind);
                },
                None => {},
            }
        },
        Err(_) => {},
    }
}

/// The decoder of one constant-pool entry goes with the cut.
pub proof fn lemma_constant_pool_entry_at_cut(bytes: Seq<u8>, limit: int)
    requires
        0 <= limit <= bytes.len(),
    ensures
        item_survives_cut(
            constant_pool_entry_at(bytes),
            constant_pool_entry_at(bytes.take(limit)),
            limit,
        ),
{
    assert forall|p: int|
        survives_cut(
            #[trigger] constant_pool_entry_at(bytes)(p),
            constant_pool_entry_at(bytes.take(limit))(p),
            p,
            limit,
        ) by {
        lemma_constant_pool_entry_cut(bytes, p, limit);
    }
}

/// The constant pool on a buffer that is cut off.
pub proof fn lemma_constant_pool_cut(bytes: Seq<u8>, pos: int, limit: int)
    requires
        0 <= limit <= bytes.len(),
    ensures
        survives_cut(
            spec_constant_pool(bytes, pos),
            spec_constant_pool(bytes.take(limit), pos),
            pos,
            limit,
        ),
{
    lemma_u2_cut(bytes, pos, limit);
    lemma_constant_pool_entry_at_cut(bytes, limit);
    match spec_u2(bytes, pos) {
        Ok((count, first)) => {
            lemma_repeat_cut(
                constant_pool_entry_at(bytes),
                constant_pool_entry_at(bytes.take(limit)),
                first,
                limit,
                spec_live_entries(count),
            );
        },
        Err(_) => {},
    }
}

/// A verification type on a buffer that is cut off.
pub proof fn lemma_verification_type_info_cut(bytes: Seq<u8>, pos: int, limit: int)
    requires
        0 <= limit <= bytes.len(),
    ensures
        survives_cut(
            spec_verification_type_info(bytes, pos),
            spec_verification_type_info(bytes.take(limit), pos),
            pos,
            limit,
        ),
{
    lemma_u1_cut(bytes, pos, limit);
    lemma_u2_cut(bytes, pos + 1, limit);
}

/// The decoder of one verification type goes with the cut.
pub proof fn lemma_verification_type_info_at_cut(bytes: Seq<u8>, limit: int)
    requires
        0 <= limit <= bytes.len(),
    ensures
        item_survives_cut(
            verification_type_info_at(bytes),
            verification_type_info_at(bytes.take(limit)),
            limit,
        ),
{
    assert forall|p: int|
        survives_cut(
            #[trigger] verification_type_info_at(bytes)(p),
            verification_type_info_at(bytes.take(limit))(p),
            p,
            limit,
        ) by {
        lemma_verification_type_info_cut(bytes, p, limit);
    }
}

/// A counted run of verification types on a buffer that is cut off.
pub proof fn lemma_verification_types_cut(bytes: Seq<u8>, pos: int, limit: int)
    requires
        0 <= limit <= bytes.len(),
    ensures
        survives_cut(
            spec_verification_types(bytes, pos),
            spec_verification_types(bytes.take(limit), pos),
            pos,
            limit,
        ),
{
    lemma_verification_type_info_at_cut(bytes, limit);
    lemma_counted_cut(
        bytes,
        verification_type_info_at(bytes),
        verification_type_info_at(bytes.take(limit)),
        pos,
        limit,
    );
}

/// A stack map frame on a buffer that is cut off.
pub proof fn lemma_stack_map_frame_cut(bytes: Seq<u8>, pos: int, limit: int)
    requires
        0 <= limit <= bytes.len(),
    ensures
        survives_cut(
            spec_stack_map_frame(bytes, pos),
            spec_stack_map_frame(bytes.take(limit), pos),
            pos,
            limit,
        ),
{
    lemma_u1_cut(bytes, pos, limit);
    lemma_verification_type_info_cut(bytes, pos + 1, limit);
    lemma_u2_cut(bytes, pos + 1, limit);
    lemma_verification_type_info_cut(bytes, pos + 3, limit);
    lemma_verification_types_cut(bytes, pos + 3, limit);
    match spec_verification_types(bytes, pos + 3) {
        Ok((_, at_stack)) => {
            lemma_verification_types_cut(bytes, at_stack, limit);
        },
        Err(_) => {},
    }
}

/// The decoder of one stack map frame goes with the cut.
pub proof fn lemma_stack_map_frame_at_cut(bytes: Seq<u8>, limit: int)
    requires
        0 <= limit <= bytes.len(),
    ensures
        item_survives_cut(stack_map_frame_at(bytes), stack_map_frame_at(bytes.take(limit)), limit),
{
    assert forall|p: int|
        survives_cut(
            #[trigger] stack_map_frame_at(bytes)(p),
            stack_map_frame_at(bytes.take(limit))(p),
            p,
            limit,
        ) by {
        lemma_stack_map_frame_cut(bytes, p, limit);
    }
}

/// An exception-table entry on a buffer that is cut off.
pub proof fn lemma_exception_table_entry_cut(bytes: Seq<u8>, pos: int, limit: int)
    requires
        0 <= limit <= bytes.len(),
    ensures
        survives_cut(
            spec_exception_table_entry(bytes, pos),
            spec_exception_table_entry(bytes.take(limit), pos),
            pos,
            limit,
        ),
{
    lemma_u2_run_cut(bytes, pos, limit, 4);
}

/// The decoder of one exception-table entry goes with the cut.
pub proof fn lemma_exception_table_entry_at_cut(bytes: Seq<u8>, limit: int)
    requires
        0 <= limit <= bytes.len(),
    ensures
        item_survives_cut(
            exception_table_entry_at(bytes),
            exception_table_entry_at(bytes.take(limit)),
            limit,
        ),
{
    assert forall|p: int|
        survives_cut(
            #[trigger] exception_table_entry_at(bytes)(p),
            exception_table_entry_at(bytes.take(limit))(p),
            p,
            limit,
        ) by {
        lemma_exception_table_entry_cut(bytes, p, limit);
    }
}

/// An inner-class entry on a buffer that is cut off.
pub proof fn lemma_inner_class_cut(bytes: Seq<u8>, pos: int, limit: int)
    requires
        0 <= limit <= bytes.len(),
    ensures
        survives_cut(
            spec_inner_class(bytes, pos),
            spec_inner_class(bytes.take(limit), pos),
            pos,
            limit,
        ),
{
    lemma_u2_run_cut(bytes, pos, limit, 4);
}

/// The decoder of one inner-class entry goes with the cut.
pub proof fn lemma_inner_class_at_cut(bytes: Seq<u8>, limit: int)
    requires
        0 <= limit <= bytes.len(),
    ensures
        item_survives_cut(inner_class_at(bytes), inner_class_at(bytes.take(limit)), limit),
{
    assert forall|p: int|
        survives_cut(
            #[trigger] inner_class_at(bytes)(p),
            inner_class_at(bytes.take(limit))(p),
            p,
            limit,
        ) by {
        lemma_inner_class_cut(bytes, p, limit);
    }
}

/// A line-number entry on a buffer that is cut off.
pub proof fn lemma_line_number_cut(bytes: Seq<u8>, pos: int, limit: int)
    requires
        0 <= limit <= bytes.len(),
    ensures
        survives_cut(
            spec_line_number(bytes, pos),
            spec_line_number(bytes.take(limit), pos),
            pos,
            limit,
        ),
{
    lemma_u2_run_cut(bytes, pos, limit, 2);
}

/// The decoder of one line-number entry goes with the cut.
pub proof fn lemma_line_number_at_cut(bytes: Seq<u8>, limit: int)
    requires
        0 <= limit <= bytes.len(),
    ensures
        item_survives_cut(line_number_at(bytes), line_number_at(bytes.take(limit)), limit),
{
    assert forall|p: int|
        survives_cut(
            #[trigger] line_number_at(bytes)(p),
            line_number_at(bytes.take(limit))(p),
            p,
            limit,
        ) by {
        lemma_line_number_cut(bytes, p, limit);
    }
}

/// A local-variable entry on a buffer that is cut off.
pub proof fn lemma_local_variable_cut(bytes: Seq<u8>, pos: int, limit: int)
    requires
        0 <= limit <= bytes.len(),
    ensures
        survives_cut(
            spec_local_variable(bytes, pos),
            spec_local_variable(bytes.take(limit), pos),
            pos,
            limit,
        ),
{
    lemma_u2_run_cut(bytes, pos, limit, 5);
}

/// The decoder of one local-variable entry goes with the cut.
pub proof fn lemma_local_variable_at_cut(bytes: Seq<u8>, limit: int)
    requires
        0 <= limit <= bytes.len(),
    ensures
        item_survives_cut(local_variable_at(bytes), local_variable_at(bytes.take(limit)), limit),
{
    assert forall|p: int|
        survives_cut(
            #[trigger] local_variable_at(bytes)(p),
            local_variable_at(bytes.take(limit))(p),
            p,
            limit,
        ) by {
        lemma_local_variable_cut(bytes, p, limit);
    }
}

/// A local-variable-type entry on a buffer that is cut off.
pub proof fn lemma_local_variable_type_cut(bytes: Seq<u8>, pos: int, limit: int)
    requires
        0 <= limit <= bytes.len(),
    ensures
        survives_cut(
            spec_local_variable_type(bytes, pos),
            spec_local_variable_type(bytes.take(limit), pos),
            pos,
            limit,
        ),
{
    lemma_u2_run_cut(bytes, pos, limit, 5);
}

/// The decoder of one local-variable-type entry goes with the cut.
pub proof fn lemma_local_variable_type_at_cut(bytes: Seq<u8>, limit: int)
    requires
        0 <= limit <= bytes.len(),
    ensures
        item_survives_cut(
            local_variable_type_at(bytes),
            local_variable_type_at(bytes.take(limit)),
            limit,
        ),
{
    assert forall|p: int|
        survives_cut(
            #[trigger] local_variable_type_at(bytes)(p),
            local_variable_type_at(bytes.take(limit))(p),
            p,
            limit,
        ) by {
        lemma_local_variable_type_cut(bytes, p, limit);
    }
}

/// A method-parameter entry on a buffer that is cut off.
pub proof fn lemma_method_parameter_cut(bytes: Seq<u8>, pos: int, limit: int)
    requires
        0 <= limit <= bytes.len(),
    ensures
        survives_cut(
            spec_method_parameter(bytes, pos),
            spec_method_parameter(bytes.take(limit), pos),
            pos,
            limit,
        ),
{
    lemma_u2_run_cut(bytes, pos, limit, 2);
}

/// The decoder of one method-parameter entry goes with the cut.
pub proof fn lemma_method_parameter_at_cut(bytes: Seq<u8>, limit: int)
    requires
        0 <= limit <= bytes.len(),
    ensures
        item_survives_cut(
            method_parameter_at(bytes),
            method_parameter_at(bytes.take(limit)),
            limit,
        ),
{
    assert forall|p: int|
        survives_cut(
            #[trigger] method_parameter_at(bytes)(p),
            method_parameter_at(bytes.take(limit))(p),
            p,
            limit,
        ) by {
        lemma_method_parameter_cut(bytes, p, limit);
    }
}

/// A `requires` entry on a buffer that is cut off.
pub proof fn lemma_module_require_cut(bytes: Seq<u8>, pos: int, limit: int)
    requires
        0 <= limit <= bytes.len(),
    ensures
        survives_cut(
            spec_module_require(bytes, pos),
            spec_module_require(bytes.take(limit), pos),
            pos,
            limit,
        ),
{
    lemma_u2_run_cut(bytes, pos, limit, 3);
}

/// The decoder of one `requires` entry goes with the cut.
pub proof fn lemma_module_require_at_cut(bytes: Seq<u8>, limit: int)
    requires
        0 <= limit <= bytes.len(),
    ensures
        item_survives_cut(module_require_at(bytes), module_require_at(bytes.take(limit)), limit),
{
    assert forall|p: int|
        survives_cut(
            #[trigger] module_require_at(bytes)(p),
            module_require_at(bytes.take(limit))(p),
            p,
            limit,
        ) by {
        lemma_module_require_cut(bytes, p, limit);
    }
}

/// A bootstrap-method entry on a buffer that is cut off.
pub proof fn lemma_bootstrap_method_cut(bytes: Seq<u8>, pos: int, limit: int)
    requires
        0 <= limit <= bytes.len(),
    ensures
        survives_cut(
            spec_bootstrap_method(bytes, pos),
            spec_bootstrap_method(bytes.take(limit), pos),
            pos,
            limit,
        ),
{
    lemma_u2_cut(bytes, pos, limit);
    lemma_u2_list_cut(bytes, pos + 2, limit);
}

/// The decoder of one bootstrap-method entry goes with the cut.
pub proof fn lemma_bootstrap_method_at_cut(bytes: Seq<u8>, limit: int)
    requires
        0 <= limit <= bytes.len(),
    ensures
        item_survives_cut(
            bootstrap_method_at(bytes),
            bootstrap_method_at(bytes.take(limit)),
            limit,
        ),
{
    assert forall|p: int|
        survives_cut(
            #[trigger] bootstrap_method_at(bytes)(p),
            bootstrap_method_at(bytes.take(limit))(p),
            p,
            limit,
        ) by {
        lemma_bootstrap_method_cut(bytes, p, limit);
    }
}

/// An `exports` entry on a buffer that is cut off.
pub proof fn lemma_module_export_cut(bytes: Seq<u8>, pos: int, limit: int)
    requires
        0 <= limit <= bytes.len(),
    ensures
        survives_cut(
            spec_module_export(bytes, pos),
            spec_module_export(bytes.take(limit), pos),
            pos,
            limit,
        ),
{
    lemma_u2_run_cut(bytes, pos, limit, 2);
    match spec_u2_run(bytes, pos, 2) {
        Ok((_, at_list)) => {
            lemma_u2_list_cut(bytes, at_list, limit);
        },
        Err(_) => {},
    }
}

/// The decoder of one `exports` entry goes with the cut.
pub proof fn lemma_module_export_at_cut(bytes: Seq<u8>, limit: int)
    requires
        0 <= limit <= bytes.len(),
    ensures
        item_survives_cut(module_export_at(bytes), module_export_at(bytes.take(limit)), limit),
{
    assert forall|p: int|
        survives_cut(
            #[trigger] module_export_at(bytes)(p),
            module_export_at(bytes.take(limit))(p),
            p,
            limit,
        ) by {
        lemma_module_export_cut(bytes, p, limit);
    }
}

/// An `opens` entry on a buffer that is cut off.
pub proof fn lemma_module_opens_cut(bytes: Seq<u8>, pos: int, limit: int)
    requires
        0 <= limit <= bytes.len(),
    ensures
        survives_cut(
            spec_module_opens(bytes, pos),
            spec_module_opens(bytes.take(limit), pos),
            pos,
            limit,
        ),
{
    lemma_u2_run_cut(bytes, pos, limit, 2);
    match spec_u2_run(bytes, pos, 2) {
        Ok((_, at_list)) => {
            lemma_u2_list_cut(bytes, at_list, limit);
        },
        Err(_) => {},
    }
}

/// The decoder of one `opens` entry goes with the cut.
pub proof fn lemma_module_opens_at_cut(bytes: Seq<u8>, limit: int)
    requires
        0 <= limit <= bytes.len(),
    ensures
        item_survives_cut(module_opens_at(bytes), module_opens_at(bytes.take(limit)), limit),
{
    assert forall|p: int|
        survives_cut(
            #[trigger] module_opens_at(bytes)(p),
            module_opens_at(bytes.take(limit))(p),
            p,
            limit,
        ) by {
        lemma_module_opens_cut(bytes, p, limit);
    }
}

/// A `provides` entry on a buffer that is cut off.
pub proof fn lemma_module_provides_cut(bytes: Seq<u8>, pos: int, limit: int)
    requires
        0 <= limit <= bytes.len(),
    ensures
        survives_cut(
            spec_module_provides(bytes, pos),
            spec_module_provides(bytes.take(limit), pos),
            pos,
            limit,
        ),
{
    lemma_u2_cut(bytes, pos, limit);
    lemma_u2_list_cut(bytes, pos + 2, limit);
}

/// The decoder of one `provides` entry goes with the cut.
pub proof fn lemma_module_provides_at_cut(bytes: Seq<u8>, limit: int)
    requires
        0 <= limit <= bytes.len(),
    ensures
        item_survives_cut(module_provides_at(bytes), module_provides_at(bytes.take(limit)), limit),
{
    assert forall|p: int|
        survives_cut(
            #[trigger] module_provides_at(bytes)(p),
            module_provides_at(bytes.take(limit))(p),
            p,
            limit,
        ) by {
        lemma_module_provides_cut(bytes, p, limit);
    }
}

/// The body of an `AnnotationDefault` attribute on a buffer that is cut off.
pub proof fn lemma_attribute_annotation_default_cut(
    bytes: Seq<u8>,
    pos: int,
    limit: int,
    depth: Depth,
)
    requires
        0 <= limit <= bytes.len(),
    ensures
        survives_cut(
            spec_attribute_annotation_default(bytes, pos, depth),
            spec_attribute_annotation_default(bytes.take(limit), pos, depth),
            pos,
            limit,
        ),
{
    lemma_element_value_cut(bytes, pos, limit, depth);
}

/// The body of a `BootstrapMethods` attribute on a buffer that is cut off.
pub proof fn lemma_attribute_bootstrap_methods_cut(bytes: Seq<u8>, pos: int, limit: int)
    requires
        0 <= limit <= bytes.len(),
    ensures
        survives_cut(
            spec_attribute_bootstrap_methods(bytes, pos),
            spec_attribute_bootstrap_methods(bytes.take(limit), pos),
            pos,
            limit,
        ),
{
    lemma_bootstrap_method_at_cut(bytes, limit);
    lemma_counted_cut(
        bytes,
        bootstrap_method_at(bytes),
        bootstrap_method_at(bytes.take(limit)),
        pos,
        limit,
    );
}

/// The body of a `ConstantValue` attribute on a buffer that is cut off.
pub proof fn lemma_attribute_constant_value_cut(bytes: Seq<u8>, pos: int, limit: int)
    requires
        0 <= limit <= bytes.len(),
    ensures
        survives_cut(
            spec_attribute_constant_value(bytes, pos),
            spec_attribute_constant_value(bytes.take(limit), pos),
            pos,
            limit,
        ),
{
    lemma_u2_cut(bytes, pos, limit);
}

/// The body of a `Deprecated` attribute on a buffer that is cut off.
pub proof fn lemma_attribute_deprecated_cut(bytes: Seq<u8>, pos: int, limit: int)
    requires
        0 <= limit <= bytes.len(),
    ensures
        survives_cut(
            spec_attribute_deprecated(bytes, pos),
            spec_attribute_deprecated(bytes.take(limit), pos),
            pos,
            limit,
        ),
{
}

/// The body of an `EnclosingMethod` attribute on a buffer that is cut off.
pub proof fn lemma_attribute_enclosing_method_cut(bytes: Seq<u8>, pos: int, limit: int)
    requires
        0 <= limit <= bytes.len(),
    ensures
        survives_cut(
            spec_attribute_enclosing_method(bytes, pos),
            spec_attribute_enclosing_method(bytes.take(limit), pos),
            pos,
            limit,
        ),
{
    lemma_u2_run_cut(bytes, pos, limit, 2);
}

/// The body of an `Exceptions` attribute on a buffer that is cut off.
pub proof fn lemma_attribute_exceptions_cut(bytes: Seq<u8>, pos: int, limit: int)
    requires
        0 <= limit <= bytes.len(),
    ensures
        survives_cut(
            spec_attribute_exceptions(bytes, pos),
            spec_attribute_exceptions(bytes.take(limit), pos),
            pos,
            limit,
        ),
{
    lemma_u2_list_cut(bytes, pos, limit);
}

/// The body of an `InnerClasses` attribute on a buffer that is cut off.
pub proof fn lemma_attribute_inner_classes_cut(bytes: Seq<u8>, pos: int, limit: int)
    requires
        0 <= limit <= bytes.len(),
    ensures
        survives_cut(
            spec_attribute_inner_classes(bytes, pos),
            spec_attribute_inner_classes(bytes.take(limit), pos),
            pos,
            limit,
        ),
{
    lemma_inner_class_at_cut(bytes, limit);
    lemma_counted_cut(bytes, inner_class_at(bytes), inner_class_at(bytes.take(limit)), pos, limit);
}

/// The body of a `LineNumberTable` attribute on a buffer that is cut off.
pub proof fn lemma_attribute_line_number_table_cut(bytes: Seq<u8>, pos: int, limit: int)
    requires
        0 <= limit <= bytes.len(),
    ensures
        survives_cut(
            spec_attribute_line_number_table(bytes, pos),
            spec_attribute_line_number_table(bytes.take(limit), pos),
            pos,
            limit,
        ),
{
    lemma_line_number_at_cut(bytes, limit);
    lemma_counted_cut(bytes, line_number_at(bytes), line_number_at(bytes.take(limit)), pos, limit);
}

/// The body of a `LocalVariableTable` attribute on a buffer that is cut off.
pub proof fn lemma_attribute_local_variable_table_cut(bytes: Seq<u8>, pos: int, limit: int)
    requires
        0 <= limit <= bytes.len(),
    ensures
        survives_cut(
            spec_attribute_local_variable_table(bytes, pos),
            spec_attribute_local_variable_table(bytes.take(limit), pos),
            pos,
            limit,
        ),
{
    lemma_local_variable_at_cut(bytes, limit);
    lemma_counted_cut(
        bytes,
        local_variable_at(bytes),
        local_variable_at(bytes.take(limit)),
        pos,
        limit,
    );
}

/// The body of a `LocalVariableTypeTable` attribute on a buffer that is cut off.
pub proof fn lemma_attribute_local_variable_type_table_cut(bytes: Seq<u8>, pos: int, limit: int)
    requires
        0 <= limit <= bytes.len(),
    ensures
        survives_cut(
            spec_attribute_local_variable_type_table(bytes, pos),
            spec_attribute_local_variable_type_table(bytes.take(limit), pos),
            pos,
            limit,
        ),
{
    lemma_local_variable_type_at_cut(bytes, limit);
    lemma_counted_cut(
        bytes,
        local_variable_type_at(bytes),
        local_variable_type_at(bytes.take(limit)),
        pos,
        limit,
    );
}

/// The body of a `MethodParameters` attribute on a buffer that is cut off.
pub proof fn lemma_attribute_method_parameters_cut(bytes: Seq<u8>, pos: int, limit: int)
    requires
        0 <= limit <= bytes.len(),
    ensures
        survives_cut(
            spec_attribute_method_parameters(bytes, pos),
            spec_attribute_method_parameters(bytes.take(limit), pos),
            pos,
            limit,
        ),
{
    lemma_method_parameter_at_cut(bytes, limit);
    lemma_counted_cut(
        bytes,
        method_parameter_at(bytes),
        method_parameter_at(bytes.take(limit)),
        pos,
        limit,
    );
}

/// The body of a `Module` attribute on a buffer that is cut off.
pub proof fn lemma_attribute_module_cut(bytes: Seq<u8>, pos: int, limit: int)
    requires
        0 <= limit <= bytes.len(),
    ensures
        survives_cut(
            spec_attribute_module(bytes, pos),
            spec_attribute_module(bytes.take(limit), pos),
            pos,
            limit,
        ),
{
    lemma_u2_run_cut(bytes, pos, limit, 3);
    lemma_module_require_at_cut(bytes, limit);
    lemma_module_export_at_cut(bytes, limit);
    lemma_module_opens_at_cut(bytes, limit);
    lemma_module_provides_at_cut(bytes, limit);
    let full_requires = module_require_at(bytes);
    let cut_requires = module_require_at(bytes.take(limit));
    let full_exports = module_export_at(bytes);
    let cut_exports = module_export_at(bytes.take(limit));
    let full_opens = module_opens_at(bytes);
    let cut_opens = module_opens_at(bytes.take(limit));
    let full_provides = module_provides_at(bytes);
    let cut_provides = module_provides_at(bytes.take(limit));
    match spec_u2_run(bytes, pos, 3) {
        Ok((_, at_requires)) => {
            lemma_counted_cut(bytes, full_requires, cut_requires, at_requires, limit);
            match spec_counted(bytes, at_requires, full_requires) {
                Ok((_, at_exports)) => {
                    lemma_counted_cut(bytes, full_exports, cut_exports, at_exports, limit);
                    match spec_counted(bytes, at_exports, full_exports) {
                        Ok((_, at_opens)) => {
                            lemma_counted_cut(bytes, full_opens, cut_opens, at_opens, limit);
                            match spec_counted(bytes, at_opens, full_opens) {
                                Ok((_, at_uses)) => {
                                    lemma_u2_list_cut(bytes, at_uses, limit);
                                    match spec_u2_list(bytes, at_uses) {
                                        Ok((_, at_provides)) => {
                                            lemma_counted_cut(
                                                bytes,
                                                full_provides,
                                                cut_provides,
                                                at_provides,
                                                limit,
                                            );
                                        },
                                        Err(_) => {},
                                    }
                                },
                                Err(_) => {},
                            }
                        },
                        Err(_) => {},
                    }
                },
                Err(_) => {},
            }
        },
        Err(_) => {},
    }
}

/// The body of a `ModuleMainClass` attribute on a buffer that is cut off.
pub proof fn lemma_attribute_module_main_class_cut(bytes: Seq<u8>, pos: int, limit: int)
    requires
        0 <= limit <= bytes.len(),
    ensures
        survives_cut(
            spec_attribute_module_main_class(bytes, pos),
            spec_attribute_module_main_class(bytes.take(limit), pos),
            pos,
            limit,
        ),
{
    lemma_u2_cut(bytes, pos, limit);
}

/// The body of a `ModulePackages` attribute on a buffer that is cut off.
pub proof fn lemma_attribute_module_packages_cut(bytes: Seq<u8>, pos: int, limit: int)
    requires
        0 <= limit <= bytes.len(),
    ensures
        survives_cut(
            spec_attribute_module_packages(bytes, pos),
            spec_attribute_module_packages(bytes.take(limit), pos),
            pos,
            limit,
        ),
{
    lemma_u2_list_cut(bytes, pos, limit);
}

/// The body of a `NestHost` attribute on a buffer that is cut off.
pub proof fn lemma_attribute_nest_host_cut(bytes: Seq<u8>, pos: int, limit: int)
    requires
        0 <= limit <= bytes.len(),
    ensures
        survives_cut(
            spec_attribute_nest_host(bytes, pos),
            spec_attribute_nest_host(bytes.take(limit), pos),
            pos,
            limit,
        ),
{
    lemma_u2_cut(bytes, pos, limit);
}

/// The body of a `NestMembers` attribute on a buffer that is cut off.
pub proof fn lemma_attribute_nest_members_cut(bytes: Seq<u8>, pos: int, limit: int)
    requires
        0 <= limit <= bytes.len(),
    ensures
        survives_cut(
            spec_attribute_nest_members(bytes, pos),
            spec_attribute_nest_members(bytes.take(limit), pos),
            pos,
            limit,
        ),
{
    lemma_u2_list_cut(bytes, pos, limit);
}

/// The body of a `PermittedSubclasses` attribute on a buffer that is cut off.
pub proof fn lemma_attribute_permitted_subclasses_cut(bytes: Seq<u8>, pos: int, limit: int)
    requires
        0 <= limit <= bytes.len(),
    ensures
        survives_cut(
            spec_attribute_permitted_subclasses(bytes, pos),
            spec_attribute_permitted_subclasses(bytes.take(limit), pos),
            pos,
            limit,
        ),
{
    lemma_u2_list_cut(bytes, pos, limit);
}

/// The body of a `RuntimeInvisibleAnnotations` attribute on a buffer that is cut off.
pub proof fn lemma_attribute_runtime_invisible_annotations_cut(
    bytes: Seq<u8>,
    pos: int,
    limit: int,
    depth: Depth,
)
    requires
        0 <= limit <= bytes.len(),
    ensures
        survives_cut(
            spec_attribute_runtime_invisible_annotations(bytes, pos, depth),
            spec_attribute_runtime_invisible_annotations(bytes.take(limit), pos, depth),
            pos,
            limit,
        ),
{
    lemma_annotation_at_cut(bytes, limit, depth);
    lemma_counted_cut(
        bytes,
        annotation_at(bytes, depth),
        annotation_at(bytes.take(limit), depth),
        pos,
        limit,
    );
}

/// The body of a `RuntimeInvisibleParameterAnnotations` attribute on a buffer that is cut off.
pub proof fn lemma_attribute_runtime_invisible_parameter_annotations_cut(
    bytes: Seq<u8>,
    pos: int,
    limit: int,
    depth: Depth,
)
    requires
        0 <= limit <= bytes.len(),
    ensures
        survives_cut(
            spec_attribute_runtime_invisible_parameter_annotations(bytes, pos, depth),
            spec_attribute_runtime_invisible_parameter_annotations(bytes.take(limit), pos, depth),
            pos,
            limit,
        ),
{
    lemma_annotation_at_cut(bytes, limit, depth);
    lemma_counted_cut(
        bytes,
        annotation_at(bytes, depth),
        annotation_at(bytes.take(limit), depth),
        pos,
        limit,
    );
}

/// The body of a `RuntimeInvisibleTypeAnnotations` attribute on a buffer that is cut off.
pub proof fn lemma_attribute_runtime_invisible_type_annotations_cut(
    bytes: Seq<u8>,
    pos: int,
    limit: int,
    depth: Depth,
)
    requires
        0 <= limit <= bytes.len(),
    ensures
        survives_cut(
            spec_attribute_runtime_invisible_type_annotations(bytes, pos, depth),
            spec_attribute_runtime_invisible_type_annotations(bytes.take(limit), pos, depth),
            pos,
            limit,
        ),
{
    lemma_type_annotation_at_cut(bytes, limit, depth);
    lemma_counted_cut(
        bytes,
        type_annotation_at(bytes, depth),
        type_annotation_at(bytes.take(limit), depth),
        pos,
        limit,
    );
}

/// The body of a `RuntimeVisibleAnnotations` attribute on a buffer that is cut off.
pub proof fn lemma_attribute_runtime_visible_annotations_cut(
    bytes: Seq<u8>,
    pos: int,
    limit: int,
    depth: Depth,
)
    requires
        0 <= limit <= bytes.len(),
    ensures
        survives_cut(
            spec_attribute_runtime_visible_annotations(bytes, pos, depth),
            spec_attribute_runtime_visible_annotations(bytes.take(limit), pos, depth),
            pos,
            limit,
        ),
{
    lemma_annotation_at_cut(bytes, limit, depth);
    lemma_counted_cut(
        bytes,
        annotation_at(bytes, depth),
        annotation_at(bytes.take(limit), depth),
        pos,
        limit,
    );
}

/// The body of a `RuntimeVisibleParameterAnnotations` attribute on a buffer that is cut off.
pub proof fn lemma_attribute_runtime_visible_parameter_annotations_cut(
    bytes: Seq<u8>,
    pos: int,
    limit: int,
    depth: Depth,
)
    requires
        0 <= limit <= bytes.len(),
    ensures
        survives_cut(
            spec_attribute_runtime_visible_parameter_annotations(bytes, pos, depth),
            spec_attribute_runtime_visible_parameter_annotations(bytes.take(limit), pos, depth),
            pos,
            limit,
        ),
{
    lemma_annotation_at_cut(bytes, limit, depth);
    lemma_counted_cut(
        bytes,
        annotation_at(bytes, depth),
        annotation_at(bytes.take(limit), depth),
        pos,
        limit,
    );
}

/// The body of a `RuntimeVisibleTypeAnnotations` attribute on a buffer that is cut off.
pub proof fn lemma_attribute_runtime_visible_type_annotations_cut(
    bytes: Seq<u8>,
    pos: int,
    limit: int,
    depth: Depth,
)
    requires
        0 <= limit <= bytes.len(),
    ensures
        survives_cut(
            spec_attribute_runtime_visible_type_annotations(bytes, pos, depth),
            spec_attribute_runtime_visible_type_annotations(bytes.take(limit), pos, depth),
            pos,
            limit,
        ),
{
    lemma_type_annotation_at_cut(bytes, limit, depth);
    lemma_counted_cut(
        bytes,
        type_annotation_at(bytes, depth),
        type_annotation_at(bytes.take(limit), depth),
        pos,
        limit,
    );
}

/// The body of a `Signature` attribute on a buffer that is cut off.
pub proof fn lemma_attribute_signature_cut(bytes: Seq<u8>, pos: int, limit: int)
    requires
        0 <= limit <= bytes.len(),
    ensures
        survives_cut(
            spec_attribute_signature(bytes, pos),
            spec_attribute_signature(bytes.take(limit), pos),
            pos,
            limit,
        ),
{
    lemma_u2_cut(bytes, pos, limit);
}

/// The body of a `SourceDebugExtension` attribute on a buffer that is cut off.
pub proof fn lemma_attribute_source_debug_extension_cut(
    bytes: Seq<u8>,
    pos: int,
    limit: int,
    length: u32,
)
    requires
        0 <= limit <= bytes.len(),
    ensures
        survives_cut(
            spec_attribute_source_debug_extension(bytes, pos, length),
            spec_attribute_source_debug_extension(bytes.take(limit), pos, length),
            pos,
            limit,
        ),
{
    lemma_take_cut(bytes, pos, length as int, limit);
}

/// The body of a `SourceFile` attribute on a buffer that is cut off.
pub proof fn lemma_attribute_source_file_cut(bytes: Seq<u8>, pos: int, limit: int)
    requires
        0 <= limit <= bytes.len(),
    ensures
        survives_cut(
            spec_attribute_source_file(bytes, pos),
            spec_attribute_source_file(bytes.take(limit), pos),
            pos,
            limit,
        ),
{
    lemma_u2_cut(bytes, pos, limit);
}

/// The body of a `StackMapTable` attribute on a buffer that is cut off.
pub proof fn lemma_attribute_stack_map_table_cut(bytes: Seq<u8>, pos: int, limit: int)
    requires
        0 <= limit <= bytes.len(),
    ensures
        survives_cut(
            spec_attribute_stack_map_table(bytes, pos),
            spec_attribute_stack_map_table(bytes.take(limit), pos),
            pos,
            limit,
        ),
{
    lemma_stack_map_frame_at_cut(bytes, limit);
    lemma_counted_cut(
        bytes,
        stack_map_frame_at(bytes),
        stack_map_frame_at(bytes.take(limit)),
        pos,
        limit,
    );
}

/// The body of a `Synthetic` attribute on a buffer that is cut off.
pub proof fn lemma_attribute_synthetic_cut(bytes: Seq<u8>, pos: int, limit: int)
    requires
        0 <= limit <= bytes.len(),
    ensures
        survives_cut(
            spec_attribute_synthetic(bytes, pos),
            spec_attribute_synthetic(bytes.take(limit), pos),
            pos,
            limit,
        ),
{
}

/// The body of a `Code` attribute on a buffer that is cut off.
pub proof fn lemma_attribute_code_cut(
    bytes: Seq<u8>,
    pos: int,
    limit: int,
    pool: Seq<ConstantPoolEntryView>,
    options: DecodeOptions,
    depth: Depth,
)
    requires
        0 <= limit <= bytes.len(),
    ensures
        survives_cut(
            spec_attribute_code(bytes, pos, pool, options, depth),
            spec_attribute_code(bytes.take(limit), pos, pool, options, depth),
            pos,
            limit,
        ),
    decreases depth.left, 0int,
{
    lemma_u2_run_cut(bytes, pos, limit, 3);
    lemma_exception_table_entry_at_cut(bytes, limit);
    match depth.spec_descend(pos) {
        Ok(inner) => {
            match spec_u2_run(bytes, pos, 3) {
                Ok((head, at_code)) => {
                    lemma_take_cut(bytes, at_code, head[2] as int, limit);
                    match spec_take(bytes, at_code, head[2] as int) {
                        Ok((_, at_table)) => {
                            lemma_counted_cut(
                                bytes,
                                exception_table_entry_at(bytes),
                                exception_table_entry_at(bytes.take(limit)),
                                at_table,
                                limit,
                            );
                            match spec_counted(bytes, at_table, exception_table_entry_at(bytes)) {
                                Ok((_, at_attributes)) => {
                                    lemma_attributes_cut(
                                        bytes,
                                        at_attributes,
                                        limit,
                                        pool,
                                        options,
                                        inner,
                                    );
                                },
                                Err(_) => {},
                            }
                        },
                        Err(_) => {},
                    }
                },
                Err(_) => {},
            }
        },
        Err(_) => {},
    }
}

/// The body of a `Record` attribute on a buffer that is cut off.
pub proof fn lemma_attribute_record_cut(
    bytes: Seq<u8>,
    pos: int,
    limit: int,
    pool: Seq<ConstantPoolEntryView>,
    options: DecodeOptions,
    depth: Depth,
)
    requires
        0 <= limit <= bytes.len(),
    ensures
        survives_cut(
            spec_attribute_record(bytes, pos, pool, options, depth),
            spec_attribute_record(bytes.take(limit), pos, pool, options, depth),
            pos,
            limit,
        ),
    decreases depth.left, 0int,
{
    match depth.spec_descend(pos) {
        Ok(inner) => {
            lemma_record_component_at_cut(bytes, limit, pool, options, inner);
            lemma_counted_cut(
                bytes,
                record_component_at(bytes, pool, options, inner),
                record_component_at(bytes.take(limit), pool, options, inner),
                pos,
                limit,
            );
        },
        Err(_) => {},
    }
}

/// The body of an attribute on a buffer that is cut off.
pub proof fn lemma_attribute_body_cut(
    bytes: Seq<u8>,
    pos: int,
    limit: int,
    kind: AttributeKind,
    length: u32,
    pool: Seq<ConstantPoolEntryView>,
    options: DecodeOptions,
    depth: Depth,
)
    requires
        0 <= limit <= bytes.len(),
    ensures
        survives_cut(
            spec_attribute_body(bytes, pos, kind, length, pool, options, depth),
            spec_attribute_body(bytes.take(limit), pos, kind, length, pool, options, depth),
            pos,
            limit,
        ),
    decreases depth.left, 1int,
{
    match kind {
        AttributeKind::AnnotationDefault => {
            lemma_attribute_annotation_default_cut(bytes, pos, limit, depth);
        },
        AttributeKind::BootstrapMethods => {
            lemma_attribute_bootstrap_methods_cut(bytes, pos, limit);
        },
        AttributeKind::Code => {
            lemma_attribute_code_cut(bytes, pos, limit, pool, options, depth);
        },
        AttributeKind::ConstantValue => {
            lemma_attribute_constant_value_cut(bytes, pos, limit);
        },
        AttributeKind::Deprecated => {
            lemma_attribute_deprecated_cut(bytes, pos, limit);
        },
        AttributeKind::EnclosingMethod => {
            lemma_attribute_enclosing_method_cut(bytes, pos, limit);
        },
        AttributeKind::Exceptions => {
            lemma_attribute_exceptions_cut(bytes, pos, limit);
        },
        AttributeKind::InnerClasses => {
            lemma_attribute_inner_classes_cut(bytes, pos, limit);
        },
        AttributeKind::LineNumberTable => {
            lemma_attribute_line_number_table_cut(bytes, pos, limit);
        },
        AttributeKind::LocalVariableTable => {
            lemma_attribute_local_variable_table_cut(bytes, pos, limit);
        },
        AttributeKind::LocalVariableTypeTable => {
            lemma_attribute_local_variable_type_table_cut(bytes, pos, limit);
        },
        AttributeKind::MethodParameters => {
            lemma_attribute_method_parameters_cut(bytes, pos, limit);
        },
        AttributeKind::Module => {
            lemma_attribute_module_cut(bytes, pos, limit);
        },
        AttributeKind::ModuleMainClass => {
            lemma_attribute_module_main_class_cut(bytes, pos, limit);
        },
        AttributeKind::ModulePackages => {
            lemma_attribute_module_packages_cut(bytes, pos, limit);
        },
        AttributeKind::NestHost => {
            lemma_attribute_nest_host_cut(bytes, pos, limit);
        },
        AttributeKind::NestMembers => {
            lemma_attribute_nest_members_cut(bytes, pos, limit);
        },
        AttributeKind::PermittedSubclasses => {
            lemma_attribute_permitted_subclasses_cut(bytes, pos, limit);
        },
        AttributeKind::Record => {
            lemma_attribute_record_cut(bytes, pos, limit, pool, options, depth);
        },
        AttributeKind::RuntimeInvisibleAnnotations => {
            lemma_attribute_runtime_invisible_annotations_cut(bytes, pos, limit, depth);
        },
        AttributeKind::RuntimeInvisibleParameterAnnotations => {
            lemma_attribute_runtime_invisible_parameter_annotations_cut(bytes, pos, limit, depth);
        },
        AttributeKind::RuntimeInvisibleTypeAnnotations => {
            lemma_attribute_runtime_invisible_type_annotations_cut(bytes, pos, limit, depth);
        },
        AttributeKind::RuntimeVisibleAnnotations => {
            lemma_attribute_runtime_visible_annotations_cut(bytes, pos, limit, depth);
        },
        AttributeKind::RuntimeVisibleParameterAnnotations => {
            lemma_attribute_runtime_visible_parameter_annotations_cut(bytes, pos, limit, depth);
        },
        AttributeKind::RuntimeVisibleTypeAnnotations => {
            lemma_attribute_runtime_visible_type_annotations_cut(bytes, pos, limit, depth);
        },
        AttributeKind::Signature => {
            lemma_attribute_signature_cut(bytes, pos, limit);
        },
        AttributeKind::SourceDebugExtension => {
            lemma_attribute_source_debug_extension_cut(bytes, pos, limit, length);
        },
        AttributeKind::SourceFile => {
            lemma_attribute_source_file_cut(bytes, pos, limit);
        },
        AttributeKind::StackMapTable => {
            lemma_attribute_stack_map_table_cut(bytes, pos, limit);
        },
        AttributeKind::Synthetic => {
            lemma_attribute_synthetic_cut(bytes, pos, limit);
        },
    }
}

/// What an attribute holds on a buffer that is cut off.
pub proof fn lemma_attribute_info_cut(
    bytes: Seq<u8>,
    pos: int,
    limit: int,
    name: Seq<char>,
    name_index: u16,
    length: u32,
    pool: Seq<ConstantPoolEntryView>,
    options: DecodeOptions,
    depth: Depth,
)
    requires
        0 <= limit <= bytes.len(),
    ensures
        survives_cut(
            spec_attribute_info(bytes, pos, name, name_index, length, pool, options, depth),
            spec_attribute_info(
                bytes.take(limit),
                pos,
                name,
                name_index,
                length,
                pool,
                options,
                depth,
            ),
            pos,
            limit,
        ),
    decreases depth.left, 2int,
{
    lemma_take_cut(bytes, pos, length as int, limit);
    match spec_attribute_kind(name) {
        Some(kind) => {
            lemma_attribute_body_cut(bytes, pos, limit, kind, length, pool, options, depth);
        },
        None => {},
    }
}

/// An attribute on a buffer that is cut off.
pub proof fn lemma_attribute_cut(
    bytes: Seq<u8>,
    pos: int,
    limit: int,
    pool: Seq<ConstantPoolEntryView>,
    options: DecodeOptions,
    depth: Depth,
)
    requires
        0 <= limit <= bytes.len(),
    ensures
        survives_cut(
            spec_attribute(bytes, pos, pool, options, depth),
            spec_attribute(bytes.take(limit), pos, pool, options, depth),
            pos,
            limit,
        ),
    decreases depth.left, 3int,
{
    lemma_u2_cut(bytes, pos, limit);
    lemma_u4_cut(bytes, pos + 2, limit);
    match spec_u2(bytes, pos) {
        Ok((name_index, at_length)) => {
            match spec_attribute_name(pool, name_index, pos) {
                Ok(name) => {
                    match spec_u4(bytes, at_length) {
                        Ok((length, body)) => {
                            lemma_attribute_info_cut(
                                bytes,
                                body,
                                limit,
                                name,
                                name_index,
                                length,
                                pool,
                                options,
                                depth,
                            );
                        },
                        Err(_) => {},
                    }
                },
                Err(_) => {},
            }
        },
        Err(_) => {},
    }
}

/// The decoder of one attribute goes with the cut.
pub proof fn lemma_attribute_at_cut(
    bytes: Seq<u8>,
    limit: int,
    pool: Seq<ConstantPoolEntryView>,
    options: DecodeOptions,
    depth: Depth,
)
    requires
        0 <= limit <= bytes.len(),
    ensures
        item_survives_cut(
            attribute_at(bytes, pool, options, depth),
            attribute_at(bytes.take(limit), pool, options, depth),
            limit,
        ),
    decreases depth.left, 4int,
{
    assert forall|p: int|
        survives_cut(
            #[trigger] attribute_at(bytes, pool, options, depth)(p),
            attribute_at(bytes.take(limit), pool, options, depth)(p),
            p,
            limit,
        ) by {
        lemma_attribute_cut(bytes, p, limit, pool, options, depth);
    }
}

/// A counted run of attributes on a buffer that is cut off.
pub proof fn lemma_attributes_cut(
    bytes: Seq<u8>,
    pos: int,
    limit: int,
    pool: Seq<ConstantPoolEntryView>,
    options: DecodeOptions,
    depth: Depth,
)
    requires
        0 <= limit <= bytes.len(),
    ensures
        survives_cut(
            spec_attributes(bytes, pos, pool, options, depth),
            spec_attributes(bytes.take(limit), pos, pool, options, depth),
            pos,
            limit,
        ),
    decreases depth.left, 5int,
{
    lemma_attribute_at_cut(bytes, limit, pool, options, depth);
    lemma_counted_cut(
        bytes,
        attribute_at(bytes, pool, options, depth),
        attribute_at(bytes.take(limit), pool, options, depth),
        pos,
        limit,
    );
}

/// A record component on a buffer that is cut off.
pub proof fn lemma_record_component_cut(
    bytes: Seq<u8>,
    pos: int,
    limit: int,
    pool: Seq<ConstantPoolEntryView>,
    options: DecodeOptions,
    depth: Depth,
)
    requires
        0 <= limit <= bytes.len(),
    ensures
        survives_cut(
            spec_record_component(bytes, pos, pool, options, depth),
            spec_record_component(bytes.take(limit), pos, pool, options, depth),
            pos,
            limit,
        ),
    decreases depth.left, 6int,
{
    lemma_u2_run_cut(bytes, pos, limit, 2);
    match spec_u2_run(bytes, pos, 2) {
        Ok((_, at_attributes)) => {
            lemma_attributes_cut(bytes, at_attributes, limit, pool, options, depth);
        },
        Err(_) => {},
    }
}

/// The decoder of one record component goes with the cut.
pub proof fn lemma_record_component_at_cut(
    bytes: Seq<u8>,
    limit: int,
    pool: Seq<ConstantPoolEntryView>,
    options: DecodeOptions,
    depth: Depth,
)
    requires
        0 <= limit <= bytes.len(),
    ensures
        item_survives_cut(
            record_component_at(bytes, pool, options, depth),
            record_component_at(bytes.take(limit), pool, options, depth),
            limit,
        ),
    decreases depth.left, 7int,
{
    assert forall|p: int|
        survives_cut(
            #[trigger] record_component_at(bytes, pool, options, depth)(p),
            record_component_at(bytes.take(limit), pool, options, depth)(p),
            p,
            limit,
        ) by {
        lemma_record_component_cut(bytes, p, limit, pool, options, depth);
    }
}

/// The version on a buffer that is cut off.
pub proof fn lemma_classfile_version_cut(bytes: Seq<u8>, pos: int, limit: int)
    requires
        0 <= limit <= bytes.len(),
    ensures
        survives_cut(
            spec_classfile_version(bytes, pos),
            spec_classfile_version(bytes.take(limit), pos),
            pos,
            limit,
        ),
{
    lemma_u2_run_cut(bytes, pos, limit, 2);
}

/// A field on a buffer that is cut off.
pub proof fn lemma_field_cut(
    bytes: Seq<u8>,
    pos: int,
    limit: int,
    pool: Seq<ConstantPoolEntryView>,
    options: DecodeOptions,
)
    requires
        0 <= limit <= bytes.len(),
    ensures
        survives_cut(
            spec_field(bytes, pos, pool, options),
            spec_field(bytes.take(limit), pos, pool, options),
            pos,
            limit,
        ),
{
    lemma_u2_run_cut(bytes, pos, limit, 3);
    match spec_u2_run(bytes, pos, 3) {
        Ok((_, at_attributes)) => {
            lemma_attributes_cut(bytes, at_attributes, limit, pool, options, options.depth());
        },
        Err(_) => {},
    }
}

/// The decoder of one field goes with the cut.
pub proof fn lemma_field_at_cut(
    bytes: Seq<u8>,
    limit: int,
    pool: Seq<ConstantPoolEntryView>,
    options: DecodeOptions,
)
    requires
        0 <= limit <= bytes.len(),
    ensures
        item_survives_cut(
            field_at(bytes, pool, options),
            field_at(bytes.take(limit), pool, options),
            limit,
        ),
{
    assert forall|p: int|
        survives_cut(
            #[trigger] field_at(bytes, pool, options)(p),
            field_at(bytes.take(limit), pool, options)(p),
            p,
            limit,
        ) by {
        lemma_field_cut(bytes, p, limit, pool, options);
    }
}

/// A method on a buffer that is cut off.
pub proof fn lemma_method_cut(
    bytes: Seq<u8>,
    pos: int,
    limit: int,
    pool: Seq<ConstantPoolEntryView>,
    options: DecodeOptions,
)
    requires
        0 <= limit <= bytes.len(),
    ensures
        survives_cut(
            spec_method(bytes, pos, pool, options),
            spec_method(bytes.take(limit), pos, pool, options),
            pos,
            limit,
        ),
{
    lemma_u2_run_cut(bytes, pos, limit, 3);
    match spec_u2_run(bytes, pos, 3) {
        Ok((_, at_attributes)) => {
            lemma_attributes_cut(bytes, at_attributes, limit, pool, options, options.depth());
        },
        Err(_) => {},
    }
}

/// The decoder of one method goes with the cut.
pub proof fn lemma_method_at_cut(
    bytes: Seq<u8>,
    limit: int,
    pool: Seq<ConstantPoolEntryView>,
    options: DecodeOptions,
)
    requires
        0 <= limit <= bytes.len(),
    ensures
        item_survives_cut(
            method_at(bytes, pool, options),
            method_at(bytes.take(limit), pool, options),
            limit,
        ),
{
    assert forall|p: int|
        survives_cut(
            #[trigger] method_at(bytes, pool, options)(p),
            method_at(bytes.take(limit), pool, options)(p),
            p,
            limit,
        ) by {
        lemma_method_cut(bytes, p, limit, pool, options);
    }
}

/// What follows the constant pool, on a buffer that is cut off.
pub proof fn lemma_classfile_body_cut(
    bytes: Seq<u8>,
    pos: int,
    limit: int,
    version: Version,
    pool: Seq<ConstantPoolEntryView>,
    options: DecodeOptions,
)
    requires
        0 <= limit <= bytes.len(),
    ensures
        survives_cut(
            spec_classfile_body(bytes, pos, version, pool, options),
            spec_classfile_body(bytes.take(limit), pos, version, pool, options),
            pos,
            limit,
        ),
{
    lemma_u2_run_cut(bytes, pos, limit, 3);
    lemma_field_at_cut(bytes, limit, pool, options);
    lemma_method_at_cut(bytes, limit, pool, options);
    let full_field = field_at(bytes, pool, options);
    let cut_field = field_at(bytes.take(limit), pool, options);
    let full_method = method_at(bytes, pool, options);
    let cut_method = method_at(bytes.take(limit), pool, options);
    match spec_u2_run(bytes, pos, 3) {
        Ok((_, at_interfaces)) => {
            lemma_u2_list_cut(bytes, at_interfaces, limit);
            match spec_u2_list(bytes, at_interfaces) {
                Ok((_, at_fields)) => {
                    lemma_counted_cut(bytes, full_field, cut_field, at_fields, limit);
                    match spec_counted(bytes, at_fields, full_field) {
                        Ok((_, at_methods)) => {
                            lemma_counted_cut(bytes, full_method, cut_method, at_methods, limit);
                            match spec_counted(bytes, at_methods, full_method) {
                                Ok((_, at_attributes)) => {
                                    lemma_attributes_cut(
                                        bytes,
                                        at_attributes,
                                        limit,
                                        pool,
                                        options,
                                        options.depth(),
                                    );
                                },
                                Err(_) => {},
                            }
                        },
                        Err(_) => {},
                    }
                },
                Err(_) => {},
            }
        },
        Err(_) => {},
    }
}

/// A class file on a buffer that is cut off.
pub proof fn lemma_classfile_cut(bytes: Seq<u8>, pos: int, limit: int, options: DecodeOptions)
    requires
        0 <= limit <= bytes.len(),
    ensures
        survives_cut(
            spec_classfile(bytes, pos, options),
            spec_classfile(bytes.take(limit), pos, options),
            pos,
            limit,
        ),
{
    lemma_u4_cut(bytes, pos, limit);
    match spec_u4(bytes, pos) {
        Ok((magic, at_version)) => {
            if magic == MAGIC {
                lemma_classfile_version_cut(bytes, at_version, limit);
                match spec_classfile_version(bytes, at_version) {
                    Ok((version, at_pool)) => {
                        lemma_constant_pool_cut(bytes, at_pool, limit);
                        match spec_constant_pool(bytes, at_pool) {
                            Ok((pool, at_body)) => {
                                lemma_classfile_body_cut(
                                    bytes,
                                    at_body,
                                    limit,
                                    version,
                                    pool,
                                    options,
                                );
                            },
                            Err(_) => {},
                        }
                    },
                    Err(_) => {},
                }
            }
        },
        Err(_) => {},
    }
}

/// A class file that is decoded from `pos` on ends at or after `pos`, and
/// within the buffer.
pub proof fn lemma_classfile_ends_within_buffer(bytes: Seq<u8>, pos: int, options: DecodeOptions)
    ensures
        spec_classfile(bytes, pos, options) matches Ok((_, end)) ==> 0 <= pos <= end
            <= bytes.len(),
{
    lemma_classfile_cut(bytes, pos, bytes.len() as int, options);
    assert(bytes.take(bytes.len() as int) =~= bytes);
}

/// Cutting a buffer off inside the class file that it starts with gives a
/// failure for want of bytes, found at or before the cut: where the whole
/// buffer decodes to a class file of `consumed` bytes and `limit` is less
/// than `consumed`, the first `limit` bytes decode to an unexpected end of
/// input whose offset is at most `limit`.
pub proof fn lemma_truncation_runs_out(bytes: Seq<u8>, limit: int, options: DecodeOptions)
    requires
        0 <= limit,
        spec_classfile(bytes, 0, options) matches Ok((_, consumed)) && limit < consumed,
    ensures
        spec_classfile(bytes.take(limit), 0, options) matches Err(
            DecodeErrorView::UnexpectedEof { offset, .. },
        ) && 0 <= offset <= limit,
{
    lemma_classfile_ends_within_buffer(bytes, 0, options);
    lemma_classfile_cut(bytes, 0, limit, options);
}

/// Cutting a buffer off after the class file that it starts with changes
/// nothing: where the whole buffer decodes to a class file of `consumed`
/// bytes and `limit` is at least `consumed`, the first `limit` bytes decode
/// to the same class file and the same number of bytes.
pub proof fn lemma_trailing_bytes_are_ignored(bytes: Seq<u8>, limit: int, options: DecodeOptions)
    requires
        0 <= limit <= bytes.len(),
        spec_classfile(bytes, 0, options) matches Ok((_, consumed)) && consumed <= limit,
    ensures
        spec_classfile(bytes.take(limit), 0, options) == spec_classfile(bytes, 0, options),
{
    lemma_classfile_cut(bytes, 0, limit, options);
}

} // verus!

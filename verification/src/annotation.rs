//! Annotations, element values and type annotations.

use crate::cursor::{spec_u1, spec_u2, ClassParser};
use crate::error::{DecodeError, DecodeErrorView};
use crate::options::Depth;
use crate::outcome::{plain, viewed, viewed_list, views, Decoded};
use crate::repeat::{
    lemma_repeat_done, lemma_repeat_start, lemma_repeat_step, lemma_views_push, prepend,
    spec_counted, spec_repeat, spec_u2_run, u1_at,
};
use vstd::prelude::*;

verus! {

/// Tag of an element value that is a `byte` constant: `B`.
pub const TAG_BYTE: u8 = 0x42;

/// Tag of an element value that is a `char` constant: `C`.
pub const TAG_CHAR: u8 = 0x43;

/// Tag of an element value that is a `double` constant: `D`.
pub const TAG_DOUBLE: u8 = 0x44;

/// Tag of an element value that is a `float` constant: `F`.
pub const TAG_FLOAT: u8 = 0x46;

/// Tag of an element value that is an `int` constant: `I`.
pub const TAG_INT: u8 = 0x49;

/// Tag of an element value that is a `long` constant: `J`.
pub const TAG_LONG: u8 = 0x4A;

/// Tag of an element value that is a `short` constant: `S`.
pub const TAG_SHORT: u8 = 0x53;

/// Tag of an element value that is a `boolean` constant: `Z`.
pub const TAG_BOOLEAN: u8 = 0x5A;

/// Tag of an element value that is a string constant: `s`.
pub const TAG_STRING: u8 = 0x73;

/// Tag of an element value that is an enum constant: `e`.
pub const TAG_ENUM: u8 = 0x65;

/// Tag of an element value that is a class: `c`.
pub const TAG_CLASS: u8 = 0x63;

/// Tag of an element value that is a nested annotation: `@`.
pub const TAG_ANNOTATION: u8 = 0x40;

/// Tag of an element value that is an array: `[`.
pub const TAG_ARRAY: u8 = 0x5B;

#[derive(Debug, PartialEq, Eq)]
pub enum ElementValue {
    Annotation(Annotation),
    ClassInfo(u16),
    ConstValue(u16),
    EnumConst { type_name_index: u16, const_name_index: u16 },
    Array { values: Vec<ElementValue> },
}

#[derive(Debug, PartialEq, Eq)]
pub struct ElementValuePair {
    pub element_name_index: u16,
    pub value: ElementValue,
}

#[derive(Debug, PartialEq, Eq)]
pub struct Annotation {
    pub type_index: u16,
    pub element_value_pairs: Vec<ElementValuePair>,
}

#[derive(Clone, Copy, Debug, PartialEq, Eq, Structural)]
pub struct LocalVar {
    pub start_pc: u16,
    pub length: u16,
    pub index: u16,
}

#[allow(inconsistent_fields)]
#[derive(Debug, PartialEq, Eq)]
pub enum TargetInfo {
    // Tag: 0x00, 0x01
    TypeParameter(u8),
    // Tag: 0x10
    Supertype(u16),
    // Tag: 0x11, 0x12
    TypeParameterBound { type_parameter_index: u8, bound_index: u8 },
    // Tag: 0x13, 0x14, 0x15
    Empty,
    // Tag: 0x16
    FormalParameter(u8),
    // Tag: 0x17
    Throws(u16),
    // Tag: 0x40, 0x41
    LocalVar { table: Vec<LocalVar> },
    // Tag: 0x42
    Catch(u16),
    // Tag: 0x43, 0x44, 0x45, 0x46
    Offset(u16),
    // Tag: 0x47, 0x48, 0x49, 0x4A, 0x4B
    TypeArgument { offset: u16, type_argument_index: u8 },
}

#[derive(Clone, Copy, Debug, PartialEq, Eq, Structural)]
pub struct TypePathSegment {
    pub type_path_kind: u8,
    pub type_argument_index: u8,
}

#[derive(Debug, PartialEq, Eq)]
pub struct TypePath {
    pub path: Vec<TypePathSegment>,
}

#[derive(Debug, PartialEq, Eq)]
pub struct TypeAnnotation {
    pub target_type: u8,
    pub target_info: TargetInfo,
    pub target_path: TypePath,
    pub type_index: u16,
    pub element_value_pairs: Vec<ElementValuePair>,
}

/// The mathematical value of an [`ElementValue`].
pub ghost enum ElementValueView {
    Annotation(AnnotationView),
    ClassInfo(u16),
    ConstValue(u16),
    EnumConst { type_name_index: u16, const_name_index: u16 },
    Array { values: Seq<ElementValueView> },
}

/// The mathematical value of an [`ElementValuePair`].
pub ghost struct ElementValuePairView {
    pub element_name_index: u16,
    pub value: ElementValueView,
}

/// The mathematical value of an [`Annotation`].
pub ghost struct AnnotationView {
    pub type_index: u16,
    pub element_value_pairs: Seq<ElementValuePairView>,
}

/// The mathematical value of a [`TargetInfo`].
#[allow(inconsistent_fields)]
pub ghost enum TargetInfoView {
    TypeParameter(u8),
    Supertype(u16),
    TypeParameterBound { type_parameter_index: u8, bound_index: u8 },
    Empty,
    FormalParameter(u8),
    Throws(u16),
    LocalVar { table: Seq<LocalVar> },
    Catch(u16),
    Offset(u16),
    TypeArgument { offset: u16, type_argument_index: u8 },
}

/// The mathematical value of a [`TypePath`].
pub ghost struct TypePathView {
    pub path: Seq<TypePathSegment>,
}

/// The mathematical value of a [`TypeAnnotation`].
pub ghost struct TypeAnnotationView {
    pub target_type: u8,
    pub target_info: TargetInfoView,
    pub target_path: TypePathView,
    pub type_index: u16,
    pub element_value_pairs: Seq<ElementValuePairView>,
}

/// The value of an element value: that of each part, arrays item by item.
pub open spec fn element_value_view(value: ElementValue) -> ElementValueView
    decreases value,
{
    match value {
        ElementValue::Annotation(annotation) => ElementValueView::Annotation(
            annotation_view(annotation),
        ),
        ElementValue::ClassInfo(index) => ElementValueView::ClassInfo(index),
        ElementValue::ConstValue(index) => ElementValueView::ConstValue(index),
        ElementValue::EnumConst {
            type_name_index,
            const_name_index,
        } => ElementValueView::EnumConst { type_name_index, const_name_index },
        ElementValue::Array { values } => ElementValueView::Array {
            values: Seq::new(
                values@.len(),
                |i: int|
                    if 0 <= i < values@.len() {
                        element_value_view(values@[i])
                    } else {
                        ElementValueView::ClassInfo(0)
                    },
            ),
        },
    }
}

/// The value of an element-value pair.
pub open spec fn element_value_pair_view(pair: ElementValuePair) -> ElementValuePairView
    decreases pair,
{
    ElementValuePairView {
        element_name_index: pair.element_name_index,
        value: element_value_view(pair.value),
    }
}

/// The value of an annotation: its type and the values of its pairs, in order.
pub open spec fn annotation_view(annotation: Annotation) -> AnnotationView
    decreases annotation,
{
    AnnotationView {
        type_index: annotation.type_index,
        element_value_pairs: Seq::new(
            annotation.element_value_pairs@.len(),
            |i: int|
                if 0 <= i < annotation.element_value_pairs@.len() {
                    element_value_pair_view(annotation.element_value_pairs@[i])
                } else {
                    ElementValuePairView {
                        element_name_index: 0,
                        value: ElementValueView::ClassInfo(0),
                    }
                },
        ),
    }
}

impl View for ElementValue {
    type V = ElementValueView;

    open spec fn view(&self) -> ElementValueView {
        element_value_view(*self)
    }
}

impl View for ElementValuePair {
    type V = ElementValuePairView;

    open spec fn view(&self) -> ElementValuePairView {
        element_value_pair_view(*self)
    }
}

impl View for Annotation {
    type V = AnnotationView;

    open spec fn view(&self) -> AnnotationView {
        annotation_view(*self)
    }
}

impl View for TargetInfo {
    type V = TargetInfoView;

    open spec fn view(&self) -> TargetInfoView {
        match self {
            TargetInfo::TypeParameter(index) => TargetInfoView::TypeParameter(*index),
            TargetInfo::Supertype(index) => TargetInfoView::Supertype(*index),
            TargetInfo::TypeParameterBound {
                type_parameter_index,
                bound_index,
            } => TargetInfoView::TypeParameterBound {
                type_parameter_index: *type_parameter_index,
                bound_index: *bound_index,
            },
            TargetInfo::Empty => TargetInfoView::Empty,
            TargetInfo::FormalParameter(index) => TargetInfoView::FormalParameter(*index),
            TargetInfo::Throws(index) => TargetInfoView::Throws(*index),
            TargetInfo::LocalVar { table } => TargetInfoView::LocalVar { table: table@ },
            TargetInfo::Catch(index) => TargetInfoView::Catch(*index),
            TargetInfo::Offset(offset) => TargetInfoView::Offset(*offset),
            TargetInfo::TypeArgument {
                offset,
                type_argument_index,
            } => TargetInfoView::TypeArgument {
                offset: *offset,
                type_argument_index: *type_argument_index,
            },
        }
    }
}

impl View for TypePath {
    type V = TypePathView;

    open spec fn view(&self) -> TypePathView {
        TypePathView { path: self.path@ }
    }
}

impl View for TypeAnnotation {
    type V = TypeAnnotationView;

    open spec fn view(&self) -> TypeAnnotationView {
        TypeAnnotationView {
            target_type: self.target_type,
            target_info: self.target_info@,
            target_path: self.target_path@,
            type_index: self.type_index,
            element_value_pairs: views(self.element_value_pairs@),
        }
    }
}

/// An array's value holds the values of its items.
pub proof fn lemma_array_view(values: Vec<ElementValue>)
    ensures
        (ElementValue::Array { values })@ == (ElementValueView::Array { values: views(values@) }),
{
    assert((ElementValue::Array { values })@->values =~= views(values@));
}

/// An annotation's value holds the values of its pairs.
pub proof fn lemma_annotation_view(type_index: u16, element_value_pairs: Vec<ElementValuePair>)
    ensures
        (Annotation { type_index, element_value_pairs })@ == (AnnotationView {
            type_index,
            element_value_pairs: views(element_value_pairs@),
        }),
{
    assert((Annotation { type_index, element_value_pairs })@.element_value_pairs =~= views(
        element_value_pairs@,
    ));
}

/// Whether `tag` introduces an element value that is one constant-pool index.
pub open spec fn spec_is_const_tag(tag: u8) -> bool {
    tag == TAG_BYTE || tag == TAG_CHAR || tag == TAG_DOUBLE || tag == TAG_FLOAT || tag == TAG_INT
        || tag == TAG_LONG || tag == TAG_SHORT || tag == TAG_BOOLEAN || tag == TAG_STRING
}

/// Whether `tag` introduces an element value that is one constant-pool index.
#[verifier::when_used_as_spec(spec_is_const_tag)]
pub fn is_const_tag(tag: u8) -> (b: bool)
    ensures
        b == spec_is_const_tag(tag),
{
    tag == TAG_BYTE || tag == TAG_CHAR || tag == TAG_DOUBLE || tag == TAG_FLOAT || tag == TAG_INT
        || tag == TAG_LONG || tag == TAG_SHORT || tag == TAG_BOOLEAN || tag == TAG_STRING
}

/// The decoder of one element value, as a function of the position.
pub open spec fn element_value_at(bytes: Seq<u8>, depth: Depth) -> spec_fn(int) -> Decoded<
    ElementValueView,
>
    decreases depth.left, 1int,
{
    |pos: int| spec_element_value(bytes, pos, depth)
}

/// An element value at `pos`: a tag byte, then what the tag calls for. A
/// nested annotation and an array each take one level of `depth`.
pub open spec fn spec_element_value(bytes: Seq<u8>, pos: int, depth: Depth) -> Decoded<
    ElementValueView,
>
    decreases depth.left, 0int,
{
    match spec_u1(bytes, pos) {
        Err(e) => Err(e),
        Ok((tag, body)) => if is_const_tag(tag) {
            match spec_u2(bytes, body) {
                Err(e) => Err(e),
                Ok((index, end)) => Ok((ElementValueView::ConstValue(index), end)),
            }
        } else if tag == TAG_ENUM {
            match spec_u2_run(bytes, body, 2) {
                Err(e) => Err(e),
                Ok((names, end)) => Ok(
                    (
                        ElementValueView::EnumConst {
                            type_name_index: names[0],
                            const_name_index: names[1],
                        },
                        end,
                    ),
                ),
            }
        } else if tag == TAG_CLASS {
            match spec_u2(bytes, body) {
                Err(e) => Err(e),
                Ok((index, end)) => Ok((ElementValueView::ClassInfo(index), end)),
            }
        } else if tag == TAG_ANNOTATION {
            match depth.spec_descend(pos) {
                Err(e) => Err(e),
                Ok(inner) => match spec_annotation(bytes, body, inner) {
                    Err(e) => Err(e),
                    Ok((annotation, end)) => Ok((ElementValueView::Annotation(annotation), end)),
                },
            }
        } else if tag == TAG_ARRAY {
            match depth.spec_descend(pos) {
                Err(e) => Err(e),
                Ok(inner) => match spec_counted(bytes, body, element_value_at(bytes, inner)) {
                    Err(e) => Err(e),
                    Ok((values, end)) => Ok((ElementValueView::Array { values }, end)),
                },
            }
        } else {
            Err(DecodeErrorView::InvalidElementValueTag { tag, offset: pos })
        },
    }
}

/// The decoder of one element-value pair, as a function of the position.
pub open spec fn element_value_pair_at(bytes: Seq<u8>, depth: Depth) -> spec_fn(int) -> Decoded<
    ElementValuePairView,
>
    decreases depth.left, 3int,
{
    |pos: int| spec_element_value_pair(bytes, pos, depth)
}

/// An element-value pair at `pos`: the index of the element's name, then its value.
pub open spec fn spec_element_value_pair(bytes: Seq<u8>, pos: int, depth: Depth) -> Decoded<
    ElementValuePairView,
>
    decreases depth.left, 2int,
{
    match spec_u2(bytes, pos) {
        Err(e) => Err(e),
        Ok((element_name_index, body)) => match spec_element_value(bytes, body, depth) {
            Err(e) => Err(e),
            Ok((value, end)) => Ok((ElementValuePairView { element_name_index, value }, end)),
        },
    }
}

/// The decoder of one annotation, as a function of the position.
pub open spec fn annotation_at(bytes: Seq<u8>, depth: Depth) -> spec_fn(int) -> Decoded<
    AnnotationView,
>
    decreases depth.left, 5int,
{
    |pos: int| spec_annotation(bytes, pos, depth)
}

/// An annotation at `pos`: the index of its type, then a counted run of
/// element-value pairs.
pub open spec fn spec_annotation(bytes: Seq<u8>, pos: int, depth: Depth) -> Decoded<AnnotationView>
    decreases depth.left, 4int,
{
    match spec_u2(bytes, pos) {
        Err(e) => Err(e),
        Ok((type_index, body)) => match spec_counted(
            bytes,
            body,
            element_value_pair_at(bytes, depth),
        ) {
            Err(e) => Err(e),
            Ok((element_value_pairs, end)) => Ok(
                (AnnotationView { type_index, element_value_pairs }, end),
            ),
        },
    }
}

/// The decoder of one local-variable range, as a function of the position.
pub open spec fn local_var_at(bytes: Seq<u8>) -> spec_fn(int) -> Decoded<LocalVar> {
    |pos: int| spec_local_var(bytes, pos)
}

/// A local-variable range at `pos`: three 16-bit values.
pub open spec fn spec_local_var(bytes: Seq<u8>, pos: int) -> Decoded<LocalVar> {
    match spec_u2_run(bytes, pos, 3) {
        Err(e) => Err(e),
        Ok((fields, end)) => Ok(
            (LocalVar { start_pc: fields[0], length: fields[1], index: fields[2] }, end),
        ),
    }
}

/// The target info at `pos` that `target_type` calls for. A `target_type`
/// outside every known range is refused at `pos`, the position just after
/// it, before anything is read.
pub open spec fn spec_target_info(bytes: Seq<u8>, pos: int, target_type: u8) -> Decoded<
    TargetInfoView,
> {
    if target_type == 0x00 || target_type == 0x01 {
        match spec_u1(bytes, pos) {
            Err(e) => Err(e),
            Ok((index, end)) => Ok((TargetInfoView::TypeParameter(index), end)),
        }
    } else if target_type == 0x10 {
        match spec_u2(bytes, pos) {
            Err(e) => Err(e),
            Ok((index, end)) => Ok((TargetInfoView::Supertype(index), end)),
        }
    } else if target_type == 0x11 || target_type == 0x12 {
        match spec_repeat(u1_at(bytes), pos, 2) {
            Err(e) => Err(e),
            Ok((indices, end)) => Ok(
                (
                    TargetInfoView::TypeParameterBound {
                        type_parameter_index: indices[0],
                        bound_index: indices[1],
                    },
                    end,
                ),
            ),
        }
    } else if 0x13 <= target_type <= 0x15 {
        Ok((TargetInfoView::Empty, pos))
    } else if target_type == 0x16 {
        match spec_u1(bytes, pos) {
            Err(e) => Err(e),
            Ok((index, end)) => Ok((TargetInfoView::FormalParameter(index), end)),
        }
    } else if target_type == 0x17 {
        match spec_u2(bytes, pos) {
            Err(e) => Err(e),
            Ok((index, end)) => Ok((TargetInfoView::Throws(index), end)),
        }
    } else if target_type == 0x40 || target_type == 0x41 {
        match spec_counted(bytes, pos, local_var_at(bytes)) {
            Err(e) => Err(e),
            Ok((table, end)) => Ok((TargetInfoView::LocalVar { table }, end)),
        }
    } else if target_type == 0x42 {
        match spec_u2(bytes, pos) {
            Err(e) => Err(e),
            Ok((index, end)) => Ok((TargetInfoView::Catch(index), end)),
        }
    } else if 0x43 <= target_type <= 0x46 {
        match spec_u2(bytes, pos) {
            Err(e) => Err(e),
            Ok((offset, end)) => Ok((TargetInfoView::Offset(offset), end)),
        }
    } else if 0x47 <= target_type <= 0x4B {
        match spec_u2(bytes, pos) {
            Err(e) => Err(e),
            Ok((offset, next)) => match spec_u1(bytes, next) {
                Err(e) => Err(e),
                Ok((type_argument_index, end)) => Ok(
                    (TargetInfoView::TypeArgument { offset, type_argument_index }, end),
                ),
            },
        }
    } else {
        Err(DecodeErrorView::InvalidTargetType { byte: target_type, offset: pos })
    }
}

/// The decoder of one step of a type path, as a function of the position.
pub open spec fn type_path_segment_at(bytes: Seq<u8>) -> spec_fn(int) -> Decoded<TypePathSegment> {
    |pos: int| spec_type_path_segment(bytes, pos)
}

/// One step of a type path at `pos`: two bytes.
pub open spec fn spec_type_path_segment(bytes: Seq<u8>, pos: int) -> Decoded<TypePathSegment> {
    match spec_repeat(u1_at(bytes), pos, 2) {
        Err(e) => Err(e),
        Ok((fields, end)) => Ok(
            (TypePathSegment { type_path_kind: fields[0], type_argument_index: fields[1] }, end),
        ),
    }
}

/// A type path at `pos`: a one-byte count and that many steps.
pub open spec fn spec_type_path(bytes: Seq<u8>, pos: int) -> Decoded<TypePathView> {
    match spec_u1(bytes, pos) {
        Err(e) => Err(e),
        Ok((count, first)) => match spec_repeat(type_path_segment_at(bytes), first, count as nat) {
            Err(e) => Err(e),
            Ok((path, end)) => Ok((TypePathView { path }, end)),
        },
    }
}

/// The decoder of one type annotation, as a function of the position.
pub open spec fn type_annotation_at(bytes: Seq<u8>, depth: Depth) -> spec_fn(int) -> Decoded<
    TypeAnnotationView,
> {
    |pos: int| spec_type_annotation(bytes, pos, depth)
}

/// A type annotation at `pos`: the `target_type` byte, the target info it
/// calls for, a type path, the index of the annotation's type, and a counted
/// run of element-value pairs.
pub open spec fn spec_type_annotation(bytes: Seq<u8>, pos: int, depth: Depth) -> Decoded<
    TypeAnnotationView,
> {
    match spec_u1(bytes, pos) {
        Err(e) => Err(e),
        Ok((target_type, at_info)) => match spec_target_info(bytes, at_info, target_type) {
            Err(e) => Err(e),
            Ok((target_info, at_path)) => match spec_type_path(bytes, at_path) {
                Err(e) => Err(e),
                Ok((target_path, at_type)) => match spec_u2(bytes, at_type) {
                    Err(e) => Err(e),
                    Ok((type_index, at_pairs)) => match spec_counted(
                        bytes,
                        at_pairs,
                        element_value_pair_at(bytes, depth),
                    ) {
                        Err(e) => Err(e),
                        Ok((element_value_pairs, end)) => Ok(
                            (
                                TypeAnnotationView {
                                    target_type,
                                    target_info,
                                    target_path,
                                    type_index,
                                    element_value_pairs,
                                },
                                end,
                            ),
                        ),
                    },
                },
            },
        },
    }
}

/// Reads `count` element values in a row.
#[verifier::loop_isolation(false)]
pub fn element_values_from_bytes(parser: &mut ClassParser<'_>, count: u16, depth: Depth) -> (r:
    Result<Vec<ElementValue>, DecodeError>)
    ensures
        final(parser)@.bytes == old(parser)@.bytes,
        final(parser)@.position >= old(parser)@.position,
        viewed_list(r, final(parser)@.position) == spec_repeat(
            element_value_at(old(parser)@.bytes, depth),
            old(parser)@.position,
            count as nat,
        ),
    decreases depth.left, 1int,
{
    let ghost item = element_value_at(parser@.bytes, depth);
    let ghost first = parser@.position;
    let mut values: Vec<ElementValue> = Vec::new();
    let mut i: u16 = 0;
    proof {
        lemma_repeat_start(item, first, count as nat);
    }
    while i < count
        invariant
            parser@.bytes == old(parser)@.bytes,
            parser@.position >= first,
            i <= count,
            spec_repeat(item, first, count as nat) == prepend(
                views(values@),
                spec_repeat(item, parser@.position, (count - i) as nat),
            ),
        decreases count - i,
    {
        proof {
            lemma_repeat_step(item, views(values@), parser@.position, (count - i) as nat);
        }
        let value = element_value_from_bytes(parser, depth)?;
        proof {
            lemma_views_push(values@, value);
        }
        values.push(value);
        i = i + 1;
    }
    proof {
        lemma_repeat_done(item, views(values@), parser@.position);
    }
    Ok(values)
}

/// Reads one element value: its tag byte, then what the tag calls for.
pub fn element_value_from_bytes(parser: &mut ClassParser<'_>, depth: Depth) -> (r: Result<
    ElementValue,
    DecodeError,
>)
    ensures
        final(parser)@.bytes == old(parser)@.bytes,
        final(parser)@.position >= old(parser)@.position,
        viewed(r, final(parser)@.position) == spec_element_value(
            old(parser)@.bytes,
            old(parser)@.position,
            depth,
        ),
    decreases depth.left, 0int,
{
    let start: usize = parser.position();
    let tag: u8 = parser.u1()?;
    if is_const_tag(tag) {
        let const_value_index: u16 = parser.u2()?;
        Ok(ElementValue::ConstValue(const_value_index))
    } else if tag == TAG_ENUM {
        proof {
            reveal_with_fuel(spec_repeat, 3);
        }
        let type_name_index: u16 = parser.u2()?;
        let const_name_index: u16 = parser.u2()?;
        Ok(ElementValue::EnumConst { type_name_index, const_name_index })
    } else if tag == TAG_CLASS {
        let class_info_index: u16 = parser.u2()?;
        Ok(ElementValue::ClassInfo(class_info_index))
    } else if tag == TAG_ANNOTATION {
        let inner = depth.descend(start)?;
        let annotation = annotation_from_bytes(parser, inner)?;
        Ok(ElementValue::Annotation(annotation))
    } else if tag == TAG_ARRAY {
        let inner = depth.descend(start)?;
        let count: u16 = parser.u2()?;
        let values = element_values_from_bytes(parser, count, inner)?;
        proof {
            lemma_array_view(values);
        }
        Ok(ElementValue::Array { values })
    } else {
        Err(DecodeError::InvalidElementValueTag { tag, offset: start })
    }
}

/// Reads one element-value pair: the index of the element's name, then its value.
pub fn element_value_pair_from_bytes(parser: &mut ClassParser<'_>, depth: Depth) -> (r: Result<
    ElementValuePair,
    DecodeError,
>)
    ensures
        final(parser)@.bytes == old(parser)@.bytes,
        final(parser)@.position >= old(parser)@.position,
        viewed(r, final(parser)@.position) == spec_element_value_pair(
            old(parser)@.bytes,
            old(parser)@.position,
            depth,
        ),
    decreases depth.left, 2int,
{
    let element_name_index: u16 = parser.u2()?;
    let element_value = element_value_from_bytes(parser, depth)?;
    Ok(ElementValuePair { element_name_index, value: element_value })
}

/// Reads a 16-bit count and that many element-value pairs.
#[verifier::loop_isolation(false)]
pub fn element_value_pairs_from_bytes(parser: &mut ClassParser<'_>, depth: Depth) -> (r: Result<
    Vec<ElementValuePair>,
    DecodeError,
>)
    ensures
        final(parser)@.bytes == old(parser)@.bytes,
        final(parser)@.position >= old(parser)@.position,
        viewed_list(r, final(parser)@.position) == spec_counted(
            old(parser)@.bytes,
            old(parser)@.position,
            element_value_pair_at(old(parser)@.bytes, depth),
        ),
    decreases depth.left, 3int,
{
    let count: u16 = parser.u2()?;
    let ghost item = element_value_pair_at(parser@.bytes, depth);
    let ghost first = parser@.position;
    let mut pairs: Vec<ElementValuePair> = Vec::new();
    let mut i: u16 = 0;
    proof {
        lemma_repeat_start(item, first, count as nat);
    }
    while i < count
        invariant
            parser@.bytes == old(parser)@.bytes,
            parser@.position >= first,
            i <= count,
            spec_repeat(item, first, count as nat) == prepend(
                views(pairs@),
                spec_repeat(item, parser@.position, (count - i) as nat),
            ),
        decreases count - i,
    {
        proof {
            lemma_repeat_step(item, views(pairs@), parser@.position, (count - i) as nat);
        }
        let pair = element_value_pair_from_bytes(parser, depth)?;
        proof {
            lemma_views_push(pairs@, pair);
        }
        pairs.push(pair);
        i = i + 1;
    }
    proof {
        lemma_repeat_done(item, views(pairs@), parser@.position);
    }
    Ok(pairs)
}

/// Reads one annotation: the index of its type, then its element-value pairs.
pub fn annotation_from_bytes(parser: &mut ClassParser<'_>, depth: Depth) -> (r: Result<
    Annotation,
    DecodeError,
>)
    ensures
        final(parser)@.bytes == old(parser)@.bytes,
        final(parser)@.position >= old(parser)@.position,
        viewed(r, final(parser)@.position) == spec_annotation(
            old(parser)@.bytes,
            old(parser)@.position,
            depth,
        ),
    decreases depth.left, 4int,
{
    let type_index: u16 = parser.u2()?;
    let element_value_pairs = element_value_pairs_from_bytes(parser, depth)?;
    proof {
        lemma_annotation_view(type_index, element_value_pairs);
    }
    Ok(Annotation { type_index, element_value_pairs })
}

/// Reads one local-variable range of a type annotation's target.
pub fn local_var_from_bytes(parser: &mut ClassParser<'_>) -> (r: Result<LocalVar, DecodeError>)
    ensures
        final(parser)@.bytes == old(parser)@.bytes,
        final(parser)@.position >= old(parser)@.position,
        plain(r, final(parser)@.position) == spec_local_var(
            old(parser)@.bytes,
            old(parser)@.position,
        ),
{
    proof {
        reveal_with_fuel(spec_repeat, 4);
    }
    let start_pc: u16 = parser.u2()?;
    let length: u16 = parser.u2()?;
    let index: u16 = parser.u2()?;
    Ok(LocalVar { start_pc, length, index })
}

/// Reads a 16-bit count and that many local-variable ranges.
#[verifier::loop_isolation(false)]
pub fn local_vars_from_bytes(parser: &mut ClassParser<'_>) -> (r: Result<
    Vec<LocalVar>,
    DecodeError,
>)
    ensures
        final(parser)@.bytes == old(parser)@.bytes,
        final(parser)@.position >= old(parser)@.position,
        viewed(r, final(parser)@.position) == spec_counted(
            old(parser)@.bytes,
            old(parser)@.position,
            local_var_at(old(parser)@.bytes),
        ),
{
    let count: u16 = parser.u2()?;
    let ghost item = local_var_at(parser@.bytes);
    let ghost first = parser@.position;
    let mut table: Vec<LocalVar> = Vec::new();
    let mut i: u16 = 0;
    proof {
        lemma_repeat_start(item, first, count as nat);
    }
    while i < count
        invariant
            parser@.bytes == old(parser)@.bytes,
            parser@.position >= first,
            i <= count,
            spec_repeat(item, first, count as nat) == prepend(
                table@,
                spec_repeat(item, parser@.position, (count - i) as nat),
            ),
        decreases count - i,
    {
        proof {
            lemma_repeat_step(item, table@, parser@.position, (count - i) as nat);
        }
        let entry = local_var_from_bytes(parser)?;
        table.push(entry);
        i = i + 1;
    }
    proof {
        lemma_repeat_done(item, table@, parser@.position);
    }
    Ok(table)
}

/// Reads the target info that `target_type` calls for.
pub fn target_info_from_bytes(parser: &mut ClassParser<'_>, target_type: u8) -> (r: Result<
    TargetInfo,
    DecodeError,
>)
    ensures
        final(parser)@.bytes == old(parser)@.bytes,
        final(parser)@.position >= old(parser)@.position,
        viewed(r, final(parser)@.position) == spec_target_info(
            old(parser)@.bytes,
            old(parser)@.position,
            target_type,
        ),
{
    if target_type == 0x00 || target_type == 0x01 {
        let type_parameter_index: u8 = parser.u1()?;
        Ok(TargetInfo::TypeParameter(type_parameter_index))
    } else if target_type == 0x10 {
        let supertype_index: u16 = parser.u2()?;
        Ok(TargetInfo::Supertype(supertype_index))
    } else if target_type == 0x11 || target_type == 0x12 {
        proof {
            reveal_with_fuel(spec_repeat, 3);
        }
        let type_parameter_index: u8 = parser.u1()?;
        let bound_index: u8 = parser.u1()?;
        Ok(TargetInfo::TypeParameterBound { type_parameter_index, bound_index })
    } else if 0x13 <= target_type && target_type <= 0x15 {
        Ok(TargetInfo::Empty)
    } else if target_type == 0x16 {
        let formal_parameter_index: u8 = parser.u1()?;
        Ok(TargetInfo::FormalParameter(formal_parameter_index))
    } else if target_type == 0x17 {
        let throws_type_index: u16 = parser.u2()?;
        Ok(TargetInfo::Throws(throws_type_index))
    } else if target_type == 0x40 || target_type == 0x41 {
        let table = local_vars_from_bytes(parser)?;
        Ok(TargetInfo::LocalVar { table })
    } else if target_type == 0x42 {
        let exception_table_index: u16 = parser.u2()?;
        Ok(TargetInfo::Catch(exception_table_index))
    } else if 0x43 <= target_type && target_type <= 0x46 {
        let offset: u16 = parser.u2()?;
        Ok(TargetInfo::Offset(offset))
    } else if 0x47 <= target_type && target_type <= 0x4B {
        let offset: u16 = parser.u2()?;
        let type_argument_index: u8 = parser.u1()?;
        Ok(TargetInfo::TypeArgument { offset, type_argument_index })
    } else {
        Err(DecodeError::InvalidTargetType { byte: target_type, offset: parser.position() })
    }
}

/// Reads one step of a type path.
pub fn type_path_segment_from_bytes(parser: &mut ClassParser<'_>) -> (r: Result<
    TypePathSegment,
    DecodeError,
>)
    ensures
        final(parser)@.bytes == old(parser)@.bytes,
        final(parser)@.position >= old(parser)@.position,
        plain(r, final(parser)@.position) == spec_type_path_segment(
            old(parser)@.bytes,
            old(parser)@.position,
        ),
{
    proof {
        reveal_with_fuel(spec_repeat, 3);
    }
    let type_path_kind: u8 = parser.u1()?;
    let type_argument_index: u8 = parser.u1()?;
    Ok(TypePathSegment { type_path_kind, type_argument_index })
}

/// Reads a type path: a one-byte count and that many steps.
#[verifier::loop_isolation(false)]
pub fn type_path_from_bytes(parser: &mut ClassParser<'_>) -> (r: Result<TypePath, DecodeError>)
    ensures
        final(parser)@.bytes == old(parser)@.bytes,
        final(parser)@.position >= old(parser)@.position,
        viewed(r, final(parser)@.position) == spec_type_path(
            old(parser)@.bytes,
            old(parser)@.position,
        ),
{
    let count: u8 = parser.u1()?;
    let ghost item = type_path_segment_at(parser@.bytes);
    let ghost first = parser@.position;
    let mut path: Vec<TypePathSegment> = Vec::new();
    let mut i: u8 = 0;
    proof {
        lemma_repeat_start(item, first, count as nat);
    }
    while i < count
        invariant
            parser@.bytes == old(parser)@.bytes,
            parser@.position >= first,
            i <= count,
            spec_repeat(item, first, count as nat) == prepend(
                path@,
                spec_repeat(item, parser@.position, (count - i) as nat),
            ),
        decreases count - i,
    {
        proof {
            lemma_repeat_step(item, path@, parser@.position, (count - i) as nat);
        }
        let segment = type_path_segment_from_bytes(parser)?;
        path.push(segment);
        i = i + 1;
    }
    proof {
        lemma_repeat_done(item, path@, parser@.position);
    }
    Ok(TypePath { path })
}

/// Reads one type annotation.
pub fn type_annotation_from_bytes(parser: &mut ClassParser<'_>, depth: Depth) -> (r: Result<
    TypeAnnotation,
    DecodeError,
>)
    ensures
        final(parser)@.bytes == old(parser)@.bytes,
        final(parser)@.position >= old(parser)@.position,
        viewed(r, final(parser)@.position) == spec_type_annotation(
            old(parser)@.bytes,
            old(parser)@.position,
            depth,
        ),
{
    let target_type: u8 = parser.u1()?;
    let target_info = target_info_from_bytes(parser, target_type)?;
    let target_path = type_path_from_bytes(parser)?;
    let type_index: u16 = parser.u2()?;
    let element_value_pairs = element_value_pairs_from_bytes(parser, depth)?;
    Ok(TypeAnnotation { target_type, target_info, target_path, type_index, element_value_pairs })
}

/// Reads a 16-bit count and that many annotations.
#[verifier::loop_isolation(false)]
pub fn annotations_from_bytes(parser: &mut ClassParser<'_>, depth: Depth) -> (r: Result<
    Vec<Annotation>,
    DecodeError,
>)
    ensures
        final(parser)@.bytes == old(parser)@.bytes,
        final(parser)@.position >= old(parser)@.position,
        viewed_list(r, final(parser)@.position) == spec_counted(
            old(parser)@.bytes,
            old(parser)@.position,
            annotation_at(old(parser)@.bytes, depth),
        ),
{
    let count: u16 = parser.u2()?;
    let ghost item_at = annotation_at(parser@.bytes, depth);
    let ghost first = parser@.position;
    let mut items: Vec<Annotation> = Vec::new();
    let mut i: u16 = 0;
    proof {
        lemma_repeat_start(item_at, first, count as nat);
    }
    while i < count
        invariant
            parser@.bytes == old(parser)@.bytes,
            parser@.position >= first,
            i <= count,
            spec_repeat(item_at, first, count as nat) == prepend(
                views(items@),
                spec_repeat(item_at, parser@.position, (count - i) as nat),
            ),
        decreases count - i,
    {
        proof {
            lemma_repeat_step(item_at, views(items@), parser@.position, (count - i) as nat);
        }
        let item = annotation_from_bytes(parser, depth)?;
        proof {
            lemma_views_push(items@, item);
        }
        items.push(item);
        i = i + 1;
    }
    proof {
        lemma_repeat_done(item_at, views(items@), parser@.position);
    }
    Ok(items)
}

/// Reads a 16-bit count and that many type annotations.
#[verifier::loop_isolation(false)]
pub fn type_annotations_from_bytes(parser: &mut ClassParser<'_>, depth: Depth) -> (r: Result<
    Vec<TypeAnnotation>,
    DecodeError,
>)
    ensures
        final(parser)@.bytes == old(parser)@.bytes,
        final(parser)@.position >= old(parser)@.position,
        viewed_list(r, final(parser)@.position) == spec_counted(
            old(parser)@.bytes,
            old(parser)@.position,
            type_annotation_at(old(parser)@.bytes, depth),
        ),
{
    let count: u16 = parser.u2()?;
    let ghost item_at = type_annotation_at(parser@.bytes, depth);
    let ghost first = parser@.position;
    let mut items: Vec<TypeAnnotation> = Vec::new();
    let mut i: u16 = 0;
    proof {
        lemma_repeat_start(item_at, first, count as nat);
    }
    while i < count
        invariant
            parser@.bytes == old(parser)@.bytes,
            parser@.position >= first,
            i <= count,
            spec_repeat(item_at, first, count as nat) == prepend(
                views(items@),
                spec_repeat(item_at, parser@.position, (count - i) as nat),
            ),
        decreases count - i,
    {
        proof {
            lemma_repeat_step(item_at, views(items@), parser@.position, (count - i) as nat);
        }
        let item = type_annotation_from_bytes(parser, depth)?;
        proof {
            lemma_views_push(items@, item);
        }
        items.push(item);
        i = i + 1;
    }
    proof {
        lemma_repeat_done(item_at, views(items@), parser@.position);
    }
    Ok(items)
}

} // verus!

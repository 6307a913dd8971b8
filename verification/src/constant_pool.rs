//! The constant pool: the table of literals and symbolic references that the
//! rest of a class file names by index.
//!
//! An index is 1-based and counts the entries as they were decoded: index 1
//! names the first entry, and index 0 names none. Every entry takes one place
//! in the table, a `Long` and a `Double` too.

use crate::cursor::{spec_take, spec_u1, spec_u2, spec_u4, ClassParser};
use crate::error::{ConstantKind, DecodeError, DecodeErrorView};
use crate::outcome::{viewed, viewed_list, views, Decoded};
use crate::repeat::{
    lemma_repeat_done, lemma_repeat_start, lemma_repeat_step, lemma_views_push, prepend,
    spec_repeat, spec_u2_run,
};
use vstd::prelude::*;

verus! {

/// One entry of the constant pool. A `Float` and a `Double` hold the bits of
/// their value, as the class file has them.
#[derive(Clone, Copy, Debug, PartialEq, Eq)]
#[allow(inconsistent_fields)]
pub enum ConstantPoolEntry<'class> {
    // Tag: 1
    Utf8 { bytes: &'class [u8] },
    // Tag: 3
    Integer { bytes: u32 },
    // Tag: 4
    Float { bits: u32 },
    // Tag: 5
    Long { value: u64 },
    // Tag: 6
    Double { bits: u64 },
    // Tag: 7
    Class { name_index: u16 },
    // Tag: 8
    String { string_index: u16 },
    // Tag: 9
    FieldRef { class_index: u16, name_and_type_index: u16 },
    // Tag: 10
    MethodRef { class_index: u16, name_and_type_index: u16 },
    // Tag: 11
    InstanceMethodRef { class_index: u16, name_and_type_index: u16 },
    // Tag: 12
    NameAndType { name_index: u16, descriptor_index: u16 },
    // Tag: 15
    MethodHandle { reference_kind: u8, reference_index: u16 },
    // Tag: 16
    MethodType { reference_index: u16 },
    // Tag: 17
    Dynamic { bootstrap_method_attr_index: u16, name_and_type_index: u16 },
    // Tag: 18
    InvokeDynamic { bootstrap_method_attr_index: u16, name_and_type_index: u16 },
    // Tag: 19
    Module { name_index: u16 },
    // Tag: 20
    Package { name_index: u16 },
}

/// The mathematical value of a [`ConstantPoolEntry`]: the text of a `Utf8`
/// entry is the sequence of its bytes.
#[allow(inconsistent_fields)]
pub ghost enum ConstantPoolEntryView {
    Utf8 { bytes: Seq<u8> },
    Integer { bytes: u32 },
    Float { bits: u32 },
    Long { value: u64 },
    Double { bits: u64 },
    Class { name_index: u16 },
    String { string_index: u16 },
    FieldRef { class_index: u16, name_and_type_index: u16 },
    MethodRef { class_index: u16, name_and_type_index: u16 },
    InstanceMethodRef { class_index: u16, name_and_type_index: u16 },
    NameAndType { name_index: u16, descriptor_index: u16 },
    MethodHandle { reference_kind: u8, reference_index: u16 },
    MethodType { reference_index: u16 },
    Dynamic { bootstrap_method_attr_index: u16, name_and_type_index: u16 },
    InvokeDynamic { bootstrap_method_attr_index: u16, name_and_type_index: u16 },
    Module { name_index: u16 },
    Package { name_index: u16 },
}

impl ConstantPoolEntryView {
    /// The kind of this entry.
    pub open spec fn kind(self) -> ConstantKind {
        match self {
            ConstantPoolEntryView::Utf8 { .. } => ConstantKind::Utf8,
            ConstantPoolEntryView::Integer { .. } => ConstantKind::Integer,
            ConstantPoolEntryView::Float { .. } => ConstantKind::Float,
            ConstantPoolEntryView::Long { .. } => ConstantKind::Long,
            ConstantPoolEntryView::Double { .. } => ConstantKind::Double,
            ConstantPoolEntryView::Class { .. } => ConstantKind::Class,
            ConstantPoolEntryView::String { .. } => ConstantKind::String,
            ConstantPoolEntryView::FieldRef { .. } => ConstantKind::FieldRef,
            ConstantPoolEntryView::MethodRef { .. } => ConstantKind::MethodRef,
            ConstantPoolEntryView::InstanceMethodRef { .. } => ConstantKind::InstanceMethodRef,
            ConstantPoolEntryView::NameAndType { .. } => ConstantKind::NameAndType,
            ConstantPoolEntryView::MethodHandle { .. } => ConstantKind::MethodHandle,
            ConstantPoolEntryView::MethodType { .. } => ConstantKind::MethodType,
            ConstantPoolEntryView::Dynamic { .. } => ConstantKind::Dynamic,
            ConstantPoolEntryView::InvokeDynamic { .. } => ConstantKind::InvokeDynamic,
            ConstantPoolEntryView::Module { .. } => ConstantKind::Module,
            ConstantPoolEntryView::Package { .. } => ConstantKind::Package,
        }
    }
}

impl<'class> View for ConstantPoolEntry<'class> {
    type V = ConstantPoolEntryView;

    open spec fn view(&self) -> ConstantPoolEntryView {
        match self {
            ConstantPoolEntry::Utf8 { bytes } => ConstantPoolEntryView::Utf8 { bytes: bytes@ },
            ConstantPoolEntry::Integer { bytes } => ConstantPoolEntryView::Integer {
                bytes: *bytes,
            },
            ConstantPoolEntry::Float { bits } => ConstantPoolEntryView::Float { bits: *bits },
            ConstantPoolEntry::Long { value } => ConstantPoolEntryView::Long { value: *value },
            ConstantPoolEntry::Double { bits } => ConstantPoolEntryView::Double { bits: *bits },
            ConstantPoolEntry::Class { name_index } => ConstantPoolEntryView::Class {
                name_index: *name_index,
            },
            ConstantPoolEntry::String { string_index } => ConstantPoolEntryView::String {
                string_index: *string_index,
            },
            ConstantPoolEntry::FieldRef {
                class_index,
                name_and_type_index,
            } => ConstantPoolEntryView::FieldRef {
                class_index: *class_index,
                name_and_type_index: *name_and_type_index,
            },
            ConstantPoolEntry::MethodRef {
                class_index,
                name_and_type_index,
            } => ConstantPoolEntryView::MethodRef {
                class_index: *class_index,
                name_and_type_index: *name_and_type_index,
            },
            ConstantPoolEntry::InstanceMethodRef {
                class_index,
                name_and_type_index,
            } => ConstantPoolEntryView::InstanceMethodRef {
                class_index: *class_index,
                name_and_type_index: *name_and_type_index,
            },
            ConstantPoolEntry::NameAndType {
                name_index,
                descriptor_index,
            } => ConstantPoolEntryView::NameAndType {
                name_index: *name_index,
                descriptor_index: *descriptor_index,
            },
            ConstantPoolEntry::MethodHandle {
                reference_kind,
                reference_index,
            } => ConstantPoolEntryView::MethodHandle {
                reference_kind: *reference_kind,
                reference_index: *reference_index,
            },
            ConstantPoolEntry::MethodType { reference_index } => ConstantPoolEntryView::MethodType {
                reference_index: *reference_index,
            },
            ConstantPoolEntry::Dynamic {
                bootstrap_method_attr_index,
                name_and_type_index,
            } => ConstantPoolEntryView::Dynamic {
                bootstrap_method_attr_index: *bootstrap_method_attr_index,
                name_and_type_index: *name_and_type_index,
            },
            ConstantPoolEntry::InvokeDynamic {
                bootstrap_method_attr_index,
                name_and_type_index,
            } => ConstantPoolEntryView::InvokeDynamic {
                bootstrap_method_attr_index: *bootstrap_method_attr_index,
                name_and_type_index: *name_and_type_index,
            },
            ConstantPoolEntry::Module { name_index } => ConstantPoolEntryView::Module {
                name_index: *name_index,
            },
            ConstantPoolEntry::Package { name_index } => ConstantPoolEntryView::Package {
                name_index: *name_index,
            },
        }
    }
}

impl<'class> ConstantPoolEntry<'class> {
    /// The kind of this entry.
    pub fn kind(&self) -> (kind: ConstantKind)
        ensures
            kind == self@.kind(),
    {
        match self {
            ConstantPoolEntry::Utf8 { .. } => ConstantKind::Utf8,
            ConstantPoolEntry::Integer { .. } => ConstantKind::Integer,
            ConstantPoolEntry::Float { .. } => ConstantKind::Float,
            ConstantPoolEntry::Long { .. } => ConstantKind::Long,
            ConstantPoolEntry::Double { .. } => ConstantKind::Double,
            ConstantPoolEntry::Class { .. } => ConstantKind::Class,
            ConstantPoolEntry::String { .. } => ConstantKind::String,
            ConstantPoolEntry::FieldRef { .. } => ConstantKind::FieldRef,
            ConstantPoolEntry::MethodRef { .. } => ConstantKind::MethodRef,
            ConstantPoolEntry::InstanceMethodRef { .. } => ConstantKind::InstanceMethodRef,
            ConstantPoolEntry::NameAndType { .. } => ConstantKind::NameAndType,
            ConstantPoolEntry::MethodHandle { .. } => ConstantKind::MethodHandle,
            ConstantPoolEntry::MethodType { .. } => ConstantKind::MethodType,
            ConstantPoolEntry::Dynamic { .. } => ConstantKind::Dynamic,
            ConstantPoolEntry::InvokeDynamic { .. } => ConstantKind::InvokeDynamic,
            ConstantPoolEntry::Module { .. } => ConstantKind::Module,
            ConstantPoolEntry::Package { .. } => ConstantKind::Package,
        }
    }
}

/// The kind that the tag byte `tag` introduces, if it is a live tag. The
/// tags 2, 13 and 14 are gaps of the format, and none is above 20.
pub open spec fn spec_kind_of_tag(tag: u8) -> Option<ConstantKind> {
    if tag == 1 {
        Some(ConstantKind::Utf8)
    } else if tag == 3 {
        Some(ConstantKind::Integer)
    } else if tag == 4 {
        Some(ConstantKind::Float)
    } else if tag == 5 {
        Some(ConstantKind::Long)
    } else if tag == 6 {
        Some(ConstantKind::Double)
    } else if tag == 7 {
        Some(ConstantKind::Class)
    } else if tag == 8 {
        Some(ConstantKind::String)
    } else if tag == 9 {
        Some(ConstantKind::FieldRef)
    } else if tag == 10 {
        Some(ConstantKind::MethodRef)
    } else if tag == 11 {
        Some(ConstantKind::InstanceMethodRef)
    } else if tag == 12 {
        Some(ConstantKind::NameAndType)
    } else if tag == 15 {
        Some(ConstantKind::MethodHandle)
    } else if tag == 16 {
        Some(ConstantKind::MethodType)
    } else if tag == 17 {
        Some(ConstantKind::Dynamic)
    } else if tag == 18 {
        Some(ConstantKind::InvokeDynamic)
    } else if tag == 19 {
        Some(ConstantKind::Module)
    } else if tag == 20 {
        Some(ConstantKind::Package)
    } else {
        None
    }
}

/// The kind that the tag byte `tag` introduces, if it is a live tag.
#[verifier::when_used_as_spec(spec_kind_of_tag)]
pub fn kind_of_tag(tag: u8) -> (kind: Option<ConstantKind>)
    ensures
        kind == spec_kind_of_tag(tag),
{
    match tag {
        1 => Some(ConstantKind::Utf8),
        3 => Some(ConstantKind::Integer),
        4 => Some(ConstantKind::Float),
        5 => Some(ConstantKind::Long),
        6 => Some(ConstantKind::Double),
        7 => Some(ConstantKind::Class),
        8 => Some(ConstantKind::String),
        9 => Some(ConstantKind::FieldRef),
        10 => Some(ConstantKind::MethodRef),
        11 => Some(ConstantKind::InstanceMethodRef),
        12 => Some(ConstantKind::NameAndType),
        15 => Some(ConstantKind::MethodHandle),
        16 => Some(ConstantKind::MethodType),
        17 => Some(ConstantKind::Dynamic),
        18 => Some(ConstantKind::InvokeDynamic),
        19 => Some(ConstantKind::Module),
        20 => Some(ConstantKind::Package),
        _ => None,
    }
}

/// The 64-bit value whose upper half is `high` and whose lower half is `low`.
pub open spec fn spec_join_halves(high: u32, low: u32) -> u64 {
    ((high as u64) << 32) | (low as u64)
}

/// The 64-bit value whose upper half is `high` and whose lower half is
/// `low`: `high` shifted left by 32 bits, or-ed with `low`.
#[verifier::when_used_as_spec(spec_join_halves)]
pub fn join_halves(high: u32, low: u32) -> (value: u64)
    ensures
        value == spec_join_halves(high, low),
{
    ((high as u64) << 32) | (low as u64)
}

/// The two halves of a joined value do not disturb one another: the value is
/// `high` times 2 to the 32nd plus `low`, its upper 32 bits are `high` and
/// its lower 32 bits are `low`.
pub proof fn lemma_join_halves(high: u32, low: u32)
    ensures
        spec_join_halves(high, low) == high as int * 0x1_0000_0000 + low as int,
        (spec_join_halves(high, low) >> 32) as u32 == high,
        (spec_join_halves(high, low) & 0xFFFF_FFFF) as u32 == low,
{
    let h: u64 = high as u64;
    let l: u64 = low as u64;
    assert(h <= 0xFFFF_FFFF && l <= 0xFFFF_FFFF);
    assert(((h << 32) | l) == h * 0x1_0000_0000 + l && ((h << 32) | l) >> 32 == h && ((h << 32)
        | l) & 0xFFFF_FFFF == l) by (bit_vector)
        requires
            h <= 0xFFFF_FFFF,
            l <= 0xFFFF_FFFF,
    ;
}

/// The body of a constant-pool entry of kind `kind` at `pos`, the position
/// after its tag byte.
pub open spec fn spec_constant_pool_body(bytes: Seq<u8>, pos: int, kind: ConstantKind) -> Decoded<
    ConstantPoolEntryView,
> {
    match kind {
        ConstantKind::Utf8 => match spec_u2(bytes, pos) {
            Err(e) => Err(e),
            Ok((length, text)) => match spec_take(bytes, text, length as int) {
                Err(e) => Err(e),
                Ok((bytes, end)) => Ok((ConstantPoolEntryView::Utf8 { bytes }, end)),
            },
        },
        ConstantKind::Integer => match spec_u4(bytes, pos) {
            Err(e) => Err(e),
            Ok((bytes, end)) => Ok((ConstantPoolEntryView::Integer { bytes }, end)),
        },
        ConstantKind::Float => match spec_u4(bytes, pos) {
            Err(e) => Err(e),
            Ok((bits, end)) => Ok((ConstantPoolEntryView::Float { bits }, end)),
        },
        ConstantKind::Long => match spec_u4(bytes, pos) {
            Err(e) => Err(e),
            Ok((high, next)) => match spec_u4(bytes, next) {
                Err(e) => Err(e),
                Ok((low, end)) => Ok(
                    (ConstantPoolEntryView::Long { value: join_halves(high, low) }, end),
                ),
            },
        },
        ConstantKind::Double => match spec_u4(bytes, pos) {
            Err(e) => Err(e),
            Ok((high, next)) => match spec_u4(bytes, next) {
                Err(e) => Err(e),
                Ok((low, end)) => Ok(
                    (ConstantPoolEntryView::Double { bits: join_halves(high, low) }, end),
                ),
            },
        },
        ConstantKind::Class => match spec_u2(bytes, pos) {
            Err(e) => Err(e),
            Ok((name_index, end)) => Ok((ConstantPoolEntryView::Class { name_index }, end)),
        },
        ConstantKind::String => match spec_u2(bytes, pos) {
            Err(e) => Err(e),
            Ok((string_index, end)) => Ok((ConstantPoolEntryView::String { string_index }, end)),
        },
        ConstantKind::FieldRef => match spec_u2_run(bytes, pos, 2) {
            Err(e) => Err(e),
            Ok((indices, end)) => Ok(
                (
                    ConstantPoolEntryView::FieldRef {
                        class_index: indices[0],
                        name_and_type_index: indices[1],
                    },
                    end,
                ),
            ),
        },
        ConstantKind::MethodRef => match spec_u2_run(bytes, pos, 2) {
            Err(e) => Err(e),
            Ok((indices, end)) => Ok(
                (
                    ConstantPoolEntryView::MethodRef {
                        class_index: indices[0],
                        name_and_type_index: indices[1],
                    },
                    end,
                ),
            ),
        },
        ConstantKind::InstanceMethodRef => match spec_u2_run(bytes, pos, 2) {
            Err(e) => Err(e),
            Ok((indices, end)) => Ok(
                (
                    ConstantPoolEntryView::InstanceMethodRef {
                        class_index: indices[0],
                        name_and_type_index: indices[1],
                    },
                    end,
                ),
            ),
        },
        ConstantKind::NameAndType => match spec_u2_run(bytes, pos, 2) {
            Err(e) => Err(e),
            Ok((indices, end)) => Ok(
                (
                    ConstantPoolEntryView::NameAndType {
                        name_index: indices[0],
                        descriptor_index: indices[1],
                    },
                    end,
                ),
            ),
        },
        ConstantKind::MethodHandle => match spec_u1(bytes, pos) {
            Err(e) => Err(e),
            Ok((reference_kind, next)) => match spec_u2(bytes, next) {
                Err(e) => Err(e),
                Ok((reference_index, end)) => Ok(
                    (ConstantPoolEntryView::MethodHandle { reference_kind, reference_index }, end),
                ),
            },
        },
        ConstantKind::MethodType => match spec_u2(bytes, pos) {
            Err(e) => Err(e),
            Ok((reference_index, end)) => Ok(
                (ConstantPoolEntryView::MethodType { reference_index }, end),
            ),
        },
        ConstantKind::Dynamic => match spec_u2_run(bytes, pos, 2) {
            Err(e) => Err(e),
            Ok((indices, end)) => Ok(
                (
                    ConstantPoolEntryView::Dynamic {
                        bootstrap_method_attr_index: indices[0],
                        name_and_type_index: indices[1],
                    },
                    end,
                ),
            ),
        },
        ConstantKind::InvokeDynamic => match spec_u2_run(bytes, pos, 2) {
            Err(e) => Err(e),
            Ok((indices, end)) => Ok(
                (
                    ConstantPoolEntryView::InvokeDynamic {
                        bootstrap_method_attr_index: indices[0],
                        name_and_type_index: indices[1],
                    },
                    end,
                ),
            ),
        },
        ConstantKind::Module => match spec_u2(bytes, pos) {
            Err(e) => Err(e),
            Ok((name_index, end)) => Ok((ConstantPoolEntryView::Module { name_index }, end)),
        },
        ConstantKind::Package => match spec_u2(bytes, pos) {
            Err(e) => Err(e),
            Ok((name_index, end)) => Ok((ConstantPoolEntryView::Package { name_index }, end)),
        },
    }
}

/// The decoder of one constant-pool entry, as a function of the position.
pub open spec fn constant_pool_entry_at(bytes: Seq<u8>) -> spec_fn(int) -> Decoded<
    ConstantPoolEntryView,
> {
    |pos: int| spec_constant_pool_entry(bytes, pos)
}

/// A constant-pool entry at `pos`: a tag byte, then the body of the kind
/// that the tag introduces. A tag that introduces none is refused at `pos`.
pub open spec fn spec_constant_pool_entry(bytes: Seq<u8>, pos: int) -> Decoded<
    ConstantPoolEntryView,
> {
    match spec_u1(bytes, pos) {
        Err(e) => Err(e),
        Ok((tag, body)) => match kind_of_tag(tag) {
            None => Err(DecodeErrorView::UnknownConstantTag { tag, offset: pos }),
            Some(kind) => spec_constant_pool_body(bytes, body, kind),
        },
    }
}

/// How many entries follow a count field that reads `count`: one fewer, as
/// index 0 is reserved.
pub open spec fn spec_live_entries(count: u16) -> nat {
    if count == 0 {
        0
    } else {
        (count - 1) as nat
    }
}

/// The constant pool at `pos`: a 16-bit count, then one entry fewer than it
/// says, in order.
pub open spec fn spec_constant_pool(bytes: Seq<u8>, pos: int) -> Decoded<
    Seq<ConstantPoolEntryView>,
> {
    match spec_u2(bytes, pos) {
        Err(e) => Err(e),
        Ok((count, first)) => spec_repeat(
            constant_pool_entry_at(bytes),
            first,
            spec_live_entries(count),
        ),
    }
}

/// The entry that the 1-based `index` names. `offset` is where the index was
/// read; it goes into the error.
pub open spec fn spec_constant_pool_get(
    pool: Seq<ConstantPoolEntryView>,
    index: u16,
    offset: int,
) -> Result<ConstantPoolEntryView, DecodeErrorView> {
    if index == 0 || index > pool.len() {
        Err(DecodeErrorView::ConstantPoolIndexOutOfRange { index, offset })
    } else {
        Ok(pool[index - 1])
    }
}

/// The text of the `Utf8` entry that the 1-based `index` names. `offset` is
/// where the index was read; it goes into the error.
pub open spec fn spec_constant_pool_utf8(
    pool: Seq<ConstantPoolEntryView>,
    index: u16,
    offset: int,
) -> Result<Seq<u8>, DecodeErrorView> {
    match spec_constant_pool_get(pool, index, offset) {
        Err(e) => Err(e),
        Ok(entry) => match entry {
            ConstantPoolEntryView::Utf8 { bytes } => Ok(bytes),
            _ => Err(
                DecodeErrorView::ConstantPoolTypeMismatch {
                    expected: ConstantKind::Utf8,
                    found: entry.kind(),
                    offset,
                },
            ),
        },
    }
}

/// Looks up the entry that the 1-based `index` names.
pub fn constant_pool_get<'class>(
    pool: &[ConstantPoolEntry<'class>],
    index: u16,
    offset: usize,
) -> (r: Result<ConstantPoolEntry<'class>, DecodeError>)
    ensures
        match r {
            Ok(entry) => spec_constant_pool_get(views(pool@), index, offset as int) == Ok::<
                ConstantPoolEntryView,
                DecodeErrorView,
            >(entry@),
            Err(e) => spec_constant_pool_get(views(pool@), index, offset as int) == Err::<
                ConstantPoolEntryView,
                DecodeErrorView,
            >(e@),
        },
{
    if index == 0 || index as usize > pool.len() {
        Err(DecodeError::ConstantPoolIndexOutOfRange { index, offset })
    } else {
        Ok(pool[index as usize - 1])
    }
}

/// Looks up the text of the `Utf8` entry that the 1-based `index` names.
pub fn constant_pool_utf8<'class>(
    pool: &[ConstantPoolEntry<'class>],
    index: u16,
    offset: usize,
) -> (r: Result<&'class [u8], DecodeError>)
    ensures
        match r {
            Ok(text) => spec_constant_pool_utf8(views(pool@), index, offset as int) == Ok::<
                Seq<u8>,
                DecodeErrorView,
            >(text@),
            Err(e) => spec_constant_pool_utf8(views(pool@), index, offset as int) == Err::<
                Seq<u8>,
                DecodeErrorView,
            >(e@),
        },
{
    let entry = constant_pool_get(pool, index, offset)?;
    match entry {
        ConstantPoolEntry::Utf8 { bytes } => Ok(bytes),
        _ => Err(
            DecodeError::ConstantPoolTypeMismatch {
                expected: ConstantKind::Utf8,
                found: entry.kind(),
                offset,
            },
        ),
    }
}

/// Reads the body of a `Utf8` entry: a 16-bit length and that many bytes of text.
pub fn constant_pool_utf8_entry_from_bytes<'class>(parser: &mut ClassParser<'class>) -> (r: Result<
    ConstantPoolEntry<'class>,
    DecodeError,
>)
    ensures
        final(parser)@.bytes == old(parser)@.bytes,
        final(parser)@.position >= old(parser)@.position,
        viewed(r, final(parser)@.position) == spec_constant_pool_body(
            old(parser)@.bytes,
            old(parser)@.position,
            ConstantKind::Utf8,
        ),
{
    let length: u16 = parser.u2()?;
    let str_bytes: &'class [u8] = parser.take(length as usize)?;
    Ok(ConstantPoolEntry::Utf8 { bytes: str_bytes })
}

/// Reads the body of an `Integer` entry.
pub fn constant_pool_integer_entry_from_bytes<'class>(
    parser: &mut ClassParser<'class>,
) -> (r: Result<
    ConstantPoolEntry<'class>,
    DecodeError,
>)
    ensures
        final(parser)@.bytes == old(parser)@.bytes,
        final(parser)@.position >= old(parser)@.position,
        viewed(r, final(parser)@.position) == spec_constant_pool_body(
            old(parser)@.bytes,
            old(parser)@.position,
            ConstantKind::Integer,
        ),
{
    let integer: u32 = parser.u4()?;
    Ok(ConstantPoolEntry::Integer { bytes: integer })
}

/// Reads the body of a `Float` entry.
pub fn constant_pool_float_entry_from_bytes<'class>(parser: &mut ClassParser<'class>) -> (r: Result<
    ConstantPoolEntry<'class>,
    DecodeError,
>)
    ensures
        final(parser)@.bytes == old(parser)@.bytes,
        final(parser)@.position >= old(parser)@.position,
        viewed(r, final(parser)@.position) == spec_constant_pool_body(
            old(parser)@.bytes,
            old(parser)@.position,
            ConstantKind::Float,
        ),
{
    let float: u32 = parser.u4()?;
    Ok(ConstantPoolEntry::Float { bits: float })
}

/// Reads the body of a `Long` entry: the upper half of the value, then the lower.
pub fn constant_pool_long_entry_from_bytes<'class>(parser: &mut ClassParser<'class>) -> (r: Result<
    ConstantPoolEntry<'class>,
    DecodeError,
>)
    ensures
        final(parser)@.bytes == old(parser)@.bytes,
        final(parser)@.position >= old(parser)@.position,
        viewed(r, final(parser)@.position) == spec_constant_pool_body(
            old(parser)@.bytes,
            old(parser)@.position,
            ConstantKind::Long,
        ),
{
    let high_bytes: u32 = parser.u4()?;
    let low_bytes: u32 = parser.u4()?;
    Ok(ConstantPoolEntry::Long { value: join_halves(high_bytes, low_bytes) })
}

/// Reads the body of a `Double` entry: the upper half of the bits, then the lower.
pub fn constant_pool_double_entry_from_bytes<'class>(
    parser: &mut ClassParser<'class>,
) -> (r: Result<
    ConstantPoolEntry<'class>,
    DecodeError,
>)
    ensures
        final(parser)@.bytes == old(parser)@.bytes,
        final(parser)@.position >= old(parser)@.position,
        viewed(r, final(parser)@.position) == spec_constant_pool_body(
            old(parser)@.bytes,
            old(parser)@.position,
            ConstantKind::Double,
        ),
{
    let high_bytes: u32 = parser.u4()?;
    let low_bytes: u32 = parser.u4()?;
    Ok(ConstantPoolEntry::Double { bits: join_halves(high_bytes, low_bytes) })
}

/// Reads the body of a `Class` entry.
pub fn constant_pool_class_entry_from_bytes<'class>(parser: &mut ClassParser<'class>) -> (r: Result<
    ConstantPoolEntry<'class>,
    DecodeError,
>)
    ensures
        final(parser)@.bytes == old(parser)@.bytes,
        final(parser)@.position >= old(parser)@.position,
        viewed(r, final(parser)@.position) == spec_constant_pool_body(
            old(parser)@.bytes,
            old(parser)@.position,
            ConstantKind::Class,
        ),
{
    let name_index: u16 = parser.u2()?;
    Ok(ConstantPoolEntry::Class { name_index })
}

/// Reads the body of a `String` entry.
pub fn constant_pool_string_entry_from_bytes<'class>(
    parser: &mut ClassParser<'class>,
) -> (r: Result<
    ConstantPoolEntry<'class>,
    DecodeError,
>)
    ensures
        final(parser)@.bytes == old(parser)@.bytes,
        final(parser)@.position >= old(parser)@.position,
        viewed(r, final(parser)@.position) == spec_constant_pool_body(
            old(parser)@.bytes,
            old(parser)@.position,
            ConstantKind::String,
        ),
{
    let string_index: u16 = parser.u2()?;
    Ok(ConstantPoolEntry::String { string_index })
}

/// Reads the body of a `FieldRef` entry.
pub fn constant_pool_field_ref_entry_from_bytes<'class>(
    parser: &mut ClassParser<'class>,
) -> (r: Result<
    ConstantPoolEntry<'class>,
    DecodeError,
>)
    ensures
        final(parser)@.bytes == old(parser)@.bytes,
        final(parser)@.position >= old(parser)@.position,
        viewed(r, final(parser)@.position) == spec_constant_pool_body(
            old(parser)@.bytes,
            old(parser)@.position,
            ConstantKind::FieldRef,
        ),
{
    proof {
        reveal_with_fuel(spec_repeat, 3);
    }
    let class_index: u16 = parser.u2()?;
    let name_and_type_index: u16 = parser.u2()?;
    Ok(ConstantPoolEntry::FieldRef { class_index, name_and_type_index })
}

/// Reads the body of a `MethodRef` entry.
pub fn constant_pool_method_ref_entry_from_bytes<'class>(
    parser: &mut ClassParser<'class>,
) -> (r: Result<
    ConstantPoolEntry<'class>,
    DecodeError,
>)
    ensures
        final(parser)@.bytes == old(parser)@.bytes,
        final(parser)@.position >= old(parser)@.position,
        viewed(r, final(parser)@.position) == spec_constant_pool_body(
            old(parser)@.bytes,
            old(parser)@.position,
            ConstantKind::MethodRef,
        ),
{
    proof {
        reveal_with_fuel(spec_repeat, 3);
    }
    let class_index: u16 = parser.u2()?;
    let name_and_type_index: u16 = parser.u2()?;
    Ok(ConstantPoolEntry::MethodRef { class_index, name_and_type_index })
}

/// Reads the body of an `InstanceMethodRef` entry.
pub fn constant_pool_instance_method_ref_entry_from_bytes<'class>(
    parser: &mut ClassParser<'class>,
) -> (r: Result<
    ConstantPoolEntry<'class>,
    DecodeError,
>)
    ensures
        final(parser)@.bytes == old(parser)@.bytes,
        final(parser)@.position >= old(parser)@.position,
        viewed(r, final(parser)@.position) == spec_constant_pool_body(
            old(parser)@.bytes,
            old(parser)@.position,
            ConstantKind::InstanceMethodRef,
        ),
{
    proof {
        reveal_with_fuel(spec_repeat, 3);
    }
    let class_index: u16 = parser.u2()?;
    let name_and_type_index: u16 = parser.u2()?;
    Ok(ConstantPoolEntry::InstanceMethodRef { class_index, name_and_type_index })
}

/// Reads the body of a `NameAndType` entry.
pub fn constant_pool_name_and_type_entry_from_bytes<'class>(
    parser: &mut ClassParser<'class>,
) -> (r: Result<
    ConstantPoolEntry<'class>,
    DecodeError,
>)
    ensures
        final(parser)@.bytes == old(parser)@.bytes,
        final(parser)@.position >= old(parser)@.position,
        viewed(r, final(parser)@.position) == spec_constant_pool_body(
            old(parser)@.bytes,
            old(parser)@.position,
            ConstantKind::NameAndType,
        ),
{
    proof {
        reveal_with_fuel(spec_repeat, 3);
    }
    let name_index: u16 = parser.u2()?;
    let descriptor_index: u16 = parser.u2()?;
    Ok(ConstantPoolEntry::NameAndType { name_index, descriptor_index })
}

/// Reads the body of a `MethodHandle` entry.
pub fn constant_pool_method_handle_entry_from_bytes<'class>(
    parser: &mut ClassParser<'class>,
) -> (r: Result<
    ConstantPoolEntry<'class>,
    DecodeError,
>)
    ensures
        final(parser)@.bytes == old(parser)@.bytes,
        final(parser)@.position >= old(parser)@.position,
        viewed(r, final(parser)@.position) == spec_constant_pool_body(
            old(parser)@.bytes,
            old(parser)@.position,
            ConstantKind::MethodHandle,
        ),
{
    let reference_kind: u8 = parser.u1()?;
    let reference_index: u16 = parser.u2()?;
    Ok(ConstantPoolEntry::MethodHandle { reference_kind, reference_index })
}

/// Reads the body of a `MethodType` entry.
pub fn constant_pool_method_type_entry_from_bytes<'class>(
    parser: &mut ClassParser<'class>,
) -> (r: Result<
    ConstantPoolEntry<'class>,
    DecodeError,
>)
    ensures
        final(parser)@.bytes == old(parser)@.bytes,
        final(parser)@.position >= old(parser)@.position,
        viewed(r, final(parser)@.position) == spec_constant_pool_body(
            old(parser)@.bytes,
            old(parser)@.position,
            ConstantKind::MethodType,
        ),
{
    let reference_index: u16 = parser.u2()?;
    Ok(ConstantPoolEntry::MethodType { reference_index })
}

/// Reads the body of a `Dynamic` entry.
pub fn constant_pool_dynamic_entry_from_bytes<'class>(
    parser: &mut ClassParser<'class>,
) -> (r: Result<
    ConstantPoolEntry<'class>,
    DecodeError,
>)
    ensures
        final(parser)@.bytes == old(parser)@.bytes,
        final(parser)@.position >= old(parser)@.position,
        viewed(r, final(parser)@.position) == spec_constant_pool_body(
            old(parser)@.bytes,
            old(parser)@.position,
            ConstantKind::Dynamic,
        ),
{
    proof {
        reveal_with_fuel(spec_repeat, 3);
    }
    let bootstrap_method_attr_index: u16 = parser.u2()?;
    let name_and_type_index: u16 = parser.u2()?;
    Ok(ConstantPoolEntry::Dynamic { bootstrap_method_attr_index, name_and_type_index })
}

/// Reads the body of an `InvokeDynamic` entry.
pub fn constant_pool_invoke_dynamic_entry_from_bytes<'class>(
    parser: &mut ClassParser<'class>,
) -> (r: Result<
    ConstantPoolEntry<'class>,
    DecodeError,
>)
    ensures
        final(parser)@.bytes == old(parser)@.bytes,
        final(parser)@.position >= old(parser)@.position,
        viewed(r, final(parser)@.position) == spec_constant_pool_body(
            old(parser)@.bytes,
            old(parser)@.position,
            ConstantKind::InvokeDynamic,
        ),
{
    proof {
        reveal_with_fuel(spec_repeat, 3);
    }
    let bootstrap_method_attr_index: u16 = parser.u2()?;
    let name_and_type_index: u16 = parser.u2()?;
    Ok(ConstantPoolEntry::InvokeDynamic { bootstrap_method_attr_index, name_and_type_index })
}

/// Reads the body of a `Module` entry.
pub fn constant_pool_module_entry_from_bytes<'class>(
    parser: &mut ClassParser<'class>,
) -> (r: Result<
    ConstantPoolEntry<'class>,
    DecodeError,
>)
    ensures
        final(parser)@.bytes == old(parser)@.bytes,
        final(parser)@.position >= old(parser)@.position,
        viewed(r, final(parser)@.position) == spec_constant_pool_body(
            old(parser)@.bytes,
            old(parser)@.position,
            ConstantKind::Module,
        ),
{
    let name_index: u16 = parser.u2()?;
    Ok(ConstantPoolEntry::Module { name_index })
}

/// Reads the body of a `Package` entry.
pub fn constant_pool_package_entry_from_bytes<'class>(
    parser: &mut ClassParser<'class>,
) -> (r: Result<
    ConstantPoolEntry<'class>,
    DecodeError,
>)
    ensures
        final(parser)@.bytes == old(parser)@.bytes,
        final(parser)@.position >= old(parser)@.position,
        viewed(r, final(parser)@.position) == spec_constant_pool_body(
            old(parser)@.bytes,
            old(parser)@.position,
            ConstantKind::Package,
        ),
{
    let name_index: u16 = parser.u2()?;
    Ok(ConstantPoolEntry::Package { name_index })
}

/// Reads one constant-pool entry: its tag byte, then the body of its kind.
pub fn constant_pool_entry_from_bytes<'class>(parser: &mut ClassParser<'class>) -> (r: Result<
    ConstantPoolEntry<'class>,
    DecodeError,
>)
    ensures
        final(parser)@.bytes == old(parser)@.bytes,
        final(parser)@.position >= old(parser)@.position,
        viewed(r, final(parser)@.position) == spec_constant_pool_entry(
            old(parser)@.bytes,
            old(parser)@.position,
        ),
{
    let start: usize = parser.position();
    let tag: u8 = parser.u1()?;
    match kind_of_tag(tag) {
        Some(ConstantKind::Utf8) => constant_pool_utf8_entry_from_bytes(parser),
        Some(ConstantKind::Integer) => constant_pool_integer_entry_from_bytes(parser),
        Some(ConstantKind::Float) => constant_pool_float_entry_from_bytes(parser),
        Some(ConstantKind::Long) => constant_pool_long_entry_from_bytes(parser),
        Some(ConstantKind::Double) => constant_pool_double_entry_from_bytes(parser),
        Some(ConstantKind::Class) => constant_pool_class_entry_from_bytes(parser),
        Some(ConstantKind::String) => constant_pool_string_entry_from_bytes(parser),
        Some(ConstantKind::FieldRef) => constant_pool_field_ref_entry_from_bytes(parser),
        Some(ConstantKind::MethodRef) => constant_pool_method_ref_entry_from_bytes(parser),
        Some(ConstantKind::InstanceMethodRef) => {
            constant_pool_instance_method_ref_entry_from_bytes(parser)
        },
        Some(ConstantKind::NameAndType) => constant_pool_name_and_type_entry_from_bytes(parser),
        Some(ConstantKind::MethodHandle) => constant_pool_method_handle_entry_from_bytes(parser),
        Some(ConstantKind::MethodType) => constant_pool_method_type_entry_from_bytes(parser),
        Some(ConstantKind::Dynamic) => constant_pool_dynamic_entry_from_bytes(parser),
        Some(ConstantKind::InvokeDynamic) => constant_pool_invoke_dynamic_entry_from_bytes(parser),
        Some(ConstantKind::Module) => constant_pool_module_entry_from_bytes(parser),
        Some(ConstantKind::Package) => constant_pool_package_entry_from_bytes(parser),
        None => Err(DecodeError::UnknownConstantTag { tag, offset: start }),
    }
}

/// Reads the constant pool: a 16-bit count, then one entry fewer than it says.
#[verifier::loop_isolation(false)]
pub fn constant_pool_from_bytes<'class>(parser: &mut ClassParser<'class>) -> (r: Result<
    Vec<ConstantPoolEntry<'class>>,
    DecodeError,
>)
    ensures
        final(parser)@.bytes == old(parser)@.bytes,
        final(parser)@.position >= old(parser)@.position,
        viewed_list(r, final(parser)@.position) == spec_constant_pool(
            old(parser)@.bytes,
            old(parser)@.position,
        ),
{
    let declared: u16 = parser.u2()?;
    let count: u16 = if declared == 0 {
        0
    } else {
        declared - 1
    };
    let ghost item = constant_pool_entry_at(parser@.bytes);
    let ghost first = parser@.position;
    let mut pool: Vec<ConstantPoolEntry<'class>> = Vec::new();
    let mut i: u16 = 0;
    proof {
        lemma_repeat_start(item, first, count as nat);
    }
    while i < count
        invariant
            parser@.bytes == old(parser)@.bytes,
            parser@.position >= first,
            i <= count,
            spec_repeat(item, first, count as nat) == prepend(
                views(pool@),
                spec_repeat(item, parser@.position, (count - i) as nat),
            ),
        decreases count - i,
    {
        proof {
            lemma_repeat_step(item, views(pool@), parser@.position, (count - i) as nat);
        }
        let entry = constant_pool_entry_from_bytes(parser)?;
        proof {
            lemma_views_push(pool@, entry);
        }
        pool.push(entry);
        i = i + 1;
    }
    proof {
        lemma_repeat_done(item, views(pool@), parser@.position);
    }
    Ok(pool)
}

} // verus!

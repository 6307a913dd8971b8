//! The ways in which decoding a class file can fail.

use vstd::prelude::*;

verus! {

/// The kind of a constant-pool entry, one per wire tag.
#[derive(Clone, Copy, Debug, PartialEq, Eq, Structural)]
pub enum ConstantKind {
    Utf8,
    Integer,
    Float,
    Long,
    Double,
    Class,
    String,
    FieldRef,
    MethodRef,
    InstanceMethodRef,
    NameAndType,
    MethodHandle,
    MethodType,
    Dynamic,
    InvokeDynamic,
    Module,
    Package,
}

impl ConstantKind {
    /// The tag byte that introduces an entry of this kind.
    pub open spec fn spec_tag(self) -> u8 {
        match self {
            ConstantKind::Utf8 => 1,
            ConstantKind::Integer => 3,
            ConstantKind::Float => 4,
            ConstantKind::Long => 5,
            ConstantKind::Double => 6,
            ConstantKind::Class => 7,
            ConstantKind::String => 8,
            ConstantKind::FieldRef => 9,
            ConstantKind::MethodRef => 10,
            ConstantKind::InstanceMethodRef => 11,
            ConstantKind::NameAndType => 12,
            ConstantKind::MethodHandle => 15,
            ConstantKind::MethodType => 16,
            ConstantKind::Dynamic => 17,
            ConstantKind::InvokeDynamic => 18,
            ConstantKind::Module => 19,
            ConstantKind::Package => 20,
        }
    }

    /// The tag byte that introduces an entry of this kind.
    #[verifier::when_used_as_spec(spec_tag)]
    pub fn tag(self) -> (t: u8)
        ensures
            t == self.spec_tag(),
    {
        match self {
            ConstantKind::Utf8 => 1,
            ConstantKind::Integer => 3,
            ConstantKind::Float => 4,
            ConstantKind::Long => 5,
            ConstantKind::Double => 6,
            ConstantKind::Class => 7,
            ConstantKind::String => 8,
            ConstantKind::FieldRef => 9,
            ConstantKind::MethodRef => 10,
            ConstantKind::InstanceMethodRef => 11,
            ConstantKind::NameAndType => 12,
            ConstantKind::MethodHandle => 15,
            ConstantKind::MethodType => 16,
            ConstantKind::Dynamic => 17,
            ConstantKind::InvokeDynamic => 18,
            ConstantKind::Module => 19,
            ConstantKind::Package => 20,
        }
    }
}

/// Why a decode stopped. Decoding is fail-fast: the first error found aborts
/// the whole decode. Every variant carries the byte offset, counted from the
/// start of the buffer, at which the fault was found.
#[derive(Debug, PartialEq, Eq)]
pub enum DecodeError {
    /// The first four bytes are not `CA FE BA BE`; `offset` is where they start.
    MagicMismatch { offset: usize },
    /// A read of `requested` bytes was attempted at `offset`, and fewer remain.
    UnexpectedEof { offset: usize, requested: usize },
    /// The byte at `offset` introduces a constant-pool entry and is no live tag.
    UnknownConstantTag { tag: u8, offset: usize },
    /// The index read at `offset` is zero or lies beyond the constant pool.
    ConstantPoolIndexOutOfRange { index: u16, offset: usize },
    /// The index read at `offset` names an entry of another kind than is needed.
    ConstantPoolTypeMismatch { expected: ConstantKind, found: ConstantKind, offset: usize },
    /// The attribute that starts at `offset` has a name that is not modified UTF-8.
    InvalidModifiedUtf8 { offset: usize },
    /// The attribute whose body starts at `offset` has a name that no
    /// decoder is registered for. Only a strict decode reports this.
    UnknownAttribute { name: String, offset: usize },
    /// The attribute body that starts at `offset` was declared with `declared`
    /// bytes, and decoding it took `consumed`.
    InvalidAttributeLength { declared: u32, consumed: usize, offset: usize },
    /// The byte at `offset` introduces an element value and is no known tag.
    InvalidElementValueTag { tag: u8, offset: usize },
    /// The `target_type` byte just before `offset` lies outside every known
    /// range.
    InvalidTargetType { byte: u8, offset: usize },
    /// The byte at `offset` introduces a stack map frame and lies in the
    /// reserved band 128 to 246.
    ReservedFrameTag { byte: u8, offset: usize },
    /// The byte at `offset` introduces a verification type and is above 8.
    InvalidVerificationTypeTag { tag: u8, offset: usize },
    /// The structure at `offset` would nest deeper than `limit`: an element
    /// value that starts there, or the body of an attribute that starts there.
    NestingTooDeep { limit: usize, offset: usize },
}

/// The mathematical value of a [`DecodeError`]: offsets and sizes as
/// integers, the attribute name as a sequence of characters.
pub ghost enum DecodeErrorView {
    MagicMismatch { offset: int },
    UnexpectedEof { offset: int, requested: int },
    UnknownConstantTag { tag: u8, offset: int },
    ConstantPoolIndexOutOfRange { index: u16, offset: int },
    ConstantPoolTypeMismatch { expected: ConstantKind, found: ConstantKind, offset: int },
    InvalidModifiedUtf8 { offset: int },
    UnknownAttribute { name: Seq<char>, offset: int },
    InvalidAttributeLength { declared: u32, consumed: int, offset: int },
    InvalidElementValueTag { tag: u8, offset: int },
    InvalidTargetType { byte: u8, offset: int },
    ReservedFrameTag { byte: u8, offset: int },
    InvalidVerificationTypeTag { tag: u8, offset: int },
    NestingTooDeep { limit: int, offset: int },
}

impl DecodeErrorView {
    /// The byte offset at which the fault was found.
    pub open spec fn offset(self) -> int {
        match self {
            DecodeErrorView::MagicMismatch { offset } => offset,
            DecodeErrorView::UnexpectedEof { offset, .. } => offset,
            DecodeErrorView::UnknownConstantTag { offset, .. } => offset,
            DecodeErrorView::ConstantPoolIndexOutOfRange { offset, .. } => offset,
            DecodeErrorView::ConstantPoolTypeMismatch { offset, .. } => offset,
            DecodeErrorView::InvalidModifiedUtf8 { offset } => offset,
            DecodeErrorView::UnknownAttribute { offset, .. } => offset,
            DecodeErrorView::InvalidAttributeLength { offset, .. } => offset,
            DecodeErrorView::InvalidElementValueTag { offset, .. } => offset,
            DecodeErrorView::InvalidTargetType { offset, .. } => offset,
            DecodeErrorView::ReservedFrameTag { offset, .. } => offset,
            DecodeErrorView::InvalidVerificationTypeTag { offset, .. } => offset,
            DecodeErrorView::NestingTooDeep { offset, .. } => offset,
        }
    }
}

impl View for DecodeError {
    type V = DecodeErrorView;

    open spec fn view(&self) -> DecodeErrorView {
        match self {
            DecodeError::MagicMismatch { offset } => DecodeErrorView::MagicMismatch {
                offset: *offset as int,
            },
            DecodeError::UnexpectedEof { offset, requested } => DecodeErrorView::UnexpectedEof {
                offset: *offset as int,
                requested: *requested as int,
            },
            DecodeError::UnknownConstantTag { tag, offset } => DecodeErrorView::UnknownConstantTag {
                tag: *tag,
                offset: *offset as int,
            },
            DecodeError::ConstantPoolIndexOutOfRange {
                index,
                offset,
            } => DecodeErrorView::ConstantPoolIndexOutOfRange {
                index: *index,
                offset: *offset as int,
            },
            DecodeError::ConstantPoolTypeMismatch {
                expected,
                found,
                offset,
            } => DecodeErrorView::ConstantPoolTypeMismatch {
                expected: *expected,
                found: *found,
                offset: *offset as int,
            },
            DecodeError::InvalidModifiedUtf8 { offset } => DecodeErrorView::InvalidModifiedUtf8 {
                offset: *offset as int,
            },
            DecodeError::UnknownAttribute { name, offset } => DecodeErrorView::UnknownAttribute {
                name: name@,
                offset: *offset as int,
            },
            DecodeError::InvalidAttributeLength {
                declared,
                consumed,
                offset,
            } => DecodeErrorView::InvalidAttributeLength {
                declared: *declared,
                consumed: *consumed as int,
                offset: *offset as int,
            },
            DecodeError::InvalidElementValueTag {
                tag,
                offset,
            } => DecodeErrorView::InvalidElementValueTag { tag: *tag, offset: *offset as int },
            DecodeError::InvalidTargetType { byte, offset } => DecodeErrorView::InvalidTargetType {
                byte: *byte,
                offset: *offset as int,
            },
            DecodeError::ReservedFrameTag { byte, offset } => DecodeErrorView::ReservedFrameTag {
                byte: *byte,
                offset: *offset as int,
            },
            DecodeError::InvalidVerificationTypeTag {
                tag,
                offset,
            } => DecodeErrorView::InvalidVerificationTypeTag { tag: *tag, offset: *offset as int },
            DecodeError::NestingTooDeep { limit, offset } => DecodeErrorView::NestingTooDeep {
                limit: *limit as int,
                offset: *offset as int,
            },
        }
    }
}

impl DecodeError {
    /// The byte offset at which the fault was found.
    pub fn offset(&self) -> (o: usize)
        ensures
            o as int == self@.offset(),
    {
        match self {
            DecodeError::MagicMismatch { offset } => *offset,
            DecodeError::UnexpectedEof { offset, .. } => *offset,
            DecodeError::UnknownConstantTag { offset, .. } => *offset,
            DecodeError::ConstantPoolIndexOutOfRange { offset, .. } => *offset,
            DecodeError::ConstantPoolTypeMismatch { offset, .. } => *offset,
            DecodeError::InvalidModifiedUtf8 { offset } => *offset,
            DecodeError::UnknownAttribute { offset, .. } => *offset,
            DecodeError::InvalidAttributeLength { offset, .. } => *offset,
            DecodeError::InvalidElementValueTag { offset, .. } => *offset,
            DecodeError::InvalidTargetType { offset, .. } => *offset,
            DecodeError::ReservedFrameTag { offset, .. } => *offset,
            DecodeError::InvalidVerificationTypeTag { offset, .. } => *offset,
            DecodeError::NestingTooDeep { offset, .. } => *offset,
        }
    }
}

} // verus!

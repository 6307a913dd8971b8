//! What holds of every decode.

use crate::attribute::AttributeView;
use crate::attribute_decoder::spec_attribute;
use crate::classfile::{decoded_classfile, spec_classfile, Classfile, ClassfileView, MAGIC};
use crate::constant_pool::{spec_constant_pool_body, ConstantPoolEntryView};
use crate::cursor::{be16, be32, fits};
use crate::error::{ConstantKind, DecodeError, DecodeErrorView};
use crate::options::{DecodeOptions, Depth};
use vstd::prelude::*;

verus! {

/// Decoding is deterministic: whatever two decodes of the same bytes with
/// the same options return, it is the same class file and the same number
/// of bytes, or the same error.
pub proof fn lemma_decode_is_deterministic(
    first_bytes: Seq<u8>,
    second_bytes: Seq<u8>,
    options: DecodeOptions,
    first: Result<(Classfile, usize), DecodeError>,
    second: Result<(Classfile, usize), DecodeError>,
)
    requires
        first_bytes == second_bytes,
        decoded_classfile(first) == spec_classfile(first_bytes, 0, options),
        decoded_classfile(second) == spec_classfile(second_bytes, 0, options),
    ensures
        decoded_classfile(first) == decoded_classfile(second),
        first is Ok <==> second is Ok,
{
}

/// A buffer of four bytes or more that does not start with `CA FE BA BE` is
/// refused as a magic mismatch at offset 0, whatever the rest of it holds.
pub proof fn lemma_wrong_magic_is_refused(bytes: Seq<u8>, options: DecodeOptions)
    requires
        bytes.len() >= 4,
        !(bytes[0] == 0xCA && bytes[1] == 0xFE && bytes[2] == 0xBA && bytes[3] == 0xBE),
    ensures
        spec_classfile(bytes, 0, options) == Err::<(ClassfileView, int), DecodeErrorView>(
            DecodeErrorView::MagicMismatch { offset: 0 },
        ),
{
    assert(be32(bytes, 0) != MAGIC);
}

/// A `Long` entry whose eight bytes hold `high` and then `low` decodes to
/// `(high << 32) | low`, and a `Double` entry to the same bits: the shift is
/// by 32, whatever `low` is.
pub proof fn lemma_eight_byte_constants_join_their_halves(bytes: Seq<u8>, pos: int)
    requires
        fits(bytes, pos, 8),
    ensures
        spec_constant_pool_body(bytes, pos, ConstantKind::Long) == Ok::<
            (ConstantPoolEntryView, int),
            DecodeErrorView,
        >(
            (
                ConstantPoolEntryView::Long {
                    value: ((be32(bytes, pos) as u64) << 32) | (be32(bytes, pos + 4) as u64),
                },
                pos + 8,
            ),
        ),
        spec_constant_pool_body(bytes, pos, ConstantKind::Double) == Ok::<
            (ConstantPoolEntryView, int),
            DecodeErrorView,
        >(
            (
                ConstantPoolEntryView::Double {
                    bits: ((be32(bytes, pos) as u64) << 32) | (be32(bytes, pos + 4) as u64),
                },
                pos + 8,
            ),
        ),
{
}

/// An attribute whose name index names an entry of the pool that is not a
/// `Utf8` entry fails with a type mismatch at the attribute's own offset,
/// whatever follows the index: its body is never decoded.
pub proof fn lemma_attribute_name_must_be_utf8(
    bytes: Seq<u8>,
    pos: int,
    pool: Seq<ConstantPoolEntryView>,
    options: DecodeOptions,
    depth: Depth,
)
    requires
        fits(bytes, pos, 2),
        1 <= be16(bytes, pos) <= pool.len(),
        !(pool[be16(bytes, pos) - 1] is Utf8),
    ensures
        spec_attribute(bytes, pos, pool, options, depth) == Err::<
            (AttributeView, int),
            DecodeErrorView,
        >(
            DecodeErrorView::ConstantPoolTypeMismatch {
                expected: ConstantKind::Utf8,
                found: pool[be16(bytes, pos) - 1].kind(),
                offset: pos,
            },
        ),
{
}

/// An attribute whose name index is zero or lies beyond the pool fails with
/// an index out of range at the attribute's own offset.
pub proof fn lemma_attribute_name_must_be_in_the_pool(
    bytes: Seq<u8>,
    pos: int,
    pool: Seq<ConstantPoolEntryView>,
    options: DecodeOptions,
    depth: Depth,
)
    requires
        fits(bytes, pos, 2),
        be16(bytes, pos) == 0 || be16(bytes, pos) > pool.len(),
    ensures
        spec_attribute(bytes, pos, pool, options, depth) == Err::<
            (AttributeView, int),
            DecodeErrorView,
        >(
            DecodeErrorView::ConstantPoolIndexOutOfRange {
                index: be16(bytes, pos),
                offset: pos,
            },
        ),
{
}

} // verus!

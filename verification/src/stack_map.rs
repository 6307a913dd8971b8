//! Stack map frames and the verification types they hold.

use crate::cursor::{spec_u1, spec_u2, ClassParser};
use crate::error::{DecodeError, DecodeErrorView};
use crate::outcome::{plain, viewed, viewed_list, views, Decoded};
use crate::repeat::{
    lemma_repeat_done, lemma_repeat_start, lemma_repeat_step, lemma_views_push, prepend,
    spec_counted, spec_repeat,
};
use vstd::prelude::*;

verus! {

#[derive(Clone, Copy, Debug, PartialEq, Eq, Structural)]
pub enum VerificationTypeInfo {
    DoubleVariable,
    FloatVariable,
    IntegerVariable,
    LongVariable,
    NullVariable,
    ObjectVariable(u16),
    TopVariable,
    UninitializedThisVariable,
    UninitializedVariable(u16),
}

#[allow(inconsistent_fields)]
#[derive(Debug, PartialEq, Eq)]
pub enum StackMapFrame {
    AppendFrame { offset_delta: u16, locals: Vec<VerificationTypeInfo> },
    ChopFrame { offset_delta: u16 },
    FullFrame {
        offset_delta: u16,
        locals: Vec<VerificationTypeInfo>,
        stack: Vec<VerificationTypeInfo>,
    },
    SameFrame,
    SameFrameExtended { offset_delta: u16 },
    SameLocals1StackItemFrame { stack: VerificationTypeInfo },
    SameLocals1StackItemFrameExtended { offset_delta: u16, stack: VerificationTypeInfo },
}

/// The mathematical value of a [`StackMapFrame`].
#[allow(inconsistent_fields)]
pub ghost enum StackMapFrameView {
    AppendFrame { offset_delta: u16, locals: Seq<VerificationTypeInfo> },
    ChopFrame { offset_delta: u16 },
    FullFrame {
        offset_delta: u16,
        locals: Seq<VerificationTypeInfo>,
        stack: Seq<VerificationTypeInfo>,
    },
    SameFrame,
    SameFrameExtended { offset_delta: u16 },
    SameLocals1StackItemFrame { stack: VerificationTypeInfo },
    SameLocals1StackItemFrameExtended { offset_delta: u16, stack: VerificationTypeInfo },
}

impl View for StackMapFrame {
    type V = StackMapFrameView;

    open spec fn view(&self) -> StackMapFrameView {
        match self {
            StackMapFrame::AppendFrame { offset_delta, locals } => StackMapFrameView::AppendFrame {
                offset_delta: *offset_delta,
                locals: locals@,
            },
            StackMapFrame::ChopFrame { offset_delta } => StackMapFrameView::ChopFrame {
                offset_delta: *offset_delta,
            },
            StackMapFrame::FullFrame {
                offset_delta,
                locals,
                stack,
            } => StackMapFrameView::FullFrame {
                offset_delta: *offset_delta,
                locals: locals@,
                stack: stack@,
            },
            StackMapFrame::SameFrame => StackMapFrameView::SameFrame,
            StackMapFrame::SameFrameExtended {
                offset_delta,
            } => StackMapFrameView::SameFrameExtended { offset_delta: *offset_delta },
            StackMapFrame::SameLocals1StackItemFrame {
                stack,
            } => StackMapFrameView::SameLocals1StackItemFrame { stack: *stack },
            StackMapFrame::SameLocals1StackItemFrameExtended {
                offset_delta,
                stack,
            } => StackMapFrameView::SameLocals1StackItemFrameExtended {
                offset_delta: *offset_delta,
                stack: *stack,
            },
        }
    }
}

/// The decoder of one verification type, as a function of the position.
pub open spec fn verification_type_info_at(bytes: Seq<u8>) -> spec_fn(int) -> Decoded<
    VerificationTypeInfo,
> {
    |pos: int| spec_verification_type_info(bytes, pos)
}

/// A verification type at `pos`: a tag byte, 0 to 8. The tags 7 and 8 are
/// followed by a 16-bit value: a constant-pool index, a bytecode offset. A
/// tag above 8 is refused at `pos`.
pub open spec fn spec_verification_type_info(bytes: Seq<u8>, pos: int) -> Decoded<
    VerificationTypeInfo,
> {
    match spec_u1(bytes, pos) {
        Err(e) => Err(e),
        Ok((tag, body)) => if tag == 0 {
            Ok((VerificationTypeInfo::TopVariable, body))
        } else if tag == 1 {
            Ok((VerificationTypeInfo::IntegerVariable, body))
        } else if tag == 2 {
            Ok((VerificationTypeInfo::FloatVariable, body))
        } else if tag == 3 {
            Ok((VerificationTypeInfo::DoubleVariable, body))
        } else if tag == 4 {
            Ok((VerificationTypeInfo::LongVariable, body))
        } else if tag == 5 {
            Ok((VerificationTypeInfo::NullVariable, body))
        } else if tag == 6 {
            Ok((VerificationTypeInfo::UninitializedThisVariable, body))
        } else if tag == 7 {
            match spec_u2(bytes, body) {
                Err(e) => Err(e),
                Ok((index, end)) => Ok((VerificationTypeInfo::ObjectVariable(index), end)),
            }
        } else if tag == 8 {
            match spec_u2(bytes, body) {
                Err(e) => Err(e),
                Ok((offset, end)) => Ok((VerificationTypeInfo::UninitializedVariable(offset), end)),
            }
        } else {
            Err(DecodeErrorView::InvalidVerificationTypeTag { tag, offset: pos })
        },
    }
}

/// A 16-bit count and that many verification types.
pub open spec fn spec_verification_types(bytes: Seq<u8>, pos: int) -> Decoded<
    Seq<VerificationTypeInfo>,
> {
    spec_counted(bytes, pos, verification_type_info_at(bytes))
}

/// The decoder of one stack map frame, as a function of the position.
pub open spec fn stack_map_frame_at(bytes: Seq<u8>) -> spec_fn(int) -> Decoded<StackMapFrameView> {
    |pos: int| spec_stack_map_frame(bytes, pos)
}

/// A stack map frame at `pos`: a leading byte, then the shape of the band
/// that the byte lies in. The band 128 to 246 is reserved, and a byte in it
/// is refused at `pos`.
pub open spec fn spec_stack_map_frame(bytes: Seq<u8>, pos: int) -> Decoded<StackMapFrameView> {
    match spec_u1(bytes, pos) {
        Err(e) => Err(e),
        Ok((tag, body)) => if tag <= 63 {
            Ok((StackMapFrameView::SameFrame, body))
        } else if tag <= 127 {
            match spec_verification_type_info(bytes, body) {
                Err(e) => Err(e),
                Ok((stack, end)) => Ok(
                    (StackMapFrameView::SameLocals1StackItemFrame { stack }, end),
                ),
            }
        } else if tag <= 246 {
            Err(DecodeErrorView::ReservedFrameTag { byte: tag, offset: pos })
        } else {
            match spec_u2(bytes, body) {
                Err(e) => Err(e),
                Ok((offset_delta, rest)) => if tag == 247 {
                    match spec_verification_type_info(bytes, rest) {
                        Err(e) => Err(e),
                        Ok((stack, end)) => Ok(
                            (
                                StackMapFrameView::SameLocals1StackItemFrameExtended {
                                    offset_delta,
                                    stack,
                                },
                                end,
                            ),
                        ),
                    }
                } else if tag <= 250 {
                    Ok((StackMapFrameView::ChopFrame { offset_delta }, rest))
                } else if tag == 251 {
                    Ok((StackMapFrameView::SameFrameExtended { offset_delta }, rest))
                } else if tag <= 254 {
                    match spec_verification_types(bytes, rest) {
                        Err(e) => Err(e),
                        Ok((locals, end)) => Ok(
                            (StackMapFrameView::AppendFrame { offset_delta, locals }, end),
                        ),
                    }
                } else {
                    match spec_verification_types(bytes, rest) {
                        Err(e) => Err(e),
                        Ok((locals, at_stack)) => match spec_verification_types(bytes, at_stack) {
                            Err(e) => Err(e),
                            Ok((stack, end)) => Ok(
                                (StackMapFrameView::FullFrame { offset_delta, locals, stack }, end),
                            ),
                        },
                    }
                },
            }
        },
    }
}

/// Reads one verification type: its tag byte and, for an object or an
/// uninitialized variable, the 16-bit value after it.
pub fn verification_type_info_from_bytes(parser: &mut ClassParser<'_>) -> (r: Result<
    VerificationTypeInfo,
    DecodeError,
>)
    ensures
        final(parser)@.bytes == old(parser)@.bytes,
        final(parser)@.position >= old(parser)@.position,
        plain(r, final(parser)@.position) == spec_verification_type_info(
            old(parser)@.bytes,
            old(parser)@.position,
        ),
{
    let start: usize = parser.position();
    let tag: u8 = parser.u1()?;
    match tag {
        0 => Ok(VerificationTypeInfo::TopVariable),
        1 => Ok(VerificationTypeInfo::IntegerVariable),
        2 => Ok(VerificationTypeInfo::FloatVariable),
        3 => Ok(VerificationTypeInfo::DoubleVariable),
        4 => Ok(VerificationTypeInfo::LongVariable),
        5 => Ok(VerificationTypeInfo::NullVariable),
        6 => Ok(VerificationTypeInfo::UninitializedThisVariable),
        7 => {
            let cpool_index: u16 = parser.u2()?;
            Ok(VerificationTypeInfo::ObjectVariable(cpool_index))
        },
        8 => {
            let offset: u16 = parser.u2()?;
            Ok(VerificationTypeInfo::UninitializedVariable(offset))
        },
        _ => Err(DecodeError::InvalidVerificationTypeTag { tag, offset: start }),
    }
}

/// Reads a 16-bit count and that many verification types.
#[verifier::loop_isolation(false)]
pub fn verification_types_from_bytes(parser: &mut ClassParser<'_>) -> (r: Result<
    Vec<VerificationTypeInfo>,
    DecodeError,
>)
    ensures
        final(parser)@.bytes == old(parser)@.bytes,
        final(parser)@.position >= old(parser)@.position,
        viewed(r, final(parser)@.position) == spec_verification_types(
            old(parser)@.bytes,
            old(parser)@.position,
        ),
{
    let count: u16 = parser.u2()?;
    let ghost item = verification_type_info_at(parser@.bytes);
    let ghost first = parser@.position;
    let mut types: Vec<VerificationTypeInfo> = Vec::new();
    let mut i: u16 = 0;
    proof {
        lemma_repeat_start(item, first, count as nat);
    }
    while i < count
        invariant
            parser@.bytes == old(parser)@.bytes,
            parser@.position >= first,
            i <= count,
            spec_repeat(item, first, count as nat) == prepend(
                types@,
                spec_repeat(item, parser@.position, (count - i) as nat),
            ),
        decreases count - i,
    {
        proof {
            lemma_repeat_step(item, types@, parser@.position, (count - i) as nat);
        }
        let info = verification_type_info_from_bytes(parser)?;
        types.push(info);
        i = i + 1;
    }
    proof {
        lemma_repeat_done(item, types@, parser@.position);
    }
    Ok(types)
}

/// Reads one stack map frame: its leading byte, then the shape of the band
/// that the byte lies in.
pub fn stack_map_frame_from_bytes(parser: &mut ClassParser<'_>) -> (r: Result<
    StackMapFrame,
    DecodeError,
>)
    ensures
        final(parser)@.bytes == old(parser)@.bytes,
        final(parser)@.position >= old(parser)@.position,
        viewed(r, final(parser)@.position) == spec_stack_map_frame(
            old(parser)@.bytes,
            old(parser)@.position,
        ),
{
    let start: usize = parser.position();
    let tag: u8 = parser.u1()?;
    if tag <= 63 {
        Ok(StackMapFrame::SameFrame)
    } else if tag <= 127 {
        let stack = verification_type_info_from_bytes(parser)?;
        Ok(StackMapFrame::SameLocals1StackItemFrame { stack })
    } else if tag <= 246 {
        Err(DecodeError::ReservedFrameTag { byte: tag, offset: start })
    } else {
        let offset_delta: u16 = parser.u2()?;
        if tag == 247 {
            let stack = verification_type_info_from_bytes(parser)?;
            Ok(StackMapFrame::SameLocals1StackItemFrameExtended { offset_delta, stack })
        } else if tag <= 250 {
            Ok(StackMapFrame::ChopFrame { offset_delta })
        } else if tag == 251 {
            Ok(StackMapFrame::SameFrameExtended { offset_delta })
        } else if tag <= 254 {
            let locals = verification_types_from_bytes(parser)?;
            Ok(StackMapFrame::AppendFrame { offset_delta, locals })
        } else {
            let locals = verification_types_from_bytes(parser)?;
            let stack = verification_types_from_bytes(parser)?;
            Ok(StackMapFrame::FullFrame { offset_delta, locals, stack })
        }
    }
}

/// Reads a 16-bit count and that many stack map frames.
#[verifier::loop_isolation(false)]
pub fn stack_map_frames_from_bytes(parser: &mut ClassParser<'_>) -> (r: Result<
    Vec<StackMapFrame>,
    DecodeError,
>)
    ensures
        final(parser)@.bytes == old(parser)@.bytes,
        final(parser)@.position >= old(parser)@.position,
        viewed_list(r, final(parser)@.position) == spec_counted(
            old(parser)@.bytes,
            old(parser)@.position,
            stack_map_frame_at(old(parser)@.bytes),
        ),
{
    let count: u16 = parser.u2()?;
    let ghost item = stack_map_frame_at(parser@.bytes);
    let ghost first = parser@.position;
    let mut entries: Vec<StackMapFrame> = Vec::new();
    let mut i: u16 = 0;
    proof {
        lemma_repeat_start(item, first, count as nat);
    }
    while i < count
        invariant
            parser@.bytes == old(parser)@.bytes,
            parser@.position >= first,
            i <= count,
            spec_repeat(item, first, count as nat) == prepend(
                views(entries@),
                spec_repeat(item, parser@.position, (count - i) as nat),
            ),
        decreases count - i,
    {
        proof {
            lemma_repeat_step(item, views(entries@), parser@.position, (count - i) as nat);
        }
        let frame = stack_map_frame_from_bytes(parser)?;
        proof {
            lemma_views_push(entries@, frame);
        }
        entries.push(frame);
        i = i + 1;
    }
    proof {
        lemma_repeat_done(item, views(entries@), parser@.position);
    }
    Ok(entries)
}

} // verus!

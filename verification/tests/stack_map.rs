use runtime_cfparser::stack_map::{
    stack_map_frame_from_bytes, stack_map_frames_from_bytes, verification_type_info_from_bytes,
    verification_types_from_bytes,
};
use runtime_cfparser::{ClassParser, DecodeError, StackMapFrame, VerificationTypeInfo};

fn frame(bytes: &[u8]) -> Result<(StackMapFrame, usize), DecodeError> {
    let mut parser = ClassParser::new(bytes);
    let frame = stack_map_frame_from_bytes(&mut parser)?;
    Ok((frame, parser.position()))
}

fn verification_type(bytes: &[u8]) -> Result<(VerificationTypeInfo, usize), DecodeError> {
    let mut parser = ClassParser::new(bytes);
    let info = verification_type_info_from_bytes(&mut parser)?;
    Ok((info, parser.position()))
}

#[test]
fn plain_verification_types() {
    assert_eq!(verification_type(&[0]), Ok((VerificationTypeInfo::TopVariable, 1)));
    assert_eq!(verification_type(&[1]), Ok((VerificationTypeInfo::IntegerVariable, 1)));
    assert_eq!(verification_type(&[2]), Ok((VerificationTypeInfo::FloatVariable, 1)));
    assert_eq!(verification_type(&[3]), Ok((VerificationTypeInfo::DoubleVariable, 1)));
    assert_eq!(verification_type(&[4]), Ok((VerificationTypeInfo::LongVariable, 1)));
    assert_eq!(verification_type(&[5]), Ok((VerificationTypeInfo::NullVariable, 1)));
    assert_eq!(verification_type(&[6]), Ok((VerificationTypeInfo::UninitializedThisVariable, 1)));
}

#[test]
fn verification_types_with_a_value() {
    assert_eq!(
        verification_type(&[7, 0x01, 0x02]),
        Ok((VerificationTypeInfo::ObjectVariable(0x0102), 3))
    );
    assert_eq!(
        verification_type(&[8, 0x03, 0x04]),
        Ok((VerificationTypeInfo::UninitializedVariable(0x0304), 3))
    );
    assert_eq!(
        verification_type(&[7, 0x01]),
        Err(DecodeError::UnexpectedEof { offset: 1, requested: 2 })
    );
}

#[test]
fn verification_type_tags_above_eight_are_refused() {
    for tag in [9u8, 10, 0x7F, 0xFF] {
        assert_eq!(
            verification_type(&[tag, 0, 0]),
            Err(DecodeError::InvalidVerificationTypeTag { tag, offset: 0 })
        );
    }
}

#[test]
fn verification_type_list_is_count_prefixed() {
    let bytes = [0x00u8, 0x03, 1, 7, 0x00, 0x09, 0];
    let mut parser = ClassParser::new(&bytes);
    assert_eq!(
        verification_types_from_bytes(&mut parser),
        Ok(vec![
            VerificationTypeInfo::IntegerVariable,
            VerificationTypeInfo::ObjectVariable(9),
            VerificationTypeInfo::TopVariable,
        ])
    );
    assert_eq!(parser.position(), 7);
}

#[test]
fn same_frame_band() {
    for tag in [0u8, 1, 32, 63] {
        assert_eq!(frame(&[tag, 0xFF]), Ok((StackMapFrame::SameFrame, 1)));
    }
}

#[test]
fn same_locals_one_stack_item_band() {
    for tag in [64u8, 100, 127] {
        assert_eq!(
            frame(&[tag, 1]),
            Ok((
                StackMapFrame::SameLocals1StackItemFrame {
                    stack: VerificationTypeInfo::IntegerVariable
                },
                2
            ))
        );
    }
    assert_eq!(
        frame(&[64, 7, 0x00, 0x05]),
        Ok((
            StackMapFrame::SameLocals1StackItemFrame {
                stack: VerificationTypeInfo::ObjectVariable(5)
            },
            4
        ))
    );
}

#[test]
fn reserved_band_is_refused_at_the_tag() {
    for tag in [128u8, 129, 200, 245, 246] {
        let bytes = [0x00u8, tag, 0, 0];
        let mut parser = ClassParser::new(&bytes);
        assert_eq!(parser.u1(), Ok(0));
        assert_eq!(
            stack_map_frame_from_bytes(&mut parser),
            Err(DecodeError::ReservedFrameTag { byte: tag, offset: 1 })
        );
    }
}

#[test]
fn same_locals_one_stack_item_extended() {
    assert_eq!(
        frame(&[247, 0x00, 0x10, 4]),
        Ok((
            StackMapFrame::SameLocals1StackItemFrameExtended {
                offset_delta: 16,
                stack: VerificationTypeInfo::LongVariable
            },
            4
        ))
    );
}

#[test]
fn chop_frame_band() {
    for tag in [248u8, 249, 250] {
        assert_eq!(
            frame(&[tag, 0x01, 0x00]),
            Ok((StackMapFrame::ChopFrame { offset_delta: 256 }, 3))
        );
    }
}

#[test]
fn same_frame_extended() {
    assert_eq!(
        frame(&[251, 0x00, 0x07]),
        Ok((StackMapFrame::SameFrameExtended { offset_delta: 7 }, 3))
    );
}

#[test]
fn append_frame_band_reads_counted_locals() {
    for tag in [252u8, 253, 254] {
        assert_eq!(
            frame(&[tag, 0x00, 0x03, 0x00, 0x02, 1, 2]),
            Ok((
                StackMapFrame::AppendFrame {
                    offset_delta: 3,
                    locals: vec![
                        VerificationTypeInfo::IntegerVariable,
                        VerificationTypeInfo::FloatVariable
                    ]
                },
                7
            ))
        );
    }
}

#[test]
fn full_frame_reads_locals_then_stack() {
    let bytes = [255u8, 0x00, 0x05, 0x00, 0x01, 1, 0x00, 0x02, 7, 0x00, 0x09, 5];
    assert_eq!(
        frame(&bytes),
        Ok((
            StackMapFrame::FullFrame {
                offset_delta: 5,
                locals: vec![VerificationTypeInfo::IntegerVariable],
                stack: vec![
                    VerificationTypeInfo::ObjectVariable(9),
                    VerificationTypeInfo::NullVariable
                ],
            },
            12
        ))
    );
}

#[test]
fn empty_full_frame_equals_the_expected_value() {
    assert_eq!(
        frame(&[255, 0xAB, 0xCD, 0, 0, 0, 0]),
        Ok((StackMapFrame::FullFrame { offset_delta: 0xABCD, locals: vec![], stack: vec![] }, 7))
    );
}

#[test]
fn every_leading_byte_falls_in_one_band() {
    let tail = [0u8; 8];
    for tag in 0u8..=255 {
        let mut bytes = vec![tag];
        bytes.extend_from_slice(&tail);
        let result = frame(&bytes);
        match tag {
            0..=63 => assert!(matches!(result, Ok((StackMapFrame::SameFrame, 1)))),
            64..=127 => {
                assert!(matches!(result, Ok((StackMapFrame::SameLocals1StackItemFrame { .. }, 2))))
            }
            128..=246 => {
                assert_eq!(result, Err(DecodeError::ReservedFrameTag { byte: tag, offset: 0 }))
            }
            247 => assert!(matches!(
                result,
                Ok((StackMapFrame::SameLocals1StackItemFrameExtended { .. }, 4))
            )),
            248..=250 => assert!(matches!(result, Ok((StackMapFrame::ChopFrame { .. }, 3)))),
            251 => assert!(matches!(result, Ok((StackMapFrame::SameFrameExtended { .. }, 3)))),
            252..=254 => assert!(matches!(result, Ok((StackMapFrame::AppendFrame { .. }, 5)))),
            255 => assert!(matches!(result, Ok((StackMapFrame::FullFrame { .. }, 7)))),
        }
    }
}

#[test]
fn frames_fail_on_truncation() {
    assert_eq!(frame(&[]), Err(DecodeError::UnexpectedEof { offset: 0, requested: 1 }));
    assert_eq!(frame(&[64]), Err(DecodeError::UnexpectedEof { offset: 1, requested: 1 }));
    assert_eq!(frame(&[251, 0]), Err(DecodeError::UnexpectedEof { offset: 1, requested: 2 }));
    assert_eq!(
        frame(&[255, 0, 0, 0, 0]),
        Err(DecodeError::UnexpectedEof { offset: 5, requested: 2 })
    );
}

#[test]
fn frame_list_is_count_prefixed() {
    let bytes = [0x00u8, 0x02, 10, 251, 0x00, 0x01];
    let mut parser = ClassParser::new(&bytes);
    assert_eq!(
        stack_map_frames_from_bytes(&mut parser),
        Ok(vec![StackMapFrame::SameFrame, StackMapFrame::SameFrameExtended { offset_delta: 1 }])
    );
    assert_eq!(parser.position(), 6);
}

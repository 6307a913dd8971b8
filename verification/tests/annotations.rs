use runtime_cfparser::annotation::{
    annotation_from_bytes, annotations_from_bytes, element_value_from_bytes,
    element_value_pair_from_bytes, is_const_tag, local_var_from_bytes, target_info_from_bytes,
    type_annotation_from_bytes, type_annotations_from_bytes, type_path_from_bytes,
    type_path_segment_from_bytes,
};
use runtime_cfparser::{
    Annotation, ClassParser, DecodeError, DecodeOptions, Depth, ElementValue, ElementValuePair,
    LocalVar, TargetInfo, TypeAnnotation, TypePath, TypePathSegment,
};

fn deep() -> Depth {
    DecodeOptions::new().depth()
}

fn element_value(bytes: &[u8], depth: Depth) -> Result<(ElementValue, usize), DecodeError> {
    let mut parser = ClassParser::new(bytes);
    let value = element_value_from_bytes(&mut parser, depth)?;
    Ok((value, parser.position()))
}

fn target_info(bytes: &[u8], target_type: u8) -> Result<(TargetInfo, usize), DecodeError> {
    let mut parser = ClassParser::new(bytes);
    let info = target_info_from_bytes(&mut parser, target_type)?;
    Ok((info, parser.position()))
}

#[test]
fn constant_tags_share_one_shape() {
    for tag in [b'B', b'C', b'D', b'F', b'I', b'J', b'S', b'Z', b's'] {
        assert!(is_const_tag(tag));
        assert_eq!(
            element_value(&[tag, 0x01, 0x02, 0xFF], deep()),
            Ok((ElementValue::ConstValue(0x0102), 3))
        );
    }
    for tag in [b'e', b'c', b'@', b'[', b'b', 0u8] {
        assert!(!is_const_tag(tag));
    }
}

#[test]
fn enum_constant_has_two_indices() {
    assert_eq!(
        element_value(&[b'e', 0x00, 0x03, 0x00, 0x04], deep()),
        Ok((ElementValue::EnumConst { type_name_index: 3, const_name_index: 4 }, 5))
    );
}

#[test]
fn class_info_has_one_index() {
    assert_eq!(
        element_value(&[b'c', 0x00, 0x09], deep()),
        Ok((ElementValue::ClassInfo(9), 3))
    );
}

#[test]
fn nested_annotation_is_decoded_in_full() {
    let bytes = [b'@', 0x00, 0x07, 0x00, 0x01, 0x00, 0x08, b'I', 0x00, 0x09];
    assert_eq!(
        element_value(&bytes, deep()),
        Ok((
            ElementValue::Annotation(Annotation {
                type_index: 7,
                element_value_pairs: vec![ElementValuePair {
                    element_name_index: 8,
                    value: ElementValue::ConstValue(9),
                }],
            }),
            10
        ))
    );
}

#[test]
fn array_holds_its_values_in_order() {
    let bytes = [b'[', 0x00, 0x03, b'I', 0x00, 0x01, b'c', 0x00, 0x02, b's', 0x00, 0x03];
    assert_eq!(
        element_value(&bytes, deep()),
        Ok((
            ElementValue::Array {
                values: vec![
                    ElementValue::ConstValue(1),
                    ElementValue::ClassInfo(2),
                    ElementValue::ConstValue(3),
                ],
            },
            12
        ))
    );
}

#[test]
fn array_of_arrays_equals_the_expected_tree() {
    let bytes = [b'[', 0x00, 0x02, b'[', 0x00, 0x00, b'[', 0x00, 0x00];
    assert_eq!(
        element_value(&bytes, deep()),
        Ok((
            ElementValue::Array {
                values: vec![
                    ElementValue::Array { values: vec![] },
                    ElementValue::Array { values: vec![] },
                ],
            },
            9
        ))
    );
}

#[test]
fn unknown_element_value_tag_is_refused_at_the_tag() {
    let bytes = [0x00u8, 0x00, b'x', 0x00, 0x01];
    let mut parser = ClassParser::new(&bytes);
    assert_eq!(parser.u2(), Ok(0));
    assert_eq!(
        element_value_from_bytes(&mut parser, deep()),
        Err(DecodeError::InvalidElementValueTag { tag: b'x', offset: 2 })
    );
    assert_eq!(
        element_value(&[0u8], deep()),
        Err(DecodeError::InvalidElementValueTag { tag: 0, offset: 0 })
    );
}

#[test]
fn element_value_fails_on_truncation() {
    assert_eq!(
        element_value(&[], deep()),
        Err(DecodeError::UnexpectedEof { offset: 0, requested: 1 })
    );
    assert_eq!(
        element_value(&[b'I', 0x00], deep()),
        Err(DecodeError::UnexpectedEof { offset: 1, requested: 2 })
    );
    assert_eq!(
        element_value(&[b'e', 0x00, 0x01, 0x00], deep()),
        Err(DecodeError::UnexpectedEof { offset: 3, requested: 2 })
    );
    assert_eq!(
        element_value(&[b'[', 0x00, 0x02, b'I', 0x00, 0x01], deep()),
        Err(DecodeError::UnexpectedEof { offset: 6, requested: 1 })
    );
}

#[test]
fn arrays_nest_no_deeper_than_the_limit() {
    let two_levels = [b'[', 0x00, 0x01, b'[', 0x00, 0x00];
    let limit_two = DecodeOptions::new().max_depth(2).depth();
    assert_eq!(
        element_value(&two_levels, limit_two),
        Ok((ElementValue::Array { values: vec![ElementValue::Array { values: vec![] }] }, 6))
    );
    let limit_one = DecodeOptions::new().max_depth(1).depth();
    assert_eq!(
        element_value(&two_levels, limit_one),
        Err(DecodeError::NestingTooDeep { limit: 1, offset: 3 })
    );
    let limit_zero = DecodeOptions::new().max_depth(0).depth();
    assert_eq!(
        element_value(&two_levels, limit_zero),
        Err(DecodeError::NestingTooDeep { limit: 0, offset: 0 })
    );
    assert_eq!(
        element_value(&[b'I', 0x00, 0x01], limit_zero),
        Ok((ElementValue::ConstValue(1), 3))
    );
}

#[test]
fn annotations_nest_no_deeper_than_the_limit() {
    // @ (type 1, one pair: name 2, value @ (type 3, no pairs))
    let bytes = [b'@', 0, 1, 0, 1, 0, 2, b'@', 0, 3, 0, 0];
    let limit_two = DecodeOptions::new().max_depth(2).depth();
    assert!(element_value(&bytes, limit_two).is_ok());
    let limit_one = DecodeOptions::new().max_depth(1).depth();
    assert_eq!(
        element_value(&bytes, limit_one),
        Err(DecodeError::NestingTooDeep { limit: 1, offset: 7 })
    );
}

#[test]
fn deep_nesting_fails_at_the_default_limit() {
    let mut bytes = Vec::new();
    for _ in 0..200 {
        bytes.extend_from_slice(&[b'[', 0x00, 0x01]);
    }
    bytes.extend_from_slice(&[b'I', 0x00, 0x01]);
    assert_eq!(
        element_value(&bytes, deep()),
        Err(DecodeError::NestingTooDeep { limit: 64, offset: 64 * 3 })
    );
}

#[test]
fn depth_descends_one_level_at_a_time() {
    let depth = Depth { limit: 2, left: 2 };
    let one = depth.descend(10).unwrap();
    assert_eq!(one, Depth { limit: 2, left: 1 });
    let none = one.descend(11).unwrap();
    assert_eq!(none, Depth { limit: 2, left: 0 });
    assert_eq!(none.descend(12), Err(DecodeError::NestingTooDeep { limit: 2, offset: 12 }));
}

#[test]
fn options_default_to_strict_with_limit_64() {
    let options = DecodeOptions::new();
    assert!(!options.permissive);
    assert_eq!(options.max_depth, 64);
    assert_eq!(options.depth(), Depth { limit: 64, left: 64 });
    let changed = options.permissive(true).max_depth(3);
    assert!(changed.permissive);
    assert_eq!(changed.max_depth, 3);
}

#[test]
fn element_value_pair_is_a_name_and_a_value() {
    let bytes = [0x00u8, 0x05, b'Z', 0x00, 0x06];
    let mut parser = ClassParser::new(&bytes);
    assert_eq!(
        element_value_pair_from_bytes(&mut parser, deep()),
        Ok(ElementValuePair { element_name_index: 5, value: ElementValue::ConstValue(6) })
    );
    assert_eq!(parser.position(), 5);
}

#[test]
fn annotation_with_no_pairs() {
    let bytes = [0x00u8, 0x0A, 0x00, 0x00];
    let mut parser = ClassParser::new(&bytes);
    assert_eq!(
        annotation_from_bytes(&mut parser, deep()),
        Ok(Annotation { type_index: 10, element_value_pairs: vec![] })
    );
    assert_eq!(parser.position(), 4);
}

#[test]
fn annotation_list_is_count_prefixed() {
    let bytes = [0x00u8, 0x02, 0x00, 0x01, 0x00, 0x00, 0x00, 0x02, 0x00, 0x00];
    let mut parser = ClassParser::new(&bytes);
    assert_eq!(
        annotations_from_bytes(&mut parser, deep()),
        Ok(vec![
            Annotation { type_index: 1, element_value_pairs: vec![] },
            Annotation { type_index: 2, element_value_pairs: vec![] },
        ])
    );
    assert_eq!(parser.position(), 10);
}

#[test]
fn local_var_is_three_values() {
    let bytes = [0x00u8, 0x01, 0x00, 0x02, 0x00, 0x03];
    let mut parser = ClassParser::new(&bytes);
    assert_eq!(
        local_var_from_bytes(&mut parser),
        Ok(LocalVar { start_pc: 1, length: 2, index: 3 })
    );
    let short = [0x00u8, 0x01, 0x00, 0x02, 0x00];
    let mut parser = ClassParser::new(&short);
    assert_eq!(
        local_var_from_bytes(&mut parser),
        Err(DecodeError::UnexpectedEof { offset: 4, requested: 2 })
    );
}

#[test]
fn target_info_type_parameter() {
    for target_type in [0x00u8, 0x01] {
        assert_eq!(target_info(&[7, 9], target_type), Ok((TargetInfo::TypeParameter(7), 1)));
    }
}

#[test]
fn target_info_supertype() {
    assert_eq!(target_info(&[0x01, 0x02], 0x10), Ok((TargetInfo::Supertype(0x0102), 2)));
}

#[test]
fn target_info_type_parameter_bound() {
    for target_type in [0x11u8, 0x12] {
        assert_eq!(
            target_info(&[3, 4], target_type),
            Ok((TargetInfo::TypeParameterBound { type_parameter_index: 3, bound_index: 4 }, 2))
        );
    }
}

#[test]
fn target_info_empty_reads_nothing() {
    for target_type in [0x13u8, 0x14, 0x15] {
        assert_eq!(target_info(&[9, 9], target_type), Ok((TargetInfo::Empty, 0)));
        assert_eq!(target_info(&[], target_type), Ok((TargetInfo::Empty, 0)));
    }
}

#[test]
fn target_info_formal_parameter_and_throws() {
    assert_eq!(target_info(&[5], 0x16), Ok((TargetInfo::FormalParameter(5), 1)));
    assert_eq!(target_info(&[0, 6], 0x17), Ok((TargetInfo::Throws(6), 2)));
}

#[test]
fn target_info_local_var_table() {
    let bytes = [0x00u8, 0x02, 0, 1, 0, 2, 0, 3, 0, 4, 0, 5, 0, 6];
    for target_type in [0x40u8, 0x41] {
        assert_eq!(
            target_info(&bytes, target_type),
            Ok((
                TargetInfo::LocalVar {
                    table: vec![
                        LocalVar { start_pc: 1, length: 2, index: 3 },
                        LocalVar { start_pc: 4, length: 5, index: 6 },
                    ],
                },
                14
            ))
        );
    }
}

#[test]
fn target_info_catch_offset_and_type_argument() {
    assert_eq!(target_info(&[0, 8], 0x42), Ok((TargetInfo::Catch(8), 2)));
    for target_type in [0x43u8, 0x44, 0x45, 0x46] {
        assert_eq!(target_info(&[1, 0], target_type), Ok((TargetInfo::Offset(256), 2)));
    }
    for target_type in [0x47u8, 0x48, 0x49, 0x4A, 0x4B] {
        assert_eq!(
            target_info(&[0, 9, 2], target_type),
            Ok((TargetInfo::TypeArgument { offset: 9, type_argument_index: 2 }, 3))
        );
    }
}

#[test]
fn target_types_outside_the_ranges_are_refused() {
    for target_type in [0x02u8, 0x0F, 0x18, 0x3F, 0x4C, 0x80, 0xFF] {
        assert_eq!(
            target_info(&[0, 0, 0, 0], target_type),
            Err(DecodeError::InvalidTargetType { byte: target_type, offset: 0 })
        );
    }
}

#[test]
fn every_target_type_is_accepted_or_refused_by_its_range() {
    let known = [
        0x00u8, 0x01, 0x10, 0x11, 0x12, 0x13, 0x14, 0x15, 0x16, 0x17, 0x40, 0x41, 0x42, 0x43, 0x44,
        0x45, 0x46, 0x47, 0x48, 0x49, 0x4A, 0x4B,
    ];
    for target_type in 0u8..=255 {
        let result = target_info(&[0, 0, 0, 0], target_type);
        assert_eq!(result.is_ok(), known.contains(&target_type));
    }
}

#[test]
fn type_path_has_a_one_byte_count() {
    let bytes = [2u8, 0, 0, 3, 1, 0xFF];
    let mut parser = ClassParser::new(&bytes);
    assert_eq!(
        type_path_from_bytes(&mut parser),
        Ok(TypePath {
            path: vec![
                TypePathSegment { type_path_kind: 0, type_argument_index: 0 },
                TypePathSegment { type_path_kind: 3, type_argument_index: 1 },
            ],
        })
    );
    assert_eq!(parser.position(), 5);
    let mut parser = ClassParser::new(&bytes[1..3]);
    assert_eq!(
        type_path_segment_from_bytes(&mut parser),
        Ok(TypePathSegment { type_path_kind: 0, type_argument_index: 0 })
    );
}

#[test]
fn type_annotation_in_full() {
    let bytes = [
        0x47u8, // target type: type argument
        0x00, 0x10, 0x01, // offset 16, type argument index 1
        0x01, 0x03, 0x02, // type path: one step
        0x00, 0x20, // type index
        0x00, 0x01, 0x00, 0x21, b's', 0x00, 0x22, // one pair
    ];
    let mut parser = ClassParser::new(&bytes);
    assert_eq!(
        type_annotation_from_bytes(&mut parser, deep()),
        Ok(TypeAnnotation {
            target_type: 0x47,
            target_info: TargetInfo::TypeArgument { offset: 16, type_argument_index: 1 },
            target_path: TypePath {
                path: vec![TypePathSegment { type_path_kind: 3, type_argument_index: 2 }],
            },
            type_index: 0x20,
            element_value_pairs: vec![ElementValuePair {
                element_name_index: 0x21,
                value: ElementValue::ConstValue(0x22),
            }],
        })
    );
    assert_eq!(parser.position(), bytes.len());
}

#[test]
fn type_annotation_with_a_bad_target_type() {
    let bytes = [0x30u8, 0x00, 0x00];
    let mut parser = ClassParser::new(&bytes);
    assert_eq!(
        type_annotation_from_bytes(&mut parser, deep()),
        Err(DecodeError::InvalidTargetType { byte: 0x30, offset: 1 })
    );
}

#[test]
fn type_annotation_list_is_count_prefixed() {
    let bytes = [0x00u8, 0x01, 0x13, 0x00, 0x00, 0x05, 0x00, 0x00];
    let mut parser = ClassParser::new(&bytes);
    assert_eq!(
        type_annotations_from_bytes(&mut parser, deep()),
        Ok(vec![TypeAnnotation {
            target_type: 0x13,
            target_info: TargetInfo::Empty,
            target_path: TypePath { path: vec![] },
            type_index: 5,
            element_value_pairs: vec![],
        }])
    );
    assert_eq!(parser.position(), 8);
}

use runtime_cfparser::constant_pool::{
    constant_pool_entry_from_bytes, constant_pool_from_bytes, constant_pool_get,
    constant_pool_long_entry_from_bytes, constant_pool_utf8, join_halves, kind_of_tag,
};
use runtime_cfparser::{ClassParser, ConstantKind, ConstantPoolEntry, DecodeError};

fn entry(bytes: &[u8]) -> Result<(ConstantPoolEntry<'_>, usize), DecodeError> {
    let mut parser = ClassParser::new(bytes);
    let entry = constant_pool_entry_from_bytes(&mut parser)?;
    Ok((entry, parser.position()))
}

#[test]
fn join_halves_shifts_by_exactly_32() {
    assert_eq!(join_halves(0, 0), 0);
    assert_eq!(join_halves(1, 0), 0x1_0000_0000);
    assert_eq!(join_halves(0, 1), 1);
    // a shift by 32 + low would lose this value altogether
    assert_eq!(join_halves(1, 1), 0x0000_0001_0000_0001);
    assert_eq!(join_halves(0x1234_5678, 0x9ABC_DEF0), 0x1234_5678_9ABC_DEF0);
    assert_eq!(join_halves(u32::MAX, u32::MAX), u64::MAX);
    assert_eq!(join_halves(0x8000_0000, 0x8000_0000), 0x8000_0000_8000_0000);
}

#[test]
fn long_entry_joins_its_halves() {
    let bytes = [5u8, 0x00, 0x00, 0x00, 0x01, 0x00, 0x00, 0x00, 0x02];
    assert_eq!(entry(&bytes), Ok((ConstantPoolEntry::Long { value: 0x0000_0001_0000_0002 }, 9)));
}

#[test]
fn long_body_reads_eight_bytes() {
    let bytes = [0xFFu8, 0xEE, 0xDD, 0xCC, 0xBB, 0xAA, 0x99, 0x88];
    let mut parser = ClassParser::new(&bytes);
    assert_eq!(
        constant_pool_long_entry_from_bytes(&mut parser),
        Ok(ConstantPoolEntry::Long { value: 0xFFEE_DDCC_BBAA_9988 })
    );
    assert_eq!(parser.position(), 8);
}

#[test]
fn double_entry_keeps_the_bits() {
    // 1.0 as a double
    let bytes = [6u8, 0x3F, 0xF0, 0x00, 0x00, 0x00, 0x00, 0x00, 0x00];
    let (decoded, end) = entry(&bytes).unwrap();
    assert_eq!(decoded, ConstantPoolEntry::Double { bits: 0x3FF0_0000_0000_0000 });
    assert_eq!(end, 9);
    match decoded {
        ConstantPoolEntry::Double { bits } => assert_eq!(f64::from_bits(bits), 1.0),
        _ => unreachable!(),
    }
}

#[test]
fn float_entry_keeps_the_bits() {
    // 1.5 as a float
    let bytes = [4u8, 0x3F, 0xC0, 0x00, 0x00];
    let (decoded, end) = entry(&bytes).unwrap();
    assert_eq!(decoded, ConstantPoolEntry::Float { bits: 0x3FC0_0000 });
    assert_eq!(end, 5);
    match decoded {
        ConstantPoolEntry::Float { bits } => assert_eq!(f32::from_bits(bits), 1.5),
        _ => unreachable!(),
    }
}

#[test]
fn utf8_entry_borrows_its_text() {
    let bytes = [1u8, 0x00, 0x04, b'C', b'o', b'd', b'e', 0xFF];
    assert_eq!(entry(&bytes), Ok((ConstantPoolEntry::Utf8 { bytes: b"Code" }, 7)));
}

#[test]
fn utf8_entry_may_be_empty() {
    let bytes = [1u8, 0x00, 0x00];
    assert_eq!(entry(&bytes), Ok((ConstantPoolEntry::Utf8 { bytes: b"" }, 3)));
}

#[test]
fn integer_entry() {
    let bytes = [3u8, 0x12, 0x34, 0x56, 0x78];
    assert_eq!(entry(&bytes), Ok((ConstantPoolEntry::Integer { bytes: 0x1234_5678 }, 5)));
}

#[test]
fn single_index_entries() {
    assert_eq!(entry(&[7, 0x00, 0x05]), Ok((ConstantPoolEntry::Class { name_index: 5 }, 3)));
    assert_eq!(entry(&[8, 0x01, 0x00]), Ok((ConstantPoolEntry::String { string_index: 256 }, 3)));
    assert_eq!(
        entry(&[16, 0x00, 0x09]),
        Ok((ConstantPoolEntry::MethodType { reference_index: 9 }, 3))
    );
    assert_eq!(entry(&[19, 0x00, 0x0A]), Ok((ConstantPoolEntry::Module { name_index: 10 }, 3)));
    assert_eq!(entry(&[20, 0x00, 0x0B]), Ok((ConstantPoolEntry::Package { name_index: 11 }, 3)));
}

#[test]
fn double_index_entries() {
    assert_eq!(
        entry(&[9, 0x00, 0x01, 0x00, 0x02]),
        Ok((ConstantPoolEntry::FieldRef { class_index: 1, name_and_type_index: 2 }, 5))
    );
    assert_eq!(
        entry(&[10, 0x00, 0x03, 0x00, 0x04]),
        Ok((ConstantPoolEntry::MethodRef { class_index: 3, name_and_type_index: 4 }, 5))
    );
    assert_eq!(
        entry(&[11, 0x00, 0x05, 0x00, 0x06]),
        Ok((ConstantPoolEntry::InstanceMethodRef { class_index: 5, name_and_type_index: 6 }, 5))
    );
    assert_eq!(
        entry(&[12, 0x00, 0x07, 0x00, 0x08]),
        Ok((ConstantPoolEntry::NameAndType { name_index: 7, descriptor_index: 8 }, 5))
    );
    assert_eq!(
        entry(&[17, 0x00, 0x09, 0x00, 0x0A]),
        Ok((
            ConstantPoolEntry::Dynamic { bootstrap_method_attr_index: 9, name_and_type_index: 10 },
            5
        ))
    );
    assert_eq!(
        entry(&[18, 0x00, 0x0B, 0x00, 0x0C]),
        Ok((
            ConstantPoolEntry::InvokeDynamic {
                bootstrap_method_attr_index: 11,
                name_and_type_index: 12
            },
            5
        ))
    );
}

#[test]
fn method_handle_entry() {
    assert_eq!(
        entry(&[15, 0x06, 0x00, 0x2A]),
        Ok((ConstantPoolEntry::MethodHandle { reference_kind: 6, reference_index: 42 }, 4))
    );
}

#[test]
fn reserved_and_unknown_tags_are_refused_at_the_tag() {
    for tag in [0u8, 2, 13, 14, 21, 0x7F, 0xFF] {
        let bytes = [0xAAu8, tag, 0x00, 0x00, 0x00, 0x00];
        let mut parser = ClassParser::new(&bytes);
        assert_eq!(parser.u1(), Ok(0xAA));
        assert_eq!(
            constant_pool_entry_from_bytes(&mut parser),
            Err(DecodeError::UnknownConstantTag { tag, offset: 1 })
        );
    }
}

#[test]
fn kind_of_tag_knows_the_live_tags_only() {
    let live = [1u8, 3, 4, 5, 6, 7, 8, 9, 10, 11, 12, 15, 16, 17, 18, 19, 20];
    for tag in 0u8..=255 {
        match kind_of_tag(tag) {
            Some(kind) => {
                assert!(live.contains(&tag));
                assert_eq!(kind.tag(), tag);
            }
            None => assert!(!live.contains(&tag)),
        }
    }
    assert_eq!(kind_of_tag(1), Some(ConstantKind::Utf8));
    assert_eq!(kind_of_tag(20), Some(ConstantKind::Package));
}

#[test]
fn truncated_entries_fail_where_the_missing_field_starts() {
    assert_eq!(entry(&[]), Err(DecodeError::UnexpectedEof { offset: 0, requested: 1 }));
    assert_eq!(entry(&[7, 0x00]), Err(DecodeError::UnexpectedEof { offset: 1, requested: 2 }));
    assert_eq!(
        entry(&[9, 0x00, 0x01, 0x00]),
        Err(DecodeError::UnexpectedEof { offset: 3, requested: 2 })
    );
    assert_eq!(
        entry(&[5, 0, 0, 0, 1, 0, 0]),
        Err(DecodeError::UnexpectedEof { offset: 5, requested: 4 })
    );
    assert_eq!(entry(&[15, 1]), Err(DecodeError::UnexpectedEof { offset: 2, requested: 2 }));
}

#[test]
fn pool_holds_one_entry_fewer_than_its_count() {
    let bytes = [0x00u8, 0x03, 7, 0x00, 0x02, 1, 0x00, 0x01, b'A', 0xEE];
    let mut parser = ClassParser::new(&bytes);
    let pool = constant_pool_from_bytes(&mut parser).unwrap();
    assert_eq!(
        pool,
        vec![ConstantPoolEntry::Class { name_index: 2 }, ConstantPoolEntry::Utf8 { bytes: b"A" }]
    );
    assert_eq!(parser.position(), 9);
}

#[test]
fn pool_with_count_zero_or_one_is_empty() {
    let bytes = [0x00u8, 0x00, 7];
    let mut parser = ClassParser::new(&bytes);
    assert_eq!(constant_pool_from_bytes(&mut parser), Ok(vec![]));
    assert_eq!(parser.position(), 2);
    let bytes = [0x00u8, 0x01, 7];
    let mut parser = ClassParser::new(&bytes);
    assert_eq!(constant_pool_from_bytes(&mut parser), Ok(vec![]));
    assert_eq!(parser.position(), 2);
}

#[test]
fn long_entry_takes_one_place_in_the_pool() {
    let bytes = [0x00u8, 0x03, 5, 0, 0, 0, 0, 0, 0, 0, 7, 7, 0x00, 0x01];
    let mut parser = ClassParser::new(&bytes);
    let pool = constant_pool_from_bytes(&mut parser).unwrap();
    assert_eq!(
        pool,
        vec![ConstantPoolEntry::Long { value: 7 }, ConstantPoolEntry::Class { name_index: 1 }]
    );
    assert_eq!(constant_pool_get(&pool, 2, 0), Ok(ConstantPoolEntry::Class { name_index: 1 }));
}

#[test]
fn pool_stops_at_the_first_bad_entry() {
    let bytes = [0x00u8, 0x03, 7, 0x00, 0x02, 13, 0x00];
    let mut parser = ClassParser::new(&bytes);
    assert_eq!(
        constant_pool_from_bytes(&mut parser),
        Err(DecodeError::UnknownConstantTag { tag: 13, offset: 5 })
    );
}

#[test]
fn pool_lookup_is_one_based() {
    let pool =
        [ConstantPoolEntry::Utf8 { bytes: b"first" }, ConstantPoolEntry::Integer { bytes: 9 }];
    assert_eq!(constant_pool_get(&pool, 1, 4), Ok(ConstantPoolEntry::Utf8 { bytes: b"first" }));
    assert_eq!(constant_pool_get(&pool, 2, 4), Ok(ConstantPoolEntry::Integer { bytes: 9 }));
    assert_eq!(
        constant_pool_get(&pool, 0, 4),
        Err(DecodeError::ConstantPoolIndexOutOfRange { index: 0, offset: 4 })
    );
    assert_eq!(
        constant_pool_get(&pool, 3, 4),
        Err(DecodeError::ConstantPoolIndexOutOfRange { index: 3, offset: 4 })
    );
    assert_eq!(
        constant_pool_get(&[], 1, 0),
        Err(DecodeError::ConstantPoolIndexOutOfRange { index: 1, offset: 0 })
    );
}

#[test]
fn pool_utf8_lookup_checks_the_kind() {
    let pool =
        [ConstantPoolEntry::Utf8 { bytes: b"first" }, ConstantPoolEntry::Class { name_index: 1 }];
    assert_eq!(constant_pool_utf8(&pool, 1, 8), Ok(&b"first"[..]));
    assert_eq!(
        constant_pool_utf8(&pool, 2, 8),
        Err(DecodeError::ConstantPoolTypeMismatch {
            expected: ConstantKind::Utf8,
            found: ConstantKind::Class,
            offset: 8
        })
    );
    assert_eq!(
        constant_pool_utf8(&pool, 9, 8),
        Err(DecodeError::ConstantPoolIndexOutOfRange { index: 9, offset: 8 })
    );
}

#[test]
fn entry_kind_matches_its_variant() {
    assert_eq!(ConstantPoolEntry::Utf8 { bytes: b"" }.kind(), ConstantKind::Utf8);
    assert_eq!(ConstantPoolEntry::Long { value: 0 }.kind(), ConstantKind::Long);
    assert_eq!(ConstantPoolEntry::Double { bits: 0 }.kind(), ConstantKind::Double);
    assert_eq!(
        ConstantPoolEntry::MethodHandle { reference_kind: 1, reference_index: 1 }.kind(),
        ConstantKind::MethodHandle
    );
    assert_eq!(ConstantKind::MethodHandle.tag(), 15);
    assert_eq!(ConstantKind::Utf8.tag(), 1);
}

use runtime_cfparser::attribute::attribute_kind;
use runtime_cfparser::attribute_decoder::{
    attribute_code_from_bytes, attribute_from_bytes, attribute_info_from_bytes,
    attribute_module_from_bytes, attribute_record_from_bytes,
    attribute_source_debug_extension_from_bytes, attributes_from_bytes,
    record_component_from_bytes,
};
use runtime_cfparser::records::{
    bootstrap_method_from_bytes, exception_table_entry_from_bytes, exception_table_from_bytes,
    inner_class_from_bytes, line_number_from_bytes, local_variable_from_bytes,
    local_variable_type_from_bytes, method_parameter_from_bytes, module_export_from_bytes,
    module_opens_from_bytes, module_provides_from_bytes, module_require_from_bytes,
};
use runtime_cfparser::repeat::{u2_list_from_bytes, u2_run_from_bytes};
use runtime_cfparser::{
    Annotation, Attribute, AttributeInfo, AttributeKind, BootstrapMethod, ClassParser,
    ConstantKind, ConstantPoolEntry, DecodeError, DecodeOptions, ElementValue,
    ExceptionTableEntry, InnerClass, LineNumber, LocalVariable, LocalVariableType,
    MethodParameter, ModuleExports, ModuleOpens, ModuleProvides, ModuleRequires, RecordComponent,
    StackMapFrame, TargetInfo, TypeAnnotation, TypePath,
};

const NAMES: [&str; 30] = [
    "AnnotationDefault",
    "BootstrapMethods",
    "Code",
    "ConstantValue",
    "Deprecated",
    "EnclosingMethod",
    "Exceptions",
    "InnerClasses",
    "LineNumberTable",
    "LocalVariableTable",
    "LocalVariableTypeTable",
    "MethodParameters",
    "Module",
    "ModuleMainClass",
    "ModulePackages",
    "NestHost",
    "NestMembers",
    "PermittedSubclasses",
    "Record",
    "RuntimeInvisibleAnnotations",
    "RuntimeInvisibleParameterAnnotations",
    "RuntimeInvisibleTypeAnnotations",
    "RuntimeVisibleAnnotations",
    "RuntimeVisibleParameterAnnotations",
    "RuntimeVisibleTypeAnnotations",
    "Signature",
    "SourceDebugExtension",
    "SourceFile",
    "StackMapTable",
    "Synthetic",
];

/// A pool whose entry `i + 1` is the `i`-th name of `NAMES`, followed by an
/// entry that is no text, a name that no decoder knows, and three names that
/// put the text conversion to the test.
fn pool() -> Vec<ConstantPoolEntry<'static>> {
    let mut pool: Vec<ConstantPoolEntry<'static>> =
        NAMES.iter().map(|name| ConstantPoolEntry::Utf8 { bytes: name.as_bytes() }).collect();
    pool.push(ConstantPoolEntry::Class { name_index: 1 }); // 31
    pool.push(ConstantPoolEntry::Utf8 { bytes: b"VendorPrivate" }); // 32
    pool.push(ConstantPoolEntry::Utf8 { bytes: &[b'a', 0xC0, 0x80, b'b'] }); // 33
    pool.push(ConstantPoolEntry::Utf8 { bytes: &[b'a', 0xFF] }); // 34
    pool.push(ConstantPoolEntry::Utf8 { bytes: &[b'a', 0xC3] }); // 35
    pool
}

fn index_of(name: &str) -> u16 {
    NAMES.iter().position(|known| *known == name).unwrap() as u16 + 1
}

/// The bytes of an attribute: name index, declared length, body.
fn attribute_bytes(name_index: u16, declared: u32, body: &[u8]) -> Vec<u8> {
    let mut bytes = Vec::new();
    bytes.extend_from_slice(&name_index.to_be_bytes());
    bytes.extend_from_slice(&declared.to_be_bytes());
    bytes.extend_from_slice(body);
    bytes
}

fn named(name: &str, body: &[u8]) -> Vec<u8> {
    attribute_bytes(index_of(name), body.len() as u32, body)
}

fn decode_with(
    bytes: &[u8],
    options: DecodeOptions,
) -> Result<(AttributeInfo<'_>, usize), DecodeError> {
    let pool = pool();
    let mut parser = ClassParser::new(bytes);
    let attribute = attribute_from_bytes(&mut parser, &pool, options, options.depth())?;
    Ok((attribute.info, parser.position()))
}

fn decode(bytes: &[u8]) -> Result<(AttributeInfo<'_>, usize), DecodeError> {
    decode_with(bytes, DecodeOptions::new())
}

#[test]
fn every_registered_name_has_its_kind() {
    assert_eq!(attribute_kind("AnnotationDefault"), Some(AttributeKind::AnnotationDefault));
    assert_eq!(attribute_kind("BootstrapMethods"), Some(AttributeKind::BootstrapMethods));
    assert_eq!(attribute_kind("Code"), Some(AttributeKind::Code));
    assert_eq!(attribute_kind("ConstantValue"), Some(AttributeKind::ConstantValue));
    assert_eq!(attribute_kind("Deprecated"), Some(AttributeKind::Deprecated));
    assert_eq!(attribute_kind("EnclosingMethod"), Some(AttributeKind::EnclosingMethod));
    assert_eq!(attribute_kind("Exceptions"), Some(AttributeKind::Exceptions));
    assert_eq!(attribute_kind("InnerClasses"), Some(AttributeKind::InnerClasses));
    assert_eq!(attribute_kind("LineNumberTable"), Some(AttributeKind::LineNumberTable));
    assert_eq!(attribute_kind("LocalVariableTable"), Some(AttributeKind::LocalVariableTable));
    assert_eq!(
        attribute_kind("LocalVariableTypeTable"),
        Some(AttributeKind::LocalVariableTypeTable)
    );
    assert_eq!(attribute_kind("MethodParameters"), Some(AttributeKind::MethodParameters));
    assert_eq!(attribute_kind("Module"), Some(AttributeKind::Module));
    assert_eq!(attribute_kind("ModuleMainClass"), Some(AttributeKind::ModuleMainClass));
    assert_eq!(attribute_kind("ModulePackages"), Some(AttributeKind::ModulePackages));
    assert_eq!(attribute_kind("NestHost"), Some(AttributeKind::NestHost));
    assert_eq!(attribute_kind("NestMembers"), Some(AttributeKind::NestMembers));
    assert_eq!(attribute_kind("PermittedSubclasses"), Some(AttributeKind::PermittedSubclasses));
    assert_eq!(attribute_kind("Record"), Some(AttributeKind::Record));
    assert_eq!(
        attribute_kind("RuntimeInvisibleAnnotations"),
        Some(AttributeKind::RuntimeInvisibleAnnotations)
    );
    assert_eq!(
        attribute_kind("RuntimeInvisibleParameterAnnotations"),
        Some(AttributeKind::RuntimeInvisibleParameterAnnotations)
    );
    assert_eq!(
        attribute_kind("RuntimeInvisibleTypeAnnotations"),
        Some(AttributeKind::RuntimeInvisibleTypeAnnotations)
    );
    assert_eq!(
        attribute_kind("RuntimeVisibleAnnotations"),
        Some(AttributeKind::RuntimeVisibleAnnotations)
    );
    assert_eq!(
        attribute_kind("RuntimeVisibleParameterAnnotations"),
        Some(AttributeKind::RuntimeVisibleParameterAnnotations)
    );
    assert_eq!(
        attribute_kind("RuntimeVisibleTypeAnnotations"),
        Some(AttributeKind::RuntimeVisibleTypeAnnotations)
    );
    assert_eq!(attribute_kind("Signature"), Some(AttributeKind::Signature));
    assert_eq!(attribute_kind("SourceDebugExtension"), Some(AttributeKind::SourceDebugExtension));
    assert_eq!(attribute_kind("SourceFile"), Some(AttributeKind::SourceFile));
    assert_eq!(attribute_kind("StackMapTable"), Some(AttributeKind::StackMapTable));
    assert_eq!(attribute_kind("Synthetic"), Some(AttributeKind::Synthetic));
}

#[test]
fn names_are_matched_whole_and_by_case() {
    for name in ["", "code", "CODE", "Cod", "Codes", "Code ", " Code", "Module\0", "Vendor"] {
        assert_eq!(attribute_kind(name), None);
    }
}

#[test]
fn single_index_attributes() {
    assert_eq!(
        decode(&named("ConstantValue", &[0, 7])),
        Ok((AttributeInfo::ConstantValue { constantvalue_index: 7 }, 8))
    );
    assert_eq!(
        decode(&named("ModuleMainClass", &[0, 8])),
        Ok((AttributeInfo::ModuleMainClass { main_class_index: 8 }, 8))
    );
    assert_eq!(
        decode(&named("NestHost", &[0, 9])),
        Ok((AttributeInfo::NestHost { host_class_index: 9 }, 8))
    );
    assert_eq!(
        decode(&named("Signature", &[0, 10])),
        Ok((AttributeInfo::Signature { signature_index: 10 }, 8))
    );
    assert_eq!(
        decode(&named("SourceFile", &[1, 0])),
        Ok((AttributeInfo::SourceFile { sourcefile_index: 256 }, 8))
    );
}

#[test]
fn empty_attributes() {
    assert_eq!(decode(&named("Deprecated", &[])), Ok((AttributeInfo::Deprecated, 6)));
    assert_eq!(decode(&named("Synthetic", &[])), Ok((AttributeInfo::Synthetic, 6)));
}

#[test]
fn enclosing_method() {
    assert_eq!(
        decode(&named("EnclosingMethod", &[0, 1, 0, 2])),
        Ok((AttributeInfo::EnclosingMethod { class_index: 1, method_index: 2 }, 10))
    );
}

#[test]
fn index_list_attributes() {
    let body = [0u8, 2, 0, 5, 0, 6];
    assert_eq!(
        decode(&named("Exceptions", &body)),
        Ok((AttributeInfo::Exceptions { exception_index_table: vec![5, 6] }, 12))
    );
    assert_eq!(
        decode(&named("ModulePackages", &body)),
        Ok((AttributeInfo::ModulePackages { package_index: vec![5, 6] }, 12))
    );
    assert_eq!(
        decode(&named("NestMembers", &body)),
        Ok((AttributeInfo::NestMembers { classes: vec![5, 6] }, 12))
    );
    assert_eq!(
        decode(&named("PermittedSubclasses", &body)),
        Ok((AttributeInfo::PermittedSubclasses { classes: vec![5, 6] }, 12))
    );
}

#[test]
fn table_attributes() {
    assert_eq!(
        decode(&named("InnerClasses", &[0, 1, 0, 1, 0, 2, 0, 3, 0, 4])),
        Ok((
            AttributeInfo::InnerClasses {
                classes: vec![InnerClass {
                    inner_class_info_index: 1,
                    outer_class_info_index: 2,
                    inner_name_index: 3,
                    inner_class_access_flags: 4,
                }],
            },
            16
        ))
    );
    assert_eq!(
        decode(&named("LineNumberTable", &[0, 2, 0, 0, 0, 10, 0, 4, 0, 11])),
        Ok((
            AttributeInfo::LineNumberTable {
                line_number_table: vec![
                    LineNumber { start_pc: 0, line_number: 10 },
                    LineNumber { start_pc: 4, line_number: 11 },
                ],
            },
            16
        ))
    );
    assert_eq!(
        decode(&named("LocalVariableTable", &[0, 1, 0, 1, 0, 2, 0, 3, 0, 4, 0, 5])),
        Ok((
            AttributeInfo::LocalVariableTable {
                local_variable_table: vec![LocalVariable {
                    start_pc: 1,
                    length: 2,
                    name_index: 3,
                    descriptor_index: 4,
                    index: 5,
                }],
            },
            18
        ))
    );
    assert_eq!(
        decode(&named("LocalVariableTypeTable", &[0, 1, 0, 1, 0, 2, 0, 3, 0, 4, 0, 5])),
        Ok((
            AttributeInfo::LocalVariableTypeTable {
                local_variable_type_table: vec![LocalVariableType {
                    start_pc: 1,
                    length: 2,
                    name_index: 3,
                    descriptor_index: 4,
                    index: 5,
                }],
            },
            18
        ))
    );
    assert_eq!(
        decode(&named("MethodParameters", &[0, 1, 0, 9, 0x80, 0x00])),
        Ok((
            AttributeInfo::MethodParameters {
                parameters: vec![MethodParameter { name_index: 9, access_flags: 0x8000 }],
            },
            12
        ))
    );
}

#[test]
fn bootstrap_methods() {
    let body = [0u8, 2, 0, 1, 0, 0, 0, 2, 0, 2, 0, 3, 0, 4];
    assert_eq!(
        decode(&named("BootstrapMethods", &body)),
        Ok((
            AttributeInfo::BootstrapMethods {
                bootstrap_methods: vec![
                    BootstrapMethod { bootstrap_method_ref: 1, bootstrap_arguments: vec![] },
                    BootstrapMethod { bootstrap_method_ref: 2, bootstrap_arguments: vec![3, 4] },
                ],
            },
            20
        ))
    );
}

#[test]
fn annotation_default() {
    assert_eq!(
        decode(&named("AnnotationDefault", &[b'I', 0, 3])),
        Ok((AttributeInfo::AnnotationDefault { default_value: ElementValue::ConstValue(3) }, 9))
    );
}

#[test]
fn annotation_attributes() {
    let body = [0u8, 1, 0, 5, 0, 0];
    let expected = vec![Annotation { type_index: 5, element_value_pairs: vec![] }];
    assert_eq!(
        decode(&named("RuntimeVisibleAnnotations", &body)),
        Ok((AttributeInfo::RuntimeVisibleAnnotations { annotations: expected }, 12))
    );
    let expected = vec![Annotation { type_index: 5, element_value_pairs: vec![] }];
    assert_eq!(
        decode(&named("RuntimeInvisibleAnnotations", &body)),
        Ok((AttributeInfo::RuntimeInvisibleAnnotations { annotations: expected }, 12))
    );
    let expected = vec![Annotation { type_index: 5, element_value_pairs: vec![] }];
    assert_eq!(
        decode(&named("RuntimeVisibleParameterAnnotations", &body)),
        Ok((
            AttributeInfo::RuntimeVisibleParameterAnnotations { parameter_annotations: expected },
            12
        ))
    );
    let expected = vec![Annotation { type_index: 5, element_value_pairs: vec![] }];
    assert_eq!(
        decode(&named("RuntimeInvisibleParameterAnnotations", &body)),
        Ok((
            AttributeInfo::RuntimeInvisibleParameterAnnotations {
                parameter_annotations: expected
            },
            12
        ))
    );
}

fn empty_target_annotation() -> TypeAnnotation {
    TypeAnnotation {
        target_type: 0x14,
        target_info: TargetInfo::Empty,
        target_path: TypePath { path: vec![] },
        type_index: 6,
        element_value_pairs: vec![],
    }
}

#[test]
fn type_annotation_attributes() {
    let body = [0u8, 1, 0x14, 0, 0, 6, 0, 0];
    assert_eq!(
        decode(&named("RuntimeVisibleTypeAnnotations", &body)),
        Ok((
            AttributeInfo::RuntimeVisibleTypeAnnotations {
                type_annotations: vec![empty_target_annotation()]
            },
            14
        ))
    );
    assert_eq!(
        decode(&named("RuntimeInvisibleTypeAnnotations", &body)),
        Ok((
            AttributeInfo::RuntimeInvisibleTypeAnnotations {
                type_annotations: vec![empty_target_annotation()]
            },
            14
        ))
    );
}

#[test]
fn stack_map_table() {
    assert_eq!(
        decode(&named("StackMapTable", &[0, 2, 3, 251, 0, 9])),
        Ok((
            AttributeInfo::StackMapTable {
                entries: vec![
                    StackMapFrame::SameFrame,
                    StackMapFrame::SameFrameExtended { offset_delta: 9 },
                ],
            },
            12
        ))
    );
}

#[test]
fn source_debug_extension_takes_the_declared_length() {
    let bytes = named("SourceDebugExtension", b"SMAP");
    assert_eq!(
        decode(&bytes),
        Ok((AttributeInfo::SourceDebugExtension { debug_extension: b"SMAP" }, 10))
    );
    let mut parser = ClassParser::new(b"abcdef");
    assert_eq!(
        attribute_source_debug_extension_from_bytes(&mut parser, 4),
        Ok(AttributeInfo::SourceDebugExtension { debug_extension: b"abcd" })
    );
    assert_eq!(parser.position(), 4);
}

#[test]
fn module_attribute() {
    let body = [
        0u8, 1, 0, 0x20, 0, 2, // name, flags, version
        0, 1, 0, 3, 0, 0x40, 0, 4, // one requires
        0, 1, 0, 5, 0, 0, 0, 1, 0, 6, // one exports, to one module
        0, 1, 0, 7, 0x10, 0, 0, 0, // one opens, to none
        0, 2, 0, 8, 0, 9, // two uses
        0, 1, 0, 10, 0, 2, 0, 11, 0, 12, // one provides, with two
    ];
    let expected = AttributeInfo::Module {
        module_name_index: 1,
        module_flags: 0x20,
        module_version_index: 2,
        module_requires: vec![ModuleRequires {
            requires_index: 3,
            requires_flags: 0x40,
            requires_version_index: 4,
        }],
        exports: vec![ModuleExports {
            exports_index: 5,
            exports_flags: 0,
            exports_to_indices: vec![6],
        }],
        opens: vec![ModuleOpens { opens_index: 7, opens_flags: 0x1000, opens_to_indices: vec![] }],
        uses: vec![8, 9],
        provides: vec![ModuleProvides { provides_index: 10, provides_with_indices: vec![11, 12] }],
    };
    let mut parser = ClassParser::new(&body);
    assert_eq!(attribute_module_from_bytes(&mut parser).as_ref(), Ok(&expected));
    assert_eq!(parser.position(), body.len());
    assert_eq!(decode(&named("Module", &body)), Ok((expected, 6 + body.len())));
}

fn code_body(nested: &[u8], nested_count: u16) -> Vec<u8> {
    let mut body = vec![
        0u8, 2, 0, 3, // max stack, max locals
        0, 2, 0xB1, 0x00, // two bytes of code
        0, 1, 0, 0, 0, 2, 0, 2, 0, 9, // one exception-table entry
    ];
    body.extend_from_slice(&nested_count.to_be_bytes());
    body.extend_from_slice(nested);
    body
}

#[test]
fn code_attribute_with_a_nested_attribute() {
    let nested = named("LineNumberTable", &[0, 1, 0, 0, 0, 42]);
    let bytes = named("Code", &code_body(&nested, 1));
    assert_eq!(
        decode(&bytes),
        Ok((
            AttributeInfo::Code {
                max_stack: 2,
                max_locals: 3,
                code: &[0xB1, 0x00],
                exception_table: vec![ExceptionTableEntry {
                    start_pc: 0,
                    end_pc: 2,
                    handler_pc: 2,
                    catch_type: 9,
                }],
                attributes: vec![Attribute {
                    info: AttributeInfo::LineNumberTable {
                        line_number_table: vec![LineNumber { start_pc: 0, line_number: 42 }],
                    },
                }],
            },
            bytes.len()
        ))
    );
}

#[test]
fn code_in_code_takes_two_levels() {
    let inner = named("Code", &code_body(&[], 0));
    let outer = named("Code", &code_body(&inner, 1));
    assert!(decode_with(&outer, DecodeOptions::new().max_depth(2)).is_ok());
    // the inner body starts after the outer header, the outer body up to
    // its nested list, and the inner header
    let inner_body = 6 + code_body(&[], 0).len() + 6;
    assert_eq!(
        decode_with(&outer, DecodeOptions::new().max_depth(1)),
        Err(DecodeError::NestingTooDeep { limit: 1, offset: inner_body })
    );
    assert_eq!(
        decode_with(&outer, DecodeOptions::new().max_depth(0)),
        Err(DecodeError::NestingTooDeep { limit: 0, offset: 6 })
    );
}

#[test]
fn code_body_decoder_alone() {
    let pool = pool();
    let body = code_body(&[], 0);
    let options = DecodeOptions::new();
    let mut parser = ClassParser::new(&body);
    let info = attribute_code_from_bytes(&mut parser, &pool, options, options.depth()).unwrap();
    match info {
        AttributeInfo::Code { max_stack, max_locals, code, exception_table, attributes } => {
            assert_eq!(max_stack, 2);
            assert_eq!(max_locals, 3);
            assert_eq!(code, &[0xB1, 0x00]);
            assert_eq!(exception_table.len(), 1);
            assert!(attributes.is_empty());
        }
        _ => panic!("expected a Code attribute"),
    }
    assert_eq!(parser.position(), body.len());
}

#[test]
fn record_attribute_with_components() {
    let nested = named("Signature", &[0, 5]);
    let mut body = vec![0u8, 2, 0, 1, 0, 2, 0, 1];
    body.extend_from_slice(&nested);
    body.extend_from_slice(&[0, 3, 0, 4, 0, 0]);
    let expected = AttributeInfo::Record {
        components: vec![
            RecordComponent {
                name_index: 1,
                descriptor_index: 2,
                attributes: vec![Attribute {
                    info: AttributeInfo::Signature { signature_index: 5 },
                }],
            },
            RecordComponent { name_index: 3, descriptor_index: 4, attributes: vec![] },
        ],
    };
    assert_eq!(decode(&named("Record", &body)), Ok((expected, 6 + body.len())));
    let pool = pool();
    let options = DecodeOptions::new().max_depth(0);
    let mut parser = ClassParser::new(&body);
    assert_eq!(
        attribute_record_from_bytes(&mut parser, &pool, options, options.depth()),
        Err(DecodeError::NestingTooDeep { limit: 0, offset: 0 })
    );
}

#[test]
fn record_component_alone() {
    let pool = pool();
    let options = DecodeOptions::new();
    let bytes = [0u8, 7, 0, 8, 0, 0];
    let mut parser = ClassParser::new(&bytes);
    assert_eq!(
        record_component_from_bytes(&mut parser, &pool, options, options.depth()),
        Ok(RecordComponent { name_index: 7, descriptor_index: 8, attributes: vec![] })
    );
    assert_eq!(parser.position(), 6);
}

#[test]
fn name_index_of_another_kind_is_a_type_mismatch() {
    // entry 31 is a Class entry; the rest of the buffer is never looked at
    for rest in [&[][..], &[0xFF, 0xFF, 0xFF, 0xFF][..], &[0, 0, 0, 0][..]] {
        let mut bytes = vec![0xEEu8, 0, 31];
        bytes.extend_from_slice(rest);
        let pool = pool();
        let options = DecodeOptions::new().permissive(true);
        let mut parser = ClassParser::new(&bytes);
        assert_eq!(parser.u1(), Ok(0xEE));
        assert_eq!(
            attribute_from_bytes(&mut parser, &pool, options, options.depth()),
            Err(DecodeError::ConstantPoolTypeMismatch {
                expected: ConstantKind::Utf8,
                found: ConstantKind::Class,
                offset: 1,
            })
        );
    }
}

#[test]
fn name_index_outside_the_pool_is_out_of_range() {
    assert_eq!(
        decode(&attribute_bytes(0, 0, &[])),
        Err(DecodeError::ConstantPoolIndexOutOfRange { index: 0, offset: 0 })
    );
    assert_eq!(
        decode(&attribute_bytes(36, 0, &[])),
        Err(DecodeError::ConstantPoolIndexOutOfRange { index: 36, offset: 0 })
    );
    assert_eq!(
        decode(&attribute_bytes(0xFFFF, 0, &[])),
        Err(DecodeError::ConstantPoolIndexOutOfRange { index: 0xFFFF, offset: 0 })
    );
}

#[test]
fn unknown_name_fails_a_strict_decode() {
    assert_eq!(
        decode(&attribute_bytes(32, 3, &[1, 2, 3])),
        Err(DecodeError::UnknownAttribute { name: String::from("VendorPrivate"), offset: 6 })
    );
}

#[test]
fn unknown_name_is_kept_by_a_permissive_decode() {
    let bytes = attribute_bytes(32, 3, &[1, 2, 3, 4]);
    assert_eq!(
        decode_with(&bytes, DecodeOptions::new().permissive(true)),
        Ok((AttributeInfo::Unknown { name_index: 32, info: &[1, 2, 3] }, 9))
    );
    assert_eq!(
        decode_with(&attribute_bytes(32, 5, &[1, 2, 3, 4]), DecodeOptions::new().permissive(true)),
        Err(DecodeError::UnexpectedEof { offset: 6, requested: 5 })
    );
}

#[test]
fn permissive_decode_still_decodes_known_names() {
    assert_eq!(
        decode_with(&named("Signature", &[0, 1]), DecodeOptions::new().permissive(true)),
        Ok((AttributeInfo::Signature { signature_index: 1 }, 8))
    );
}

#[test]
fn modified_utf8_names_are_converted() {
    // C0 80 is the modified encoding of U+0000
    assert_eq!(
        decode(&attribute_bytes(33, 0, &[])),
        Err(DecodeError::UnknownAttribute { name: String::from("a\0b"), offset: 6 })
    );
}

#[test]
fn names_that_are_not_utf8_are_read_with_replacements() {
    assert_eq!(
        decode(&attribute_bytes(34, 0, &[])),
        Err(DecodeError::UnknownAttribute { name: String::from("a\u{FFFD}"), offset: 6 })
    );
}

#[test]
fn names_that_end_inside_a_sequence_are_refused() {
    let mut bytes = vec![0u8, 0, 0];
    bytes.extend_from_slice(&attribute_bytes(35, 0, &[]));
    let pool = pool();
    let options = DecodeOptions::new();
    let mut parser = ClassParser::new(&bytes);
    assert!(parser.take(3).is_ok());
    assert_eq!(
        attribute_from_bytes(&mut parser, &pool, options, options.depth()),
        Err(DecodeError::InvalidModifiedUtf8 { offset: 3 })
    );
}

#[test]
fn bad_name_is_found_before_the_length_is_read() {
    // no length field follows the index
    assert_eq!(decode(&[0, 35]), Err(DecodeError::InvalidModifiedUtf8 { offset: 0 }));
    assert_eq!(
        decode(&[0, 1]),
        Err(DecodeError::UnexpectedEof { offset: 2, requested: 4 })
    );
}

#[test]
fn declared_length_must_be_the_length_consumed() {
    assert_eq!(
        decode(&attribute_bytes(index_of("Signature"), 3, &[0, 1, 0])),
        Err(DecodeError::InvalidAttributeLength { declared: 3, consumed: 2, offset: 6 })
    );
    assert_eq!(
        decode(&attribute_bytes(index_of("Signature"), 1, &[0, 1, 0])),
        Err(DecodeError::InvalidAttributeLength { declared: 1, consumed: 2, offset: 6 })
    );
    assert_eq!(
        decode(&attribute_bytes(index_of("Deprecated"), 2, &[0, 0])),
        Err(DecodeError::InvalidAttributeLength { declared: 2, consumed: 0, offset: 6 })
    );
    assert_eq!(
        decode(&attribute_bytes(index_of("Exceptions"), 2, &[0, 1, 0, 9])),
        Err(DecodeError::InvalidAttributeLength { declared: 2, consumed: 4, offset: 6 })
    );
}

#[test]
fn attribute_info_dispatches_on_the_name_it_is_given() {
    let pool = pool();
    let options = DecodeOptions::new();
    let body = [0u8, 9];
    let mut parser = ClassParser::new(&body);
    assert_eq!(
        attribute_info_from_bytes(
            &mut parser,
            "SourceFile",
            1,
            2,
            &pool,
            options,
            options.depth()
        ),
        Ok(AttributeInfo::SourceFile { sourcefile_index: 9 })
    );
    let mut parser = ClassParser::new(&body);
    assert_eq!(
        attribute_info_from_bytes(&mut parser, "Other", 1, 2, &pool, options, options.depth()),
        Err(DecodeError::UnknownAttribute { name: String::from("Other"), offset: 0 })
    );
    let permissive = options.permissive(true);
    let mut parser = ClassParser::new(&body);
    assert_eq!(
        attribute_info_from_bytes(
            &mut parser,
            "Other",
            77,
            2,
            &pool,
            permissive,
            permissive.depth()
        ),
        Ok(AttributeInfo::Unknown { name_index: 77, info: &[0, 9] })
    );
}

#[test]
fn attribute_list_is_count_prefixed() {
    let mut bytes = vec![0u8, 2];
    bytes.extend_from_slice(&named("Deprecated", &[]));
    bytes.extend_from_slice(&named("Signature", &[0, 4]));
    let pool = pool();
    let options = DecodeOptions::new();
    let mut parser = ClassParser::new(&bytes);
    assert_eq!(
        attributes_from_bytes(&mut parser, &pool, options, options.depth()),
        Ok(vec![
            Attribute { info: AttributeInfo::Deprecated },
            Attribute { info: AttributeInfo::Signature { signature_index: 4 } },
        ])
    );
    assert_eq!(parser.position(), bytes.len());
}

#[test]
fn attribute_list_stops_at_the_first_error() {
    let mut bytes = vec![0u8, 2];
    bytes.extend_from_slice(&attribute_bytes(32, 0, &[]));
    bytes.extend_from_slice(&named("Signature", &[0, 4]));
    let pool = pool();
    let options = DecodeOptions::new();
    let mut parser = ClassParser::new(&bytes);
    assert_eq!(
        attributes_from_bytes(&mut parser, &pool, options, options.depth()),
        Err(DecodeError::UnknownAttribute { name: String::from("VendorPrivate"), offset: 8 })
    );
}

#[test]
fn fixed_records() {
    let bytes = [0u8, 1, 0, 2, 0, 3, 0, 4, 0, 5];
    let mut parser = ClassParser::new(&bytes);
    assert_eq!(
        exception_table_entry_from_bytes(&mut parser),
        Ok(ExceptionTableEntry { start_pc: 1, end_pc: 2, handler_pc: 3, catch_type: 4 })
    );
    assert_eq!(parser.position(), 8);
    let mut parser = ClassParser::new(&bytes);
    assert_eq!(
        inner_class_from_bytes(&mut parser),
        Ok(InnerClass {
            inner_class_info_index: 1,
            outer_class_info_index: 2,
            inner_name_index: 3,
            inner_class_access_flags: 4,
        })
    );
    let mut parser = ClassParser::new(&bytes);
    assert_eq!(line_number_from_bytes(&mut parser), Ok(LineNumber { start_pc: 1, line_number: 2 }));
    assert_eq!(parser.position(), 4);
    let mut parser = ClassParser::new(&bytes);
    assert_eq!(
        local_variable_from_bytes(&mut parser),
        Ok(LocalVariable { start_pc: 1, length: 2, name_index: 3, descriptor_index: 4, index: 5 })
    );
    assert_eq!(parser.position(), 10);
    let mut parser = ClassParser::new(&bytes);
    assert_eq!(
        local_variable_type_from_bytes(&mut parser),
        Ok(LocalVariableType {
            start_pc: 1,
            length: 2,
            name_index: 3,
            descriptor_index: 4,
            index: 5,
        })
    );
    let mut parser = ClassParser::new(&bytes);
    assert_eq!(
        method_parameter_from_bytes(&mut parser),
        Ok(MethodParameter { name_index: 1, access_flags: 2 })
    );
    let mut parser = ClassParser::new(&bytes);
    assert_eq!(
        module_require_from_bytes(&mut parser),
        Ok(ModuleRequires { requires_index: 1, requires_flags: 2, requires_version_index: 3 })
    );
    assert_eq!(parser.position(), 6);
}

#[test]
fn fixed_records_fail_at_the_first_missing_field() {
    let bytes = [0u8, 1, 0, 2, 0, 3, 0];
    let mut parser = ClassParser::new(&bytes);
    assert_eq!(
        exception_table_entry_from_bytes(&mut parser),
        Err(DecodeError::UnexpectedEof { offset: 6, requested: 2 })
    );
    let mut parser = ClassParser::new(&bytes[..1]);
    assert_eq!(
        line_number_from_bytes(&mut parser),
        Err(DecodeError::UnexpectedEof { offset: 0, requested: 2 })
    );
}

#[test]
fn records_with_a_list() {
    let bytes = [0u8, 1, 0, 2, 0, 2, 0, 3, 0, 4];
    let mut parser = ClassParser::new(&bytes);
    assert_eq!(
        bootstrap_method_from_bytes(&mut parser),
        Ok(BootstrapMethod { bootstrap_method_ref: 1, bootstrap_arguments: vec![2, 3] })
    );
    assert_eq!(parser.position(), 8);
    let mut parser = ClassParser::new(&bytes);
    assert_eq!(
        module_export_from_bytes(&mut parser),
        Ok(ModuleExports { exports_index: 1, exports_flags: 2, exports_to_indices: vec![3, 4] })
    );
    assert_eq!(parser.position(), 10);
    let mut parser = ClassParser::new(&bytes);
    assert_eq!(
        module_opens_from_bytes(&mut parser),
        Ok(ModuleOpens { opens_index: 1, opens_flags: 2, opens_to_indices: vec![3, 4] })
    );
    let mut parser = ClassParser::new(&bytes);
    assert_eq!(
        module_provides_from_bytes(&mut parser),
        Ok(ModuleProvides { provides_index: 1, provides_with_indices: vec![2, 3] })
    );
}

#[test]
fn exception_table_is_count_prefixed() {
    let bytes = [0u8, 1, 0, 1, 0, 2, 0, 3, 0, 4];
    let mut parser = ClassParser::new(&bytes);
    assert_eq!(
        exception_table_from_bytes(&mut parser),
        Ok(vec![ExceptionTableEntry { start_pc: 1, end_pc: 2, handler_pc: 3, catch_type: 4 }])
    );
    let mut parser = ClassParser::new(&bytes[..9]);
    assert_eq!(
        exception_table_from_bytes(&mut parser),
        Err(DecodeError::UnexpectedEof { offset: 8, requested: 2 })
    );
}

#[test]
fn runs_and_lists_of_indices() {
    let bytes = [0u8, 2, 0, 7, 0, 8];
    let mut parser = ClassParser::new(&bytes);
    assert_eq!(u2_list_from_bytes(&mut parser), Ok(vec![7, 8]));
    assert_eq!(parser.position(), 6);
    let mut parser = ClassParser::new(&bytes);
    assert_eq!(u2_run_from_bytes(&mut parser, 3), Ok(vec![2, 7, 8]));
    let mut parser = ClassParser::new(&bytes);
    assert_eq!(u2_run_from_bytes(&mut parser, 0), Ok(vec![]));
    assert_eq!(parser.position(), 0);
    let mut parser = ClassParser::new(&bytes);
    assert_eq!(
        u2_run_from_bytes(&mut parser, 4),
        Err(DecodeError::UnexpectedEof { offset: 6, requested: 2 })
    );
}

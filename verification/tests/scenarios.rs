use runtime_cfparser::annotation::element_value_from_bytes;
use runtime_cfparser::constant_pool::constant_pool_entry_from_bytes;
use runtime_cfparser::stack_map::stack_map_frame_from_bytes;
use runtime_cfparser::{
    classfile_from_bytes, ClassParser, DecodeError, DecodeOptions, ElementValue, StackMapFrame,
};

fn minimal_class() -> Vec<u8> {
    vec![
        0xCA, 0xFE, 0xBA, 0xBE, // magic
        0x00, 0x00, // minor
        0x00, 0x34, // major
        0x00, 0x01, // constant pool count: no live entry
        0x00, 0x00, // access flags
        0x00, 0x00, // this class
        0x00, 0x00, // super class
        0x00, 0x00, // interfaces
        0x00, 0x00, // fields
        0x00, 0x00, // methods
        0x00, 0x00, // attributes
    ]
}

#[test]
fn minimal_class_decodes_to_empty_lists() {
    let bytes = minimal_class();
    let (classfile, consumed) = classfile_from_bytes(&bytes).unwrap();
    assert_eq!(consumed, 24);
    assert_eq!(classfile.version.minor, 0);
    assert_eq!(classfile.version.major, 0x34);
    assert!(classfile.constant_pool.is_empty());
    assert_eq!(classfile.access_flags, 0);
    assert_eq!(classfile.this_class, 0);
    assert_eq!(classfile.super_class, 0);
    assert!(classfile.interfaces.is_empty());
    assert!(classfile.fields.is_empty());
    assert!(classfile.methods.is_empty());
    assert!(classfile.attributes.is_empty());
}

#[test]
fn short_utf8_entry_fails_after_its_length_field() {
    // tag 1, length 5, three bytes of text
    let bytes = vec![0x01, 0x00, 0x05, b'a', b'b', b'c'];
    let mut parser = ClassParser::new(&bytes);
    match constant_pool_entry_from_bytes(&mut parser) {
        Err(DecodeError::UnexpectedEof { offset, requested }) => {
            assert_eq!(offset, 3);
            assert_eq!(requested, 5);
        }
        other => panic!("expected an unexpected end of input, got {:?}", other.map(|_| ())),
    }
}

#[test]
fn full_frame_with_no_locals_and_no_stack() {
    let bytes = vec![255, 0x12, 0x34, 0x00, 0x00, 0x00, 0x00];
    let mut parser = ClassParser::new(&bytes);
    match stack_map_frame_from_bytes(&mut parser) {
        Ok(StackMapFrame::FullFrame { offset_delta, locals, stack }) => {
            assert_eq!(offset_delta, 0x1234);
            assert!(locals.is_empty());
            assert!(stack.is_empty());
        }
        _ => panic!("expected a full frame"),
    }
    assert_eq!(parser.position(), 7);
}

#[test]
fn array_of_two_empty_arrays() {
    let bytes = vec![b'[', 0x00, 0x02, b'[', 0x00, 0x00, b'[', 0x00, 0x00];
    let mut parser = ClassParser::new(&bytes);
    let depth = DecodeOptions::new().depth();
    match element_value_from_bytes(&mut parser, depth) {
        Ok(ElementValue::Array { values }) => {
            assert_eq!(values.len(), 2);
            for value in &values {
                match value {
                    ElementValue::Array { values } => assert!(values.is_empty()),
                    _ => panic!("expected an inner array"),
                }
            }
        }
        _ => panic!("expected an array"),
    }
    assert_eq!(parser.position(), 9);
}

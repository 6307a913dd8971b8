use nom::error::Error;
use nom::number::complete::{be_u16, be_u32, be_u8};
use runtime_cfparser::{ClassParser, DecodeError};

#[test]
fn new_parser_starts_at_zero() {
    let bytes = [1u8, 2, 3];
    let parser = ClassParser::new(&bytes);
    assert_eq!(parser.position(), 0);
    assert_eq!(parser.remaining(), 3);
}

#[test]
fn u1_reads_one_byte_and_advances() {
    let bytes = [0xABu8, 0xCD];
    let mut parser = ClassParser::new(&bytes);
    assert_eq!(parser.u1(), Ok(0xAB));
    assert_eq!(parser.position(), 1);
    assert_eq!(parser.u1(), Ok(0xCD));
    assert_eq!(parser.position(), 2);
    assert_eq!(parser.remaining(), 0);
}

#[test]
fn u1_reads_the_last_byte() {
    let bytes = [0x7Fu8];
    let mut parser = ClassParser::new(&bytes);
    assert_eq!(parser.u1(), Ok(0x7F));
}

#[test]
fn u1_fails_on_empty_input() {
    let bytes: [u8; 0] = [];
    let mut parser = ClassParser::new(&bytes);
    assert_eq!(parser.u1(), Err(DecodeError::UnexpectedEof { offset: 0, requested: 1 }));
    assert_eq!(parser.position(), 0);
}

#[test]
fn u2_is_big_endian_and_advances_by_two() {
    let bytes = [0x12u8, 0x34, 0xFF, 0xFE];
    let mut parser = ClassParser::new(&bytes);
    assert_eq!(parser.u2(), Ok(0x1234));
    assert_eq!(parser.position(), 2);
    assert_eq!(parser.u2(), Ok(0xFFFE));
    assert_eq!(parser.position(), 4);
}

#[test]
fn u2_fails_with_one_byte_left_and_stays() {
    let bytes = [0x12u8, 0x34, 0x56];
    let mut parser = ClassParser::new(&bytes);
    assert_eq!(parser.u2(), Ok(0x1234));
    assert_eq!(parser.u2(), Err(DecodeError::UnexpectedEof { offset: 2, requested: 2 }));
    assert_eq!(parser.position(), 2);
    assert_eq!(parser.u1(), Ok(0x56));
}

#[test]
fn u4_is_big_endian_and_advances_by_four() {
    let bytes = [0xCAu8, 0xFE, 0xBA, 0xBE, 0x00];
    let mut parser = ClassParser::new(&bytes);
    assert_eq!(parser.u4(), Ok(0xCAFE_BABE));
    assert_eq!(parser.position(), 4);
    assert_eq!(parser.u4(), Err(DecodeError::UnexpectedEof { offset: 4, requested: 4 }));
    assert_eq!(parser.position(), 4);
}

#[test]
fn u4_reads_the_largest_value() {
    let bytes = [0xFFu8, 0xFF, 0xFF, 0xFF];
    let mut parser = ClassParser::new(&bytes);
    assert_eq!(parser.u4(), Ok(u32::MAX));
}

#[test]
fn take_returns_a_span_of_the_buffer() {
    let bytes = [1u8, 2, 3, 4, 5];
    let mut parser = ClassParser::new(&bytes);
    assert_eq!(parser.u1(), Ok(1));
    let span = parser.take(3).unwrap();
    assert_eq!(span, &[2u8, 3, 4]);
    assert_eq!(parser.position(), 4);
    let empty = parser.take(0).unwrap();
    assert!(empty.is_empty());
    assert_eq!(parser.position(), 4);
}

#[test]
fn take_fails_when_too_few_bytes_remain() {
    let bytes = [1u8, 2, 3];
    let mut parser = ClassParser::new(&bytes);
    assert_eq!(parser.u1(), Ok(1));
    assert_eq!(parser.take(3), Err(DecodeError::UnexpectedEof { offset: 1, requested: 3 }));
    assert_eq!(parser.position(), 1);
    assert_eq!(parser.take(2), Ok(&bytes[1..3]));
}

#[test]
fn reads_agree_with_nom_on_every_two_byte_prefix() {
    for high in [0u8, 1, 0x7F, 0x80, 0xFF] {
        for low in [0u8, 1, 0x7F, 0x80, 0xFF] {
            let bytes = [high, low, 0xAA];
            let mut parser = ClassParser::new(&bytes);
            let (rest, expected) = be_u16::<&[u8], Error<&[u8]>>(&bytes[..]).unwrap();
            assert_eq!(parser.u2(), Ok(expected));
            assert_eq!(parser.remaining(), rest.len());
        }
    }
}

#[test]
fn reads_agree_with_nom_on_bytes_and_words() {
    let bytes = [0x01u8, 0x02, 0x03, 0x04, 0x05, 0x06, 0x07];
    let mut parser = ClassParser::new(&bytes);
    let (rest, byte) = be_u8::<&[u8], Error<&[u8]>>(&bytes[..]).unwrap();
    assert_eq!(parser.u1(), Ok(byte));
    let (rest, word) = be_u32::<&[u8], Error<&[u8]>>(rest).unwrap();
    assert_eq!(parser.u4(), Ok(word));
    assert_eq!(word, 0x0203_0405);
    assert_eq!(parser.remaining(), rest.len());
    assert!(be_u32::<&[u8], Error<&[u8]>>(rest).is_err());
    assert_eq!(parser.u4(), Err(DecodeError::UnexpectedEof { offset: 5, requested: 4 }));
}

#[test]
fn error_offset_is_the_offset_of_its_variant() {
    assert_eq!(DecodeError::MagicMismatch { offset: 0 }.offset(), 0);
    assert_eq!(DecodeError::UnexpectedEof { offset: 7, requested: 2 }.offset(), 7);
    assert_eq!(DecodeError::UnknownConstantTag { tag: 2, offset: 10 }.offset(), 10);
    assert_eq!(DecodeError::NestingTooDeep { limit: 3, offset: 99 }.offset(), 99);
    assert_eq!(
        DecodeError::UnknownAttribute { name: String::from("Vendor"), offset: 5 }.offset(),
        5
    );
}

use blackbox_log::decode::{sign_extend, zig_zag_decode};
use blackbox_log::common::LogVersion::{V1, V2};
use blackbox_log::decode;
use blackbox_log::decode::{read_tagged_16, tagged_16, tagged_32, tagged_variable, variable, ParseError};
use blackbox_log::reader::Reader;

#[test]
fn encoding_zig_zag_decode() {
    assert_eq!(0, zig_zag_decode(0));
    assert_eq!(-1, zig_zag_decode(1));
    assert_eq!(1, zig_zag_decode(2));
    assert_eq!(-2, zig_zag_decode(3));

    assert_eq!(i32::MIN, zig_zag_decode(u32::MAX));
    assert_eq!(i32::MAX, zig_zag_decode(u32::MAX - 1));
}

#[test]
fn mod_zig_zag_decode() {
    assert_eq!(0, zig_zag_decode(0));
    assert_eq!(-1, zig_zag_decode(1));
    assert_eq!(1, zig_zag_decode(2));
    assert_eq!(-2, zig_zag_decode(3));

    assert_eq!(i32::MIN, zig_zag_decode(u32::MAX));
    assert_eq!(i32::MAX, zig_zag_decode(u32::MAX - 1));
}

#[test]
fn mod_sign_extend() {
    assert_eq!(0, sign_extend(0b00, 2));
    assert_eq!(1, sign_extend(0b01, 2));
    assert_eq!(-2, sign_extend(0b10, 2));
    assert_eq!(-1, sign_extend(0b11, 2));
}


fn read_uvar_ok(bytes: &[u8]) -> u32 {
    variable(&mut Reader::new(bytes)).unwrap()
}

fn zeros_after(first: u8, zeros: usize) -> Vec<u8> {
    let mut bytes = vec![first];
    bytes.extend(std::iter::repeat(0).take(zeros));
    bytes
}

#[test]
fn read_uvar() {
    assert_eq!(0, read_uvar_ok(&[0x00]));
    assert_eq!(0, read_uvar_ok(&[0x80, 0x00]));
    assert_eq!(1, read_uvar_ok(&[1]));
    assert_eq!(0xFF, read_uvar_ok(&[0xFF, 0x01]));
    assert_eq!(0x3FFF, read_uvar_ok(&[0xFF, 0x7F]));
}

#[test]
fn read_uvar_corrupted() {
    let err = variable(&mut Reader::new(&[0xFF, 0xFF, 0xFF, 0xFF, 0xFF, 0xFF]));
    assert!(matches!(err, Err(ParseError::Corrupted)));
}

#[test]
fn read() {
    assert_eq!(0, read_uvar_ok(&[0x00]));
    assert_eq!(0, read_uvar_ok(&[0x80, 0x00]));
    assert_eq!(1, read_uvar_ok(&[1]));
    assert_eq!(0xFF, read_uvar_ok(&[0xFF, 0x01]));
    assert_eq!(0x3FFF, read_uvar_ok(&[0xFF, 0x7F]));
}

#[test]
fn variable_max() {
    assert_eq!(0xFFFF_FFFF, read_uvar_ok(&[0xFF, 0xFF, 0xFF, 0xFF, 0x7F]));
    assert_eq!(0xFFFF_FFFF, read_uvar_ok(&[0xFF, 0xFF, 0xFF, 0xFF, 0x7F]));
}

#[test]
fn zero() {
    assert_eq!(0, read_uvar_ok(&[0x00]));
    assert_eq!(0, read_uvar_ok(&[0x80, 0x00]));
}

#[test]
fn one() {
    assert_eq!(1, read_uvar_ok(&[1]));
}

#[test]
fn full_byte_output() {
    assert_eq!(0xFF, read_uvar_ok(&[0xFF, 0x01]));
}

#[test]
fn max_two_byte_input() {
    assert_eq!(0x3FFF, read_uvar_ok(&[0xFF, 0x7F]));
}

#[test]
#[should_panic(expected = "Corrupted")]
fn too_many_bytes() {
    assert_eq!(0xFFFF_FFFF, read_uvar_ok(&[0x80, 0x80, 0x80, 0x80, 0x80]));
}

fn read_u32_ed(bytes: &[u8]) -> u32 {
    decode::read_u32_elias_delta(&mut Reader::new(bytes)).unwrap()
}

fn read_i32_ed(bytes: &[u8]) -> i32 {
    decode::read_i32_elias_delta(&mut Reader::new(bytes)).unwrap()
}

#[test]
fn read_u32_elias_delta() {
    assert_eq!(0, read_u32_ed(&[0x80, 0]));
    assert_eq!(1, read_u32_ed(&[0x40, 0]));
    assert_eq!(2, read_u32_ed(&[0x50, 0]));
    assert_eq!(15, read_u32_ed(&[0x28, 0]));
    assert_eq!(18, read_u32_ed(&[0x29, 0x80]));

    assert_eq!(8191, read_u32_ed(&[0x1C, 0, 0]));
}

#[test]
fn read_u32_elias_delta_max() {
    let bytes = &[0x04, 0x1F, 0xFF, 0xFF, 0xFF, 0xE0];
    let mut bits = Reader::new(bytes.as_slice());
    assert_eq!(u32::MAX, decode::read_u32_elias_delta(&mut bits).unwrap());
}

#[test]
fn read_i32_elias_delta() {
    assert_eq!(0, read_i32_ed(&[0x80, 0]));
    assert_eq!(-1, read_i32_ed(&[0x40, 0]));
    assert_eq!(1, read_i32_ed(&[0x50, 0]));
    assert_eq!(-8, read_i32_ed(&[0x28, 0]));
}

#[test]
fn read_i32_elias_delta_min() {
    let bytes = &[0x04, 0x1F, 0xFF, 0xFF, 0xFF, 0xE0];
    let mut bits = Reader::new(bytes.as_slice());
    assert_eq!(i32::MIN, decode::read_i32_elias_delta(&mut bits).unwrap());
}

#[test]
fn read_i32_elias_delta_max() {
    let bytes = &[0x04, 0x1F, 0xFF, 0xFF, 0xFF, 0xC0];
    let mut bits = Reader::new(bytes.as_slice());
    assert_eq!(i32::MAX, decode::read_i32_elias_delta(&mut bits).unwrap());
}

#[test]
fn unaligned_min() {
    let mut bits = Reader::new(&[1]);
    bits.read_bits(7);
    assert_eq!(0, decode::read_u32_elias_delta(&mut bits).unwrap());
}

#[test]
fn unsigned() {
    assert_eq!(0, read_u32_ed(&[0x80, 0]));
    assert_eq!(1, read_u32_ed(&[0x40, 0]));
    assert_eq!(2, read_u32_ed(&[0x50, 0]));
    assert_eq!(15, read_u32_ed(&[0x28, 0]));
    assert_eq!(18, read_u32_ed(&[0x29, 0x80]));

    assert_eq!(8191, read_u32_ed(&[0x1C, 0, 0]));
}

#[test]
fn unsigned_max() {
    let bytes = &[0x04, 0x1F, 0xFF, 0xFF, 0xFF, 0xE0];
    let mut bits = Reader::new(bytes.as_slice());
    assert_eq!(u32::MAX, decode::read_u32_elias_delta(&mut bits).unwrap());
}

#[test]
fn signed() {
    assert_eq!(0, read_i32_ed(&[0x80, 0]));
    assert_eq!(-1, read_i32_ed(&[0x40, 0]));
    assert_eq!(1, read_i32_ed(&[0x50, 0]));
    assert_eq!(-8, read_i32_ed(&[0x28, 0]));
}

#[test]
fn signed_min() {
    let bytes = &[0x04, 0x1F, 0xFF, 0xFF, 0xFF, 0xE0];
    let mut bits = Reader::new(bytes.as_slice());
    assert_eq!(i32::MIN, decode::read_i32_elias_delta(&mut bits).unwrap());
}

#[test]
fn signed_max() {
    let bytes = &[0x04, 0x1F, 0xFF, 0xFF, 0xFF, 0xC0];
    let mut bits = Reader::new(bytes.as_slice());
    assert_eq!(i32::MAX, decode::read_i32_elias_delta(&mut bits).unwrap());
}

#[test]
#[should_panic(expected = "UnexpectedEof")]
fn no_data() {
    let mut bits = Reader::new(&[]);
    decode::read_u32_elias_delta(&mut bits).unwrap();
}

#[test]
fn too_many_leading_zeros() {
    let mut bits = Reader::new(&[0b0000_0010]);
    let result = decode::read_u32_elias_delta(&mut bits);
    assert!(matches!(result, Err(ParseError::Corrupted)));
}

#[test]
#[should_panic(expected = "UnexpectedEof")]
fn too_few_middle_bits() {
    let mut bits = Reader::new(&[6]);
    decode::read_u32_elias_delta(&mut bits).unwrap();
}

#[test]
fn too_many_middle_bits() {
    let mut bits = Reader::new(&[6, 0]);
    let result = decode::read_u32_elias_delta(&mut bits);
    assert!(matches!(result, Err(ParseError::Corrupted)));
}

#[test]
#[should_panic(expected = "UnexpectedEof")]
fn too_few_remainder_bits() {
    let mut bits = Reader::new(&[0x36]);
    decode::read_u32_elias_delta(&mut bits).unwrap();
}

#[test]
#[should_panic(expected = "UnexpectedEof")]
fn missing_disambiguation_bit() {
    let mut bits = Reader::new(&[0, 0x10, 0x7F, 0xFF, 0xFF, 0xFF]);
    bits.read_bits(6);
    decode::read_u32_elias_delta(&mut bits).unwrap();
}

fn tagged_16_out(bytes: &[u8]) -> [u32; 4] {
    let mut out = [0; 4];
    tagged_16(&mut Reader::new(bytes), &mut out).unwrap();
    out
}

#[test]
fn tagged_16_all_zeros() {
    let bytes = zeros_after(0x00, 0);
    let bytes = bytes.as_slice();

    assert_eq!([0; 4], read_tagged_16(V1, &mut Reader::new(bytes)).unwrap());
    assert_eq!([0; 4], read_tagged_16(V2, &mut Reader::new(bytes)).unwrap());
    assert_eq!([0; 4], tagged_16_out(bytes));
}

#[test]
fn tagged_16_all_nibbles() {
    let bytes = zeros_after(0x55, 2);
    let bytes = bytes.as_slice();

    assert_eq!([0; 4], read_tagged_16(V1, &mut Reader::new(bytes)).unwrap());
    assert_eq!([0; 4], read_tagged_16(V2, &mut Reader::new(bytes)).unwrap());
    assert_eq!([0; 4], tagged_16_out(bytes));
}

#[test]
fn tagged_16_all_bytes() {
    let bytes = zeros_after(0xAA, 4);
    let bytes = bytes.as_slice();

    assert_eq!([0; 4], read_tagged_16(V1, &mut Reader::new(bytes)).unwrap());
    assert_eq!([0; 4], read_tagged_16(V2, &mut Reader::new(bytes)).unwrap());
    assert_eq!([0; 4], tagged_16_out(bytes));
}

#[test]
fn tagged_16_v1_all_16_bits() {
    let bytes: &[u8] = &[0xFF, 1, 0, 2, 0, 3, 0, 4, 0];
    assert_eq!([1, 2, 3, 4], read_tagged_16(V1, &mut Reader::new(bytes)).unwrap());
}

#[test]
fn tagged_16_v2_all_16_bits() {
    let bytes: &[u8] = &[0xFF, 0, 1, 0, 2, 0, 3, 0, 4];
    assert_eq!([1, 2, 3, 4], read_tagged_16(V2, &mut Reader::new(bytes)).unwrap());
}

#[test]
fn all_16_bits_v1() {
    let bytes: &[u8] = &[0xFF, 1, 0, 2, 0, 3, 0, 4, 0];
    let mut bits = Reader::new(bytes);
    assert_eq!([1, 2, 3, 4], read_tagged_16(V1, &mut bits).unwrap());
}

#[test]
fn all_16_bits_v2() {
    let bytes: &[u8] = &[0xFF, 0, 1, 0, 2, 0, 3, 0, 4];
    let mut bits = Reader::new(bytes);
    assert_eq!([1, 2, 3, 4], read_tagged_16(V2, &mut bits).unwrap());
}

#[test]
fn tagged_16_all_16_bits() {
    let bytes = [0xFF, 0, 1, 0, 2, 0, 3, 0, 4];
    assert_eq!([1, 2, 3, 4], tagged_16_out(&bytes));
}

#[test]
fn tagged_16_v1_tag_order() {
    let bytes: &[u8] = &[0b1001_0100, 0x21, 0x03];
    assert_eq!([0, 1, 2, 3], read_tagged_16(V1, &mut Reader::new(bytes)).unwrap());
}

#[test]
fn tag_order_v1() {
    let bytes: &[u8] = &[0b1001_0100, 0x21, 0x03];
    let mut bits = Reader::new(bytes);
    assert_eq!([0, 1, 2, 3], read_tagged_16(V1, &mut bits).unwrap());
}

#[test]
fn tagged_16_v2_tag_order() {
    let bytes: &[u8] = &[0b1110_0100, 0x10, 0x20, 0x00, 0x30];
    assert_eq!([0, 1, 2, 3], read_tagged_16(V2, &mut Reader::new(bytes)).unwrap());
}

#[test]
fn tagged_16_tag_order_v2() {
    let bytes: &[u8] = &[0b1110_0100, 0x10, 0x20, 0x00, 0x30];
    assert_eq!([0, 1, 2, 3], read_tagged_16(V2, &mut Reader::new(bytes)).unwrap());
    assert_eq!([0, 1, 2, 3], tagged_16_out(bytes));
}

#[test]
fn tagged_16_v1_nibble_ignores_next_tag() {
    let bytes: &[u8] = &[0b0000_1101, 0x21];
    assert_eq!([1, 2, 0, 0], read_tagged_16(V1, &mut Reader::new(bytes)).unwrap());
}

#[test]
fn v1_nibble_ignores_next_tag() {
    let bytes: &[u8] = &[0b0000_1101, 0x21];
    let mut bits = Reader::new(bytes);
    assert_eq!([1, 2, 0x00, 0x00], read_tagged_16(V1, &mut bits).unwrap());
}

#[test]
fn tagged_16_v1_low_nibble_first() {
    assert_eq!([2, -4, 0, 0], read_tagged_16(V1, &mut Reader::new(&[1, 194])).unwrap());
}

#[test]
fn tagged_16_v1_8_bit_sign_extend() {
    assert_eq!([-93, 10, 0, 0], read_tagged_16(V1, &mut Reader::new(&[10, 163, 10])).unwrap());
}

#[test]
fn tagged_16_16_bit_high_byte_first() {
    let out = tagged_16_out(&[0x30, 181, 61]);
    assert_eq!([0, 0, -19139, 0], out.map(|v| v as i32));
}

#[test]
fn tagged_16_v1_bad_nibble_pair_is_corrupted() {
    // the fourth value cannot start a nibble pair in the old layout
    let result = read_tagged_16(V1, &mut Reader::new(&[0b0100_0000, 0x00]));
    assert_eq!(Err(ParseError::Corrupted), result);
}

#[test]
fn tagged_16_truncated_is_eof() {
    let result = read_tagged_16(V2, &mut Reader::new(&[0xFF, 0, 1]));
    assert_eq!(Err(ParseError::UnexpectedEof), result);
}

fn tagged_32_checked(bytes: &[u8]) -> [i32; 3] {
    let mut b = Reader::new(bytes);
    let values = tagged_32(&mut b).unwrap();
    assert!(b.is_empty());
    values
}

fn tagged_32_bytes(tag: u8, width: usize) -> Vec<u8> {
    assert_eq!(tag, tag & 3);
    let tag = 0xC0 | (tag << 4) | (tag << 2) | tag;
    let mut bytes = vec![tag];
    for i in 1..=3 {
        bytes.push(i);
        bytes.append(&mut vec![0; width - 1]);
    }
    bytes
}

#[test]
fn tagged_32_all_02_bits() {
    assert_eq!([0; 3], tagged_32_checked(&zeros_after(0x00, 0)));
    assert_eq!([0, -1, 1], tagged_32_checked(&[0x0D]));
}

#[test]
fn tagged_32_all_04_bits() {
    assert_eq!([0; 3], tagged_32_checked(&zeros_after(0x40, 1)));
    assert_eq!([1, 2, 3], tagged_32_checked(&[0x41, 0x23]));
}

#[test]
fn tagged_32_all_06_bits() {
    assert_eq!([0; 3], tagged_32_checked(&zeros_after(0x80, 2)));
    assert_eq!([1, 2, 3], tagged_32_checked(&[0x81, 0x02, 0x03]));
}

#[test]
fn tagged_32_all_08_bits() {
    assert_eq!([0; 3], tagged_32_checked(&zeros_after(0b1100_0000, 3)));
    assert_eq!([1, 2, 3], tagged_32_checked(&tagged_32_bytes(0, 1)));
}

#[test]
fn tagged_32_all_16_bits() {
    assert_eq!([0; 3], tagged_32_checked(&zeros_after(0b1101_0101, 6)));
    assert_eq!([1, 2, 3], tagged_32_checked(&tagged_32_bytes(1, 2)));
}

#[test]
fn tagged_32_all_24_bits() {
    assert_eq!([0; 3], tagged_32_checked(&zeros_after(0b1110_1010, 9)));
    assert_eq!([1, 2, 3], tagged_32_checked(&tagged_32_bytes(2, 3)));
}

#[test]
fn tagged_32_all_32_bits() {
    assert_eq!([0; 3], tagged_32_checked(&zeros_after(0xFF, 12)));
    assert_eq!([1, 2, 3], tagged_32_checked(&tagged_32_bytes(3, 4)));
}

#[test]
#[should_panic(expected = "UnexpectedEof")]
fn eof_04_bit() {
    let mut b = Reader::new(&[0x40]);
    tagged_32(&mut b).unwrap();
}

#[test]
#[should_panic(expected = "UnexpectedEof")]
fn eof_06_bit() {
    let mut b = Reader::new(&[0x80]);
    tagged_32(&mut b).unwrap();
}

#[test]
fn one_value() {
    let mut b = Reader::new(&[2]);
    let mut out = [0];
    tagged_variable(&mut b, &mut out).unwrap();
    assert_eq!([1], out);
    assert!(b.is_empty());
}

#[test]
fn simple_two_values() {
    let bytes = [0b0000_0011, 2, 2];
    let mut b = Reader::new(&bytes);
    let mut out = [0; 2];
    tagged_variable(&mut b, &mut out).unwrap();
    assert_eq!([1, 1], out);
    assert!(b.is_empty());
}

#[test]
fn fewer_in_tag_than_expected() {
    let bytes = [0b0000_0010, 2];
    let mut b = Reader::new(&bytes);
    let mut out = [0; 2];
    tagged_variable(&mut b, &mut out).unwrap();
    assert_eq!([0, 1], out);
    assert!(b.is_empty());
}

#[test]
#[should_panic(expected = "Eof")]
fn multiple_expected_but_empty() {
    let mut b = Reader::new(&[]);
    tagged_variable(&mut b, &mut [0; 2]).unwrap();
}

#[test]
#[should_panic(expected = "Retry")]
fn more_in_tag_than_expected() {
    let bytes = [0b0000_0111, 2, 2, 2];
    let mut b = Reader::new(&bytes);
    tagged_variable(&mut b, &mut [0; 2]).unwrap();
}

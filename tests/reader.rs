use astro_save::{SaveError, TempSaveData};

fn reader(bytes: &[u8]) -> TempSaveData {
    TempSaveData::new_decompressed(bytes.to_vec())
}

#[test]
fn read_string_hello_advances_nine() {
    let mut r = reader(&[5, 0, 0, 0, b'h', b'e', b'l', b'l', b'o']);
    assert_eq!(r.get_next_string().unwrap(), "hello");
    assert_eq!(r.cursor(), 9);
}

#[test]
fn short_buffer_reads_fail_with_bounds_error() {
    assert_eq!(reader(&[]).get_next_u8(), Err(SaveError::BoundsError));
    assert_eq!(reader(&[1]).get_next_u16(), Err(SaveError::BoundsError));
    assert_eq!(reader(&[1]).get_next_i16(), Err(SaveError::BoundsError));
    assert_eq!(reader(&[1, 2, 3]).get_next_u32(), Err(SaveError::BoundsError));
    assert_eq!(reader(&[1, 2, 3]).get_next_i32(), Err(SaveError::BoundsError));
    assert_eq!(reader(&[1, 2, 3, 4, 5, 6, 7]).get_next_u64(), Err(SaveError::BoundsError));
    assert_eq!(reader(&[1, 2, 3, 4, 5, 6, 7]).get_next_i64(), Err(SaveError::BoundsError));
    assert_eq!(reader(&[0; 15]).get_next_u128(), Err(SaveError::BoundsError));
    assert_eq!(reader(&[0; 3]).get_next_f32(), Err(SaveError::BoundsError));
    assert_eq!(reader(&[0; 3]).get_next_x(4), Err(SaveError::BoundsError));
}

#[test]
fn failed_read_leaves_cursor() {
    let mut r = reader(&[1, 2, 3]);
    assert_eq!(r.get_next_u8(), Ok(1));
    assert_eq!(r.get_next_x(3), Err(SaveError::BoundsError));
    assert_eq!(r.cursor(), 1);
    assert_eq!(r.get_next_x(2), Ok(vec![2, 3]));
    assert_eq!(r.cursor(), 3);
}

#[test]
fn successful_reads_advance_by_their_size() {
    let bytes: Vec<u8> = (0u8..64).collect();
    let mut r = reader(&bytes);
    r.get_next_u8().unwrap();
    assert_eq!(r.cursor(), 1);
    r.get_next_u16().unwrap();
    assert_eq!(r.cursor(), 3);
    r.get_next_i16().unwrap();
    assert_eq!(r.cursor(), 5);
    r.get_next_u32().unwrap();
    assert_eq!(r.cursor(), 9);
    r.get_next_i32().unwrap();
    assert_eq!(r.cursor(), 13);
    r.get_next_u64().unwrap();
    assert_eq!(r.cursor(), 21);
    r.get_next_i64().unwrap();
    assert_eq!(r.cursor(), 29);
    r.get_next_u128().unwrap();
    assert_eq!(r.cursor(), 45);
    r.get_next_f32().unwrap();
    assert_eq!(r.cursor(), 49);
    r.get_next_x(0).unwrap();
    assert_eq!(r.cursor(), 49);
    r.get_next_x(15).unwrap();
    assert_eq!(r.cursor(), 64);
}

#[test]
fn integers_are_little_endian() {
    assert_eq!(reader(&[0x34, 0x12]).get_next_u16(), Ok(0x1234));
    assert_eq!(reader(&[0xfe, 0xff]).get_next_i16(), Ok(-2));
    assert_eq!(reader(&[0x78, 0x56, 0x34, 0x12]).get_next_u32(), Ok(0x1234_5678));
    assert_eq!(reader(&[0xff, 0xff, 0xff, 0xff]).get_next_i32(), Ok(-1));
    assert_eq!(reader(&[1, 0, 0, 0, 0, 0, 0, 0x80]).get_next_u64(), Ok(0x8000_0000_0000_0001));
    assert_eq!(reader(&[0, 0, 0, 0, 0, 0, 0, 0x80]).get_next_i64(), Ok(i64::MIN));
    let mut b = [0u8; 16];
    b[0] = 1;
    b[15] = 2;
    assert_eq!(reader(&b).get_next_u128(), Ok((2u128 << 120) | 1));
}

#[test]
fn f32_reads_give_the_bit_pattern() {
    let bits = 1.5f32.to_bits();
    let mut r = reader(&bits.to_le_bytes());
    assert_eq!(f32::from_bits(r.get_next_f32().unwrap()), 1.5f32);
}

#[test]
fn empty_string() {
    let mut r = reader(&[0, 0, 0, 0]);
    assert_eq!(r.get_next_string().unwrap(), "");
    assert_eq!(r.cursor(), 4);
}

#[test]
fn string_longer_than_buffer_fails() {
    assert_eq!(reader(&[6, 0, 0, 0, b'h', b'e', b'l', b'l', b'o']).get_next_string(), Err(SaveError::BoundsError));
    assert_eq!(reader(&[5, 0, 0]).get_next_string(), Err(SaveError::BoundsError));
}

#[test]
fn negative_string_length_fails() {
    assert_eq!(reader(&[0xff, 0xff, 0xff, 0xff, b'a']).get_next_string(), Err(SaveError::BoundsError));
}

#[test]
fn invalid_utf8_fails_with_encoding_error() {
    assert_eq!(reader(&[2, 0, 0, 0, 0xc3, 0x28]).get_next_string(), Err(SaveError::EncodingError));
}

#[test]
fn multibyte_utf8_string() {
    let mut r = reader(&[2, 0, 0, 0, 0xc3, 0xa9]);
    assert_eq!(r.get_next_string().unwrap(), "\u{e9}");
}

#[test]
fn failed_typed_reads_leave_cursor() {
    let mut r = reader(&[1, 2, 3]);
    assert_eq!(r.get_next_u8(), Ok(1));
    assert_eq!(r.get_next_u32(), Err(SaveError::BoundsError));
    assert_eq!(r.get_next_u128(), Err(SaveError::BoundsError));
    assert_eq!(r.get_next_f32(), Err(SaveError::BoundsError));
    assert_eq!(r.cursor(), 1);
    assert_eq!(r.get_next_u16(), Ok(0x0302));
}

#[test]
fn failed_string_reads_leave_cursor() {
    let mut r = reader(&[0xff, 0xff, 0xff, 0xff, b'a']);
    assert_eq!(r.get_next_string(), Err(SaveError::BoundsError));
    assert_eq!(r.cursor(), 0);
    let mut r = reader(&[9, 0, 0, 0, b'a']);
    assert_eq!(r.get_next_string(), Err(SaveError::BoundsError));
    assert_eq!(r.cursor(), 0);
    let mut r = reader(&[2, 0, 0, 0, 0xc3, 0x28]);
    assert_eq!(r.get_next_string(), Err(SaveError::EncodingError));
    assert_eq!(r.cursor(), 0);
}

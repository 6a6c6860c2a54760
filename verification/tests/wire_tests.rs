use bedrock_client::wire::{
    put_bool, put_i16_le, put_i32_le, put_i64_le, put_u16_be, put_u16_le, put_u32_be, put_u32_le,
    put_u64_be, put_var_i32, put_var_i64, put_var_u32, put_var_u64, put_zeros, ByteReader,
};

#[test]
fn var_u32_small_and_large() {
    let mut out = Vec::new();
    put_var_u32(&mut out, 0);
    put_var_u32(&mut out, 127);
    put_var_u32(&mut out, 300);
    put_var_u32(&mut out, u32::MAX);
    assert_eq!(out, vec![0x00, 0x7f, 0xac, 0x02, 0xff, 0xff, 0xff, 0xff, 0x0f]);
    let mut r = ByteReader::new(&out);
    assert_eq!(r.get_var_u32(), Some(0));
    assert_eq!(r.get_var_u32(), Some(127));
    assert_eq!(r.get_var_u32(), Some(300));
    assert_eq!(r.get_var_u32(), Some(u32::MAX));
    assert!(r.feof());
    assert_eq!(r.get_var_u32(), None);
}

#[test]
fn var_i32_zigzag() {
    let mut out = Vec::new();
    put_var_i32(&mut out, 0);
    put_var_i32(&mut out, -1);
    put_var_i32(&mut out, 1);
    put_var_i32(&mut out, -2);
    put_var_i32(&mut out, i32::MIN);
    assert_eq!(&out[..4], &[0x00, 0x01, 0x02, 0x03]);
    let mut r = ByteReader::new(&out);
    assert_eq!(r.get_var_i32(), Some(0));
    assert_eq!(r.get_var_i32(), Some(-1));
    assert_eq!(r.get_var_i32(), Some(1));
    assert_eq!(r.get_var_i32(), Some(-2));
    assert_eq!(r.get_var_i32(), Some(i32::MIN));
}

#[test]
fn var_64_roundtrip() {
    let mut out = Vec::new();
    put_var_u64(&mut out, u64::MAX);
    put_var_i64(&mut out, i64::MIN);
    put_var_i64(&mut out, 1234567890123);
    assert_eq!(out.len() >= 10, true);
    let mut r = ByteReader::new(&out);
    assert_eq!(r.get_var_u64(), Some(u64::MAX));
    assert_eq!(r.get_var_i64(), Some(i64::MIN));
    assert_eq!(r.get_var_i64(), Some(1234567890123));
    assert!(r.feof());
}

#[test]
fn unterminated_varint_is_refused() {
    let bytes = [0x80u8, 0x80, 0x80];
    let mut r = ByteReader::new(&bytes);
    assert_eq!(r.get_var_u32(), None);
    assert_eq!(r.offset(), 0);
}

#[test]
fn fixed_width_integers() {
    let mut out = Vec::new();
    put_u16_be(&mut out, 0x1234);
    put_u32_be(&mut out, 0x01020304);
    put_u64_be(&mut out, 0x0102030405060708);
    put_u16_le(&mut out, 0x1234);
    put_u32_le(&mut out, 0x01020304);
    put_i16_le(&mut out, -2);
    put_i32_le(&mut out, -2);
    put_i64_le(&mut out, -2);
    assert_eq!(&out[..2], &[0x12, 0x34]);
    assert_eq!(&out[2..6], &[1, 2, 3, 4]);
    assert_eq!(&out[6..14], &[1, 2, 3, 4, 5, 6, 7, 8]);
    assert_eq!(&out[14..16], &[0x34, 0x12]);
    assert_eq!(&out[16..20], &[4, 3, 2, 1]);
    assert_eq!(&out[20..22], &[0xfe, 0xff]);
    let mut r = ByteReader::new(&out);
    assert_eq!(r.get_u16_be(), Some(0x1234));
    assert_eq!(r.get_u32_be(), Some(0x01020304));
    assert_eq!(r.get_u64_be(), Some(0x0102030405060708));
    assert_eq!(r.get_u16_le(), Some(0x1234));
    assert_eq!(r.get_u32_le(), Some(0x01020304));
    assert_eq!(r.get_i16_le(), Some(-2));
    assert_eq!(r.get_i32_le(), Some(-2));
    assert_eq!(r.get_i64_le(), Some(-2));
    assert_eq!(r.remaining_byte_count(), 0);
}

#[test]
fn reader_short_input_leaves_position() {
    let bytes = [1u8, 2, 3];
    let mut r = ByteReader::new(&bytes);
    assert_eq!(r.get_u32_be(), None);
    assert_eq!(r.remaining_byte_count(), 3);
    assert_eq!(r.get(2), Some(vec![1, 2]));
    assert_eq!(r.get(2), None);
    assert_eq!(r.get_bool(), Some(true));
    assert!(r.feof());
}

#[test]
fn bools_and_zeros() {
    let mut out = Vec::new();
    put_bool(&mut out, true);
    put_bool(&mut out, false);
    put_zeros(&mut out, 3);
    assert_eq!(out, vec![1, 0, 0, 0, 0]);
}

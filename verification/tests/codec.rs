//! Tests for the byte-level codec: endian strategies and the skip helper.

use weld::object::combinators::{copy_bytes, skip};
use weld::object::endianness::{
    read_u16, read_u32, read_u64, read_u8, write_u16, write_u32, write_u64, BigEndian, Endianness,
    LittleEndian, Number,
};

#[test]
fn test_skip() {
    let input: &[u8] = &[1, 2, 3, 4, 5];

    assert_eq!(skip(input, 0, 2), Some(2));
    assert_eq!(skip(input, 2, 3), Some(5));
    assert_eq!(skip(input, 0, 6), None);
    assert_eq!(skip(input, 5, 1), None);
}

#[test]
fn test_little_endian() {
    assert_eq!(LittleEndian::endianness(), Endianness::Little);
    assert_eq!(LittleEndian::read_u8(&42u8.to_le_bytes(), 0), Some((42, 1)));
    assert_eq!(LittleEndian::read_u16(&42u16.to_le_bytes(), 0), Some((42, 2)));
    assert_eq!(LittleEndian::read_u32(&42u32.to_le_bytes(), 0), Some((42, 4)));
    assert_eq!(LittleEndian::read_u64(&42u64.to_le_bytes(), 0), Some((42, 8)));
}

#[test]
fn test_big_endian() {
    assert_eq!(BigEndian::endianness(), Endianness::Big);
    assert_eq!(BigEndian::read_u8(&42u8.to_be_bytes(), 0), Some((42, 1)));
    assert_eq!(BigEndian::read_u16(&42u16.to_be_bytes(), 0), Some((42, 2)));
    assert_eq!(BigEndian::read_u32(&42u32.to_be_bytes(), 0), Some((42, 4)));
    assert_eq!(BigEndian::read_u64(&42u64.to_be_bytes(), 0), Some((42, 8)));
}

#[test]
fn test_number_writers_match_std() {
    let mut out = Vec::new();
    LittleEndian::write_u16(0x1234, &mut out);
    assert_eq!(out, 0x1234u16.to_le_bytes().to_vec());

    let mut out = Vec::new();
    BigEndian::write_u16(0x1234, &mut out);
    assert_eq!(out, 0x1234u16.to_be_bytes().to_vec());

    let mut out = Vec::new();
    LittleEndian::write_u32(0xdead_beef, &mut out);
    assert_eq!(out, 0xdead_beefu32.to_le_bytes().to_vec());

    let mut out = Vec::new();
    BigEndian::write_u64(0x0102_0304_0506_0708, &mut out);
    assert_eq!(out, 0x0102_0304_0506_0708u64.to_be_bytes().to_vec());

    let mut out = Vec::new();
    LittleEndian::write_u8(0xab, &mut out);
    BigEndian::write_u8(0xcd, &mut out);
    assert_eq!(out, vec![0xab, 0xcd]);
}

#[test]
fn test_free_readers_round_trip() {
    for e in [Endianness::Little, Endianness::Big] {
        let mut out = Vec::new();
        write_u16(e, 0xbeef, &mut out);
        write_u32(e, 0x0102_0304, &mut out);
        write_u64(e, 0x1122_3344_5566_7788, &mut out);
        assert_eq!(read_u16(e, &out, 0), Some((0xbeef, 2)));
        assert_eq!(read_u32(e, &out, 2), Some((0x0102_0304, 6)));
        assert_eq!(read_u64(e, &out, 6), Some((0x1122_3344_5566_7788, 14)));
        assert_eq!(read_u8(e, &out, 14), None);
        assert_eq!(read_u64(e, &out, 7), None);
    }
}

#[test]
fn test_copy_bytes_is_subrange() {
    let input: &[u8] = &[10, 11, 12, 13, 14];
    assert_eq!(copy_bytes(input, 1, 4), vec![11, 12, 13]);
    assert_eq!(copy_bytes(input, 0, 0), Vec::<u8>::new());
    assert_eq!(copy_bytes(input, 5, 5), Vec::<u8>::new());
}

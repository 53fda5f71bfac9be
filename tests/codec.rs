use ataraxia::codec::{ByteWriter, CodecError, Endianess};

#[test]
fn write_u16_big_endian_by_default() {
    let mut w = ByteWriter::new(None);
    assert_eq!(w.write_u16(0x1234, None), Ok(()));
    assert_eq!(w.data, vec![0x12, 0x34]);
}

#[test]
fn write_u16_little_endian() {
    let mut w = ByteWriter::new(None);
    assert_eq!(w.write_u16(0x1234, Some(Endianess::Little)), Ok(()));
    assert_eq!(w.data, vec![0x34, 0x12]);
}

#[test]
fn write_u32_always_four_bytes() {
    let mut w = ByteWriter::new(Some(Endianess::Big));
    assert_eq!(w.write_u32(1, None), Ok(()));
    assert_eq!(w.write_u32(0xdeadbeef, Some(Endianess::Little)), Ok(()));
    assert_eq!(w.data, vec![0, 0, 0, 1, 0xef, 0xbe, 0xad, 0xde]);
}

#[test]
fn no_order_given_is_big_endian() {
    let mut w = ByteWriter::new(Some(Endianess::Little));
    assert_eq!(w.write_u32(0x01020304, None), Ok(()));
    assert_eq!(w.write_u16(0x0506, None), Ok(()));
    assert_eq!(w.data, vec![1, 2, 3, 4, 5, 6]);
}

#[test]
fn fixed_buffer_refuses_overflowing_write() {
    let mut w = ByteWriter::with_size(6, None);
    assert_eq!(w.is_not_full(), Ok(()));
    assert_eq!(w.write_u32(7, None), Ok(()));
    assert_eq!(w.write_u32(8, None), Err(CodecError::BufferFull));
    assert_eq!(w.data, vec![0, 0, 0, 7]);
    assert_eq!(w.write_u16(9, None), Ok(()));
    assert_eq!(w.is_not_full(), Err(CodecError::BufferFull));
    assert_eq!(w.write_u16(1, None), Err(CodecError::BufferFull));
}

#[test]
fn reset_keeps_capacity() {
    let mut w = ByteWriter::with_size(4, None);
    assert_eq!(w.write_u32(5, None), Ok(()));
    w.reset();
    assert!(w.data.is_empty());
    assert_eq!(w.limit, Some(4));
    assert_eq!(w.write_u32(6, None), Ok(()));
}

#[test]
fn resize_grows_with_zeros_and_truncates() {
    let mut w = ByteWriter::new(None);
    assert_eq!(w.write_u16(0xffff, None), Ok(()));
    assert_eq!(w.resize(5), Ok(()));
    assert_eq!(w.data, vec![0xff, 0xff, 0, 0, 0]);
    assert_eq!(w.resize(1), Ok(()));
    assert_eq!(w.data, vec![0xff]);
}

#[test]
fn resize_beyond_fixed_capacity_fails() {
    let mut w = ByteWriter::with_size(2, None);
    assert_eq!(w.resize(3), Err(CodecError::BufferFull));
    assert!(w.data.is_empty());
    assert_eq!(w.resize(2), Ok(()));
    assert_eq!(w.data, vec![0, 0]);
}

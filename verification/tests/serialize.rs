use dspbp::data::area::Area;
use dspbp::data::vec::{from32le, to32le};
use dspbp::error::Error;
use dspbp::serialize::{
    get_i8, get_u16, get_u32, read_records, write_records, Deser, ReadType, Record, Ser, WriteType,
};

#[test]
fn numbers_are_read_lowest_byte_first() {
    let bytes = [0x01, 0x02, 0x03, 0x04, 0xff, 0x80, 0x7f];
    assert_eq!(get_u16(&bytes, 0), 0x0201);
    assert_eq!(get_u16(&bytes, 3), 0xff04);
    assert_eq!(get_u32(&bytes, 0), 0x04030201);
    assert_eq!(get_u32(&bytes, 1), 0xff040302);
    assert_eq!(get_i8(&bytes, 4), -1);
    assert_eq!(get_i8(&bytes, 5), -128);
    assert_eq!(get_i8(&bytes, 6), 127);
    assert_eq!(get_i8(&bytes, 0), 1);
}

#[test]
fn a_reader_walks_forward() {
    let bytes = [7, 0xfe, 0x34, 0x12, 0x78, 0x56, 0x34, 0x12, 9, 9, 9];
    let mut d = Deser::new(&bytes);
    assert_eq!(d.len(), 11);
    assert_eq!(d.read_u8(), Ok(7));
    assert_eq!(d.read_i8(), Ok(-2));
    assert_eq!(d.read_u16(), Ok(0x1234));
    assert_eq!(d.read_u32(), Ok(0x12345678));
    assert_eq!(d.len(), 3);
    assert_eq!(d.skip(2), Ok(()));
    assert_eq!(d.read_exact(1), Ok(&[9u8][..]));
    assert_eq!(d.len(), 0);
    assert_eq!(d.read_exact(0), Ok(&[][..]));
}

#[test]
fn a_reader_fails_at_the_end_and_reads_nothing_then() {
    let bytes = [1, 2, 3];
    let mut d = Deser::new(&bytes);
    assert_eq!(d.read_u32(), Err(Error::TruncatedInput));
    assert_eq!(d.read_exact(4), Err(Error::TruncatedInput));
    assert_eq!(d.skip(4), Err(Error::TruncatedInput));
    assert_eq!(d.len(), 3);
    assert_eq!(d.read_u16(), Ok(0x0201));
    assert_eq!(d.read_u16(), Err(Error::TruncatedInput));
    assert_eq!(d.read_u8(), Ok(3));
    assert_eq!(d.read_u8(), Err(Error::TruncatedInput));
    assert_eq!(d.read_i8(), Err(Error::TruncatedInput));
}

#[test]
fn a_writer_collects_bytes() {
    let mut s = Ser::new();
    assert_eq!(s.len(), 0);
    s.write_u8(7);
    s.write_i8(-2);
    s.write_u16(0x1234);
    s.write_u32(0x12345678);
    s.append(&[9, 9]);
    assert_eq!(s.pad(3), Ok(()));
    assert_eq!(s.len(), 13);
    assert_eq!(s.pad_to(16), Ok(()));
    assert_eq!(s.pad_to(16), Ok(()));
    assert_eq!(s.pad_to(15), Err(Error::PastOffset));
    assert_eq!(s.len(), 16);
    assert_eq!(
        s.data(),
        vec![7, 0xfe, 0x34, 0x12, 0x78, 0x56, 0x34, 0x12, 9, 9, 0, 0, 0, 0, 0, 0]
    );
}

fn area() -> Area {
    Area {
        index: 1,
        parent_index: -1,
        tropic_anchor: 2,
        area_segments: 200,
        anchor_local_offset_x: 0x0102,
        anchor_local_offset_y: 4,
        width: 5,
        height: 0xffff,
    }
}

#[test]
fn a_record_is_written_and_read() {
    let bytes = [1, 0xff, 2, 0, 200, 0, 2, 1, 4, 0, 5, 0, 0xff, 0xff];
    let mut s = Ser::new();
    area().write(&mut s);
    assert_eq!(s.data(), bytes.to_vec());
    assert_eq!(Area::from_bytes(&bytes), area());
    let mut d = Deser::new(&bytes);
    assert_eq!(Area::read(&mut d), Ok(area()));
    assert_eq!(d.len(), 0);
    assert_eq!(Area::byte_len(), 14);
    let mut d = Deser::new(&bytes[..13]);
    assert_eq!(Area::read(&mut d), Err(Error::TruncatedInput));
    assert_eq!(d.len(), 13);
}

#[test]
fn records_are_written_and_read_one_after_the_other() {
    let mut second = area();
    second.index = 2;
    let list = vec![area(), second];
    let mut s = Ser::new();
    s.write_u8(0xaa);
    write_records(&list, &mut s);
    let bytes = s.data();
    assert_eq!(bytes.len(), 29);
    let mut d = Deser::new(&bytes);
    assert_eq!(d.read_u8(), Ok(0xaa));
    assert_eq!(read_records::<Area>(&mut d, 3), Err(Error::TruncatedInput));
    assert_eq!(d.len(), 28);
    assert_eq!(read_records::<Area>(&mut d, 2), Ok(list));
    assert_eq!(d.len(), 0);
    assert_eq!(read_records::<Area>(&mut d, 0), Ok(vec![]));
    assert_eq!(read_records::<Area>(&mut d, usize::MAX), Err(Error::TruncatedInput));
}

#[test]
fn words_and_bytes() {
    assert_eq!(to32le(&[1, 0, 0, 0, 0x78, 0x56, 0x34, 0x12]), vec![1, 0x12345678]);
    assert_eq!(to32le(&[]), Vec::<u32>::new());
    assert_eq!(from32le(&[1, 0x12345678]), vec![1, 0, 0, 0, 0x78, 0x56, 0x34, 0x12]);
    assert_eq!(from32le(&[]), Vec::<u8>::new());
    assert_eq!(to32le(&from32le(&[u32::MAX, 0, 7])), vec![u32::MAX, 0, 7]);
}

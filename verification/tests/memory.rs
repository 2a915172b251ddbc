use anno1800_agent::memory::{decode_le, read_each_u64, MemoryImage, ReadError};

fn image_with(base: u64, bytes: &[u8]) -> MemoryImage {
    let mut mem = MemoryImage::new();
    mem.add_region(base, bytes.to_vec());
    mem
}

#[test]
fn reads_little_endian_numbers() {
    let mem = image_with(0x1000, &[0x01, 0x02, 0x03, 0x04, 0x05, 0x06, 0x07, 0x08, 0x09]);
    assert_eq!(mem.read_u8(0x1000, 0), Ok(0x01));
    assert_eq!(mem.read_u16(0x1000, 1), Ok(0x0302));
    assert_eq!(mem.read_u32(0x1000, 0), Ok(0x0403_0201));
    assert_eq!(mem.read_u64(0x1000, 1), Ok(0x0908_0706_0504_0302));
}

#[test]
fn read_back_what_was_added() {
    let mut mem = MemoryImage::new();
    mem.add_region(0x5000, 0xdead_beef_0123_4567u64.to_le_bytes().to_vec());
    assert_eq!(mem.read_u64(0x5000, 0), Ok(0xdead_beef_0123_4567));
    assert_eq!(mem.read_bytes(0x5002, 3), Ok(vec![0x23, 0x01, 0xef]));
}

#[test]
fn reports_the_first_missing_address() {
    let mem = image_with(0x1000, &[0xaa, 0xbb, 0xcc]);
    assert_eq!(mem.read_u32(0x1000, 0), Err(ReadError::Unmapped(0x1003)));
    assert_eq!(mem.read_u8(0x0fff, 0), Err(ReadError::Unmapped(0x0fff)));
    assert_eq!(mem.read_u64(0x2000, 0), Err(ReadError::Unmapped(0x2000)));
}

#[test]
fn reports_reads_past_the_address_space() {
    let mem = image_with(u64::MAX - 3, &[1, 2, 3]);
    assert_eq!(mem.read_u16(u64::MAX - 3, 0), Ok(0x0201));
    assert_eq!(mem.read_u32(u64::MAX - 3, 0), Err(ReadError::AddressOverflow));
    assert_eq!(mem.read_u8(u64::MAX, 1), Err(ReadError::AddressOverflow));
    assert_eq!(mem.read_bytes(u64::MAX, 1), Err(ReadError::AddressOverflow));
}

#[test]
fn later_regions_take_precedence() {
    let mut mem = image_with(0x100, &[1, 1, 1, 1]);
    mem.add_region(0x102, vec![9, 9]);
    assert_eq!(mem.read_u32(0x100, 0), Ok(0x0909_0101));
    assert_eq!(mem.read_byte(0x104), None);
}

#[test]
fn decodes_up_to_eight_bytes() {
    assert_eq!(decode_le(&vec![]), 0);
    assert_eq!(decode_le(&vec![0x34, 0x12]), 0x1234);
    assert_eq!(decode_le(&vec![0xff; 8]), u64::MAX);
}

#[test]
fn reads_each_word_in_turn() {
    let mut mem = MemoryImage::new();
    mem.add_region(0x10, 7u64.to_le_bytes().to_vec());
    mem.add_region(0x20, 9u64.to_le_bytes().to_vec());
    assert_eq!(read_each_u64(&mem, &vec![0x20, 0x10]), Ok(vec![9, 7]));
    assert_eq!(read_each_u64(&mem, &vec![0x10, 0x30, 0x40]), Err(ReadError::Unmapped(0x30)));
}

use anno1800_agent::loader::export_table::{export_directory, find_exported_function, ExportLookupError};
use anno1800_agent::memory::{MemoryImage, ReadError};

const BASE: u64 = 0x1_8000_0000;

fn put(img: &mut [u8], at: usize, bytes: &[u8]) {
    img[at..at + bytes.len()].copy_from_slice(bytes);
}

fn module(names: &[&[u8]]) -> Vec<u8> {
    let mut img = vec![0u8; 0x4000];
    put(&mut img, 0, &0x5a4du16.to_le_bytes());
    put(&mut img, 0x3c, &0x80u32.to_le_bytes());
    put(&mut img, 0x80, &0x4550u32.to_le_bytes());
    put(&mut img, 0x80 + 0x88, &0x1000u32.to_le_bytes());
    put(&mut img, 0x1018, &(names.len() as u32).to_le_bytes());
    put(&mut img, 0x101c, &0x1100u32.to_le_bytes());
    put(&mut img, 0x1020, &0x1200u32.to_le_bytes());
    for (i, name) in names.iter().enumerate() {
        let at = 0x1300 + 0x100 * i;
        put(&mut img, 0x1200 + 4 * i, &(at as u32).to_le_bytes());
        put(&mut img, at, name);
        put(&mut img, 0x1100 + 4 * i, &(0x2000 + 0x10 * i as u32).to_le_bytes());
    }
    img
}

fn image(bytes: Vec<u8>) -> MemoryImage {
    let mut mem = MemoryImage::new();
    mem.add_region(BASE, bytes);
    mem
}

#[test]
fn finds_the_address_of_an_exported_function() {
    let mem = image(module(&[b"set_host", b"start", b"stop"]));
    assert_eq!(export_directory(&mem, BASE), Ok(BASE + 0x1000));
    assert_eq!(find_exported_function(&mem, BASE, "start"), Ok(Some(BASE + 0x2010)));
    assert_eq!(find_exported_function(&mem, BASE, "stop"), Ok(Some(BASE + 0x2020)));
}

#[test]
fn absent_function_is_not_found() {
    let mem = image(module(&[b"start"]));
    assert_eq!(find_exported_function(&mem, BASE, "stop"), Ok(None));
    assert_eq!(find_exported_function(&mem, BASE, "star"), Ok(None));
}

#[test]
fn names_longer_than_the_buffer_are_cut() {
    let long = [b'a'; 120];
    let mem = image(module(&[&long]));
    let cut = String::from_utf8(vec![b'a'; 99]).unwrap();
    assert_eq!(find_exported_function(&mem, BASE, &cut), Ok(Some(BASE + 0x2000)));
}

#[test]
fn rejects_what_is_not_a_module() {
    let mut bytes = module(&[b"start"]);
    bytes[0] = 0;
    let mem = image(bytes);
    assert_eq!(find_exported_function(&mem, BASE, "start"), Err(ExportLookupError::BadDosMagic(0x5a00)));
    let mut bytes = module(&[b"start"]);
    bytes[0x81] = 0;
    let mem = image(bytes);
    assert_eq!(find_exported_function(&mem, BASE, "start"), Err(ExportLookupError::BadNtSignature(0x50)));
}

#[test]
fn rejects_names_that_are_not_utf8() {
    let mem = image(module(&[&[0xff, 0xfe], b"start"]));
    assert_eq!(find_exported_function(&mem, BASE, "start"), Err(ExportLookupError::InvalidName(0)));
}

#[test]
fn reports_unreadable_names() {
    let mut bytes = module(&[b"start"]);
    bytes.truncate(0x1300 + 50);
    let mem = image(bytes);
    assert_eq!(
        find_exported_function(&mem, BASE, "start"),
        Err(ExportLookupError::Read(ReadError::Unmapped(BASE + 0x1300 + 50)))
    );
}

use pico_usb_mass_storage::mode_parameter::{ModeParameterHeader10, ModeParameterHeader6, PageCode};
use pico_usb_mass_storage::partition::{init, read_partition, ByteReader};
use pico_usb_mass_storage::responses::{read_format_capacities, InquiryResponse, ReadCapacity10Response};
use pico_usb_mass_storage::sense::{AdditionalSenseCode, RequestSenseResponse, SenseKey};
use pico_usb_mass_storage::storage::Storage;

#[test]
fn partition_entry_is_read_field_by_field() {
    let mut disk = vec![0u8; 512];
    let p = 446 + 16;
    disk[p..p + 16].copy_from_slice(&[0x80, 1, 2, 3, 0x01, 5, 6, 7, 0x10, 0, 0, 0, 0x20, 0x01, 0, 0]);
    let e = read_partition(&disk, 1);
    assert_eq!(e.p_status, 0x80);
    assert_eq!(e.p_head_begin, 1);
    assert_eq!(e.p_sect_begin, 2);
    assert_eq!(e.p_cyl_begin, 3);
    assert_eq!(e.p_type, 0x01);
    assert_eq!(e.p_head_end, 5);
    assert_eq!(e.p_sect_end, 6);
    assert_eq!(e.p_cyl_end, 7);
    assert_eq!(e.p_lba, 0x10);
    assert_eq!(e.p_size, 0x120);
}

#[test]
fn byte_reader_steps() {
    let data = [1u8, 2, 3, 4, 5];
    let mut r = ByteReader::new(&data, 0);
    assert_eq!(r.read1(), 1);
    assert_eq!(r.read4(), 0x0504_0302);
}

#[test]
fn init_copies_image() {
    let mut s = Storage::new();
    let image: Vec<u8> = (0..1000u32).map(|i| (i % 7) as u8 + 1).collect();
    init(&mut s, &image);
    assert_eq!(&s.block(0).as_bytes()[..], &image[..512]);
    assert_eq!(&s.block(1).as_bytes()[..488], &image[512..]);
    assert_eq!(s.block(1).as_bytes()[488], 0);
}

#[test]
fn sense_record_and_reset() {
    let mut r = RequestSenseResponse::new();
    r.set_sense(SenseKey::HardwareError, AdditionalSenseCode::WriteError);
    assert_eq!(r.as_bytes(), vec![0xF0, 0, 4, 0, 0, 0, 0, 10, 0, 0, 0, 0, 0x0C, 0, 0, 0x80, 0, 0]);
    r.reset_status();
    assert_eq!(r, RequestSenseResponse::default());
}

#[test]
fn fixed_records() {
    assert_eq!(ReadCapacity10Response { max_lba: 0x0102_0304, block_size: 512 }.as_bytes(), vec![1, 2, 3, 4, 0, 0, 2, 0]);
    assert_eq!(read_format_capacities(0x10, 0x0001_0200), vec![0, 0, 0, 8, 0, 0, 0, 0x10, 2, 1, 2, 0]);
    let blank = InquiryResponse::default().as_bytes();
    assert_eq!(blank[2], 0x06);
    assert!(blank[8..].iter().all(|&b| b == b' '));
}

#[test]
fn mode_headers_grow_for_pages() {
    let mut h6 = ModeParameterHeader6::new();
    assert_eq!(h6.as_bytes(), vec![3, 0, 0, 0]);
    h6.increase_length_for_page(PageCode::CachingModePage);
    assert_eq!(h6.mode_data_length, 6);
    let mut h10 = ModeParameterHeader10::new();
    h10.increase_length_for_page(PageCode::CachingModePage);
    assert_eq!(h10.as_bytes(), vec![0, 9, 0, 0, 0, 0, 0, 0]);
}

#[test]
fn storage_as_bytes_is_blocks_in_order() {
    let mut s = Storage::new();
    let image: Vec<u8> = (0..600u32).map(|i| (i % 13) as u8 + 1).collect();
    init(&mut s, &image);
    let bytes = s.as_bytes();
    assert_eq!(bytes.len(), 102400);
    assert_eq!(&bytes[..600], &image[..]);
    assert!(bytes[600..].iter().all(|&b| b == 0));
}

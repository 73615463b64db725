use avr_core::error::Error;
use avr_core::math::{offset16, offset32, offset8};
use avr_core::mem::Space;

#[test]
fn new_space_is_zeroed() {
    let s = Space::new(16);
    assert_eq!(s.len(), 16);
    assert_eq!(s.bytes(), &[0u8; 16][..]);
    assert_eq!(Space::new(0).len(), 0);
}

#[test]
fn byte_access_is_bounds_checked() {
    let mut s = Space::new(4);
    assert_eq!(s.set_u8(3, 0xAA), Ok(()));
    assert_eq!(s.get_u8(3), Ok(0xAA));
    assert_eq!(s.get_u8(4), Err(Error::SegmentationFault { address: 4 }));
    assert_eq!(s.set_u8(4, 1), Err(Error::SegmentationFault { address: 4 }));
    assert_eq!(s.get_u8(usize::MAX), Err(Error::SegmentationFault { address: usize::MAX }));
    assert_eq!(s.bytes(), &[0, 0, 0, 0xAA][..]);
}

#[test]
fn word_is_stored_high_byte_first() {
    let mut s = Space::new(4);
    assert_eq!(s.set_u16(1, 0x1234), Ok(()));
    assert_eq!(s.get_u8(1), Ok(0x12));
    assert_eq!(s.get_u8(2), Ok(0x34));
    assert_eq!(s.get_u16(1), Ok(0x1234));
    assert_eq!(s.get_u16(0), Ok(0x0012));
}

#[test]
fn word_access_faults_at_the_first_missing_byte() {
    let mut s = Space::new(4);
    assert_eq!(s.get_u16(3), Err(Error::SegmentationFault { address: 4 }));
    assert_eq!(s.get_u16(4), Err(Error::SegmentationFault { address: 4 }));
    assert_eq!(s.set_u16(3, 0xFFFF), Err(Error::SegmentationFault { address: 4 }));
    assert_eq!(s.set_u16(9, 0xFFFF), Err(Error::SegmentationFault { address: 9 }));
    assert_eq!(s.get_u16(usize::MAX), Err(Error::SegmentationFault { address: usize::MAX }));
    // A refused write leaves the space as it was.
    assert_eq!(s.bytes(), &[0, 0, 0, 0][..]);
}

#[test]
fn load_writes_from_address_zero() {
    let mut s = Space::new(4);
    s.set_u8(3, 9).unwrap();
    assert_eq!(s.load(&[1, 2]), Ok(()));
    assert_eq!(s.bytes(), &[1, 2, 0, 9][..]);
    assert_eq!(s.load(&[]), Ok(()));
    assert_eq!(s.bytes(), &[1, 2, 0, 9][..]);
    assert_eq!(s.load(&[5, 6, 7, 8]), Ok(()));
    assert_eq!(s.bytes(), &[5, 6, 7, 8][..]);
}

#[test]
fn load_refuses_an_image_larger_than_the_space() {
    let mut s = Space::new(2);
    assert_eq!(s.load(&[1, 2, 3]), Err(Error::SegmentationFault { address: 2 }));
    assert_eq!(s.bytes(), &[0, 0][..]);
}

#[test]
fn offsets_wrap_around() {
    assert_eq!(offset8(0xFF, 1), 0);
    assert_eq!(offset8(0, -1), 0xFF);
    assert_eq!(offset8(0x10, 0x20), 0x30);
    assert_eq!(offset8(0, -256), 0);
    assert_eq!(offset16(0xFFFF, 2), 1);
    assert_eq!(offset16(1, -2), 0xFFFF);
    assert_eq!(offset16(0x1234, -0x34), 0x1200);
    assert_eq!(offset32(0xFFFF_FFFF, 4), 3);
    assert_eq!(offset32(0, -2), 0xFFFF_FFFE);
    assert_eq!(offset32(0x100, -0x80), 0x80);
}

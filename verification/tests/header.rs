//! Header layout and operating modes.

use idtp::header::{IdtpHeader, IdtpMode};
use idtp::wire::{bytes_equal, copy_into, u16_from_le, u16_to_le, u32_from_le, u32_to_le};
use idtp::{IdtpData, IDTP_FRAME_MIN_SIZE, IDTP_PREAMBLE, IDTP_VERSION};

fn sample() -> IdtpHeader {
    IdtpHeader {
        preamble: IDTP_PREAMBLE,
        timestamp: 12345678,
        sequence: 1,
        device_id: 0x00AB,
        payload_size: 24,
        version: IDTP_VERSION,
        mode: 0x01,
        payload_type: 0x03,
        crc: 0x5A,
    }
}

#[test]
fn header_new_has_protocol_constants_safety_mode_and_zeros() {
    let h = IdtpHeader::new();
    assert_eq!(h.preamble, 0x5054_4449);
    assert_eq!(h.version, 0x21);
    assert_eq!(h.mode, 0x01);
    assert_eq!(h.operating_mode(), IdtpMode::Safety);
    assert_eq!(h.timestamp, 0);
    assert_eq!(h.sequence, 0);
    assert_eq!(h.device_id, 0);
    assert_eq!(h.payload_size, 0);
    assert_eq!(h.payload_type, 0);
    assert_eq!(h.crc, 0);
}

#[test]
fn header_default_is_all_zero() {
    let h = IdtpHeader::default();
    assert_eq!(h.to_wire(), [0u8; 20]);
}

#[test]
fn header_size_is_twenty() {
    assert_eq!(IdtpHeader::size(), 20);
    assert_eq!(IDTP_FRAME_MIN_SIZE, 20);
    assert_eq!(<IdtpHeader as IdtpData>::SIZE, 20);
}

#[test]
fn header_wire_form_is_exact() {
    let wire = sample().to_wire();
    assert_eq!(
        wire,
        [
            0x49, 0x44, 0x54, 0x50, // "IDTP"
            0x4E, 0x61, 0xBC, 0x00, // timestamp 12345678
            0x01, 0x00, 0x00, 0x00, // sequence
            0xAB, 0x00, // device id
            0x18, 0x00, // payload size
            0x21, 0x01, 0x03, 0x5A,
        ]
    );
    assert_eq!(sample().as_bytes(), wire.to_vec());
}

#[test]
fn header_round_trip_through_wire_form() {
    let h = sample();
    let back = IdtpHeader::from_wire(&h.to_wire()).unwrap();
    assert_eq!(back, h);

    let extreme = IdtpHeader {
        preamble: u32::MAX,
        timestamp: 0x8000_0001,
        sequence: 0xFFFF_FFFE,
        device_id: u16::MAX,
        payload_size: 0xFF00,
        version: 0xFF,
        mode: 0xFF,
        payload_type: 0x80,
        crc: 0x01,
    };
    assert_eq!(IdtpHeader::from_wire(&extreme.to_wire()), Some(extreme));
}

#[test]
fn header_from_wire_reads_only_the_first_twenty_bytes() {
    let mut bytes = sample().to_wire().to_vec();
    bytes.extend_from_slice(&[0xEE; 7]);
    assert_eq!(IdtpHeader::from_wire(&bytes), Some(sample()));
    assert_eq!(IdtpHeader::read_from_prefix(&bytes), Some(sample()));
}

#[test]
fn header_from_wire_needs_twenty_bytes() {
    let bytes = sample().to_wire();
    assert_eq!(IdtpHeader::from_wire(&bytes[..19]), None);
    assert_eq!(IdtpHeader::from_wire(&[]), None);
    assert_eq!(IdtpHeader::read_from_prefix(&bytes[..19]), None);
}

#[test]
fn mode_from_byte() {
    assert_eq!(IdtpMode::from(0x00), IdtpMode::Lite);
    assert_eq!(IdtpMode::from(0x01), IdtpMode::Safety);
    assert_eq!(IdtpMode::from(0x02), IdtpMode::Secure);
    assert_eq!(IdtpMode::from(0x03), IdtpMode::Unknown);
    assert_eq!(IdtpMode::from(0x7F), IdtpMode::Unknown);
    assert_eq!(IdtpMode::from(0xFF), IdtpMode::Unknown);
}

#[test]
fn mode_to_byte() {
    assert_eq!(u8::from(IdtpMode::Lite), 0x00);
    assert_eq!(u8::from(IdtpMode::Safety), 0x01);
    assert_eq!(u8::from(IdtpMode::Secure), 0x02);
    assert_eq!(u8::from(IdtpMode::Unknown), 0xFF);
}

#[test]
fn mode_default_is_safety() {
    assert_eq!(IdtpMode::default(), IdtpMode::Safety);
}

#[test]
fn mode_trailer_sizes() {
    assert_eq!(IdtpMode::Lite.trailer_size(), 0);
    assert_eq!(IdtpMode::Safety.trailer_size(), 4);
    assert_eq!(IdtpMode::Secure.trailer_size(), 32);
    assert_eq!(IdtpMode::Unknown.trailer_size(), 0);
}

#[test]
fn mode_order_follows_the_mode_bytes() {
    assert!(IdtpMode::Lite < IdtpMode::Safety);
    assert!(IdtpMode::Safety < IdtpMode::Secure);
    assert!(IdtpMode::Secure < IdtpMode::Unknown);
}

#[test]
fn header_operating_mode_reads_the_mode_byte() {
    let mut h = sample();
    assert_eq!(h.operating_mode(), IdtpMode::Safety);
    h.mode = 9;
    assert_eq!(h.operating_mode(), IdtpMode::Unknown);
}

#[test]
fn little_endian_integers() {
    assert_eq!(u16_to_le(0x1234), [0x34, 0x12]);
    assert_eq!(u32_to_le(0xDEADBEEF), [0xEF, 0xBE, 0xAD, 0xDE]);
    assert_eq!(u32_to_le(0), [0, 0, 0, 0]);
    assert_eq!(u32_to_le(u32::MAX), [0xFF; 4]);
    let data = [0x00, 0x34, 0x12, 0xEF, 0xBE, 0xAD, 0xDE];
    assert_eq!(u16_from_le(&data, 1), 0x1234);
    assert_eq!(u32_from_le(&data, 3), 0xDEADBEEF);
    assert_eq!(u32_from_le(&u32_to_le(0x0102_0304), 0), 0x0102_0304);
    assert_eq!(u16_from_le(&u16_to_le(0xFF00), 0), 0xFF00);
}

#[test]
fn copy_into_overwrites_only_the_run() {
    let mut dst = [1u8, 2, 3, 4, 5, 6];
    copy_into(&mut dst, 2, &[9, 8, 7]);
    assert_eq!(dst, [1, 2, 9, 8, 7, 6]);
    copy_into(&mut dst, 6, &[]);
    assert_eq!(dst, [1, 2, 9, 8, 7, 6]);
}

#[test]
fn bytes_equal_compares_length_and_content() {
    assert!(bytes_equal(&[], &[]));
    assert!(bytes_equal(&[1, 2, 3], &[1, 2, 3]));
    assert!(!bytes_equal(&[1, 2, 3], &[1, 2, 4]));
    assert!(!bytes_equal(&[1, 2, 3], &[1, 2]));
    assert!(!bytes_equal(&[1, 2], &[1, 2, 3]));
}

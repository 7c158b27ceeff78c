//! The frame codec: what pack, validate and decode do on given frames.

use idtp::crypto::{sw_crc32, sw_crc8, sw_hmac};
use idtp::{IdtpError, IdtpFrame, IdtpHeader, IDTP_PAYLOAD_MAX_SIZE};

const KEY: &[u8] = b"0123456789abcdef";

fn frame_with(mode: u8, payload: &[u8]) -> IdtpFrame {
    let mut frame = IdtpFrame::new();
    frame.set_header(&IdtpHeader {
        mode,
        timestamp: 77,
        sequence: 3,
        device_id: 0x1234,
        ..IdtpHeader::new()
    });
    frame.set_payload_raw(payload, 0x90).unwrap();
    frame
}

fn packed(mode: u8, payload: &[u8], key: Option<&[u8]>) -> Vec<u8> {
    let mut buffer = vec![0u8; 1024];
    let size = frame_with(mode, payload).pack(&mut buffer, key).unwrap();
    buffer.truncate(size);
    buffer
}

#[test]
fn new_frame_is_zero_header_and_empty_payload() {
    let frame = IdtpFrame::new();
    assert_eq!(*frame.header(), IdtpHeader::default());
    assert_eq!(frame.payload_size(), 0);
    assert_eq!(frame.payload_raw().unwrap(), b"");
    assert_eq!(frame.trailer_size(), 0);
    assert_eq!(frame.size(), 20);
    let other = IdtpFrame::default();
    assert_eq!(*other.header(), IdtpHeader::default());
}

#[test]
fn set_header_overwrites_header_and_keeps_payload_store() {
    let mut frame = frame_with(1, b"abcdef");
    frame.set_header(&IdtpHeader {
        payload_size: 4,
        mode: 2,
        crc: 0x99,
        ..IdtpHeader::new()
    });
    assert_eq!(frame.header().crc, 0x99);
    assert_eq!(frame.header().payload_type, 0);
    assert_eq!(frame.payload_raw().unwrap(), b"abcd");
    assert_eq!(frame.size(), 20 + 4 + 32);
}

#[test]
fn set_payload_raw_records_size_and_type() {
    let mut frame = frame_with(1, b"first payload");
    frame.set_payload_raw(b"xy", 0x07).unwrap();
    assert_eq!(frame.header().payload_size, 2);
    assert_eq!(frame.header().payload_type, 0x07);
    assert_eq!(frame.header().device_id, 0x1234);
    assert_eq!(frame.payload_raw().unwrap(), b"xy");
    // The store behind the payload keeps what was there.
    frame.set_header(&IdtpHeader {
        payload_size: 5,
        ..*frame.header()
    });
    assert_eq!(frame.payload_raw().unwrap(), b"xyrst");
}

#[test]
fn payload_limit_is_972_bytes() {
    let mut frame = IdtpFrame::new();
    let full = [0xA5u8; 972];
    assert!(frame.set_payload_raw(&full, 1).is_ok());
    assert_eq!(frame.payload_size(), IDTP_PAYLOAD_MAX_SIZE);
    assert_eq!(frame.payload_raw().unwrap(), &full[..]);

    let over = [0xA5u8; 973];
    assert!(matches!(
        frame.set_payload_raw(&over, 2),
        Err(IdtpError::BufferOverflow)
    ));
    assert_eq!(frame.header().payload_type, 1);
    assert_eq!(frame.payload_size(), 972);

    let far_over = [0u8; 1025];
    assert!(matches!(
        frame.set_payload_raw(&far_over, 2),
        Err(IdtpError::BufferOverflow)
    ));
}

#[test]
fn largest_frame_is_1024_bytes() {
    let payload = [0x3Cu8; 972];
    let wire = packed(2, &payload, Some(KEY));
    assert_eq!(wire.len(), 1024);
    assert!(IdtpFrame::validate(&wire, Some(KEY)).is_ok());
    let decoded = IdtpFrame::decode(&wire).unwrap();
    assert_eq!(decoded.payload_raw().unwrap(), &payload[..]);
}

#[test]
fn size_is_header_payload_and_trailer() {
    assert_eq!(frame_with(0, b"12345").size(), 25);
    assert_eq!(frame_with(1, b"12345").size(), 29);
    assert_eq!(frame_with(2, b"12345").size(), 57);
    assert_eq!(frame_with(0xFF, b"12345").size(), 25);
    assert_eq!(frame_with(0xFF, b"12345").trailer_size(), 0);
}

#[test]
fn payload_raw_rejects_a_declared_size_over_the_limit() {
    let mut frame = IdtpFrame::new();
    frame.set_header(&IdtpHeader {
        payload_size: 973,
        ..IdtpHeader::new()
    });
    assert!(matches!(frame.payload_raw(), Err(IdtpError::ParseError)));
    let mut buffer = [0u8; 1024];
    assert!(matches!(
        frame.pack(&mut buffer, None),
        Err(IdtpError::ParseError)
    ));
    let mut short = [0u8; 100];
    assert!(matches!(
        frame.pack(&mut short, None),
        Err(IdtpError::BufferUnderflow)
    ));
}

#[test]
fn packed_frame_has_preamble_crc_and_length() {
    for mode in [0u8, 1, 2] {
        let wire = packed(mode, b"payload bytes", Some(KEY));
        assert_eq!(wire[0..4], [0x49, 0x44, 0x54, 0x50]);
        assert_eq!(wire[19], sw_crc8(&wire[..19]).unwrap());
        let trailer = [0usize, 4, 32][mode as usize];
        assert_eq!(wire.len(), 20 + 13 + trailer);
        assert_eq!(&wire[20..33], b"payload bytes");
    }
}

#[test]
fn packed_trailers_are_computed_over_header_and_payload() {
    let safety = packed(1, b"abc", None);
    assert_eq!(
        safety[23..27],
        sw_crc32(&safety[..23]).unwrap().to_le_bytes()
    );
    let secure = packed(2, b"abc", Some(KEY));
    assert_eq!(secure[23..55], sw_hmac(Some(KEY), &secure[..23]).unwrap());
}

#[test]
fn pack_ignores_the_crc_byte_of_the_header() {
    let mut frame = frame_with(1, b"abc");
    let mut first = [0u8; 27];
    frame.pack(&mut first, None).unwrap();
    frame.set_header(&IdtpHeader {
        crc: 0xEE,
        ..*frame.header()
    });
    let mut second = [0u8; 27];
    frame.pack(&mut second, None).unwrap();
    assert_eq!(first, second);
}

#[test]
fn decode_inverts_pack() {
    for mode in [0u8, 1, 2] {
        let frame = frame_with(mode, b"round trip");
        let mut buffer = [0u8; 128];
        let size = frame.pack(&mut buffer, Some(KEY)).unwrap();
        let decoded = IdtpFrame::decode(&buffer[..size]).unwrap();
        let sent = frame.header();
        let got = decoded.header();
        assert_eq!(
            IdtpHeader { crc: 0, ..*got },
            IdtpHeader { crc: 0, ..*sent }
        );
        assert_eq!(got.crc, buffer[19]);
        assert_eq!(decoded.payload_raw().unwrap(), b"round trip");
        // Bytes after the frame do not matter.
        let with_tail = IdtpFrame::decode(&buffer).unwrap();
        assert_eq!(with_tail.payload_raw().unwrap(), b"round trip");
    }
}

#[test]
fn pack_twice_gives_identical_bytes() {
    for mode in [0u8, 1, 2] {
        let frame = frame_with(mode, b"same frame");
        let mut first = [0x00u8; 80];
        let mut second = [0xFFu8; 200];
        let n1 = frame.pack(&mut first, Some(KEY)).unwrap();
        let n2 = frame.pack(&mut second, Some(KEY)).unwrap();
        assert_eq!(n1, n2);
        assert_eq!(first[..n1], second[..n2]);
    }
}

#[test]
fn validate_accepts_packed_and_rejects_every_single_bit_flip() {
    for mode in [1u8, 2] {
        let wire = packed(mode, b"integrity", Some(KEY));
        assert!(IdtpFrame::validate(&wire, Some(KEY)).is_ok());
        for index in 0..wire.len() {
            for bit in 0..8 {
                let mut flipped = wire.clone();
                flipped[index] ^= 1 << bit;
                let result = IdtpFrame::validate(&flipped, Some(KEY));
                if index < 20 || mode == 1 {
                    assert!(
                        matches!(result, Err(IdtpError::InvalidCrc)),
                        "mode {mode}, byte {index}, bit {bit}: {result:?}"
                    );
                } else {
                    assert!(
                        matches!(result, Err(IdtpError::InvalidHMac)),
                        "mode {mode}, byte {index}, bit {bit}: {result:?}"
                    );
                }
            }
        }
    }
}

#[test]
fn validate_lite_covers_the_header_only() {
    let wire = packed(0, b"unprotected", None);
    assert!(IdtpFrame::validate(&wire, None).is_ok());
    for index in 0..20 {
        let mut flipped = wire.clone();
        flipped[index] ^= 0x10;
        assert!(matches!(
            IdtpFrame::validate(&flipped, None),
            Err(IdtpError::InvalidCrc)
        ));
    }
    let mut flipped = wire.clone();
    flipped[25] ^= 0x10;
    assert!(IdtpFrame::validate(&flipped, None).is_ok());
}

#[test]
fn validate_rejects_a_changed_header_crc() {
    let mut wire = packed(1, b"abc", None);
    wire[19] ^= 0x80;
    assert!(matches!(
        IdtpFrame::validate(&wire, None),
        Err(IdtpError::InvalidCrc)
    ));
}

#[test]
fn validate_rejects_a_changed_trailer() {
    let mut safety = packed(1, b"abc", None);
    let last = safety.len() - 1;
    safety[last] ^= 0x01;
    assert!(matches!(
        IdtpFrame::validate(&safety, None),
        Err(IdtpError::InvalidCrc)
    ));
    let mut secure = packed(2, b"abc", Some(KEY));
    let last = secure.len() - 1;
    secure[last] ^= 0x01;
    assert!(matches!(
        IdtpFrame::validate(&secure, Some(KEY)),
        Err(IdtpError::InvalidHMac)
    ));
}

#[test]
fn validate_needs_a_header_and_the_whole_frame() {
    let wire = packed(1, b"abc", None);
    assert!(matches!(
        IdtpFrame::validate(&wire[..19], None),
        Err(IdtpError::BufferUnderflow)
    ));
    assert!(matches!(
        IdtpFrame::validate(&[], None),
        Err(IdtpError::BufferUnderflow)
    ));
    assert!(matches!(
        IdtpFrame::validate(&wire[..26], None),
        Err(IdtpError::BufferUnderflow)
    ));
    assert!(matches!(
        IdtpFrame::validate(&wire[..20], None),
        Err(IdtpError::BufferUnderflow)
    ));
    let mut longer = wire.clone();
    longer.extend_from_slice(&[0xEE; 9]);
    assert!(IdtpFrame::validate(&longer, None).is_ok());
}

#[test]
fn validate_does_not_look_at_preamble_or_version() {
    let mut frame = IdtpFrame::new();
    frame.set_header(&IdtpHeader {
        preamble: 0x1111_2222,
        version: 0x77,
        mode: 1,
        ..IdtpHeader::new()
    });
    frame.set_payload_raw(b"abc", 1).unwrap();
    let mut buffer = [0u8; 27];
    frame.pack(&mut buffer, None).unwrap();
    assert!(IdtpFrame::validate(&buffer, None).is_ok());
    assert!(matches!(
        IdtpFrame::decode(&buffer),
        Err(IdtpError::ParseError)
    ));
}

#[test]
fn secure_mode_without_key_is_invalid_hmac_key() {
    let frame = frame_with(2, b"secret");
    let mut buffer = [0u8; 128];
    assert!(matches!(
        frame.pack(&mut buffer, None),
        Err(IdtpError::InvalidHMacKey)
    ));
    let wire = packed(2, b"secret", Some(KEY));
    assert!(matches!(
        IdtpFrame::validate(&wire, None),
        Err(IdtpError::InvalidHMacKey)
    ));
}

#[test]
fn validate_unknown_mode_is_invalid_crc() {
    for mode in [3u8, 0x10, 0x80, 0xFF] {
        let mut wire = packed(0, b"abc", None);
        wire[17] = mode;
        wire[19] = sw_crc8(&wire[..19]).unwrap();
        assert!(matches!(
            IdtpFrame::validate(&wire, None),
            Err(IdtpError::InvalidCrc)
        ));
        // Also where the bytes after the header are missing.
        assert!(matches!(
            IdtpFrame::validate(&wire[..20], Some(KEY)),
            Err(IdtpError::InvalidCrc)
        ));
    }
}

#[test]
fn pack_unknown_mode_is_parse_error() {
    let frame = frame_with(0xFF, b"abc");
    let mut buffer = [0u8; 64];
    assert!(matches!(
        frame.pack(&mut buffer, None),
        Err(IdtpError::ParseError)
    ));
    let mut short = [0u8; 22];
    assert!(matches!(
        frame.pack(&mut short, None),
        Err(IdtpError::BufferUnderflow)
    ));
}

#[test]
fn decode_errors() {
    let wire = packed(1, b"abcdef", None);
    assert!(matches!(
        IdtpFrame::decode(&wire[..19]),
        Err(IdtpError::BufferUnderflow)
    ));
    assert!(matches!(
        IdtpFrame::decode(&wire[..29]),
        Err(IdtpError::BufferUnderflow)
    ));
    assert!(IdtpFrame::decode(&wire[..30]).is_ok());

    let mut bad_preamble = wire.clone();
    bad_preamble[0] = 0x48;
    assert!(matches!(
        IdtpFrame::decode(&bad_preamble),
        Err(IdtpError::ParseError)
    ));
    assert!(matches!(
        IdtpFrame::try_from(&bad_preamble[..]),
        Err(IdtpError::ParseError)
    ));

    let mut bad_mode = wire.clone();
    bad_mode[17] = 0x03;
    assert!(matches!(
        IdtpFrame::decode(&bad_mode),
        Err(IdtpError::ParseError)
    ));

    let mut too_large = vec![0u8; 2000];
    too_large[..20].copy_from_slice(&wire[..20]);
    too_large[14] = 0xCD; // payload size 0x03CD = 973
    too_large[15] = 0x03;
    assert!(matches!(
        IdtpFrame::decode(&too_large),
        Err(IdtpError::ParseError)
    ));
    too_large[14] = 0xCC; // payload size 972
    assert!(IdtpFrame::decode(&too_large).is_ok());
}

#[test]
fn decode_tests_the_length_before_the_preamble() {
    for mode in [0u8, 1, 2] {
        let mut wire = packed(mode, b"abcdef", Some(KEY));
        wire[0] = 0x48;
        wire[3] = 0x00;
        let whole = wire.len();
        // A whole frame without the preamble constant does not parse.
        assert!(matches!(
            IdtpFrame::decode(&wire),
            Err(IdtpError::ParseError)
        ));
        // Every shorter run that still holds the header is too short.
        for len in 20..whole {
            assert!(matches!(
                IdtpFrame::decode(&wire[..len]),
                Err(IdtpError::BufferUnderflow)
            ));
            assert!(matches!(
                IdtpFrame::try_from(&wire[..len]),
                Err(IdtpError::BufferUnderflow)
            ));
        }
        for len in 0..20 {
            assert!(matches!(
                IdtpFrame::decode(&wire[..len]),
                Err(IdtpError::BufferUnderflow)
            ));
        }
    }
}

#[test]
fn decode_tests_mode_and_declared_size_before_the_length() {
    let wire = packed(1, b"abcdef", None);

    let mut bad_mode = wire[..20].to_vec();
    bad_mode[17] = 0x03;
    assert!(matches!(
        IdtpFrame::decode(&bad_mode),
        Err(IdtpError::ParseError)
    ));
    bad_mode[0] = 0x00;
    assert!(matches!(
        IdtpFrame::decode(&bad_mode),
        Err(IdtpError::ParseError)
    ));

    let mut too_large = wire[..20].to_vec();
    too_large[14] = 0xCD; // payload size 0x03CD = 973
    too_large[15] = 0x03;
    assert!(matches!(
        IdtpFrame::decode(&too_large),
        Err(IdtpError::ParseError)
    ));
    too_large[15] = 0xFF;
    assert!(matches!(
        IdtpFrame::try_from(&too_large[..]),
        Err(IdtpError::ParseError)
    ));

    let mut largest = wire[..20].to_vec();
    largest[14] = 0xCC; // payload size 972
    largest[15] = 0x03;
    assert!(matches!(
        IdtpFrame::decode(&largest),
        Err(IdtpError::BufferUnderflow)
    ));
}

#[test]
fn decode_does_not_verify_integrity() {
    let mut wire = packed(1, b"abcdef", None);
    wire[19] ^= 0xFF;
    wire[22] = b'X';
    let last = wire.len() - 1;
    wire[last] ^= 0xFF;
    let decoded = IdtpFrame::decode(&wire).unwrap();
    assert_eq!(decoded.payload_raw().unwrap(), b"abXdef");
}

#[test]
fn primitive_errors_come_back_as_they_are() {
    let frame = frame_with(1, b"abc");
    let mut buffer = [0u8; 64];
    let result = frame.pack_with(
        &mut buffer,
        |_| Err(IdtpError::InvalidHMac),
        |_| Ok(0),
        |_| Ok([0u8; 32]),
    );
    assert!(matches!(result, Err(IdtpError::InvalidHMac)));
    let result = frame.pack_with(
        &mut buffer,
        |_| Ok(0),
        |_| Err(IdtpError::BufferOverflow),
        |_| Ok([0u8; 32]),
    );
    assert!(matches!(result, Err(IdtpError::BufferOverflow)));

    let wire = packed(2, b"abc", Some(KEY));
    let result = IdtpFrame::validate_with(
        &wire,
        |d| sw_crc8(d),
        |_| Ok(0),
        |_| Err(IdtpError::InvalidHMacKey),
    );
    assert!(matches!(result, Err(IdtpError::InvalidHMacKey)));
    let result = IdtpFrame::validate_with(
        &wire,
        |_| Err(IdtpError::ParseError),
        |_| Ok(0),
        |_| Ok([0u8; 32]),
    );
    assert!(matches!(result, Err(IdtpError::ParseError)));
}

#[test]
fn primitives_are_handed_the_covered_bytes() {
    let frame = frame_with(1, b"abc");
    let mut buffer = [0u8; 27];
    let mut seen8 = Vec::new();
    let mut seen32 = Vec::new();
    frame
        .pack_with(
            &mut buffer,
            |d| {
                seen8 = d.to_vec();
                Ok(0x11)
            },
            |d| {
                seen32 = d.to_vec();
                Ok(0x0403_0201)
            },
            |_| Ok([0u8; 32]),
        )
        .unwrap();
    assert_eq!(seen8, frame.header().to_wire()[..19]);
    assert_eq!(seen32.len(), 23);
    assert_eq!(seen32[..19], seen8[..]);
    assert_eq!(seen32[19], 0x11);
    assert_eq!(&seen32[20..], b"abc");
    assert_eq!(buffer[23..27], [0x01, 0x02, 0x03, 0x04]);

    let mut checked8 = Vec::new();
    let mut checked32 = Vec::new();
    IdtpFrame::validate_with(
        &buffer,
        |d| {
            checked8 = d.to_vec();
            Ok(0x11)
        },
        |d| {
            checked32 = d.to_vec();
            Ok(0x0403_0201)
        },
        |_| Ok([0u8; 32]),
    )
    .unwrap();
    assert_eq!(checked8, seen8);
    assert_eq!(checked32, seen32);
}

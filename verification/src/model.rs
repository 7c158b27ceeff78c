//! The mathematical model of a frame and of the three codec operations.
//!
//! A frame is a header and a 972-byte payload store of which the first
//! `payload_size` bytes are the payload. Packing, validating and decoding are
//! defined here as functions of byte sequences and of what the integrity
//! primitives returned; the executable codec is proved to compute them.

use crate::crypto::{crc32_autosar, crc8_autosar, sw_hmac_outcome};
use crate::header::{
    header_bytes, mode_of, parse_header, IdtpHeader, IdtpMode, IDTP_HEADER_SIZE, IDTP_PREAMBLE,
};
use crate::wire::{le32, overwrite};
use crate::{IdtpError, IdtpResult};
use vstd::prelude::*;

verus! {

/// IDTP frame max size in bytes. It includes size of IDTP header,
/// payload and packet trailer.
pub const IDTP_FRAME_MAX_SIZE: usize = 1024;

/// IDTP frame min size in bytes.
pub const IDTP_FRAME_MIN_SIZE: usize = IDTP_HEADER_SIZE;

/// IDTP network packet payload max size in bytes.
pub const IDTP_PAYLOAD_MAX_SIZE: usize = 972;

/// The header with every field zero.
pub open spec fn zero_header() -> IdtpHeader {
    IdtpHeader {
        preamble: 0,
        timestamp: 0,
        sequence: 0,
        device_id: 0,
        payload_size: 0,
        version: 0,
        mode: 0,
        payload_type: 0,
        crc: 0,
    }
}

/// Whether a header declares the length of a frame: it names a known mode
/// and declares a payload that fits a frame.
pub open spec fn header_measures(h: IdtpHeader) -> bool {
    &&& mode_of(h.mode) != IdtpMode::Unknown
    &&& h.payload_size <= IDTP_PAYLOAD_MAX_SIZE
}

/// Whether a header can stand at the start of a frame that decodes: it
/// carries the preamble constant, names a known mode and declares a payload
/// that fits a frame.
pub open spec fn header_decodes(h: IdtpHeader) -> bool {
    &&& h.preamble == IDTP_PREAMBLE
    &&& header_measures(h)
}

/// The abstract state of a frame builder.
pub struct FrameModel {
    /// The frame's header.
    pub header: IdtpHeader,
    /// The payload store: always 972 bytes, of which the first
    /// `header.payload_size` are the payload.
    pub store: Seq<u8>,
}

impl FrameModel {
    /// The store has its fixed length.
    pub open spec fn wf(self) -> bool {
        self.store.len() == IDTP_PAYLOAD_MAX_SIZE
    }

    /// The frame that construction gives: a zero header over a zero store.
    pub open spec fn empty() -> FrameModel {
        FrameModel { header: zero_header(), store: Seq::new(972, |i: int| 0u8) }
    }

    /// Payload length that the header declares.
    pub open spec fn payload_size(self) -> nat {
        self.header.payload_size as nat
    }

    /// Operating mode that the header's mode byte names.
    pub open spec fn mode(self) -> IdtpMode {
        mode_of(self.header.mode)
    }

    /// Trailer length: a function of the mode alone.
    pub open spec fn trailer_size(self) -> nat {
        self.mode().trailer_len()
    }

    /// Length of the header and the payload together.
    pub open spec fn data_size(self) -> nat {
        20 + self.payload_size()
    }

    /// Total length of the frame on the wire.
    pub open spec fn size(self) -> nat {
        20 + self.payload_size() + self.trailer_size()
    }

    /// The payload: the first `payload_size` bytes of the store.
    pub open spec fn payload(self) -> Seq<u8>
        recommends
            self.payload_size() <= self.store.len(),
    {
        self.store.subrange(0, self.payload_size() as int)
    }

    /// The frame with its header replaced.
    pub open spec fn with_header(self, header: IdtpHeader) -> FrameModel {
        FrameModel { header, store: self.store }
    }

    /// The frame after `bytes` were set as its payload: they stand at the
    /// front of the store, and the header declares their length and type.
    pub open spec fn with_payload(self, bytes: Seq<u8>, payload_type: u8) -> FrameModel
        recommends
            bytes.len() <= IDTP_PAYLOAD_MAX_SIZE,
    {
        FrameModel {
            header: IdtpHeader {
                payload_type,
                payload_size: bytes.len() as u16,
                ..self.header
            },
            store: overwrite(self.store, 0, bytes),
        }
    }

    /// The bytes that the header CRC covers: the first 19 bytes of the
    /// header's wire form.
    pub open spec fn crc8_input(self) -> Seq<u8> {
        header_bytes(self.header).subrange(0, 19)
    }

    /// Header and payload on the wire, with `crc8` in the header's CRC byte:
    /// the bytes that the trailer covers.
    pub open spec fn body(self, crc8: u8) -> Seq<u8> {
        self.crc8_input().push(crc8) + self.payload()
    }
}

/// What the integrity primitives returned to one codec operation. A field
/// whose primitive the operation did not call may hold anything.
pub struct Checks {
    /// Result of the CRC-8 over the first 19 header bytes.
    pub crc8: IdtpResult<u8>,
    /// Result of the CRC-32 over header and payload.
    pub crc32: IdtpResult<u32>,
    /// Result of the HMAC-SHA256 over header and payload.
    pub hmac: IdtpResult<[u8; 32]>,
}

/// The outcome of packing `frame` into a buffer of `out_len` bytes: the bytes
/// of the frame on the wire, or the error.
pub open spec fn pack_outcome(frame: FrameModel, out_len: nat, checks: Checks) -> IdtpResult<
    Seq<u8>,
> {
    if out_len < frame.size() {
        Err(IdtpError::BufferUnderflow)
    } else {
        match checks.crc8 {
            Err(e) => Err(e),
            Ok(crc8) => if frame.payload_size() > IDTP_PAYLOAD_MAX_SIZE {
                Err(IdtpError::ParseError)
            } else {
                match frame.mode() {
                    IdtpMode::Lite => Ok(frame.body(crc8)),
                    IdtpMode::Safety => match checks.crc32 {
                        Ok(crc32) => Ok(frame.body(crc8) + le32(crc32)),
                        Err(e) => Err(e),
                    },
                    IdtpMode::Secure => match checks.hmac {
                        Ok(tag) => Ok(frame.body(crc8) + tag@),
                        Err(e) => Err(e),
                    },
                    IdtpMode::Unknown => Err(IdtpError::ParseError),
                }
            },
        }
    }
}

/// Whether packing reaches the computation of a trailer of mode `mode`.
pub open spec fn pack_reaches_trailer(
    frame: FrameModel,
    out_len: nat,
    checks: Checks,
    mode: IdtpMode,
) -> bool {
    &&& out_len >= frame.size()
    &&& checks.crc8 is Ok
    &&& frame.payload_size() <= IDTP_PAYLOAD_MAX_SIZE
    &&& frame.mode() == mode
}

/// The length of header and payload that the first 20 bytes of `bytes`
/// declare.
pub open spec fn wire_data_size(bytes: Seq<u8>) -> nat
    recommends
        bytes.len() >= 20,
{
    20 + parse_header(bytes).payload_size as nat
}

/// The total frame length that the first 20 bytes of `bytes` declare.
pub open spec fn wire_size(bytes: Seq<u8>) -> nat
    recommends
        bytes.len() >= 20,
{
    wire_data_size(bytes) + mode_of(parse_header(bytes).mode).trailer_len()
}

/// The bytes that a trailer covers: header and payload.
pub open spec fn wire_data(bytes: Seq<u8>) -> Seq<u8>
    recommends
        bytes.len() >= wire_data_size(bytes),
{
    bytes.subrange(0, wire_data_size(bytes) as int)
}

/// The trailer of a received frame.
pub open spec fn wire_trailer(bytes: Seq<u8>) -> Seq<u8>
    recommends
        bytes.len() >= wire_size(bytes),
{
    bytes.subrange(wire_data_size(bytes) as int, wire_size(bytes) as int)
}

/// Whether validation reaches the check of a trailer of mode `mode`.
pub open spec fn validate_reaches_trailer(bytes: Seq<u8>, checks: Checks, mode: IdtpMode) -> bool {
    &&& bytes.len() >= 20
    &&& checks.crc8 == Ok::<u8, IdtpError>(bytes[19])
    &&& mode_of(parse_header(bytes).mode) == mode
    &&& bytes.len() >= wire_size(bytes)
}

/// The outcome of validating received bytes.
pub open spec fn validate_outcome(bytes: Seq<u8>, checks: Checks) -> IdtpResult<()> {
    if bytes.len() < 20 {
        Err(IdtpError::BufferUnderflow)
    } else {
        match checks.crc8 {
            Err(e) => Err(e),
            Ok(crc8) => if bytes[19] != crc8 {
                Err(IdtpError::InvalidCrc)
            } else if mode_of(parse_header(bytes).mode) == IdtpMode::Unknown {
                Err(IdtpError::InvalidCrc)
            } else if bytes.len() < wire_size(bytes) {
                Err(IdtpError::BufferUnderflow)
            } else {
                match mode_of(parse_header(bytes).mode) {
                    IdtpMode::Safety => match checks.crc32 {
                        Err(e) => Err(e),
                        Ok(crc32) => if le32(crc32) == wire_trailer(bytes) {
                            Ok(())
                        } else {
                            Err(IdtpError::InvalidCrc)
                        },
                    },
                    IdtpMode::Secure => match checks.hmac {
                        Err(e) => Err(e),
                        Ok(tag) => if tag@ == wire_trailer(bytes) {
                            Ok(())
                        } else {
                            Err(IdtpError::InvalidHMac)
                        },
                    },
                    _ => Ok(()),
                }
            },
        }
    }
}

/// The outcome of decoding received bytes: the frame that they hold, or the
/// error. Integrity is not looked at.
///
/// The tests, in order: bytes that hold no header are a `BufferUnderflow`; a
/// header that names no known mode or declares more than 972 payload bytes
/// is a `ParseError`; bytes shorter than the frame that the header declares
/// are a `BufferUnderflow`; a whole frame without the preamble constant is a
/// `ParseError`.
pub open spec fn decode_outcome(bytes: Seq<u8>) -> IdtpResult<FrameModel> {
    if bytes.len() < 20 {
        Err(IdtpError::BufferUnderflow)
    } else if !header_measures(parse_header(bytes)) {
        Err(IdtpError::ParseError)
    } else if bytes.len() < wire_size(bytes) {
        Err(IdtpError::BufferUnderflow)
    } else if parse_header(bytes).preamble != IDTP_PREAMBLE {
        Err(IdtpError::ParseError)
    } else {
        Ok(
            FrameModel::empty().with_header(parse_header(bytes)).with_payload(
                bytes.subrange(20, wire_data_size(bytes) as int),
                parse_header(bytes).payload_type,
            ),
        )
    }
}

/// What the software primitives return while `frame` is packed under `key`.
pub open spec fn sw_pack_checks(frame: FrameModel, key: Option<Seq<u8>>) -> Checks {
    let crc8 = crc8_autosar(frame.crc8_input());
    Checks {
        crc8: Ok(crc8),
        crc32: Ok(crc32_autosar(frame.body(crc8))),
        hmac: sw_hmac_outcome(key, frame.body(crc8)),
    }
}

/// What the software primitives return while `bytes` are validated under
/// `key`.
pub open spec fn sw_validate_checks(bytes: Seq<u8>, key: Option<Seq<u8>>) -> Checks {
    Checks {
        crc8: Ok(crc8_autosar(bytes.subrange(0, 19))),
        crc32: Ok(crc32_autosar(wire_data(bytes))),
        hmac: sw_hmac_outcome(key, wire_data(bytes)),
    }
}

} // verus!

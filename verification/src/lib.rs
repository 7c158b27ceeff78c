//! Inertial Measurement Unit Data Transfer Protocol (IDTP): a compact binary
//! framing protocol for streaming IMU readings over an arbitrary byte
//! transport.
//!
//! A frame is a 20-byte little-endian header, a payload of at most 972 bytes
//! and a trailer chosen by the operating mode: nothing (Lite), a CRC-32
//! (Safety) or an HMAC-SHA256 tag (Secure). Every operation of the codec is
//! verified against a mathematical model of the wire format.

use vstd::prelude::*;

pub mod crypto;
pub mod frame;
pub mod guarantees;
pub mod header;
pub mod model;
pub mod payload;
pub mod wire;

pub use frame::IdtpFrame;
pub use header::{IdtpHeader, IdtpMode, IDTP_HEADER_SIZE, IDTP_PREAMBLE, IDTP_VERSION};
pub use model::{IDTP_FRAME_MAX_SIZE, IDTP_FRAME_MIN_SIZE, IDTP_PAYLOAD_MAX_SIZE};

verus! {

/// Protocol errors enumeration.
#[derive(Debug, Clone, Copy, PartialEq, Eq, Structural)]
pub enum IdtpError {
    /// Buffer too short.
    BufferUnderflow,
    /// Buffer too large.
    BufferOverflow,
    /// Incorrect CRC value.
    InvalidCrc,
    /// Incorrect HMAC value.
    InvalidHMac,
    /// Incorrect HMAC key.
    InvalidHMacKey,
    /// Error to convert from/to bytes.
    ParseError,
}

/// Result alias for IDTP.
pub type IdtpResult<T> = Result<T, IdtpError>;

/// Trait for serializable & deserializable data: fixed-size records that
/// have a byte layout of their own.
///
/// The trait asks for the two conversions and states nothing about them:
/// what the codec does with a record is stated over whatever the record's
/// own conversions return.
pub trait IdtpData: Sized {
    /// Number of bytes that a record occupies on the wire.
    const SIZE: usize;

    /// The bytes that stand for the record.
    fn as_bytes(&self) -> Vec<u8>;

    /// Reads a record from the front of `bytes`, if they hold one.
    fn read_from_prefix(bytes: &[u8]) -> Option<Self>;
}

} // verus!

//! IDTP header: the operating mode and the fixed 20-byte header record.

use crate::wire::{from_le16, from_le32, le16, le32, u16_from_le, u16_to_le, u32_from_le, u32_to_le};
use crate::wire::{
    lemma_from_le16_round_trip, lemma_from_le32_round_trip, lemma_le16_round_trip,
    lemma_le32_round_trip,
};
use crate::IdtpData;
use vstd::prelude::*;
use vstd::slice::slice_to_vec;

verus! {

/// Value to signal the start of a new IDTP frame (ASCII "IDTP", little-endian).
pub const IDTP_PREAMBLE: u32 = 0x5054_4449;

/// Current IDTP version.
/// For v2.0, the value is 0x21 (where 0x2 is Major and 0x1 is Minor).
pub const IDTP_VERSION: u8 = 0x21;

/// Size of IDTP header in bytes.
pub const IDTP_HEADER_SIZE: usize = 20;

/// IDTP operating mode.
#[derive(Debug, Clone, Copy, PartialEq, Eq, Structural, PartialOrd, Ord, Hash)]
pub enum IdtpMode {
    /// `IDTP-L (Lite mode)` - operating mode for minimum latency & overhead
    /// with general protection. SHOULD be used for trusted channels only.
    Lite,
    /// `IDTP-S (Safety mode)` - operating mode with balance between speed and
    /// integrity with more complex protection. SHOULD be used for
    /// most applications.
    Safety,
    /// `IDTP-SEC (Secure mode)` - operating mode with protection against
    /// data spoofing. MUST be used for data transmission over unsecured
    /// channels.
    Secure,
    /// Unknown mode: stands for every mode byte that names no mode.
    Unknown,
}

/// The mode that a mode byte names: `0x00`, `0x01` and `0x02` are Lite, Safety
/// and Secure; every other byte is Unknown.
pub open spec fn mode_of(byte: u8) -> IdtpMode {
    if byte == 0x00 {
        IdtpMode::Lite
    } else if byte == 0x01 {
        IdtpMode::Safety
    } else if byte == 0x02 {
        IdtpMode::Secure
    } else {
        IdtpMode::Unknown
    }
}

/// The byte that stands for a mode on the wire; Unknown is `0xff`.
pub open spec fn mode_byte(mode: IdtpMode) -> u8 {
    match mode {
        IdtpMode::Lite => 0x00,
        IdtpMode::Safety => 0x01,
        IdtpMode::Secure => 0x02,
        IdtpMode::Unknown => 0xff,
    }
}

impl IdtpMode {
    /// Length in bytes of the trailer that the mode asks for.
    pub open spec fn trailer_len(self) -> nat {
        match self {
            IdtpMode::Lite => 0,
            IdtpMode::Safety => 4,
            IdtpMode::Secure => 32,
            IdtpMode::Unknown => 0,
        }
    }

    /// Length in bytes of the trailer that the mode asks for: nothing for
    /// Lite, a CRC-32 for Safety, an HMAC-SHA256 tag for Secure.
    pub fn trailer_size(self) -> (n: usize)
        ensures
            n == self.trailer_len(),
    {
        match self {
            IdtpMode::Safety => 4,
            IdtpMode::Secure => 32,
            IdtpMode::Lite | IdtpMode::Unknown => 0,
        }
    }
}

impl Default for IdtpMode {
    /// The default operating mode is Safety.
    fn default() -> (mode: Self)
        ensures
            mode == IdtpMode::Safety,
    {
        IdtpMode::Safety
    }
}

impl From<IdtpMode> for u8 {
    /// Convert IDTP mode to u8.
    fn from(mode: IdtpMode) -> (byte: Self) {
        match mode {
            IdtpMode::Lite => 0x00,
            IdtpMode::Safety => 0x01,
            IdtpMode::Secure => 0x02,
            IdtpMode::Unknown => 0xff,
        }
    }
}

impl vstd::std_specs::convert::FromSpecImpl<IdtpMode> for u8 {
    open spec fn obeys_from_spec() -> bool {
        true
    }

    open spec fn from_spec(mode: IdtpMode) -> Self {
        mode_byte(mode)
    }
}

impl From<u8> for IdtpMode {
    /// Convert byte to IDTP operating mode.
    fn from(byte: u8) -> (mode: Self) {
        match byte {
            0x00 => IdtpMode::Lite,
            0x01 => IdtpMode::Safety,
            0x02 => IdtpMode::Secure,
            _ => IdtpMode::Unknown,
        }
    }
}

impl vstd::std_specs::convert::FromSpecImpl<u8> for IdtpMode {
    open spec fn obeys_from_spec() -> bool {
        true
    }

    open spec fn from_spec(byte: u8) -> Self {
        mode_of(byte)
    }
}

/// The byte that stands for a mode names that mode.
pub proof fn lemma_mode_byte_round_trip(mode: IdtpMode)
    ensures
        mode_of(mode_byte(mode)) == mode,
{
}

/// IDTP header struct.
#[derive(Debug, Clone, Copy, PartialEq, Eq, Structural)]
pub struct IdtpHeader {
    /// Value to signal the start of a new IDTP frame.
    pub preamble: u32,
    /// Timestamp represents the sensor-local time.
    pub timestamp: u32,
    /// Sequence number of IDTP frame sent.
    pub sequence: u32,
    /// Vendor-specific unique IMU device identifier.
    pub device_id: u16,
    /// Size of packet payload in bytes.
    pub payload_size: u16,
    /// Protocol version in format MAJOR.MINOR.
    pub version: u8,
    /// Protocol operating mode.
    pub mode: u8,
    /// Both standard & vendor-specific payload type.
    pub payload_type: u8,
    /// Cyclic Redundancy Check - value to used for complex error detection.
    pub crc: u8,
}

/// The 20 bytes of a header on the wire: every field in declaration order,
/// multi-byte fields little-endian, no padding.
pub open spec fn header_bytes(h: IdtpHeader) -> Seq<u8> {
    le32(h.preamble) + le32(h.timestamp) + le32(h.sequence) + le16(h.device_id) + le16(
        h.payload_size,
    ) + seq![h.version, h.mode, h.payload_type, h.crc]
}

/// The header whose wire form is the first 20 bytes of `b`.
pub open spec fn parse_header(b: Seq<u8>) -> IdtpHeader
    recommends
        b.len() >= 20,
{
    IdtpHeader {
        preamble: from_le32(b.subrange(0, 4)),
        timestamp: from_le32(b.subrange(4, 8)),
        sequence: from_le32(b.subrange(8, 12)),
        device_id: from_le16(b.subrange(12, 14)),
        payload_size: from_le16(b.subrange(14, 16)),
        version: b[16],
        mode: b[17],
        payload_type: b[18],
        crc: b[19],
    }
}

/// The wire form of a header has 20 bytes, with each field at its offset.
pub proof fn lemma_header_bytes_fields(h: IdtpHeader)
    ensures
        header_bytes(h).len() == 20,
        header_bytes(h).subrange(0, 4) == le32(h.preamble),
        header_bytes(h).subrange(4, 8) == le32(h.timestamp),
        header_bytes(h).subrange(8, 12) == le32(h.sequence),
        header_bytes(h).subrange(12, 14) == le16(h.device_id),
        header_bytes(h).subrange(14, 16) == le16(h.payload_size),
        header_bytes(h)[16] == h.version,
        header_bytes(h)[17] == h.mode,
        header_bytes(h)[18] == h.payload_type,
        header_bytes(h)[19] == h.crc,
{
    let b = header_bytes(h);
    assert(b.subrange(0, 4) =~= le32(h.preamble));
    assert(b.subrange(4, 8) =~= le32(h.timestamp));
    assert(b.subrange(8, 12) =~= le32(h.sequence));
    assert(b.subrange(12, 14) =~= le16(h.device_id));
    assert(b.subrange(14, 16) =~= le16(h.payload_size));
}

/// Parsing the wire form of a header gives the header back.
pub proof fn lemma_parse_header_bytes(h: IdtpHeader)
    ensures
        header_bytes(h).len() == 20,
        parse_header(header_bytes(h)) == h,
{
    lemma_header_bytes_fields(h);
    lemma_le32_round_trip(h.preamble);
    lemma_le32_round_trip(h.timestamp);
    lemma_le32_round_trip(h.sequence);
    lemma_le16_round_trip(h.device_id);
    lemma_le16_round_trip(h.payload_size);
}

/// The wire form of a parsed header is the 20 bytes it was parsed from.
pub proof fn lemma_header_bytes_parse(b: Seq<u8>)
    requires
        b.len() >= 20,
    ensures
        header_bytes(parse_header(b)) == b.subrange(0, 20),
{
    lemma_from_le32_round_trip(b.subrange(0, 4));
    lemma_from_le32_round_trip(b.subrange(4, 8));
    lemma_from_le32_round_trip(b.subrange(8, 12));
    lemma_from_le16_round_trip(b.subrange(12, 14));
    lemma_from_le16_round_trip(b.subrange(14, 16));
    let h = parse_header(b);
    assert(le32(h.preamble) =~= b.subrange(0, 4));
    assert(le32(h.timestamp) =~= b.subrange(4, 8));
    assert(le32(h.sequence) =~= b.subrange(8, 12));
    assert(le16(h.device_id) =~= b.subrange(12, 14));
    assert(le16(h.payload_size) =~= b.subrange(14, 16));
    assert(header_bytes(h) =~= b.subrange(0, 20));
}

/// The parsed header reads only the first 20 bytes.
pub proof fn lemma_parse_header_prefix(b: Seq<u8>)
    requires
        b.len() >= 20,
    ensures
        parse_header(b.subrange(0, 20)) == parse_header(b),
{
    let p = b.subrange(0, 20);
    assert(p.subrange(0, 4) =~= b.subrange(0, 4));
    assert(p.subrange(4, 8) =~= b.subrange(4, 8));
    assert(p.subrange(8, 12) =~= b.subrange(8, 12));
    assert(p.subrange(12, 14) =~= b.subrange(12, 14));
    assert(p.subrange(14, 16) =~= b.subrange(14, 16));
}

/// The wire form of the preamble constant is the ASCII text "IDTP".
pub proof fn lemma_preamble_bytes()
    ensures
        le32(IDTP_PREAMBLE) == seq![0x49u8, 0x44u8, 0x54u8, 0x50u8],
{
    assert(le32(IDTP_PREAMBLE) =~= seq![0x49u8, 0x44u8, 0x54u8, 0x50u8]);
}

impl Default for IdtpHeader {
    /// The header with every field zero.
    fn default() -> (h: Self)
        ensures
            h == (IdtpHeader {
                preamble: 0,
                timestamp: 0,
                sequence: 0,
                device_id: 0,
                payload_size: 0,
                version: 0,
                mode: 0,
                payload_type: 0,
                crc: 0,
            }),
    {
        IdtpHeader {
            preamble: 0,
            timestamp: 0,
            sequence: 0,
            device_id: 0,
            payload_size: 0,
            version: 0,
            mode: 0,
            payload_type: 0,
            crc: 0,
        }
    }
}

impl IdtpHeader {
    /// Construct new `IdtpHeader` object: the preamble and the version are
    /// the protocol's constants, the mode is Safety, every other field is
    /// zero.
    #[must_use]
    pub fn new() -> (h: Self)
        ensures
            h == (IdtpHeader {
                preamble: IDTP_PREAMBLE,
                timestamp: 0,
                sequence: 0,
                device_id: 0,
                payload_size: 0,
                version: IDTP_VERSION,
                mode: 0x01,
                payload_type: 0,
                crc: 0,
            }),
            mode_of(h.mode) == IdtpMode::Safety,
    {
        IdtpHeader {
            preamble: IDTP_PREAMBLE,
            timestamp: 0,
            sequence: 0,
            device_id: 0,
            payload_size: 0,
            version: IDTP_VERSION,
            mode: 0x01,
            payload_type: 0,
            crc: 0,
        }
    }

    /// Get header size in bytes.
    #[inline]
    #[must_use]
    pub fn size() -> (n: usize)
        ensures
            n == IDTP_HEADER_SIZE,
    {
        IDTP_HEADER_SIZE
    }

    /// The operating mode that the mode byte names.
    pub fn operating_mode(&self) -> (mode: IdtpMode)
        ensures
            mode == mode_of(self.mode),
    {
        IdtpMode::from(self.mode)
    }

    /// The 20 bytes of the header on the wire.
    pub fn to_wire(&self) -> (out: [u8; 20])
        ensures
            out@ == header_bytes(*self),
    {
        let p = u32_to_le(self.preamble);
        let t = u32_to_le(self.timestamp);
        let s = u32_to_le(self.sequence);
        let d = u16_to_le(self.device_id);
        let z = u16_to_le(self.payload_size);
        let out: [u8; 20] = [
            p[0],
            p[1],
            p[2],
            p[3],
            t[0],
            t[1],
            t[2],
            t[3],
            s[0],
            s[1],
            s[2],
            s[3],
            d[0],
            d[1],
            z[0],
            z[1],
            self.version,
            self.mode,
            self.payload_type,
            self.crc,
        ];
        assert(out@ =~= header_bytes(*self));
        out
    }

    /// Reads a header from the first 20 bytes of `data`; `None` when `data`
    /// is shorter than a header. Every run of 20 bytes is some header: no
    /// field is checked.
    pub fn from_wire(data: &[u8]) -> (r: Option<Self>)
        ensures
            data@.len() < 20 ==> r is None,
            data@.len() >= 20 ==> r == Some(parse_header(data@)),
    {
        if data.len() < IDTP_HEADER_SIZE {
            return None;
        }
        Some(
            IdtpHeader {
                preamble: u32_from_le(data, 0),
                timestamp: u32_from_le(data, 4),
                sequence: u32_from_le(data, 8),
                device_id: u16_from_le(data, 12),
                payload_size: u16_from_le(data, 14),
                version: data[16],
                mode: data[17],
                payload_type: data[18],
                crc: data[19],
            },
        )
    }
}

/// As a record, a header occupies the 20 bytes of its wire form.
pub proof fn lemma_header_record_size()
    ensures
        <IdtpHeader as IdtpData>::SIZE == IDTP_HEADER_SIZE,
{
}

impl IdtpData for IdtpHeader {
    const SIZE: usize = 20;

    /// The 20 bytes of the header on the wire.
    fn as_bytes(&self) -> (out: Vec<u8>)
        ensures
            out@ == header_bytes(*self),
    {
        let wire = self.to_wire();
        slice_to_vec(wire.as_slice())
    }

    /// Reads a header from the first 20 bytes of `bytes`.
    fn read_from_prefix(bytes: &[u8]) -> (r: Option<Self>)
        ensures
            bytes@.len() < 20 ==> r is None,
            bytes@.len() >= 20 ==> r == Some(parse_header(bytes@)),
    {
        IdtpHeader::from_wire(bytes)
    }
}

} // verus!

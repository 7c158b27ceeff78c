//! Inertial Measurement Unit Data Transfer Protocol frame implementation.

use crate::crypto::{key_bytes, sw_crc32, sw_crc8, sw_hmac_closure};
use crate::header::lemma_header_bytes_fields;
use crate::header::{IdtpHeader, IdtpMode, IDTP_HEADER_SIZE, IDTP_PREAMBLE};
use crate::model::{
    decode_outcome, pack_outcome, pack_reaches_trailer, sw_pack_checks, sw_validate_checks,
    validate_outcome, validate_reaches_trailer, wire_data, wire_trailer, Checks, FrameModel,
    IDTP_PAYLOAD_MAX_SIZE,
};
use crate::payload::{record_read, IdtpPayload};
use crate::wire::{bytes_equal, copy_into, le32, overwrite, u32_from_le, u32_to_le};
use crate::wire::{lemma_from_le32_round_trip, lemma_le32_round_trip};
use crate::{IdtpError, IdtpResult};
use vstd::prelude::*;

verus! {

/// Inertial Measurement Unit Data Transfer Protocol frame struct.
#[derive(Debug, Clone, Copy)]
pub struct IdtpFrame {
    /// IDTP frame header.
    header: IdtpHeader,
    /// Buffer that containing IDTP payload.
    payload: [u8; IDTP_PAYLOAD_MAX_SIZE],
}

impl View for IdtpFrame {
    type V = FrameModel;

    closed spec fn view(&self) -> FrameModel {
        FrameModel { header: self.header, store: self.payload@ }
    }
}

/// Whether the integrity primitive `f`, handed the bytes `data`, can have
/// returned `out`.
pub open spec fn gave<T, F: FnOnce(&[u8]) -> IdtpResult<T>>(
    f: F,
    data: Seq<u8>,
    out: IdtpResult<T>,
) -> bool {
    exists|s: &[u8]| s@ == data && #[trigger] f.ensures((s,), out)
}

/// Whether `checks` holds what the three primitives returned while `frame`
/// was packed into a buffer of `out_len` bytes: the CRC-8 was handed the first
/// 19 header bytes, and the trailer's primitive the header and payload bytes
/// as they stand on the wire.
pub open spec fn pack_checks_from<C8, C32, H>(
    frame: FrameModel,
    out_len: nat,
    calc_crc8: C8,
    calc_crc32: C32,
    calc_hmac: H,
    checks: Checks,
) -> bool where
    C8: FnOnce(&[u8]) -> IdtpResult<u8>,
    C32: FnOnce(&[u8]) -> IdtpResult<u32>,
    H: FnOnce(&[u8]) -> IdtpResult<[u8; 32]>,
 {
    &&& out_len >= frame.size() ==> gave(calc_crc8, frame.crc8_input(), checks.crc8)
    &&& pack_reaches_trailer(frame, out_len, checks, IdtpMode::Safety) ==> gave(
        calc_crc32,
        frame.body(checks.crc8->Ok_0),
        checks.crc32,
    )
    &&& pack_reaches_trailer(frame, out_len, checks, IdtpMode::Secure) ==> gave(
        calc_hmac,
        frame.body(checks.crc8->Ok_0),
        checks.hmac,
    )
}

/// Whether `checks` holds what the three primitives returned while `bytes`
/// were validated: the CRC-8 was handed the first 19 bytes, and the trailer's
/// primitive the header and payload bytes.
pub open spec fn validate_checks_from<C8, C32, H>(
    bytes: Seq<u8>,
    calc_crc8: C8,
    calc_crc32: C32,
    calc_hmac: H,
    checks: Checks,
) -> bool where
    C8: FnOnce(&[u8]) -> IdtpResult<u8>,
    C32: FnOnce(&[u8]) -> IdtpResult<u32>,
    H: FnOnce(&[u8]) -> IdtpResult<[u8; 32]>,
 {
    &&& bytes.len() >= 20 ==> gave(calc_crc8, bytes.subrange(0, 19), checks.crc8)
    &&& validate_reaches_trailer(bytes, checks, IdtpMode::Safety) ==> gave(
        calc_crc32,
        wire_data(bytes),
        checks.crc32,
    )
    &&& validate_reaches_trailer(bytes, checks, IdtpMode::Secure) ==> gave(
        calc_hmac,
        wire_data(bytes),
        checks.hmac,
    )
}

/// Whether a pack call that returned `r` and left `out` in its buffer did what
/// `outcome` says: on success `r` is the frame's length and the frame stands
/// at the front of `out`; on failure `r` is the error.
pub open spec fn packed_as(outcome: IdtpResult<Seq<u8>>, r: IdtpResult<usize>, out: Seq<u8>) -> bool {
    match outcome {
        Ok(bytes) => {
            &&& r == Ok::<usize, IdtpError>(bytes.len() as usize)
            &&& bytes.len() <= out.len()
            &&& out.subrange(0, bytes.len() as int) == bytes
        },
        Err(e) => r == Err::<usize, IdtpError>(e),
    }
}

/// Whether setting the payload `bytes` of type `payload_type` on the frame
/// `before` returned `r` and left `after` as it should: `BufferOverflow` and
/// the frame unchanged exactly when `bytes` is longer than 972 bytes.
pub open spec fn set_as(
    before: FrameModel,
    bytes: Seq<u8>,
    payload_type: u8,
    r: IdtpResult<()>,
    after: FrameModel,
) -> bool {
    if bytes.len() > IDTP_PAYLOAD_MAX_SIZE {
        r == Err::<(), IdtpError>(IdtpError::BufferOverflow) && after == before
    } else {
        r == Ok::<(), IdtpError>(()) && after == before.with_payload(bytes, payload_type)
    }
}

impl IdtpFrame {
    /// Every frame's store has its fixed length.
    pub proof fn lemma_wf(self)
        ensures
            self@.wf(),
    {
    }

    /// Construct new `IdtpFrame` struct: a zero header and an empty payload.
    #[must_use]
    pub fn new() -> (frame: Self)
        ensures
            frame@ == FrameModel::empty(),
    {
        let frame = IdtpFrame { header: IdtpHeader::default(), payload: [0u8; 972] };
        assert(frame.payload@ =~= FrameModel::empty().store);
        frame
    }

    /// Set IDTP header. The payload store is left as it is, and the header's
    /// CRC byte is taken as given: packing computes it anew.
    pub fn set_header(&mut self, header: &IdtpHeader)
        ensures
            final(self)@ == old(self)@.with_header(*header),
    {
        self.header = *header;
    }

    /// Set IDTP payload from raw bytes: copies them to the front of the
    /// store and records their length and `payload_type` in the header.
    ///
    /// Fails with `BufferOverflow`, leaving the frame as it was, exactly when
    /// `bytes` is longer than 972 bytes.
    pub fn set_payload_raw(&mut self, bytes: &[u8], payload_type: u8) -> (r: IdtpResult<()>)
        ensures
            set_as(old(self)@, bytes@, payload_type, r, final(self)@),
    {
        let size: usize = bytes.len();
        if size > IDTP_PAYLOAD_MAX_SIZE {
            return Err(IdtpError::BufferOverflow);
        }
        let mut i: usize = 0;
        while i < size
            invariant
                size == bytes@.len(),
                i <= size <= 972,
                self.header == old(self).header,
                forall|k: int|
                    0 <= k < 972 ==> #[trigger] self.payload@[k] == (if k < i {
                        bytes@[k]
                    } else {
                        old(self).payload@[k]
                    }),
            decreases size - i,
        {
            self.payload[i] = bytes[i];
            i += 1;
        }
        self.header.payload_type = payload_type;
        self.header.payload_size = size as u16;
        assert(self.payload@ =~= overwrite(old(self).payload@, 0, bytes@));
        Ok(())
    }

    /// Set IDTP payload: the bytes that `payload.to_bytes()` gives become the
    /// payload, and the header records their length and what
    /// `T::payload_type()` gives.
    ///
    /// Fails with `BufferOverflow`, leaving the frame as it was, exactly when
    /// the record has more than 972 bytes.
    pub fn set_payload<T: IdtpPayload>(&mut self, payload: &T) -> (r: IdtpResult<()>)
        ensures
            exists|bytes: Vec<u8>, id: u8| #[trigger]
                call_ensures(T::to_bytes, (payload,), bytes) && #[trigger] call_ensures(
                    T::payload_type,
                    (),
                    id,
                ) && set_as(old(self)@, bytes@, id, r, final(self)@),
    {
        let bytes = payload.to_bytes();
        let id = T::payload_type();
        self.set_payload_raw(bytes.as_slice(), id)
    }

    /// Get IDTP header.
    #[must_use]
    pub fn header(&self) -> (h: &IdtpHeader)
        ensures
            *h == self@.header,
    {
        &self.header
    }

    /// Get IDTP payload raw: the first `payload_size` bytes of the store.
    ///
    /// Fails with `ParseError` exactly when the header declares more than
    /// 972 bytes.
    #[inline]
    pub fn payload_raw(&self) -> (r: IdtpResult<&[u8]>)
        ensures
            self@.payload_size() > IDTP_PAYLOAD_MAX_SIZE ==> r == Err::<&[u8], IdtpError>(
                IdtpError::ParseError,
            ),
            self@.payload_size() <= IDTP_PAYLOAD_MAX_SIZE ==> r is Ok && r->Ok_0@
                == self@.payload(),
    {
        let size: usize = self.payload_size();
        if size > IDTP_PAYLOAD_MAX_SIZE {
            return Err(IdtpError::ParseError);
        }
        Ok(&self.payload[0..size])
    }

    /// Get IDTP payload: what `T::from_bytes` reads from the payload bytes.
    /// The header's payload type is not compared with `T`.
    ///
    /// Fails with `ParseError` when the header declares more than 972
    /// bytes, and when `T::from_bytes` fails on the payload bytes.
    #[inline]
    pub fn payload<T: IdtpPayload>(&self) -> (r: IdtpResult<T>)
        ensures
            self@.payload_size() > IDTP_PAYLOAD_MAX_SIZE ==> r == Err::<T, IdtpError>(
                IdtpError::ParseError,
            ),
            self@.payload_size() <= IDTP_PAYLOAD_MAX_SIZE ==> exists|got: IdtpResult<T>| #[trigger]
                record_read::<T>(self@.payload(), got) && r == (match got {
                    Ok(payload) => Ok::<T, IdtpError>(payload),
                    Err(_) => Err::<T, IdtpError>(IdtpError::ParseError),
                }),
    {
        let payload_bytes = match self.payload_raw() {
            Ok(bytes) => bytes,
            Err(_) => {
                return Err(IdtpError::ParseError);
            },
        };
        let got = T::from_bytes(payload_bytes);
        assert(record_read::<T>(self@.payload(), got));
        match got {
            Ok(payload) => Ok(payload),
            Err(_) => Err(IdtpError::ParseError),
        }
    }

    /// Get IDTP payload size in bytes, as the header declares it.
    #[inline]
    #[must_use]
    pub fn payload_size(&self) -> (n: usize)
        ensures
            n == self@.payload_size(),
    {
        self.header.payload_size as usize
    }

    /// Get frame trailer size: 4 bytes in Safety mode, 32 in Secure mode,
    /// none otherwise.
    #[must_use]
    pub fn trailer_size(&self) -> (n: usize)
        ensures
            n == self@.trailer_size(),
    {
        IdtpMode::from(self.header.mode).trailer_size()
    }

    /// Get frame size: header, payload and trailer together.
    #[inline]
    #[must_use]
    pub fn size(&self) -> (n: usize)
        ensures
            n == self@.size(),
    {
        IDTP_HEADER_SIZE + self.payload_size() + self.trailer_size()
    }

    /// Pack into raw IDTP frame. `CRC` & `HMAC` calculation is software-based.
    ///
    /// Does what `pack_with` does with the software CRC-8/AUTOSAR,
    /// CRC-32/AUTOSAR and HMAC-SHA256 under `key`. In Secure mode a missing
    /// key is an `InvalidHMacKey`.
    pub fn pack(&self, buffer: &mut [u8], key: Option<&[u8]>) -> (r: IdtpResult<usize>)
        ensures
            final(buffer)@.len() == old(buffer)@.len(),
            packed_as(
                pack_outcome(self@, old(buffer)@.len(), sw_pack_checks(self@, key_bytes(key))),
                r,
                final(buffer)@,
            ),
    {
        self.pack_with(buffer, sw_crc8, sw_crc32, sw_hmac_closure(key))
    }

    /// Pack into raw IDTP frame with custom `CRC` and `HMAC` calculation.
    /// Recommended to use if hardware acceleration for `CRC`/`HMAC` available.
    ///
    /// The steps, in order: `BufferUnderflow` if `buffer` is shorter than
    /// `size()`; the header is written and `calc_crc8`, handed its first 19
    /// bytes, gives the 20th; `ParseError` if the header declares more than
    /// 972 payload bytes; the payload is written; the trailer is what
    /// `calc_crc32` (Safety, little-endian) or `calc_hmac` (Secure) gives for
    /// the bytes written so far; an unknown mode is a `ParseError`. An error
    /// of a primitive is returned as it is. On success the result is the
    /// frame's length.
    pub fn pack_with<C8, C32, H>(
        &self,
        buffer: &mut [u8],
        calc_crc8: C8,
        calc_crc32: C32,
        calc_hmac: H,
    ) -> (r: IdtpResult<usize>) where
        C8: FnOnce(&[u8]) -> IdtpResult<u8>,
        C32: FnOnce(&[u8]) -> IdtpResult<u32>,
        H: FnOnce(&[u8]) -> IdtpResult<[u8; 32]>,

        requires
            forall|data: &[u8]| #[trigger] calc_crc8.requires((data,)),
            forall|data: &[u8]| #[trigger] calc_crc32.requires((data,)),
            forall|data: &[u8]| #[trigger] calc_hmac.requires((data,)),
        ensures
            final(buffer)@.len() == old(buffer)@.len(),
            exists|checks: Checks| #[trigger]
                pack_checks_from(
                    self@,
                    old(buffer)@.len(),
                    calc_crc8,
                    calc_crc32,
                    calc_hmac,
                    checks,
                ) && packed_as(
                    pack_outcome(self@, old(buffer)@.len(), checks),
                    r,
                    final(buffer)@,
                ),
    {
        let ghost frame = self@;
        let ghost out_len = old(buffer)@.len();
        let ghost idle = Checks {
            crc8: Err(IdtpError::ParseError),
            crc32: Err(IdtpError::ParseError),
            hmac: Err(IdtpError::ParseError),
        };
        let trailer_size: usize = self.trailer_size();
        let expected_size: usize = self.size();

        if buffer.len() < expected_size {
            assert(pack_checks_from(frame, out_len, calc_crc8, calc_crc32, calc_hmac, idle));
            return Err(IdtpError::BufferUnderflow);
        }
        // Packing IDTP header & calculating the CRC-8.

        let wire = self.header.to_wire();
        copy_into(buffer, 0, wire.as_slice());
        proof {
            lemma_header_bytes_fields(self.header);
            assert(buffer@.subrange(0, 19) =~= frame.crc8_input());
        }
        let crc8_result = calc_crc8(&buffer[0..19]);
        let crc8: u8 = match crc8_result {
            Ok(crc8) => crc8,
            Err(e) => {
                let ghost checks = Checks { crc8: crc8_result, ..idle };
                assert(pack_checks_from(frame, out_len, calc_crc8, calc_crc32, calc_hmac, checks));
                return Err(e);
            },
        };
        buffer[19] = crc8;
        let ghost after_crc8 = Checks { crc8: crc8_result, ..idle };

        // Packing payload.
        let payload_size: usize = self.payload_size();
        if payload_size > IDTP_PAYLOAD_MAX_SIZE {
            assert(pack_checks_from(frame, out_len, calc_crc8, calc_crc32, calc_hmac, after_crc8));
            return Err(IdtpError::ParseError);
        }
        copy_into(buffer, IDTP_HEADER_SIZE, &self.payload[0..payload_size]);

        // Packing frame trailer.
        let data_size: usize = IDTP_HEADER_SIZE + payload_size;
        let frame_size: usize = data_size + trailer_size;
        assert(buffer@.subrange(0, data_size as int) =~= frame.body(crc8));

        match IdtpMode::from(self.header.mode) {
            IdtpMode::Safety => {
                let crc32_result = calc_crc32(&buffer[0..data_size]);
                let ghost checks = Checks { crc32: crc32_result, ..after_crc8 };
                assert(pack_checks_from(frame, out_len, calc_crc8, calc_crc32, calc_hmac, checks));
                match crc32_result {
                    Ok(crc32) => {
                        let trailer = u32_to_le(crc32);
                        copy_into(buffer, data_size, trailer.as_slice());
                        assert(buffer@.subrange(0, frame_size as int) =~= frame.body(crc8) + le32(
                            crc32,
                        ));
                    },
                    Err(e) => {
                        return Err(e);
                    },
                }
            },
            IdtpMode::Secure => {
                let hmac_result = calc_hmac(&buffer[0..data_size]);
                let ghost checks = Checks { hmac: hmac_result, ..after_crc8 };
                assert(pack_checks_from(frame, out_len, calc_crc8, calc_crc32, calc_hmac, checks));
                match hmac_result {
                    Ok(tag) => {
                        copy_into(buffer, data_size, tag.as_slice());
                        assert(buffer@.subrange(0, frame_size as int) =~= frame.body(crc8)
                            + tag@);
                    },
                    Err(e) => {
                        return Err(e);
                    },
                }
            },
            IdtpMode::Lite => {
                assert(pack_checks_from(frame, out_len, calc_crc8, calc_crc32, calc_hmac, after_crc8));
            },
            IdtpMode::Unknown => {
                assert(pack_checks_from(frame, out_len, calc_crc8, calc_crc32, calc_hmac, after_crc8));
                return Err(IdtpError::ParseError);
            },
        }

        Ok(frame_size)
    }

    /// Validate IDTP frame integrity. `CRC` & `HMAC` calculation is software-based.
    ///
    /// Does what `validate_with` does with the software CRC-8/AUTOSAR,
    /// CRC-32/AUTOSAR and HMAC-SHA256 under `key`. In Secure mode a missing
    /// key is an `InvalidHMacKey`.
    pub fn validate(buffer: &[u8], key: Option<&[u8]>) -> (r: IdtpResult<()>)
        ensures
            r == validate_outcome(buffer@, sw_validate_checks(buffer@, key_bytes(key))),
    {
        Self::validate_with(buffer, sw_crc8, sw_crc32, sw_hmac_closure(key))
    }

    /// Validate IDTP frame integrity with custom `CRC` and `HMAC` calculation.
    /// Recommended to use if hardware acceleration for `CRC`/`HMAC` available.
    ///
    /// The steps, in order: `BufferUnderflow` if `buffer` holds no header;
    /// `InvalidCrc` if `calc_crc8`, handed the first 19 bytes, does not give
    /// the 20th; `InvalidCrc` if the mode byte names no mode;
    /// `BufferUnderflow` if `buffer` is shorter than the frame that the
    /// header declares; in Safety mode `InvalidCrc` if the trailer is not the
    /// little-endian form of what `calc_crc32` gives for header and payload;
    /// in Secure mode `InvalidHMac` if the trailer is not what `calc_hmac`
    /// gives for them. An error of a primitive is returned as it is. The
    /// preamble and the version are not looked at.
    pub fn validate_with<C8, C32, H>(
        buffer: &[u8],
        calc_crc8: C8,
        calc_crc32: C32,
        calc_hmac: H,
    ) -> (r: IdtpResult<()>) where
        C8: FnOnce(&[u8]) -> IdtpResult<u8>,
        C32: FnOnce(&[u8]) -> IdtpResult<u32>,
        H: FnOnce(&[u8]) -> IdtpResult<[u8; 32]>,

        requires
            forall|data: &[u8]| #[trigger] calc_crc8.requires((data,)),
            forall|data: &[u8]| #[trigger] calc_crc32.requires((data,)),
            forall|data: &[u8]| #[trigger] calc_hmac.requires((data,)),
        ensures
            exists|checks: Checks| #[trigger]
                validate_checks_from(buffer@, calc_crc8, calc_crc32, calc_hmac, checks) && r
                    == validate_outcome(buffer@, checks),
    {
        let ghost bytes = buffer@;
        let ghost idle = Checks {
            crc8: Err(IdtpError::ParseError),
            crc32: Err(IdtpError::ParseError),
            hmac: Err(IdtpError::ParseError),
        };
        if buffer.len() < IDTP_HEADER_SIZE {
            assert(validate_checks_from(bytes, calc_crc8, calc_crc32, calc_hmac, idle));
            return Err(IdtpError::BufferUnderflow);
        }
        // Checking CRC-8 of IDTP header.

        let received_crc8: u8 = buffer[19];
        let crc8_result = calc_crc8(&buffer[0..19]);
        let ghost after_crc8 = Checks { crc8: crc8_result, ..idle };
        let computed_crc8: u8 = match crc8_result {
            Ok(crc8) => crc8,
            Err(e) => {
                assert(validate_checks_from(bytes, calc_crc8, calc_crc32, calc_hmac, after_crc8));
                return Err(e);
            },
        };
        if received_crc8 != computed_crc8 {
            assert(validate_checks_from(bytes, calc_crc8, calc_crc32, calc_hmac, after_crc8));
            return Err(IdtpError::InvalidCrc);
        }
        // Checking size.

        let header = match IdtpHeader::from_wire(buffer) {
            Some(header) => header,
            None => {
                return Err(IdtpError::ParseError);
            },
        };
        let payload_size: usize = header.payload_size as usize;
        let mode = header.operating_mode();
        if let IdtpMode::Unknown = mode {
            assert(validate_checks_from(bytes, calc_crc8, calc_crc32, calc_hmac, after_crc8));
            return Err(IdtpError::InvalidCrc);
        }
        let data_size: usize = IDTP_HEADER_SIZE + payload_size;
        let frame_size: usize = data_size + mode.trailer_size();
        if buffer.len() < frame_size {
            assert(validate_checks_from(bytes, calc_crc8, calc_crc32, calc_hmac, after_crc8));
            return Err(IdtpError::BufferUnderflow);
        }
        // Checking frame trailer.

        match mode {
            IdtpMode::Safety => {
                let crc32_result = calc_crc32(&buffer[0..data_size]);
                let ghost checks = Checks { crc32: crc32_result, ..after_crc8 };
                assert(validate_checks_from(bytes, calc_crc8, calc_crc32, calc_hmac, checks));
                let computed_crc32: u32 = match crc32_result {
                    Ok(crc32) => crc32,
                    Err(e) => {
                        return Err(e);
                    },
                };
                let received_crc32: u32 = u32_from_le(buffer, data_size);
                proof {
                    lemma_le32_round_trip(computed_crc32);
                    lemma_from_le32_round_trip(wire_trailer(bytes));
                    assert(wire_trailer(bytes).subrange(0, 4) =~= wire_trailer(bytes));
                }
                if computed_crc32 != received_crc32 {
                    return Err(IdtpError::InvalidCrc);
                }
            },
            IdtpMode::Secure => {
                let hmac_result = calc_hmac(&buffer[0..data_size]);
                let ghost checks = Checks { hmac: hmac_result, ..after_crc8 };
                assert(validate_checks_from(bytes, calc_crc8, calc_crc32, calc_hmac, checks));
                let computed_hmac: [u8; 32] = match hmac_result {
                    Ok(tag) => tag,
                    Err(e) => {
                        return Err(e);
                    },
                };
                if !bytes_equal(computed_hmac.as_slice(), &buffer[data_size..frame_size]) {
                    return Err(IdtpError::InvalidHMac);
                }
            },
            _ => {
                assert(validate_checks_from(bytes, calc_crc8, calc_crc32, calc_hmac, after_crc8));
            },
        }

        Ok(())
    }

    /// Convert byte slice into IDTP frame. A structural parse: the CRC and
    /// the HMAC are not verified, so untrusted bytes are to be validated first.
    ///
    /// The steps, in order: `BufferUnderflow` if `buffer` holds no header;
    /// `ParseError` if the header names no known mode or declares more than
    /// 972 payload bytes; `BufferUnderflow` if `buffer` is shorter than the
    /// frame that the header declares; `ParseError` if the header does not
    /// carry the preamble constant. Otherwise the frame has the header as
    /// received and the payload bytes that follow it.
    pub fn decode(buffer: &[u8]) -> (r: IdtpResult<IdtpFrame>)
        ensures
            match decode_outcome(buffer@) {
                Ok(frame) => r is Ok && r->Ok_0@ == frame,
                Err(e) => r == Err::<IdtpFrame, IdtpError>(e),
            },
    {
        if buffer.len() < IDTP_HEADER_SIZE {
            return Err(IdtpError::BufferUnderflow);
        }
        let header = match IdtpHeader::from_wire(buffer) {
            Some(header) => header,
            None => {
                return Err(IdtpError::ParseError);
            },
        };
        if let IdtpMode::Unknown = header.operating_mode() {
            return Err(IdtpError::ParseError);
        }
        let payload_size: usize = header.payload_size as usize;
        if payload_size > IDTP_PAYLOAD_MAX_SIZE {
            return Err(IdtpError::ParseError);
        }
        let mut idtp = Self::new();
        idtp.set_header(&header);

        let expected_size: usize = IDTP_HEADER_SIZE + payload_size + idtp.trailer_size();
        if buffer.len() < expected_size {
            return Err(IdtpError::BufferUnderflow);
        }
        if header.preamble != IDTP_PREAMBLE {
            return Err(IdtpError::ParseError);
        }
        let payload_begin: usize = IDTP_HEADER_SIZE;
        let payload_end: usize = IDTP_HEADER_SIZE + payload_size;
        let payload = &buffer[payload_begin..payload_end];

        match idtp.set_payload_raw(payload, header.payload_type) {
            Ok(()) => Ok(idtp),
            Err(e) => Err(e),
        }
    }
}

impl<'a> TryFrom<&'a [u8]> for IdtpFrame {
    type Error = IdtpError;

    /// Convert byte slice into IDTP frame: `IdtpFrame::decode`.
    fn try_from(buffer: &'a [u8]) -> (r: Result<Self, IdtpError>)
        ensures
            match decode_outcome(buffer@) {
                Ok(frame) => r is Ok && r->Ok_0@ == frame,
                Err(e) => r == Err::<IdtpFrame, IdtpError>(e),
            },
    {
        let r = IdtpFrame::decode(buffer);
        proof {
            if let Ok(frame) = r {
                let model = decode_outcome(buffer@)->Ok_0;
                let chosen = choose|f: IdtpFrame| f@ == model;
                assert(frame@ == model);
                assert(chosen@ == model);
                assert(chosen.payload@ == frame.payload@);
                assert(chosen.payload =~= frame.payload);
                assert(chosen == frame);
            }
        }
        r
    }
}

impl<'a> vstd::std_specs::convert::TryFromSpecImpl<&'a [u8]> for IdtpFrame {
    open spec fn obeys_try_from_spec() -> bool {
        true
    }

    open spec fn try_from_spec(buffer: &'a [u8]) -> Result<Self, IdtpError> {
        match decode_outcome(buffer@) {
            Ok(frame) => Ok(choose|f: IdtpFrame| f@ == frame),
            Err(e) => Err(e),
        }
    }
}

impl Default for IdtpFrame {
    /// Construct default IDTP frame: a zero header and an empty payload.
    fn default() -> (frame: Self)
        ensures
            frame@ == FrameModel::empty(),
    {
        IdtpFrame::new()
    }
}

} // verus!

//! What the codec guarantees: theorems about the model of packing,
//! validating and decoding. Each is stated over the functions that the
//! contracts of `IdtpFrame` use, so it holds of every call of the codec.

use crate::crypto::{crc32_autosar, crc8_autosar, hmac_sha256};
use crate::header::{
    header_bytes, lemma_header_bytes_fields, lemma_parse_header_bytes, lemma_parse_header_prefix,
    lemma_preamble_bytes, mode_of, parse_header, IdtpHeader, IdtpMode, IDTP_PREAMBLE,
};
use crate::model::{
    decode_outcome, header_decodes, header_measures, pack_outcome, sw_pack_checks, sw_validate_checks,
    validate_outcome, wire_data, wire_data_size, wire_size, wire_trailer, Checks, FrameModel,
    IDTP_FRAME_MAX_SIZE, IDTP_PAYLOAD_MAX_SIZE,
};
use crate::wire::{le32, lemma_le32_round_trip};
use crate::{IdtpError, IdtpResult};
use vstd::prelude::*;

verus! {

/// Whether `wire` starts with the bytes `frame`.
pub open spec fn starts_with(wire: Seq<u8>, frame: Seq<u8>) -> bool {
    frame.len() <= wire.len() && wire.subrange(0, frame.len() as int) == frame
}

/// The header of a packed frame: the frame's header with the computed CRC-8
/// in its CRC byte.
pub open spec fn sealed_header(header: IdtpHeader, crc8: u8) -> IdtpHeader {
    IdtpHeader { crc: crc8, ..header }
}

/// A payload that was set is the payload that the frame holds: setting at most
/// 972 bytes leaves a frame whose payload is those bytes and whose header
/// declares their length and type, all other header fields as before.
pub proof fn lemma_payload_after_set(frame: FrameModel, bytes: Seq<u8>, payload_type: u8)
    requires
        frame.wf(),
        bytes.len() <= IDTP_PAYLOAD_MAX_SIZE,
    ensures
        frame.with_payload(bytes, payload_type).wf(),
        frame.with_payload(bytes, payload_type).payload() == bytes,
        frame.with_payload(bytes, payload_type).payload_size() == bytes.len(),
        frame.with_payload(bytes, payload_type).header == (IdtpHeader {
            payload_type,
            payload_size: bytes.len() as u16,
            ..frame.header
        }),
{
    assert(frame.with_payload(bytes, payload_type).payload() =~= bytes);
}

/// Decoding succeeds exactly on bytes that hold a header which carries the
/// preamble constant, names a known mode and declares at most 972 payload
/// bytes, followed by at least the payload and the trailer that it declares.
pub proof fn lemma_decode_succeeds_exactly(bytes: Seq<u8>)
    ensures
        decode_outcome(bytes) is Ok <==> {
            &&& bytes.len() >= 20
            &&& header_decodes(parse_header(bytes))
            &&& bytes.len() >= wire_size(bytes)
        },
{
}

/// Which error decoding gives. Bytes are too short (`BufferUnderflow`)
/// exactly when they hold no header, or hold a header that declares a frame
/// longer than they are, whatever its preamble. They do not parse
/// (`ParseError`) exactly when the header names no known mode or declares
/// more than 972 payload bytes, whatever their length, or when they hold a
/// whole frame whose header does not carry the preamble constant. There is
/// no other error.
pub proof fn lemma_decode_errors(bytes: Seq<u8>)
    ensures
        decode_outcome(bytes) == Err::<FrameModel, IdtpError>(IdtpError::BufferUnderflow) <==> {
            ||| bytes.len() < 20
            ||| header_measures(parse_header(bytes)) && bytes.len() < wire_size(bytes)
        },
        decode_outcome(bytes) == Err::<FrameModel, IdtpError>(IdtpError::ParseError) <==> {
            &&& bytes.len() >= 20
            &&& {
                ||| !header_measures(parse_header(bytes))
                ||| bytes.len() >= wire_size(bytes) && parse_header(bytes).preamble
                    != IDTP_PREAMBLE
            }
        },
        decode_outcome(bytes) is Err ==> {
            ||| decode_outcome(bytes)->Err_0 == IdtpError::BufferUnderflow
            ||| decode_outcome(bytes)->Err_0 == IdtpError::ParseError
        },
{
}

/// What a decoded frame holds: the header as received, which carries the
/// preamble constant, names a known mode and declares at most 972 bytes, and
/// the payload bytes that follow the header.
pub proof fn lemma_decoded_frame(bytes: Seq<u8>)
    requires
        decode_outcome(bytes) is Ok,
    ensures
        bytes.len() >= wire_size(bytes) >= 20,
        decode_outcome(bytes)->Ok_0.wf(),
        decode_outcome(bytes)->Ok_0.header == parse_header(bytes),
        header_decodes(parse_header(bytes)),
        decode_outcome(bytes)->Ok_0.payload() == bytes.subrange(
            20,
            wire_data_size(bytes) as int,
        ),
{
    let payload = bytes.subrange(20, wire_data_size(bytes) as int);
    let header = parse_header(bytes);
    lemma_payload_after_set(FrameModel::empty().with_header(header), payload, header.payload_type);
}

/// The parts of a packed frame. Where packing succeeds, the result has the
/// frame's size; it starts with the header's wire form, in which the CRC byte
/// is what the CRC-8 primitive returned for the 19 bytes before it; the
/// payload follows; the trailer is as long as the mode asks.
pub proof fn lemma_packed_parts(frame: FrameModel, out_len: nat, checks: Checks, bytes: Seq<u8>)
    requires
        frame.wf(),
        pack_outcome(frame, out_len, checks) == Ok::<Seq<u8>, IdtpError>(bytes),
    ensures
        checks.crc8 is Ok,
        frame.mode() != IdtpMode::Unknown,
        frame.payload_size() <= IDTP_PAYLOAD_MAX_SIZE,
        bytes.len() == 20 + frame.payload_size() + frame.mode().trailer_len(),
        bytes.len() == frame.size() <= out_len,
        bytes.subrange(0, 19) == frame.crc8_input(),
        bytes[19] == checks.crc8->Ok_0,
        bytes.subrange(0, 20) == header_bytes(sealed_header(frame.header, checks.crc8->Ok_0)),
        bytes.subrange(20, frame.data_size() as int) == frame.payload(),
        bytes.subrange(0, frame.data_size() as int) == frame.body(checks.crc8->Ok_0),
        frame.mode() == IdtpMode::Safety ==> bytes.subrange(
            frame.data_size() as int,
            frame.size() as int,
        ) == le32(checks.crc32->Ok_0),
        frame.mode() == IdtpMode::Secure ==> bytes.subrange(
            frame.data_size() as int,
            frame.size() as int,
        ) == checks.hmac->Ok_0@,
{
    let crc8 = checks.crc8->Ok_0;
    let body = frame.body(crc8);
    let sealed = sealed_header(frame.header, crc8);
    lemma_header_bytes_fields(frame.header);
    lemma_header_bytes_fields(sealed);
    assert(body.len() == 20 + frame.payload_size());
    assert(bytes.subrange(0, frame.data_size() as int) =~= body);
    assert(bytes.subrange(0, 19) =~= frame.crc8_input());
    assert(header_bytes(sealed) =~= frame.crc8_input().push(crc8));
    assert(bytes.subrange(0, 20) =~= header_bytes(sealed));
    assert(bytes.subrange(20, frame.data_size() as int) =~= frame.payload());
    if frame.mode() == IdtpMode::Safety {
        assert(bytes.subrange(frame.data_size() as int, frame.size() as int) =~= le32(
            checks.crc32->Ok_0,
        ));
    }
    if frame.mode() == IdtpMode::Secure {
        assert(bytes.subrange(frame.data_size() as int, frame.size() as int)
            =~= checks.hmac->Ok_0@);
    }
}

/// No packed frame is longer than 1024 bytes.
pub proof fn lemma_packed_fits_frame_max(
    frame: FrameModel,
    out_len: nat,
    checks: Checks,
    bytes: Seq<u8>,
)
    requires
        frame.wf(),
        pack_outcome(frame, out_len, checks) == Ok::<Seq<u8>, IdtpError>(bytes),
    ensures
        bytes.len() <= IDTP_FRAME_MAX_SIZE,
{
    lemma_packed_parts(frame, out_len, checks, bytes);
}

/// A packed frame whose header carries the preamble constant starts with the
/// ASCII text "IDTP".
pub proof fn lemma_packed_preamble(frame: FrameModel, out_len: nat, checks: Checks, bytes: Seq<u8>)
    requires
        frame.wf(),
        frame.header.preamble == IDTP_PREAMBLE,
        pack_outcome(frame, out_len, checks) == Ok::<Seq<u8>, IdtpError>(bytes),
    ensures
        bytes.subrange(0, 4) == seq![0x49u8, 0x44u8, 0x54u8, 0x50u8],
{
    lemma_packed_parts(frame, out_len, checks, bytes);
    lemma_header_bytes_fields(frame.header);
    lemma_preamble_bytes();
    assert(bytes.subrange(0, 4) =~= frame.crc8_input().subrange(0, 4));
    assert(frame.crc8_input().subrange(0, 4) =~= header_bytes(frame.header).subrange(0, 4));
}

/// In a frame packed in software, the header's last byte is the
/// CRC-8/AUTOSAR of the 19 bytes before it.
pub proof fn lemma_sw_packed_header_crc(
    frame: FrameModel,
    out_len: nat,
    key: Option<Seq<u8>>,
    bytes: Seq<u8>,
)
    requires
        frame.wf(),
        pack_outcome(frame, out_len, sw_pack_checks(frame, key)) == Ok::<Seq<u8>, IdtpError>(
            bytes,
        ),
    ensures
        bytes[19] == crc8_autosar(bytes.subrange(0, 19)),
{
    lemma_packed_parts(frame, out_len, sw_pack_checks(frame, key), bytes);
}

/// The header that the bytes of a packed frame parse to, and the lengths
/// that it declares.
proof fn lemma_packed_header(
    frame: FrameModel,
    out_len: nat,
    checks: Checks,
    bytes: Seq<u8>,
    wire: Seq<u8>,
)
    requires
        frame.wf(),
        pack_outcome(frame, out_len, checks) == Ok::<Seq<u8>, IdtpError>(bytes),
        starts_with(wire, bytes),
    ensures
        wire.len() >= 20,
        parse_header(wire) == sealed_header(frame.header, checks.crc8->Ok_0),
        wire_data_size(wire) == frame.data_size(),
        wire_size(wire) == frame.size(),
        wire.len() >= wire_size(wire),
        wire.subrange(0, 19) == frame.crc8_input(),
        wire[19] == checks.crc8->Ok_0,
        wire_data(wire) == frame.body(checks.crc8->Ok_0),
        wire_trailer(wire) == bytes.subrange(frame.data_size() as int, frame.size() as int),
        wire.subrange(20, frame.data_size() as int) == frame.payload(),
{
    let sealed = sealed_header(frame.header, checks.crc8->Ok_0);
    lemma_packed_parts(frame, out_len, checks, bytes);
    lemma_parse_header_bytes(sealed);
    lemma_parse_header_prefix(wire);
    assert(wire.subrange(0, 20) =~= bytes.subrange(0, 20));
    assert(wire.subrange(0, 19) =~= bytes.subrange(0, 19));
    assert(wire_data(wire) =~= bytes.subrange(0, frame.data_size() as int));
    assert(wire_trailer(wire) =~= bytes.subrange(frame.data_size() as int, frame.size() as int));
    assert(wire.subrange(20, frame.data_size() as int) =~= bytes.subrange(
        20,
        frame.data_size() as int,
    ));
}

/// Round trip. A frame whose header carries the preamble constant, once
/// packed, decodes to the same header and the same payload; only the
/// header's CRC byte is the computed one. The packed frame may be followed by
/// other bytes.
pub proof fn lemma_decode_inverts_pack(
    frame: FrameModel,
    out_len: nat,
    checks: Checks,
    bytes: Seq<u8>,
    wire: Seq<u8>,
)
    requires
        frame.wf(),
        frame.header.preamble == IDTP_PREAMBLE,
        pack_outcome(frame, out_len, checks) == Ok::<Seq<u8>, IdtpError>(bytes),
        starts_with(wire, bytes),
    ensures
        decode_outcome(wire) is Ok,
        decode_outcome(wire)->Ok_0.wf(),
        decode_outcome(wire)->Ok_0.header == sealed_header(frame.header, checks.crc8->Ok_0),
        decode_outcome(wire)->Ok_0.payload() == frame.payload(),
{
    lemma_packed_header(frame, out_len, checks, bytes, wire);
    let sealed = sealed_header(frame.header, checks.crc8->Ok_0);
    assert(header_decodes(sealed));
    let decoded = decode_outcome(wire)->Ok_0;
    assert(decoded.header == sealed);
    assert(decoded.payload() =~= frame.payload());
}

/// Packing is a function of the frame and of what the primitives return: two
/// packs of one frame, into two buffers that are long enough, return the same
/// result, and on success leave the same bytes at the front of both buffers.
pub proof fn lemma_pack_repeatable(
    frame: FrameModel,
    checks: Checks,
    len1: nat,
    r1: IdtpResult<usize>,
    out1: Seq<u8>,
    len2: nat,
    r2: IdtpResult<usize>,
    out2: Seq<u8>,
)
    requires
        len1 >= frame.size(),
        len2 >= frame.size(),
        crate::frame::packed_as(pack_outcome(frame, len1, checks), r1, out1),
        crate::frame::packed_as(pack_outcome(frame, len2, checks), r2, out2),
    ensures
        r1 == r2,
        r1 is Ok ==> out1.subrange(0, r1->Ok_0 as int) == out2.subrange(0, r2->Ok_0 as int),
{
}

/// Packing succeeds exactly when nothing stands against it: the buffer holds
/// the frame, the header declares at most 972 payload bytes and names a known
/// mode, and the primitives that the mode calls for return a value.
pub proof fn lemma_pack_succeeds(frame: FrameModel, out_len: nat, checks: Checks)
    ensures
        out_len < frame.size() ==> pack_outcome(frame, out_len, checks) == Err::<
            Seq<u8>,
            IdtpError,
        >(IdtpError::BufferUnderflow),
        pack_outcome(frame, out_len, checks) is Ok <==> {
            &&& out_len >= frame.size()
            &&& checks.crc8 is Ok
            &&& frame.payload_size() <= IDTP_PAYLOAD_MAX_SIZE
            &&& frame.mode() != IdtpMode::Unknown
            &&& frame.mode() == IdtpMode::Safety ==> checks.crc32 is Ok
            &&& frame.mode() == IdtpMode::Secure ==> checks.hmac is Ok
        },
{
}

/// In software, packing into a buffer that holds the frame succeeds for every
/// frame that declares at most 972 payload bytes in Lite or Safety mode, and
/// in Secure mode exactly when there is a key.
pub proof fn lemma_sw_pack_succeeds(frame: FrameModel, out_len: nat, key: Option<Seq<u8>>)
    requires
        out_len >= frame.size(),
        frame.payload_size() <= IDTP_PAYLOAD_MAX_SIZE,
        frame.mode() != IdtpMode::Unknown,
    ensures
        pack_outcome(frame, out_len, sw_pack_checks(frame, key)) is Ok <==> (frame.mode()
            == IdtpMode::Secure ==> key is Some),
{
}

/// Validation accepts exactly the bytes that hold a whole frame of a known
/// mode in which the header's CRC byte is what the CRC-8 primitive returned
/// and the trailer is what the mode's primitive returned: the CRC-32
/// little-endian in Safety mode, the tag in Secure mode, nothing in Lite mode.
pub proof fn lemma_validate_accepts_exactly(bytes: Seq<u8>, checks: Checks)
    ensures
        validate_outcome(bytes, checks) is Ok <==> {
            &&& bytes.len() >= 20
            &&& checks.crc8 == Ok::<u8, IdtpError>(bytes[19])
            &&& mode_of(bytes[17]) != IdtpMode::Unknown
            &&& bytes.len() >= wire_size(bytes)
            &&& mode_of(bytes[17]) == IdtpMode::Safety ==> checks.crc32 is Ok && le32(
                checks.crc32->Ok_0,
            ) == wire_trailer(bytes)
            &&& mode_of(bytes[17]) == IdtpMode::Secure ==> checks.hmac is Ok
                && checks.hmac->Ok_0@ == wire_trailer(bytes)
        },
{
}

/// Validation accepts what packing produced, where the primitives return to
/// it what they returned to packing: they are handed the same bytes.
pub proof fn lemma_validate_accepts_packed(
    frame: FrameModel,
    out_len: nat,
    checks: Checks,
    bytes: Seq<u8>,
    wire: Seq<u8>,
)
    requires
        frame.wf(),
        pack_outcome(frame, out_len, checks) == Ok::<Seq<u8>, IdtpError>(bytes),
        starts_with(wire, bytes),
    ensures
        validate_outcome(wire, checks) == Ok::<(), IdtpError>(()),
{
    lemma_packed_header(frame, out_len, checks, bytes, wire);
    lemma_packed_parts(frame, out_len, checks, bytes);
}

/// In software, validation under a key accepts every frame packed under
/// that key.
pub proof fn lemma_sw_validate_accepts_packed(
    frame: FrameModel,
    out_len: nat,
    key: Option<Seq<u8>>,
    bytes: Seq<u8>,
    wire: Seq<u8>,
)
    requires
        frame.wf(),
        pack_outcome(frame, out_len, sw_pack_checks(frame, key)) == Ok::<Seq<u8>, IdtpError>(
            bytes,
        ),
        starts_with(wire, bytes),
    ensures
        sw_validate_checks(wire, key) == sw_pack_checks(frame, key),
        validate_outcome(wire, sw_validate_checks(wire, key)) == Ok::<(), IdtpError>(()),
{
    let checks = sw_pack_checks(frame, key);
    lemma_packed_header(frame, out_len, checks, bytes, wire);
    lemma_validate_accepts_packed(frame, out_len, checks, bytes, wire);
}

/// In software, a change to the header's CRC byte alone is rejected with
/// `InvalidCrc`.
pub proof fn lemma_sw_validate_rejects_changed_header_crc(
    wire: Seq<u8>,
    changed: Seq<u8>,
    key: Option<Seq<u8>>,
)
    requires
        validate_outcome(wire, sw_validate_checks(wire, key)) is Ok,
        changed.len() >= 20,
        changed.subrange(0, 19) == wire.subrange(0, 19),
        changed[19] != wire[19],
    ensures
        validate_outcome(changed, sw_validate_checks(changed, key)) == Err::<(), IdtpError>(
            IdtpError::InvalidCrc,
        ),
{
}

/// In software, a change to the trailer alone is rejected: with `InvalidCrc`
/// in Safety mode, with `InvalidHMac` in Secure mode.
pub proof fn lemma_sw_validate_rejects_changed_trailer(
    wire: Seq<u8>,
    changed: Seq<u8>,
    key: Option<Seq<u8>>,
)
    requires
        validate_outcome(wire, sw_validate_checks(wire, key)) is Ok,
        changed.len() == wire.len(),
        changed.subrange(0, wire_data_size(wire) as int) == wire.subrange(
            0,
            wire_data_size(wire) as int,
        ),
        changed.subrange(wire_data_size(wire) as int, wire_size(wire) as int) != wire.subrange(
            wire_data_size(wire) as int,
            wire_size(wire) as int,
        ),
    ensures
        mode_of(wire[17]) != IdtpMode::Lite,
        mode_of(wire[17]) == IdtpMode::Safety ==> validate_outcome(
            changed,
            sw_validate_checks(changed, key),
        ) == Err::<(), IdtpError>(IdtpError::InvalidCrc),
        mode_of(wire[17]) == IdtpMode::Secure ==> validate_outcome(
            changed,
            sw_validate_checks(changed, key),
        ) == Err::<(), IdtpError>(IdtpError::InvalidHMac),
{
    let n = wire_data_size(wire) as int;
    assert(changed.subrange(0, 20) =~= changed.subrange(0, n).subrange(0, 20));
    assert(wire.subrange(0, 20) =~= wire.subrange(0, n).subrange(0, 20));
    lemma_parse_header_prefix(wire);
    lemma_parse_header_prefix(changed);
    assert(parse_header(changed) == parse_header(wire));
    assert(changed.subrange(0, 19) =~= changed.subrange(0, n).subrange(0, 19));
    assert(wire.subrange(0, 19) =~= wire.subrange(0, n).subrange(0, 19));
    assert(changed[19] == changed.subrange(0, n)[19]);
    assert(wire[19] == wire.subrange(0, n)[19]);
    if mode_of(wire[17]) == IdtpMode::Lite {
        assert(changed.subrange(n, n) =~= wire.subrange(n, n));
    }
}

/// In software, a change to the first 19 header bytes alone is rejected with
/// `InvalidCrc` wherever the CRC-8 of the changed bytes is not that of the
/// bytes as they were.
pub proof fn lemma_sw_validate_rejects_changed_header(
    wire: Seq<u8>,
    changed: Seq<u8>,
    key: Option<Seq<u8>>,
)
    requires
        validate_outcome(wire, sw_validate_checks(wire, key)) is Ok,
        changed.len() >= 20,
        changed[19] == wire[19],
    ensures
        crc8_autosar(changed.subrange(0, 19)) != crc8_autosar(wire.subrange(0, 19))
            ==> validate_outcome(changed, sw_validate_checks(changed, key)) == Err::<
            (),
            IdtpError,
        >(IdtpError::InvalidCrc),
{
}

/// In software, a change to the payload alone is rejected in Safety mode
/// with `InvalidCrc` wherever the CRC-32 of the changed header and payload is
/// not that of the bytes as they were, and in Secure mode with `InvalidHMac`
/// wherever their tag under the key is not. In Lite mode nothing covers the
/// payload, and the changed frame is accepted.
pub proof fn lemma_sw_validate_changed_payload(
    wire: Seq<u8>,
    changed: Seq<u8>,
    key: Option<Seq<u8>>,
)
    requires
        validate_outcome(wire, sw_validate_checks(wire, key)) is Ok,
        changed.len() == wire.len(),
        changed.subrange(0, 20) == wire.subrange(0, 20),
        changed.subrange(wire_data_size(wire) as int, wire_size(wire) as int) == wire.subrange(
            wire_data_size(wire) as int,
            wire_size(wire) as int,
        ),
    ensures
        wire_data(changed).len() == wire_data(wire).len(),
        mode_of(wire[17]) == IdtpMode::Lite ==> validate_outcome(
            changed,
            sw_validate_checks(changed, key),
        ) is Ok,
        mode_of(wire[17]) == IdtpMode::Safety && crc32_autosar(wire_data(changed))
            != crc32_autosar(wire_data(wire)) ==> validate_outcome(
            changed,
            sw_validate_checks(changed, key),
        ) == Err::<(), IdtpError>(IdtpError::InvalidCrc),
        mode_of(wire[17]) == IdtpMode::Secure ==> key is Some,
        mode_of(wire[17]) == IdtpMode::Secure && hmac_sha256(key->0, wire_data(changed))@
            != hmac_sha256(key->0, wire_data(wire))@ ==> validate_outcome(
            changed,
            sw_validate_checks(changed, key),
        ) == Err::<(), IdtpError>(IdtpError::InvalidHMac),
{
    lemma_parse_header_prefix(wire);
    lemma_parse_header_prefix(changed);
    assert(parse_header(changed) == parse_header(wire));
    assert(changed.subrange(0, 19) =~= changed.subrange(0, 20).subrange(0, 19));
    assert(wire.subrange(0, 19) =~= wire.subrange(0, 20).subrange(0, 19));
    assert(changed[19] == changed.subrange(0, 20)[19]);
    assert(wire[19] == wire.subrange(0, 20)[19]);
    lemma_le32_round_trip(crc32_autosar(wire_data(changed)));
    lemma_le32_round_trip(crc32_autosar(wire_data(wire)));
}

/// One changed byte. A frame that software validation accepts, with one byte
/// of it changed (a flipped bit is such a change), is rejected
///
/// - with `InvalidCrc` where the byte is the header's CRC byte, or a byte of
///   the CRC-32 trailer;
/// - with `InvalidHMac` where the byte is a byte of the tag;
/// - with `InvalidCrc` where the byte is one of the first 19, if the CRC-8 of
///   the changed 19 bytes is not that of the 19 as they were;
/// - with `InvalidCrc` (Safety) or `InvalidHMac` (Secure) where the byte is a
///   payload byte, if the CRC-32 or the tag of the changed header and payload
///   is not that of the bytes as they were.
///
/// In Lite mode a changed payload byte is accepted. That the primitives tell
/// the changed bytes from the others is a property of the algorithms, which
/// is not stated here.
pub proof fn lemma_sw_validate_one_changed_byte(
    wire: Seq<u8>,
    index: int,
    value: u8,
    key: Option<Seq<u8>>,
)
    requires
        validate_outcome(wire, sw_validate_checks(wire, key)) is Ok,
        0 <= index < wire_size(wire),
        value != wire[index],
    ensures
        ({
            let changed = wire.update(index, value);
            let after = validate_outcome(changed, sw_validate_checks(changed, key));
            let mode = mode_of(wire[17]);
            let data_size = wire_data_size(wire) as int;
            let crc = Err::<(), IdtpError>(IdtpError::InvalidCrc);
            let mac = Err::<(), IdtpError>(IdtpError::InvalidHMac);
            &&& index < 19 && crc8_autosar(changed.subrange(0, 19)) != crc8_autosar(
                wire.subrange(0, 19),
            ) ==> after == crc
            &&& index == 19 ==> after == crc
            &&& 20 <= index < data_size && mode == IdtpMode::Lite ==> after is Ok
            &&& 20 <= index < data_size && mode == IdtpMode::Safety && crc32_autosar(
                changed.subrange(0, data_size),
            ) != crc32_autosar(wire.subrange(0, data_size)) ==> after == crc
            &&& 20 <= index < data_size && mode == IdtpMode::Secure && hmac_sha256(
                key->0,
                changed.subrange(0, data_size),
            )@ != hmac_sha256(key->0, wire.subrange(0, data_size))@ ==> after == mac
            &&& data_size <= index && mode == IdtpMode::Safety ==> after == crc
            &&& data_size <= index && mode == IdtpMode::Secure ==> after == mac
        }),
{
    let changed = wire.update(index, value);
    let data_size = wire_data_size(wire) as int;
    let size = wire_size(wire) as int;
    if index < 19 {
        lemma_sw_validate_rejects_changed_header(wire, changed, key);
    } else if index == 19 {
        assert(changed.subrange(0, 19) =~= wire.subrange(0, 19));
        lemma_sw_validate_rejects_changed_header_crc(wire, changed, key);
    } else if index < data_size {
        assert(changed.subrange(0, 20) =~= wire.subrange(0, 20));
        assert(changed.subrange(data_size, size) =~= wire.subrange(data_size, size));
        lemma_parse_header_prefix(wire);
        lemma_parse_header_prefix(changed);
        lemma_sw_validate_changed_payload(wire, changed, key);
    } else {
        assert(changed.subrange(0, data_size) =~= wire.subrange(0, data_size));
        assert(changed.subrange(data_size, size)[index - data_size] != wire.subrange(
            data_size,
            size,
        )[index - data_size]);
        lemma_sw_validate_rejects_changed_trailer(wire, changed, key);
    }
}

/// Secure mode needs a key. In software, packing a Secure frame without a
/// key fails with `InvalidHMacKey` once the buffer and the payload size were
/// found in order.
pub proof fn lemma_sw_pack_secure_without_key(frame: FrameModel, out_len: nat)
    requires
        frame.mode() == IdtpMode::Secure,
        out_len >= frame.size(),
        frame.payload_size() <= IDTP_PAYLOAD_MAX_SIZE,
    ensures
        pack_outcome(frame, out_len, sw_pack_checks(frame, None)) == Err::<Seq<u8>, IdtpError>(
            IdtpError::InvalidHMacKey,
        ),
{
}

/// Secure mode needs a key. In software, a whole Secure frame validated
/// without a key is never accepted: it fails with `InvalidCrc` where the
/// header CRC is wrong, and with `InvalidHMacKey` where it is right.
pub proof fn lemma_sw_validate_secure_without_key(bytes: Seq<u8>)
    requires
        bytes.len() >= 20,
        bytes[17] == 2,
        bytes.len() >= wire_size(bytes),
    ensures
        validate_outcome(bytes, sw_validate_checks(bytes, None)) == Err::<(), IdtpError>(
            if bytes[19] == crc8_autosar(bytes.subrange(0, 19)) {
                IdtpError::InvalidHMacKey
            } else {
                IdtpError::InvalidCrc
            },
        ),
{
}

/// A mode byte that names no mode fails validation with `InvalidCrc`,
/// whatever else the bytes hold, once there are the 20 of a header and the
/// CRC-8 primitive returned a value.
pub proof fn lemma_validate_unknown_mode(bytes: Seq<u8>, checks: Checks)
    requires
        bytes.len() >= 20,
        bytes[17] != 0 && bytes[17] != 1 && bytes[17] != 2,
        checks.crc8 is Ok,
    ensures
        validate_outcome(bytes, checks) == Err::<(), IdtpError>(IdtpError::InvalidCrc),
{
}

/// In software, a mode byte that names no mode fails validation with
/// `InvalidCrc` under every key.
pub proof fn lemma_sw_validate_unknown_mode(bytes: Seq<u8>, key: Option<Seq<u8>>)
    requires
        bytes.len() >= 20,
        bytes[17] != 0 && bytes[17] != 1 && bytes[17] != 2,
    ensures
        validate_outcome(bytes, sw_validate_checks(bytes, key)) == Err::<(), IdtpError>(
            IdtpError::InvalidCrc,
        ),
{
}

} // verus!

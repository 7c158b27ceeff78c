//! Software integrity primitives: CRC-8/AUTOSAR, CRC-32/AUTOSAR and
//! HMAC-SHA256.
//!
//! The three algorithms are computed by the `crc`, `hmac` and `sha2` crates.
//! Their results are not defined here: each has a name, and the functions of
//! this module say which name a call computes. What is proved about frames
//! packed and validated in software holds for whatever functions of the
//! input bytes those names stand for.

use crate::{IdtpError, IdtpResult};
use crc::{Crc, CRC_32_AUTOSAR, CRC_8_AUTOSAR};
use hmac::{Hmac, Mac};
use sha2::Sha256;
use vstd::prelude::*;

verus! {

/// The CRC-8/AUTOSAR checksum of a byte run (polynomial `0x2F`, initial value
/// `0xFF`, no reflection, final xor `0xFF`).
pub uninterp spec fn crc8_autosar(data: Seq<u8>) -> u8;

/// The CRC-32/AUTOSAR checksum of a byte run (polynomial `0xF4ACFB13`,
/// initial value `0xFFFFFFFF`, input and output reflected, final xor
/// `0xFFFFFFFF`).
pub uninterp spec fn crc32_autosar(data: Seq<u8>) -> u32;

/// The HMAC-SHA256 tag of a byte run under a key.
pub uninterp spec fn hmac_sha256(key: Seq<u8>, data: Seq<u8>) -> [u8; 32];

/// The error with which the `hmac` crate rejects a key by its length.
#[verifier::external_type_specification]
#[verifier::external_body]
pub struct ExInvalidLength(hmac::digest::InvalidLength);

/// Calls `crc::Crc::<u8>::new(&CRC_8_AUTOSAR).checksum(data)`.
///
/// Trusted: the result is the CRC-8/AUTOSAR checksum of `data`, a function
/// of the bytes alone.
#[verifier::external_body]
fn crc8_autosar_checksum(data: &[u8]) -> (sum: u8)
    ensures
        sum == crc8_autosar(data@),
{
    Crc::<u8>::new(&CRC_8_AUTOSAR).checksum(data)
}

/// Calls `crc::Crc::<u32>::new(&CRC_32_AUTOSAR).checksum(data)`.
///
/// Trusted: the result is the CRC-32/AUTOSAR checksum of `data`, a function
/// of the bytes alone.
#[verifier::external_body]
fn crc32_autosar_checksum(data: &[u8]) -> (sum: u32)
    ensures
        sum == crc32_autosar(data@),
{
    Crc::<u32>::new(&CRC_32_AUTOSAR).checksum(data)
}

/// Computes a tag with `hmac::Hmac::<sha2::Sha256>`: `new_from_slice(key)`,
/// `update(data)`, `finalize().into_bytes()`.
///
/// Trusted: `new_from_slice` accepts a key of any length (a key longer than
/// the hash's block is hashed first, a shorter one is padded with zeros), so
/// the call succeeds; the tag is the HMAC-SHA256 of `data` under `key`, a
/// function of the two byte runs alone.
#[verifier::external_body]
fn hmac_sha256_tag(key: &[u8], data: &[u8]) -> (r: Result<[u8; 32], hmac::digest::InvalidLength>)
    ensures
        r is Ok,
        r->Ok_0 == hmac_sha256(key@, data@),
{
    let mut mac = Hmac::<Sha256>::new_from_slice(key)?;
    mac.update(data);
    Ok(mac.finalize().into_bytes().into())
}

/// The key bytes behind an optional key.
pub open spec fn key_bytes(key: Option<&[u8]>) -> Option<Seq<u8>> {
    match key {
        Some(k) => Some(k@),
        None => None,
    }
}

/// What the software HMAC gives for a byte run: the tag under the key, or
/// `InvalidHMacKey` where there is no key.
pub open spec fn sw_hmac_outcome(key: Option<Seq<u8>>, data: Seq<u8>) -> IdtpResult<[u8; 32]> {
    match key {
        Some(k) => Ok(hmac_sha256(k, data)),
        None => Err(IdtpError::InvalidHMacKey),
    }
}

/// Software-based `CRC-8`: never fails.
pub fn sw_crc8(data: &[u8]) -> (r: IdtpResult<u8>)
    ensures
        r == Ok::<u8, IdtpError>(crc8_autosar(data@)),
{
    Ok(crc8_autosar_checksum(data))
}

/// Software-based `CRC-32`: never fails.
pub fn sw_crc32(data: &[u8]) -> (r: IdtpResult<u32>)
    ensures
        r == Ok::<u32, IdtpError>(crc32_autosar(data@)),
{
    Ok(crc32_autosar_checksum(data))
}

/// What the codec makes of the backend's answer: a tag stays a tag, and a
/// key that the backend rejected is an `InvalidHMac`.
pub fn hmac_backend_result(answer: Result<[u8; 32], hmac::digest::InvalidLength>) -> (r: IdtpResult<
    [u8; 32],
>)
    ensures
        answer is Ok ==> r == Ok::<[u8; 32], IdtpError>(answer->Ok_0),
        answer is Err ==> r == Err::<[u8; 32], IdtpError>(IdtpError::InvalidHMac),
{
    match answer {
        Ok(tag) => Ok(tag),
        Err(_) => Err(IdtpError::InvalidHMac),
    }
}

/// Software-based `HMAC-SHA256` of `data` under `key`.
///
/// Without a key the result is `InvalidHMacKey`. The backend takes keys of
/// every length, so with a key the result is the tag.
pub fn sw_hmac(key: Option<&[u8]>, data: &[u8]) -> (r: IdtpResult<[u8; 32]>)
    ensures
        r == sw_hmac_outcome(key_bytes(key), data@),
{
    match key {
        None => Err(IdtpError::InvalidHMacKey),
        Some(k) => hmac_backend_result(hmac_sha256_tag(k, data)),
    }
}

/// Get closure for calculating software-based `HMAC-SHA256` under `key`.
///
/// The closure accepts every byte run and returns what `sw_hmac` returns
/// for it.
pub fn sw_hmac_closure<'a>(key: Option<&'a [u8]>) -> (f: impl FnOnce(&[u8]) -> IdtpResult<
    [u8; 32],
> + 'a)
    ensures
        forall|data: &[u8]| #[trigger] f.requires((data,)),
        forall|data: &[u8], r: IdtpResult<[u8; 32]>| #[trigger]
            f.ensures((data,), r) ==> r == sw_hmac_outcome(key_bytes(key), data@),
{
    move |data: &[u8]| -> (r: IdtpResult<[u8; 32]>)
        ensures
            r == sw_hmac_outcome(key_bytes(key), data@),
        { sw_hmac(key, data) }
}

} // verus!

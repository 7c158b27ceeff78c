//! Little-endian integer layout and byte-run copying.
//!
//! The wire format is little-endian throughout. The byte layout of an integer
//! is defined arithmetically (base-256 digits, least significant first); the
//! executable conversions use shifts and masks and are proved to agree.

use vstd::prelude::*;

verus! {

/// The two bytes of `x`, least significant first.
pub open spec fn le16(x: u16) -> Seq<u8> {
    seq![(x % 256) as u8, (x / 256) as u8]
}

/// The four bytes of `x`, least significant first.
pub open spec fn le32(x: u32) -> Seq<u8> {
    seq![
        (x % 256) as u8,
        ((x / 256) % 256) as u8,
        ((x / 65536) % 256) as u8,
        (x / 16777216) as u8,
    ]
}

/// The integer whose little-endian layout is the first two bytes of `b`.
pub open spec fn from_le16(b: Seq<u8>) -> u16
    recommends
        b.len() >= 2,
{
    (b[0] as int + 256 * (b[1] as int)) as u16
}

/// The integer whose little-endian layout is the first four bytes of `b`.
pub open spec fn from_le32(b: Seq<u8>) -> u32
    recommends
        b.len() >= 4,
{
    (b[0] as int + 256 * (b[1] as int) + 65536 * (b[2] as int) + 16777216 * (b[3] as int)) as u32
}

/// Decoding the layout of a 16-bit integer gives the integer back.
pub proof fn lemma_le16_round_trip(x: u16)
    ensures
        le16(x).len() == 2,
        from_le16(le16(x)) == x,
{
    assert(x % 256 + 256 * (x / 256) == x) by (bit_vector);
}

/// Decoding the layout of a 32-bit integer gives the integer back.
pub proof fn lemma_le32_round_trip(x: u32)
    ensures
        le32(x).len() == 4,
        from_le32(le32(x)) == x,
{
    assert(x % 256 + 256 * ((x / 256) % 256) + 65536 * ((x / 65536) % 256) + 16777216 * (x
        / 16777216) == x) by (bit_vector);
}

/// Laying out a decoded 16-bit integer gives the two bytes back.
pub proof fn lemma_from_le16_round_trip(b: Seq<u8>)
    requires
        b.len() >= 2,
    ensures
        le16(from_le16(b)) == b.subrange(0, 2),
{
    let b0 = b[0];
    let b1 = b[1];
    let x = from_le16(b);
    assert(x == b0 + 256 * b1);
    assert(x % 256 == b0 && x / 256 == b1) by (bit_vector)
        requires
            x == b0 + 256 * b1,
    ;
    assert(le16(x) =~= b.subrange(0, 2));
}

/// Laying out a decoded 32-bit integer gives the four bytes back.
pub proof fn lemma_from_le32_round_trip(b: Seq<u8>)
    requires
        b.len() >= 4,
    ensures
        le32(from_le32(b)) == b.subrange(0, 4),
{
    let b0 = b[0];
    let b1 = b[1];
    let b2 = b[2];
    let b3 = b[3];
    let x = from_le32(b);
    assert(x == b0 + 256 * b1 + 65536 * b2 + 16777216 * b3);
    assert(x % 256 == b0 && (x / 256) % 256 == b1 && (x / 65536) % 256 == b2 && x / 16777216
        == b3) by (bit_vector)
        requires
            x == b0 + 256 * b1 + 65536 * b2 + 16777216 * b3,
    ;
    assert(le32(x) =~= b.subrange(0, 4));
}

/// Little-endian bytes of a 16-bit integer.
pub fn u16_to_le(x: u16) -> (out: [u8; 2])
    ensures
        out@ == le16(x),
{
    let b0: u8 = (x & 0xff) as u8;
    let b1: u8 = (x >> 8) as u8;
    assert(x & 0xff == x % 256) by (bit_vector);
    assert(x >> 8 == x / 256) by (bit_vector);
    let out: [u8; 2] = [b0, b1];
    assert(out@ =~= le16(x));
    out
}

/// Little-endian bytes of a 32-bit integer.
pub fn u32_to_le(x: u32) -> (out: [u8; 4])
    ensures
        out@ == le32(x),
{
    let b0: u8 = (x & 0xff) as u8;
    let b1: u8 = ((x >> 8) & 0xff) as u8;
    let b2: u8 = ((x >> 16) & 0xff) as u8;
    let b3: u8 = (x >> 24) as u8;
    assert(x & 0xff == x % 256) by (bit_vector);
    assert((x >> 8) & 0xff == (x / 256) % 256) by (bit_vector);
    assert((x >> 16) & 0xff == (x / 65536) % 256) by (bit_vector);
    assert(x >> 24 == x / 16777216) by (bit_vector);
    let out: [u8; 4] = [b0, b1, b2, b3];
    assert(out@ =~= le32(x));
    out
}

/// The 16-bit integer laid out at `data[at..at + 2]`.
pub fn u16_from_le(data: &[u8], at: usize) -> (x: u16)
    requires
        at + 2 <= data@.len(),
    ensures
        x == from_le16(data@.subrange(at as int, at + 2)),
{
    let b0: u16 = data[at] as u16;
    let b1: u16 = data[at + 1] as u16;
    assert(b0 | (b1 << 8) == b0 + 256 * b1) by (bit_vector)
        requires
            b0 < 256,
            b1 < 256,
    ;
    b0 | (b1 << 8)
}

/// The 32-bit integer laid out at `data[at..at + 4]`.
pub fn u32_from_le(data: &[u8], at: usize) -> (x: u32)
    requires
        at + 4 <= data@.len(),
    ensures
        x == from_le32(data@.subrange(at as int, at + 4)),
{
    let b0: u32 = data[at] as u32;
    let b1: u32 = data[at + 1] as u32;
    let b2: u32 = data[at + 2] as u32;
    let b3: u32 = data[at + 3] as u32;
    assert(b0 | (b1 << 8) | (b2 << 16) | (b3 << 24) == b0 + 256 * b1 + 65536 * b2 + 16777216 * b3)
        by (bit_vector)
        requires
            b0 < 256,
            b1 < 256,
            b2 < 256,
            b3 < 256,
    ;
    b0 | (b1 << 8) | (b2 << 16) | (b3 << 24)
}

/// `dst` with the run `src` written over it from index `at` on.
pub open spec fn overwrite(dst: Seq<u8>, at: int, src: Seq<u8>) -> Seq<u8>
    recommends
        0 <= at,
        at + src.len() <= dst.len(),
{
    Seq::new(
        dst.len(),
        |i: int|
            if at <= i < at + src.len() {
                src[i - at]
            } else {
                dst[i]
            },
    )
}

/// Copies `src` into `dst[at..at + src.len()]` and leaves the rest of `dst`
/// as it was.
pub fn copy_into(dst: &mut [u8], at: usize, src: &[u8])
    requires
        at + src@.len() <= old(dst)@.len(),
    ensures
        final(dst)@ == overwrite(old(dst)@, at as int, src@),
{
    let n: usize = src.len();
    let mut i: usize = 0;
    assert(dst@.len() == dst.len());
    while i < n
        invariant
            n == src@.len(),
            i <= n,
            at + n <= dst@.len() <= usize::MAX,
            dst@.len() == old(dst)@.len(),
            forall|k: int| 0 <= k < dst@.len() ==> #[trigger] dst@[k] == (if at <= k < at + i {
                src@[k - at]
            } else {
                old(dst)@[k]
            }),
        decreases n - i,
    {
        dst[at + i] = src[i];
        i += 1;
    }
    assert(dst@ =~= overwrite(old(dst)@, at as int, src@));
}

/// Whether two byte runs hold the same bytes.
pub fn bytes_equal(a: &[u8], b: &[u8]) -> (same: bool)
    ensures
        same <==> a@ == b@,
{
    if a.len() != b.len() {
        return false;
    }
    let n: usize = a.len();
    let mut i: usize = 0;
    while i < n
        invariant
            n == a@.len(),
            n == b@.len(),
            i <= n,
            a@.subrange(0, i as int) == b@.subrange(0, i as int),
        decreases n - i,
    {
        if a[i] != b[i] {
            return false;
        }
        i += 1;
        assert(a@.subrange(0, i as int) =~= a@.subrange(0, i - 1).push(a@[i - 1]));
        assert(b@.subrange(0, i as int) =~= b@.subrange(0, i - 1).push(b@[i - 1]));
    }
    assert(a@ =~= a@.subrange(0, n as int));
    assert(b@ =~= b@.subrange(0, n as int));
    true
}

} // verus!

//! Standard payload types.
//!
//! A payload is a fixed-layout record with an 8-bit type identifier. The
//! standard records are made of 32-bit readings. The codec never computes
//! with a reading: a record holds each one as the 32 bits of its IEEE-754
//! single-precision form, and the wire carries those bits little-endian.

use crate::wire::{from_le32, le32, u32_from_le, u32_to_le};
use crate::wire::lemma_le32_round_trip;
use crate::{IdtpData, IdtpError};
use vstd::prelude::*;

verus! {

/// Whether `T::read_from_prefix`, handed the bytes `data`, can have returned
/// `got`.
pub open spec fn prefix_read<T: IdtpData>(data: Seq<u8>, got: Option<T>) -> bool {
    exists|s: &[u8]| s@ == data && #[trigger] call_ensures(T::read_from_prefix, (s,), got)
}

/// Whether `T::from_bytes`, handed the bytes `data`, can have returned `got`.
pub open spec fn record_read<T: IdtpPayload>(data: Seq<u8>, got: Result<T, IdtpError>) -> bool {
    exists|s: &[u8]| s@ == data && #[trigger] call_ensures(T::from_bytes, (s,), got)
}

/// Trait that **RECOMMENDED** to be used for IDTP payload.
///
/// What is stated of the four methods holds of their bodies as given here; a
/// type that writes its own states what it likes.
pub trait IdtpPayload: Sized + IdtpData {
    /// Payload type identifier: the byte that names the payload kind on the
    /// wire.
    const TYPE_ID: u8;

    /// Get payload size in bytes.
    #[inline]
    fn size(&self) -> (n: usize)
        default_ensures
            n == Self::SIZE,
    {
        Self::SIZE
    }

    /// Get payload type identifier.
    #[inline]
    #[must_use]
    fn payload_type() -> (id: u8)
        default_ensures
            id == Self::TYPE_ID,
    {
        Self::TYPE_ID
    }

    /// Construct payload from raw bytes: `BufferUnderflow` for a run shorter
    /// than the record, else the record that `read_from_prefix` finds at the
    /// front of `data`, or `ParseError` where it finds none.
    fn from_bytes(data: &[u8]) -> (r: Result<Self, IdtpError>)
        default_ensures
            data@.len() < Self::SIZE ==> r == Err::<Self, IdtpError>(IdtpError::BufferUnderflow),
            data@.len() >= Self::SIZE ==> exists|got: Option<Self>| #[trigger]
                prefix_read::<Self>(data@, got) && r == (match got {
                    Some(payload) => Ok::<Self, IdtpError>(payload),
                    None => Err::<Self, IdtpError>(IdtpError::ParseError),
                }),
    {
        if data.len() < Self::SIZE {
            return Err(IdtpError::BufferUnderflow);
        }
        let got = Self::read_from_prefix(data);
        assert(prefix_read::<Self>(data@, got));
        if let Some(payload) = got {
            Ok(payload)
        } else {
            Err(IdtpError::ParseError)
        }
    }

    /// Convert payload to bytes: what `as_bytes` gives.
    #[inline]
    fn to_bytes(&self) -> (out: Vec<u8>)
        default_ensures
            call_ensures(Self::as_bytes, (self,), out),
    {
        self.as_bytes()
    }
}

/// Trait for converting payload to metrics array.
pub trait AsMetricsArray<const N: usize> {
    /// Convert metrics to a fixed-size array: the readings of the record, in
    /// the order of its layout.
    fn to_array(&self) -> [u32; N];
}

/// Enumeration of standard payload types.
#[derive(Debug, Clone, Copy, PartialEq, Eq, Structural)]
pub enum PayloadType {
    /// Accelerometer only (for 3-axis sensor).
    Imu3Acc,
    /// Gyroscope only (for 3-axis sensor).
    Imu3Gyr,
    /// Magnetometer only (for 3-axis sensor).
    Imu3Mag,
    /// Accelerometer + Gyroscope readings (for 6-axis sensor).
    Imu6,
    /// Accelerometer + Gyroscope + Magnetometer readings
    /// (for 9-axis sensor).
    Imu9,
    /// Accelerometer + Gyroscope + Magnetometer + Barometer readings
    /// (for 10-axis sensor).
    Imu10,
    /// Attitude. Hamiltonian Quaternion (w, x, y, z).
    /// **MUST** be normalized.
    ImuQuat,
}

impl PayloadType {
    /// The identifier that stands for the payload type on the wire.
    pub open spec fn id(self) -> u8 {
        match self {
            PayloadType::Imu3Acc => 0x00,
            PayloadType::Imu3Gyr => 0x01,
            PayloadType::Imu3Mag => 0x02,
            PayloadType::Imu6 => 0x03,
            PayloadType::Imu9 => 0x04,
            PayloadType::Imu10 => 0x05,
            PayloadType::ImuQuat => 0x06,
        }
    }
}

impl From<PayloadType> for u8 {
    /// The identifier that stands for the payload type on the wire.
    fn from(kind: PayloadType) -> (id: Self) {
        match kind {
            PayloadType::Imu3Acc => 0x00,
            PayloadType::Imu3Gyr => 0x01,
            PayloadType::Imu3Mag => 0x02,
            PayloadType::Imu6 => 0x03,
            PayloadType::Imu9 => 0x04,
            PayloadType::Imu10 => 0x05,
            PayloadType::ImuQuat => 0x06,
        }
    }
}

impl vstd::std_specs::convert::FromSpecImpl<PayloadType> for u8 {
    open spec fn obeys_from_spec() -> bool {
        true
    }

    open spec fn from_spec(kind: PayloadType) -> Self {
        kind.id()
    }
}

/// Appends the little-endian bytes of `x` to `out`.
fn push_u32_le(out: &mut Vec<u8>, x: u32)
    ensures
        final(out)@ == old(out)@ + le32(x),
{
    let b = u32_to_le(x);
    out.push(b[0]);
    out.push(b[1]);
    out.push(b[2]);
    out.push(b[3]);
    assert(out@ =~= old(out)@ + le32(x));
}

/// Accelerometer only (for 3-axis sensor). Each reading is held as the bits
/// of its single-precision value.
#[derive(Debug, Default, Clone, Copy, PartialEq, Eq, Structural)]
pub struct Imu3Acc {
    /// Acceleration along the X-axis in
    /// meters per second squared (`m/s²`).
    pub acc_x: u32,
    /// Acceleration along the Y-axis in
    /// meters per second squared (`m/s²`).
    pub acc_y: u32,
    /// Acceleration along the Z-axis in
    /// meters per second squared (`m/s²`).
    pub acc_z: u32,
}

impl Imu3Acc {
    /// The 12 bytes that stand for the record: its fields in order, each
    /// reading little-endian.
    pub open spec fn layout(&self) -> Seq<u8> {
        le32(self.acc_x) + le32(self.acc_y) + le32(self.acc_z)
    }

    /// The 3 readings of the record, in the order of its layout.
    pub open spec fn readings(&self) -> Seq<u32> {
        seq![self.acc_x, self.acc_y, self.acc_z]
    }

    /// The record that the first 12 bytes of `bytes` lay out.
    pub open spec fn from_layout(bytes: Seq<u8>) -> Self
        recommends
            bytes.len() >= 12,
    {
        Imu3Acc {
            acc_x: from_le32(bytes.subrange(0, 4)),
            acc_y: from_le32(bytes.subrange(4, 8)),
            acc_z: from_le32(bytes.subrange(8, 12)),
        }
    }

    /// The record that `bytes` start with, if they are long enough.
    pub open spec fn parse(bytes: Seq<u8>) -> Option<Self> {
        if bytes.len() >= 12 {
            Some(Self::from_layout(bytes))
        } else {
            None
        }
    }

    /// The layout has 12 bytes, and reading it gives the record back.
    pub proof fn lemma_layout_round_trip(self)
        ensures
            self.layout().len() == 12,
            Self::from_layout(self.layout()) == self,
            Self::parse(self.layout()) == Some(self),
    {
        lemma_le32_round_trip(self.acc_x);
        assert(self.layout().subrange(0, 4) =~= le32(self.acc_x));
        lemma_le32_round_trip(self.acc_y);
        assert(self.layout().subrange(4, 8) =~= le32(self.acc_y));
        lemma_le32_round_trip(self.acc_z);
        assert(self.layout().subrange(8, 12) =~= le32(self.acc_z));
    }

    /// Only the first 12 bytes are read.
    pub proof fn lemma_from_layout_prefix(bytes: Seq<u8>, n: nat)
        requires
            12 <= n <= bytes.len(),
        ensures
            Self::from_layout(bytes.subrange(0, n as int)) == Self::from_layout(bytes),
    {
        assert(bytes.subrange(0, n as int).subrange(0, 4) =~= bytes.subrange(0, 4));
        assert(bytes.subrange(0, n as int).subrange(4, 8) =~= bytes.subrange(4, 8));
        assert(bytes.subrange(0, n as int).subrange(8, 12) =~= bytes.subrange(8, 12));
    }

    /// Appends the record's bytes to `out`.
    pub fn write_to(&self, out: &mut Vec<u8>)
        ensures
            final(out)@ == old(out)@ + self.layout(),
    {
        push_u32_le(out, self.acc_x);
        push_u32_le(out, self.acc_y);
        push_u32_le(out, self.acc_z);
        assert(out@ =~= old(out)@ + self.layout());
    }

    /// Reads the record laid out at `data[at..at + 12]`.
    pub fn read_at(data: &[u8], at: usize) -> (r: Self)
        requires
            at + 12 <= data@.len(),
        ensures
            r == Self::from_layout(data@.subrange(at as int, at + 12)),
    {
        let ghost run = data@.subrange(at as int, at + 12);
        assert(data@.len() == data.len());
        assert(run.subrange(0, 4) =~= data@.subrange(at as int, at + 4));
        assert(run.subrange(4, 8) =~= data@.subrange(at + 4, at + 8));
        assert(run.subrange(8, 12) =~= data@.subrange(at + 8, at + 12));
        Imu3Acc {
            acc_x: u32_from_le(data, at),
            acc_y: u32_from_le(data, at + 4),
            acc_z: u32_from_le(data, at + 8),
        }
    }
}

impl IdtpData for Imu3Acc {
    const SIZE: usize = 12;

    /// The 12 bytes that stand for the record.
    fn as_bytes(&self) -> (out: Vec<u8>)
        ensures
            out@ == self.layout(),
    {
        let mut out: Vec<u8> = Vec::new();
        self.write_to(&mut out);
        assert(out@ =~= self.layout());
        out
    }

    /// Reads the record from the first 12 bytes of `bytes`; `None` when
    /// there are fewer.
    fn read_from_prefix(bytes: &[u8]) -> (r: Option<Self>)
        ensures
            r == Self::parse(bytes@),
    {
        if bytes.len() < 12 {
            return None;
        }
        proof {
            Self::lemma_from_layout_prefix(bytes@, 12);
        }
        Some(Self::read_at(bytes, 0))
    }
}

impl IdtpPayload for Imu3Acc {
    const TYPE_ID: u8 = 0x00;
}

impl AsMetricsArray<3> for Imu3Acc {
    /// The 3 readings of the record, in the order of its layout.
    fn to_array(&self) -> (a: [u32; 3])
        ensures
            a@ == self.readings(),
    {
        let a: [u32; 3] = [
            self.acc_x,
            self.acc_y,
            self.acc_z,
        ];
        assert(a@ =~= self.readings());
        a
    }
}

/// Gyroscope only (for 3-axis sensor). Each reading is held as the bits
/// of its single-precision value.
#[derive(Debug, Default, Clone, Copy, PartialEq, Eq, Structural)]
pub struct Imu3Gyr {
    /// Angular velocity along the X-axis in
    /// radians per second (`rad/s`).
    pub gyr_x: u32,
    /// Angular velocity along the Y-axis in
    /// radians per second (`rad/s`).
    pub gyr_y: u32,
    /// Angular velocity along the Z-axis in
    /// radians per second (`rad/s`).
    pub gyr_z: u32,
}

impl Imu3Gyr {
    /// The 12 bytes that stand for the record: its fields in order, each
    /// reading little-endian.
    pub open spec fn layout(&self) -> Seq<u8> {
        le32(self.gyr_x) + le32(self.gyr_y) + le32(self.gyr_z)
    }

    /// The 3 readings of the record, in the order of its layout.
    pub open spec fn readings(&self) -> Seq<u32> {
        seq![self.gyr_x, self.gyr_y, self.gyr_z]
    }

    /// The record that the first 12 bytes of `bytes` lay out.
    pub open spec fn from_layout(bytes: Seq<u8>) -> Self
        recommends
            bytes.len() >= 12,
    {
        Imu3Gyr {
            gyr_x: from_le32(bytes.subrange(0, 4)),
            gyr_y: from_le32(bytes.subrange(4, 8)),
            gyr_z: from_le32(bytes.subrange(8, 12)),
        }
    }

    /// The record that `bytes` start with, if they are long enough.
    pub open spec fn parse(bytes: Seq<u8>) -> Option<Self> {
        if bytes.len() >= 12 {
            Some(Self::from_layout(bytes))
        } else {
            None
        }
    }

    /// The layout has 12 bytes, and reading it gives the record back.
    pub proof fn lemma_layout_round_trip(self)
        ensures
            self.layout().len() == 12,
            Self::from_layout(self.layout()) == self,
            Self::parse(self.layout()) == Some(self),
    {
        lemma_le32_round_trip(self.gyr_x);
        assert(self.layout().subrange(0, 4) =~= le32(self.gyr_x));
        lemma_le32_round_trip(self.gyr_y);
        assert(self.layout().subrange(4, 8) =~= le32(self.gyr_y));
        lemma_le32_round_trip(self.gyr_z);
        assert(self.layout().subrange(8, 12) =~= le32(self.gyr_z));
    }

    /// Only the first 12 bytes are read.
    pub proof fn lemma_from_layout_prefix(bytes: Seq<u8>, n: nat)
        requires
            12 <= n <= bytes.len(),
        ensures
            Self::from_layout(bytes.subrange(0, n as int)) == Self::from_layout(bytes),
    {
        assert(bytes.subrange(0, n as int).subrange(0, 4) =~= bytes.subrange(0, 4));
        assert(bytes.subrange(0, n as int).subrange(4, 8) =~= bytes.subrange(4, 8));
        assert(bytes.subrange(0, n as int).subrange(8, 12) =~= bytes.subrange(8, 12));
    }

    /// Appends the record's bytes to `out`.
    pub fn write_to(&self, out: &mut Vec<u8>)
        ensures
            final(out)@ == old(out)@ + self.layout(),
    {
        push_u32_le(out, self.gyr_x);
        push_u32_le(out, self.gyr_y);
        push_u32_le(out, self.gyr_z);
        assert(out@ =~= old(out)@ + self.layout());
    }

    /// Reads the record laid out at `data[at..at + 12]`.
    pub fn read_at(data: &[u8], at: usize) -> (r: Self)
        requires
            at + 12 <= data@.len(),
        ensures
            r == Self::from_layout(data@.subrange(at as int, at + 12)),
    {
        let ghost run = data@.subrange(at as int, at + 12);
        assert(data@.len() == data.len());
        assert(run.subrange(0, 4) =~= data@.subrange(at as int, at + 4));
        assert(run.subrange(4, 8) =~= data@.subrange(at + 4, at + 8));
        assert(run.subrange(8, 12) =~= data@.subrange(at + 8, at + 12));
        Imu3Gyr {
            gyr_x: u32_from_le(data, at),
            gyr_y: u32_from_le(data, at + 4),
            gyr_z: u32_from_le(data, at + 8),
        }
    }
}

impl IdtpData for Imu3Gyr {
    const SIZE: usize = 12;

    /// The 12 bytes that stand for the record.
    fn as_bytes(&self) -> (out: Vec<u8>)
        ensures
            out@ == self.layout(),
    {
        let mut out: Vec<u8> = Vec::new();
        self.write_to(&mut out);
        assert(out@ =~= self.layout());
        out
    }

    /// Reads the record from the first 12 bytes of `bytes`; `None` when
    /// there are fewer.
    fn read_from_prefix(bytes: &[u8]) -> (r: Option<Self>)
        ensures
            r == Self::parse(bytes@),
    {
        if bytes.len() < 12 {
            return None;
        }
        proof {
            Self::lemma_from_layout_prefix(bytes@, 12);
        }
        Some(Self::read_at(bytes, 0))
    }
}

impl IdtpPayload for Imu3Gyr {
    const TYPE_ID: u8 = 0x01;
}

impl AsMetricsArray<3> for Imu3Gyr {
    /// The 3 readings of the record, in the order of its layout.
    fn to_array(&self) -> (a: [u32; 3])
        ensures
            a@ == self.readings(),
    {
        let a: [u32; 3] = [
            self.gyr_x,
            self.gyr_y,
            self.gyr_z,
        ];
        assert(a@ =~= self.readings());
        a
    }
}

/// Magnetometer only (for 3-axis sensor). Each reading is held as the bits
/// of its single-precision value.
#[derive(Debug, Default, Clone, Copy, PartialEq, Eq, Structural)]
pub struct Imu3Mag {
    /// Magnetic field induction along the X-axis in
    /// microteslas (`μT`).
    pub mag_x: u32,
    /// Magnetic field induction along the Y-axis in
    /// microteslas (`μT`).
    pub mag_y: u32,
    /// Magnetic field induction along the Z-axis in
    /// microteslas (`μT`).
    pub mag_z: u32,
}

impl Imu3Mag {
    /// The 12 bytes that stand for the record: its fields in order, each
    /// reading little-endian.
    pub open spec fn layout(&self) -> Seq<u8> {
        le32(self.mag_x) + le32(self.mag_y) + le32(self.mag_z)
    }

    /// The 3 readings of the record, in the order of its layout.
    pub open spec fn readings(&self) -> Seq<u32> {
        seq![self.mag_x, self.mag_y, self.mag_z]
    }

    /// The record that the first 12 bytes of `bytes` lay out.
    pub open spec fn from_layout(bytes: Seq<u8>) -> Self
        recommends
            bytes.len() >= 12,
    {
        Imu3Mag {
            mag_x: from_le32(bytes.subrange(0, 4)),
            mag_y: from_le32(bytes.subrange(4, 8)),
            mag_z: from_le32(bytes.subrange(8, 12)),
        }
    }

    /// The record that `bytes` start with, if they are long enough.
    pub open spec fn parse(bytes: Seq<u8>) -> Option<Self> {
        if bytes.len() >= 12 {
            Some(Self::from_layout(bytes))
        } else {
            None
        }
    }

    /// The layout has 12 bytes, and reading it gives the record back.
    pub proof fn lemma_layout_round_trip(self)
        ensures
            self.layout().len() == 12,
            Self::from_layout(self.layout()) == self,
            Self::parse(self.layout()) == Some(self),
    {
        lemma_le32_round_trip(self.mag_x);
        assert(self.layout().subrange(0, 4) =~= le32(self.mag_x));
        lemma_le32_round_trip(self.mag_y);
        assert(self.layout().subrange(4, 8) =~= le32(self.mag_y));
        lemma_le32_round_trip(self.mag_z);
        assert(self.layout().subrange(8, 12) =~= le32(self.mag_z));
    }

    /// Only the first 12 bytes are read.
    pub proof fn lemma_from_layout_prefix(bytes: Seq<u8>, n: nat)
        requires
            12 <= n <= bytes.len(),
        ensures
            Self::from_layout(bytes.subrange(0, n as int)) == Self::from_layout(bytes),
    {
        assert(bytes.subrange(0, n as int).subrange(0, 4) =~= bytes.subrange(0, 4));
        assert(bytes.subrange(0, n as int).subrange(4, 8) =~= bytes.subrange(4, 8));
        assert(bytes.subrange(0, n as int).subrange(8, 12) =~= bytes.subrange(8, 12));
    }

    /// Appends the record's bytes to `out`.
    pub fn write_to(&self, out: &mut Vec<u8>)
        ensures
            final(out)@ == old(out)@ + self.layout(),
    {
        push_u32_le(out, self.mag_x);
        push_u32_le(out, self.mag_y);
        push_u32_le(out, self.mag_z);
        assert(out@ =~= old(out)@ + self.layout());
    }

    /// Reads the record laid out at `data[at..at + 12]`.
    pub fn read_at(data: &[u8], at: usize) -> (r: Self)
        requires
            at + 12 <= data@.len(),
        ensures
            r == Self::from_layout(data@.subrange(at as int, at + 12)),
    {
        let ghost run = data@.subrange(at as int, at + 12);
        assert(data@.len() == data.len());
        assert(run.subrange(0, 4) =~= data@.subrange(at as int, at + 4));
        assert(run.subrange(4, 8) =~= data@.subrange(at + 4, at + 8));
        assert(run.subrange(8, 12) =~= data@.subrange(at + 8, at + 12));
        Imu3Mag {
            mag_x: u32_from_le(data, at),
            mag_y: u32_from_le(data, at + 4),
            mag_z: u32_from_le(data, at + 8),
        }
    }
}

impl IdtpData for Imu3Mag {
    const SIZE: usize = 12;

    /// The 12 bytes that stand for the record.
    fn as_bytes(&self) -> (out: Vec<u8>)
        ensures
            out@ == self.layout(),
    {
        let mut out: Vec<u8> = Vec::new();
        self.write_to(&mut out);
        assert(out@ =~= self.layout());
        out
    }

    /// Reads the record from the first 12 bytes of `bytes`; `None` when
    /// there are fewer.
    fn read_from_prefix(bytes: &[u8]) -> (r: Option<Self>)
        ensures
            r == Self::parse(bytes@),
    {
        if bytes.len() < 12 {
            return None;
        }
        proof {
            Self::lemma_from_layout_prefix(bytes@, 12);
        }
        Some(Self::read_at(bytes, 0))
    }
}

impl IdtpPayload for Imu3Mag {
    const TYPE_ID: u8 = 0x02;
}

impl AsMetricsArray<3> for Imu3Mag {
    /// The 3 readings of the record, in the order of its layout.
    fn to_array(&self) -> (a: [u32; 3])
        ensures
            a@ == self.readings(),
    {
        let a: [u32; 3] = [
            self.mag_x,
            self.mag_y,
            self.mag_z,
        ];
        assert(a@ =~= self.readings());
        a
    }
}

/// Accelerometer + Gyroscope readings (for 6-axis sensor).
#[derive(Debug, Default, Clone, Copy, PartialEq, Eq, Structural)]
pub struct Imu6 {
    /// Accelerometer readings along 3 axes.
    pub acc: Imu3Acc,
    /// Gyroscope readings along 3 axes.
    pub gyr: Imu3Gyr,
}

impl Imu6 {
    /// The 24 bytes that stand for the record: its fields in order, each
    /// reading little-endian.
    pub open spec fn layout(&self) -> Seq<u8> {
        self.acc.layout() + self.gyr.layout()
    }

    /// The 6 readings of the record, in the order of its layout.
    pub open spec fn readings(&self) -> Seq<u32> {
        self.acc.readings() + self.gyr.readings()
    }

    /// The record that the first 24 bytes of `bytes` lay out.
    pub open spec fn from_layout(bytes: Seq<u8>) -> Self
        recommends
            bytes.len() >= 24,
    {
        Imu6 {
            acc: Imu3Acc::from_layout(bytes.subrange(0, 12)),
            gyr: Imu3Gyr::from_layout(bytes.subrange(12, 24)),
        }
    }

    /// The record that `bytes` start with, if they are long enough.
    pub open spec fn parse(bytes: Seq<u8>) -> Option<Self> {
        if bytes.len() >= 24 {
            Some(Self::from_layout(bytes))
        } else {
            None
        }
    }

    /// The layout has 24 bytes, and reading it gives the record back.
    pub proof fn lemma_layout_round_trip(self)
        ensures
            self.layout().len() == 24,
            Self::from_layout(self.layout()) == self,
            Self::parse(self.layout()) == Some(self),
    {
        self.acc.lemma_layout_round_trip();
        assert(self.layout().subrange(0, 12) =~= self.acc.layout());
        self.gyr.lemma_layout_round_trip();
        assert(self.layout().subrange(12, 24) =~= self.gyr.layout());
    }

    /// Only the first 24 bytes are read.
    pub proof fn lemma_from_layout_prefix(bytes: Seq<u8>, n: nat)
        requires
            24 <= n <= bytes.len(),
        ensures
            Self::from_layout(bytes.subrange(0, n as int)) == Self::from_layout(bytes),
    {
        assert(bytes.subrange(0, n as int).subrange(0, 12) =~= bytes.subrange(0, 12));
        assert(bytes.subrange(0, n as int).subrange(12, 24) =~= bytes.subrange(12, 24));
    }

    /// Appends the record's bytes to `out`.
    pub fn write_to(&self, out: &mut Vec<u8>)
        ensures
            final(out)@ == old(out)@ + self.layout(),
    {
        self.acc.write_to(out);
        self.gyr.write_to(out);
        assert(out@ =~= old(out)@ + self.layout());
    }

    /// Reads the record laid out at `data[at..at + 24]`.
    pub fn read_at(data: &[u8], at: usize) -> (r: Self)
        requires
            at + 24 <= data@.len(),
        ensures
            r == Self::from_layout(data@.subrange(at as int, at + 24)),
    {
        let ghost run = data@.subrange(at as int, at + 24);
        assert(data@.len() == data.len());
        assert(run.subrange(0, 12) =~= data@.subrange(at as int, at + 12));
        assert(run.subrange(12, 24) =~= data@.subrange(at + 12, at + 24));
        Imu6 {
            acc: Imu3Acc::read_at(data, at),
            gyr: Imu3Gyr::read_at(data, at + 12),
        }
    }
}

impl IdtpData for Imu6 {
    const SIZE: usize = 24;

    /// The 24 bytes that stand for the record.
    fn as_bytes(&self) -> (out: Vec<u8>)
        ensures
            out@ == self.layout(),
    {
        let mut out: Vec<u8> = Vec::new();
        self.write_to(&mut out);
        assert(out@ =~= self.layout());
        out
    }

    /// Reads the record from the first 24 bytes of `bytes`; `None` when
    /// there are fewer.
    fn read_from_prefix(bytes: &[u8]) -> (r: Option<Self>)
        ensures
            r == Self::parse(bytes@),
    {
        if bytes.len() < 24 {
            return None;
        }
        proof {
            Self::lemma_from_layout_prefix(bytes@, 24);
        }
        Some(Self::read_at(bytes, 0))
    }
}

impl IdtpPayload for Imu6 {
    const TYPE_ID: u8 = 0x03;
}

impl AsMetricsArray<6> for Imu6 {
    /// The 6 readings of the record, in the order of its layout.
    fn to_array(&self) -> (a: [u32; 6])
        ensures
            a@ == self.readings(),
    {
        let a: [u32; 6] = [
            self.acc.acc_x,
            self.acc.acc_y,
            self.acc.acc_z,
            self.gyr.gyr_x,
            self.gyr.gyr_y,
            self.gyr.gyr_z,
        ];
        assert(a@ =~= self.readings());
        a
    }
}

/// Accelerometer + Gyroscope + Magnetometer readings
/// (for 9-axis sensor).
#[derive(Debug, Default, Clone, Copy, PartialEq, Eq, Structural)]
pub struct Imu9 {
    /// Accelerometer readings along 3 axes.
    pub acc: Imu3Acc,
    /// Gyroscope readings along 3 axes.
    pub gyr: Imu3Gyr,
    /// Magnetometer readings along 3 axes.
    pub mag: Imu3Mag,
}

impl Imu9 {
    /// The 36 bytes that stand for the record: its fields in order, each
    /// reading little-endian.
    pub open spec fn layout(&self) -> Seq<u8> {
        self.acc.layout() + self.gyr.layout() + self.mag.layout()
    }

    /// The 9 readings of the record, in the order of its layout.
    pub open spec fn readings(&self) -> Seq<u32> {
        self.acc.readings() + self.gyr.readings() + self.mag.readings()
    }

    /// The record that the first 36 bytes of `bytes` lay out.
    pub open spec fn from_layout(bytes: Seq<u8>) -> Self
        recommends
            bytes.len() >= 36,
    {
        Imu9 {
            acc: Imu3Acc::from_layout(bytes.subrange(0, 12)),
            gyr: Imu3Gyr::from_layout(bytes.subrange(12, 24)),
            mag: Imu3Mag::from_layout(bytes.subrange(24, 36)),
        }
    }

    /// The record that `bytes` start with, if they are long enough.
    pub open spec fn parse(bytes: Seq<u8>) -> Option<Self> {
        if bytes.len() >= 36 {
            Some(Self::from_layout(bytes))
        } else {
            None
        }
    }

    /// The layout has 36 bytes, and reading it gives the record back.
    pub proof fn lemma_layout_round_trip(self)
        ensures
            self.layout().len() == 36,
            Self::from_layout(self.layout()) == self,
            Self::parse(self.layout()) == Some(self),
    {
        self.acc.lemma_layout_round_trip();
        assert(self.layout().subrange(0, 12) =~= self.acc.layout());
        self.gyr.lemma_layout_round_trip();
        assert(self.layout().subrange(12, 24) =~= self.gyr.layout());
        self.mag.lemma_layout_round_trip();
        assert(self.layout().subrange(24, 36) =~= self.mag.layout());
    }

    /// Only the first 36 bytes are read.
    pub proof fn lemma_from_layout_prefix(bytes: Seq<u8>, n: nat)
        requires
            36 <= n <= bytes.len(),
        ensures
            Self::from_layout(bytes.subrange(0, n as int)) == Self::from_layout(bytes),
    {
        assert(bytes.subrange(0, n as int).subrange(0, 12) =~= bytes.subrange(0, 12));
        assert(bytes.subrange(0, n as int).subrange(12, 24) =~= bytes.subrange(12, 24));
        assert(bytes.subrange(0, n as int).subrange(24, 36) =~= bytes.subrange(24, 36));
    }

    /// Appends the record's bytes to `out`.
    pub fn write_to(&self, out: &mut Vec<u8>)
        ensures
            final(out)@ == old(out)@ + self.layout(),
    {
        self.acc.write_to(out);
        self.gyr.write_to(out);
        self.mag.write_to(out);
        assert(out@ =~= old(out)@ + self.layout());
    }

    /// Reads the record laid out at `data[at..at + 36]`.
    pub fn read_at(data: &[u8], at: usize) -> (r: Self)
        requires
            at + 36 <= data@.len(),
        ensures
            r == Self::from_layout(data@.subrange(at as int, at + 36)),
    {
        let ghost run = data@.subrange(at as int, at + 36);
        assert(data@.len() == data.len());
        assert(run.subrange(0, 12) =~= data@.subrange(at as int, at + 12));
        assert(run.subrange(12, 24) =~= data@.subrange(at + 12, at + 24));
        assert(run.subrange(24, 36) =~= data@.subrange(at + 24, at + 36));
        Imu9 {
            acc: Imu3Acc::read_at(data, at),
            gyr: Imu3Gyr::read_at(data, at + 12),
            mag: Imu3Mag::read_at(data, at + 24),
        }
    }
}

impl IdtpData for Imu9 {
    const SIZE: usize = 36;

    /// The 36 bytes that stand for the record.
    fn as_bytes(&self) -> (out: Vec<u8>)
        ensures
            out@ == self.layout(),
    {
        let mut out: Vec<u8> = Vec::new();
        self.write_to(&mut out);
        assert(out@ =~= self.layout());
        out
    }

    /// Reads the record from the first 36 bytes of `bytes`; `None` when
    /// there are fewer.
    fn read_from_prefix(bytes: &[u8]) -> (r: Option<Self>)
        ensures
            r == Self::parse(bytes@),
    {
        if bytes.len() < 36 {
            return None;
        }
        proof {
            Self::lemma_from_layout_prefix(bytes@, 36);
        }
        Some(Self::read_at(bytes, 0))
    }
}

impl IdtpPayload for Imu9 {
    const TYPE_ID: u8 = 0x04;
}

impl AsMetricsArray<9> for Imu9 {
    /// The 9 readings of the record, in the order of its layout.
    fn to_array(&self) -> (a: [u32; 9])
        ensures
            a@ == self.readings(),
    {
        let a: [u32; 9] = [
            self.acc.acc_x,
            self.acc.acc_y,
            self.acc.acc_z,
            self.gyr.gyr_x,
            self.gyr.gyr_y,
            self.gyr.gyr_z,
            self.mag.mag_x,
            self.mag.mag_y,
            self.mag.mag_z,
        ];
        assert(a@ =~= self.readings());
        a
    }
}

/// Accelerometer + Gyroscope + Magnetometer + Barometer readings
/// (for 10-axis sensor).
#[derive(Debug, Default, Clone, Copy, PartialEq, Eq, Structural)]
pub struct Imu10 {
    /// Accelerometer readings along 3 axes.
    pub acc: Imu3Acc,
    /// Gyroscope readings along 3 axes.
    pub gyr: Imu3Gyr,
    /// Magnetometer readings along 3 axes.
    pub mag: Imu3Mag,
    /// Atmospheric pressure in Pascals (`Pa`), as the bits of its
    /// single-precision value.
    pub baro: u32,
}

impl Imu10 {
    /// The 40 bytes that stand for the record: its fields in order, each
    /// reading little-endian.
    pub open spec fn layout(&self) -> Seq<u8> {
        self.acc.layout() + self.gyr.layout() + self.mag.layout() + le32(self.baro)
    }

    /// The 10 readings of the record, in the order of its layout.
    pub open spec fn readings(&self) -> Seq<u32> {
        self.acc.readings() + self.gyr.readings() + self.mag.readings() + seq![self.baro]
    }

    /// The record that the first 40 bytes of `bytes` lay out.
    pub open spec fn from_layout(bytes: Seq<u8>) -> Self
        recommends
            bytes.len() >= 40,
    {
        Imu10 {
            acc: Imu3Acc::from_layout(bytes.subrange(0, 12)),
            gyr: Imu3Gyr::from_layout(bytes.subrange(12, 24)),
            mag: Imu3Mag::from_layout(bytes.subrange(24, 36)),
            baro: from_le32(bytes.subrange(36, 40)),
        }
    }

    /// The record that `bytes` start with, if they are long enough.
    pub open spec fn parse(bytes: Seq<u8>) -> Option<Self> {
        if bytes.len() >= 40 {
            Some(Self::from_layout(bytes))
        } else {
            None
        }
    }

    /// The layout has 40 bytes, and reading it gives the record back.
    pub proof fn lemma_layout_round_trip(self)
        ensures
            self.layout().len() == 40,
            Self::from_layout(self.layout()) == self,
            Self::parse(self.layout()) == Some(self),
    {
        self.acc.lemma_layout_round_trip();
        assert(self.layout().subrange(0, 12) =~= self.acc.layout());
        self.gyr.lemma_layout_round_trip();
        assert(self.layout().subrange(12, 24) =~= self.gyr.layout());
        self.mag.lemma_layout_round_trip();
        assert(self.layout().subrange(24, 36) =~= self.mag.layout());
        lemma_le32_round_trip(self.baro);
        assert(self.layout().subrange(36, 40) =~= le32(self.baro));
    }

    /// Only the first 40 bytes are read.
    pub proof fn lemma_from_layout_prefix(bytes: Seq<u8>, n: nat)
        requires
            40 <= n <= bytes.len(),
        ensures
            Self::from_layout(bytes.subrange(0, n as int)) == Self::from_layout(bytes),
    {
        assert(bytes.subrange(0, n as int).subrange(0, 12) =~= bytes.subrange(0, 12));
        assert(bytes.subrange(0, n as int).subrange(12, 24) =~= bytes.subrange(12, 24));
        assert(bytes.subrange(0, n as int).subrange(24, 36) =~= bytes.subrange(24, 36));
        assert(bytes.subrange(0, n as int).subrange(36, 40) =~= bytes.subrange(36, 40));
    }

    /// Appends the record's bytes to `out`.
    pub fn write_to(&self, out: &mut Vec<u8>)
        ensures
            final(out)@ == old(out)@ + self.layout(),
    {
        self.acc.write_to(out);
        self.gyr.write_to(out);
        self.mag.write_to(out);
        push_u32_le(out, self.baro);
        assert(out@ =~= old(out)@ + self.layout());
    }

    /// Reads the record laid out at `data[at..at + 40]`.
    pub fn read_at(data: &[u8], at: usize) -> (r: Self)
        requires
            at + 40 <= data@.len(),
        ensures
            r == Self::from_layout(data@.subrange(at as int, at + 40)),
    {
        let ghost run = data@.subrange(at as int, at + 40);
        assert(data@.len() == data.len());
        assert(run.subrange(0, 12) =~= data@.subrange(at as int, at + 12));
        assert(run.subrange(12, 24) =~= data@.subrange(at + 12, at + 24));
        assert(run.subrange(24, 36) =~= data@.subrange(at + 24, at + 36));
        assert(run.subrange(36, 40) =~= data@.subrange(at + 36, at + 40));
        Imu10 {
            acc: Imu3Acc::read_at(data, at),
            gyr: Imu3Gyr::read_at(data, at + 12),
            mag: Imu3Mag::read_at(data, at + 24),
            baro: u32_from_le(data, at + 36),
        }
    }
}

impl IdtpData for Imu10 {
    const SIZE: usize = 40;

    /// The 40 bytes that stand for the record.
    fn as_bytes(&self) -> (out: Vec<u8>)
        ensures
            out@ == self.layout(),
    {
        let mut out: Vec<u8> = Vec::new();
        self.write_to(&mut out);
        assert(out@ =~= self.layout());
        out
    }

    /// Reads the record from the first 40 bytes of `bytes`; `None` when
    /// there are fewer.
    fn read_from_prefix(bytes: &[u8]) -> (r: Option<Self>)
        ensures
            r == Self::parse(bytes@),
    {
        if bytes.len() < 40 {
            return None;
        }
        proof {
            Self::lemma_from_layout_prefix(bytes@, 40);
        }
        Some(Self::read_at(bytes, 0))
    }
}

impl IdtpPayload for Imu10 {
    const TYPE_ID: u8 = 0x05;
}

impl AsMetricsArray<10> for Imu10 {
    /// The 10 readings of the record, in the order of its layout.
    fn to_array(&self) -> (a: [u32; 10])
        ensures
            a@ == self.readings(),
    {
        let a: [u32; 10] = [
            self.acc.acc_x,
            self.acc.acc_y,
            self.acc.acc_z,
            self.gyr.gyr_x,
            self.gyr.gyr_y,
            self.gyr.gyr_z,
            self.mag.mag_x,
            self.mag.mag_y,
            self.mag.mag_z,
            self.baro,
        ];
        assert(a@ =~= self.readings());
        a
    }
}

/// Attitude. Hamiltonian Quaternion (w, x, y, z).
/// **MUST** be normalized. Each component is held as the bits of its
/// single-precision value.
#[derive(Debug, Default, Clone, Copy, PartialEq, Eq, Structural)]
pub struct ImuQuat {
    /// Scalar component.
    pub w: u32,
    /// Vector X component.
    pub x: u32,
    /// Vector Y component.
    pub y: u32,
    /// Vector Z component.
    pub z: u32,
}

impl ImuQuat {
    /// The 16 bytes that stand for the record: its fields in order, each
    /// reading little-endian.
    pub open spec fn layout(&self) -> Seq<u8> {
        le32(self.w) + le32(self.x) + le32(self.y) + le32(self.z)
    }

    /// The 4 readings of the record, in the order of its layout.
    pub open spec fn readings(&self) -> Seq<u32> {
        seq![self.w, self.x, self.y, self.z]
    }

    /// The record that the first 16 bytes of `bytes` lay out.
    pub open spec fn from_layout(bytes: Seq<u8>) -> Self
        recommends
            bytes.len() >= 16,
    {
        ImuQuat {
            w: from_le32(bytes.subrange(0, 4)),
            x: from_le32(bytes.subrange(4, 8)),
            y: from_le32(bytes.subrange(8, 12)),
            z: from_le32(bytes.subrange(12, 16)),
        }
    }

    /// The record that `bytes` start with, if they are long enough.
    pub open spec fn parse(bytes: Seq<u8>) -> Option<Self> {
        if bytes.len() >= 16 {
            Some(Self::from_layout(bytes))
        } else {
            None
        }
    }

    /// The layout has 16 bytes, and reading it gives the record back.
    pub proof fn lemma_layout_round_trip(self)
        ensures
            self.layout().len() == 16,
            Self::from_layout(self.layout()) == self,
            Self::parse(self.layout()) == Some(self),
    {
        lemma_le32_round_trip(self.w);
        assert(self.layout().subrange(0, 4) =~= le32(self.w));
        lemma_le32_round_trip(self.x);
        assert(self.layout().subrange(4, 8) =~= le32(self.x));
        lemma_le32_round_trip(self.y);
        assert(self.layout().subrange(8, 12) =~= le32(self.y));
        lemma_le32_round_trip(self.z);
        assert(self.layout().subrange(12, 16) =~= le32(self.z));
    }

    /// Only the first 16 bytes are read.
    pub proof fn lemma_from_layout_prefix(bytes: Seq<u8>, n: nat)
        requires
            16 <= n <= bytes.len(),
        ensures
            Self::from_layout(bytes.subrange(0, n as int)) == Self::from_layout(bytes),
    {
        assert(bytes.subrange(0, n as int).subrange(0, 4) =~= bytes.subrange(0, 4));
        assert(bytes.subrange(0, n as int).subrange(4, 8) =~= bytes.subrange(4, 8));
        assert(bytes.subrange(0, n as int).subrange(8, 12) =~= bytes.subrange(8, 12));
        assert(bytes.subrange(0, n as int).subrange(12, 16) =~= bytes.subrange(12, 16));
    }

    /// Appends the record's bytes to `out`.
    pub fn write_to(&self, out: &mut Vec<u8>)
        ensures
            final(out)@ == old(out)@ + self.layout(),
    {
        push_u32_le(out, self.w);
        push_u32_le(out, self.x);
        push_u32_le(out, self.y);
        push_u32_le(out, self.z);
        assert(out@ =~= old(out)@ + self.layout());
    }

    /// Reads the record laid out at `data[at..at + 16]`.
    pub fn read_at(data: &[u8], at: usize) -> (r: Self)
        requires
            at + 16 <= data@.len(),
        ensures
            r == Self::from_layout(data@.subrange(at as int, at + 16)),
    {
        let ghost run = data@.subrange(at as int, at + 16);
        assert(data@.len() == data.len());
        assert(run.subrange(0, 4) =~= data@.subrange(at as int, at + 4));
        assert(run.subrange(4, 8) =~= data@.subrange(at + 4, at + 8));
        assert(run.subrange(8, 12) =~= data@.subrange(at + 8, at + 12));
        assert(run.subrange(12, 16) =~= data@.subrange(at + 12, at + 16));
        ImuQuat {
            w: u32_from_le(data, at),
            x: u32_from_le(data, at + 4),
            y: u32_from_le(data, at + 8),
            z: u32_from_le(data, at + 12),
        }
    }
}

impl IdtpData for ImuQuat {
    const SIZE: usize = 16;

    /// The 16 bytes that stand for the record.
    fn as_bytes(&self) -> (out: Vec<u8>)
        ensures
            out@ == self.layout(),
    {
        let mut out: Vec<u8> = Vec::new();
        self.write_to(&mut out);
        assert(out@ =~= self.layout());
        out
    }

    /// Reads the record from the first 16 bytes of `bytes`; `None` when
    /// there are fewer.
    fn read_from_prefix(bytes: &[u8]) -> (r: Option<Self>)
        ensures
            r == Self::parse(bytes@),
    {
        if bytes.len() < 16 {
            return None;
        }
        proof {
            Self::lemma_from_layout_prefix(bytes@, 16);
        }
        Some(Self::read_at(bytes, 0))
    }
}

impl IdtpPayload for ImuQuat {
    const TYPE_ID: u8 = 0x06;
}

impl AsMetricsArray<4> for ImuQuat {
    /// The 4 readings of the record, in the order of its layout.
    fn to_array(&self) -> (a: [u32; 4])
        ensures
            a@ == self.readings(),
    {
        let a: [u32; 4] = [
            self.w,
            self.x,
            self.y,
            self.z,
        ];
        assert(a@ =~= self.readings());
        a
    }
}

/// Each standard record carries the identifier of its payload type and has
/// the size that goes with it.
pub proof fn lemma_standard_type_ids()
    ensures
        Imu3Acc::TYPE_ID == PayloadType::Imu3Acc.id() && Imu3Acc::SIZE == 12,
        Imu3Gyr::TYPE_ID == PayloadType::Imu3Gyr.id() && Imu3Gyr::SIZE == 12,
        Imu3Mag::TYPE_ID == PayloadType::Imu3Mag.id() && Imu3Mag::SIZE == 12,
        Imu6::TYPE_ID == PayloadType::Imu6.id() && Imu6::SIZE == 24,
        Imu9::TYPE_ID == PayloadType::Imu9.id() && Imu9::SIZE == 36,
        Imu10::TYPE_ID == PayloadType::Imu10.id() && Imu10::SIZE == 40,
        ImuQuat::TYPE_ID == PayloadType::ImuQuat.id() && ImuQuat::SIZE == 16,
{
}

} // verus!

//! Raw barometer readings and calibration data.

use vstd::prelude::*;
use crate::bus::{i16_from_le, i8_from_byte, le_i16, le_u16, u16_from_le};

verus! {

/// Little-endian value of three bytes.
pub open spec fn le_u24(b0: u8, b1: u8, b2: u8) -> int {
    b0 + 256 * b1 + 65536 * b2
}

/// The signed value of a byte.
pub open spec fn byte_as_i8(b: u8) -> int {
    if b >= 128 {
        b - 256
    } else {
        b as int
    }
}

/// An uncompensated pressure reading: the DATA_0..DATA_2 bytes (XLSB, LSB,
/// MSB).
#[derive(Clone, Copy, Debug, PartialEq, Eq)]
pub struct Pressure([u8; 3]);

impl View for Pressure {
    type V = Seq<u8>;

    closed spec fn view(&self) -> Seq<u8> {
        self.0@
    }
}

impl Pressure {
    pub fn new(data: [u8; 3]) -> (r: Self)
        ensures
            r@ == data@,
    {
        Self(data)
    }

    /// The 24-bit raw value.
    pub open spec fn raw(&self) -> int {
        le_u24(self@[0], self@[1], self@[2])
    }
}

/// The raw 24-bit value of a pressure reading.
impl From<Pressure> for u32 {
    fn from(value: Pressure) -> (r: u32)
        ensures
            r == value.raw(),
            r < 0x100_0000,
    {
        let d = value.0;
        (d[0] as u32) + 256 * (d[1] as u32) + 65536 * (d[2] as u32)
    }
}

impl vstd::std_specs::convert::FromSpecImpl<Pressure> for u32 {
    open spec fn obeys_from_spec() -> bool {
        true
    }

    open spec fn from_spec(v: Pressure) -> u32 {
        v.raw() as u32
    }
}

/// An uncompensated temperature reading: the DATA_3..DATA_5 bytes.
#[derive(Clone, Copy, Debug, PartialEq, Eq)]
pub struct Temperature([u8; 3]);

impl View for Temperature {
    type V = Seq<u8>;

    closed spec fn view(&self) -> Seq<u8> {
        self.0@
    }
}

impl Temperature {
    pub fn new(data: [u8; 3]) -> (r: Self)
        ensures
            r@ == data@,
    {
        Self(data)
    }

    /// The 24-bit raw value.
    pub open spec fn raw(&self) -> int {
        le_u24(self@[0], self@[1], self@[2])
    }
}

/// The raw 24-bit value of a temperature reading.
impl From<Temperature> for u32 {
    fn from(value: Temperature) -> (r: u32)
        ensures
            r == value.raw(),
            r < 0x100_0000,
    {
        let d = value.0;
        (d[0] as u32) + 256 * (d[1] as u32) + 65536 * (d[2] as u32)
    }
}

impl vstd::std_specs::convert::FromSpecImpl<Temperature> for u32 {
    open spec fn obeys_from_spec() -> bool {
        true
    }

    open spec fn from_spec(v: Temperature) -> u32 {
        v.raw() as u32
    }
}

/// Splits the six data bytes read from DATA_0 onwards into the pressure and
/// the temperature reading.
pub fn split_reading(data: [u8; 6]) -> (r: (Pressure, Temperature))
    ensures
        r.0@ == data@.subrange(0, 3),
        r.1@ == data@.subrange(3, 6),
{
    let p = Pressure::new([data[0], data[1], data[2]]);
    let t = Temperature::new([data[3], data[4], data[5]]);
    assert(p@ =~= data@.subrange(0, 3));
    assert(t@ =~= data@.subrange(3, 6));
    (p, t)
}

/// The calibration words stored in the sensor's NVM, as integers (before
/// the scaling of datasheet section 8.4).
#[derive(Clone, Copy, Debug, PartialEq, Eq, Structural)]
pub struct RawCoefficients {
    pub t1: u16,
    pub t2: u16,
    pub t3: i8,
    pub p1: i16,
    pub p2: i16,
    pub p3: i8,
    pub p4: i8,
    pub p5: u16,
    pub p6: u16,
    pub p7: i8,
    pub p8: i8,
    pub p9: i16,
    pub p10: i8,
    pub p11: i8,
}

impl RawCoefficients {
    /// Decodes the 21 calibration bytes read from NVM_PAR_T1 onwards.
    pub fn from_bytes(c: [u8; 21]) -> (r: Self)
        ensures
            r.t1 == le_u16(c@[0], c@[1]),
            r.t2 == le_u16(c@[2], c@[3]),
            r.t3 == byte_as_i8(c@[4]),
            r.p1 == le_i16(c@[5], c@[6]),
            r.p2 == le_i16(c@[7], c@[8]),
            r.p3 == byte_as_i8(c@[9]),
            r.p4 == byte_as_i8(c@[10]),
            r.p5 == le_u16(c@[11], c@[12]),
            r.p6 == le_u16(c@[13], c@[14]),
            r.p7 == byte_as_i8(c@[15]),
            r.p8 == byte_as_i8(c@[16]),
            r.p9 == le_i16(c@[17], c@[18]),
            r.p10 == byte_as_i8(c@[19]),
            r.p11 == byte_as_i8(c@[20]),
    {
        RawCoefficients {
            t1: u16_from_le(c[0], c[1]),
            t2: u16_from_le(c[2], c[3]),
            t3: i8_from_byte(c[4]),
            p1: i16_from_le(c[5], c[6]),
            p2: i16_from_le(c[7], c[8]),
            p3: i8_from_byte(c[9]),
            p4: i8_from_byte(c[10]),
            p5: u16_from_le(c[11], c[12]),
            p6: u16_from_le(c[13], c[14]),
            p7: i8_from_byte(c[15]),
            p8: i8_from_byte(c[16]),
            p9: i16_from_le(c[17], c[18]),
            p10: i8_from_byte(c[19]),
            p11: i8_from_byte(c[20]),
        }
    }
}

} // verus!

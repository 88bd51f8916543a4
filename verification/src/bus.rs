//! Plain descriptions of the register transactions that the sensor drivers
//! perform on their I2C bus.

use vstd::prelude::*;

verus! {

/// A one-byte register write: the bytes `[reg, value]` sent to the device at
/// 7-bit address `addr`.
#[derive(Clone, Copy, Debug, PartialEq, Eq, Structural)]
pub struct RegisterWrite {
    pub addr: u8,
    pub reg: u8,
    pub value: u8,
}

/// A register read: the byte `reg` is written to the device at `addr`, then
/// `len` bytes are read back (a combined write-read transaction).
#[derive(Clone, Copy, Debug, PartialEq, Eq, Structural)]
pub struct RegisterRead {
    pub addr: u8,
    pub reg: u8,
    pub len: usize,
}

impl RegisterWrite {
    /// The two bytes put on the bus.
    pub fn bytes(&self) -> (r: [u8; 2])
        ensures
            r@ == seq![self.reg, self.value],
    {
        [self.reg, self.value]
    }
}

/// Little-endian composition of two bytes, read as a two's complement value.
pub open spec fn le_i16(lo: u8, hi: u8) -> int {
    let u = hi * 256 + lo;
    if u >= 32768 {
        u - 65536
    } else {
        u
    }
}

/// Little-endian composition of two bytes as an unsigned value.
pub open spec fn le_u16(lo: u8, hi: u8) -> int {
    hi * 256 + lo
}

/// Decodes a little-endian two's complement 16-bit value.
pub fn i16_from_le(lo: u8, hi: u8) -> (r: i16)
    ensures
        r == le_i16(lo, hi),
{
    let u: i32 = (hi as i32) * 256 + (lo as i32);
    if u >= 32768 {
        (u - 65536) as i16
    } else {
        u as i16
    }
}

/// Decodes a little-endian unsigned 16-bit value.
pub fn u16_from_le(lo: u8, hi: u8) -> (r: u16)
    ensures
        r == le_u16(lo, hi),
{
    (hi as u16) * 256 + (lo as u16)
}

/// Reads a byte as a two's complement value.
pub fn i8_from_byte(b: u8) -> (r: i8)
    ensures
        r == (if b >= 128 { b - 256 } else { b as int }),
{
    if b >= 128 {
        ((b as i16) - 256) as i8
    } else {
        b as i8
    }
}

/// Every value of a 16-bit word decodes back from its little-endian bytes.
pub proof fn lemma_le_i16_roundtrip(v: i16)
    ensures
        ({
            let u = if v < 0 { v + 65536 } else { v as int };
            le_i16((u % 256) as u8, (u / 256) as u8) == v
        }),
{
}

} // verus!

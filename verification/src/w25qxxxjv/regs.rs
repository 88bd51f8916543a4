//! Instructions, models and status registers of the W25QxxxJV flash family.

use vstd::prelude::*;
use vstd::arithmetic::power2::{lemma2_to64, pow2};

verus! {

pub const W25QXXXJV_MANUFACTURER_ID: u8 = 0xef;

pub const W25QXXXJV_PAGE_PROGRAM: u8 = 0x02;
pub const W25QXXXJV_READ_DATA: u8 = 0x03;
pub const W25QXXXJV_WRITE_ENABLE: u8 = 0x06;
pub const W25QXXXJV_SECTOR_ERASE: u8 = 0x20;
pub const W25QXXXJV_MANUFACTURER_DEVICE_ID: u8 = 0x90;
pub const W25QXXXJV_CHIP_ERASE: u8 = 0xc7;

/// Size of a page, the unit of a page program.
pub const PAGE_SIZE: u32 = 0x100;
/// Size of a sector, the unit of a sector erase.
pub const SECTOR_SIZE: u32 = 0x1000;

/// The supported members of the family.
#[derive(Clone, Copy, Debug, PartialEq, Eq, Structural)]
pub enum Model {
    W25q16jv,
    W25q32jv,
    W25q64jv,
    W25q128jv,
}

impl Model {
    /// Capacity in bytes.
    pub open spec fn spec_capacity(self) -> u32 {
        match self {
            Model::W25q16jv => 0x20_0000,
            Model::W25q32jv => 0x40_0000,
            Model::W25q64jv => 0x80_0000,
            Model::W25q128jv => 0x100_0000,
        }
    }

    /// The device id that the chip reports.
    pub open spec fn spec_device_id(self) -> u8 {
        match self {
            Model::W25q16jv => 0x14,
            Model::W25q32jv => 0x15,
            Model::W25q64jv => 0x16,
            Model::W25q128jv => 0x17,
        }
    }

    /// Capacity in bytes (2 MiB for the W25Q16JV up to 16 MiB for the
    /// W25Q128JV).
    pub fn capacity(&self) -> (r: u32)
        ensures
            r == self.spec_capacity(),
    {
        assert(1u32 << 21u32 == 0x20_0000 && 1u32 << 22u32 == 0x40_0000 && 1u32 << 23u32 == 0x80_0000
            && 1u32 << 24u32 == 0x100_0000) by (bit_vector);
        match self {
            Model::W25q16jv => 1u32 << 21u32,
            Model::W25q32jv => 1u32 << 22u32,
            Model::W25q64jv => 1u32 << 23u32,
            Model::W25q128jv => 1u32 << 24u32,
        }
    }

    /// The device id that the chip reports.
    pub fn device_id(&self) -> (r: u8)
        ensures
            r == self.spec_device_id(),
    {
        match self {
            Model::W25q16jv => 0x14,
            Model::W25q32jv => 0x15,
            Model::W25q64jv => 0x16,
            Model::W25q128jv => 0x17,
        }
    }
}

/// Every capacity is a whole number of sectors, at most 16 MiB, so that
/// every address fits in the three address bytes of an instruction.
pub proof fn lemma_capacity_bounds(model: Model)
    ensures
        model.spec_capacity() % 0x1000 == 0,
        0x20_0000 <= model.spec_capacity() <= 0x100_0000,
{
}

impl Model {
    /// The density in the part number, in megabits: the `16` of W25Q16JV.
    pub open spec fn part_megabits(self) -> nat {
        match self {
            Model::W25q16jv => 16,
            Model::W25q32jv => 32,
            Model::W25q64jv => 64,
            Model::W25q128jv => 128,
        }
    }
}

/// A chip holds as many bytes as its part number says it holds megabits
/// (one megabit being 2^20 bits), and the device id it reports counts the
/// doublings of its capacity above the 2 MiB of the smallest member: the id
/// is `0x14 + log2(capacity / 2 MiB)`. So every model has its own id and
/// capacity, each member twice the size of the one before.
pub proof fn lemma_capacity_and_id_follow_the_part(model: Model)
    ensures
        model.spec_capacity() * 8 == model.part_megabits() * pow2(20),
        0x14 <= model.spec_device_id() <= 0x17,
        model.spec_capacity() == 0x20_0000 * pow2((model.spec_device_id() - 0x14) as nat),
{
    lemma2_to64();
}

/// Two models with the same device id are the same model, and a model with
/// the next device id holds twice as much.
pub proof fn lemma_ids_distinguish_models(a: Model, b: Model)
    ensures
        a.spec_device_id() == b.spec_device_id() <==> a == b,
        a.spec_device_id() + 1 == b.spec_device_id() ==> b.spec_capacity() == 2 * a.spec_capacity(),
{
}

/// The three status registers.
#[derive(Clone, Copy, Debug, PartialEq, Eq, Structural)]
pub enum StatusRegister {
    SR1,
    SR2,
    SR3,
}

impl StatusRegister {
    /// The instruction that reads the register.
    pub open spec fn spec_byte_read(self) -> u8 {
        match self {
            StatusRegister::SR1 => 0x05,
            StatusRegister::SR2 => 0x35,
            StatusRegister::SR3 => 0x15,
        }
    }

    /// The instruction that reads the register.
    pub fn byte_read(&self) -> (r: u8)
        ensures
            r == self.spec_byte_read(),
    {
        match self {
            StatusRegister::SR1 => 0x05,
            StatusRegister::SR2 => 0x35,
            StatusRegister::SR3 => 0x15,
        }
    }
}

} // verus!

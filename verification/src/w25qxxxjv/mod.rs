//! Driver logic for the W25QxxxJV family of NOR flash memories.

pub mod regs;
pub mod driver;

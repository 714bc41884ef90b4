//! SD card constants.
use vstd::prelude::*;

verus! {

/// Size of one SD block in bytes.
pub const SD_BLOCK_SIZE: usize = 512;

/// Largest number of blocks of one read or write.
pub const SD_MAX_RW_BLK: usize = 1024;

/// Card clock of 50 MHz.
pub const SD_CLOCK_50MHZ: u32 = 50_000_000;

/// Index of CMD11.
pub const SD_CMD_VOLTAGE_SWITCH: u32 = 11;

} // verus!

//! Enumerations and command numbers of the host layer.
use vstd::prelude::*;

verus! {

/// Response type of a command.
#[derive(Clone, Copy, PartialEq, Eq, Structural, Debug)]
pub enum MCIHostResponseType {
    /// The command has no response.
    NoResponse,
    R1,
    R1b,
    R2,
    R3,
    R4,
    R5,
    R5b,
    R6,
    R7,
}

/// CMD0, reset the card to idle state.
pub const MCI_HOST_CMD_GO_IDLE_STATE: u32 = 0;

/// CMD15, put the card in inactive state.
pub const MCI_HOST_CMD_GO_INACTIVE_STATE: u32 = 15;

/// CMD18, read several blocks.
pub const MCI_HOST_CMD_READ_MULTIPLE_BLOCK: u32 = 18;

/// CMD25, write several blocks.
pub const MCI_HOST_CMD_WRITE_MULTIPLE_BLOCK: u32 = 25;

/// CMD52, SDIO direct read or write of one register.
pub const MCI_SDIO_CMD_RW_IO_DIRECT: u32 = 52;

/// Address of the I/O abort register in the SDIO common register area.
pub const MCI_SDIO_CCCR_IO_ABORT: u32 = 0x06;

/// Operating voltage of the card.
#[derive(Clone, Copy, PartialEq, Eq, Structural, Debug)]
pub enum MCIHostOperationVoltage {
    /// No voltage selected.
    NoVoltage,
    Voltage330V,
    Voltage300V,
    Voltage180V,
}

/// Width of the data bus.
#[derive(Clone, Copy, PartialEq, Eq, Structural, Debug)]
pub enum MCIHostBusWdith {
    Bit1,
    Bit4,
    Bit8,
}

/// Bit order in which a data packet arrives.
#[derive(Clone, Copy, PartialEq, Eq, Structural, Debug)]
pub enum MCIHostDataPacketFormat {
    /// Least significant bit first.
    LSBFirst,
    /// Most significant bit first.
    MSBFirst,
}

/// Whether a card sits in the slot.
#[derive(Clone, Copy, PartialEq, Eq, Structural, Debug)]
pub enum SDStatus {
    Inserted,
    Removed,
}

} // verus!

//! Enumerations of the SDIF controller.
use vstd::prelude::*;

verus! {

/// The SDIF controller instances.
#[derive(Clone, Copy, PartialEq, Eq, Structural, Debug)]
pub enum MCIId {
    MCI0,
    MCI1,
}

impl Default for MCIId {
    fn default() -> (r: Self)
        ensures
            r == MCIId::MCI0,
    {
        MCIId::MCI0
    }
}

/// The two interrupt sources of the controller.
#[derive(Clone, Copy, PartialEq, Eq, Structural, Debug)]
pub enum MCIIntrType {
    /// Controller (command and data) interrupts.
    GeneralIntr,
    /// Internal DMA controller interrupts.
    DmaIntr,
}

/// Command flag: send the initialisation sequence before the command.
pub const MCI_CMD_FLAG_NEED_INIT: u32 = 0x2;

/// Command flag: the command expects a response.
pub const MCI_CMD_FLAG_EXP_RESP: u32 = 0x4;

/// Command flag: the response is 136 bits long.
pub const MCI_CMD_FLAG_EXP_LONG_RESP: u32 = 0x8;

/// Command flag: check the CRC of the response.
pub const MCI_CMD_FLAG_NEED_RESP_CRC: u32 = 0x10;

/// Command flag: the command transfers data.
pub const MCI_CMD_FLAG_EXP_DATA: u32 = 0x20;

/// Command flag: the data goes to the card.
pub const MCI_CMD_FLAG_WRITE_DATA: u32 = 0x40;

/// Command flag: the data comes from the card.
pub const MCI_CMD_FLAG_READ_DATA: u32 = 0x80;

/// Command flag: stop the transfer automatically.
pub const MCI_CMD_FLAG_NEED_AUTO_STOP: u32 = 0x100;

/// Command flag: addressed data transfer command.
pub const MCI_CMD_FLAG_ADTC: u32 = 0x200;

/// Command flag: the command switches the signalling voltage.
pub const MCI_CMD_FLAG_SWITCH_VOLTAGE: u32 = 0x400;

/// Command flag: the command aborts a transfer.
pub const MCI_CMD_FLAG_ABORT: u32 = 0x800;

/// Command flag: send CMD12 automatically.
pub const MCI_CMD_FLAG_AUTO_CMD12: u32 = 0x1000;

} // verus!

//! Bits and offsets of the SDIF controller registers that the logic reads.
use vstd::prelude::*;

verus! {

/// Offset of the interrupt mask register.
pub const MCI_INT_MASK_OFFSET: u32 = 0x24;

/// Offset of the raw interrupt status register.
pub const MCI_RAW_INTS_OFFSET: u32 = 0x44;

/// Offset of the internal DMA controller status register.
pub const MCI_DMAC_STATUS_OFFSET: u32 = 0x90;

/// Offset of the internal DMA controller interrupt enable register.
pub const MCI_DMAC_INT_EN_OFFSET: u32 = 0x94;

/// Raw interrupt: card detect.
pub const MCI_RAW_INTS_CD_BIT: u32 = 0x1;

/// Raw interrupt: response error.
pub const MCI_RAW_INTS_RE_BIT: u32 = 0x2;

/// Raw interrupt: command done.
pub const MCI_RAW_INTS_CMD_BIT: u32 = 0x4;

/// Raw interrupt: data transfer over.
pub const MCI_RAW_INTS_DTO_BIT: u32 = 0x8;

/// Raw interrupt: transmit FIFO data request.
pub const MCI_RAW_INTS_TXDR_BIT: u32 = 0x10;

/// Raw interrupt: receive FIFO data request.
pub const MCI_RAW_INTS_RXDR_BIT: u32 = 0x20;

/// Raw interrupt: response CRC error.
pub const MCI_RAW_INTS_RCRC_BIT: u32 = 0x40;

/// Raw interrupt: data CRC error.
pub const MCI_RAW_INTS_DCRC_BIT: u32 = 0x80;

/// Raw interrupt: response timeout.
pub const MCI_RAW_INTS_RTO_BIT: u32 = 0x100;

/// Raw interrupt: data read timeout.
pub const MCI_RAW_INTS_DRTO_BIT: u32 = 0x200;

/// Raw interrupt: data starvation by host timeout.
pub const MCI_RAW_INTS_HTO_BIT: u32 = 0x400;

/// Raw interrupt: FIFO underrun or overrun.
pub const MCI_RAW_INTS_FRUN_BIT: u32 = 0x800;

/// Raw interrupt: hardware locked write error.
pub const MCI_RAW_INTS_HLE_BIT: u32 = 0x1000;

/// Raw interrupt: start-bit error or busy clear.
pub const MCI_RAW_INTS_SBE_BCI_BIT: u32 = 0x2000;

/// Raw interrupt: auto command done.
pub const MCI_RAW_INTS_ACD_BIT: u32 = 0x4000;

/// Raw interrupt: end-bit error.
pub const MCI_RAW_INTS_EBE_BIT: u32 = 0x8000;

/// Raw interrupt: SDIO card interrupt.
pub const MCI_RAW_INTS_SDIO_BIT: u32 = 0x10000;

/// All raw interrupt bits.
pub const MCI_RAW_INTS_ALL_BITS: u32 = 0x1FFFF;

/// Raw interrupts that mark a failed command.
pub const MCI_RAW_INTS_CMD_ERR_INTS_MASK: u32 = MCI_RAW_INTS_RTO_BIT | MCI_RAW_INTS_RCRC_BIT
    | MCI_RAW_INTS_RE_BIT | MCI_RAW_INTS_DCRC_BIT | MCI_RAW_INTS_DRTO_BIT
    | MCI_RAW_INTS_SBE_BCI_BIT;

/// DMA status: transmit done.
pub const MCI_DMAC_STATUS_TI: u32 = 0x1;

/// DMA status: receive done.
pub const MCI_DMAC_STATUS_RI: u32 = 0x2;

/// DMA status: fatal bus error.
pub const MCI_DMAC_STATUS_FBE: u32 = 0x4;

/// DMA status: descriptor unavailable.
pub const MCI_DMAC_STATUS_DU: u32 = 0x10;

/// DMA status: card error summary.
pub const MCI_DMAC_STATUS_CES: u32 = 0x20;

/// DMA status: normal interrupt summary.
pub const MCI_DMAC_STATUS_NIS: u32 = 0x100;

/// DMA status: abnormal interrupt summary.
pub const MCI_DMAC_STATUS_AIS: u32 = 0x200;

/// All DMA status interrupt bits.
pub const MCI_DMAC_STATUS_ALL_BITS: u32 = 0x3FF;

/// DMA status bits that mark a failed DMA transfer.
pub const MCI_DMAC_STATUS_DMAC_ERR_INTS_MASK: u32 = MCI_DMAC_STATUS_FBE | MCI_DMAC_STATUS_DU
    | MCI_DMAC_STATUS_CES;

/// DMA interrupt enable: descriptor unavailable.
pub const MCI_DMAC_INT_EN_DU: u32 = 0x10;

/// DMA interrupt enable: abnormal interrupt summary.
pub const MCI_DMAC_INT_EN_AIS: u32 = 0x200;

/// Defined bits of the interrupt mask register (one per raw interrupt).
pub const MCI_INT_MASK_ALL_BITS: u32 = 0x1FFFF;

/// DMA interrupt enable: transmit done.
pub const MCI_DMAC_INT_EN_TI: u32 = 0x1;

/// DMA interrupt enable: receive done.
pub const MCI_DMAC_INT_EN_RI: u32 = 0x2;

/// DMA interrupt enable: fatal bus error.
pub const MCI_DMAC_INT_EN_FBE: u32 = 0x4;

/// DMA interrupt enable: card error summary.
pub const MCI_DMAC_INT_EN_CES: u32 = 0x20;

/// DMA interrupt enable: normal interrupt summary.
pub const MCI_DMAC_INT_EN_NIS: u32 = 0x100;

/// Defined bits of the DMA interrupt enable register.
pub const MCI_DMAC_INT_EN_ALL_BITS: u32 = MCI_DMAC_INT_EN_TI | MCI_DMAC_INT_EN_RI
    | MCI_DMAC_INT_EN_FBE | MCI_DMAC_INT_EN_DU | MCI_DMAC_INT_EN_CES | MCI_DMAC_INT_EN_NIS
    | MCI_DMAC_INT_EN_AIS;

/// Interrupt mask: SDIO card interrupt.
pub const MCI_INT_MASK_SDIO_BIT: u32 = 0x10000;

} // verus!

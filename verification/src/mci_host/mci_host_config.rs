//! Configuration of the host controller.
use vstd::prelude::*;
use crate::mci::consts::MCIId;
use crate::mci_host::sd::consts::{SD_BLOCK_SIZE, SD_CLOCK_50MHZ, SD_MAX_RW_BLK};

verus! {

/// Kind of host controller.
#[derive(Debug, Clone, Copy, PartialEq, Eq, Structural)]
pub enum MCIHostType {
    SDMMC,
    SDIF,
}

/// Kind of card.
#[derive(Debug, Clone, Copy, PartialEq, Eq, Structural)]
pub enum MCIHostCardType {
    StandardSD,
    MicroSD,
    EMMC,
    SDIO,
}

/// Byte order of the data the controller hands over.
#[derive(Debug, Clone, Copy, PartialEq, Eq, Structural)]
pub enum MCIHostEndianMode {
    /// Big endian mode
    Big,
    /// Half word big endian mode
    HalfWordBig,
    /// Little endian mode
    Little,
}

/// Configuration of the host controller.
#[derive(Clone, Copy, PartialEq, Eq, Structural, Debug)]
pub struct MCIHostConfig {
    /// Host id
    pub host_id: MCIId,
    /// Host type
    pub host_type: MCIHostType,
    /// Card type
    pub card_type: MCIHostCardType,
    /// Whether interrupts are used
    pub enable_irq: bool,
    /// Whether DMA is used
    pub enable_dma: bool,
    /// Byte order mode
    pub endian_mode: MCIHostEndianMode,
    /// Largest transfer size in bytes
    pub max_trans_size: usize,
    /// Default block size in bytes
    pub def_block_size: usize,
    /// Card clock frequency
    pub card_clock: u32,
    /// Whether the card is a UHS card
    pub is_uhs_card: bool,
}

/// The default configuration: controller 1 of type SDIF with a micro SD
/// card, DMA transfers, polling instead of interrupts, little endian, at most
/// `SD_MAX_RW_BLK` blocks of `SD_BLOCK_SIZE` bytes per transfer, 50 MHz.
pub open spec fn spec_default_host_config() -> MCIHostConfig {
    MCIHostConfig {
        host_id: MCIId::MCI1,
        host_type: MCIHostType::SDIF,
        card_type: MCIHostCardType::MicroSD,
        enable_irq: false,
        enable_dma: true,
        endian_mode: MCIHostEndianMode::Little,
        max_trans_size: (SD_MAX_RW_BLK * SD_BLOCK_SIZE) as usize,
        def_block_size: SD_BLOCK_SIZE,
        card_clock: SD_CLOCK_50MHZ,
        is_uhs_card: false,
    }
}

impl MCIHostConfig {
    /// The default configuration (see `spec_default_host_config`): DMA and
    /// polling mode.
    pub fn new() -> (r: Self)
        ensures
            r == spec_default_host_config(),
    {
        Self {
            host_id: MCIId::MCI1,
            host_type: MCIHostType::SDIF,
            card_type: MCIHostCardType::MicroSD,
            enable_irq: false,
            enable_dma: true,
            endian_mode: MCIHostEndianMode::Little,
            max_trans_size: SD_MAX_RW_BLK * SD_BLOCK_SIZE,
            def_block_size: SD_BLOCK_SIZE,
            card_clock: SD_CLOCK_50MHZ,
            is_uhs_card: false,
        }
    }
}

/// The configuration of a transfer mode: DMA mode uses controller 1 with
/// DMA, programmed I/O uses controller 0 without; interrupt mode enables
/// interrupts, polling mode does not.  The rest is the default.
pub open spec fn spec_mode_host_config(dma: bool, irq: bool) -> MCIHostConfig {
    MCIHostConfig {
        host_id: if dma { MCIId::MCI1 } else { MCIId::MCI0 },
        enable_dma: dma,
        enable_irq: irq,
        ..spec_default_host_config()
    }
}

impl MCIHostConfig {
    /// The configuration for DMA (`dma`) or programmed I/O, and interrupt
    /// (`irq`) or polling mode (see `spec_mode_host_config`).
    pub fn new_for_mode(dma: bool, irq: bool) -> (r: Self)
        ensures
            r == spec_mode_host_config(dma, irq),
    {
        let mut config = Self::new();
        if dma {
            config.host_id = MCIId::MCI1;
            config.enable_dma = true;
        } else {
            config.host_id = MCIId::MCI0;
            config.enable_dma = false;
        }
        config.enable_irq = irq;
        config
    }
}

} // verus!

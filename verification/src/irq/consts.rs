//! Constants of the GICv3 interrupt controller.
use vstd::prelude::*;

verus! {

/// How a shared peripheral interrupt is routed.
#[derive(Clone, Copy, PartialEq, Eq, Structural, Debug)]
pub enum SpiRoutingMode {
    /// Routed to the processing element named by the affinity level.
    SpiRoutingToSpecific,
    /// Routed to any processing element that participates.
    SpiRoutingToAny,
}

/// The routing mode as written to the interrupt routing mode bit.
pub open spec fn spec_routing_mode_bits(mode: SpiRoutingMode) -> u32 {
    match mode {
        SpiRoutingMode::SpiRoutingToSpecific => 0,
        SpiRoutingMode::SpiRoutingToAny => 0x8000_0000,
    }
}

impl SpiRoutingMode {
    /// The register value of the routing mode: 0 for a specific target,
    /// bit 31 for any target.
    pub fn bits(&self) -> (r: u32)
        ensures
            r == spec_routing_mode_bits(*self),
    {
        match self {
            SpiRoutingMode::SpiRoutingToSpecific => 0,
            SpiRoutingMode::SpiRoutingToAny => 0x8000_0000,
        }
    }
}

/// Routing mode of the distributor's interrupt routing registers.
pub type GicdIrpiterMode = SpiRoutingMode;

/// Last private peripheral interrupt id.
pub const GIC_PPI_END_ID: isize = 31;

/// Last private peripheral interrupt id, as the controller functions take it.
pub const FGIC_PPI_END_ID: i32 = 31;

/// First shared peripheral interrupt id.
pub const FGIC_SPI_START_ID: u32 = 32;

/// First locality-specific peripheral interrupt id.
pub const FGIC_LPI_START_ID: u32 = 8192;

/// Target that stands for every CPU.
pub const INTERRUPT_CPU_TARGET_ALL_SET: u32 = 0xFFFF_FFFF;

/// Affinity fields of an interrupt routing register.
pub const FGIC_GICD_IROUTER_AFFINITY_MASK: u64 = 0xFF_00FF_FFFF;

/// Interrupt routing registers exist for n = 0 .. 1019.
pub const FGIC_GICD_IROUTER_RANGE_LIMIT: u32 = 1023;

/// Width of one interrupt routing register in bytes.
pub const FGIC_GICD_IROUTER_BYTE_WIDTH: usize = 8;

/// Offset of the interrupt routing registers.
pub const FGIC_GICD_IROUTER_OFFSET: u32 = 0x6000;

/// Base of the GICv3 register frames.
pub const GICV3_BASE_ADDR: u32 = 0x3080_0000;

/// Base of the distributor.
pub const GICV3_DISTRIBUTOR_BASE_ADDR: u32 = 0x3080_0000;

/// Base of the interrupt translation service.
pub const GICV3_ITS_BASE_ADDR: u32 = 0x3082_0000;

/// Base of the first redistributor.
pub const GICV3_RD_BASE_ADDR: u32 = 0x3088_0000;

/// Distance between two redistributors.
pub const GICV3_RD_OFFSET: u32 = 0x2_0000;

/// Size of the redistributor region.
pub const GICV3_RD_SIZE: u32 = 0x10_0000;

/// Offset of the distributor type register.
pub const FGIC_GICD_TYPER_OFFSET: u32 = 0x4;

/// Field of the distributor type register that counts interrupt lines.
pub const FGIC_GICD_TYPER_ITLINESNUMBER_MASK: u32 = 0x1F;

/// Offset of the distributor priority registers.
pub const FGIC_GICD_IPRIORITYR_OFFSET: u32 = 0x400;

/// Register-write-pending bit of the distributor control register.
pub const FGIC_GICD_CTLR_RWP_MASK: u32 = 0x8000_0000;

/// Offset of the upper half of the redistributor type register.
pub const FGIC_GICR_TYPER_H_OFFSET: u32 = 0xC;

/// Offset of the redistributor wake register.
pub const FGIC_GICR_WAKER_OFFSET: u32 = 0x14;

/// Processor-sleep bit of the redistributor wake register.
pub const FGIC_GICR_WAKER_PROCESSOR_SLEEP_MASK: u32 = 0x2;

/// Children-asleep bit of the redistributor wake register.
pub const FGIC_GICR_WAKER_CHILDREN_ASLEEP_MASK: u32 = 0x4;

/// Register-write-pending bit of the redistributor control register.
pub const FGIC_GICR_CTLR_RWP_MASK: u32 = 0x8;

/// Offset of the SGI/PPI frame inside a redistributor.
pub const FGIC_GICR_SGI_BASE_OFFSET: u32 = 0x1_0000;

/// Offset of the SGI/PPI group register.
pub const FGIC_GICR_IGROUPR0_OFFSET: u32 = 0x80;

/// Offset of the SGI/PPI clear-enable register.
pub const FGIC_GICR_ICENABLER0_OFFSET: u32 = 0x180;

/// Offset of the SGI/PPI clear-pending register.
pub const FGIC_GICR_ICPENDR0_OFFSET: u32 = 0x280;

/// Offset of the SGI/PPI priority registers.
pub const FGIC_GICR_IPRIORITYR_OFFSET: u32 = 0x400;

/// Offset of the SGI configuration register.
pub const FGIC_GICR_ICFGR0_OFFSET: u32 = 0xC00;

/// Offset of the PPI configuration register.
pub const FGIC_GICR_ICFGR1_OFFSET: u32 = 0xC04;

/// Offset of the SGI/PPI group modifier register.
pub const FGIC_GICR_IGRPMODR0_OFFSET: u32 = 0xD00;

/// Clear-enable value that disables every SGI and PPI.
pub const FGIC_GICR_ICENABLER0_DEFAULT_MASK: u32 = 0xFFFF_FFFF;

/// Clear-pending value that clears every SGI and PPI.
pub const FGIC_GICR_ICPENDR0_DEFAULT_MASK: u32 = 0xFFFF_FFFF;

/// Group value that puts every SGI and PPI in group 1.
pub const FGIC_GICR_IGROUPR0_DEFAULT_MASK: u32 = 0xFFFF_FFFF;

/// Group modifier value of the non-secure group.
pub const FGIC_GICR_IGRPMODR0_DEFAULT_MASK: u32 = 0x0;

/// Default priority 0xA0 for four interrupts of one priority register.
pub const FGIC_INT_DEFAULT_PRI_X4: u32 = 0xA0A0_A0A0;

/// Interrupts per priority register.
pub const FGIC_GICD_4_PER_REG: u32 = 4;

/// Tries before the wake sequence of a redistributor gives up.
pub const FGIC_WAKER_TIMEOUT: u32 = 0xFFF_FFFF;

/// Tries before waiting for a register write to complete gives up.
pub const FGIC_RWP_TIMEOUT: u32 = 0xFF_FFFF;

} // verus!

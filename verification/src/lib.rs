//! Verified core of the driver for the Phytium SD/MMC host controller (SDIF)
//! and the GICv3 interrupt controller that serves it.
//!
//! - `tools`: byte-order helpers for 32-bit words.
//! - `osa`: transfer event flags.
//! - `irq`: interrupt controller set-up, CPU affinities, the handler table.
//! - `mci`: controller register bits, interrupt decoding, command data.
//! - `mci_host`: host configuration and the SDIF device operations.
//! - `regs`: register access conventions.
pub mod irq;
pub mod mci;
pub mod mci_host;
pub mod osa;
pub mod regs;
pub mod tools;

//! Generic interrupt controller (GICv3) support and the interrupt table.
pub mod consts;
pub mod cpu;
pub mod err;
pub mod gic;

pub mod interrupt;
pub mod reg;

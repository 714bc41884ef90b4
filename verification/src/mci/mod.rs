//! SDIF controller: register bits, interrupt decoding and transfer data.
pub mod consts;
pub mod mci_cmd;
pub mod mci_data;
pub mod mci_evt;
pub mod mci_intr;
pub mod regs;

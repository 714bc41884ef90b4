//! Host layer of the SD/MMC stack: configuration, card status and the SDIF
//! device operations.
pub mod constants;
pub mod err;
pub mod mci_host_config;
pub mod mci_sdif;
pub mod sd;

//! SD card constants and status.
pub mod consts;
pub mod status;

pub mod sdif_device;
pub mod sdif_transfer;

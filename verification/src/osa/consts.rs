//! Constants of the OS abstraction layer.
use vstd::prelude::*;

verus! {

/// Size of 1 MiB
pub const SZ_1M: usize = 1024 * 1024;

/// Max size that the memory pool manages
pub const MAX_POOL_SIZE: usize = SZ_1M;

/// OSA semaphore handle size
pub const OSA_SEM_HANDLE_SIZE: usize = 8;

/// Command transfer finished without error.
pub const SDMMC_OSA_EVENT_TRANSFER_CMD_SUCCESS: u32 = 0x1;

/// Command transfer failed.
pub const SDMMC_OSA_EVENT_TRANSFER_CMD_FAIL: u32 = 0x2;

/// Data transfer finished without error.
pub const SDMMC_OSA_EVENT_TRANSFER_DATA_SUCCESS: u32 = 0x4;

/// Data transfer failed.
pub const SDMMC_OSA_EVENT_TRANSFER_DATA_FAIL: u32 = 0x8;

/// DMA transfer completed.
pub const SDMMC_OSA_EVENT_TRANSFER_DMA_COMPLETE: u32 = 0x10;

/// A card was inserted.
pub const SDMMC_OSA_EVENT_CARD_INSERTED: u32 = 0x100;

/// The card was removed.
pub const SDMMC_OSA_EVENT_CARD_REMOVED: u32 = 0x200;

/// Events that end a transfer with an error.
pub const FSDIF_TRANS_ERR_EVENTS: u32 = SDMMC_OSA_EVENT_TRANSFER_CMD_FAIL
    | SDMMC_OSA_EVENT_TRANSFER_DATA_FAIL | SDMMC_OSA_EVENT_CARD_REMOVED;

/// Wait until all requested events are set.
pub const SDMMC_OSA_EVENT_FLAG_AND: u32 = 0x1;

/// Wait until any requested event is set.
pub const SDMMC_OSA_EVENT_FLAG_OR: u32 = 0x2;

} // verus!

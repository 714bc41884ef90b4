//! The SD status register, decoded.
use vstd::prelude::*;

verus! {

/// Fields of the SD status register.
#[derive(Debug, Clone, Copy, PartialEq, Eq, Structural)]
pub struct SdStatus {
    /// Current bus width
    pub bus_width: u8,
    /// Secured mode status
    pub secure_mode: u8,
    /// SD card type
    pub card_type: u16,
    /// Size of protected area
    pub protected_size: u32,
    /// Speed class of card
    pub speed_class: u8,
    /// Performance of move indicated by 1[MB/S] step
    pub performance_move: u8,
    /// Size of allocation unit (AU)
    pub au_size: u8,
    /// Number of AUs to be erased at a time
    pub erase_size: u16,
    /// Timeout value for erasing areas specified by UNIT OF ERASE AU
    pub erase_timeout: u8,
    /// Fixed offset value added to erase time
    pub erase_offset: u8,
    /// Speed grade for UHS mode
    pub uhs_speed_grade: u8,
    /// Size of allocation unit (AU) for UHS mode
    pub uhs_au_size: u8,
}

/// The status with every field zero.
pub open spec fn spec_sd_status_zero() -> SdStatus {
    SdStatus {
        bus_width: 0,
        secure_mode: 0,
        card_type: 0,
        protected_size: 0,
        speed_class: 0,
        performance_move: 0,
        au_size: 0,
        erase_size: 0,
        erase_timeout: 0,
        erase_offset: 0,
        uhs_speed_grade: 0,
        uhs_au_size: 0,
    }
}

impl SdStatus {
    /// A status with every field zero.
    pub fn new() -> (r: Self)
        ensures
            r == spec_sd_status_zero(),
    {
        SdStatus {
            bus_width: 0,
            secure_mode: 0,
            card_type: 0,
            protected_size: 0,
            speed_class: 0,
            performance_move: 0,
            au_size: 0,
            erase_size: 0,
            erase_timeout: 0,
            erase_offset: 0,
            uhs_speed_grade: 0,
            uhs_au_size: 0,
        }
    }
}

impl Default for SdStatus {
    fn default() -> (r: Self)
        ensures
            r == spec_sd_status_zero(),
    {
        SdStatus::new()
    }
}

} // verus!

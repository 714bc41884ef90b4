//! Errors of the interrupt controller.
use vstd::prelude::*;
use crate::regs::RegError;

verus! {

/// Errors of the interrupt controller.
#[derive(Clone, Copy, PartialEq, Eq, Structural, Debug)]
pub enum GicError {
    CtlrTypeError,
    CtlrNumError,
    CtlrSetError,
    CtlrGetError,
    Timeout,
    ItsQuietCendError,
    ItsGetCmdError,
    /// No redistributor belongs to the current CPU.
    RedisGetError,
    /// The interrupt translation service is not available.
    ItsDeviceNotExist,
}

impl RegError for GicError {
    fn timeout() -> (r: Self)
        ensures
            r == GicError::Timeout,
    {
        GicError::Timeout
    }
}

/// Result of an interrupt controller operation.
pub type GicStatus = Result<(), GicError>;

} // verus!

//! Register access conventions shared by the controllers.
use vstd::prelude::*;

verus! {

/// An error type that can report a register wait that timed out.
pub trait RegError: Sized {
    /// The error that stands for a timeout.
    fn timeout() -> Self;
}

/// A 32-bit register write: `value` to the register at `base + offset`.
#[derive(Clone, Copy, PartialEq, Eq, Structural, Debug)]
pub struct RegWrite {
    pub base: u32,
    pub offset: u32,
    pub value: u32,
}

} // verus!

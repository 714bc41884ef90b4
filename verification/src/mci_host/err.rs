//! Errors of the host layer.
use vstd::prelude::*;

verus! {

/// Errors of the host layer.
#[derive(Clone, Copy, PartialEq, Eq, Structural, Debug)]
pub enum MCIHostError {
    /// The operation failed.
    Fail,
    /// Data that the operation needs is missing.
    NoData,
    /// The operation timed out.
    Timeout,
}

/// Result of a host layer operation.
pub type MCIHostStatus = Result<(), MCIHostError>;

} // verus!

//! Operating-system abstraction: transfer event flags.
pub mod consts;
pub mod event;

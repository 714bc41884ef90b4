//! Event flags that report transfer completion to a waiting task.
//!
//! The flags live in an `EventState`; locking and blocking until an event
//! arrives belong to the caller that owns the state.
use vstd::prelude::*;
use crate::osa::consts::SDMMC_OSA_EVENT_FLAG_AND;

verus! {

/// Whether a waiter that asked for `event_type` is satisfied by the flags
/// `event` it read: when the AND bit is set in the flags read, they must equal
/// the requested set exactly; otherwise one requested bit suffices.
pub open spec fn event_wait_satisfied(event: u32, event_type: u32) -> bool {
    if event & SDMMC_OSA_EVENT_FLAG_AND != 0 {
        event == event_type
    } else {
        event & event_type != 0
    }
}

/// The set of pending event flags.
pub struct EventState {
    event_flag: u32,
}

impl View for EventState {
    type V = u32;

    closed spec fn view(&self) -> u32 {
        self.event_flag
    }
}

impl Default for EventState {
    fn default() -> (r: Self)
        ensures
            r@ == 0,
    {
        EventState { event_flag: 0 }
    }
}

impl EventState {
    /// An event state with no flag set.
    pub fn new() -> (r: Self)
        ensures
            r@ == 0,
    {
        EventState { event_flag: 0 }
    }

    /// Sets the flags of `event_type`; the other flags stay as they were.
    pub fn osa_event_set(&mut self, event_type: u32) -> (r: Result<(), &'static str>)
        ensures
            final(self)@ == old(self)@ | event_type,
            r is Ok,
    {
        self.event_flag = self.event_flag | event_type;
        Ok(())
    }

    /// The flags currently set.
    pub fn osa_event_get(&self) -> (r: u32)
        ensures
            r == self@,
    {
        self.event_flag
    }

    /// Clears the flags of `event_type`; the other flags stay as they were.
    pub fn osa_event_clear(&mut self, event_type: u32)
        ensures
            final(self)@ == old(self)@ & !event_type,
    {
        self.event_flag = self.event_flag & !event_type;
    }

    /// Reads the flags into `event` and says whether they satisfy a waiter
    /// that asked for `event_type` (see `event_wait_satisfied`).
    pub fn osa_event_wait(
        &self,
        event_type: u32,
        _timeout_ms: u32,
        event: &mut u32,
        _flags: u32,
    ) -> (r: Result<(), &'static str>)
        ensures
            *final(event) == self@,
            r is Ok <==> event_wait_satisfied(self@, event_type),
            r is Err ==> r == Err::<(), &'static str>("event wait failed"),
    {
        *event = self.osa_event_get();
        if *event & SDMMC_OSA_EVENT_FLAG_AND != 0 {
            if *event == event_type {
                return Ok(());
            }
        } else {
            if *event & event_type != 0 {
                return Ok(());
            }
        }
        Err("event wait failed")
    }
}

/// Setting events makes each of them pending and leaves every other flag as
/// it was.
pub proof fn lemma_event_set_then_get(before: u32, event_type: u32, bit: u32)
    requires
        bit < 32,
    ensures
        (event_type >> bit) & 1 == 1 ==> ((before | event_type) >> bit) & 1 == 1,
        (event_type >> bit) & 1 == 0 ==> ((before | event_type) >> bit) & 1 == (before >> bit) & 1,
{
    assert((event_type >> bit) & 1 == 1 ==> ((before | event_type) >> bit) & 1 == 1) by (bit_vector);
    assert((event_type >> bit) & 1 == 0 ==> ((before | event_type) >> bit) & 1 == (before >> bit) & 1)
        by (bit_vector);
}

/// Clearing events removes each of them and leaves every other flag as it
/// was.
pub proof fn lemma_event_clear_then_get(before: u32, event_type: u32, bit: u32)
    requires
        bit < 32,
    ensures
        (event_type >> bit) & 1 == 1 ==> ((before & !event_type) >> bit) & 1 == 0,
        (event_type >> bit) & 1 == 0 ==> ((before & !event_type) >> bit) & 1 == (before >> bit) & 1,
{
    assert((event_type >> bit) & 1 == 1 ==> ((before & !event_type) >> bit) & 1 == 0) by (bit_vector);
    assert((event_type >> bit) & 1 == 0 ==> ((before & !event_type) >> bit) & 1 == (before >> bit) & 1)
        by (bit_vector);
}

/// Clearing what was set undoes the set on those flags: set then clear of the
/// same events gives the flags before, with those events cleared.
pub proof fn lemma_event_set_then_clear(before: u32, event_type: u32)
    ensures
        (before | event_type) & !event_type == before & !event_type,
{
    assert((before | event_type) & !event_type == before & !event_type) by (bit_vector);
}

/// Setting the same events twice is the same as setting them once.
pub proof fn lemma_event_set_idempotent(before: u32, event_type: u32)
    ensures
        (before | event_type) | event_type == before | event_type,
{
    assert((before | event_type) | event_type == before | event_type) by (bit_vector);
}

/// Without the AND bit in the flags, a waiter is satisfied exactly when one
/// requested event has been set; with no event pending, no waiter is.
pub proof fn lemma_wait_after_set(before: u32, set: u32, event_type: u32)
    requires
        (before | set) & SDMMC_OSA_EVENT_FLAG_AND == 0,
        set & event_type != 0,
    ensures
        event_wait_satisfied(before | set, event_type),
        !event_wait_satisfied(0, event_type),
{
    assert((before | set) & event_type != 0) by (bit_vector)
        requires set & event_type != 0;
    assert(SDMMC_OSA_EVENT_FLAG_AND == 1) by (bit_vector);
    assert(0u32 & 1u32 == 0u32 && 0u32 & event_type == 0u32) by (bit_vector);
}

} // verus!

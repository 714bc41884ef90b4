//! Handlers that the controller calls on its events.
use vstd::prelude::*;

verus! {

/// Events that the controller reports to the host layer.
#[derive(Clone, Copy, PartialEq, Eq, Structural, Debug)]
pub enum FSdifEvtType {
    CardDetected,
    CmdDone,
    DataDone,
    SdioIrq,
    ErrOccured,
}

/// Number of event types.
pub const FSDIF_NUM_OF_EVT: usize = 5;

/// Position of an event type in the handler table.
pub open spec fn spec_evt_index(evt: FSdifEvtType) -> int {
    match evt {
        FSdifEvtType::CardDetected => 0,
        FSdifEvtType::CmdDone => 1,
        FSdifEvtType::DataDone => 2,
        FSdifEvtType::SdioIrq => 3,
        FSdifEvtType::ErrOccured => 4,
    }
}

/// Position of an event type in the handler table.
pub fn evt_index(evt: FSdifEvtType) -> (r: usize)
    ensures
        r == spec_evt_index(evt),
        r < FSDIF_NUM_OF_EVT,
{
    match evt {
        FSdifEvtType::CardDetected => 0,
        FSdifEvtType::CmdDone => 1,
        FSdifEvtType::DataDone => 2,
        FSdifEvtType::SdioIrq => 3,
        FSdifEvtType::ErrOccured => 4,
    }
}

/// For each event type, the handler to call and the argument to hand it.
/// `H` is the handler type, `P` the argument type.
pub struct MCIEvtHandlers<H, P> {
    handlers: Vec<Option<H>>,
    args: Vec<Option<P>>,
}

impl<H: Copy, P: Copy> MCIEvtHandlers<H, P> {
    /// Every table that `new` builds has one entry per event type.
    pub closed spec fn wf(&self) -> bool {
        self.handlers@.len() == FSDIF_NUM_OF_EVT && self.args@.len() == FSDIF_NUM_OF_EVT
    }

    /// The handler registered for `evt`.
    pub closed spec fn spec_handler(&self, evt: FSdifEvtType) -> Option<H> {
        self.handlers@[spec_evt_index(evt)]
    }

    /// The argument registered for `evt`.
    pub closed spec fn spec_arg(&self, evt: FSdifEvtType) -> Option<P> {
        self.args@[spec_evt_index(evt)]
    }

    /// A table with no handler and no argument.
    pub fn new() -> (r: Self)
        ensures
            r.wf(),
            forall|e: FSdifEvtType| #[trigger] r.spec_handler(e) is None && r.spec_arg(e) is None,
    {
        let mut handlers: Vec<Option<H>> = Vec::new();
        let mut args: Vec<Option<P>> = Vec::new();
        while handlers.len() < FSDIF_NUM_OF_EVT
            invariant
                handlers@.len() == args@.len(),
                handlers@.len() <= FSDIF_NUM_OF_EVT,
                forall|i: int| 0 <= i < handlers@.len() ==> (#[trigger] handlers@[i]) is None,
                forall|i: int| 0 <= i < args@.len() ==> (#[trigger] args@[i]) is None,
            decreases FSDIF_NUM_OF_EVT - handlers@.len(),
        {
            handlers.push(None);
            args.push(None);
        }
        let r = Self { handlers, args };
        assert forall|e: FSdifEvtType| #[trigger] r.spec_handler(e) is None && r.spec_arg(e) is None by {
            assert(0 <= spec_evt_index(e) < 5);
        }
        r
    }

    /// Registers `handler` with argument `param` for `evt`; the other event
    /// types keep theirs.
    pub fn register_event_handler(&mut self, evt: FSdifEvtType, handler: Option<H>, param: P)
        requires
            old(self).wf(),
        ensures
            final(self).wf(),
            final(self).spec_handler(evt) == handler,
            final(self).spec_arg(evt) == Some(param),
            forall|e: FSdifEvtType|
                e != evt ==> #[trigger] final(self).spec_handler(e) == old(self).spec_handler(e)
                    && final(self).spec_arg(e) == old(self).spec_arg(e),
    {
        let i = evt_index(evt);
        self.handlers.set(i, handler);
        self.args.set(i, Some(param));
        assert forall|e: FSdifEvtType|
            e != evt implies #[trigger] self.spec_handler(e) == old(self).spec_handler(e)
                && self.spec_arg(e) == old(self).spec_arg(e) by {
            assert(spec_evt_index(e) != spec_evt_index(evt));
        }
    }

    /// The handler registered for `evt`.
    pub fn evt_handler(&self, evt: FSdifEvtType) -> (r: Option<H>)
        requires
            self.wf(),
        ensures
            r == self.spec_handler(evt),
    {
        self.handlers[evt_index(evt)]
    }

    /// The argument registered for `evt`.
    pub fn evt_args(&self, evt: FSdifEvtType) -> (r: Option<P>)
        requires
            self.wf(),
        ensures
            r == self.spec_arg(evt),
    {
        self.args[evt_index(evt)]
    }
}

} // verus!

//! The table of installed interrupt handlers.
//!
//! Each interrupt id below `MAX_HANDLERS` owns one descriptor holding the
//! handler to call and the parameter to hand it.  Handler and parameter types
//! are type parameters: the driver instantiates them with its handler
//! function type and a non-zero address.
use vstd::prelude::*;

verus! {

/// Number of interrupt ids that can own a handler.
pub const MAX_HANDLERS: usize = 1024;

/// The handler and parameter installed for one interrupt.
#[derive(Clone, Copy)]
pub struct IrqDesc<H, P> {
    handler: Option<H>,
    param: Option<P>,
}

impl<H: Copy, P: Copy> IrqDesc<H, P> {
    /// The installed handler.
    pub closed spec fn spec_handler(self) -> Option<H> {
        self.handler
    }

    /// The installed parameter.
    pub closed spec fn spec_param(self) -> Option<P> {
        self.param
    }

    /// A descriptor with neither handler nor parameter.
    pub fn new() -> (r: Self)
        ensures
            r.spec_handler() is None,
            r.spec_param() is None,
    {
        Self { handler: None, param: None }
    }

    /// Replaces the handler; the parameter stays.
    pub fn handler_set(&mut self, handler: Option<H>)
        ensures
            final(self).spec_handler() == handler,
            final(self).spec_param() == old(self).spec_param(),
    {
        self.handler = handler;
    }

    /// Replaces the parameter; the handler stays.
    pub fn param_set(&mut self, param: Option<P>)
        ensures
            final(self).spec_param() == param,
            final(self).spec_handler() == old(self).spec_handler(),
    {
        self.param = param;
    }

    /// The installed handler.
    pub fn handler(&self) -> (r: Option<H>)
        ensures
            r == self.spec_handler(),
    {
        self.handler
    }

    /// The installed parameter.
    pub fn param(&self) -> (r: Option<P>)
        ensures
            r == self.spec_param(),
    {
        self.param
    }
}

/// One descriptor for each interrupt id below `MAX_HANDLERS`; every table
/// that `new` builds holds exactly `MAX_HANDLERS` descriptors.
pub struct IsrTable<H, P> {
    inner: Vec<IrqDesc<H, P>>,
}

impl<H: Copy, P: Copy> View for IsrTable<H, P> {
    type V = Seq<IrqDesc<H, P>>;

    closed spec fn view(&self) -> Seq<IrqDesc<H, P>> {
        self.inner@
    }
}

impl<H: Copy, P: Copy> IsrTable<H, P> {
    /// A table in which no interrupt has a handler or a parameter.
    pub fn new() -> (r: Self)
        ensures
            r@.len() == MAX_HANDLERS,
            forall|i: int| 0 <= i < MAX_HANDLERS ==> (#[trigger] r@[i]).spec_handler() is None
                && r@[i].spec_param() is None,
    {
        let mut inner: Vec<IrqDesc<H, P>> = Vec::new();
        while inner.len() < MAX_HANDLERS
            invariant
                inner@.len() <= MAX_HANDLERS,
                forall|i: int| 0 <= i < inner@.len() ==> (#[trigger] inner@[i]).spec_handler() is None
                    && inner@[i].spec_param() is None,
            decreases MAX_HANDLERS - inner@.len(),
        {
            inner.push(IrqDesc::new());
        }
        Self { inner }
    }

    /// Replaces the handler of interrupt `idx`; everything else stays.
    pub fn handler_set(&mut self, handler: Option<H>, idx: usize)
        requires
            idx < MAX_HANDLERS,
            old(self)@.len() == MAX_HANDLERS,
        ensures
            final(self)@.len() == MAX_HANDLERS,
            final(self)@[idx as int].spec_handler() == handler,
            final(self)@[idx as int].spec_param() == old(self)@[idx as int].spec_param(),
            forall|i: int| 0 <= i < MAX_HANDLERS && i != idx ==> final(self)@[i] == old(self)@[i],
    {
        let mut desc = self.inner[idx];
        desc.handler_set(handler);
        self.inner.set(idx, desc);
    }

    /// Replaces the parameter of interrupt `idx`; everything else stays.
    pub fn param_set(&mut self, param: Option<P>, idx: usize)
        requires
            idx < MAX_HANDLERS,
            old(self)@.len() == MAX_HANDLERS,
        ensures
            final(self)@.len() == MAX_HANDLERS,
            final(self)@[idx as int].spec_param() == param,
            final(self)@[idx as int].spec_handler() == old(self)@[idx as int].spec_handler(),
            forall|i: int| 0 <= i < MAX_HANDLERS && i != idx ==> final(self)@[i] == old(self)@[i],
    {
        let mut desc = self.inner[idx];
        desc.param_set(param);
        self.inner.set(idx, desc);
    }

    /// The descriptor of interrupt `idx`.
    pub fn desc(&self, idx: usize) -> (r: IrqDesc<H, P>)
        requires
            idx < MAX_HANDLERS,
            self@.len() == MAX_HANDLERS,
        ensures
            r == self@[idx as int],
    {
        self.inner[idx]
    }
}

/// Replaces the handler of interrupt `idx` in `table`.
pub fn handler_set<H: Copy, P: Copy>(table: &mut IsrTable<H, P>, handler: Option<H>, idx: usize)
    requires
        idx < MAX_HANDLERS,
        old(table)@.len() == MAX_HANDLERS,
    ensures
        final(table)@.len() == MAX_HANDLERS,
        final(table)@[idx as int].spec_handler() == handler,
        final(table)@[idx as int].spec_param() == old(table)@[idx as int].spec_param(),
        forall|i: int| 0 <= i < MAX_HANDLERS && i != idx ==> final(table)@[i] == old(table)@[i],
{
    table.handler_set(handler, idx);
}

/// Replaces the parameter of interrupt `idx` in `table`.
pub fn param_set<H: Copy, P: Copy>(table: &mut IsrTable<H, P>, param: Option<P>, idx: usize)
    requires
        idx < MAX_HANDLERS,
        old(table)@.len() == MAX_HANDLERS,
    ensures
        final(table)@.len() == MAX_HANDLERS,
        final(table)@[idx as int].spec_param() == param,
        final(table)@[idx as int].spec_handler() == old(table)@[idx as int].spec_handler(),
        forall|i: int| 0 <= i < MAX_HANDLERS && i != idx ==> final(table)@[i] == old(table)@[i],
{
    table.param_set(param, idx);
}

/// Installs `handler` and `param` for interrupt `int_id` when the id has a
/// descriptor (0 <= int_id < MAX_HANDLERS); other ids, locality-specific
/// interrupts among them, leave the table as it was.
pub fn interrupt_install<H: Copy, P: Copy>(
    table: &mut IsrTable<H, P>,
    int_id: isize,
    handler: Option<H>,
    param: Option<P>,
)
    requires
        old(table)@.len() == MAX_HANDLERS,
    ensures
        final(table)@.len() == MAX_HANDLERS,
        0 <= int_id < MAX_HANDLERS ==> {
            &&& final(table)@[int_id as int].spec_handler() == handler
            &&& final(table)@[int_id as int].spec_param() == param
            &&& forall|i: int| 0 <= i < MAX_HANDLERS && i != int_id ==> final(table)@[i] == old(
                table,
            )@[i]
        },
        !(0 <= int_id < MAX_HANDLERS) ==> final(table)@ == old(table)@,
{
    if 0 <= int_id && int_id < MAX_HANDLERS as isize {
        let idx = int_id as usize;
        handler_set(table, handler, idx);
        param_set(table, param, idx);
    }
}

} // verus!

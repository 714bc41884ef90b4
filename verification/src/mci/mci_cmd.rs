//! A command as the controller sends it.
use vstd::prelude::*;
use crate::mci::mci_data::MCIData;

verus! {

/// Index, argument, flags and data of a controller command.
#[derive(Debug, Clone)]
pub struct MCICmdData {
    cmdidx: u32,
    cmdarg: u32,
    flag: u32,
    data: Option<MCIData>,
}

impl MCICmdData {
    pub closed spec fn spec_cmdidx(&self) -> u32 {
        self.cmdidx
    }

    pub closed spec fn spec_cmdarg(&self) -> u32 {
        self.cmdarg
    }

    pub closed spec fn spec_flag(&self) -> u32 {
        self.flag
    }

    pub closed spec fn spec_data(&self) -> Option<MCIData> {
        self.data
    }

    /// Command 0 with argument 0, no flag and no data.
    pub fn new() -> (r: Self)
        ensures
            r.spec_cmdidx() == 0,
            r.spec_cmdarg() == 0,
            r.spec_flag() == 0,
            r.spec_data() is None,
    {
        MCICmdData { cmdidx: 0, cmdarg: 0, flag: 0, data: None }
    }

    pub fn cmdidx(&self) -> (r: u32)
        ensures
            r == self.spec_cmdidx(),
    {
        self.cmdidx
    }

    pub fn cmdidx_set(&mut self, cmdidx: u32)
        ensures
            final(self).spec_cmdidx() == cmdidx,
            final(self).spec_cmdarg() == old(self).spec_cmdarg(),
            final(self).spec_flag() == old(self).spec_flag(),
            final(self).spec_data() == old(self).spec_data(),
    {
        self.cmdidx = cmdidx;
    }

    pub fn cmdarg(&self) -> (r: u32)
        ensures
            r == self.spec_cmdarg(),
    {
        self.cmdarg
    }

    pub fn cmdarg_set(&mut self, cmdarg: u32)
        ensures
            final(self).spec_cmdarg() == cmdarg,
            final(self).spec_cmdidx() == old(self).spec_cmdidx(),
            final(self).spec_flag() == old(self).spec_flag(),
            final(self).spec_data() == old(self).spec_data(),
    {
        self.cmdarg = cmdarg;
    }

    pub fn flag(&self) -> (r: u32)
        ensures
            r == self.spec_flag(),
    {
        self.flag
    }

    pub fn flag_set(&mut self, flag: u32)
        ensures
            final(self).spec_flag() == flag,
            final(self).spec_cmdidx() == old(self).spec_cmdidx(),
            final(self).spec_cmdarg() == old(self).spec_cmdarg(),
            final(self).spec_data() == old(self).spec_data(),
    {
        self.flag = flag;
    }

    pub fn get_data(&self) -> (r: Option<&MCIData>)
        ensures
            match self.spec_data() {
                Some(d) => r is Some && *r.unwrap() == d,
                None => r is None,
            },
    {
        self.data.as_ref()
    }

    pub fn get_mut_data(&mut self) -> (r: Option<&mut MCIData>)
        ensures
            match old(self).spec_data() {
                Some(d) => r is Some && *r.unwrap() == d && final(self).spec_data() == Some(
                    *final(r.unwrap()),
                ),
                None => r is None && final(self).spec_data() is None,
            },
            final(self).spec_cmdidx() == old(self).spec_cmdidx(),
            final(self).spec_cmdarg() == old(self).spec_cmdarg(),
            final(self).spec_flag() == old(self).spec_flag(),
    {
        self.data.as_mut()
    }

    pub fn set_data(&mut self, data: Option<MCIData>)
        ensures
            final(self).spec_data() == data,
            final(self).spec_cmdidx() == old(self).spec_cmdidx(),
            final(self).spec_cmdarg() == old(self).spec_cmdarg(),
            final(self).spec_flag() == old(self).spec_flag(),
    {
        self.data = data;
    }
}

} // verus!

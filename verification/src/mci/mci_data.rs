//! Data part of a controller command.
use vstd::prelude::*;

verus! {

/// The data buffer and block geometry of a transfer.
#[derive(Debug, Clone)]
pub struct MCIData {
    buf: Option<Vec<u32>>,
    buf_dma: usize,
    blksz: u32,
    blkcnt: u32,
    datalen: u32,
}

impl MCIData {
    /// The buffer, if one is attached.
    pub closed spec fn spec_buf(&self) -> Option<Vec<u32>> {
        self.buf
    }

    /// Bus address of the buffer.
    pub closed spec fn spec_buf_dma(&self) -> usize {
        self.buf_dma
    }

    /// Block size in bytes.
    pub closed spec fn spec_blksz(&self) -> u32 {
        self.blksz
    }

    /// Number of blocks.
    pub closed spec fn spec_blkcnt(&self) -> u32 {
        self.blkcnt
    }

    /// Length of the transfer in bytes.
    pub closed spec fn spec_datalen(&self) -> u32 {
        self.datalen
    }

    /// Transfer data with no buffer and all sizes zero.
    pub fn new() -> (r: Self)
        ensures
            r.spec_buf() is None,
            r.spec_buf_dma() == 0,
            r.spec_blksz() == 0,
            r.spec_blkcnt() == 0,
            r.spec_datalen() == 0,
    {
        MCIData { buf: None, buf_dma: 0, blksz: 0, blkcnt: 0, datalen: 0 }
    }

    pub fn blksz(&self) -> (r: u32)
        ensures
            r == self.spec_blksz(),
    {
        self.blksz
    }

    pub fn blksz_set(&mut self, blksz: u32)
        ensures
            final(self).spec_blksz() == blksz,
            final(self).spec_blkcnt() == old(self).spec_blkcnt(),
            final(self).spec_datalen() == old(self).spec_datalen(),
            final(self).spec_buf() == old(self).spec_buf(),
            final(self).spec_buf_dma() == old(self).spec_buf_dma(),
    {
        self.blksz = blksz
    }

    pub fn blkcnt(&self) -> (r: u32)
        ensures
            r == self.spec_blkcnt(),
    {
        self.blkcnt
    }

    pub fn blkcnt_set(&mut self, blkcnt: u32)
        ensures
            final(self).spec_blkcnt() == blkcnt,
            final(self).spec_blksz() == old(self).spec_blksz(),
            final(self).spec_datalen() == old(self).spec_datalen(),
            final(self).spec_buf() == old(self).spec_buf(),
            final(self).spec_buf_dma() == old(self).spec_buf_dma(),
    {
        self.blkcnt = blkcnt
    }

    pub fn datalen(&self) -> (r: u32)
        ensures
            r == self.spec_datalen(),
    {
        self.datalen
    }

    pub fn datalen_set(&mut self, datalen: u32)
        ensures
            final(self).spec_datalen() == datalen,
            final(self).spec_blksz() == old(self).spec_blksz(),
            final(self).spec_blkcnt() == old(self).spec_blkcnt(),
            final(self).spec_buf() == old(self).spec_buf(),
            final(self).spec_buf_dma() == old(self).spec_buf_dma(),
    {
        self.datalen = datalen
    }

    pub fn buf(&self) -> (r: Option<&Vec<u32>>)
        ensures
            match self.spec_buf() {
                Some(b) => r is Some && *r.unwrap() == b,
                None => r is None,
            },
    {
        self.buf.as_ref()
    }

    pub fn buf_mut(&mut self) -> (r: Option<&mut Vec<u32>>)
        ensures
            match old(self).spec_buf() {
                Some(b) => r is Some && *r.unwrap() == b && final(self).spec_buf()
                    == Some(*final(r.unwrap())),
                None => r is None && final(self).spec_buf() is None,
            },
            final(self).spec_blksz() == old(self).spec_blksz(),
            final(self).spec_blkcnt() == old(self).spec_blkcnt(),
            final(self).spec_datalen() == old(self).spec_datalen(),
            final(self).spec_buf_dma() == old(self).spec_buf_dma(),
    {
        self.buf.as_mut()
    }

    /// Detaches the buffer and hands it out.
    pub fn buf_take(&mut self) -> (r: Option<Vec<u32>>)
        ensures
            r == old(self).spec_buf(),
            final(self).spec_buf() is None,
            final(self).spec_blksz() == old(self).spec_blksz(),
            final(self).spec_blkcnt() == old(self).spec_blkcnt(),
            final(self).spec_datalen() == old(self).spec_datalen(),
            final(self).spec_buf_dma() == old(self).spec_buf_dma(),
    {
        self.buf.take()
    }

    pub fn buf_set(&mut self, buf: Option<Vec<u32>>)
        ensures
            final(self).spec_buf() == buf,
            final(self).spec_blksz() == old(self).spec_blksz(),
            final(self).spec_blkcnt() == old(self).spec_blkcnt(),
            final(self).spec_datalen() == old(self).spec_datalen(),
            final(self).spec_buf_dma() == old(self).spec_buf_dma(),
    {
        self.buf = buf
    }

    pub fn buf_dma(&self) -> (r: usize)
        ensures
            r == self.spec_buf_dma(),
    {
        self.buf_dma
    }

    pub fn buf_dma_set(&mut self, buf_dma: usize)
        ensures
            final(self).spec_buf_dma() == buf_dma,
            final(self).spec_blksz() == old(self).spec_blksz(),
            final(self).spec_blkcnt() == old(self).spec_blkcnt(),
            final(self).spec_datalen() == old(self).spec_datalen(),
            final(self).spec_buf() == old(self).spec_buf(),
    {
        self.buf_dma = buf_dma;
    }
}

} // verus!

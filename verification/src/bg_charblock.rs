//! The four character blocks of tile memory that background layers draw
//! from.

use vstd::prelude::*;

use crate::vol::VolAddress;
use crate::volregion::VolRegion;

verus! {

/// One of the four background character blocks, selected by index.
#[derive(Clone, Copy, Debug, PartialEq, Eq, Structural)]
pub struct BgCharblock(usize);

impl BgCharblock {
    /// The block's index.
    pub closed spec fn spec_index(self) -> int {
        self.0 as int
    }

    /// The index selects one of the four blocks.
    pub open spec fn wf(self) -> bool {
        self.spec_index() < 4
    }

    /// The character block with index `n`, or nothing for an index of four
    /// or more.
    pub fn try_new(n: usize) -> (r: Option<Self>)
        ensures
            match r {
                Some(b) => n < 4 && b.wf() && b.spec_index() == n,
                None => n >= 4,
            },
    {
        if n < 4 {
            Some(BgCharblock(n))
        } else {
            None
        }
    }

    /// The block's tiles viewed at four bits per pixel: 32-byte elements.
    /// Blocks before the last hold 1024 such tiles; the last holds 512,
    /// because the text screen blocks share its upper half.
    pub fn tiles4(self) -> (r: VolRegion<32, true, true>)
        requires
            self.wf(),
        ensures
            r.wf(),
            r.spec_addr() == 0x0600_0000 + self.spec_index() * 16384,
            r.spec_len() == if self.spec_index() < 3 {
                1024int
            } else {
                512int
            },
    {
        let len: usize = if self.0 < 3 {
            1024
        } else {
            512
        };
        let addr: VolAddress<32, true, true> = VolAddress::new(0x0600_0000 + 16384 * self.0);
        VolRegion::from_raw_parts(addr, len)
    }

    /// The block's tiles viewed at eight bits per pixel: 64-byte elements.
    /// The view runs to the end of tile memory, so later blocks hold fewer
    /// tiles.
    pub fn tiles8(self) -> (r: VolRegion<64, true, true>)
        requires
            self.wf(),
        ensures
            r.wf(),
            r.spec_addr() == 0x0600_0000 + self.spec_index() * 16384,
            r.spec_len() == if self.spec_index() < 2 {
                1024int
            } else if self.spec_index() == 2 {
                512int
            } else {
                256int
            },
    {
        let len: usize = if self.0 < 2 {
            1024
        } else if self.0 == 2 {
            512
        } else {
            256
        };
        let addr: VolAddress<64, true, true> = VolAddress::new(0x0600_0000 + 16384 * self.0);
        VolRegion::from_raw_parts(addr, len)
    }
}

} // verus!

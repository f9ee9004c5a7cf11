//! Typed volatile address handles and their statically sized aggregations.
//!
//! A handle is bound to one fixed device address and carries its element
//! width `S` in bytes and two capability markers, `R` and `W`, fixed at
//! construction: a load is only permitted when `R` holds and a store only
//! when `W` holds, and both obligations are discharged statically, never by a
//! runtime check. Construction is the single point where the caller asserts
//! that the address denotes a real, correctly typed hardware location; after
//! that every address computation is verified.

use vstd::arithmetic::mul::{lemma_mul_inequality, lemma_mul_nonnegative};
use vstd::prelude::*;

use crate::mem::{le16, le32, MemImage};

verus! {

/// A capability-typed accessor for one `S`-byte element at one fixed device
/// address. `R` grants loads, `W` grants stores.
#[derive(Debug)]
pub struct VolAddress<const S: usize, const R: bool, const W: bool> {
    addr: usize,
}

impl<const S: usize, const R: bool, const W: bool> Clone for VolAddress<S, R, W> {
    fn clone(&self) -> (r: Self)
        ensures
            r == *self,
    {
        VolAddress { addr: self.addr }
    }
}

impl<const S: usize, const R: bool, const W: bool> Copy for VolAddress<S, R, W> {

}

impl<const S: usize, const R: bool, const W: bool> VolAddress<S, R, W> {
    /// The address the handle is bound to.
    pub closed spec fn spec_addr(self) -> int {
        self.addr as int
    }

    /// A handle never denotes the null address and its element has a width.
    pub closed spec fn wf(self) -> bool {
        0 < self.spec_addr() && 1 <= S
    }

    /// Binds a handle to `addr`. The caller asserts, here and only here, that
    /// `addr` denotes a real hardware location of this element width and with
    /// these access directions.
    pub fn new(addr: usize) -> (r: Self)
        requires
            0 < addr,
            1 <= S,
        ensures
            r.wf(),
            r.spec_addr() == addr,
    {
        VolAddress { addr }
    }

    /// The numeric value of the address.
    pub fn as_usize(self) -> (r: usize)
        ensures
            r == self.spec_addr(),
    {
        self.addr
    }

    /// The handle `count` elements further on: same element type, same
    /// capabilities, address `count * S` bytes higher. The caller justifies
    /// that the target still lies in the range it constructed.
    pub fn add(self, count: usize) -> (r: Self)
        requires
            self.wf(),
            self.spec_addr() + count * S <= usize::MAX,
        ensures
            r.wf(),
            r.spec_addr() == self.spec_addr() + count * S,
    {
        proof {
            lemma_mul_nonnegative(count as int, S as int);
        }
        VolAddress { addr: self.addr + count * S }
    }

    /// One full-width load of a one-byte element, permitted by `R`.
    pub fn read_u8(self, mem: &MemImage) -> (r: u8)
        requires
            R,
            S == 1,
            mem.wf(),
            mem.covers(self.spec_addr(), 1),
        ensures
            r == mem.data()[self.spec_addr() - mem.spec_base()],
    {
        mem.read_u8(self.addr)
    }

    /// One full-width store of a one-byte element, permitted by `W`.
    pub fn write_u8(self, mem: &mut MemImage, v: u8)
        requires
            W,
            S == 1,
            old(mem).wf(),
            old(mem).covers(self.spec_addr(), 1),
        ensures
            final(mem).wf(),
            final(mem).spec_base() == old(mem).spec_base(),
            final(mem).data() == old(mem).data().update(
                self.spec_addr() - old(mem).spec_base(),
                v,
            ),
    {
        mem.write_u8(self.addr, v)
    }

    /// One full-width load of a two-byte element, permitted by `R`: both
    /// bytes in a single access, never split.
    pub fn read_u16(self, mem: &MemImage) -> (r: u16)
        requires
            R,
            S == 2,
            mem.wf(),
            mem.covers(self.spec_addr(), 2),
        ensures
            r == le16(
                mem.data()[self.spec_addr() - mem.spec_base()],
                mem.data()[self.spec_addr() - mem.spec_base() + 1],
            ),
    {
        mem.read_u16(self.addr)
    }

    /// One full-width store of a two-byte element, permitted by `W`: both
    /// bytes in a single access, never split.
    pub fn write_u16(self, mem: &mut MemImage, v: u16)
        requires
            W,
            S == 2,
            old(mem).wf(),
            old(mem).covers(self.spec_addr(), 2),
        ensures
            final(mem).wf(),
            final(mem).spec_base() == old(mem).spec_base(),
            final(mem).data() == old(mem).data().update(
                self.spec_addr() - old(mem).spec_base(),
                (v % 256) as u8,
            ).update(self.spec_addr() - old(mem).spec_base() + 1, (v / 256) as u8),
            le16(
                final(mem).data()[self.spec_addr() - old(mem).spec_base()],
                final(mem).data()[self.spec_addr() - old(mem).spec_base() + 1],
            ) == v,
    {
        mem.write_u16(self.addr, v)
    }

    /// One full-width load of a four-byte element, permitted by `R`: all four
    /// bytes in a single access, never split.
    pub fn read_u32(self, mem: &MemImage) -> (r: u32)
        requires
            R,
            S == 4,
            mem.wf(),
            mem.covers(self.spec_addr(), 4),
        ensures
            r == le32(
                mem.data()[self.spec_addr() - mem.spec_base()],
                mem.data()[self.spec_addr() - mem.spec_base() + 1],
                mem.data()[self.spec_addr() - mem.spec_base() + 2],
                mem.data()[self.spec_addr() - mem.spec_base() + 3],
            ),
    {
        mem.read_u32(self.addr)
    }

    /// One full-width store of a four-byte element, permitted by `W`: all
    /// four bytes in a single access, never split.
    pub fn write_u32(self, mem: &mut MemImage, v: u32)
        requires
            W,
            S == 4,
            old(mem).wf(),
            old(mem).covers(self.spec_addr(), 4),
        ensures
            final(mem).wf(),
            final(mem).spec_base() == old(mem).spec_base(),
            final(mem).data() == old(mem).data().update(
                self.spec_addr() - old(mem).spec_base(),
                (v % 256) as u8,
            ).update(self.spec_addr() - old(mem).spec_base() + 1, ((v / 256) % 256) as u8).update(
                self.spec_addr() - old(mem).spec_base() + 2,
                ((v / 65536) % 256) as u8,
            ).update(self.spec_addr() - old(mem).spec_base() + 3, (v / 16777216) as u8),
            le32(
                final(mem).data()[self.spec_addr() - old(mem).spec_base()],
                final(mem).data()[self.spec_addr() - old(mem).spec_base() + 1],
                final(mem).data()[self.spec_addr() - old(mem).spec_base() + 2],
                final(mem).data()[self.spec_addr() - old(mem).spec_base() + 3],
            ) == v,
    {
        mem.write_u32(self.addr, v)
    }
}

/// A statically sized run of `C` contiguous `S`-byte elements: the stride
/// between elements equals the element width.
#[derive(Debug)]
pub struct VolBlock<const S: usize, const R: bool, const W: bool, const C: usize> {
    base: VolAddress<S, R, W>,
}

impl<const S: usize, const R: bool, const W: bool, const C: usize> Clone for VolBlock<S, R, W, C> {
    fn clone(&self) -> (r: Self)
        ensures
            r == *self,
    {
        VolBlock { base: self.base }
    }
}

impl<const S: usize, const R: bool, const W: bool, const C: usize> Copy for VolBlock<S, R, W, C> {

}

impl<const S: usize, const R: bool, const W: bool, const C: usize> VolBlock<S, R, W, C> {
    /// The address of the first element.
    pub closed spec fn spec_base(self) -> int {
        self.base.spec_addr()
    }

    /// The whole run lies within the address space.
    pub closed spec fn wf(self) -> bool {
        self.base.wf() && self.spec_base() + C * S <= usize::MAX
    }

    /// Binds a block of `C` elements to its base address; the caller asserts
    /// the whole run denotes real hardware.
    pub fn new(addr: usize) -> (r: Self)
        requires
            0 < addr,
            1 <= S,
            addr + C * S <= usize::MAX,
        ensures
            r.wf(),
            r.spec_base() == addr,
    {
        VolBlock { base: VolAddress::new(addr) }
    }

    /// The number of elements.
    pub fn len(self) -> (r: usize)
        ensures
            r == C,
    {
        C
    }

    /// The handle for element `i`, at address `base + i * S`. The bound
    /// `i < C` is a static obligation: no handle to memory outside the block
    /// can be produced.
    pub fn index(self, i: usize) -> (r: VolAddress<S, R, W>)
        requires
            self.wf(),
            i < C,
        ensures
            r.wf(),
            r.spec_addr() == self.spec_base() + i * S,
    {
        proof {
            lemma_mul_inequality(i as int, C as int, S as int);
        }
        self.base.add(i)
    }

    /// The handle for element `i`, or nothing when `i` is out of range: the
    /// graceful twin of `index`.
    pub fn get(self, i: usize) -> (r: Option<VolAddress<S, R, W>>)
        requires
            self.wf(),
        ensures
            match r {
                Some(a) => i < C && a.wf() && a.spec_addr() == self.spec_base() + i * S,
                None => i >= C,
            },
    {
        if i < C {
            Some(self.index(i))
        } else {
            None
        }
    }

    /// The same elements under a handle that carries its length at runtime
    /// instead of in its type.
    pub fn to_region(self) -> (r: crate::volregion::VolRegion<S, R, W>)
        requires
            self.wf(),
        ensures
            r.wf(),
            r.spec_addr() == self.spec_base(),
            r.spec_len() == C,
    {
        crate::volregion::VolRegion::from_raw_parts(self.base, C)
    }

    /// A restartable pass over the elements in ascending address order; the
    /// block itself is stateless, so a fresh call starts again at the first
    /// element.
    pub fn iter(self) -> (r: VolBlockIter<S, R, W>)
        requires
            self.wf(),
        ensures
            r.wf(),
            r.spec_next() == self.spec_base(),
            r.spec_remaining() == C,
    {
        VolBlockIter { next: self.base, remaining: C }
    }
}

/// A statically sized run of `C` elements of `S` bytes each, spaced `STRIDE`
/// bytes apart: the layout of hardware tables whose entries are interleaved
/// with other data rather than packed.
#[derive(Debug)]
pub struct VolSeries<
    const S: usize,
    const R: bool,
    const W: bool,
    const C: usize,
    const STRIDE: usize,
> {
    base: VolAddress<S, R, W>,
}

impl<
    const S: usize,
    const R: bool,
    const W: bool,
    const C: usize,
    const STRIDE: usize,
> Clone for VolSeries<S, R, W, C, STRIDE> {
    fn clone(&self) -> (r: Self)
        ensures
            r == *self,
    {
        VolSeries { base: self.base }
    }
}

impl<
    const S: usize,
    const R: bool,
    const W: bool,
    const C: usize,
    const STRIDE: usize,
> Copy for VolSeries<S, R, W, C, STRIDE> {

}

impl<
    const S: usize,
    const R: bool,
    const W: bool,
    const C: usize,
    const STRIDE: usize,
> VolSeries<S, R, W, C, STRIDE> {
    /// The address of the first element.
    pub closed spec fn spec_base(self) -> int {
        self.base.spec_addr()
    }

    /// The stride covers the element and the whole table lies within the
    /// address space.
    pub closed spec fn wf(self) -> bool {
        self.base.wf() && S <= STRIDE && self.spec_base() + C * STRIDE <= usize::MAX
    }

    /// Binds a series of `C` elements, `STRIDE` bytes apart, to its base
    /// address; the caller asserts the whole table denotes real hardware.
    pub fn new(addr: usize) -> (r: Self)
        requires
            0 < addr,
            1 <= S <= STRIDE,
            addr + C * STRIDE <= usize::MAX,
        ensures
            r.wf(),
            r.spec_base() == addr,
    {
        VolSeries { base: VolAddress::new(addr) }
    }

    /// The number of elements.
    pub fn len(self) -> (r: usize)
        ensures
            r == C,
    {
        C
    }

    /// The handle for element `i`, at address `base + i * STRIDE` rather
    /// than `base + i * S`; the bound `i < C` is a static obligation.
    pub fn index(self, i: usize) -> (r: VolAddress<S, R, W>)
        requires
            self.wf(),
            i < C,
        ensures
            r.wf(),
            r.spec_addr() == self.spec_base() + i * STRIDE,
    {
        proof {
            lemma_mul_inequality(i as int, C as int, STRIDE as int);
            lemma_mul_nonnegative(i as int, STRIDE as int);
        }
        VolAddress::new(self.base.as_usize() + i * STRIDE)
    }

    /// The handle for element `i`, or nothing when `i` is out of range.
    pub fn get(self, i: usize) -> (r: Option<VolAddress<S, R, W>>)
        requires
            self.wf(),
        ensures
            match r {
                Some(a) => i < C && a.wf() && a.spec_addr() == self.spec_base() + i * STRIDE,
                None => i >= C,
            },
    {
        if i < C {
            Some(self.index(i))
        } else {
            None
        }
    }
}

/// A finite pass over a run of contiguous elements, in ascending address
/// order.
#[derive(Debug)]
pub struct VolBlockIter<const S: usize, const R: bool, const W: bool> {
    next: VolAddress<S, R, W>,
    remaining: usize,
}

/// A pass of `count` elements starting at the handle `start`.
pub(crate) fn iter_from_parts<const S: usize, const R: bool, const W: bool>(
    start: VolAddress<S, R, W>,
    count: usize,
) -> (r: VolBlockIter<S, R, W>)
    requires
        start.wf(),
        start.spec_addr() + count * S <= usize::MAX,
    ensures
        r.wf(),
        r.spec_next() == start.spec_addr(),
        r.spec_remaining() == count,
{
    VolBlockIter { next: start, remaining: count }
}

impl<const S: usize, const R: bool, const W: bool> VolBlockIter<S, R, W> {
    /// The address the next element would have.
    pub closed spec fn spec_next(self) -> int {
        self.next.spec_addr()
    }

    /// How many elements are still to come.
    pub closed spec fn spec_remaining(self) -> nat {
        self.remaining as nat
    }

    /// The rest of the pass lies within the address space.
    pub closed spec fn wf(self) -> bool {
        self.next.wf() && self.spec_next() + self.spec_remaining() * S <= usize::MAX
    }

    /// The handle for the next element, or nothing once the pass is done.
    pub fn next(&mut self) -> (r: Option<VolAddress<S, R, W>>)
        requires
            old(self).wf(),
        ensures
            final(self).wf(),
            match r {
                Some(a) => {
                    &&& old(self).spec_remaining() > 0
                    &&& a.wf()
                    &&& a.spec_addr() == old(self).spec_next()
                    &&& final(self).spec_next() == old(self).spec_next() + S
                    &&& final(self).spec_remaining() == old(self).spec_remaining() - 1
                },
                None => old(self).spec_remaining() == 0 && *final(self) == *old(self),
            },
    {
        if self.remaining == 0 {
            None
        } else {
            let current = self.next;
            proof {
                lemma_mul_nonnegative(self.remaining - 1, S as int);
            }
            assert((self.remaining - 1) * S == self.remaining * S - S) by (nonlinear_arith);
            self.next = self.next.add(1);
            self.remaining = self.remaining - 1;
            Some(current)
        }
    }
}

} // verus!

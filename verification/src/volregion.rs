//! A dynamically sized span of volatile memory.
//!
//! Where a block carries its element count in its type, a region bundles a
//! base handle with a runtime length, so that code can accept blocks of
//! different sizes uniformly and can slice them. Every region constructed by
//! slicing stays inside the span it was derived from.

use vstd::arithmetic::mul::{
    lemma_mul_inequality, lemma_mul_is_distributive_add_other_way, lemma_mul_nonnegative,
};
use vstd::prelude::*;

use crate::vol::{VolAddress, VolBlockIter};

verus! {

/// A run of `len` contiguous `S`-byte elements, with the length carried at
/// runtime.
#[derive(Debug)]
pub struct VolRegion<const S: usize, const R: bool, const W: bool> {
    addr: VolAddress<S, R, W>,
    len: usize,
}

impl<const S: usize, const R: bool, const W: bool> Clone for VolRegion<S, R, W> {
    fn clone(&self) -> (r: Self)
        ensures
            r == *self,
    {
        VolRegion { addr: self.addr, len: self.len }
    }
}

impl<const S: usize, const R: bool, const W: bool> Copy for VolRegion<S, R, W> {

}

/// The base address of the sub-slice of a span at `addr` that starts at
/// element `start`, for elements of `size` bytes.
pub open spec fn sub_slice_addr(addr: int, size: int, start: int) -> int {
    addr + start * size
}

/// Composing two sub-slices is one sub-slice of the composed range: taking
/// elements `[a, b)` of a region and then `[c, d)` of the result starts at
/// the same address, and keeps the same number of elements, as taking
/// `[a + c, a + d)` of the parent region at once.
pub proof fn lemma_sub_slice_compose(addr: int, size: int, a: int, b: int, c: int, d: int)
    requires
        0 <= a <= b,
        0 <= c <= d,
        d <= b - a,
    ensures
        sub_slice_addr(sub_slice_addr(addr, size, a), size, c) == sub_slice_addr(
            addr,
            size,
            a + c,
        ),
        d - c == (a + d) - (a + c),
{
    lemma_mul_is_distributive_add_other_way(size, a, c);
}

impl<const S: usize, const R: bool, const W: bool> VolRegion<S, R, W> {
    /// The address of the first element.
    pub closed spec fn spec_addr(self) -> int {
        self.addr.spec_addr()
    }

    /// The number of elements.
    pub closed spec fn spec_len(self) -> nat {
        self.len as nat
    }

    /// The whole run lies within the address space.
    pub closed spec fn wf(self) -> bool {
        self.addr.wf() && self.spec_addr() + self.spec_len() * S <= usize::MAX
    }

    /// Bundles a base handle and a length into a region. The caller asserts
    /// that all `len` elements from `addr` on denote real hardware; this is
    /// the region's construction-time trust point.
    pub fn from_raw_parts(addr: VolAddress<S, R, W>, len: usize) -> (r: Self)
        requires
            addr.wf(),
            addr.spec_addr() + len * S <= usize::MAX,
        ensures
            r.wf(),
            r.spec_addr() == addr.spec_addr(),
            r.spec_len() == len,
    {
        VolRegion { addr, len }
    }

    /// The handle for the first element.
    pub fn addr(self) -> (r: VolAddress<S, R, W>)
        ensures
            r.spec_addr() == self.spec_addr(),
    {
        self.addr
    }

    /// The number of elements.
    pub fn len(self) -> (r: usize)
        ensures
            r == self.spec_len(),
    {
        self.len
    }

    /// The handle for element `i`, at address `addr + i * S`. The bound
    /// `i < len` is a static obligation: no handle to memory outside the
    /// region can be produced.
    pub fn index(self, i: usize) -> (r: VolAddress<S, R, W>)
        requires
            self.wf(),
            i < self.spec_len(),
        ensures
            r.wf(),
            r.spec_addr() == self.spec_addr() + i * S,
    {
        proof {
            lemma_mul_inequality(i as int, self.len as int, S as int);
        }
        self.addr.add(i)
    }

    /// The handle for element `i`, or nothing when `i` is out of range: the
    /// graceful twin of `index`, for callers that prefer to degrade rather
    /// than fault.
    pub fn get(self, i: usize) -> (r: Option<VolAddress<S, R, W>>)
        requires
            self.wf(),
        ensures
            match r {
                Some(a) => i < self.spec_len() && a.wf() && a.spec_addr() == self.spec_addr() + i
                    * S,
                None => i >= self.spec_len(),
            },
    {
        if i < self.len {
            Some(self.index(i))
        } else {
            None
        }
    }

    /// The region of elements `[start, end)`: its base is offset by `start`
    /// elements and its length is the range's size. The range must lie within
    /// the parent's length, so a sub-slice never escapes the span it came
    /// from.
    pub fn sub_slice(self, start: usize, end: usize) -> (r: Self)
        requires
            self.wf(),
            start <= end <= self.spec_len(),
        ensures
            r.wf(),
            r.spec_addr() == sub_slice_addr(self.spec_addr(), S as int, start as int),
            r.spec_len() == end - start,
    {
        proof {
            lemma_mul_inequality(start as int, self.len as int, S as int);
            lemma_mul_nonnegative(start as int, S as int);
            lemma_mul_is_distributive_add_other_way(S as int, start as int, (end - start) as int);
            lemma_mul_inequality(end as int, self.len as int, S as int);
        }
        assert(start * S + (end - start) * S == end * S);
        VolRegion { addr: self.addr.add(start), len: end - start }
    }

    /// A restartable pass over all elements in ascending address order.
    pub fn iter(self) -> (r: VolBlockIter<S, R, W>)
        requires
            self.wf(),
        ensures
            r.wf(),
            r.spec_next() == self.spec_addr(),
            r.spec_remaining() == self.spec_len(),
    {
        VolRegion::into_iter(self)
    }

    /// A pass over the elements `[start, end)` in ascending address order.
    pub fn iter_range(self, start: usize, end: usize) -> (r: VolBlockIter<S, R, W>)
        requires
            self.wf(),
            start <= end <= self.spec_len(),
        ensures
            r.wf(),
            r.spec_next() == sub_slice_addr(self.spec_addr(), S as int, start as int),
            r.spec_remaining() == end - start,
    {
        VolRegion::into_iter(self.sub_slice(start, end))
    }

    fn into_iter(self) -> (r: VolBlockIter<S, R, W>)
        requires
            self.wf(),
        ensures
            r.wf(),
            r.spec_next() == self.spec_addr(),
            r.spec_remaining() == self.spec_len(),
    {
        crate::vol::iter_from_parts(self.addr, self.len)
    }
}

} // verus!

//! A byte-addressable image of one span of device memory.
//!
//! On the real device a volatile address handle is served by the hardware bus
//! itself. The image gives the same interface an explicit, observable backing:
//! a run of bytes starting at a fixed base address. Multi-byte accesses are
//! little-endian and always move the full element width at once.

use vstd::prelude::*;

verus! {

/// The bytes of one contiguous span of device memory, starting at `base`.
pub struct MemImage {
    base: usize,
    bytes: Vec<u8>,
}

/// The value of a sixteen-bit element assembled from two bytes, low byte
/// first.
pub open spec fn le16(b0: u8, b1: u8) -> u16 {
    (b0 + 256 * b1) as u16
}

/// The value of a thirty-two-bit element assembled from four bytes, lowest
/// byte first.
pub open spec fn le32(b0: u8, b1: u8, b2: u8, b3: u8) -> u32 {
    (b0 + 256 * b1 + 65536 * b2 + 16777216 * b3) as u32
}

impl MemImage {
    /// The base address of the span.
    pub closed spec fn spec_base(self) -> int {
        self.base as int
    }

    /// The bytes of the span, indexed from the base address upward.
    pub closed spec fn data(self) -> Seq<u8> {
        self.bytes@
    }

    /// The span's addresses stay within the address space.
    pub closed spec fn wf(self) -> bool {
        self.base + self.bytes@.len() <= usize::MAX
    }

    /// Whether the `n` bytes starting at `addr` all lie inside the span.
    pub open spec fn covers(self, addr: int, n: int) -> bool {
        self.spec_base() <= addr && addr + n <= self.spec_base() + self.data().len()
    }

    /// A fresh span of `len` zeroed bytes starting at `base`.
    pub fn new(base: usize, len: usize) -> (r: Self)
        requires
            base + len <= usize::MAX,
        ensures
            r.wf(),
            r.spec_base() == base,
            r.data().len() == len,
            forall|i: int| 0 <= i < len ==> r.data()[i] == 0u8,
    {
        let mut bytes: Vec<u8> = Vec::new();
        let mut n: usize = 0;
        while n < len
            invariant
                n <= len,
                bytes@.len() == n,
                forall|i: int| 0 <= i < n ==> bytes@[i] == 0u8,
            decreases len - n,
        {
            bytes.push(0);
            n = n + 1;
        }
        MemImage { base, bytes }
    }

    /// The base address.
    pub fn base(&self) -> (r: usize)
        ensures
            r == self.spec_base(),
    {
        self.base
    }

    /// The number of bytes in the span.
    pub fn len(&self) -> (r: usize)
        ensures
            r == self.data().len(),
    {
        self.bytes.len()
    }

    /// One byte-wide load at `addr`.
    pub fn read_u8(&self, addr: usize) -> (r: u8)
        requires
            self.wf(),
            self.covers(addr as int, 1),
        ensures
            r == self.data()[addr - self.spec_base()],
    {
        self.bytes[addr - self.base]
    }

    /// One byte-wide store at `addr`; every other byte is preserved.
    pub fn write_u8(&mut self, addr: usize, v: u8)
        requires
            old(self).wf(),
            old(self).covers(addr as int, 1),
        ensures
            final(self).wf(),
            final(self).spec_base() == old(self).spec_base(),
            final(self).data() == old(self).data().update(addr - old(self).spec_base(), v),
    {
        let i = addr - self.base;
        self.bytes[i] = v;
    }

    /// One sixteen-bit load at `addr`: both bytes in a single access,
    /// little-endian.
    pub fn read_u16(&self, addr: usize) -> (r: u16)
        requires
            self.wf(),
            self.covers(addr as int, 2),
        ensures
            r == le16(
                self.data()[addr - self.spec_base()],
                self.data()[addr - self.spec_base() + 1],
            ),
    {
        let i = addr - self.base;
        let b0 = self.bytes[i];
        let b1 = self.bytes[i + 1];
        b0 as u16 + 256 * (b1 as u16)
    }

    /// One sixteen-bit store at `addr`: both bytes in a single access,
    /// little-endian; every byte outside the element is preserved.
    pub fn write_u16(&mut self, addr: usize, v: u16)
        requires
            old(self).wf(),
            old(self).covers(addr as int, 2),
        ensures
            final(self).wf(),
            final(self).spec_base() == old(self).spec_base(),
            final(self).data() == old(self).data().update(
                addr - old(self).spec_base(),
                (v % 256) as u8,
            ).update(addr - old(self).spec_base() + 1, (v / 256) as u8),
            le16(
                final(self).data()[addr - old(self).spec_base()],
                final(self).data()[addr - old(self).spec_base() + 1],
            ) == v,
    {
        let i = addr - self.base;
        self.bytes[i] = (v % 256) as u8;
        self.bytes[i + 1] = (v / 256) as u8;
    }

    /// One thirty-two-bit load at `addr`: all four bytes in a single access,
    /// little-endian.
    pub fn read_u32(&self, addr: usize) -> (r: u32)
        requires
            self.wf(),
            self.covers(addr as int, 4),
        ensures
            r == le32(
                self.data()[addr - self.spec_base()],
                self.data()[addr - self.spec_base() + 1],
                self.data()[addr - self.spec_base() + 2],
                self.data()[addr - self.spec_base() + 3],
            ),
    {
        let i = addr - self.base;
        let b0 = self.bytes[i];
        let b1 = self.bytes[i + 1];
        let b2 = self.bytes[i + 2];
        let b3 = self.bytes[i + 3];
        b0 as u32 + 256 * (b1 as u32) + 65536 * (b2 as u32) + 16777216 * (b3 as u32)
    }

    /// One thirty-two-bit store at `addr`: all four bytes in a single access,
    /// little-endian; every byte outside the element is preserved.
    pub fn write_u32(&mut self, addr: usize, v: u32)
        requires
            old(self).wf(),
            old(self).covers(addr as int, 4),
        ensures
            final(self).wf(),
            final(self).spec_base() == old(self).spec_base(),
            final(self).data() == old(self).data().update(
                addr - old(self).spec_base(),
                (v % 256) as u8,
            ).update(addr - old(self).spec_base() + 1, ((v / 256) % 256) as u8).update(
                addr - old(self).spec_base() + 2,
                ((v / 65536) % 256) as u8,
            ).update(addr - old(self).spec_base() + 3, (v / 16777216) as u8),
            le32(
                final(self).data()[addr - old(self).spec_base()],
                final(self).data()[addr - old(self).spec_base() + 1],
                final(self).data()[addr - old(self).spec_base() + 2],
                final(self).data()[addr - old(self).spec_base() + 3],
            ) == v,
    {
        let i = addr - self.base;
        self.bytes[i] = (v % 256) as u8;
        self.bytes[i + 1] = ((v / 256) % 256) as u8;
        self.bytes[i + 2] = ((v / 65536) % 256) as u8;
        self.bytes[i + 3] = (v / 16777216) as u8;
    }
}

} // verus!

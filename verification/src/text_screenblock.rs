//! Text-mode map entries and the screen blocks that hold them.

use vstd::prelude::*;

use crate::bits::{get_bit16, get_field16, set_bit16, set_field16, u16_get_bit, u16_get_field,
    u16_set_bit, u16_set_field};
use crate::mem::MemImage;
use crate::vol::VolBlock;

verus! {

/// One text-mode map entry: which tile to draw, its flips and its palette
/// bank, in one sixteen-bit value.
#[derive(Clone, Copy, Debug, PartialEq, Eq, Structural)]
pub struct TextScreenEntry(u16);

impl TextScreenEntry {
    /// The raw entry value.
    pub closed spec fn bits(self) -> u16 {
        self.0
    }

    /// The entry with every field zero.
    pub fn new() -> (r: Self)
        ensures
            r.bits() == 0,
    {
        TextScreenEntry(0)
    }

    /// The entry whose bits are exactly `u`.
    pub fn from_bits(u: u16) -> (r: Self)
        ensures
            r.bits() == u,
    {
        TextScreenEntry(u)
    }

    /// The raw entry value.
    pub fn to_bits(self) -> (r: u16)
        ensures
            r == self.bits(),
    {
        self.0
    }

    /// The index of the tile the entry draws.
    pub fn tile_id(self) -> (r: u16)
        ensures
            r == u16_get_field(self.bits(), 0, 10),
    {
        get_field16(self.0, 0, 10)
    }

    /// The entry with the tile-index field set to the low bits of `x`, all
    /// other fields kept.
    pub fn with_tile_id(self, x: u16) -> (r: Self)
        ensures
            r.bits() == u16_set_field(self.bits(), 0, 10, x),
    {
        TextScreenEntry(set_field16(self.0, 0, 10, x))
    }

    /// Whether the tile is mirrored horizontally.
    pub fn h_flip(self) -> (r: bool)
        ensures
            r == u16_get_bit(self.bits(), 10),
    {
        get_bit16(self.0, 10)
    }

    /// The entry with the horizontal-flip bit set to `x`, all others kept.
    pub fn with_h_flip(self, x: bool) -> (r: Self)
        ensures
            r.bits() == u16_set_bit(self.bits(), 10, x),
    {
        TextScreenEntry(set_bit16(self.0, 10, x))
    }

    /// Whether the tile is mirrored vertically.
    pub fn v_flip(self) -> (r: bool)
        ensures
            r == u16_get_bit(self.bits(), 11),
    {
        get_bit16(self.0, 11)
    }

    /// The entry with the vertical-flip bit set to `x`, all others kept.
    pub fn with_v_flip(self, x: bool) -> (r: Self)
        ensures
            r.bits() == u16_set_bit(self.bits(), 11, x),
    {
        TextScreenEntry(set_bit16(self.0, 11, x))
    }

    /// Which sixteen-color palette bank the tile uses.
    pub fn palbank(self) -> (r: u16)
        ensures
            r == u16_get_field(self.bits(), 12, 4),
    {
        get_field16(self.0, 12, 4)
    }

    /// The entry with the palette-bank field set to the low bits of `x`, all
    /// other fields kept.
    pub fn with_palbank(self, x: u16) -> (r: Self)
        ensures
            r.bits() == u16_set_field(self.bits(), 12, 4, x),
    {
        TextScreenEntry(set_field16(self.0, 12, 4, x))
    }

    /// The entry drawing the tile with the low nine bits of `id`, in palette
    /// bank `palbank`, with no flips.
    pub fn from_id_bank(id: u16, palbank: u16) -> (r: Self)
        ensures
            r.bits() == ((id & 0x1FF) | (palbank << 12)),
    {
        TextScreenEntry((id & 0x1FF) | (palbank << 12))
    }
}

/// One of the 32 screen block slots of tile memory, holding a 32 by 32 map
/// of text-mode entries.
#[derive(Clone, Copy, Debug)]
pub struct TextScreenblock {
    block: VolBlock<2, true, true, 1024>,
}

impl TextScreenblock {
    /// The address of the first entry.
    pub closed spec fn spec_base(self) -> int {
        self.block.spec_base()
    }

    /// The whole slot lies within the address space.
    pub closed spec fn wf(self) -> bool {
        self.block.wf()
    }

    /// The screen block in slot `n` of tile memory, or nothing for a slot
    /// index of 32 or more.
    pub fn try_new(n: usize) -> (r: Option<Self>)
        ensures
            match r {
                Some(b) => n < 32 && b.wf() && b.spec_base() == 0x0600_0000 + n * 2048,
                None => n >= 32,
            },
    {
        if n < 32 {
            Some(TextScreenblock { block: VolBlock::new(0x0600_0000 + n * 2048) })
        } else {
            None
        }
    }

    /// The screen block in slot `n` of tile memory; the slot index must be
    /// below 32.
    pub fn new(n: usize) -> (r: Self)
        requires
            n < 32,
        ensures
            r.wf(),
            r.spec_base() == 0x0600_0000 + n * 2048,
    {
        TextScreenblock { block: VolBlock::new(0x0600_0000 + n * 2048) }
    }

    /// The slot's 1024 entries as a plain block.
    pub fn as_volblock(&self) -> (r: &VolBlock<2, true, true, 1024>)
        ensures
            r.wf() == self.wf(),
            r.spec_base() == self.spec_base(),
    {
        &self.block
    }

    /// Stores `tse` into every entry of the slot, one full-width store per
    /// entry in ascending address order; every byte outside the slot is
    /// preserved.
    pub fn write_all(self, tse: TextScreenEntry, mem: &mut MemImage)
        requires
            self.wf(),
            old(mem).wf(),
            old(mem).covers(self.spec_base(), 2048),
        ensures
            final(mem).wf(),
            final(mem).spec_base() == old(mem).spec_base(),
            final(mem).data().len() == old(mem).data().len(),
            forall|j: int|
                0 <= j < 1024 ==> {
                    &&& #[trigger] final(mem).data()[self.spec_base() - old(mem).spec_base() + 2
                        * j] == (tse.bits() % 256) as u8
                    &&& final(mem).data()[self.spec_base() - old(mem).spec_base() + 2 * j + 1] == (
                    tse.bits() / 256) as u8
                },
            forall|k: int|
                0 <= k < old(mem).data().len() && !(self.spec_base() - old(mem).spec_base() <= k
                    < self.spec_base() - old(mem).spec_base() + 2048) ==> final(mem).data()[k]
                    == old(mem).data()[k],
    {
        let v = tse.to_bits();
        let ghost off = self.spec_base() - old(mem).spec_base();
        let mut i: usize = 0;
        while i < 1024
            invariant
                self.wf(),
                mem.wf(),
                i <= 1024,
                mem.spec_base() == old(mem).spec_base(),
                mem.data().len() == old(mem).data().len(),
                old(mem).covers(self.spec_base(), 2048),
                v == tse.bits(),
                off == self.spec_base() - old(mem).spec_base(),
                forall|j: int|
                    0 <= j < i ==> {
                        &&& #[trigger] mem.data()[off + 2 * j] == (tse.bits() % 256) as u8
                        &&& mem.data()[off + 2 * j + 1] == (tse.bits() / 256) as u8
                    },
                forall|k: int|
                    0 <= k < old(mem).data().len() && !(off <= k < off + 2 * i) ==> mem.data()[k]
                        == old(mem).data()[k],
            decreases 1024 - i,
        {
            let a = self.block.index(i);
            a.write_u16(mem, v);
            i = i + 1;
        }
    }
}

} // verus!

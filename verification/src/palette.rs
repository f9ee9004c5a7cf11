//! Color values and the palette memory's layout.

use vstd::prelude::*;

use crate::bits::{get_field16, set_field16, u16_get_field, u16_set_field};
use crate::vol::{VolAddress, VolBlock};

verus! {

/// A color as the hardware stores it: five bits each of red, green and blue
/// in one sixteen-bit value.
#[derive(Clone, Copy, Debug, PartialEq, Eq, Structural)]
pub struct Color(u16);

impl Color {
    /// The raw stored value.
    pub closed spec fn bits(self) -> u16 {
        self.0
    }

    /// The color with the given red, green and blue intensities, each masked
    /// to its five-bit field.
    pub fn from_rgb(r: u16, g: u16, b: u16) -> (c: Self)
        ensures
            c.bits() == u16_set_field(
                u16_set_field(u16_set_field(0, 0, 5, r), 5, 5, g),
                10,
                5,
                b,
            ),
    {
        Color(0).with_red(r).with_green(g).with_blue(b)
    }

    /// The raw stored value.
    pub fn to_bits(self) -> (r: u16)
        ensures
            r == self.bits(),
    {
        self.0
    }

    /// The color whose stored value is exactly `u`.
    pub fn from_bits(u: u16) -> (r: Self)
        ensures
            r.bits() == u,
    {
        Color(u)
    }

    /// The red intensity.
    pub fn red(self) -> (r: u16)
        ensures
            r == u16_get_field(self.bits(), 0, 5),
    {
        get_field16(self.0, 0, 5)
    }

    /// The color with the red field set to the low bits of `x`, green and
    /// blue kept.
    pub fn with_red(self, x: u16) -> (r: Self)
        ensures
            r.bits() == u16_set_field(self.bits(), 0, 5, x),
    {
        Color(set_field16(self.0, 0, 5, x))
    }

    /// The green intensity.
    pub fn green(self) -> (r: u16)
        ensures
            r == u16_get_field(self.bits(), 5, 5),
    {
        get_field16(self.0, 5, 5)
    }

    /// The color with the green field set to the low bits of `x`, red and
    /// blue kept.
    pub fn with_green(self, x: u16) -> (r: Self)
        ensures
            r.bits() == u16_set_field(self.bits(), 5, 5, x),
    {
        Color(set_field16(self.0, 5, 5, x))
    }

    /// The blue intensity.
    pub fn blue(self) -> (r: u16)
        ensures
            r == u16_get_field(self.bits(), 10, 5),
    {
        get_field16(self.0, 10, 5)
    }

    /// The color with the blue field set to the low bits of `x`, red and
    /// green kept.
    pub fn with_blue(self, x: u16) -> (r: Self)
        ensures
            r.bits() == u16_set_field(self.bits(), 10, 5, x),
    {
        Color(set_field16(self.0, 10, 5, x))
    }
}

/// The palette memory's constructors, collected into one namespace: each
/// gives the handle or block for one part of the fixed palette layout.
#[derive(Clone, Copy, Debug)]
pub struct PalRam;

impl PalRam {
    /// The base address of the background palette.
    pub open spec fn spec_bg_base() -> int {
        0x0500_0000
    }

    /// The base address of the object palette.
    pub open spec fn spec_obj_base() -> int {
        0x0500_0200
    }

    /// The handle for the backdrop color: the first background palette slot.
    pub fn backdrop() -> (r: VolAddress<2, true, true>)
        ensures
            r.wf(),
            r.spec_addr() == PalRam::spec_bg_base(),
    {
        VolAddress::new(0x0500_0000)
    }

    /// The whole background palette: 256 color slots.
    pub fn bg() -> (r: VolBlock<2, true, true, 256>)
        ensures
            r.wf(),
            r.spec_base() == PalRam::spec_bg_base(),
    {
        VolBlock::new(0x0500_0000)
    }

    /// The whole object palette: 256 color slots.
    pub fn obj() -> (r: VolBlock<2, true, true, 256>)
        ensures
            r.wf(),
            r.spec_base() == PalRam::spec_obj_base(),
    {
        VolBlock::new(0x0500_0200)
    }

    /// The sixteen-color background palette bank `bank`, or nothing for a
    /// bank index of sixteen or more.
    pub fn try_bg_palbank(bank: usize) -> (r: Option<VolBlock<2, true, true, 16>>)
        ensures
            match r {
                Some(b) => bank < 16 && b.wf() && b.spec_base() == PalRam::spec_bg_base() + bank
                    * 32,
                None => bank >= 16,
            },
    {
        if bank < 16 {
            Some(VolBlock::new(0x0500_0000 + 32 * bank))
        } else {
            None
        }
    }

    /// The sixteen-color object palette bank `bank`, or nothing for a bank
    /// index of sixteen or more.
    pub fn try_obj_palbank(bank: usize) -> (r: Option<VolBlock<2, true, true, 16>>)
        ensures
            match r {
                Some(b) => bank < 16 && b.wf() && b.spec_base() == PalRam::spec_obj_base() + bank
                    * 32,
                None => bank >= 16,
            },
    {
        if bank < 16 {
            Some(VolBlock::new(0x0500_0200 + 32 * bank))
        } else {
            None
        }
    }

    /// The sixteen-color background palette bank `bank`; the bank index must
    /// be below sixteen.
    pub fn bg_palbank(bank: usize) -> (r: VolBlock<2, true, true, 16>)
        requires
            bank < 16,
        ensures
            r.wf(),
            r.spec_base() == PalRam::spec_bg_base() + bank * 32,
    {
        VolBlock::new(0x0500_0000 + 32 * bank)
    }

    /// The sixteen-color object palette bank `bank`; the bank index must be
    /// below sixteen.
    pub fn obj_palbank(bank: usize) -> (r: VolBlock<2, true, true, 16>)
        requires
            bank < 16,
        ensures
            r.wf(),
            r.spec_base() == PalRam::spec_obj_base() + bank * 32,
    {
        VolBlock::new(0x0500_0200 + 32 * bank)
    }
}

} // verus!

//! Fixed-point numbers for the affine parameter registers: a sixteen-bit
//! value whose low `BITS` bits are the fraction.

use vstd::prelude::*;
use vstd::wrapping::i16_specs;

verus! {

/// A signed fixed-point number with `BITS` fraction bits in a sixteen-bit
/// carrier.
#[derive(Debug)]
pub struct Fx<const BITS: usize> {
    raw: i16,
}

impl<const BITS: usize> Clone for Fx<BITS> {
    fn clone(&self) -> (r: Self)
        ensures
            r == *self,
    {
        Fx { raw: self.raw }
    }
}

impl<const BITS: usize> Copy for Fx<BITS> {

}

impl<const BITS: usize> Fx<BITS> {
    /// The raw carrier value.
    pub closed spec fn spec_raw(self) -> i16 {
        self.raw
    }

    /// The number with carrier `raw`.
    pub fn from_raw(raw: i16) -> (r: Self)
        ensures
            r.spec_raw() == raw,
    {
        Fx { raw }
    }

    /// The raw carrier value, as the hardware stores it.
    pub fn into_raw(self) -> (r: i16)
        ensures
            r == self.spec_raw(),
    {
        self.raw
    }

    /// The sum, wrapping around the carrier's range.
    pub fn wrapping_add(self, rhs: Self) -> (r: Self)
        ensures
            r.spec_raw() == i16_specs::wrapping_add(self.spec_raw(), rhs.spec_raw()),
    {
        Fx { raw: self.raw.wrapping_add(rhs.raw) }
    }

    /// The difference, wrapping around the carrier's range.
    pub fn wrapping_sub(self, rhs: Self) -> (r: Self)
        ensures
            r.spec_raw() == i16_specs::wrapping_sub(self.spec_raw(), rhs.spec_raw()),
    {
        Fx { raw: self.raw.wrapping_sub(rhs.raw) }
    }

    /// The sum, or nothing when it leaves the carrier's range.
    pub fn checked_add(self, rhs: Self) -> (r: Option<Self>)
        ensures
            match r {
                Some(s) => i16::MIN <= self.spec_raw() + rhs.spec_raw() <= i16::MAX
                    && s.spec_raw() == self.spec_raw() + rhs.spec_raw(),
                None => self.spec_raw() + rhs.spec_raw() < i16::MIN || self.spec_raw()
                    + rhs.spec_raw() > i16::MAX,
            },
    {
        match self.raw.checked_add(rhs.raw) {
            Some(n) => Some(Fx { raw: n }),
            None => None,
        }
    }

    /// The difference, or nothing when it leaves the carrier's range.
    pub fn checked_sub(self, rhs: Self) -> (r: Option<Self>)
        ensures
            match r {
                Some(s) => i16::MIN <= self.spec_raw() - rhs.spec_raw() <= i16::MAX
                    && s.spec_raw() == self.spec_raw() - rhs.spec_raw(),
                None => self.spec_raw() - rhs.spec_raw() < i16::MIN || self.spec_raw()
                    - rhs.spec_raw() > i16::MAX,
            },
    {
        match self.raw.checked_sub(rhs.raw) {
            Some(n) => Some(Fx { raw: n }),
            None => None,
        }
    }

    /// The sum, clamped to the carrier's range.
    pub fn saturating_add(self, rhs: Self) -> (r: Self)
        ensures
            r.spec_raw() == if self.spec_raw() + rhs.spec_raw() > i16::MAX {
                i16::MAX
            } else if self.spec_raw() + rhs.spec_raw() < i16::MIN {
                i16::MIN
            } else {
                (self.spec_raw() + rhs.spec_raw()) as i16
            },
    {
        match self.raw.checked_add(rhs.raw) {
            Some(n) => Fx { raw: n },
            None => if rhs.raw > 0 {
                Fx { raw: i16::MAX }
            } else {
                Fx { raw: i16::MIN }
            },
        }
    }

    /// The difference, clamped to the carrier's range.
    pub fn saturating_sub(self, rhs: Self) -> (r: Self)
        ensures
            r.spec_raw() == if self.spec_raw() - rhs.spec_raw() > i16::MAX {
                i16::MAX
            } else if self.spec_raw() - rhs.spec_raw() < i16::MIN {
                i16::MIN
            } else {
                (self.spec_raw() - rhs.spec_raw()) as i16
            },
    {
        match self.raw.checked_sub(rhs.raw) {
            Some(n) => Fx { raw: n },
            None => if rhs.raw > 0 {
                Fx { raw: i16::MIN }
            } else {
                Fx { raw: i16::MAX }
            },
        }
    }
}

} // verus!

//! The single-word atomic memory cell and the guarded-acquire protocol built
//! on it.
//!
//! A cell holds exactly one primitive-width value, and every access moves the
//! whole value at once: on the device each read, write and exchange is a
//! single non-reorderable instruction, so an interrupt firing between any two
//! instructions can never observe a torn value. The exchange operations are
//! the foundation of exclusive ownership over memory shared between the
//! foreground loop and interrupt handlers.

use vstd::prelude::*;

verus! {

/// One primitive-width value accessed only as a whole. Intended for one,
/// two and four byte integers and for values of the same widths wrapped in a
/// single-field struct; never for a multi-field aggregate, whose partial
/// updates an interrupt could otherwise observe mid-write.
pub struct GbaCell<T> {
    value: T,
}

impl<T: Copy> GbaCell<T> {
    /// The value the cell holds.
    pub closed spec fn spec_value(self) -> T {
        self.value
    }

    /// A cell holding `t`.
    pub fn new(t: T) -> (r: Self)
        ensures
            r.spec_value() == t,
    {
        GbaCell { value: t }
    }

    /// One whole-width load of the cell.
    pub fn read(&self) -> (r: T)
        ensures
            r == self.spec_value(),
    {
        self.value
    }

    /// One whole-width store to the cell.
    pub fn write(&mut self, t: T)
        ensures
            final(self).spec_value() == t,
    {
        self.value = t;
    }
}

impl GbaCell<u32> {
    /// A cell holding the four-byte value `u`.
    pub fn new_u32(u: u32) -> (r: Self)
        ensures
            r.spec_value() == u,
    {
        GbaCell::new(u)
    }
}

/// One atomic four-byte exchange: stores `in_val` and returns what the cell
/// held, indivisibly, so no interrupt can run between the load and the store.
pub fn a32_swp(in_val: u32, cell: &mut GbaCell<u32>) -> (out_val: u32)
    ensures
        out_val == old(cell).spec_value(),
        final(cell).spec_value() == in_val,
{
    let out_val = cell.read();
    cell.write(in_val);
    out_val
}

/// One atomic one-byte exchange: stores `in_val` and returns what the cell
/// held, indivisibly, so no interrupt can run between the load and the store.
pub fn a32_swpb(in_val: u8, cell: &mut GbaCell<u8>) -> (out_val: u8)
    ensures
        out_val == old(cell).spec_value(),
        final(cell).spec_value() == in_val,
{
    let out_val = cell.read();
    cell.write(in_val);
    out_val
}

/// Whether an acquire attempt against a guard cell holding `s` wins: only a
/// free cell can be taken.
pub open spec fn acquire_succeeds(s: u8) -> bool {
    s == 0
}

/// What the guard cell holds after an acquire attempt: the exchange marks it
/// held whether or not the attempt won.
pub open spec fn after_acquire() -> u8 {
    1
}

/// What the guard cell holds after a release: free again.
pub open spec fn after_release() -> u8 {
    0
}

/// Guarded acquire is exclusive: while an acquire's winner holds the
/// resource, every further attempt fails, and once the winner releases, an
/// attempt wins again.
pub proof fn lemma_guarded_acquire_exclusive(s: u8)
    ensures
        acquire_succeeds(s) ==> !acquire_succeeds(after_acquire()),
        acquire_succeeds(after_release()),
{
}

/// Exclusive ownership of the external work memory: at most one of these
/// exists per guard cell at any time. On the device the guard cell is a
/// single process-wide cell, so holding the token grants sole access to the
/// memory it guards.
pub struct Ewram {
    token: (),
}

impl Ewram {
    /// The base address of the guarded work memory.
    pub open spec fn spec_base() -> int {
        0x0200_0000
    }

    /// The number of four-byte elements in the guarded work memory.
    pub open spec fn spec_len() -> nat {
        65536
    }

    /// One guarded acquire attempt: a single atomic exchange marks the cell
    /// held, and the previous value says whether this caller won. The
    /// attempt never blocks; a present result is the exclusive token, an
    /// absent one means somebody else holds it.
    pub fn try_new(state: &mut GbaCell<u8>) -> (r: Option<Ewram>)
        ensures
            r is Some <==> acquire_succeeds(old(state).spec_value()),
            final(state).spec_value() == after_acquire(),
    {
        if a32_swpb(1, state) != 0 {
            None
        } else {
            Some(Ewram { token: () })
        }
    }

    /// Returns the resource: consumes the token and resets the guard cell to
    /// free, after which an acquire attempt wins again. There is no stack
    /// unwinding in this environment, so release happens at a lexical scope
    /// exit chosen by the owner, never implicitly.
    pub fn release(self, state: &mut GbaCell<u8>)
        ensures
            final(state).spec_value() == after_release(),
    {
        a32_swpb(0, state);
    }

    /// The memory the token guards: a run of 65536 four-byte elements,
    /// readable and writable. Only the token's holder may touch it, which
    /// the token's exclusivity guarantees.
    pub fn region(&self) -> (r: crate::volregion::VolRegion<4, true, true>)
        ensures
            r.wf(),
            r.spec_addr() == Ewram::spec_base(),
            r.spec_len() == Ewram::spec_len(),
    {
        crate::volregion::VolRegion::from_raw_parts(crate::vol::VolAddress::new(0x0200_0000), 65536)
    }
}

} // verus!

//! Interrupt event bits and the dispatch cell read by the firing trampoline.
//!
//! The dispatch cell is the one process-wide slot holding an optional
//! handler. Foreground code installs a handler with a plain whole-width
//! store; each firing loads the cell exactly once, so a firing already in
//! flight keeps the handler it loaded and only the next firing observes a
//! newly installed one.

use vstd::prelude::*;

use crate::bits::{get_bit16, set_bit16, u16_get_bit, u16_set_bit};

verus! {

/// One bit per interrupt event category: which sources are enabled, or which
/// fired.
#[derive(Clone, Copy, Debug, PartialEq, Eq, Structural)]
pub struct IrqBits(u16);

impl IrqBits {
    /// The raw register value.
    pub closed spec fn bits(self) -> u16 {
        self.0
    }

    /// The value with no event bit set.
    pub fn new() -> (r: Self)
        ensures
            r.bits() == 0,
    {
        IrqBits(0)
    }

    /// The value whose event bits are exactly those of `u`.
    pub fn from_bits(u: u16) -> (r: Self)
        ensures
            r.bits() == u,
    {
        IrqBits(u)
    }

    /// The raw register value.
    pub fn to_bits(self) -> (r: u16)
        ensures
            r == self.bits(),
    {
        self.0
    }

    /// The display's vertical-blank event.
    pub fn vblank(self) -> (r: bool)
        ensures
            r == u16_get_bit(self.bits(), 0),
    {
        get_bit16(self.0, 0)
    }

    /// The value with the vertical-blank bit set to `x`, all others kept.
    pub fn with_vblank(self, x: bool) -> (r: Self)
        ensures
            r.bits() == u16_set_bit(self.bits(), 0, x),
    {
        IrqBits(set_bit16(self.0, 0, x))
    }

    /// The display's horizontal-blank event.
    pub fn hblank(self) -> (r: bool)
        ensures
            r == u16_get_bit(self.bits(), 1),
    {
        get_bit16(self.0, 1)
    }

    /// The value with the horizontal-blank bit set to `x`, all others kept.
    pub fn with_hblank(self, x: bool) -> (r: Self)
        ensures
            r.bits() == u16_set_bit(self.bits(), 1, x),
    {
        IrqBits(set_bit16(self.0, 1, x))
    }

    /// The scanline-counter match event.
    pub fn vcounter(self) -> (r: bool)
        ensures
            r == u16_get_bit(self.bits(), 2),
    {
        get_bit16(self.0, 2)
    }

    /// The value with the scanline-counter bit set to `x`, all others kept.
    pub fn with_vcounter(self, x: bool) -> (r: Self)
        ensures
            r.bits() == u16_set_bit(self.bits(), 2, x),
    {
        IrqBits(set_bit16(self.0, 2, x))
    }

    /// The first timer's overflow event.
    pub fn timer0(self) -> (r: bool)
        ensures
            r == u16_get_bit(self.bits(), 3),
    {
        get_bit16(self.0, 3)
    }

    /// The value with the first timer's bit set to `x`, all others kept.
    pub fn with_timer0(self, x: bool) -> (r: Self)
        ensures
            r.bits() == u16_set_bit(self.bits(), 3, x),
    {
        IrqBits(set_bit16(self.0, 3, x))
    }

    /// The second timer's overflow event.
    pub fn timer1(self) -> (r: bool)
        ensures
            r == u16_get_bit(self.bits(), 4),
    {
        get_bit16(self.0, 4)
    }

    /// The value with the second timer's bit set to `x`, all others kept.
    pub fn with_timer1(self, x: bool) -> (r: Self)
        ensures
            r.bits() == u16_set_bit(self.bits(), 4, x),
    {
        IrqBits(set_bit16(self.0, 4, x))
    }

    /// The third timer's overflow event.
    pub fn timer2(self) -> (r: bool)
        ensures
            r == u16_get_bit(self.bits(), 5),
    {
        get_bit16(self.0, 5)
    }

    /// The value with the third timer's bit set to `x`, all others kept.
    pub fn with_timer2(self, x: bool) -> (r: Self)
        ensures
            r.bits() == u16_set_bit(self.bits(), 5, x),
    {
        IrqBits(set_bit16(self.0, 5, x))
    }

    /// The fourth timer's overflow event.
    pub fn timer3(self) -> (r: bool)
        ensures
            r == u16_get_bit(self.bits(), 6),
    {
        get_bit16(self.0, 6)
    }

    /// The value with the fourth timer's bit set to `x`, all others kept.
    pub fn with_timer3(self, x: bool) -> (r: Self)
        ensures
            r.bits() == u16_set_bit(self.bits(), 6, x),
    {
        IrqBits(set_bit16(self.0, 6, x))
    }

    /// The serial-port event.
    pub fn serial(self) -> (r: bool)
        ensures
            r == u16_get_bit(self.bits(), 7),
    {
        get_bit16(self.0, 7)
    }

    /// The value with the serial-port bit set to `x`, all others kept.
    pub fn with_serial(self, x: bool) -> (r: Self)
        ensures
            r.bits() == u16_set_bit(self.bits(), 7, x),
    {
        IrqBits(set_bit16(self.0, 7, x))
    }

    /// The first direct-memory-access unit's completion event.
    pub fn dma0(self) -> (r: bool)
        ensures
            r == u16_get_bit(self.bits(), 8),
    {
        get_bit16(self.0, 8)
    }

    /// The value with the first direct-memory-access bit set to `x`, all
    /// others kept.
    pub fn with_dma0(self, x: bool) -> (r: Self)
        ensures
            r.bits() == u16_set_bit(self.bits(), 8, x),
    {
        IrqBits(set_bit16(self.0, 8, x))
    }

    /// The second direct-memory-access unit's completion event.
    pub fn dma1(self) -> (r: bool)
        ensures
            r == u16_get_bit(self.bits(), 9),
    {
        get_bit16(self.0, 9)
    }

    /// The value with the second direct-memory-access bit set to `x`, all
    /// others kept.
    pub fn with_dma1(self, x: bool) -> (r: Self)
        ensures
            r.bits() == u16_set_bit(self.bits(), 9, x),
    {
        IrqBits(set_bit16(self.0, 9, x))
    }

    /// The third direct-memory-access unit's completion event.
    pub fn dma2(self) -> (r: bool)
        ensures
            r == u16_get_bit(self.bits(), 10),
    {
        get_bit16(self.0, 10)
    }

    /// The value with the third direct-memory-access bit set to `x`, all
    /// others kept.
    pub fn with_dma2(self, x: bool) -> (r: Self)
        ensures
            r.bits() == u16_set_bit(self.bits(), 10, x),
    {
        IrqBits(set_bit16(self.0, 10, x))
    }

    /// The fourth direct-memory-access unit's completion event.
    pub fn dma3(self) -> (r: bool)
        ensures
            r == u16_get_bit(self.bits(), 11),
    {
        get_bit16(self.0, 11)
    }

    /// The value with the fourth direct-memory-access bit set to `x`, all
    /// others kept.
    pub fn with_dma3(self, x: bool) -> (r: Self)
        ensures
            r.bits() == u16_set_bit(self.bits(), 11, x),
    {
        IrqBits(set_bit16(self.0, 11, x))
    }

    /// The keypad event.
    pub fn keypad(self) -> (r: bool)
        ensures
            r == u16_get_bit(self.bits(), 12),
    {
        get_bit16(self.0, 12)
    }

    /// The value with the keypad bit set to `x`, all others kept.
    pub fn with_keypad(self, x: bool) -> (r: Self)
        ensures
            r.bits() == u16_set_bit(self.bits(), 12, x),
    {
        IrqBits(set_bit16(self.0, 12, x))
    }

    /// The cartridge event.
    pub fn game_pak(self) -> (r: bool)
        ensures
            r == u16_get_bit(self.bits(), 13),
    {
        get_bit16(self.0, 13)
    }

    /// The value with the cartridge bit set to `x`, all others kept.
    pub fn with_game_pak(self, x: bool) -> (r: Self)
        ensures
            r.bits() == u16_set_bit(self.bits(), 13, x),
    {
        IrqBits(set_bit16(self.0, 13, x))
    }
}

/// What a registered interrupt handler must provide. The handler runs in
/// interrupt context and must complete without suspending: it may never wait
/// for another interrupt, an obligation on the implementor that no type can
/// enforce.
pub trait IrqHandler {
    /// Called once per firing with the bit-set of event categories that
    /// fired.
    fn on_irq(&mut self, bits: IrqBits);
}

/// The process-wide slot holding the optional handler that a firing
/// dispatches to.
pub struct IrqDispatchCell<H> {
    handler: Option<H>,
}

impl<H: IrqHandler> IrqDispatchCell<H> {
    /// Whether a handler is installed.
    pub closed spec fn has_handler(self) -> bool {
        self.handler is Some
    }

    /// A fresh dispatch cell with no handler installed.
    pub fn new() -> (r: Self)
        ensures
            !r.has_handler(),
    {
        IrqDispatchCell { handler: None }
    }

    /// One firing of the trampoline: loads the cell once and, when a handler
    /// is present, invokes it with the fired event bits; when absent, does
    /// nothing. Returns whether a handler ran.
    pub fn fire(&mut self, bits: IrqBits) -> (ran: bool)
        ensures
            ran == old(self).has_handler(),
            final(self).has_handler() == old(self).has_handler(),
    {
        match &mut self.handler {
            Some(h) => {
                h.on_irq(bits);
                true
            },
            None => false,
        }
    }
}

/// Installs `opt_fn` as the handler, with one plain whole-width store. A
/// firing already in flight keeps the handler reference it already loaded;
/// only the next firing observes the new one.
pub fn set_irq_handler<H: IrqHandler>(cell: &mut IrqDispatchCell<H>, opt_fn: Option<H>)
    ensures
        final(cell).has_handler() == (opt_fn is Some),
{
    cell.handler = opt_fn;
}

} // verus!

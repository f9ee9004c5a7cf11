use std::cell::RefCell;
use std::rc::Rc;

use zygravan::cell::{a32_swp, a32_swpb, Ewram, GbaCell};
use zygravan::irq::{set_irq_handler, IrqBits, IrqDispatchCell, IrqHandler};

#[test]
fn cell_read_write() {
    let mut cell: GbaCell<u32> = GbaCell::new_u32(0);
    assert_eq!(cell.read(), 0);
    cell.write(7);
    assert_eq!(cell.read(), 7);
    let counter: GbaCell<u16> = GbaCell::new(41);
    assert_eq!(counter.read(), 41);
}

#[test]
fn exchange_returns_previous_value() {
    let mut cell: GbaCell<u32> = GbaCell::new_u32(5);
    let old = a32_swp(9, &mut cell);
    assert_eq!(old, 5);
    assert_eq!(cell.read(), 9);

    let mut byte_cell: GbaCell<u8> = GbaCell::new(0);
    assert_eq!(a32_swpb(1, &mut byte_cell), 0);
    assert_eq!(a32_swpb(0, &mut byte_cell), 1);
    assert_eq!(byte_cell.read(), 0);
}

#[test]
fn guarded_acquire_is_exclusive() {
    let mut state: GbaCell<u8> = GbaCell::new(0);
    // the first attempt wins
    let first = Ewram::try_new(&mut state);
    assert!(first.is_some());
    // a second attempt while the first token is alive fails
    assert!(Ewram::try_new(&mut state).is_none());
    assert!(Ewram::try_new(&mut state).is_none());
    // after the winner releases, an attempt wins again
    first.unwrap().release(&mut state);
    let third = Ewram::try_new(&mut state);
    assert!(third.is_some());
    third.unwrap().release(&mut state);
}

struct Recorder {
    seen: Rc<RefCell<Option<IrqBits>>>,
}

impl IrqHandler for Recorder {
    fn on_irq(&mut self, bits: IrqBits) {
        *self.seen.borrow_mut() = Some(bits);
    }
}

#[test]
fn dispatch_invokes_installed_handler() {
    let seen: Rc<RefCell<Option<IrqBits>>> = Rc::new(RefCell::new(None));
    let mut cell: IrqDispatchCell<Recorder> = IrqDispatchCell::new();
    set_irq_handler(&mut cell, Some(Recorder { seen: seen.clone() }));
    let ran = cell.fire(IrqBits::new().with_vblank(true));
    assert!(ran);
    let bits = seen.borrow().expect("the handler must have run");
    assert!(bits.vblank());
    assert!(!bits.hblank());
    assert!(!bits.vcounter());
    assert!(!bits.timer0());
    assert!(!bits.timer1());
    assert!(!bits.timer2());
    assert!(!bits.timer3());
    assert!(!bits.serial());
    assert!(!bits.dma0());
    assert!(!bits.dma1());
    assert!(!bits.dma2());
    assert!(!bits.dma3());
    assert!(!bits.keypad());
    assert!(!bits.game_pak());
}

#[test]
fn dispatch_without_handler_is_a_no_op() {
    let seen: Rc<RefCell<Option<IrqBits>>> = Rc::new(RefCell::new(None));
    let mut cell: IrqDispatchCell<Recorder> = IrqDispatchCell::new();
    assert!(!cell.fire(IrqBits::new().with_vblank(true)));
    assert!(seen.borrow().is_none());
    // installing and then clearing the handler returns to the no-op state
    set_irq_handler(&mut cell, Some(Recorder { seen: seen.clone() }));
    set_irq_handler(&mut cell, None);
    assert!(!cell.fire(IrqBits::new().with_vblank(true)));
    assert!(seen.borrow().is_none());
}

#[test]
fn dispatch_only_next_firing_sees_new_handler() {
    let first: Rc<RefCell<Option<IrqBits>>> = Rc::new(RefCell::new(None));
    let second: Rc<RefCell<Option<IrqBits>>> = Rc::new(RefCell::new(None));
    let mut cell: IrqDispatchCell<Recorder> = IrqDispatchCell::new();
    set_irq_handler(&mut cell, Some(Recorder { seen: first.clone() }));
    cell.fire(IrqBits::new().with_vblank(true));
    set_irq_handler(&mut cell, Some(Recorder { seen: second.clone() }));
    cell.fire(IrqBits::new().with_hblank(true));
    assert!(first.borrow().unwrap().vblank());
    assert!(!first.borrow().unwrap().hblank());
    assert!(second.borrow().unwrap().hblank());
    assert!(!second.borrow().unwrap().vblank());
}

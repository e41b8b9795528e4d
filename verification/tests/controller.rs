use std::cell::RefCell;
use std::rc::Rc;

use bringup::handler::Handler;
use bringup::idt;
use bringup::pic;
use bringup::ports::PortIo;

#[derive(Clone, Debug, PartialEq, Eq)]
enum Event {
    Write(u16, u8),
    Call(usize, usize),
}

/// A simulated port bus: every write is appended to the shared event log,
/// and reads are served from a scripted queue of (port, value) pairs.
struct Bus {
    log: Rc<RefCell<Vec<Event>>>,
    reads: Vec<(u16, u8)>,
}

impl PortIo for Bus {
    fn outport(&mut self, port: u16, value: u8) {
        self.log.borrow_mut().push(Event::Write(port, value));
    }

    fn inport(&mut self, port: u16) -> u8 {
        let (p, v) = self.reads.remove(0);
        assert_eq!(p, port, "read from an unexpected port");
        v
    }
}

/// A tagged callback that appends its invocation to the shared event log.
struct Cb {
    log: Rc<RefCell<Vec<Event>>>,
    tag: usize,
}

impl Handler for Cb {
    fn handle(&mut self, which: usize) {
        self.log.borrow_mut().push(Event::Call(self.tag, which));
    }
}

fn fresh() -> (Rc<RefCell<Vec<Event>>>, Bus) {
    let log = Rc::new(RefCell::new(Vec::new()));
    let bus = Bus { log: log.clone(), reads: Vec::new() };
    (log, bus)
}

fn fresh_pic(log: &Rc<RefCell<Vec<Event>>>, bus: &mut Bus) -> pic::Pic<Cb> {
    let mut traps: idt::Table<Cb> = idt::init(0x3000, 0x100000);
    let p = pic::init(bus, &mut traps, 0x20);
    log.borrow_mut().clear();
    p
}

#[test]
fn init_script_exact() {
    assert_eq!(
        pic::init_script(0x20),
        vec![
            (0x20, 0x11),
            (0xA0, 0x11),
            (0x21, 0x20),
            (0xA1, 0x28),
            (0x21, 0x04),
            (0xA1, 0x02),
            (0x21, 0x01),
            (0xA1, 0x01),
            (0x21, 0xFF),
            (0xA1, 0xFF),
        ]
    );
}

#[test]
fn init_writes_script_and_masks_all() {
    let (log, mut bus) = fresh();
    let mut traps: idt::Table<Cb> = idt::init(0x3000, 0x100000);
    let p = pic::init(&mut bus, &mut traps, 0x20);
    assert_eq!(
        *log.borrow(),
        pic::init_script(0x20).iter().map(|&(p, v)| Event::Write(p, v)).collect::<Vec<_>>()
    );
    assert_eq!(p.remap_base, 0x20);
    assert_eq!(p.lines.len(), 16);
    for s in &p.lines {
        assert!(s.f.is_none());
    }
}

#[test]
fn init_routes_lines_to_vectors() {
    let (_log, mut bus) = fresh();
    let mut traps: idt::Table<Cb> = idt::init(0x3000, 0x100000);
    let _p = pic::init(&mut bus, &mut traps, 0x20);
    for v in 0..256usize {
        let owned = (0x20..0x30).contains(&v);
        assert_eq!(matches!(traps.handlers[v], idt::TrapSlot::IrqGateway), owned);
    }
}

#[test]
fn enable_line3_clears_only_bit3() {
    let (log, mut bus) = fresh();
    bus.reads.push((0x21, 0xFF));
    pic::enable(&mut bus, 3);
    assert_eq!(*log.borrow(), vec![Event::Write(0x21, 0xF7)]);
}

#[test]
fn enable_line11_touches_secondary_only() {
    let (log, mut bus) = fresh();
    bus.reads.push((0xA1, 0xFF));
    pic::enable(&mut bus, 11);
    assert_eq!(*log.borrow(), vec![Event::Write(0xA1, 0xF7)]);
}

#[test]
fn enable_preserves_other_bits() {
    let (log, mut bus) = fresh();
    bus.reads.push((0x21, 0b1010_1010));
    pic::enable(&mut bus, 1);
    assert_eq!(*log.borrow(), vec![Event::Write(0x21, 0b1010_1000)]);
}

#[test]
fn disable_sets_only_its_bit() {
    let (log, mut bus) = fresh();
    bus.reads.push((0x21, 0x00));
    pic::disable(&mut bus, 5);
    assert_eq!(*log.borrow(), vec![Event::Write(0x21, 0x20)]);
    log.borrow_mut().clear();
    bus.reads.push((0xA1, 0x0F));
    pic::disable(&mut bus, 12);
    assert_eq!(*log.borrow(), vec![Event::Write(0xA1, 0x1F)]);
}

#[test]
fn spurious_line7_runs_no_callback() {
    let (log, mut bus) = fresh();
    let mut p = fresh_pic(&log, &mut bus);
    p.register(7, Cb { log: log.clone(), tag: 1 }, true);
    log.borrow_mut().clear();
    let r = p.dispatch_line(&mut bus, 7, 0x0000);
    assert!(matches!(r, pic::IrqOutcome::Spurious));
    assert!(log.borrow().is_empty());
}

#[test]
fn spurious_line15_acks_primary_only() {
    let (log, mut bus) = fresh();
    let mut p = fresh_pic(&log, &mut bus);
    p.register(15, Cb { log: log.clone(), tag: 1 }, true);
    log.borrow_mut().clear();
    let r = p.dispatch_line(&mut bus, 15, 0x0000);
    assert!(matches!(r, pic::IrqOutcome::SpuriousCascade));
    assert_eq!(*log.borrow(), vec![Event::Write(0x20, 0x20)]);
}

#[test]
fn stray_line_is_ignored() {
    let (log, mut bus) = fresh();
    let mut p = fresh_pic(&log, &mut bus);
    p.register(4, Cb { log: log.clone(), tag: 1 }, true);
    log.borrow_mut().clear();
    let r = p.dispatch_line(&mut bus, 4, 0x0000);
    assert!(matches!(r, pic::IrqOutcome::Stray));
    assert!(log.borrow().is_empty());
}

#[test]
fn unhandled_line_is_still_acked() {
    let (log, mut bus) = fresh();
    let mut p = fresh_pic(&log, &mut bus);
    let r = p.dispatch_line(&mut bus, 2, 0x0004);
    assert!(matches!(r, pic::IrqOutcome::Unhandled));
    assert_eq!(*log.borrow(), vec![Event::Write(0x20, 0x20)]);
}

#[test]
fn edge_line_acks_before_callback() {
    let (log, mut bus) = fresh();
    let mut p = fresh_pic(&log, &mut bus);
    p.register(2, Cb { log: log.clone(), tag: 1 }, false);
    log.borrow_mut().clear();
    let r = p.dispatch_line(&mut bus, 2, 0x0004);
    assert!(matches!(r, pic::IrqOutcome::Handled));
    assert_eq!(*log.borrow(), vec![Event::Write(0x20, 0x20), Event::Call(1, 2)]);
}

#[test]
fn level_line_acks_after_callback() {
    let (log, mut bus) = fresh();
    let mut p = fresh_pic(&log, &mut bus);
    p.register(2, Cb { log: log.clone(), tag: 1 }, true);
    log.borrow_mut().clear();
    let r = p.dispatch_line(&mut bus, 2, 0x0004);
    assert!(matches!(r, pic::IrqOutcome::Handled));
    assert_eq!(*log.borrow(), vec![Event::Call(1, 2), Event::Write(0x20, 0x20)]);
}

#[test]
fn secondary_line_acks_both_controllers() {
    let (log, mut bus) = fresh();
    let mut p = fresh_pic(&log, &mut bus);
    p.register(9, Cb { log: log.clone(), tag: 1 }, true);
    log.borrow_mut().clear();
    let r = p.dispatch_line(&mut bus, 9, 1 << 9);
    assert!(matches!(r, pic::IrqOutcome::Handled));
    assert_eq!(
        *log.borrow(),
        vec![Event::Call(1, 9), Event::Write(0xA0, 0x20), Event::Write(0x20, 0x20)]
    );
}

#[test]
fn irq_queries_both_status_registers() {
    let (log, mut bus) = fresh();
    let mut p = fresh_pic(&log, &mut bus);
    p.register(0, Cb { log: log.clone(), tag: 1 }, true);
    log.borrow_mut().clear();
    bus.reads.push((0xA0, 0x00));
    bus.reads.push((0x20, 0x01));
    let r = p.irq(&mut bus, 0x20);
    assert!(matches!(r, pic::IrqOutcome::Handled));
    assert_eq!(
        *log.borrow(),
        vec![
            Event::Write(0x20, 0x0B),
            Event::Write(0xA0, 0x0B),
            Event::Call(1, 0),
            Event::Write(0x20, 0x20),
        ]
    );
}

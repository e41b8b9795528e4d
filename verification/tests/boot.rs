use std::cell::RefCell;
use std::rc::Rc;

use bringup::cpu;
use bringup::handler::Handler;
use bringup::pic;
use bringup::ports::PortIo;

#[derive(Clone, Debug, PartialEq, Eq)]
enum Event {
    Write(u16, u8),
    Call(usize, usize),
}

/// A simulated port bus: every write is appended to the shared event log,
/// and reads are served from a scripted queue of (port, value) pairs.
struct Bus {
    log: Rc<RefCell<Vec<Event>>>,
    reads: Vec<(u16, u8)>,
}

impl PortIo for Bus {
    fn outport(&mut self, port: u16, value: u8) {
        self.log.borrow_mut().push(Event::Write(port, value));
    }

    fn inport(&mut self, port: u16) -> u8 {
        let (p, v) = self.reads.remove(0);
        assert_eq!(p, port, "read from an unexpected port");
        v
    }
}

/// A tagged callback that appends its invocation to the shared event log.
struct Cb {
    log: Rc<RefCell<Vec<Event>>>,
    tag: usize,
}

impl Handler for Cb {
    fn handle(&mut self, which: usize) {
        self.log.borrow_mut().push(Event::Call(self.tag, which));
    }
}

fn boot() -> (Rc<RefCell<Vec<Event>>>, Bus, cpu::Machine<Cb>) {
    let log = Rc::new(RefCell::new(Vec::new()));
    let mut bus = Bus { log: log.clone(), reads: Vec::new() };
    let fault = Cb { log: log.clone(), tag: 999 };
    let mut m = cpu::init(0x2000, 0x3000, 0x100000, 0xC0000000, fault);
    m.pic_init(&mut bus, 0x20);
    log.borrow_mut().clear();
    (log, bus, m)
}

#[test]
fn boot_builds_both_tables() {
    let (_log, _bus, m) = boot();
    assert_eq!(m.gdt.entries.len(), 16);
    assert_eq!(
        m.gdt.entries[1].encode(),
        vec![0xFF, 0xFF, 0x00, 0x00, 0x00, 0x98, 0xCF, 0x00]
    );
    assert_eq!(
        m.gdt.entries[2].encode(),
        vec![0xFF, 0xFF, 0x00, 0x00, 0x00, 0x92, 0xCF, 0x00]
    );
    assert_eq!(
        m.gdt.entries[5].encode(),
        vec![0xFF, 0xFF, 0x00, 0x00, 0x00, 0x92, 0xCF, 0xC0]
    );
    assert_eq!(m.gdt.reg.limit, 129);
    assert_eq!(m.idt.reg.limit, 2049);
    assert_eq!(m.idt.entries.len(), 256);
    assert!(!m.interrupts_on);
}

#[test]
fn boot_installs_fault_callback() {
    let (log, mut bus, mut m) = boot();
    let r = m.isr_rustentry(&mut bus, 14);
    assert!(matches!(r, cpu::TrapOutcome::Handled));
    assert_eq!(*log.borrow(), vec![Event::Call(999, 14)]);
}

#[test]
fn unregistered_vector_is_swallowed() {
    let (log, mut bus, mut m) = boot();
    let r = m.isr_rustentry(&mut bus, 200);
    assert!(matches!(r, cpu::TrapOutcome::Ignored));
    assert!(log.borrow().is_empty());
}

#[test]
fn interrupt_toggle_tracks_state() {
    let (_log, _bus, mut m) = boot();
    m.set_interrupts(true);
    assert!(m.interrupts_on);
    m.set_interrupts(false);
    assert!(!m.interrupts_on);
    m.wait_for_interrupt();
    assert!(m.interrupts_on);
}

#[test]
fn register_trap_overwrites_previous() {
    let (log, mut bus, mut m) = boot();
    m.register_trap(40, Cb { log: log.clone(), tag: 1 });
    m.register_trap(40, Cb { log: log.clone(), tag: 2 });
    let r = m.isr_rustentry(&mut bus, 40);
    assert!(matches!(r, cpu::TrapOutcome::Handled));
    assert_eq!(*log.borrow(), vec![Event::Call(2, 40)]);
}

#[test]
fn register_irq_overwrites_previous() {
    let (log, mut bus, mut m) = boot();
    m.register_irq(0, Cb { log: log.clone(), tag: 1 }, true);
    m.register_irq(0, Cb { log: log.clone(), tag: 2 }, true);
    bus.reads.push((0xA0, 0x00));
    bus.reads.push((0x20, 0x01));
    log.borrow_mut().clear();
    let r = m.isr_rustentry(&mut bus, 0x20);
    assert!(matches!(r, cpu::TrapOutcome::Irq(pic::IrqOutcome::Handled)));
    let calls: Vec<Event> =
        log.borrow().iter().filter(|e| matches!(e, Event::Call(_, _))).cloned().collect();
    assert_eq!(calls, vec![Event::Call(2, 0)]);
}

#[test]
fn timer_tick_edge_acks_before_callback() {
    let (log, mut bus, mut m) = boot();
    m.register_irq(0, Cb { log: log.clone(), tag: 7 }, false);
    bus.reads.push((0x21, 0xFF));
    pic::enable(&mut bus, 0);
    log.borrow_mut().clear();
    bus.reads.push((0xA0, 0x00));
    bus.reads.push((0x20, 0x01));
    let r = m.isr_rustentry(&mut bus, 0x20);
    assert!(matches!(r, cpu::TrapOutcome::Irq(pic::IrqOutcome::Handled)));
    assert_eq!(
        *log.borrow(),
        vec![
            Event::Write(0x20, 0x0B),
            Event::Write(0xA0, 0x0B),
            Event::Write(0x20, 0x20),
            Event::Call(7, 0),
        ]
    );
}

#[test]
fn timer_tick_level_acks_after_callback() {
    let (log, mut bus, mut m) = boot();
    m.register_irq(0, Cb { log: log.clone(), tag: 7 }, true);
    bus.reads.push((0x21, 0xFF));
    pic::enable(&mut bus, 0);
    assert_eq!(log.borrow().last(), Some(&Event::Write(0x21, 0xFE)));
    log.borrow_mut().clear();
    bus.reads.push((0xA0, 0x00));
    bus.reads.push((0x20, 0x01));
    let r = m.isr_rustentry(&mut bus, 0x20);
    assert!(matches!(r, cpu::TrapOutcome::Irq(pic::IrqOutcome::Handled)));
    assert_eq!(
        *log.borrow(),
        vec![
            Event::Write(0x20, 0x0B),
            Event::Write(0xA0, 0x0B),
            Event::Call(7, 0),
            Event::Write(0x20, 0x20),
        ]
    );
}

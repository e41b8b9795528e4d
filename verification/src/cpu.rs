use vstd::prelude::*;
use crate::gdt;
use crate::handler::Handler;
use crate::idt;
use crate::pic;
use crate::pic::Pic;
use crate::ports::PortIo;

verus! {

/// Vector of the CPU page-fault exception, where boot installs the default
/// fault callback.
pub const FAULT_VECTOR: usize = 14;

/// The whole protection-and-interrupt state, owned in one place: the
/// segment table, the trap table, the controller router once it is running,
/// and the global interrupt-enable flag. The architecture layer mirrors the
/// flag and the register values onto the CPU.
pub struct Machine<H> {
    pub gdt: gdt::Table,
    pub idt: idt::Table<H>,
    pub pic: Option<Pic<H>>,
    pub interrupts_on: bool,
}

/// What dispatching one trap produced.
pub enum TrapOutcome {
    /// A vector-level callback ran.
    Handled,
    /// Nothing is registered for the vector; the trap was swallowed.
    Ignored,
    /// The vector belongs to the controller router, which dispatched it
    /// with the enclosed line-level outcome.
    Irq(pic::IrqOutcome),
}

impl<H> Machine<H> {
    /// Structural well-formedness: full-size tables, and every trap slot
    /// routed to the router lies in the running router's vector range.
    pub open spec fn wf(self) -> bool {
        &&& self.gdt.entries@.len() == gdt::GDT_SIZE
        &&& self.idt.entries@.len() == idt::IDT_SIZE
        &&& self.idt.handlers@.len() == idt::IDT_SIZE
        &&& match self.pic {
            Option::None => forall|v: int|
                0 <= v < idt::IDT_SIZE ==> !(self.idt.handlers@[v] is IrqGateway),
            Option::Some(p) => {
                &&& p.lines@.len() == pic::LINE_COUNT
                &&& p.remap_base + pic::LINE_COUNT <= idt::IDT_SIZE
                &&& forall|v: int|
                    0 <= v < idt::IDT_SIZE && self.idt.handlers@[v] is IrqGateway
                        ==> p.remap_base <= v < p.remap_base + pic::LINE_COUNT
            },
        }
    }
}

/// Boots the protection layer: builds the segment table and populates the
/// null, kernel code, kernel data, user code, user data and TLS-emulation
/// descriptors; builds the trap table with every gate on its entry stub;
/// and installs the given callback on the page-fault vector. Interrupts
/// stay globally disabled and the controller router is not yet running.
/// The caller loads the two register values through the privileged
/// operations of the architecture layer, in that order, before anything
/// can fault.
pub fn init<H>(gdt_addr: u32, idt_addr: u32, stub_base: u32, tls_base: u32, fault_handler: H) -> (m:
    Machine<H>)
    requires
        stub_base + idt::IDT_SIZE * idt::ISR_STUB_LENGTH <= u32::MAX,
    ensures
        m.wf(),
        m.gdt.reg.addr == gdt_addr,
        m.gdt.reg.limit == gdt::GDT_SIZE * 8 + 1,
        m.gdt.entries@.len() == gdt::GDT_SIZE,
        m.gdt.entries@[0] == gdt::spec_entry(0, 0, 0, 0),
        m.gdt.entries@[1] == gdt::spec_entry(0, 0xFFFFFFFF, 0x98, 0xCF),
        m.gdt.entries@[2] == gdt::spec_entry(0, 0xFFFFFFFF, 0x92, 0xCF),
        m.gdt.entries@[3] == gdt::spec_entry(0, 0xFFFFFFFF, 0xF8, 0xCF),
        m.gdt.entries@[4] == gdt::spec_entry(0, 0xFFFFFFFF, 0xF2, 0xCF),
        m.gdt.entries@[5] == gdt::spec_entry(tls_base, 0xFFFFFFFF, 0x92, 0xCF),
        forall|i: int| 6 <= i < gdt::GDT_SIZE ==> m.gdt.entries@[i] == gdt::spec_entry(0, 0, 0, 0),
        m.idt.reg.addr == idt_addr,
        m.idt.reg.limit == idt::IDT_SIZE * 8 + 1,
        m.idt.entries@.len() == idt::IDT_SIZE,
        forall|i: int|
            0 <= i < idt::IDT_SIZE ==> m.idt.entries@[i] == idt::spec_gate(
                idt::spec_stub(stub_base, i),
                idt::KERNEL_CODE_SELECTOR,
                idt::DEFAULT_GATE_FLAGS,
            ),
        m.idt.handlers@.len() == idt::IDT_SIZE,
        m.idt.handlers@[FAULT_VECTOR as int] == idt::TrapSlot::Installed(fault_handler),
        forall|i: int|
            0 <= i < idt::IDT_SIZE && i != FAULT_VECTOR ==> m.idt.handlers@[i] is Vacant,
        m.pic is None,
        !m.interrupts_on,
{
    let mut g = gdt::init(gdt_addr);
    g.entry(0, 0, 0, 0, 0);
    g.entry(1, 0, 0xFFFFFFFF, 0x98, 0xCF);
    g.entry(2, 0, 0xFFFFFFFF, 0x92, 0xCF);
    g.entry(3, 0, 0xFFFFFFFF, 0xF8, 0xCF);
    g.entry(4, 0, 0xFFFFFFFF, 0xF2, 0xCF);
    g.entry(5, tls_base, 0xFFFFFFFF, 0x92, 0xCF);

    let mut t = idt::init(idt_addr, stub_base);
    t.register(FAULT_VECTOR, fault_handler);

    Machine { gdt: g, idt: t, pic: None, interrupts_on: false }
}

impl<H> Machine<H> {
    /// Registers a vector-level callback, silently replacing the slot's
    /// previous occupant.
    pub fn register_trap(&mut self, trap: usize, f: H)
        requires
            old(self).wf(),
            trap < idt::IDT_SIZE,
        ensures
            final(self).wf(),
            final(self).idt.handlers@ == old(self).idt.handlers@.update(
                trap as int,
                idt::TrapSlot::Installed(f),
            ),
            final(self).idt.entries@ == old(self).idt.entries@,
            final(self).idt.reg == old(self).idt.reg,
            final(self).gdt == old(self).gdt,
            final(self).pic == old(self).pic,
            final(self).interrupts_on == old(self).interrupts_on,
    {
        self.idt.register(trap, f);
    }

    /// The global interrupt-enable toggle: records the requested state.
    /// The architecture layer issues the matching privileged instruction.
    pub fn set_interrupts(&mut self, state: bool)
        ensures
            final(self).interrupts_on == state,
            final(self).gdt == old(self).gdt,
            final(self).idt == old(self).idt,
            final(self).pic == old(self).pic,
    {
        self.interrupts_on = state;
    }

    /// The idle primitive's decision half: interrupts are enabled before
    /// waiting, so the wake-up can arrive. The architecture layer then
    /// issues the privileged halt and resumes on the next interrupt.
    pub fn wait_for_interrupt(&mut self)
        ensures
            final(self).interrupts_on,
            final(self).gdt == old(self).gdt,
            final(self).idt == old(self).idt,
            final(self).pic == old(self).pic,
    {
        self.set_interrupts(true);
    }

    /// Boots the controller router: reprograms both controllers with
    /// vector base `remap_base`, masks all sixteen lines, and routes the
    /// sixteen vectors `remap_base + line` to the shared line-level
    /// dispatch.
    pub fn pic_init<P: PortIo>(&mut self, bus: &mut P, remap_base: u8)
        requires
            old(self).wf(),
            old(self).pic is None,
            remap_base + pic::LINE_COUNT <= idt::IDT_SIZE,
        ensures
            final(self).wf(),
            final(self).pic matches Some(p) && p.remap_base == remap_base
                && p.lines@.len() == pic::LINE_COUNT
                && (forall|i: int| 0 <= i < pic::LINE_COUNT ==> p.lines@[i].f is None),
            forall|l: int|
                0 <= l < pic::LINE_COUNT
                    ==> final(self).idt.handlers@[pic::line_vector(remap_base, l)] is IrqGateway,
            forall|v: int|
                0 <= v < idt::IDT_SIZE && !(remap_base <= v < remap_base + pic::LINE_COUNT)
                    ==> final(self).idt.handlers@[v] == old(self).idt.handlers@[v],
            final(self).idt.entries@ == old(self).idt.entries@,
            final(self).idt.reg == old(self).idt.reg,
            final(self).gdt == old(self).gdt,
            final(self).interrupts_on == old(self).interrupts_on,
    {
        let p = pic::init(bus, &mut self.idt, remap_base);
        self.pic = Some(p);
    }

    /// Registers a line-level callback with the router, silently replacing
    /// the slot's previous occupant. The line stays masked until `enable`
    /// is called for it.
    pub fn register_irq(&mut self, n: usize, f: H, level: bool)
        requires
            old(self).wf(),
            old(self).pic is Some,
            n < pic::LINE_COUNT,
        ensures
            final(self).wf(),
            final(self).pic matches Some(p) && old(self).pic matches Some(q)
                && p.remap_base == q.remap_base
                && p.lines@ == q.lines@.update(n as int, (pic::Slot { f: Some(f), level })),
            final(self).idt == old(self).idt,
            final(self).gdt == old(self).gdt,
            final(self).interrupts_on == old(self).interrupts_on,
    {
        match &mut self.pic {
            Option::Some(p) => p.register(n, f, level),
            Option::None => {},
        }
    }
}

impl<H: Handler> Machine<H> {
    /// The high-level entry point reached from the low-level stub with its
    /// own vector index: runs the vector's callback if one is installed,
    /// hands a router-owned vector to the line-level dispatch, and
    /// otherwise swallows the trap.
    pub fn isr_rustentry<P: PortIo>(&mut self, bus: &mut P, which: usize) -> (r: TrapOutcome)
        requires
            old(self).wf(),
            which < idt::IDT_SIZE,
        ensures
            final(self).wf(),
            final(self).gdt == old(self).gdt,
            final(self).idt.entries@ == old(self).idt.entries@,
            final(self).idt.reg == old(self).idt.reg,
            final(self).idt.handlers@.len() == idt::IDT_SIZE,
            forall|j: int|
                0 <= j < idt::IDT_SIZE && j != which ==> final(self).idt.handlers@[j] == old(
                    self,
                ).idt.handlers@[j],
            (r is Handled) <==> old(self).idt.handlers@[which as int] is Installed,
            (r is Ignored) <==> old(self).idt.handlers@[which as int] is Vacant,
            (r is Irq) <==> old(self).idt.handlers@[which as int] is IrqGateway,
            old(self).idt.handlers@[which as int] is Vacant ==> *final(self) == *old(self),
            !(old(self).idt.handlers@[which as int] is IrqGateway) ==> final(self).pic == old(
                self,
            ).pic,
            (r is Irq) ==> (old(self).pic matches Some(q) && q.remap_base <= which
                < q.remap_base + pic::LINE_COUNT),
            old(self).pic matches Some(q) ==> (final(self).pic matches Some(p)
                && p.remap_base == q.remap_base && p.lines@.len() == q.lines@.len() && (forall|
                j: int,
            |
                0 <= j < q.lines@.len() ==> (p.lines@[j].level == q.lines@[j].level && ((
                p.lines@[j].f is Some) <==> (q.lines@[j].f is Some))))),
    {
        let d = self.idt.isr_rustentry(which);
        match d {
            idt::TrapDispatch::Invoked => TrapOutcome::Handled,
            idt::TrapDispatch::Ignored => TrapOutcome::Ignored,
            idt::TrapDispatch::Gateway => {
                match &mut self.pic {
                    Option::Some(p) => {
                        let o = p.irq(bus, which);
                        TrapOutcome::Irq(o)
                    },
                    Option::None => unreached(),
                }
            },
        }
    }
}

} // verus!

use vstd::prelude::*;
use crate::handler::Handler;

verus! {

/// Number of interrupt vectors, and so of gate and handler slots.
pub const IDT_SIZE: usize = 256;

/// Byte length of one low-level entry stub: the stub for vector `i` sits at
/// `stub_base + i * ISR_STUB_LENGTH`.
pub const ISR_STUB_LENGTH: u32 = 10;

/// Selector of the kernel code segment, installed in every gate.
pub const KERNEL_CODE_SELECTOR: u16 = 0x08;

/// Gate attribute byte used at boot: present, ring 0, 32-bit interrupt gate.
pub const DEFAULT_GATE_FLAGS: u8 = 0x8E;

/// One hardware trap gate in the architecture-mandated packed layout:
/// handler-low(2) selector(2) reserved(1) flags(1) handler-high(2).
pub struct Entry {
    pub handler_low: u16,
    pub selector: u16,
    pub always0: u8,
    pub flags: u8,
    pub handler_high: u16,
}

/// The interrupt descriptor-table register value: the table's byte limit
/// and its base address.
pub struct Register {
    pub limit: u16,
    pub addr: u32,
}

/// One vector's high-level handler slot, disjoint from the table of gates: the
/// gate always points at the fixed low-level stub, and this slot supplies
/// what the stub dispatches to.
pub enum TrapSlot<H> {
    /// No callback: the trap is silently swallowed.
    Vacant,
    /// A registered callback, invoked with the vector number.
    Installed(H),
    /// The vector is owned by the interrupt controller router; dispatch
    /// continues with the shared line-level routine.
    IrqGateway,
}

/// The 256-entry gate table, its register value, and the parallel
/// handler-slot table.
pub struct Table<H> {
    pub reg: Register,
    pub entries: Vec<Entry>,
    pub handlers: Vec<TrapSlot<H>>,
}

/// The trap gate encoded from a raw handler address, selector and flag byte: the
/// handler address split into sixteen-bit halves, the reserved byte zero,
/// and bits 0x60 forced on in the flags.
pub open spec fn spec_gate(handler: u32, sel: u16, flags: u8) -> Entry {
    Entry {
        handler_low: (handler & 0xFFFF) as u16,
        selector: sel,
        always0: 0,
        flags: flags | 0x60,
        handler_high: ((handler >> 16) & 0xFFFF) as u16,
    }
}

/// The address of the low-level entry stub for vector `i`.
pub open spec fn spec_stub(stub_base: u32, i: int) -> u32 {
    (stub_base + i * ISR_STUB_LENGTH) as u32
}

impl Entry {
    /// The 8-byte memory image of this gate, low byte first.
    pub open spec fn bytes(self) -> Seq<u8> {
        seq![
            (self.handler_low & 0xFF) as u8,
            (self.handler_low >> 8) as u8,
            (self.selector & 0xFF) as u8,
            (self.selector >> 8) as u8,
            self.always0,
            self.flags,
            (self.handler_high & 0xFF) as u8,
            (self.handler_high >> 8) as u8,
        ]
    }

    /// Encodes one gate from its raw parts.
    pub fn new(handler: u32, sel: u16, flags: u8) -> (r: Entry)
        ensures
            r == spec_gate(handler, sel, flags),
    {
        Entry {
            handler_low: (handler & 0xFFFF) as u16,
            selector: sel,
            always0: 0,
            flags: flags | 0x60,
            handler_high: ((handler >> 16) & 0xFFFF) as u16,
        }
    }

    /// Materializes this trap gate's 8-byte hardware image.
    pub fn encode(&self) -> (r: Vec<u8>)
        ensures
            r@ == self.bytes(),
    {
        let mut r: Vec<u8> = Vec::new();
        r.push((self.handler_low & 0xFF) as u8);
        r.push((self.handler_low >> 8) as u8);
        r.push((self.selector & 0xFF) as u8);
        r.push((self.selector >> 8) as u8);
        r.push(self.always0);
        r.push(self.flags);
        r.push((self.handler_high & 0xFF) as u8);
        r.push((self.handler_high >> 8) as u8);
        proof {
            assert(r@ =~= self.bytes());
        }
        r
    }
}

/// Law: the flags byte of every encoded gate carries bits 0x60 set, whether
/// or not the caller supplied them.
pub proof fn lemma_gate_flags(handler: u32, sel: u16, flags: u8)
    ensures
        spec_gate(handler, sel, flags).flags & 0x60 == 0x60,
{
    assert((flags | 0x60) & 0x60 == 0x60) by (bit_vector);
}

/// Law: the two sixteen-bit halves of an encoded gate reassemble to exactly
/// the handler address it was encoded from.
pub proof fn lemma_gate_split(handler: u32, sel: u16, flags: u8)
    ensures
        spec_gate(handler, sel, flags).handler_low
            + spec_gate(handler, sel, flags).handler_high * 0x10000 == handler,
{
    assert((handler & 0xFFFF) < 0x10000) by (bit_vector);
    assert(((handler >> 16) & 0xFFFF) < 0x10000) by (bit_vector);
    assert((handler & 0xFFFF) + (((handler >> 16) & 0xFFFF) * 0x10000) == handler)
        by (bit_vector);
}

impl Register {
    /// The register value for a table at `addr`: the limit is the byte size
    /// of the full 256-entry table plus one.
    pub fn new(addr: u32) -> (r: Register)
        ensures
            r.addr == addr,
            r.limit == IDT_SIZE * 8 + 1,
    {
        Register { limit: (IDT_SIZE as u16) * 8 + 1, addr }
    }
}

/// Allocates the table of gates, the register value and the handler slots:
/// every vector's gate points at its low-level entry stub with the kernel
/// code selector and the default attribute byte, and every handler slot
/// starts vacant.
pub fn init<H>(table_addr: u32, stub_base: u32) -> (t: Table<H>)
    requires
        stub_base + IDT_SIZE * ISR_STUB_LENGTH <= u32::MAX,
    ensures
        t.reg.addr == table_addr,
        t.reg.limit == IDT_SIZE * 8 + 1,
        t.entries@.len() == IDT_SIZE,
        forall|i: int| 0 <= i < IDT_SIZE ==> t.entries@[i]
            == spec_gate(spec_stub(stub_base, i), KERNEL_CODE_SELECTOR, DEFAULT_GATE_FLAGS),
        t.handlers@.len() == IDT_SIZE,
        forall|i: int| 0 <= i < IDT_SIZE ==> t.handlers@[i] is Vacant,
{
    let reg = Register::new(table_addr);
    let mut entries: Vec<Entry> = Vec::new();
    let mut handlers: Vec<TrapSlot<H>> = Vec::new();
    let mut base: u32 = stub_base;
    let mut i: usize = 0;
    while i < IDT_SIZE
        invariant
            i <= IDT_SIZE,
            entries@.len() == i,
            handlers@.len() == i,
            stub_base + IDT_SIZE * ISR_STUB_LENGTH <= u32::MAX,
            base == stub_base + i * ISR_STUB_LENGTH,
            forall|j: int| 0 <= j < i ==> entries@[j]
                == spec_gate(spec_stub(stub_base, j), KERNEL_CODE_SELECTOR, DEFAULT_GATE_FLAGS),
            forall|j: int| 0 <= j < i ==> handlers@[j] is Vacant,
        decreases IDT_SIZE - i,
    {
        entries.push(Entry::new(base, KERNEL_CODE_SELECTOR, DEFAULT_GATE_FLAGS));
        handlers.push(TrapSlot::Vacant);
        base = base + ISR_STUB_LENGTH;
        i = i + 1;
    }
    Table { reg, entries, handlers }
}

/// Law: registering a second callback for a vector replaces the first: the
/// slot table after two registrations at one index equals the table after
/// the second registration alone.
pub proof fn lemma_register_overwrite<H>(s: Seq<TrapSlot<H>>, n: int, f1: H, f2: H)
    requires
        0 <= n < s.len(),
    ensures
        s.update(n, TrapSlot::Installed(f1)).update(n, TrapSlot::Installed(f2)) =~= s.update(
            n,
            TrapSlot::Installed(f2),
        ),
{
}

/// What vector-level dispatch did for one trap.
pub enum TrapDispatch {
    /// The slot's callback ran.
    Invoked,
    /// No callback was present; the trap was silently swallowed.
    Ignored,
    /// The vector belongs to the interrupt controller router: the caller
    /// continues with the line-level dispatch.
    Gateway,
}

impl<H> Table<H> {
    /// Stores the callback for a vector and marks the slot present,
    /// silently replacing whatever the slot held before.
    pub fn register(&mut self, index: usize, f: H)
        requires
            index < old(self).handlers@.len(),
        ensures
            final(self).handlers@ == old(self).handlers@.update(
                index as int,
                TrapSlot::Installed(f),
            ),
            final(self).entries@ == old(self).entries@,
            final(self).reg == old(self).reg,
    {
        self.handlers[index] = TrapSlot::Installed(f);
    }

    /// Routes a vector to the interrupt controller router's shared
    /// dispatch, silently replacing whatever the slot held before.
    pub fn register_gateway(&mut self, index: usize)
        requires
            index < old(self).handlers@.len(),
        ensures
            final(self).handlers@ == old(self).handlers@.update(
                index as int,
                TrapSlot::IrqGateway,
            ),
            final(self).entries@ == old(self).entries@,
            final(self).reg == old(self).reg,
    {
        self.handlers[index] = TrapSlot::IrqGateway;
    }
}

impl<H: Handler> Table<H> {
    /// Entry point reached from the low-level stub with its own vector
    /// index: runs the registered callback if one is present, and reports
    /// what the slot held. When no callback ran, the table is untouched.
    pub fn isr_rustentry(&mut self, which: usize) -> (r: TrapDispatch)
        requires
            which < old(self).handlers@.len(),
        ensures
            final(self).entries@ == old(self).entries@,
            final(self).reg == old(self).reg,
            final(self).handlers@.len() == old(self).handlers@.len(),
            forall|j: int| 0 <= j < old(self).handlers@.len() && j != which
                ==> final(self).handlers@[j] == old(self).handlers@[j],
            (r is Invoked) <==> old(self).handlers@[which as int] is Installed,
            (r is Ignored) <==> old(self).handlers@[which as int] is Vacant,
            (r is Gateway) <==> old(self).handlers@[which as int] is IrqGateway,
            (final(self).handlers@[which as int] is Installed)
                == (old(self).handlers@[which as int] is Installed),
            !(old(self).handlers@[which as int] is Installed) ==> *final(self) == *old(self),
    {
        if matches!(&self.handlers[which], TrapSlot::Installed(_)) {
            match &mut self.handlers[which] {
                TrapSlot::Installed(h) => {
                    h.handle(which);
                }
                _ => {}
            }
            TrapDispatch::Invoked
        } else if matches!(&self.handlers[which], TrapSlot::Vacant) {
            TrapDispatch::Ignored
        } else {
            TrapDispatch::Gateway
        }
    }
}

} // verus!

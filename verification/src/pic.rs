use vstd::prelude::*;
use crate::handler::Handler;
use crate::ports::{PortIo, run_script};

verus! {

/// Number of physical interrupt lines across the two cascaded controllers.
pub const LINE_COUNT: usize = 16;

/// Conventional vector base the boot sequence remaps the controllers to.
pub const REMAP_BASE: u8 = 0x20;

/// Command port of the primary controller.
pub const PRIMARY_COMMAND: u16 = 0x20;

/// Data (and mask-register) port of the primary controller.
pub const PRIMARY_DATA: u16 = 0x21;

/// Command port of the secondary controller.
pub const SECONDARY_COMMAND: u16 = 0xA0;

/// Data (and mask-register) port of the secondary controller.
pub const SECONDARY_DATA: u16 = 0xA1;

/// Initialization command: enter initialization mode, with cascading.
pub const CMD_INIT: u8 = 0x11;

/// End-of-interrupt acknowledgment command.
pub const CMD_EOI: u8 = 0x20;

/// Command selecting the in-service register for the next data-port read.
pub const CMD_READ_ISR: u8 = 0x0B;

/// Mask byte with every line of one controller masked.
pub const MASK_ALL: u8 = 0xFF;

/// One line's slot: the owned callback, if registered, and the line's
/// trigger mode (level-triggered when `level` is set, else edge-triggered).
pub struct Slot<H> {
    pub f: Option<H>,
    pub level: bool,
}

/// The interrupt controller router: the vector base both controllers were
/// remapped to, and the sixteen line slots. Mask state lives in the
/// controllers' own mask registers and is read back through the port bus.
pub struct Pic<H> {
    pub remap_base: u8,
    pub lines: Vec<Slot<H>>,
}

/// The four-step initialization sequence for both controllers, followed by
/// the writes that mask all sixteen lines: initialization mode with
/// cascading, the two vector bases, the cascade wiring (secondary on line 2
/// of the primary, the secondary's own cascade identity), 8086 mode, and
/// the full masks.
pub open spec fn spec_init_script(remap_base: u8) -> Seq<(u16, u8)> {
    seq![
        (PRIMARY_COMMAND, CMD_INIT),
        (SECONDARY_COMMAND, CMD_INIT),
        (PRIMARY_DATA, remap_base),
        (SECONDARY_DATA, (remap_base + 8) as u8),
        (PRIMARY_DATA, 0x04),
        (SECONDARY_DATA, 0x02),
        (PRIMARY_DATA, 0x01),
        (SECONDARY_DATA, 0x01),
        (PRIMARY_DATA, MASK_ALL),
        (SECONDARY_DATA, MASK_ALL),
    ]
}

/// The port writes owed to initialize both controllers for `remap_base`.
pub fn init_script(remap_base: u8) -> (r: Vec<(u16, u8)>)
    requires
        remap_base <= 0xF0,
    ensures
        r@ == spec_init_script(remap_base),
{
    let mut r: Vec<(u16, u8)> = Vec::new();
    r.push((PRIMARY_COMMAND, CMD_INIT));
    r.push((SECONDARY_COMMAND, CMD_INIT));
    r.push((PRIMARY_DATA, remap_base));
    r.push((SECONDARY_DATA, remap_base + 8));
    r.push((PRIMARY_DATA, 0x04));
    r.push((SECONDARY_DATA, 0x02));
    r.push((PRIMARY_DATA, 0x01));
    r.push((SECONDARY_DATA, 0x01));
    r.push((PRIMARY_DATA, MASK_ALL));
    r.push((SECONDARY_DATA, MASK_ALL));
    proof {
        assert(r@ =~= spec_init_script(remap_base));
    }
    r
}

/// The CPU vector that reports IRQ line `line` under vector base
/// `remap_base`.
pub open spec fn line_vector(remap_base: u8, line: int) -> int {
    remap_base + line
}

/// Law: with vector base `remap_base`, line `line` is reported on vector
/// `remap_base + line`; for lines owned by the secondary controller this is
/// the secondary's own base `remap_base + 8` plus the renumbered line.
pub proof fn lemma_line_vector_mapping(remap_base: u8, line: int)
    requires
        0 <= line < LINE_COUNT,
    ensures
        line_vector(remap_base, line) == remap_base + line,
        line >= 8 ==> line_vector(remap_base, line) == (remap_base + 8) + (line - 8),
{
}

/// Whether bit `i` of a controller mask byte is set (the line is masked).
pub open spec fn mask_bit(m: u8, i: u8) -> bool {
    m & (1u8 << i) != 0
}

/// Law: clearing one line's bit of a mask byte touches exactly that bit:
/// the cleared line's bit reads zero and every other bit keeps its value.
pub proof fn lemma_mask_bit_cleared(curr: u8, bit: u8)
    by (bit_vector)
    requires
        bit < 8,
    ensures
        forall|i: u8| i < 8 ==> (mask_bit(curr & !(1u8 << bit), i)
            <==> (i != bit && mask_bit(curr, i))),
{
}

/// Law: setting one line's bit of a mask byte touches exactly that bit:
/// the set line's bit reads one and every other bit keeps its value.
pub proof fn lemma_mask_bit_set(curr: u8, bit: u8)
    by (bit_vector)
    requires
        bit < 8,
    ensures
        forall|i: u8| i < 8 ==> (mask_bit(curr | (1u8 << bit), i)
            <==> (i == bit || mask_bit(curr, i))),
{
}

/// The mask byte with one line's bit cleared: the interrupt passes through.
pub fn clear_mask_bit(curr: u8, bit: u8) -> (r: u8)
    requires
        bit < 8,
    ensures
        r == curr & !(1u8 << bit),
        forall|i: u8| i < 8 ==> (mask_bit(r, i) <==> (i != bit && mask_bit(curr, i))),
{
    let r = curr & !(1u8 << bit);
    proof {
        lemma_mask_bit_cleared(curr, bit);
        assert forall|i: u8| i < 8 implies (mask_bit(r, i) <==> (i != bit && mask_bit(
            curr,
            i,
        ))) by {
            assert(mask_bit(curr & !(1u8 << bit), i) <==> (i != bit && mask_bit(curr, i)))
                by (bit_vector)
                requires
                    bit < 8,
                    i < 8,
            ;
        }
    }
    r
}

/// The mask byte with one line's bit set: the interrupt is held back.
pub fn set_mask_bit(curr: u8, bit: u8) -> (r: u8)
    requires
        bit < 8,
    ensures
        r == curr | (1u8 << bit),
        forall|i: u8| i < 8 ==> (mask_bit(r, i) <==> (i == bit || mask_bit(curr, i))),
{
    let r = curr | (1u8 << bit);
    proof {
        lemma_mask_bit_set(curr, bit);
        assert forall|i: u8| i < 8 implies (mask_bit(r, i) <==> (i == bit || mask_bit(
            curr,
            i,
        ))) by {
            assert(mask_bit(curr | (1u8 << bit), i) <==> (i == bit || mask_bit(curr, i)))
                by (bit_vector)
                requires
                    bit < 8,
                    i < 8,
            ;
        }
    }
    r
}

/// The mask-register port and bit index that govern one line: the primary
/// controller for lines 0-7, the secondary, with the line renumbered from
/// its own zero, for lines 8-15.
pub fn mask_location(line: usize) -> (r: (u16, u8))
    requires
        line < LINE_COUNT,
    ensures
        line > 7 ==> r == (SECONDARY_DATA, (line - 8) as u8),
        line <= 7 ==> r == (PRIMARY_DATA, line as u8),
{
    if line > 7 {
        (SECONDARY_DATA, (line - 8) as u8)
    } else {
        (PRIMARY_DATA, line as u8)
    }
}

/// Clears the line's mask bit on its owning controller through a
/// read-modify-write of that controller's mask register.
pub fn enable<P: PortIo>(bus: &mut P, line: usize)
    requires
        line < LINE_COUNT,
{
    let (port, bit) = mask_location(line);
    let curr = bus.inport(port);
    bus.outport(port, clear_mask_bit(curr, bit));
}

/// Sets the line's mask bit on its owning controller through a
/// read-modify-write of that controller's mask register.
pub fn disable<P: PortIo>(bus: &mut P, line: usize)
    requires
        line < LINE_COUNT,
{
    let (port, bit) = mask_location(line);
    let curr = bus.inport(port);
    bus.outport(port, set_mask_bit(curr, bit));
}

/// The end-of-interrupt writes owed for one line: a line on the secondary
/// controller acknowledges the secondary and then the primary, whose
/// cascade line carried the signal; a primary line acknowledges the
/// primary alone.
pub open spec fn spec_eoi_script(line: int) -> Seq<(u16, u8)> {
    if line > 7 {
        seq![(SECONDARY_COMMAND, CMD_EOI), (PRIMARY_COMMAND, CMD_EOI)]
    } else {
        seq![(PRIMARY_COMMAND, CMD_EOI)]
    }
}

/// Issues the end-of-interrupt acknowledgment for one line, in the order
/// `spec_eoi_script` gives.
pub fn eoi<P: PortIo>(bus: &mut P, n: usize)
    requires
        n < LINE_COUNT,
{
    if n > 7 {
        bus.outport(SECONDARY_COMMAND, CMD_EOI);
    }
    bus.outport(PRIMARY_COMMAND, CMD_EOI);
}

/// Selects and reads both controllers' in-service registers: the
/// secondary's byte forms the high half of the composite status, the
/// primary's the low half.
pub fn isr_query<P: PortIo>(bus: &mut P) -> u16 {
    bus.outport(PRIMARY_COMMAND, CMD_READ_ISR);
    bus.outport(SECONDARY_COMMAND, CMD_READ_ISR);
    let secondary = bus.inport(SECONDARY_COMMAND);
    let primary = bus.inport(PRIMARY_COMMAND);
    ((secondary as u16) << 8) | (primary as u16)
}

/// What the line-level dispatch concluded for one reported line.
pub enum IrqOutcome {
    /// Line 7 reported with its in-service bit clear: a spurious signal on
    /// the primary controller. Logged; nothing is acknowledged.
    Spurious,
    /// Line 15 reported with its in-service bit clear: a spurious signal on
    /// the secondary controller. Logged; the primary is still acknowledged,
    /// since its cascade line must be cleared.
    SpuriousCascade,
    /// Any other line whose in-service bit is clear. Logged; nothing is
    /// acknowledged.
    Stray,
    /// The line's registered callback ran, with the acknowledgment ordered
    /// by the line's trigger mode.
    Handled,
    /// The line was validated but holds no callback. Logged; still
    /// acknowledged, so the line does not stay wedged.
    Unhandled,
}

/// The outcome owed for a line, given the composite in-service status and
/// whether the line holds a callback.
pub open spec fn spec_outcome(line: u16, status: u16, present: bool) -> IrqOutcome {
    if line == 7 && status & 0x80 == 0 {
        IrqOutcome::Spurious
    } else if line == 15 && status & 0x8000 == 0 {
        IrqOutcome::SpuriousCascade
    } else if status & (1u16 << line) == 0 {
        IrqOutcome::Stray
    } else if present {
        IrqOutcome::Handled
    } else {
        IrqOutcome::Unhandled
    }
}

/// Law: when line 7 reports while bit 7 of the in-service status is clear,
/// the outcome is the spurious diagnostic whether or not a callback is
/// registered — so, by `dispatch_line`'s contract, no callback runs and
/// the router's state is untouched.
pub proof fn lemma_spurious_line_seven(status: u16, present: bool)
    requires
        status & 0x80 == 0,
    ensures
        spec_outcome(7, status, present) is Spurious,
{
}

/// Law: when line 15 reports while bit 15 of the in-service status is
/// clear, the outcome is the cascade spurious diagnostic whether or not a
/// callback is registered: no callback runs, and only the primary
/// controller is acknowledged.
pub proof fn lemma_spurious_line_fifteen(status: u16, present: bool)
    requires
        status & 0x8000 == 0,
    ensures
        spec_outcome(15, status, present) is SpuriousCascade,
{
}

/// Law: registering a second callback for a line replaces the first: the
/// slot table after two registrations at one index equals the table after
/// the second registration alone.
pub proof fn lemma_register_overwrite<H>(s: Seq<Slot<H>>, n: int, f1: H, l1: bool, f2: H, l2: bool)
    requires
        0 <= n < s.len(),
    ensures
        s.update(n, (Slot { f: Some(f1), level: l1 })).update(n, (Slot { f: Some(f2), level: l2 }))
            =~= s.update(n, (Slot { f: Some(f2), level: l2 })),
{
}

/// Reprograms both controllers with the initialization sequence for
/// `remap_base`, masks all sixteen lines, and routes the sixteen vectors
/// `remap_base + line` on the trap table to the shared line-level dispatch.
/// Every line slot starts with no callback; a line is unmasked only by a
/// later, separate `enable`.
pub fn init<P: PortIo, H>(bus: &mut P, traps: &mut crate::idt::Table<H>, remap_base: u8) -> (r: Pic<H>)
    requires
        remap_base + LINE_COUNT <= crate::idt::IDT_SIZE,
        old(traps).handlers@.len() == crate::idt::IDT_SIZE,
    ensures
        r.remap_base == remap_base,
        r.lines@.len() == LINE_COUNT,
        forall|i: int| 0 <= i < LINE_COUNT ==> r.lines@[i].f is None,
        final(traps).entries@ == old(traps).entries@,
        final(traps).reg == old(traps).reg,
        final(traps).handlers@.len() == crate::idt::IDT_SIZE,
        forall|v: int| 0 <= v < crate::idt::IDT_SIZE
            && !(remap_base <= v < remap_base + LINE_COUNT)
            ==> final(traps).handlers@[v] == old(traps).handlers@[v],
        forall|l: int| 0 <= l < LINE_COUNT
            ==> final(traps).handlers@[line_vector(remap_base, l)] is IrqGateway,
{
    let script = init_script(remap_base);
    run_script(bus, &script);

    let mut lines: Vec<Slot<H>> = Vec::new();
    let mut i: usize = 0;
    while i < LINE_COUNT
        invariant
            i <= LINE_COUNT,
            lines@.len() == i,
            forall|j: int| 0 <= j < i ==> lines@[j].f is None,
        decreases LINE_COUNT - i,
    {
        lines.push(Slot { f: None, level: true });
        i = i + 1;
    }

    let mut line: usize = 0;
    while line < LINE_COUNT
        invariant
            line <= LINE_COUNT,
            remap_base + LINE_COUNT <= crate::idt::IDT_SIZE,
            traps.handlers@.len() == crate::idt::IDT_SIZE,
            traps.entries@ == old(traps).entries@,
            traps.reg == old(traps).reg,
            forall|v: int| 0 <= v < crate::idt::IDT_SIZE
                && !(remap_base <= v < remap_base + line)
                ==> traps.handlers@[v] == old(traps).handlers@[v],
            forall|l: int| 0 <= l < line
                ==> traps.handlers@[line_vector(remap_base, l)] is IrqGateway,
        decreases LINE_COUNT - line,
    {
        traps.register_gateway(remap_base as usize + line);
        line = line + 1;
    }

    Pic { remap_base, lines }
}

impl<H> Pic<H> {
    /// Stores the callback and trigger mode for a line and marks it
    /// present, silently replacing whatever the slot held before. The line
    /// stays masked until `enable` is called for it.
    pub fn register(&mut self, n: usize, f: H, level: bool)
        requires
            n < old(self).lines@.len(),
        ensures
            final(self).lines@ == old(self).lines@.update(n as int, (Slot { f: Some(f), level })),
            final(self).remap_base == old(self).remap_base,
    {
        self.lines[n] = Slot { f: Some(f), level };
    }
}

impl<H: Handler> Pic<H> {
    /// Line-level dispatch once the composite in-service status is in
    /// hand: detects spurious and stray signals, orders the acknowledgment
    /// around the callback by the line's trigger mode (edge-triggered lines
    /// acknowledge before the callback, level-triggered after), and still
    /// acknowledges unhandled lines. Unless the line's own callback runs,
    /// the router's state is untouched.
    pub fn dispatch_line<P: PortIo>(&mut self, bus: &mut P, line: usize, status: u16) -> (r:
        IrqOutcome)
        requires
            line < LINE_COUNT,
            old(self).lines@.len() == LINE_COUNT,
        ensures
            final(self).remap_base == old(self).remap_base,
            final(self).lines@.len() == LINE_COUNT,
            r == spec_outcome(line as u16, status, old(self).lines@[line as int].f is Some),
            forall|j: int| 0 <= j < LINE_COUNT && j != line
                ==> final(self).lines@[j] == old(self).lines@[j],
            final(self).lines@[line as int].level == old(self).lines@[line as int].level,
            (final(self).lines@[line as int].f is Some)
                == (old(self).lines@[line as int].f is Some),
            !(r is Handled) ==> *final(self) == *old(self),
    {
        if line == 7 && status & 0x80 == 0 {
            return IrqOutcome::Spurious;
        }
        if line == 15 && status & 0x8000 == 0 {
            eoi(bus, 7);
            return IrqOutcome::SpuriousCascade;
        }
        if status & (1u16 << (line as u16)) == 0 {
            return IrqOutcome::Stray;
        }
        let level = self.lines[line].level;
        if self.lines[line].f.is_some() {
            if !level {
                eoi(bus, line);
            }
            match &mut self.lines[line].f {
                Option::Some(h) => {
                    h.handle(line);
                },
                Option::None => {},
            }
            if level {
                eoi(bus, line);
            }
            IrqOutcome::Handled
        } else {
            eoi(bus, line);
            IrqOutcome::Unhandled
        }
    }

    /// The shared dispatch routine that controller-owned vectors reach:
    /// recovers the logical line from the vector, queries both controllers'
    /// in-service registers, and dispatches the line on the composite
    /// status. Whatever status the hardware reports, slots other than the
    /// reported line's are untouched, and that line keeps its callback and
    /// trigger mode.
    pub fn irq<P: PortIo>(&mut self, bus: &mut P, which: usize) -> (r: IrqOutcome)
        requires
            old(self).lines@.len() == LINE_COUNT,
            old(self).remap_base <= which < old(self).remap_base + LINE_COUNT,
        ensures
            final(self).remap_base == old(self).remap_base,
            final(self).lines@.len() == LINE_COUNT,
            forall|j: int| 0 <= j < LINE_COUNT && j != which - old(self).remap_base
                ==> final(self).lines@[j] == old(self).lines@[j],
            final(self).lines@[which - old(self).remap_base].level
                == old(self).lines@[which - old(self).remap_base].level,
            (final(self).lines@[which - old(self).remap_base].f is Some)
                == (old(self).lines@[which - old(self).remap_base].f is Some),
            exists|status: u16| r == #[trigger] spec_outcome(
                (which - old(self).remap_base) as u16,
                status,
                old(self).lines@[which - old(self).remap_base].f is Some,
            ),
    {
        let line = which - self.remap_base as usize;
        let status = isr_query(bus);
        let r = self.dispatch_line(bus, line, status);
        proof {
            assert(r == spec_outcome(
                line as u16,
                status,
                old(self).lines@[line as int].f is Some,
            ));
        }
        r
    }
}

} // verus!

use vstd::prelude::*;

verus! {

/// Number of descriptor slots in the segment table. Only the first six are
/// populated at boot; the index is the segment selector divided by eight.
pub const GDT_SIZE: usize = 16;

/// One hardware segment descriptor in the architecture-mandated packed
/// layout: limit-low(2) base-low(2) base-mid(1) access(1) granularity(1)
/// base-high(1).
pub struct Entry {
    pub limit_low: u16,
    pub base_low: u16,
    pub base_mid: u8,
    pub access: u8,
    pub gran: u8,
    pub base_high: u8,
}

/// The descriptor-table register value: the table's byte limit and its base
/// address. The CPU reads the table through this on every segment dispatch
/// once it is loaded.
pub struct Register {
    pub limit: u16,
    pub addr: u32,
}

/// The segment descriptor table together with the register value that
/// points at it. Built once at boot and mutated only while booting.
pub struct Table {
    pub reg: Register,
    pub entries: Vec<Entry>,
}

/// The descriptor encoded from a raw base, limit, access byte and
/// granularity byte: the limit's low sixteen bits, the base split into
/// low sixteen, middle eight and top eight bits, and the two flag bytes
/// carried through unchanged.
pub open spec fn spec_entry(base: u32, limit: u32, access: u8, gran: u8) -> Entry {
    Entry {
        limit_low: (limit & 0xFFFF) as u16,
        base_low: (base & 0xFFFF) as u16,
        base_mid: ((base >> 16) & 0xFF) as u8,
        access: access,
        gran: gran,
        base_high: ((base >> 24) & 0xFF) as u8,
    }
}

impl Entry {
    /// The 8-byte memory image of this descriptor, low byte first.
    pub open spec fn bytes(self) -> Seq<u8> {
        seq![
            (self.limit_low & 0xFF) as u8,
            (self.limit_low >> 8) as u8,
            (self.base_low & 0xFF) as u8,
            (self.base_low >> 8) as u8,
            self.base_mid,
            self.access,
            self.gran,
            self.base_high,
        ]
    }

    /// Encodes one descriptor from its raw parts.
    pub fn new(base: u32, limit: u32, access: u8, gran: u8) -> (r: Entry)
        ensures
            r == spec_entry(base, limit, access, gran),
    {
        Entry {
            limit_low: (limit & 0xFFFF) as u16,
            base_low: (base & 0xFFFF) as u16,
            base_mid: ((base >> 16) & 0xFF) as u8,
            access: access,
            gran: gran,
            base_high: ((base >> 24) & 0xFF) as u8,
        }
    }

    /// Materializes the descriptor's 8-byte hardware image.
    pub fn encode(&self) -> (r: Vec<u8>)
        ensures
            r@ == self.bytes(),
    {
        let mut r: Vec<u8> = Vec::new();
        r.push((self.limit_low & 0xFF) as u8);
        r.push((self.limit_low >> 8) as u8);
        r.push((self.base_low & 0xFF) as u8);
        r.push((self.base_low >> 8) as u8);
        r.push(self.base_mid);
        r.push(self.access);
        r.push(self.gran);
        r.push(self.base_high);
        proof {
            assert(r@ =~= self.bytes());
        }
        r
    }
}

/// Law: for every base, limit, access byte and granularity byte, the encoded
/// descriptor's eight bytes are exactly the mandated layout: the limit's two
/// low bytes, the base's two low bytes, the base's middle byte, the access
/// byte, the granularity byte, and the base's top byte.
pub proof fn lemma_descriptor_layout(base: u32, limit: u32, access: u8, gran: u8)
    ensures
        spec_entry(base, limit, access, gran).bytes() =~= seq![
            (limit & 0xFF) as u8,
            ((limit >> 8) & 0xFF) as u8,
            (base & 0xFF) as u8,
            ((base >> 8) & 0xFF) as u8,
            ((base >> 16) & 0xFF) as u8,
            access,
            gran,
            ((base >> 24) & 0xFF) as u8,
        ],
{
    assert(((limit & 0xFFFF) as u16 & 0xFF) as u8 == (limit & 0xFF) as u8) by (bit_vector);
    assert((((limit & 0xFFFF) as u16) >> 8) as u8 == ((limit >> 8) & 0xFF) as u8) by (bit_vector);
    assert(((base & 0xFFFF) as u16 & 0xFF) as u8 == (base & 0xFF) as u8) by (bit_vector);
    assert((((base & 0xFFFF) as u16) >> 8) as u8 == ((base >> 8) & 0xFF) as u8) by (bit_vector);
}

impl Register {
    /// The register value for a table at `addr`: the limit is the byte size
    /// of the full sixteen-entry table plus one.
    pub fn new(addr: u32) -> (r: Register)
        ensures
            r.addr == addr,
            r.limit == GDT_SIZE * 8 + 1,
    {
        Register { limit: (GDT_SIZE as u16) * 8 + 1, addr }
    }
}

/// Allocates the segment table for the given base address: sixteen slots,
/// every one the null descriptor, and the register value describing them.
pub fn init(table_addr: u32) -> (t: Table)
    ensures
        t.reg.addr == table_addr,
        t.reg.limit == GDT_SIZE * 8 + 1,
        t.entries@.len() == GDT_SIZE,
        forall|i: int| 0 <= i < GDT_SIZE ==> t.entries@[i] == spec_entry(0, 0, 0, 0),
{
    let reg = Register::new(table_addr);
    let mut entries: Vec<Entry> = Vec::new();
    let mut i: usize = 0;
    while i < GDT_SIZE
        invariant
            i <= GDT_SIZE,
            entries@.len() == i,
            forall|j: int| 0 <= j < i ==> entries@[j] == spec_entry(0, 0, 0, 0),
        decreases GDT_SIZE - i,
    {
        entries.push(Entry::new(0, 0, 0, 0));
        i = i + 1;
    }
    Table { reg, entries }
}

impl Table {
    /// Encodes one descriptor in place. An out-of-range index is a
    /// programming error, so it is excluded rather than checked at runtime.
    pub fn entry(&mut self, index: usize, base: u32, limit: u32, access: u8, gran: u8)
        requires
            index < old(self).entries@.len(),
        ensures
            final(self).entries@ == old(self).entries@.update(
                index as int,
                spec_entry(base, limit, access, gran),
            ),
            final(self).reg == old(self).reg,
    {
        let e = Entry::new(base, limit, access, gran);
        self.entries[index] = e;
    }
}

} // verus!

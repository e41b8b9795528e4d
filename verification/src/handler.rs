use vstd::prelude::*;

verus! {

/// A registered interrupt callback: a capability object stored by ownership
/// transfer into a slot table, invoked with the CPU vector or logical IRQ
/// line number that fired. Drivers implement this once per device.
pub trait Handler {
    fn handle(&mut self, which: usize);
}

} // verus!

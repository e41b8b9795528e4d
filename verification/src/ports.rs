use vstd::prelude::*;

verus! {

/// Raw access to the machine's I/O port space, one primitive per
/// instruction. The architecture layer implements this with the real `in`
/// and `out` instructions; tests implement it with a recording bus. Nothing
/// is assumed of what a read returns: every function of this crate is
/// verified for all possible values.
pub trait PortIo {
    /// Write one byte to an output port.
    fn outport(&mut self, port: u16, value: u8);

    /// Read one byte from an input port.
    fn inport(&mut self, port: u16) -> u8;
}

/// Issues a fixed sequence of `(port, value)` writes, first element first.
pub fn run_script<P: PortIo>(bus: &mut P, script: &Vec<(u16, u8)>)
{
    let mut i: usize = 0;
    while i < script.len()
        invariant
            i <= script.len(),
        decreases script.len() - i,
    {
        let (port, value) = script[i];
        bus.outport(port, value);
        i = i + 1;
    }
}

} // verus!

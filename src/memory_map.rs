use vstd::prelude::*;

verus! {

/// A device that answers byte reads on the bus.
pub trait ReadByte {
    /// Whether the device is in a state where reads are defined.
    spec fn readable(&self) -> bool;

    fn read_byte(&self, address: u16) -> u8
        requires
            self.readable(),
    ;
}

/// A device that accepts byte writes from the bus.
pub trait WriteByte {
    /// Whether the device is in a state where writes are defined.
    spec fn writable(&self) -> bool;

    fn write_byte(&mut self, address: u16, value: u8)
        requires
            old(self).writable(),
        ensures
            final(self).writable(),
    ;
}

} // verus!

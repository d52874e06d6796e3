use vstd::prelude::*;
use crate::memory_map::{ReadByte, WriteByte};

verus! {

/// Size in bytes of the external RAM a cartridge carries.
pub const CART_RAM_SIZE: usize = 0x2000;

/// A cartridge: the ROM image, read verbatim, and external RAM behind an
/// enable latch.
pub struct Cartridge {
    pub rom: Vec<u8>,
    pub ram: Vec<u8>,
    pub ram_enabled: bool,
}

impl Cartridge {
    pub open spec fn wf(&self) -> bool {
        self.ram@.len() == CART_RAM_SIZE
    }

    /// The byte a read of `address` returns: external RAM in 0xA000..=0xBFFF
    /// (0 while the latch is off), ROM elsewhere (0 past its end).
    pub open spec fn read_spec(&self, address: u16) -> u8 {
        if 0xa000 <= address <= 0xbfff {
            if self.ram_enabled {
                self.ram@[address - 0xa000]
            } else {
                0
            }
        } else if (address as int) < self.rom@.len() {
            self.rom@[address as int]
        } else {
            0
        }
    }

    /// `new` is `old` after a write of `value` to `address`: writes below 0x2000
    /// set the latch from the low nibble, writes to external RAM land only
    /// while the latch is on, anything else is ignored.
    pub open spec fn written(old: Cartridge, new: Cartridge, address: u16, value: u8) -> bool {
        if address <= 0x1fff {
            new == Cartridge { ram_enabled: value % 16 == 0x0a, ..old }
        } else if 0xa000 <= address <= 0xbfff && old.ram_enabled {
            &&& new == Cartridge { ram: new.ram, ..old }
            &&& new.ram@ == old.ram@.update(address - 0xa000, value)
        } else {
            new == old
        }
    }

    pub fn new(rom: Vec<u8>) -> (r: Cartridge)
        ensures
            r.wf(),
            r.rom@ == rom@,
            r.ram@ == Seq::new(CART_RAM_SIZE as nat, |i: int| 0u8),
            !r.ram_enabled,
    {
        let ram = zeroed(CART_RAM_SIZE);
        Cartridge { rom, ram, ram_enabled: false }
    }

    pub fn size(&self) -> (r: usize)
        ensures
            r == self.rom@.len(),
    {
        self.rom.len()
    }

    pub fn read_byte(&self, address: u16) -> (r: u8)
        requires
            self.wf(),
        ensures
            r == self.read_spec(address),
    {
        if 0xa000 <= address && address <= 0xbfff {
            if self.ram_enabled {
                self.ram[(address - 0xa000) as usize]
            } else {
                0
            }
        } else if (address as usize) < self.rom.len() {
            self.rom[address as usize]
        } else {
            0
        }
    }

    pub fn write_byte(&mut self, address: u16, value: u8)
        requires
            old(self).wf(),
        ensures
            final(self).wf(),
            Cartridge::written(*old(self), *final(self), address, value),
    {
        if address <= 0x1fff {
            self.ram_enabled = value % 16 == 0x0a;
        } else if 0xa000 <= address && address <= 0xbfff {
            if self.ram_enabled {
                self.ram.set((address - 0xa000) as usize, value);
            }
        }
    }
}

/// A vector of `n` zero bytes.
pub fn zeroed(n: usize) -> (r: Vec<u8>)
    ensures
        r@ == Seq::new(n as nat, |i: int| 0u8),
{
    let mut v: Vec<u8> = Vec::with_capacity(n);
    let mut i: usize = 0;
    while i < n
        invariant
            i <= n,
            v@ == Seq::new(i as nat, |j: int| 0u8),
        decreases n - i,
    {
        v.push(0);
        i = i + 1;
        assert(v@ =~= Seq::new(i as nat, |j: int| 0u8));
    }
    v
}

/// A write below 0x2000 turns cartridge RAM on exactly when the written
/// value's low nibble is 0xA.
pub proof fn ram_latch_follows_last_write(c0: Cartridge, c1: Cartridge, address: u16, value: u8)
    requires
        address <= 0x1fff,
        Cartridge::written(c0, c1, address, value),
    ensures
        c1.ram_enabled == (value % 16 == 0x0a),
{
}

/// Writes at 0x2000 and above leave the RAM latch as it was.
pub proof fn ram_latch_kept_by_other_writes(c0: Cartridge, c1: Cartridge, address: u16, value: u8)
    requires
        address > 0x1fff,
        Cartridge::written(c0, c1, address, value),
    ensures
        c1.ram_enabled == c0.ram_enabled,
{
}

/// A write to cartridge RAM is seen by the next read while the latch is on;
/// while it is off the write changes nothing and reads give 0.
pub proof fn ram_write_visible_iff_enabled(c0: Cartridge, c1: Cartridge, address: u16, value: u8)
    requires
        c0.wf(),
        0xa000 <= address <= 0xbfff,
        Cartridge::written(c0, c1, address, value),
    ensures
        c0.ram_enabled ==> c1.read_spec(address) == value,
        !c0.ram_enabled ==> c1 == c0 && c1.read_spec(address) == 0,
{
}

impl ReadByte for Cartridge {
    open spec fn readable(&self) -> bool {
        self.wf()
    }

    fn read_byte(&self, address: u16) -> u8 {
        Cartridge::read_byte(self, address)
    }
}

impl WriteByte for Cartridge {
    open spec fn writable(&self) -> bool {
        self.wf()
    }

    fn write_byte(&mut self, address: u16, value: u8) {
        Cartridge::write_byte(self, address, value);
    }
}

} // verus!

use vstd::prelude::*;
use crate::memory_map::{ReadByte, WriteByte};
use crate::cartridge::{Cartridge, zeroed};
use crate::gpu::{GPU, OAM_SIZE};
use crate::joypad::Joypad;
use crate::timer::Timer;

verus! {

/// Bytes of work RAM.
pub const WRAM_SIZE: usize = 0x2000;
/// Bytes of high RAM.
pub const HRAM_SIZE: usize = 127;
/// Bytes of the boot ROM.
pub const BOOT_ROM_SIZE: usize = 0x100;

/// Index into work RAM of an address in work RAM or its echo.
pub open spec fn wram_index(address: u16) -> int {
    if address <= 0xdfff {
        address - 0xc000
    } else {
        address - 0xe000
    }
}

/// Whether the cartridge answers at `address`.
pub open spec fn is_cartridge(address: u16) -> bool {
    address <= 0x7fff || (0xa000 <= address <= 0xbfff)
}

/// Whether the GPU answers at `address` (the DMA register is the bus's own).
pub open spec fn is_gpu(address: u16) -> bool {
    (0x8000 <= address <= 0x9fff) || (0xfe00 <= address <= 0xfe9f) || (0xff40 <= address <= 0xff4b
        && address != 0xff46)
}

/// The memory bus: it owns work RAM, high RAM, IE, IF and the boot ROM
/// overlay, and routes every other address to the device behind it.
pub struct MMU {
    pub cartridge: Cartridge,
    pub working_ram: Vec<u8>,
    pub hram: Vec<u8>,
    pub gpu: GPU,
    pub joypad: Joypad,
    pub timer: Timer,
    pub ie: u8,
    pub interrupt_flag: u8,
    pub bootroom_enabled: bool,
    pub boot_rom: Vec<u8>,
}

impl MMU {
    pub open spec fn wf(&self) -> bool {
        &&& self.cartridge.wf()
        &&& self.gpu.wf()
        &&& self.timer.wf()
        &&& self.working_ram@.len() == WRAM_SIZE
        &&& self.hram@.len() == HRAM_SIZE
        &&& self.boot_rom@.len() == BOOT_ROM_SIZE
    }

    /// The byte a read of `address` returns.
    pub open spec fn read_spec(&self, address: u16) -> u8 {
        if address <= 0x00ff && self.bootroom_enabled {
            self.boot_rom@[address as int]
        } else if is_cartridge(address) {
            self.cartridge.read_spec(address)
        } else if is_gpu(address) {
            self.gpu.read_spec(address)
        } else if 0xc000 <= address <= 0xfdff {
            self.working_ram@[wram_index(address)]
        } else if address == 0xff00 {
            self.joypad.read_spec()
        } else if 0xff04 <= address <= 0xff07 {
            self.timer.read_spec(address)
        } else if address == 0xff0f {
            self.interrupt_flag
        } else if 0xff80 <= address <= 0xfffe {
            self.hram@[address - 0xff80]
        } else if address == 0xffff {
            self.ie
        } else {
            0
        }
    }

    /// The little-endian word at `address` and the next address.
    pub open spec fn read_word_spec(&self, address: u16) -> u16 {
        (self.read_spec(address) + 256 * self.read_spec(next_address(address))) as u16
    }

    /// OAM after a DMA copy from page `value`: byte `i` is the bus's byte at
    /// `(value << 8) + i`.
    pub open spec fn dma_copy(&self, value: u8) -> Seq<u8> {
        Seq::new(OAM_SIZE as nat, |i: int| self.read_spec((value * 256 + i) as u16))
    }

    /// `new` is `old` after a write of `value` to `address`.
    pub open spec fn written(old: MMU, new: MMU, address: u16, value: u8) -> bool {
        if is_cartridge(address) {
            &&& new == (MMU { cartridge: new.cartridge, ..old })
            &&& Cartridge::written(old.cartridge, new.cartridge, address, value)
        } else if is_gpu(address) {
            &&& new == (MMU { gpu: new.gpu, ..old })
            &&& GPU::written(old.gpu, new.gpu, address, value)
        } else if 0xc000 <= address <= 0xfdff {
            &&& new == (MMU { working_ram: new.working_ram, ..old })
            &&& new.working_ram@ == old.working_ram@.update(wram_index(address), value)
        } else if address == 0xff00 {
            new == (MMU {
                joypad: Joypad {
                    select_button_keys: value & 0x20 == 0,
                    select_directional_keys: value & 0x10 == 0,
                    ..old.joypad
                },
                ..old
            })
        } else if 0xff04 <= address <= 0xff07 {
            &&& new == (MMU { timer: new.timer, ..old })
            &&& Timer::written(old.timer, new.timer, address, value)
        } else if address == 0xff0f {
            new == (MMU { interrupt_flag: value, ..old })
        } else if address == 0xff46 {
            &&& new == (MMU { gpu: new.gpu, ..old })
            &&& new.gpu == (GPU { oam: new.gpu.oam, ..old.gpu })
            &&& new.gpu.oam@ == old.dma_copy(value)
        } else if address == 0xff50 {
            new == (MMU { bootroom_enabled: false, ..old })
        } else if 0xff80 <= address <= 0xfffe {
            &&& new == (MMU { hram: new.hram, ..old })
            &&& new.hram@ == old.hram@.update(address - 0xff80, value)
        } else if address == 0xffff {
            new == (MMU { ie: value, ..old })
        } else {
            new == old
        }
    }

    /// `new` is `old` after the low byte of `value` is written at `address`
    /// and then the high byte at the next address.
    pub open spec fn word_written(old: MMU, new: MMU, address: u16, value: u16) -> bool {
        exists|mid: MMU|
            MMU::written(old, mid, address, (value % 256) as u8) && mid.wf() && MMU::written(
                mid,
                new,
                next_address(address),
                (value / 256) as u8,
            )
    }

    /// The bus after `cycles` CPU cycles: the GPU and timer advance and the
    /// interrupts they raise are set in IF (timer overflow is bit 2).
    pub open spec fn stepped(old: MMU, new: MMU, cycles: u8) -> bool {
        let (timer, overflow) = Timer::stepped(old.timer, cycles);
        let irq = GPU::step_irq(old.gpu, cycles);
        &&& new == (MMU { gpu: new.gpu, timer, interrupt_flag: new.interrupt_flag, ..old })
        &&& GPU::stepped(old.gpu, new.gpu, cycles, irq)
        &&& new.interrupt_flag == old.interrupt_flag | irq | (if overflow { 4u8 } else { 0u8 })
    }

    /// A bus with no boot ROM: the cartridge answers from address 0.
    pub fn new() -> (r: MMU)
        ensures
            r.wf(),
            !r.bootroom_enabled,
            r.cartridge.rom@.len() == 0,
            r.ie == 0 && r.interrupt_flag == 0,
            r.working_ram@ == Seq::new(WRAM_SIZE as nat, |i: int| 0u8),
            r.hram@ == Seq::new(HRAM_SIZE as nat, |i: int| 0u8),
    {
        MMU {
            cartridge: Cartridge::new(Vec::new()),
            working_ram: zeroed(WRAM_SIZE),
            hram: zeroed(HRAM_SIZE),
            gpu: GPU::new(),
            joypad: Joypad::new(),
            timer: Timer::new(),
            ie: 0,
            interrupt_flag: 0,
            bootroom_enabled: false,
            boot_rom: zeroed(BOOT_ROM_SIZE),
        }
    }

    /// A bus whose first 256 addresses show `boot_rom` until 0xFF50 is written.
    pub fn with_boot_rom(boot_rom: Vec<u8>) -> (r: MMU)
        requires
            boot_rom@.len() == BOOT_ROM_SIZE,
        ensures
            r.wf(),
            r.bootroom_enabled,
            r.boot_rom@ == boot_rom@,
            r.cartridge.rom@.len() == 0,
            r.ie == 0 && r.interrupt_flag == 0,
            r.working_ram@ == Seq::new(WRAM_SIZE as nat, |i: int| 0u8),
            r.hram@ == Seq::new(HRAM_SIZE as nat, |i: int| 0u8),
    {
        let mut r = MMU::new();
        r.boot_rom = boot_rom;
        r.bootroom_enabled = true;
        r
    }

    pub fn load_cartridge(&mut self, cartridge: Cartridge)
        requires
            old(self).wf(),
            cartridge.wf(),
        ensures
            final(self).wf(),
            *final(self) == (MMU { cartridge, ..*old(self) }),
    {
        self.cartridge = cartridge;
    }

    /// Advances the GPU and the timer by `cycles` CPU cycles.
    pub fn step(&mut self, cycles: u8)
        requires
            old(self).wf(),
        ensures
            final(self).wf(),
            MMU::stepped(*old(self), *final(self), cycles),
    {
        let irq = self.gpu.step(cycles);
        let overflow = self.timer.step(cycles);
        let timer_bit: u8 = if overflow { 4 } else { 0 };
        self.interrupt_flag = self.interrupt_flag | irq | timer_bit;
    }

    pub fn read_byte(&self, address: u16) -> (r: u8)
        requires
            self.wf(),
        ensures
            r == self.read_spec(address),
    {
        if address <= 0x00ff && self.bootroom_enabled {
            self.boot_rom[address as usize]
        } else if address <= 0x7fff || (0xa000 <= address && address <= 0xbfff) {
            self.cartridge.read_byte(address)
        } else if (0x8000 <= address && address <= 0x9fff) || (0xfe00 <= address && address <= 0xfe9f) || (0xff40
            <= address && address <= 0xff4b && address != 0xff46) {
            self.gpu.read_byte(address)
        } else if 0xc000 <= address && address <= 0xdfff {
            self.working_ram[(address - 0xc000) as usize]
        } else if 0xe000 <= address && address <= 0xfdff {
            self.working_ram[(address - 0xe000) as usize]
        } else if address == 0xff00 {
            self.joypad.read_byte(address)
        } else if 0xff04 <= address && address <= 0xff07 {
            self.timer.read_byte(address)
        } else if address == 0xff0f {
            self.interrupt_flag
        } else if 0xff80 <= address && address <= 0xfffe {
            self.hram[(address - 0xff80) as usize]
        } else if address == 0xffff {
            self.ie
        } else {
            0
        }
    }

    pub fn read_word(&self, address: u16) -> (r: u16)
        requires
            self.wf(),
        ensures
            r == self.read_word_spec(address),
    {
        let ls = self.read_byte(address) as u16;
        let ms = self.read_byte(wrapping_next(address)) as u16;
        ls + 256 * ms
    }

    /// Copies 160 bytes from page `value` of the bus into OAM.
    fn dma(&mut self, value: u8)
        requires
            old(self).wf(),
        ensures
            final(self).wf(),
            *final(self) == (MMU { gpu: final(self).gpu, ..*old(self) }),
            final(self).gpu == (GPU { oam: final(self).gpu.oam, ..old(self).gpu }),
            final(self).gpu.oam@ == old(self).dma_copy(value),
    {
        let ghost before = *self;
        let start: u16 = value as u16 * 256;
        let mut i: usize = 0;
        while i < OAM_SIZE
            invariant
                self.wf(),
                i <= OAM_SIZE,
                start == value * 256,
                *self == (MMU { gpu: self.gpu, ..before }),
                self.gpu == (GPU { oam: self.gpu.oam, ..before.gpu }),
                forall|j: int| 0 <= j < i ==> self.gpu.oam@[j] == before.dma_copy(value)[j],
                forall|j: int| i <= j < OAM_SIZE ==> self.gpu.oam@[j] == before.gpu.oam@[j],
            decreases OAM_SIZE - i,
        {
            let address: u16 = start + i as u16;
            assert(self.read_spec(address) == before.read_spec(address));
            let b = self.read_byte(address);
            self.gpu.oam.set(i, b);
            i = i + 1;
        }
        assert(self.gpu.oam@ =~= before.dma_copy(value));
    }

    pub fn write_byte(&mut self, address: u16, value: u8)
        requires
            old(self).wf(),
        ensures
            final(self).wf(),
            MMU::written(*old(self), *final(self), address, value),
    {
        if address <= 0x7fff || (0xa000 <= address && address <= 0xbfff) {
            self.cartridge.write_byte(address, value);
        } else if (0x8000 <= address && address <= 0x9fff) || (0xfe00 <= address && address <= 0xfe9f) || (0xff40
            <= address && address <= 0xff4b && address != 0xff46) {
            self.gpu.write_byte(address, value);
        } else if 0xc000 <= address && address <= 0xdfff {
            self.working_ram.set((address - 0xc000) as usize, value);
        } else if 0xe000 <= address && address <= 0xfdff {
            self.working_ram.set((address - 0xe000) as usize, value);
        } else if address == 0xff00 {
            self.joypad.write_byte(address, value);
        } else if 0xff04 <= address && address <= 0xff07 {
            self.timer.write_byte(address, value);
        } else if address == 0xff0f {
            self.interrupt_flag = value;
        } else if address == 0xff46 {
            self.dma(value);
        } else if address == 0xff50 {
            self.bootroom_enabled = false;
        } else if 0xff80 <= address && address <= 0xfffe {
            self.hram.set((address - 0xff80) as usize, value);
        } else if address == 0xffff {
            self.ie = value;
        }
    }

    /// Writes `value` little-endian: the low byte at `address`, the high
    /// byte at the next address.
    pub fn write_word(&mut self, address: u16, value: u16)
        requires
            old(self).wf(),
        ensures
            final(self).wf(),
            MMU::word_written(*old(self), *final(self), address, value),
    {
        self.write_byte(address, (value % 256) as u8);
        let ghost mid = *self;
        self.write_byte(wrapping_next(address), (value / 256) as u8);
        assert(MMU::written(mid, *self, next_address(address), (value / 256) as u8));
    }
}

/// The address after `address`, wrapping at the top of the address space.
pub open spec fn next_address(address: u16) -> u16 {
    if address == 0xffff { 0 } else { (address + 1) as u16 }
}

pub fn wrapping_next(address: u16) -> (r: u16)
    ensures
        r == next_address(address),
{
    if address == 0xffff { 0 } else { address + 1 }
}

/// Whether `address` and the address after it lie in one writable region:
/// work RAM, its echo, high RAM, video RAM, OAM, or cartridge RAM while the
/// cartridge's RAM latch is on.
pub open spec fn writable_pair(m: MMU, address: u16) -> bool {
    let a = address as int;
    ||| 0xc000 <= a && a + 1 <= 0xdfff
    ||| 0xe000 <= a && a + 1 <= 0xfdff
    ||| 0xff80 <= a && a + 1 <= 0xfffe
    ||| 0x8000 <= a && a + 1 <= 0x9fff
    ||| 0xfe00 <= a && a + 1 <= 0xfe9f
    ||| 0xa000 <= a && a + 1 <= 0xbfff && m.cartridge.ram_enabled
}

/// Writing a word and reading it back at the same address gives the word,
/// wherever both of its bytes land in one writable region.
pub proof fn word_round_trip(m0: MMU, m2: MMU, address: u16, value: u16)
    requires
        m0.wf(),
        writable_pair(m0, address),
        MMU::word_written(m0, m2, address, value),
    ensures
        m2.read_word_spec(address) == value,
{
    let m1 = choose|mid: MMU|
        MMU::written(m0, mid, address, (value % 256) as u8) && mid.wf() && MMU::written(
            mid,
            m2,
            next_address(address),
            (value / 256) as u8,
        );
}

/// A write to 0xFF50 turns the boot ROM overlay off.
pub proof fn boot_overlay_disabled_by_latch(m0: MMU, m1: MMU, value: u8)
    requires
        MMU::written(m0, m1, 0xff50, value),
    ensures
        !m1.bootroom_enabled,
{
}

/// Once off, the boot ROM overlay stays off through every write and every
/// step of the devices.
pub proof fn boot_overlay_stays_off(m0: MMU, m1: MMU, m2: MMU, address: u16, value: u8, cycles: u8)
    requires
        !m0.bootroom_enabled,
        MMU::written(m0, m1, address, value),
        MMU::stepped(m0, m2, cycles),
    ensures
        !m1.bootroom_enabled,
        !m2.bootroom_enabled,
{
}

/// After a write of `value` to 0xFF46, OAM byte `i` equals what the bus
/// reads at `(value << 8) + i`, for each `i` below 160.
pub proof fn dma_fills_oam(m0: MMU, m1: MMU, value: u8)
    requires
        m0.wf(),
        MMU::written(m0, m1, 0xff46, value),
    ensures
        forall|i: int| 0 <= i < OAM_SIZE ==> #[trigger] m1.gpu.oam@[i] == m1.read_spec((value * 256 + i) as u16),
{
    assert forall|i: int| 0 <= i < OAM_SIZE implies #[trigger] m1.gpu.oam@[i] == m1.read_spec((value * 256 + i) as u16) by {
        let a = (value * 256 + i) as u16;
        assert(m1.gpu.oam@[i] == m0.read_spec(a));
    }
}

/// When the timer overflows during a step of the bus, IF bit 2 is set.
pub proof fn timer_overflow_sets_flag(m0: MMU, m1: MMU, cycles: u8)
    requires
        MMU::stepped(m0, m1, cycles),
        Timer::stepped(m0.timer, cycles).1,
    ensures
        m1.interrupt_flag & 4 == 4,
{
    let x = m0.interrupt_flag | GPU::step_irq(m0.gpu, cycles);
    assert((x | 4u8) & 4 == 4) by (bit_vector);
}

impl ReadByte for MMU {
    open spec fn readable(&self) -> bool {
        self.wf()
    }

    fn read_byte(&self, address: u16) -> u8 {
        MMU::read_byte(self, address)
    }
}

impl WriteByte for MMU {
    open spec fn writable(&self) -> bool {
        self.wf()
    }

    fn write_byte(&mut self, address: u16, value: u8) {
        MMU::write_byte(self, address, value);
    }
}

} // verus!

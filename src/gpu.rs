use vstd::prelude::*;
use crate::memory_map::{ReadByte, WriteByte};
use crate::cartridge::zeroed;

verus! {

/// Bytes of object attribute memory.
pub const OAM_SIZE: usize = 160;
/// Bytes of video RAM.
pub const VRAM_SIZE: usize = 0x2000;

/// The phase of the current scanline.
#[derive(PartialEq, Eq, Structural, Clone, Copy, Debug)]
pub enum LineMode {
    HBlank,
    VBlank,
    OAMRead,
    VRAMRead,
}

/// One of the four grey levels of the display.
#[derive(PartialEq, Eq, Structural, Clone, Copy, Debug)]
pub enum Shade {
    White,
    LightGray,
    DarkGray,
    Black,
}

/// The shade of each of the four colour indices.
pub type Palette = (Shade, Shade, Shade, Shade);

pub open spec fn shade_of(value: u8) -> Shade
    recommends
        value < 4,
{
    if value == 0 {
        Shade::White
    } else if value == 1 {
        Shade::LightGray
    } else if value == 2 {
        Shade::DarkGray
    } else {
        Shade::Black
    }
}

pub open spec fn shade_code(s: Shade) -> u8 {
    match s {
        Shade::White => 0,
        Shade::LightGray => 1,
        Shade::DarkGray => 2,
        Shade::Black => 3,
    }
}

/// A palette byte read as four two-bit groups, index 0 in the low bits.
#[verifier::opaque]
pub open spec fn palette_of(value: u8) -> Palette {
    (shade_of(value % 4), shade_of(value / 4 % 4), shade_of(value / 16 % 4), shade_of(value / 64))
}

/// The byte that encodes a palette.
#[verifier::opaque]
pub open spec fn palette_byte(p: Palette) -> u8 {
    (shade_code(p.0) + 4 * shade_code(p.1) + 16 * shade_code(p.2) + 64 * shade_code(p.3)) as u8
}

impl Shade {
    pub fn from_u8(value: u8) -> (r: Shade)
        requires
            value < 4,
        ensures
            r == shade_of(value),
    {
        if value == 0 {
            Shade::White
        } else if value == 1 {
            Shade::LightGray
        } else if value == 2 {
            Shade::DarkGray
        } else {
            Shade::Black
        }
    }

    pub fn to_u8(&self) -> (r: u8)
        ensures
            r == shade_code(*self),
    {
        match *self {
            Shade::White => 0,
            Shade::LightGray => 1,
            Shade::DarkGray => 2,
            Shade::Black => 3,
        }
    }
}

fn decode_palette(value: u8) -> (r: Palette)
    ensures
        r == palette_of(value),
{
    reveal(palette_of);
    (Shade::from_u8(value % 4), Shade::from_u8(value / 4 % 4), Shade::from_u8(value / 16 % 4), Shade::from_u8(value / 64))
}

fn encode_palette(p: &Palette) -> (r: u8)
    ensures
        r == palette_byte(*p),
{
    reveal(palette_byte);
    p.0.to_u8() + 4 * p.1.to_u8() + 16 * p.2.to_u8() + 64 * p.3.to_u8()
}

/// Decoding a palette byte and encoding the result gives the byte back.
pub proof fn palette_round_trip(value: u8)
    ensures
        palette_byte(palette_of(value)) == value,
{
    reveal(palette_of);
    reveal(palette_byte);
    assert(value == value % 4 + 4 * (value / 4 % 4) + 16 * (value / 16 % 4) + 64 * (value / 64)) by (bit_vector);
}

/// CPU cycles that each phase of a scanline lasts.
pub open spec fn phase_length(mode: LineMode) -> u16 {
    match mode {
        LineMode::OAMRead => 80,
        LineMode::VRAMRead => 172,
        LineMode::HBlank => 204,
        LineMode::VBlank => 456,
    }
}

/// The phase that follows `mode` on `line`: the next mode, the next line,
/// whether V-blank begins (interrupt bit 0) and whether the new line meets
/// LYC with the coincidence interrupt selected (interrupt bit 1).
pub open spec fn next_phase(mode: LineMode, line: u8, lyc: u8, coincidence: bool) -> (LineMode, u8, bool, bool) {
    match mode {
        LineMode::OAMRead => (LineMode::VRAMRead, line, false, false),
        LineMode::VRAMRead => (LineMode::HBlank, line, false, false),
        LineMode::HBlank => {
            let next = (line + 1) as u8;
            if line == 143 {
                (LineMode::VBlank, next, true, coincidence && next == lyc)
            } else {
                (LineMode::OAMRead, next, false, coincidence && next == lyc)
            }
        },
        LineMode::VBlank => {
            if line >= 153 {
                (LineMode::OAMRead, 0u8, false, coincidence && lyc == 0)
            } else {
                (LineMode::VBlank, (line + 1) as u8, false, coincidence && (line + 1) as u8 == lyc)
            }
        },
    }
}

/// Runs every phase that `clock` cycles complete: the final mode, line and
/// clock, and whether each of the two interrupts was raised on the way.
pub open spec fn settle(mode: LineMode, line: u8, clock: u16, lyc: u8, coincidence: bool) -> (LineMode, u8, u16, bool, bool)
    decreases clock,
{
    if clock < phase_length(mode) {
        (mode, line, clock, false, false)
    } else {
        let (m2, l2, v, st) = next_phase(mode, line, lyc, coincidence);
        let (m3, l3, c3, v3, st3) = settle(m2, l2, (clock - phase_length(mode)) as u16, lyc, coincidence);
        (m3, l3, c3, v || v3, st || st3)
    }
}

/// The interrupt-flag bits for a raised V-blank and a raised LCD status interrupt.
pub open spec fn irq_bits(vblank: bool, stat: bool) -> u8 {
    (bit_if(vblank, 1) + bit_if(stat, 2)) as u8
}

/// The LCD control, status, scroll, window and palette registers.
#[derive(Clone, Copy)]
pub struct LcdRegisters {
    pub scroll_y: u8,
    pub scroll_x: u8,
    pub lcd_on: bool,
    pub window_tile_map: bool,
    pub window_enable: bool,
    pub bg_tile_select: bool,
    pub bg_map_select: bool,
    pub obj_size: bool,
    pub obj_display_enable: bool,
    pub bg_display_enable: bool,
    pub coincidence_interrupt: bool,
    pub oam_interrupt: bool,
    pub v_blank_interrupt: bool,
    pub h_blank_interrupt: bool,
    pub lyc: u8,
    pub window_position_y: u8,
    pub window_position_x: u8,
    pub bg_palette: Palette,
    pub obj_0_palette: Palette,
    pub obj_1_palette: Palette,
}

/// The pixel processing unit: its registers, video RAM, object attribute
/// memory and the scanline mode machine.
pub struct GPU {
    pub regs: LcdRegisters,
    pub current_line: u8,
    pub line_mode: LineMode,
    /// Cycles spent in the current phase.
    pub clock: u16,
    pub vram: Vec<u8>,
    pub oam: Vec<u8>,
}

pub open spec fn bit_if(b: bool, bit: u8) -> u8 {
    if b { bit } else { 0 }
}

pub open spec fn mode_code(mode: LineMode) -> u8 {
    match mode {
        LineMode::HBlank => 0,
        LineMode::VBlank => 1,
        LineMode::OAMRead => 2,
        LineMode::VRAMRead => 3,
    }
}

impl LcdRegisters {
    pub open spec fn lcdc_spec(&self) -> u8 {
        (bit_if(self.lcd_on, 0x80) + bit_if(self.window_tile_map, 0x40) + bit_if(self.window_enable, 0x20)
            + bit_if(self.bg_tile_select, 0x10) + bit_if(self.bg_map_select, 0x08) + bit_if(self.obj_size, 0x04)
            + bit_if(self.obj_display_enable, 0x02) + bit_if(self.bg_display_enable, 0x01)) as u8
    }

    /// The registers after a write of `value` to LCDC.
    pub open spec fn with_lcdc(self, value: u8) -> LcdRegisters {
        LcdRegisters {
            lcd_on: value & 0x80 != 0,
            window_tile_map: value & 0x40 != 0,
            window_enable: value & 0x20 != 0,
            bg_tile_select: value & 0x10 != 0,
            bg_map_select: value & 0x08 != 0,
            obj_size: value & 0x04 != 0,
            obj_display_enable: value & 0x02 != 0,
            bg_display_enable: value & 0x01 != 0,
            ..self
        }
    }

    /// The registers after a write of `value` to STAT: only the four
    /// interrupt selectors are writable.
    pub open spec fn with_stat(self, value: u8) -> LcdRegisters {
        LcdRegisters {
            coincidence_interrupt: value & 0x40 != 0,
            oam_interrupt: value & 0x20 != 0,
            v_blank_interrupt: value & 0x10 != 0,
            h_blank_interrupt: value & 0x08 != 0,
            ..self
        }
    }

    /// The register value read at `address` in 0xFF40..=0xFF4B, but for
    /// STAT and LY, which depend on the mode machine.
    pub open spec fn read_spec(&self, address: u16) -> u8 {
        if address == 0xff40 {
            self.lcdc_spec()
        } else if address == 0xff42 {
            self.scroll_y
        } else if address == 0xff43 {
            self.scroll_x
        } else if address == 0xff45 {
            self.lyc
        } else if address == 0xff47 {
            palette_byte(self.bg_palette)
        } else if address == 0xff48 {
            palette_byte(self.obj_0_palette)
        } else if address == 0xff49 {
            palette_byte(self.obj_1_palette)
        } else if address == 0xff4a {
            self.window_position_y
        } else if address == 0xff4b {
            self.window_position_x
        } else {
            0
        }
    }

    /// The registers after a write of `value` to `address`; LY and the
    /// addresses without a register ignore writes.
    pub open spec fn write_spec(self, address: u16, value: u8) -> LcdRegisters {
        if address == 0xff40 {
            self.with_lcdc(value)
        } else if address == 0xff41 {
            self.with_stat(value)
        } else if address == 0xff42 {
            LcdRegisters { scroll_y: value, ..self }
        } else if address == 0xff43 {
            LcdRegisters { scroll_x: value, ..self }
        } else if address == 0xff45 {
            LcdRegisters { lyc: value, ..self }
        } else if address == 0xff47 {
            LcdRegisters { bg_palette: palette_of(value), ..self }
        } else if address == 0xff48 {
            LcdRegisters { obj_0_palette: palette_of(value), ..self }
        } else if address == 0xff49 {
            LcdRegisters { obj_1_palette: palette_of(value), ..self }
        } else if address == 0xff4a {
            LcdRegisters { window_position_y: value, ..self }
        } else if address == 0xff4b {
            LcdRegisters { window_position_x: value, ..self }
        } else {
            self
        }
    }

    fn lcdc(&self) -> (r: u8)
        ensures
            r == self.lcdc_spec(),
    {
        let mut value: u8 = 0;
        if self.lcd_on { value = value + 0x80; }
        if self.window_tile_map { value = value + 0x40; }
        if self.window_enable { value = value + 0x20; }
        if self.bg_tile_select { value = value + 0x10; }
        if self.bg_map_select { value = value + 0x08; }
        if self.obj_size { value = value + 0x04; }
        if self.obj_display_enable { value = value + 0x02; }
        if self.bg_display_enable { value = value + 0x01; }
        value
    }

    fn read_byte(&self, address: u16) -> (r: u8)
        ensures
            r == self.read_spec(address),
    {
        if address == 0xff40 {
            self.lcdc()
        } else if address == 0xff42 {
            self.scroll_y
        } else if address == 0xff43 {
            self.scroll_x
        } else if address == 0xff45 {
            self.lyc
        } else if address == 0xff47 {
            encode_palette(&self.bg_palette)
        } else if address == 0xff48 {
            encode_palette(&self.obj_0_palette)
        } else if address == 0xff49 {
            encode_palette(&self.obj_1_palette)
        } else if address == 0xff4a {
            self.window_position_y
        } else if address == 0xff4b {
            self.window_position_x
        } else {
            0
        }
    }

    fn write_lcdc(&mut self, value: u8)
        ensures
            *final(self) == old(self).with_lcdc(value),
    {
            self.lcd_on = value & 0x80 != 0;
            self.window_tile_map = value & 0x40 != 0;
            self.window_enable = value & 0x20 != 0;
            self.bg_tile_select = value & 0x10 != 0;
            self.bg_map_select = value & 0x08 != 0;
            self.obj_size = value & 0x04 != 0;
            self.obj_display_enable = value & 0x02 != 0;
            self.bg_display_enable = value & 0x01 != 0;
    }

    fn write_stat(&mut self, value: u8)
        ensures
            *final(self) == old(self).with_stat(value),
    {
            self.coincidence_interrupt = value & 0x40 != 0;
            self.oam_interrupt = value & 0x20 != 0;
            self.v_blank_interrupt = value & 0x10 != 0;
            self.h_blank_interrupt = value & 0x08 != 0;
    }

    #[verifier::rlimit(100)]
    fn write_byte(&mut self, address: u16, value: u8)
        ensures
            *final(self) == old(self).write_spec(address, value),
    {
        if address == 0xff40 {
            self.write_lcdc(value);
        } else if address == 0xff41 {
            self.write_stat(value);
        } else if address == 0xff42 {
            self.scroll_y = value;
        } else if address == 0xff43 {
            self.scroll_x = value;
        } else if address == 0xff45 {
            self.lyc = value;
        } else {
            self.write_other(address, value);
        }
    }

    fn write_other(&mut self, address: u16, value: u8)
        requires
            address != 0xff40 && address != 0xff41 && address != 0xff42,
            address != 0xff43 && address != 0xff45,
        ensures
            *final(self) == old(self).write_spec(address, value),
    {
        if address == 0xff47 {
            self.bg_palette = decode_palette(value);
        } else if address == 0xff48 {
            self.obj_0_palette = decode_palette(value);
        } else if address == 0xff49 {
            self.obj_1_palette = decode_palette(value);
        } else if address == 0xff4a {
            self.window_position_y = value;
        } else if address == 0xff4b {
            self.window_position_x = value;
        }
    }
}

impl GPU {
    pub open spec fn wf(&self) -> bool {
        &&& self.vram@.len() == VRAM_SIZE
        &&& self.oam@.len() == OAM_SIZE
        &&& self.clock < phase_length(self.line_mode)
        &&& self.lines_ok()
    }

    /// V-blank covers lines 144..=153; the other phases lines 0..=143.
    pub open spec fn lines_ok(&self) -> bool {
        if self.line_mode == LineMode::VBlank {
            144 <= self.current_line <= 153
        } else {
            self.current_line <= 143
        }
    }

    pub open spec fn stat_spec(&self) -> u8 {
        (bit_if(self.regs.coincidence_interrupt, 0x40) + bit_if(self.regs.oam_interrupt, 0x20)
            + bit_if(self.regs.v_blank_interrupt, 0x10) + bit_if(self.regs.h_blank_interrupt, 0x08)
            + bit_if(self.current_line == self.regs.lyc, 0x04) + mode_code(self.line_mode)) as u8
    }

    /// The value a read of `address` returns from video RAM, OAM or a
    /// register in 0xFF40..=0xFF4B (0 where nothing answers).
    pub open spec fn read_spec(&self, address: u16) -> u8 {
        if 0x8000 <= address <= 0x9fff {
            self.vram@[address - 0x8000]
        } else if 0xfe00 <= address <= 0xfe9f {
            self.oam@[address - 0xfe00]
        } else if address == 0xff41 {
            self.stat_spec()
        } else if address == 0xff44 {
            self.current_line
        } else {
            self.regs.read_spec(address)
        }
    }

    /// `new` is `old` after a write of `value` to `address`.
    pub open spec fn written(old: GPU, new: GPU, address: u16, value: u8) -> bool {
        if 0x8000 <= address <= 0x9fff {
            &&& new == (GPU { vram: new.vram, ..old })
            &&& new.vram@ == old.vram@.update(address - 0x8000, value)
        } else if 0xfe00 <= address <= 0xfe9f {
            &&& new == (GPU { oam: new.oam, ..old })
            &&& new.oam@ == old.oam@.update(address - 0xfe00, value)
        } else {
            new == (GPU { regs: old.regs.write_spec(address, value), ..old })
        }
    }

    /// The interrupt bits that `cycles` CPU cycles raise.
    pub open spec fn step_irq(old: GPU, cycles: u8) -> u8 {
        if !old.regs.lcd_on {
            0
        } else {
            let r = settle(
                old.line_mode,
                old.current_line,
                (old.clock + cycles) as u16,
                old.regs.lyc,
                old.regs.coincidence_interrupt,
            );
            irq_bits(r.3, r.4)
        }
    }

    /// The mode machine after `cycles` CPU cycles, and the interrupt bits it
    /// raised. With the display off the line stays at 0 in H-blank.
    pub open spec fn stepped(old: GPU, new: GPU, cycles: u8, irq: u8) -> bool {
        if !old.regs.lcd_on {
            &&& new == (GPU { current_line: 0, line_mode: LineMode::HBlank, clock: 0, ..old })
            &&& irq == 0
        } else {
            let (m, l, c, v, st) = settle(
                old.line_mode,
                old.current_line,
                (old.clock + cycles) as u16,
                old.regs.lyc,
                old.regs.coincidence_interrupt,
            );
            &&& new == (GPU { line_mode: m, current_line: l, clock: c, ..old })
            &&& irq == irq_bits(v, st)
        }
    }

    pub fn new() -> (r: GPU)
        ensures
            r.wf(),
            r.vram@ == Seq::new(VRAM_SIZE as nat, |i: int| 0u8),
            r.oam@ == Seq::new(OAM_SIZE as nat, |i: int| 0u8),
            r.current_line == 0 && r.clock == 0 && r.line_mode == LineMode::OAMRead,
            r.regs.lcd_on,
            r.regs.scroll_x == 0 && r.regs.scroll_y == 0 && r.regs.lyc == 0,
    {
        let white = (Shade::White, Shade::White, Shade::White, Shade::White);
        let regs = LcdRegisters {
            scroll_y: 0,
            scroll_x: 0,
            lcd_on: true,
            window_tile_map: false,
            window_enable: false,
            bg_tile_select: true,
            bg_map_select: false,
            obj_size: false,
            obj_display_enable: false,
            bg_display_enable: true,
            coincidence_interrupt: false,
            oam_interrupt: false,
            v_blank_interrupt: false,
            h_blank_interrupt: false,
            lyc: 0,
            window_position_y: 0,
            window_position_x: 0,
            bg_palette: white,
            obj_0_palette: white,
            obj_1_palette: white,
        };
        GPU {
            regs,
            current_line: 0,
            line_mode: LineMode::OAMRead,
            clock: 0,
            vram: zeroed(VRAM_SIZE),
            oam: zeroed(OAM_SIZE),
        }
    }

    fn length_of(mode: LineMode) -> (r: u16)
        ensures
            r == phase_length(mode),
    {
        match mode {
            LineMode::OAMRead => 80,
            LineMode::VRAMRead => 172,
            LineMode::HBlank => 204,
            LineMode::VBlank => 456,
        }
    }

    fn coincidence(&self, line: u8) -> (r: bool)
        ensures
            r == (self.regs.coincidence_interrupt && line == self.regs.lyc),
    {
        self.regs.coincidence_interrupt && line == self.regs.lyc
    }

    /// Moves to the phase that follows the current one and reports the
    /// V-blank and LCD status interrupts it raises.
    fn advance(&mut self) -> (r: (bool, bool))
        requires
            old(self).lines_ok(),
        ensures
            (final(self).line_mode, final(self).current_line, r.0, r.1) == next_phase(
                old(self).line_mode,
                old(self).current_line,
                old(self).regs.lyc,
                old(self).regs.coincidence_interrupt,
            ),
            *final(self) == (GPU { line_mode: final(self).line_mode, current_line: final(self).current_line, ..*old(self) }),
            final(self).lines_ok(),
    {
        match self.line_mode {
            LineMode::OAMRead => {
                self.line_mode = LineMode::VRAMRead;
                (false, false)
            },
            LineMode::VRAMRead => {
                self.line_mode = LineMode::HBlank;
                (false, false)
            },
            LineMode::HBlank => {
                let line = self.current_line;
                self.current_line = line + 1;
                let c = self.coincidence(line + 1);
                if line == 143 {
                    self.line_mode = LineMode::VBlank;
                    (true, c)
                } else {
                    self.line_mode = LineMode::OAMRead;
                    (false, c)
                }
            },
            LineMode::VBlank => {
                if self.current_line >= 153 {
                    self.current_line = 0;
                    self.line_mode = LineMode::OAMRead;
                    (false, self.coincidence(0))
                } else {
                    self.current_line = self.current_line + 1;
                    (false, self.coincidence(self.current_line))
                }
            },
        }
    }

    /// Advances the mode machine by `cycles` CPU cycles and returns the
    /// interrupt bits to raise in IF.
    pub fn step(&mut self, cycles: u8) -> (irq: u8)
        requires
            old(self).wf(),
        ensures
            final(self).wf(),
            GPU::stepped(*old(self), *final(self), cycles, irq),
    {
        if !self.regs.lcd_on {
            self.current_line = 0;
            self.line_mode = LineMode::HBlank;
            self.clock = 0;
            return 0;
        }
        self.clock = self.clock + cycles as u16;
        let ghost goal = settle(self.line_mode, self.current_line, self.clock, self.regs.lyc, self.regs.coincidence_interrupt);
        let ghost before = *self;
        let mut vblank = false;
        let mut stat = false;
        let mut length = GPU::length_of(self.line_mode);
        while self.clock >= length
            invariant
                length == phase_length(self.line_mode),
                self.lines_ok(),
                self.clock < 456 + 256,
                *self == (GPU { line_mode: self.line_mode, current_line: self.current_line, clock: self.clock, ..before }),
                ({
                    let r = settle(self.line_mode, self.current_line, self.clock, self.regs.lyc, self.regs.coincidence_interrupt);
                    (r.0, r.1, r.2, vblank || r.3, stat || r.4) == goal
                }),
            decreases self.clock,
        {
            self.clock = self.clock - length;
            let raised = self.advance();
            vblank = vblank || raised.0;
            stat = stat || raised.1;
            length = GPU::length_of(self.line_mode);
        }
        let mut irq: u8 = 0;
        if vblank {
            irq = irq + 1;
        }
        if stat {
            irq = irq + 2;
        }
        irq
    }

    fn stat(&self) -> (r: u8)
        ensures
            r == self.stat_spec(),
    {
        let mut value: u8 = match self.line_mode {
            LineMode::HBlank => 0,
            LineMode::VBlank => 1,
            LineMode::OAMRead => 2,
            LineMode::VRAMRead => 3,
        };
        if self.regs.coincidence_interrupt { value = value + 0x40; }
        if self.regs.oam_interrupt { value = value + 0x20; }
        if self.regs.v_blank_interrupt { value = value + 0x10; }
        if self.regs.h_blank_interrupt { value = value + 0x08; }
        if self.current_line == self.regs.lyc { value = value + 0x04; }
        value
    }

    pub fn read_byte(&self, address: u16) -> (r: u8)
        requires
            self.wf(),
        ensures
            r == self.read_spec(address),
    {
        if 0x8000 <= address && address <= 0x9fff {
            self.vram[(address - 0x8000) as usize]
        } else if 0xfe00 <= address && address <= 0xfe9f {
            self.oam[(address - 0xfe00) as usize]
        } else if address == 0xff41 {
            self.stat()
        } else if address == 0xff44 {
            self.current_line
        } else {
            self.regs.read_byte(address)
        }
    }

    pub fn write_byte(&mut self, address: u16, value: u8)
        requires
            old(self).wf(),
        ensures
            final(self).wf(),
            GPU::written(*old(self), *final(self), address, value),
    {
        if 0x8000 <= address && address <= 0x9fff {
            self.vram.set((address - 0x8000) as usize, value);
        } else if 0xfe00 <= address && address <= 0xfe9f {
            self.oam.set((address - 0xfe00) as usize, value);
        } else {
            self.regs.write_byte(address, value);
        }
    }
}

impl ReadByte for GPU {
    open spec fn readable(&self) -> bool {
        self.wf()
    }

    fn read_byte(&self, address: u16) -> u8 {
        GPU::read_byte(self, address)
    }
}

impl WriteByte for GPU {
    open spec fn writable(&self) -> bool {
        self.wf()
    }

    fn write_byte(&mut self, address: u16, value: u8) {
        GPU::write_byte(self, address, value);
    }
}

} // verus!

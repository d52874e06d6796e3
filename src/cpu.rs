use vstd::prelude::*;
use crate::mmu::{MMU, next_address, wrapping_next};

verus! {

/// Running totals of the CPU's time.
#[derive(Clone, Copy, Debug)]
pub struct Clock {
    /// Clock cycles spent since reset, wrapping at 2^64.
    pub m: u64,
    /// Steps taken since reset, wrapping at 2^64.
    pub t: u64,
}

/// The four condition flags: zero, subtract, half carry, carry.
#[derive(PartialEq, Eq, Structural, Clone, Copy, Debug)]
pub struct Flags {
    pub z: bool,
    pub n: bool,
    pub h: bool,
    pub c: bool,
}

/// The register file.
#[derive(PartialEq, Eq, Structural, Clone, Copy, Debug)]
pub struct Registers {
    pub pc: u16,
    pub sp: u16,
    pub a: u8,
    pub b: u8,
    pub c: u8,
    pub d: u8,
    pub e: u8,
    pub h: u8,
    pub l: u8,
}

/// An 8-bit register.
#[derive(PartialEq, Eq, Structural, Clone, Copy, Debug)]
pub enum Register {
    A,
    B,
    C,
    D,
    E,
    H,
    L,
}

/// A 16-bit register pair (AF holds the flags in F).
#[derive(PartialEq, Eq, Structural, Clone, Copy, Debug)]
pub enum Pair {
    BC,
    DE,
    HL,
    SP,
    AF,
}

/// Where an 8-bit operand lives: a register or a bus address.
#[derive(PartialEq, Eq, Structural, Clone, Copy, Debug)]
pub enum Loc8 {
    Reg(Register),
    Mem(u16),
}

/// The word made of a high and a low byte.
pub open spec fn word(hi: u8, lo: u8) -> u16 {
    (hi * 256 + lo) as u16
}

pub open spec fn hi_byte(w: u16) -> u8 {
    (w / 256) as u8
}

pub open spec fn lo_byte(w: u16) -> u8 {
    (w % 256) as u8
}

pub open spec fn bit_of(b: bool) -> int {
    if b { 1 } else { 0 }
}

/// The F register: Z, N, H, C in bits 7..4, bits 3..0 zero.
pub open spec fn flags_byte(f: Flags) -> u8 {
    (128 * bit_of(f.z) + 64 * bit_of(f.n) + 32 * bit_of(f.h) + 16 * bit_of(f.c)) as u8
}

/// The flags that an F value holds.
pub open spec fn flags_of(v: u8) -> Flags {
    Flags { z: v / 128 % 2 == 1, n: v / 64 % 2 == 1, h: v / 32 % 2 == 1, c: v / 16 % 2 == 1 }
}

/// A byte read as a two's-complement offset.
pub open spec fn signed(b: u8) -> int {
    if b < 128 { b as int } else { b - 256 }
}

/// `w` moved by the signed offset `b`, modulo 2^16.
pub open spec fn offset(w: u16, b: u8) -> u16 {
    ((w + signed(b) + 0x10000) % 0x10000) as u16
}

pub open spec fn reg_get(r: Registers, which: Register) -> u8 {
    match which {
        Register::A => r.a,
        Register::B => r.b,
        Register::C => r.c,
        Register::D => r.d,
        Register::E => r.e,
        Register::H => r.h,
        Register::L => r.l,
    }
}

pub open spec fn reg_set(r: Registers, which: Register, v: u8) -> Registers {
    match which {
        Register::A => Registers { a: v, ..r },
        Register::B => Registers { b: v, ..r },
        Register::C => Registers { c: v, ..r },
        Register::D => Registers { d: v, ..r },
        Register::E => Registers { e: v, ..r },
        Register::H => Registers { h: v, ..r },
        Register::L => Registers { l: v, ..r },
    }
}

/// The value of a register pair other than AF.
pub open spec fn pair_get(r: Registers, p: Pair) -> u16 {
    match p {
        Pair::BC => word(r.b, r.c),
        Pair::DE => word(r.d, r.e),
        Pair::HL => word(r.h, r.l),
        Pair::SP => r.sp,
        Pair::AF => word(r.a, 0),
    }
}

/// The registers with a pair other than AF set to `v`.
pub open spec fn pair_set(r: Registers, p: Pair, v: u16) -> Registers {
    match p {
        Pair::BC => Registers { b: hi_byte(v), c: lo_byte(v), ..r },
        Pair::DE => Registers { d: hi_byte(v), e: lo_byte(v), ..r },
        Pair::HL => Registers { h: hi_byte(v), l: lo_byte(v), ..r },
        Pair::SP => Registers { sp: v, ..r },
        Pair::AF => Registers { a: hi_byte(v), ..r },
    }
}

/// `ADD`/`ADC`: the sum modulo 256 and its flags.
pub open spec fn add8(a: u8, x: u8, carry: bool) -> (u8, Flags) {
    let sum = a + x + bit_of(carry);
    (
        (sum % 256) as u8,
        Flags { z: sum % 256 == 0, n: false, h: a % 16 + x % 16 + bit_of(carry) >= 16, c: sum >= 256 },
    )
}

/// `SUB`/`SBC`/`CP`: the difference modulo 256 and its flags.
pub open spec fn sub8(a: u8, x: u8, borrow: bool) -> (u8, Flags) {
    let diff = a - x - bit_of(borrow);
    let r = ((diff + 256) % 256) as u8;
    (r, Flags { z: r == 0, n: true, h: a % 16 < x % 16 + bit_of(borrow), c: a < x + bit_of(borrow) })
}

/// Flags of a logical operation with result `r`; AND also sets H.
pub open spec fn logic_flags(r: u8, half: bool) -> Flags {
    Flags { z: r == 0, n: false, h: half, c: false }
}

/// `INC r8`: the value plus one modulo 256; C keeps its value.
pub open spec fn inc8(v: u8, f: Flags) -> (u8, Flags) {
    let r = ((v + 1) % 256) as u8;
    (r, Flags { z: r == 0, n: false, h: v % 16 == 15, c: f.c })
}

/// `DEC r8`: the value minus one modulo 256; C keeps its value.
pub open spec fn dec8(v: u8, f: Flags) -> (u8, Flags) {
    let r = ((v + 255) % 256) as u8;
    (r, Flags { z: r == 0, n: true, h: v % 16 == 0, c: f.c })
}

/// The shift and rotate group, `kind` 0..=7: RLC, RRC, RL, RR, SLA, SRA,
/// SWAP, SRL. The result and the new carry.
pub open spec fn shift8(kind: u8, v: u8, carry: bool) -> (u8, bool) {
    if kind == 0 {
        (((v * 2) % 256 + v / 128) as u8, v >= 128)
    } else if kind == 1 {
        ((v / 2 + (v % 2) * 128) as u8, v % 2 == 1)
    } else if kind == 2 {
        (((v * 2) % 256 + bit_of(carry)) as u8, v >= 128)
    } else if kind == 3 {
        ((v / 2 + bit_of(carry) * 128) as u8, v % 2 == 1)
    } else if kind == 4 {
        (((v * 2) % 256) as u8, v >= 128)
    } else if kind == 5 {
        ((v / 2 + (v / 128) * 128) as u8, v % 2 == 1)
    } else if kind == 6 {
        (((v % 16) * 16 + v / 16) as u8, false)
    } else {
        ((v / 2) as u8, v % 2 == 1)
    }
}

/// `DAA`: A adjusted to binary-coded decimal after an addition (N clear)
/// or a subtraction (N set).
pub open spec fn daa8(a: u8, f: Flags) -> (u8, Flags) {
    if !f.n {
        let high = f.c || a > 0x99;
        let a1 = if high { (a + 0x60) % 256 } else { a as int };
        let a2 = (if f.h || a1 % 16 > 9 { (a1 + 6) % 256 } else { a1 }) as u8;
        (a2, Flags { z: a2 == 0, n: false, h: false, c: high })
    } else {
        let a1 = if f.c { (a + 256 - 0x60) % 256 } else { a as int };
        let a2 = (if f.h { (a1 + 256 - 6) % 256 } else { a1 }) as u8;
        (a2, Flags { z: a2 == 0, n: true, h: false, c: f.c })
    }
}

/// Flags of `ADD SP, e` and `LD HL, SP+e`: carries out of bits 3 and 7
/// of the unsigned low-byte addition.
pub open spec fn sp_offset_flags(sp: u16, b: u8) -> Flags {
    Flags { z: false, n: false, h: sp % 16 + b % 16 >= 16, c: sp % 256 + b >= 256 }
}

/// Whether condition `cc` (0 NZ, 1 Z, 2 NC, 3 C) holds.
pub open spec fn condition(cc: u8, f: Flags) -> bool {
    if cc == 0 {
        !f.z
    } else if cc == 1 {
        f.z
    } else if cc == 2 {
        !f.c
    } else {
        f.c
    }
}

/// Cycles of a primary opcode in 0x00..=0x3F, the shorter count for a
/// conditional jump.
pub open spec fn low_quarter_cycles(op: u8) -> u8 {
    if op == 0x00 || op == 0x04 || op == 0x05 || op == 0x07 || op == 0x0c || op == 0x0d || op == 0x0f {
        4
    } else if op == 0x02 || op == 0x03 || op == 0x06 || op == 0x09 || op == 0x0a || op == 0x0b || op == 0x0e {
        8
    } else if op == 0x01 {
        12
    } else if op == 0x08 {
        20
    } else if op == 0x10 || op == 0x14 || op == 0x15 || op == 0x17 || op == 0x1c || op == 0x1d || op == 0x1f {
        4
    } else if op == 0x12 || op == 0x13 || op == 0x16 || op == 0x19 || op == 0x1a || op == 0x1b || op == 0x1e {
        8
    } else if op == 0x11 || op == 0x18 {
        12
    } else if op == 0x24 || op == 0x25 || op == 0x27 || op == 0x2c || op == 0x2d || op == 0x2f {
        4
    } else if op == 0x20 || op == 0x22 || op == 0x23 || op == 0x26 || op == 0x28 || op == 0x29 || op == 0x2a || op == 0x2b || op == 0x2e {
        8
    } else if op == 0x21 {
        12
    } else if op == 0x37 || op == 0x3c || op == 0x3d || op == 0x3f {
        4
    } else if op == 0x30 || op == 0x32 || op == 0x33 || op == 0x38 || op == 0x39 || op == 0x3a || op == 0x3b || op == 0x3e {
        8
    } else if op == 0x31 || op == 0x34 || op == 0x35 || op == 0x36 {
        12
    } else {
        4
    }
}

/// Cycles of a primary opcode in 0xC0..=0xFF, the shorter count for a
/// conditional jump, call or return; 0xCB counts its prefix only.
pub open spec fn high_quarter_cycles(op: u8) -> u8 {
    if op == 0xcb {
        4
    } else if op == 0xc0 || op == 0xc6 || op == 0xc8 || op == 0xce {
        8
    } else if op == 0xc1 || op == 0xc2 || op == 0xc4 || op == 0xca || op == 0xcc {
        12
    } else if op == 0xc3 || op == 0xc5 || op == 0xc7 || op == 0xc9 || op == 0xcf {
        16
    } else if op == 0xcd {
        24
    } else if op == 0xd3 || op == 0xdb || op == 0xdd {
        4
    } else if op == 0xd0 || op == 0xd6 || op == 0xd8 || op == 0xde {
        8
    } else if op == 0xd1 || op == 0xd2 || op == 0xd4 || op == 0xda || op == 0xdc {
        12
    } else if op == 0xd5 || op == 0xd7 || op == 0xd9 || op == 0xdf {
        16
    } else if op == 0xe3 || op == 0xe4 || op == 0xe9 || op == 0xeb || op == 0xec || op == 0xed {
        4
    } else if op == 0xe2 || op == 0xe6 || op == 0xee {
        8
    } else if op == 0xe0 || op == 0xe1 {
        12
    } else if op == 0xe5 || op == 0xe7 || op == 0xe8 || op == 0xea || op == 0xef {
        16
    } else if op == 0xf3 || op == 0xf4 || op == 0xfb || op == 0xfc || op == 0xfd {
        4
    } else if op == 0xf2 || op == 0xf6 || op == 0xf9 || op == 0xfe {
        8
    } else if op == 0xf0 || op == 0xf1 || op == 0xf8 {
        12
    } else if op == 0xf5 || op == 0xf7 || op == 0xfa || op == 0xff {
        16
    } else {
        4
    }
}

/// The register loads 0x40..=0x7F cost 4 cycles, 8 with (HL); the
/// arithmetic group 0x80..=0xBF likewise.
pub open spec fn middle_cycles(op: u8) -> u8 {
    if op != 0x76 && (op % 8 == 6 || (0x70 <= op && op <= 0x77)) {
        8
    } else {
        4
    }
}

/// The cycles a taken condition adds: JR cc and JP cc 4, CALL cc and RET cc 12.
pub open spec fn taken_extra(op: u8) -> u8 {
    if op == 0x20 || op == 0x28 || op == 0x30 || op == 0x38 || op == 0xc2 || op == 0xca || op == 0xd2 || op == 0xda {
        4
    } else if op == 0xc0 || op == 0xc8 || op == 0xd0 || op == 0xd8 || op == 0xc4 || op == 0xcc || op == 0xd4 || op == 0xdc {
        12
    } else {
        0
    }
}

/// Cycles of a 0xCB-prefixed opcode, prefix included: 8 on a register,
/// 12 for BIT on (HL), 16 for the others on (HL).
pub open spec fn prefixed_cycles(cb: u8) -> u8 {
    if cb % 8 != 6 {
        8
    } else if cb / 64 == 1 {
        12
    } else {
        16
    }
}

/// The published LR35902 timing: the cycles of the instruction `op`
/// (followed by `cb` when it is the 0xCB prefix) under flags `f`.
pub open spec fn cycles_spec(op: u8, cb: u8, f: Flags) -> u8 {
    if op == 0xcb {
        prefixed_cycles(cb)
    } else if op < 0x40 {
        (low_quarter_cycles(op) + if condition(op / 8 % 4, f) { taken_extra(op) } else { 0 }) as u8
    } else if op < 0xc0 {
        middle_cycles(op)
    } else {
        (high_quarter_cycles(op) + if condition(op / 8 % 4, f) { taken_extra(op) } else { 0 }) as u8
    }
}

/// The operand that index `i` (0..=7) of an opcode names: B, C, D, E, H, L,
/// the byte at HL, A.
pub open spec fn loc_spec(r: Registers, i: u8) -> Loc8 {
    if i == 0 {
        Loc8::Reg(Register::B)
    } else if i == 1 {
        Loc8::Reg(Register::C)
    } else if i == 2 {
        Loc8::Reg(Register::D)
    } else if i == 3 {
        Loc8::Reg(Register::E)
    } else if i == 4 {
        Loc8::Reg(Register::H)
    } else if i == 5 {
        Loc8::Reg(Register::L)
    } else if i == 6 {
        Loc8::Mem(pair_get(r, Pair::HL))
    } else {
        Loc8::Reg(Register::A)
    }
}

/// The pending interrupts: enabled and requested.
pub open spec fn pending(m: MMU) -> u8 {
    m.interrupt_flag & m.ie & 0x1f
}

/// The interrupt served first among `p`: the lowest set bit.
pub open spec fn interrupt_index(p: u8) -> u8 {
    if p & 1 != 0 {
        0
    } else if p & 2 != 0 {
        1
    } else if p & 4 != 0 {
        2
    } else if p & 8 != 0 {
        3
    } else {
        4
    }
}

/// What every instruction keeps: a well-formed bus, a boot overlay that
/// never turns back on.
pub open spec fn keeps(pre: CPU, post: CPU) -> bool {
    &&& post.wf()
    &&& post.clock == pre.clock
    &&& !pre.mmu.bootroom_enabled ==> !post.mmu.bootroom_enabled
}

/// `post` is `pre` after the instruction `op`: the cycles of the timing
/// table, the machine stopped exactly by STOP and halted by HALT, IME off
/// after DI and on after RETI, an enable scheduled by EI.
pub open spec fn executed(pre: CPU, post: CPU, op: u8, cb: u8) -> bool {
    &&& keeps(pre, post)
    &&& post.m == cycles_spec(op, cb, pre.flags)
    &&& post.stopped == (pre.stopped || op == 0x10)
    &&& post.halted == (pre.halted || op == 0x76)
    &&& post.interrupts == (if op == 0xf3 { false } else if op == 0xd9 { true } else { pre.interrupts })
    &&& post.ei_pending == (if op == 0xfb { true } else if op == 0xf3 { false } else { pre.ei_pending })
}

/// The arithmetic group on A, `kind` 0..=7: ADD, ADC, SUB, SBC, AND, XOR,
/// OR, CP. The new A and flags.
pub open spec fn alu8(kind: u8, a: u8, x: u8, f: Flags) -> (u8, Flags) {
    if kind == 0 {
        add8(a, x, false)
    } else if kind == 1 {
        add8(a, x, f.c)
    } else if kind == 2 {
        sub8(a, x, false)
    } else if kind == 3 {
        sub8(a, x, f.c)
    } else if kind == 4 {
        (a & x, logic_flags(a & x, true))
    } else if kind == 5 {
        (a ^ x, logic_flags(a ^ x, false))
    } else if kind == 6 {
        (a | x, logic_flags(a | x, false))
    } else {
        (a, sub8(a, x, false).1)
    }
}

/// Registers and flags after an opcode in 0x40..=0xBF other than HALT,
/// from the state just after its fetch: a load between operands, or
/// arithmetic on A.
pub open spec fn middle_effect(pre: CPU, op: u8) -> (Registers, Flags) {
    let y = op / 8 % 8;
    let v = pre.loc_value(loc_spec(pre.registers, op % 8));
    if op < 0x80 {
        match loc_spec(pre.registers, y) {
            Loc8::Reg(r) => (reg_set(pre.registers, r, v), pre.flags),
            Loc8::Mem(_) => (pre.registers, pre.flags),
        }
    } else {
        let (a, f) = alu8(y, pre.registers.a, v, pre.flags);
        (Registers { a, ..pre.registers }, f)
    }
}

/// Registers and flags after the 0xCB-prefixed opcode `cb`, from the state
/// just after its fetch: shifts and rotates, BIT, RES, SET.
pub open spec fn prefixed_effect(pre: CPU, cb: u8) -> (Registers, Flags) {
    let x = cb / 64;
    let y = cb / 8 % 8;
    let loc = loc_spec(pre.registers, cb % 8);
    let v = pre.loc_value(loc);
    let (r, f) = if x == 0 {
        let (r, c) = shift8(y, v, pre.flags.c);
        (r, Flags { z: r == 0, n: false, h: false, c })
    } else if x == 1 {
        (v, Flags { z: (v >> y) & 1 == 0, n: false, h: true, c: pre.flags.c })
    } else if x == 2 {
        (v & !(1u8 << y), pre.flags)
    } else {
        (v | (1u8 << y), pre.flags)
    };
    match loc {
        Loc8::Reg(reg) => (if x == 1 { pre.registers } else { reg_set(pre.registers, reg, r) }, f),
        Loc8::Mem(_) => (pre.registers, f),
    }
}

/// The pair that index `i` names in 16-bit loads and arithmetic: BC, DE,
/// HL, SP.
pub open spec fn pair_index(i: u8) -> Pair {
    if i == 0 {
        Pair::BC
    } else if i == 1 {
        Pair::DE
    } else if i == 2 {
        Pair::HL
    } else {
        Pair::SP
    }
}

/// HL moved by one, up or down, modulo 2^16.
pub open spec fn hl_moved(r: Registers, up: bool) -> Registers {
    pair_set(r, Pair::HL, ((pair_get(r, Pair::HL) + if up { 1int } else { 0xffff }) % 0x10000) as u16)
}

/// Registers and flags after an opcode in 0x00..=0x3F, from the state just
/// after its fetch (PC on the first operand byte).
pub open spec fn low_effect(pre: CPU, op: u8) -> (Registers, Flags) {
    let y = op / 8;
    let z = op % 8;
    let r = pre.registers;
    let f = pre.flags;
    let pc1 = next_address(r.pc);
    let pc2 = next_address(pc1);
    let imm8 = pre.mmu.read_spec(r.pc);
    let imm16 = pre.mmu.read_word_spec(r.pc);
    if z == 0 {
        if y == 0 {
            (r, f)
        } else if y == 1 {
            (Registers { pc: pc2, ..r }, f)
        } else if y == 2 {
            (Registers { pc: pc1, ..r }, f)
        } else if y == 3 {
            (Registers { pc: offset(pc1, imm8), ..r }, f)
        } else {
            (Registers { pc: if condition((y - 4) as u8, f) { offset(pc1, imm8) } else { pc1 }, ..r }, f)
        }
    } else if z == 1 {
        let p = pair_index(y / 2);
        if y % 2 == 0 {
            (pair_set(Registers { pc: pc2, ..r }, p, imm16), f)
        } else {
            let hl = pair_get(r, Pair::HL);
            let v = pair_get(r, p);
            (
                pair_set(r, Pair::HL, ((hl + v) % 0x10000) as u16),
                Flags { z: f.z, n: false, h: hl % 4096 + v % 4096 >= 4096, c: hl + v >= 0x10000 },
            )
        }
    } else if z == 2 {
        let address = if y / 2 == 0 {
            pair_get(r, Pair::BC)
        } else if y / 2 == 1 {
            pair_get(r, Pair::DE)
        } else {
            pair_get(r, Pair::HL)
        };
        let r1 = if y % 2 == 0 { r } else { Registers { a: pre.mmu.read_spec(address), ..r } };
        (if y / 2 == 2 { hl_moved(r1, true) } else if y / 2 == 3 { hl_moved(r1, false) } else { r1 }, f)
    } else if z == 3 {
        let p = pair_index(y / 2);
        let v = pair_get(r, p);
        (pair_set(r, p, ((v + if y % 2 == 0 { 1int } else { 0xffff }) % 0x10000) as u16), f)
    } else if z == 4 || z == 5 {
        let loc = loc_spec(r, y);
        let (v, f2) = if z == 4 { inc8(pre.loc_value(loc), f) } else { dec8(pre.loc_value(loc), f) };
        (
            match loc {
                Loc8::Reg(x) => reg_set(r, x, v),
                Loc8::Mem(_) => r,
            },
            f2,
        )
    } else if z == 6 {
        let r1 = Registers { pc: pc1, ..r };
        (
            match loc_spec(r, y) {
                Loc8::Reg(x) => reg_set(r1, x, imm8),
                Loc8::Mem(_) => r1,
            },
            f,
        )
    } else if y < 4 {
        let (a, c) = shift8(y, r.a, f.c);
        (Registers { a, ..r }, Flags { z: false, n: false, h: false, c })
    } else if y == 4 {
        let (a, f2) = daa8(r.a, f);
        (Registers { a, ..r }, f2)
    } else if y == 5 {
        (Registers { a: !r.a, ..r }, Flags { n: true, h: true, ..f })
    } else if y == 6 {
        (r, Flags { n: false, h: false, c: true, ..f })
    } else {
        (r, Flags { n: false, h: false, c: !f.c, ..f })
    }
}

/// Registers and flags after an opcode in 0xC0..=0xFF other than the 0xCB
/// prefix, from the state just after its fetch (PC on the first operand byte).
pub open spec fn high_effect(pre: CPU, op: u8) -> (Registers, Flags) {
    let y = op / 8 % 8;
    let z = op % 8;
    let r = pre.registers;
    let f = pre.flags;
    let pc1 = next_address(r.pc);
    let pc2 = next_address(pc1);
    let imm8 = pre.mmu.read_spec(r.pc);
    let imm16 = pre.mmu.read_word_spec(r.pc);
    let popped = pre.mmu.read_word_spec(r.sp);
    let sp_up = ((r.sp + 2) % 0x10000) as u16;
    let sp_down = ((r.sp + 0xfffe) % 0x10000) as u16;
    if z == 0 {
        if y < 4 {
            (if condition(y, f) { Registers { pc: popped, sp: sp_up, ..r } } else { r }, f)
        } else if y == 4 {
            (Registers { pc: pc1, ..r }, f)
        } else if y == 5 {
            (Registers { pc: pc1, sp: offset(r.sp, imm8), ..r }, sp_offset_flags(r.sp, imm8))
        } else if y == 6 {
            (Registers { pc: pc1, a: pre.mmu.read_spec((0xff00 + imm8) as u16), ..r }, f)
        } else {
            (pair_set(Registers { pc: pc1, ..r }, Pair::HL, offset(r.sp, imm8)), sp_offset_flags(r.sp, imm8))
        }
    } else if z == 1 {
        if y % 2 == 0 {
            let r1 = Registers { sp: sp_up, ..r };
            if y / 2 == 3 {
                (Registers { a: hi_byte(popped), ..r1 }, flags_of(lo_byte(popped)))
            } else {
                (pair_set(r1, pair_index(y / 2), popped), f)
            }
        } else if y == 1 || y == 3 {
            (Registers { pc: popped, sp: sp_up, ..r }, f)
        } else if y == 5 {
            (Registers { pc: pair_get(r, Pair::HL), ..r }, f)
        } else {
            (Registers { sp: pair_get(r, Pair::HL), ..r }, f)
        }
    } else if z == 2 {
        if y < 4 {
            (Registers { pc: if condition(y, f) { imm16 } else { pc2 }, ..r }, f)
        } else if y == 4 {
            (r, f)
        } else if y == 5 {
            (Registers { pc: pc2, ..r }, f)
        } else if y == 6 {
            (Registers { a: pre.mmu.read_spec((0xff00 + r.c) as u16), ..r }, f)
        } else {
            (Registers { pc: pc2, a: pre.mmu.read_spec(imm16), ..r }, f)
        }
    } else if z == 3 {
        (if y == 0 { Registers { pc: imm16, ..r } } else { r }, f)
    } else if z == 4 {
        (
            if y >= 4 {
                r
            } else if condition(y, f) {
                Registers { pc: imm16, sp: sp_down, ..r }
            } else {
                Registers { pc: pc2, ..r }
            },
            f,
        )
    } else if z == 5 {
        (
            if y % 2 == 0 {
                Registers { sp: sp_down, ..r }
            } else if y == 1 {
                Registers { pc: imm16, sp: sp_down, ..r }
            } else {
                r
            },
            f,
        )
    } else if z == 6 {
        let (a, f2) = alu8(y, r.a, imm8, f);
        (Registers { pc: pc1, a, ..r }, f2)
    } else {
        (Registers { pc: (y * 8) as u16, sp: sp_down, ..r }, f)
    }
}

/// The bus after an opcode in 0x00..=0x3F, from the state just after its
/// fetch: what it stores, or the bus unchanged.
pub open spec fn low_memory(pre: CPU, post: MMU, op: u8) -> bool {
    let y = op / 8;
    let z = op % 8;
    let r = pre.registers;
    let hl = pair_get(r, Pair::HL);
    if op == 0x08 {
        MMU::word_written(pre.mmu, post, pre.mmu.read_word_spec(r.pc), r.sp)
    } else if z == 2 && y % 2 == 0 {
        let address = if y / 2 == 0 {
            pair_get(r, Pair::BC)
        } else if y / 2 == 1 {
            pair_get(r, Pair::DE)
        } else {
            hl
        };
        MMU::written(pre.mmu, post, address, r.a)
    } else if op == 0x34 {
        MMU::written(pre.mmu, post, hl, inc8(pre.mmu.read_spec(hl), pre.flags).0)
    } else if op == 0x35 {
        MMU::written(pre.mmu, post, hl, dec8(pre.mmu.read_spec(hl), pre.flags).0)
    } else if op == 0x36 {
        MMU::written(pre.mmu, post, hl, pre.mmu.read_spec(r.pc))
    } else {
        post == pre.mmu
    }
}

/// The bus after an opcode in 0x40..=0xBF: `LD (HL), r` stores, the others
/// leave it unchanged.
pub open spec fn middle_memory(pre: CPU, post: MMU, op: u8) -> bool {
    if 0x70 <= op <= 0x77 && op != 0x76 {
        MMU::written(
            pre.mmu,
            post,
            pair_get(pre.registers, Pair::HL),
            pre.loc_value(loc_spec(pre.registers, op % 8)),
        )
    } else {
        post == pre.mmu
    }
}

/// The bus after an opcode in 0xC0..=0xFF other than the prefix, from the
/// state just after its fetch: stores through the high page or an
/// address, and the words that PUSH, CALL and RST put on the stack.
pub open spec fn high_memory(pre: CPU, post: MMU, op: u8) -> bool {
    let y = op / 8 % 8;
    let z = op % 8;
    let r = pre.registers;
    let pc2 = next_address(next_address(r.pc));
    let sp_down = ((r.sp + 0xfffe) % 0x10000) as u16;
    let imm16 = pre.mmu.read_word_spec(r.pc);
    if op == 0xe0 {
        MMU::written(pre.mmu, post, (0xff00 + pre.mmu.read_spec(r.pc)) as u16, r.a)
    } else if op == 0xe2 {
        MMU::written(pre.mmu, post, (0xff00 + r.c) as u16, r.a)
    } else if op == 0xea {
        MMU::written(pre.mmu, post, imm16, r.a)
    } else if z == 5 && y % 2 == 0 {
        let v = if y / 2 == 3 { word(r.a, flags_byte(pre.flags)) } else { pair_get(r, pair_index(y / 2)) };
        MMU::word_written(pre.mmu, post, sp_down, v)
    } else if op == 0xcd || (z == 4 && y < 4 && condition(y, pre.flags)) {
        MMU::word_written(pre.mmu, post, sp_down, pc2)
    } else if z == 7 {
        MMU::word_written(pre.mmu, post, sp_down, r.pc)
    } else {
        post == pre.mmu
    }
}

/// The bus after the 0xCB-prefixed opcode `cb`: the ops that rewrite their
/// operand store it when it is (HL).
pub open spec fn prefixed_memory(pre: CPU, post: MMU, cb: u8) -> bool {
    if cb % 8 == 6 && cb / 64 != 1 {
        let hl = pair_get(pre.registers, Pair::HL);
        let v = pre.mmu.read_spec(hl);
        let y = cb / 8 % 8;
        let r = if cb / 64 == 0 {
            shift8(y, v, pre.flags.c).0
        } else if cb / 64 == 2 {
            v & !(1u8 << y)
        } else {
            v | (1u8 << y)
        };
        MMU::written(pre.mmu, post, hl, r)
    } else {
        post == pre.mmu
    }
}

/// The bus after the opcode `op`, fetched with `pre` the state that
/// follows the fetch.
pub open spec fn memory_effect(pre: CPU, post: MMU, op: u8) -> bool {
    if op < 0x40 {
        low_memory(pre, post, op)
    } else if op < 0xc0 {
        middle_memory(pre, post, op)
    } else if op == 0xcb {
        prefixed_memory(fetched(pre), post, pre.mmu.read_spec(pre.registers.pc))
    } else {
        high_memory(pre, post, op)
    }
}

/// The bus with the request of interrupt `i` cleared in IF.
pub open spec fn acknowledged(m: MMU, i: u8) -> MMU {
    MMU { interrupt_flag: m.interrupt_flag & !(1u8 << i), ..m }
}

/// The bus once PC has reached `pc`: the boot ROM overlay is off from 0x0100 on.
pub open spec fn leave_boot(m: MMU, pc: u16) -> MMU {
    if pc >= 0x100 {
        MMU { bootroom_enabled: false, ..m }
    } else {
        m
    }
}

/// The state after fetching one more byte at PC.
pub open spec fn fetched(pre: CPU) -> CPU {
    CPU {
        registers: Registers { pc: next_address(pre.registers.pc), ..pre.registers },
        m: (pre.m + 4) as u8,
        ..pre
    }
}

/// The LR35902 interpreter: the register file, the flags, interrupt state,
/// and the bus it owns.
pub struct CPU {
    pub mmu: MMU,
    pub clock: Clock,
    pub registers: Registers,
    /// Cycles spent by the instruction being executed.
    pub m: u8,
    pub flags: Flags,
    /// Interrupt master enable.
    pub interrupts: bool,
    /// Set by EI: IME turns on after the next instruction.
    pub ei_pending: bool,
    pub halted: bool,
    pub stopped: bool,
}

impl CPU {
    pub open spec fn wf(&self) -> bool {
        self.mmu.wf()
    }

    /// The value an 8-bit operand holds.
    pub open spec fn loc_value(&self, loc: Loc8) -> u8 {
        match loc {
            Loc8::Reg(r) => reg_get(self.registers, r),
            Loc8::Mem(a) => self.mmu.read_spec(a),
        }
    }

    /// Cycles spent on an access to an 8-bit operand.
    pub open spec fn loc_cost(loc: Loc8) -> u8 {
        match loc {
            Loc8::Reg(_) => 0,
            Loc8::Mem(_) => 4,
        }
    }

    /// `post` is `pre` with `v` stored in `loc`.
    pub open spec fn stored(pre: CPU, post: CPU, loc: Loc8, v: u8) -> bool {
        match loc {
            Loc8::Reg(r) => post == (CPU { registers: reg_set(pre.registers, r, v), ..pre }),
            Loc8::Mem(a) => {
                &&& post == (CPU { mmu: post.mmu, m: (pre.m + 4) as u8, ..pre })
                &&& MMU::written(pre.mmu, post.mmu, a, v)
                &&& post.mmu.wf()
            },
        }
    }

    /// `post` is `pre` with A set to `a` and the flags to `f`.
    pub open spec fn with_a(pre: CPU, a: u8, f: Flags) -> CPU {
        CPU { registers: Registers { a, ..pre.registers }, flags: f, ..pre }
    }

    pub fn new(mmu: MMU) -> (r: CPU)
        requires
            mmu.wf(),
        ensures
            r.wf(),
            r.mmu == mmu,
            r.registers == (Registers { pc: 0, sp: 0, a: 0, b: 0, c: 0, d: 0, e: 0, h: 0, l: 0 }),
            r.flags == (Flags { z: false, n: false, h: false, c: false }),
            r.clock.m == 0 && r.m == 0,
            !r.interrupts && !r.ei_pending && !r.halted && !r.stopped,
    {
        CPU {
            mmu,
            clock: Clock::new(),
            registers: Registers::new(),
            m: 0,
            flags: Flags::new(),
            interrupts: false,
            ei_pending: false,
            halted: false,
            stopped: false,
        }
    }

    // Fetch from the program.

    fn take_byte(&mut self) -> (r: u8)
        requires
            old(self).wf(),
            old(self).m <= 200,
        ensures
            r == old(self).mmu.read_spec(old(self).registers.pc),
            *final(self) == (CPU {
                registers: Registers { pc: next_address(old(self).registers.pc), ..old(self).registers },
                m: (old(self).m + 4) as u8,
                ..*old(self)
            }),
    {
        let r = self.mmu.read_byte(self.registers.pc);
        self.registers.pc = wrapping_next(self.registers.pc);
        self.m = self.m + 4;
        r
    }

    fn take_word(&mut self) -> (r: u16)
        requires
            old(self).wf(),
            old(self).m <= 100,
        ensures
            r == old(self).mmu.read_word_spec(old(self).registers.pc),
            *final(self) == (CPU {
                registers: Registers { pc: next_address(next_address(old(self).registers.pc)), ..old(self).registers },
                m: (old(self).m + 8) as u8,
                ..*old(self)
            }),
    {
        let lo = self.take_byte();
        let hi = self.take_byte();
        lo as u16 + 256 * hi as u16
    }

    // 8-bit operands.

    fn reg(&self, which: Register) -> (r: u8)
        ensures
            r == reg_get(self.registers, which),
    {
        match which {
            Register::A => self.registers.a,
            Register::B => self.registers.b,
            Register::C => self.registers.c,
            Register::D => self.registers.d,
            Register::E => self.registers.e,
            Register::H => self.registers.h,
            Register::L => self.registers.l,
        }
    }

    fn set_reg(&mut self, which: Register, v: u8)
        ensures
            *final(self) == (CPU { registers: reg_set(old(self).registers, which, v), ..*old(self) }),
    {
        match which {
            Register::A => self.registers.a = v,
            Register::B => self.registers.b = v,
            Register::C => self.registers.c = v,
            Register::D => self.registers.d = v,
            Register::E => self.registers.e = v,
            Register::H => self.registers.h = v,
            Register::L => self.registers.l = v,
        }
    }

    /// Reads an 8-bit operand; a bus read costs 4 cycles.
    fn load(&mut self, loc: Loc8) -> (r: u8)
        requires
            old(self).wf(),
            old(self).m <= 200,
        ensures
            r == old(self).loc_value(loc),
            *final(self) == (CPU { m: (old(self).m + CPU::loc_cost(loc)) as u8, ..*old(self) }),
    {
        match loc {
            Loc8::Reg(r) => self.reg(r),
            Loc8::Mem(a) => {
                self.m = self.m + 4;
                self.mmu.read_byte(a)
            },
        }
    }

    /// Writes an 8-bit operand; a bus write costs 4 cycles.
    fn store(&mut self, loc: Loc8, v: u8)
        requires
            old(self).wf(),
            old(self).m <= 200,
        ensures
            final(self).wf(),
            CPU::stored(*old(self), *final(self), loc, v),
    {
        match loc {
            Loc8::Reg(r) => self.set_reg(r, v),
            Loc8::Mem(a) => {
                self.m = self.m + 4;
                self.mmu.write_byte(a, v);
            },
        }
    }

    // 16-bit register pairs.

    fn get_pair(&self, p: Pair) -> (r: u16)
        requires
            p != Pair::AF,
        ensures
            r == pair_get(self.registers, p),
    {
        match p {
            Pair::BC => self.get_bc(),
            Pair::DE => self.get_de(),
            Pair::HL => self.get_hl(),
            _ => self.registers.sp,
        }
    }

    fn set_pair(&mut self, p: Pair, v: u16)
        requires
            p != Pair::AF,
        ensures
            *final(self) == (CPU { registers: pair_set(old(self).registers, p, v), ..*old(self) }),
    {
        match p {
            Pair::BC => self.set_bc(v),
            Pair::DE => self.set_de(v),
            Pair::HL => self.set_hl(v),
            _ => self.registers.sp = v,
        }
    }

    fn set_bc(&mut self, value: u16)
        ensures
            *final(self) == (CPU { registers: pair_set(old(self).registers, Pair::BC, value), ..*old(self) }),
    {
        self.registers.b = get_upper_bytes(value);
        self.registers.c = get_lower_bytes(value);
    }

    fn set_de(&mut self, value: u16)
        ensures
            *final(self) == (CPU { registers: pair_set(old(self).registers, Pair::DE, value), ..*old(self) }),
    {
        self.registers.d = get_upper_bytes(value);
        self.registers.e = get_lower_bytes(value);
    }

    fn set_hl(&mut self, value: u16)
        ensures
            *final(self) == (CPU { registers: pair_set(old(self).registers, Pair::HL, value), ..*old(self) }),
    {
        self.registers.h = get_upper_bytes(value);
        self.registers.l = get_lower_bytes(value);
    }

    /// Sets A and the flags from a word whose low byte is an F value.
    fn set_af(&mut self, value: u16)
        ensures
            *final(self) == (CPU {
                registers: Registers { a: hi_byte(value), ..old(self).registers },
                flags: flags_of(lo_byte(value)),
                ..*old(self)
            }),
    {
        self.registers.a = get_upper_bytes(value);
        let lower = get_lower_bytes(value);
        self.flags = Flags {
            z: lower / 128 % 2 == 1,
            n: lower / 64 % 2 == 1,
            h: lower / 32 % 2 == 1,
            c: lower / 16 % 2 == 1,
        };
    }

    fn get_bc(&self) -> (r: u16)
        ensures
            r == pair_get(self.registers, Pair::BC),
    {
        self.registers.b as u16 * 256 + self.registers.c as u16
    }

    fn get_de(&self) -> (r: u16)
        ensures
            r == pair_get(self.registers, Pair::DE),
    {
        self.registers.d as u16 * 256 + self.registers.e as u16
    }

    fn get_hl(&self) -> (r: u16)
        ensures
            r == pair_get(self.registers, Pair::HL),
    {
        self.registers.h as u16 * 256 + self.registers.l as u16
    }

    /// A in the high byte, the F value in the low byte.
    fn get_af(&self) -> (r: u16)
        ensures
            r == word(self.registers.a, flags_byte(self.flags)),
    {
        let mut lower: u16 = 0;
        if self.flags.z {
            lower = lower + 0x80;
        }
        if self.flags.n {
            lower = lower + 0x40;
        }
        if self.flags.h {
            lower = lower + 0x20;
        }
        if self.flags.c {
            lower = lower + 0x10;
        }
        self.registers.a as u16 * 256 + lower
    }

    // Arithmetic and logic on A.

    /// `ADD A, x` (`carry` false) or `ADC A, x` (`carry` the C flag).
    fn add_with(&mut self, x: u8, carry: bool)
        ensures
            *final(self) == CPU::with_a(*old(self), add8(old(self).registers.a, x, carry).0, add8(old(self).registers.a, x, carry).1),
    {
        let a = self.registers.a;
        let cin: u16 = if carry { 1 } else { 0 };
        let sum: u16 = a as u16 + x as u16 + cin;
        self.flags = Flags {
            z: sum % 256 == 0,
            n: false,
            h: (a % 16) as u16 + (x % 16) as u16 + cin >= 16,
            c: sum >= 256,
        };
        self.registers.a = (sum % 256) as u8;
    }

    pub fn add_a(&mut self, x: u8)
        ensures
            *final(self) == CPU::with_a(*old(self), add8(old(self).registers.a, x, false).0, add8(old(self).registers.a, x, false).1),
    {
        self.add_with(x, false);
    }

    pub fn adc_a(&mut self, x: u8)
        ensures
            *final(self) == CPU::with_a(
                *old(self),
                add8(old(self).registers.a, x, old(self).flags.c).0,
                add8(old(self).registers.a, x, old(self).flags.c).1,
            ),
    {
        let c = self.flags.c;
        self.add_with(x, c);
    }

    /// The difference `A - x - borrow` modulo 256 and its flags; A is not written.
    fn compare(&self, x: u8, borrow: bool) -> (r: (u8, Flags))
        ensures
            r == sub8(self.registers.a, x, borrow),
    {
        let a = self.registers.a;
        let bin: u16 = if borrow { 1 } else { 0 };
        let r: u8 = ((a as u16 + 256 - x as u16 - bin) % 256) as u8;
        let a_low: u16 = (a % 16) as u16;
        let x_low: u16 = (x % 16) as u16;
        let a_wide: u16 = a as u16;
        let x_wide: u16 = x as u16;
        (r, Flags { z: r == 0, n: true, h: a_low < x_low + bin, c: a_wide < x_wide + bin })
    }

    /// `CP x`: the flags of `SUB x`, A unchanged.
    pub fn cp(&mut self, x: u8)
        ensures
            *final(self) == CPU::with_a(*old(self), old(self).registers.a, sub8(old(self).registers.a, x, false).1),
    {
        let (_, f) = self.compare(x, false);
        self.flags = f;
    }

    pub fn sub(&mut self, x: u8)
        ensures
            *final(self) == CPU::with_a(*old(self), sub8(old(self).registers.a, x, false).0, sub8(old(self).registers.a, x, false).1),
    {
        let (r, f) = self.compare(x, false);
        self.registers.a = r;
        self.flags = f;
    }

    pub fn sbc_a(&mut self, x: u8)
        ensures
            *final(self) == CPU::with_a(
                *old(self),
                sub8(old(self).registers.a, x, old(self).flags.c).0,
                sub8(old(self).registers.a, x, old(self).flags.c).1,
            ),
    {
        let (r, f) = self.compare(x, self.flags.c);
        self.registers.a = r;
        self.flags = f;
    }

    pub fn and(&mut self, x: u8)
        ensures
            *final(self) == CPU::with_a(*old(self), old(self).registers.a & x, logic_flags(old(self).registers.a & x, true)),
    {
        let r = self.registers.a & x;
        self.registers.a = r;
        self.flags = Flags { z: r == 0, n: false, h: true, c: false };
    }

    pub fn xor(&mut self, x: u8)
        ensures
            *final(self) == CPU::with_a(*old(self), old(self).registers.a ^ x, logic_flags(old(self).registers.a ^ x, false)),
    {
        let r = self.registers.a ^ x;
        self.registers.a = r;
        self.flags = Flags { z: r == 0, n: false, h: false, c: false };
    }

    pub fn or(&mut self, x: u8)
        ensures
            *final(self) == CPU::with_a(*old(self), old(self).registers.a | x, logic_flags(old(self).registers.a | x, false)),
    {
        let r = self.registers.a | x;
        self.registers.a = r;
        self.flags = Flags { z: r == 0, n: false, h: false, c: false };
    }
    // Increment, decrement, shifts and bits on 8-bit operands.

    pub fn inc(&mut self, loc: Loc8)
        requires
            old(self).wf(),
            old(self).m <= 100,
        ensures
            final(self).wf(),
            CPU::stored(
                CPU { flags: inc8(old(self).loc_value(loc), old(self).flags).1, m: (old(self).m + CPU::loc_cost(loc)) as u8, ..*old(self) },
                *final(self),
                loc,
                inc8(old(self).loc_value(loc), old(self).flags).0,
            ),
    {
        let v = self.load(loc);
        let r: u8 = if v == 255 { 0 } else { v + 1 };
        self.flags = Flags { z: r == 0, n: false, h: v % 16 == 15, c: self.flags.c };
        self.store(loc, r);
    }

    pub fn dec(&mut self, loc: Loc8)
        requires
            old(self).wf(),
            old(self).m <= 100,
        ensures
            final(self).wf(),
            CPU::stored(
                CPU { flags: dec8(old(self).loc_value(loc), old(self).flags).1, m: (old(self).m + CPU::loc_cost(loc)) as u8, ..*old(self) },
                *final(self),
                loc,
                dec8(old(self).loc_value(loc), old(self).flags).0,
            ),
    {
        let v = self.load(loc);
        let r: u8 = if v == 0 { 255 } else { v - 1 };
        self.flags = Flags { z: r == 0, n: true, h: v % 16 == 0, c: self.flags.c };
        self.store(loc, r);
    }

    fn shift_value(kind: u8, v: u8, carry: bool) -> (r: (u8, bool))
        requires
            kind < 8,
        ensures
            r == shift8(kind, v, carry),
    {
        let cin: u8 = if carry { 1 } else { 0 };
        if kind == 0 {
            (((v as u16 * 2) % 256) as u8 + v / 128, v >= 128)
        } else if kind == 1 {
            (v / 2 + (v % 2) * 128, v % 2 == 1)
        } else if kind == 2 {
            (((v as u16 * 2) % 256) as u8 + cin, v >= 128)
        } else if kind == 3 {
            (v / 2 + cin * 128, v % 2 == 1)
        } else if kind == 4 {
            (((v as u16 * 2) % 256) as u8, v >= 128)
        } else if kind == 5 {
            (v / 2 + (v / 128) * 128, v % 2 == 1)
        } else if kind == 6 {
            ((v % 16) * 16 + v / 16, false)
        } else {
            (v / 2, v % 2 == 1)
        }
    }

    /// The prefixed shift and rotate group on an operand; Z reports a zero result.
    pub fn shift(&mut self, kind: u8, loc: Loc8)
        requires
            old(self).wf(),
            old(self).m <= 100,
            kind < 8,
        ensures
            final(self).wf(),
            ({
                let (r, c) = shift8(kind, old(self).loc_value(loc), old(self).flags.c);
                CPU::stored(
                    CPU { flags: Flags { z: r == 0, n: false, h: false, c }, m: (old(self).m + CPU::loc_cost(loc)) as u8, ..*old(self) },
                    *final(self),
                    loc,
                    r,
                )
            }),
    {
        let v = self.load(loc);
        let (r, c) = CPU::shift_value(kind, v, self.flags.c);
        self.flags = Flags { z: r == 0, n: false, h: false, c };
        self.store(loc, r);
    }

    /// RLCA, RRCA, RLA, RRA (`kind` 0..=3): like the prefixed rotates on A,
    /// but Z is always cleared.
    fn rotate_a(&mut self, kind: u8)
        requires
            kind < 4,
        ensures
            ({
                let (r, c) = shift8(kind, old(self).registers.a, old(self).flags.c);
                *final(self) == CPU::with_a(*old(self), r, Flags { z: false, n: false, h: false, c })
            }),
    {
        let (r, c) = CPU::shift_value(kind, self.registers.a, self.flags.c);
        self.registers.a = r;
        self.flags = Flags { z: false, n: false, h: false, c };
    }

    pub fn rlca(&mut self)
        ensures
            ({
                let (r, c) = shift8(0, old(self).registers.a, old(self).flags.c);
                *final(self) == CPU::with_a(*old(self), r, Flags { z: false, n: false, h: false, c })
            }),
    {
        self.rotate_a(0);
    }

    pub fn rrca(&mut self)
        ensures
            ({
                let (r, c) = shift8(1, old(self).registers.a, old(self).flags.c);
                *final(self) == CPU::with_a(*old(self), r, Flags { z: false, n: false, h: false, c })
            }),
    {
        self.rotate_a(1);
    }

    pub fn rla(&mut self)
        ensures
            ({
                let (r, c) = shift8(2, old(self).registers.a, old(self).flags.c);
                *final(self) == CPU::with_a(*old(self), r, Flags { z: false, n: false, h: false, c })
            }),
    {
        self.rotate_a(2);
    }

    pub fn rra(&mut self)
        ensures
            ({
                let (r, c) = shift8(3, old(self).registers.a, old(self).flags.c);
                *final(self) == CPU::with_a(*old(self), r, Flags { z: false, n: false, h: false, c })
            }),
    {
        self.rotate_a(3);
    }

    /// `BIT n, x`: Z is set when bit `n` of `x` is clear; C keeps its value.
    pub fn bit(&mut self, n: u8, x: u8)
        requires
            n < 8,
        ensures
            *final(self) == (CPU { flags: Flags { z: (x >> n) & 1 == 0, n: false, h: true, c: old(self).flags.c }, ..*old(self) }),
    {
        self.flags = Flags { z: (x >> n) & 1 == 0, n: false, h: true, c: self.flags.c };
    }

    /// `RES n` (`value` false) or `SET n` (`value` true) on an operand.
    pub fn set_bit(&mut self, n: u8, loc: Loc8, value: bool)
        requires
            old(self).wf(),
            old(self).m <= 100,
            n < 8,
        ensures
            final(self).wf(),
            ({
                let v = old(self).loc_value(loc);
                let r = if value { v | (1u8 << n) } else { v & !(1u8 << n) };
                CPU::stored(CPU { m: (old(self).m + CPU::loc_cost(loc)) as u8, ..*old(self) }, *final(self), loc, r)
            }),
    {
        let v = self.load(loc);
        let r = if value { v | (1u8 << n) } else { v & !(1u8 << n) };
        self.store(loc, r);
    }

    // 16-bit arithmetic.

    /// `INC rr`: the pair plus one modulo 2^16; flags unchanged.
    pub fn inc16(&mut self, p: Pair)
        requires
            p != Pair::AF,
            old(self).m <= 100,
        ensures
            *final(self) == (CPU {
                registers: pair_set(old(self).registers, p, ((pair_get(old(self).registers, p) + 1) % 0x10000) as u16),
                m: (old(self).m + 4) as u8,
                ..*old(self)
            }),
    {
        let v = self.get_pair(p);
        self.set_pair(p, wrapping_next(v));
        self.m = self.m + 4;
    }

    /// `DEC rr`: the pair minus one modulo 2^16; flags unchanged.
    pub fn dec16(&mut self, p: Pair)
        requires
            p != Pair::AF,
            old(self).m <= 100,
        ensures
            *final(self) == (CPU {
                registers: pair_set(old(self).registers, p, ((pair_get(old(self).registers, p) + 0xffff) % 0x10000) as u16),
                m: (old(self).m + 4) as u8,
                ..*old(self)
            }),
    {
        let v = self.get_pair(p);
        let r: u16 = if v == 0 { 0xffff } else { v - 1 };
        self.set_pair(p, r);
        self.m = self.m + 4;
    }

    /// `ADD HL, v`: carries out of bits 11 and 15; Z unchanged.
    pub fn add_hl(&mut self, value: u16)
        requires
            old(self).m <= 100,
        ensures
            ({
                let hl = pair_get(old(self).registers, Pair::HL);
                *final(self) == (CPU {
                    registers: pair_set(old(self).registers, Pair::HL, ((hl + value) % 0x10000) as u16),
                    flags: Flags { z: old(self).flags.z, n: false, h: hl % 4096 + value % 4096 >= 4096, c: hl + value >= 0x10000 },
                    m: (old(self).m + 4) as u8,
                    ..*old(self)
                })
            }),
    {
        let hl = self.get_hl();
        let sum: u32 = hl as u32 + value as u32;
        self.flags = Flags { z: self.flags.z, n: false, h: (hl % 4096) + (value % 4096) >= 4096, c: sum >= 0x10000 };
        self.set_hl((sum % 0x10000) as u16);
        self.m = self.m + 4;
    }

    fn add_offset(w: u16, b: u8) -> (r: u16)
        ensures
            r == offset(w, b),
    {
        if b < 128 {
            ((w as u32 + b as u32) % 0x10000) as u16
        } else {
            ((w as u32 + 0x10000 - (256 - b as u32)) % 0x10000) as u16
        }
    }

    fn offset_flags(sp: u16, b: u8) -> (r: Flags)
        ensures
            r == sp_offset_flags(sp, b),
    {
        let low: u16 = sp % 256;
        Flags { z: false, n: false, h: (sp % 16) as u8 + b % 16 >= 16, c: low + b as u16 >= 256 }
    }

    /// `ADD SP, e` with `e` the signed byte `b`.
    pub fn add_sp(&mut self, b: u8)
        requires
            old(self).m <= 100,
        ensures
            *final(self) == (CPU {
                registers: Registers { sp: offset(old(self).registers.sp, b), ..old(self).registers },
                flags: sp_offset_flags(old(self).registers.sp, b),
                m: (old(self).m + 8) as u8,
                ..*old(self)
            }),
    {
        let sp = self.registers.sp;
        self.flags = CPU::offset_flags(sp, b);
        self.registers.sp = CPU::add_offset(sp, b);
        self.m = self.m + 8;
    }

    /// `LD HL, SP+e` with `e` the signed byte `b`; flags as for `ADD SP, e`.
    pub fn ld_hl_sp_plus_immediate_signed(&mut self, b: u8)
        requires
            old(self).m <= 100,
        ensures
            *final(self) == (CPU {
                registers: pair_set(old(self).registers, Pair::HL, offset(old(self).registers.sp, b)),
                flags: sp_offset_flags(old(self).registers.sp, b),
                m: (old(self).m + 4) as u8,
                ..*old(self)
            }),
    {
        let sp = self.registers.sp;
        self.flags = CPU::offset_flags(sp, b);
        self.set_hl(CPU::add_offset(sp, b));
        self.m = self.m + 4;
    }

    // The stack.

    fn push_word(&mut self, value: u16)
        requires
            old(self).wf(),
            old(self).m <= 100,
        ensures
            final(self).wf(),
            ({
                let sp = ((old(self).registers.sp + 0xfffe) % 0x10000) as u16;
                &&& *final(self) == (CPU {
                    mmu: final(self).mmu,
                    registers: Registers { sp, ..old(self).registers },
                    m: (old(self).m + 12) as u8,
                    ..*old(self)
                })
                &&& MMU::word_written(old(self).mmu, final(self).mmu, sp, value)
            }),
    {
        let sp = self.registers.sp;
        let sp2: u16 = if sp >= 2 { sp - 2 } else { sp + 0xfffe };
        self.registers.sp = sp2;
        self.mmu.write_word(sp2, value);
        self.m = self.m + 12;
    }

    fn pop_word(&mut self) -> (r: u16)
        requires
            old(self).wf(),
            old(self).m <= 100,
        ensures
            r == old(self).mmu.read_word_spec(old(self).registers.sp),
            *final(self) == (CPU {
                registers: Registers { sp: ((old(self).registers.sp + 2) % 0x10000) as u16, ..old(self).registers },
                m: (old(self).m + 8) as u8,
                ..*old(self)
            }),
    {
        let r = self.mmu.read_word(self.registers.sp);
        let sp = self.registers.sp;
        self.registers.sp = if sp <= 0xfffd { sp + 2 } else { sp - 0xfffe };
        self.m = self.m + 8;
        r
    }

    /// `PUSH rr`: the pair (A and F for AF) goes on the stack.
    pub fn push(&mut self, p: Pair)
        requires
            old(self).wf(),
            old(self).m <= 100,
        ensures
            final(self).wf(),
            ({
                let sp = ((old(self).registers.sp + 0xfffe) % 0x10000) as u16;
                let v = if p == Pair::AF {
                    word(old(self).registers.a, flags_byte(old(self).flags))
                } else {
                    pair_get(old(self).registers, p)
                };
                &&& *final(self) == (CPU {
                    mmu: final(self).mmu,
                    registers: Registers { sp, ..old(self).registers },
                    m: (old(self).m + 12) as u8,
                    ..*old(self)
                })
                &&& MMU::word_written(old(self).mmu, final(self).mmu, sp, v)
            }),
    {
        let v = if p == Pair::AF { self.get_af() } else { self.get_pair(p) };
        self.push_word(v);
    }

    /// `POP rr`: the pair (A and F for AF) comes off the stack.
    pub fn pop(&mut self, p: Pair)
        requires
            old(self).wf(),
            old(self).m <= 100,
        ensures
            ({
                let v = old(self).mmu.read_word_spec(old(self).registers.sp);
                let regs = Registers { sp: ((old(self).registers.sp + 2) % 0x10000) as u16, ..old(self).registers };
                *final(self) == if p == Pair::AF {
                    CPU {
                        registers: Registers { a: hi_byte(v), ..regs },
                        flags: flags_of(lo_byte(v)),
                        m: (old(self).m + 8) as u8,
                        ..*old(self)
                    }
                } else {
                    CPU { registers: pair_set(regs, p, v), m: (old(self).m + 8) as u8, ..*old(self) }
                }
            }),
    {
        let v = self.pop_word();
        if p == Pair::AF {
            self.set_af(v);
        } else {
            self.set_pair(p, v);
        }
    }

    /// `LD (a16), SP`.
    pub fn ld_mem_sp(&mut self, address: u16)
        requires
            old(self).wf(),
            old(self).m <= 100,
        ensures
            final(self).wf(),
            *final(self) == (CPU { mmu: final(self).mmu, m: (old(self).m + 8) as u8, ..*old(self) }),
            MMU::word_written(old(self).mmu, final(self).mmu, address, old(self).registers.sp),
    {
        let sp = self.registers.sp;
        self.mmu.write_word(address, sp);
        self.m = self.m + 8;
    }

    // Jumps, calls and returns.

    /// `JP a16`.
    pub fn jp(&mut self, address: u16)
        requires
            old(self).m <= 100,
        ensures
            *final(self) == (CPU {
                registers: Registers { pc: address, ..old(self).registers },
                m: (old(self).m + 4) as u8,
                ..*old(self)
            }),
    {
        self.registers.pc = address;
        self.m = self.m + 4;
    }

    /// `JP cc, a16`.
    pub fn jp_cc(&mut self, cc: u8, address: u16)
        requires
            old(self).m <= 100,
        ensures
            *final(self) == if condition(cc, old(self).flags) {
                CPU { registers: Registers { pc: address, ..old(self).registers }, m: (old(self).m + 4) as u8, ..*old(self) }
            } else {
                *old(self)
            },
    {
        if self.holds(cc) {
            self.jp(address);
        }
    }

    /// `JR e`: PC moves by the signed byte `b` from the address after the operand.
    pub fn jr(&mut self, b: u8)
        requires
            old(self).m <= 100,
        ensures
            *final(self) == (CPU {
                registers: Registers { pc: offset(old(self).registers.pc, b), ..old(self).registers },
                m: (old(self).m + 4) as u8,
                ..*old(self)
            }),
    {
        self.registers.pc = CPU::add_offset(self.registers.pc, b);
        self.m = self.m + 4;
    }

    /// `JR cc, e`.
    pub fn jr_cc(&mut self, cc: u8, b: u8)
        requires
            old(self).m <= 100,
        ensures
            *final(self) == if condition(cc, old(self).flags) {
                CPU {
                    registers: Registers { pc: offset(old(self).registers.pc, b), ..old(self).registers },
                    m: (old(self).m + 4) as u8,
                    ..*old(self)
                }
            } else {
                *old(self)
            },
    {
        if self.holds(cc) {
            self.jr(b);
        }
    }

    fn holds(&self, cc: u8) -> (r: bool)
        ensures
            r == condition(cc, self.flags),
    {
        if cc == 0 {
            !self.flags.z
        } else if cc == 1 {
            self.flags.z
        } else if cc == 2 {
            !self.flags.c
        } else {
            self.flags.c
        }
    }

    /// `CALL a16`: pushes PC and jumps.
    pub fn call(&mut self, address: u16)
        requires
            old(self).wf(),
            old(self).m <= 100,
        ensures
            final(self).wf(),
            ({
                let sp = ((old(self).registers.sp + 0xfffe) % 0x10000) as u16;
                &&& *final(self) == (CPU {
                    mmu: final(self).mmu,
                    registers: Registers { sp, pc: address, ..old(self).registers },
                    m: (old(self).m + 12) as u8,
                    ..*old(self)
                })
                &&& MMU::word_written(old(self).mmu, final(self).mmu, sp, old(self).registers.pc)
            }),
    {
        let pc = self.registers.pc;
        self.push_word(pc);
        self.registers.pc = address;
    }

    /// `CALL cc, a16`.
    pub fn call_cc(&mut self, cc: u8, address: u16)
        requires
            old(self).wf(),
            old(self).m <= 100,
        ensures
            final(self).wf(),
            !condition(cc, old(self).flags) ==> *final(self) == *old(self),
            condition(cc, old(self).flags) ==> ({
                let sp = ((old(self).registers.sp + 0xfffe) % 0x10000) as u16;
                &&& *final(self) == (CPU {
                    mmu: final(self).mmu,
                    registers: Registers { sp, pc: address, ..old(self).registers },
                    m: (old(self).m + 12) as u8,
                    ..*old(self)
                })
                &&& MMU::word_written(old(self).mmu, final(self).mmu, sp, old(self).registers.pc)
            }),
    {
        if self.holds(cc) {
            self.call(address);
        }
    }

    /// `RST n`: a call to one of the eight restart vectors.
    pub fn rst(&mut self, address: u16)
        requires
            old(self).wf(),
            old(self).m <= 100,
        ensures
            final(self).wf(),
            ({
                let sp = ((old(self).registers.sp + 0xfffe) % 0x10000) as u16;
                &&& *final(self) == (CPU {
                    mmu: final(self).mmu,
                    registers: Registers { sp, pc: address, ..old(self).registers },
                    m: (old(self).m + 12) as u8,
                    ..*old(self)
                })
                &&& MMU::word_written(old(self).mmu, final(self).mmu, sp, old(self).registers.pc)
            }),
    {
        self.call(address);
    }

    /// `RET`: PC comes off the stack.
    pub fn ret(&mut self)
        requires
            old(self).wf(),
            old(self).m <= 100,
        ensures
            *final(self) == (CPU {
                registers: Registers {
                    pc: old(self).mmu.read_word_spec(old(self).registers.sp),
                    sp: ((old(self).registers.sp + 2) % 0x10000) as u16,
                    ..old(self).registers
                },
                m: (old(self).m + 12) as u8,
                ..*old(self)
            }),
    {
        self.registers.pc = self.pop_word();
        self.m = self.m + 4;
    }

    /// `RET cc`: a test that costs 4 cycles, then `RET` if the condition holds.
    pub fn ret_cc(&mut self, cc: u8)
        requires
            old(self).wf(),
            old(self).m <= 96,
        ensures
            *final(self) == if condition(cc, old(self).flags) {
                CPU {
                    registers: Registers {
                        pc: old(self).mmu.read_word_spec(old(self).registers.sp),
                        sp: ((old(self).registers.sp + 2) % 0x10000) as u16,
                        ..old(self).registers
                    },
                    m: (old(self).m + 16) as u8,
                    ..*old(self)
                }
            } else {
                CPU { m: (old(self).m + 4) as u8, ..*old(self) }
            },
    {
        self.m = self.m + 4;
        if self.holds(cc) {
            self.ret();
        }
    }

    /// `RETI`: `RET` and interrupts on at once.
    pub fn reti(&mut self)
        requires
            old(self).wf(),
            old(self).m <= 100,
        ensures
            *final(self) == (CPU {
                registers: Registers {
                    pc: old(self).mmu.read_word_spec(old(self).registers.sp),
                    sp: ((old(self).registers.sp + 2) % 0x10000) as u16,
                    ..old(self).registers
                },
                m: (old(self).m + 12) as u8,
                interrupts: true,
                ..*old(self)
            }),
    {
        self.ret();
        self.interrupts = true;
    }

    // Miscellaneous.

    pub fn daa(&mut self)
        ensures
            *final(self) == CPU::with_a(*old(self), daa8(old(self).registers.a, old(self).flags).0, daa8(old(self).registers.a, old(self).flags).1),
    {
        let a = self.registers.a;
        let f = self.flags;
        if !f.n {
            let high = f.c || a > 0x99;
            let a1: u8 = if high { ((a as u16 + 0x60) % 256) as u8 } else { a };
            let a2: u8 = if f.h || a1 % 16 > 9 { ((a1 as u16 + 6) % 256) as u8 } else { a1 };
            self.registers.a = a2;
            self.flags = Flags { z: a2 == 0, n: false, h: false, c: high };
        } else {
            let a1: u8 = if f.c { ((a as u16 + 256 - 0x60) % 256) as u8 } else { a };
            let a2: u8 = if f.h { ((a1 as u16 + 256 - 6) % 256) as u8 } else { a1 };
            self.registers.a = a2;
            self.flags = Flags { z: a2 == 0, n: true, h: false, c: f.c };
        }
    }

    /// `CPL`: A complemented; N and H set.
    pub fn cpl(&mut self)
        ensures
            *final(self) == CPU::with_a(
                *old(self),
                !old(self).registers.a,
                Flags { n: true, h: true, ..old(self).flags },
            ),
    {
        self.registers.a = !self.registers.a;
        self.flags.n = true;
        self.flags.h = true;
    }

    /// `SCF`: C set, N and H cleared.
    pub fn scf(&mut self)
        ensures
            *final(self) == (CPU { flags: Flags { n: false, h: false, c: true, ..old(self).flags }, ..*old(self) }),
    {
        self.flags.n = false;
        self.flags.h = false;
        self.flags.c = true;
    }

    /// `CCF`: C inverted, N and H cleared.
    pub fn ccf(&mut self)
        ensures
            *final(self) == (CPU { flags: Flags { n: false, h: false, c: !old(self).flags.c, ..old(self).flags }, ..*old(self) }),
    {
        self.flags.n = false;
        self.flags.h = false;
        self.flags.c = !self.flags.c;
    }

    /// `DI`: interrupts off, and a pending `EI` is dropped.
    pub fn disable_interrupts(&mut self)
        ensures
            *final(self) == (CPU { interrupts: false, ei_pending: false, ..*old(self) }),
    {
        self.interrupts = false;
        self.ei_pending = false;
    }

    /// `EI`: interrupts come on after the next instruction.
    pub fn enable_interrupts(&mut self)
        ensures
            *final(self) == (CPU { ei_pending: true, ..*old(self) }),
    {
        self.ei_pending = true;
    }

    /// `HALT`: fetching stops until an interrupt is pending.
    pub fn halt(&mut self)
        ensures
            *final(self) == (CPU { halted: true, ..*old(self) }),
    {
        self.halted = true;
    }

    /// `STOP`: skips the operand byte and stops the machine.
    pub fn stop(&mut self)
        ensures
            *final(self) == (CPU {
                registers: Registers { pc: next_address(old(self).registers.pc), ..old(self).registers },
                stopped: true,
                ..*old(self)
            }),
    {
        self.stopped = true;
        self.registers.pc = wrapping_next(self.registers.pc);
    }
    // Decoding and execution.

    /// The operand that index `i` of an opcode names.
    fn loc8(&self, i: u8) -> (r: Loc8)
        requires
            i < 8,
        ensures
            r == loc_spec(self.registers, i),
    {
        if i == 0 {
            Loc8::Reg(Register::B)
        } else if i == 1 {
            Loc8::Reg(Register::C)
        } else if i == 2 {
            Loc8::Reg(Register::D)
        } else if i == 3 {
            Loc8::Reg(Register::E)
        } else if i == 4 {
            Loc8::Reg(Register::H)
        } else if i == 5 {
            Loc8::Reg(Register::L)
        } else if i == 6 {
            Loc8::Mem(self.get_hl())
        } else {
            Loc8::Reg(Register::A)
        }
    }

    /// HL moved by one, up or down, modulo 2^16, at no cost.
    fn step_hl(&mut self, up: bool)
        ensures
            *final(self) == (CPU {
                registers: pair_set(
                    old(self).registers,
                    Pair::HL,
                    ((pair_get(old(self).registers, Pair::HL) + if up { 1int } else { 0xffff }) % 0x10000) as u16,
                ),
                ..*old(self)
            }),
    {
        let hl = self.get_hl();
        let r: u16 = if up {
            wrapping_next(hl)
        } else if hl == 0 {
            0xffff
        } else {
            hl - 1
        };
        self.set_hl(r);
    }

    /// The arithmetic and logic group, `kind` 0..=7: ADD, ADC, SUB, SBC,
    /// AND, XOR, OR, CP on A and `x`.
    fn alu(&mut self, kind: u8, x: u8)
        requires
            kind < 8,
        ensures
            *final(self) == CPU::with_a(
                *old(self),
                alu8(kind, old(self).registers.a, x, old(self).flags).0,
                alu8(kind, old(self).registers.a, x, old(self).flags).1,
            ),
    {
        if kind == 0 {
            self.add_a(x);
        } else if kind == 1 {
            self.adc_a(x);
        } else if kind == 2 {
            self.sub(x);
        } else if kind == 3 {
            self.sbc_a(x);
        } else if kind == 4 {
            self.and(x);
        } else if kind == 5 {
            self.xor(x);
        } else if kind == 6 {
            self.or(x);
        } else {
            self.cp(x);
        }
    }

    /// The pair that index `i` names in 16-bit loads and arithmetic.
    fn pair_at(i: u8) -> (r: Pair)
        ensures
            r == pair_index(i),
            r != Pair::AF,
    {
        if i == 0 {
            Pair::BC
        } else if i == 1 {
            Pair::DE
        } else if i == 2 {
            Pair::HL
        } else {
            Pair::SP
        }
    }

    /// Opcodes 0x00..=0x3F.
    fn execute_low(&mut self, op: u8)
        requires
            old(self).wf(),
            old(self).m == 4,
            op < 0x40,
        ensures
            executed(*old(self), *final(self), op, 0),
            (final(self).registers, final(self).flags) == low_effect(*old(self), op),
            low_memory(*old(self), final(self).mmu, op),
    {
        if op % 8 < 2 {
            self.execute_low_jumps(op);
        } else if op % 8 < 4 {
            self.execute_low_pairs(op);
        } else {
            self.execute_low_bytes(op);
        }
    }

    /// NOP, LD (a16) SP, STOP, relative jumps, 16-bit loads and ADD HL.
    #[verifier::rlimit(60)]
    fn execute_low_jumps(&mut self, op: u8)
        requires
            old(self).wf(),
            old(self).m == 4,
            op < 0x40,
            op % 8 < 2,
        ensures
            executed(*old(self), *final(self), op, 0),
            (final(self).registers, final(self).flags) == low_effect(*old(self), op),
            low_memory(*old(self), final(self).mmu, op),
    {
        let y = op / 8;
        let z = op % 8;
        if z == 0 {
            if y == 0 {
            } else if y == 1 {
                let address = self.take_word();
                self.ld_mem_sp(address);
            } else if y == 2 {
                self.stop();
            } else if y == 3 {
                let b = self.take_byte();
                self.jr(b);
            } else {
                let b = self.take_byte();
                self.jr_cc(y - 4, b);
            }
        } else if z == 1 {
            let p = CPU::pair_at(y / 2);
            if y % 2 == 0 {
                let v = self.take_word();
                self.set_pair(p, v);
            } else {
                let v = self.get_pair(p);
                self.add_hl(v);
            }
        }
    }

    /// Loads between A and the byte a pair points at, INC and DEC of pairs.
    #[verifier::rlimit(60)]
    fn execute_low_pairs(&mut self, op: u8)
        requires
            old(self).wf(),
            old(self).m == 4,
            op < 0x40,
            2 <= op % 8 < 4,
        ensures
            executed(*old(self), *final(self), op, 0),
            (final(self).registers, final(self).flags) == low_effect(*old(self), op),
            low_memory(*old(self), final(self).mmu, op),
    {
        let y = op / 8;
        let z = op % 8;
        if z == 2 {
            let address = if y / 2 == 0 {
                self.get_bc()
            } else if y / 2 == 1 {
                self.get_de()
            } else {
                self.get_hl()
            };
            if y % 2 == 0 {
                let a = self.registers.a;
                self.store(Loc8::Mem(address), a);
            } else {
                let v = self.load(Loc8::Mem(address));
                self.registers.a = v;
            }
            if y / 2 == 2 {
                self.step_hl(true);
            } else if y / 2 == 3 {
                self.step_hl(false);
            }
        } else if z == 3 {
            let p = CPU::pair_at(y / 2);
            if y % 2 == 0 {
                self.inc16(p);
            } else {
                self.dec16(p);
            }
        }
    }

    /// INC, DEC and immediate loads of 8-bit operands; rotates of A, DAA, CPL, SCF, CCF.
    #[verifier::rlimit(60)]
    fn execute_low_bytes(&mut self, op: u8)
        requires
            old(self).wf(),
            old(self).m == 4,
            op < 0x40,
            4 <= op % 8,
        ensures
            executed(*old(self), *final(self), op, 0),
            (final(self).registers, final(self).flags) == low_effect(*old(self), op),
            low_memory(*old(self), final(self).mmu, op),
    {
        let y = op / 8;
        let z = op % 8;
        if z == 4 {
            let loc = self.loc8(y);
            self.inc(loc);
        } else if z == 5 {
            let loc = self.loc8(y);
            self.dec(loc);
        } else if z == 6 {
            let v = self.take_byte();
            let loc = self.loc8(y);
            self.store(loc, v);
        } else if y < 4 {
            self.rotate_a(y);
        } else if y == 4 {
            self.daa();
        } else if y == 5 {
            self.cpl();
        } else if y == 6 {
            self.scf();
        } else {
            self.ccf();
        }
    }

    /// Opcodes 0x40..=0xBF: register loads, HALT, and arithmetic on A.
    fn execute_middle(&mut self, op: u8)
        requires
            old(self).wf(),
            old(self).m == 4,
            0x40 <= op < 0xc0,
        ensures
            executed(*old(self), *final(self), op, 0),
            op == 0x76 ==> final(self).halted,
            op != 0x76 ==> (final(self).registers, final(self).flags) == middle_effect(*old(self), op),
            middle_memory(*old(self), final(self).mmu, op),
    {
        let y = (op / 8) % 8;
        let z = op % 8;
        if op == 0x76 {
            self.halt();
        } else if op < 0x80 {
            let src = self.loc8(z);
            let v = self.load(src);
            let dst = self.loc8(y);
            self.store(dst, v);
        } else {
            let src = self.loc8(z);
            let v = self.load(src);
            self.alu(y, v);
        }
    }

    /// The 0xCB-prefixed opcode `cb`: shifts, BIT, RES, SET.
    fn execute_prefixed(&mut self, cb: u8)
        requires
            old(self).wf(),
            old(self).m == 8,
        ensures
            keeps(*old(self), *final(self)),
            final(self).m == prefixed_cycles(cb),
            final(self).stopped == old(self).stopped,
            final(self).halted == old(self).halted,
            final(self).interrupts == old(self).interrupts,
            final(self).ei_pending == old(self).ei_pending,
            (final(self).registers, final(self).flags) == prefixed_effect(*old(self), cb),
            prefixed_memory(*old(self), final(self).mmu, cb),
    {
        let x = cb / 64;
        let y = (cb / 8) % 8;
        let loc = self.loc8(cb % 8);
        if x == 0 {
            self.shift(y, loc);
        } else if x == 1 {
            let v = self.load(loc);
            self.bit(y, v);
        } else {
            self.set_bit(y, loc, x == 3);
        }
    }

    /// Opcodes 0xC0..=0xFF.
    fn execute_high(&mut self, op: u8)
        requires
            old(self).wf(),
            old(self).m == 4,
            0xc0 <= op,
        ensures
            executed(*old(self), *final(self), op, old(self).mmu.read_spec(old(self).registers.pc)),
            op == 0xcb ==> (final(self).registers, final(self).flags) == prefixed_effect(
                fetched(*old(self)),
                old(self).mmu.read_spec(old(self).registers.pc),
            ),
            op != 0xcb ==> (final(self).registers, final(self).flags) == high_effect(*old(self), op),
            op != 0xcb ==> high_memory(*old(self), final(self).mmu, op),
            op == 0xcb ==> prefixed_memory(fetched(*old(self)), final(self).mmu, old(self).mmu.read_spec(old(self).registers.pc)),
    {
        if op % 8 < 2 {
            self.execute_returns(op);
        } else if op % 8 < 4 {
            self.execute_jumps(op);
        } else {
            self.execute_calls(op);
        }
    }

    /// Returns, pops and the high-page loads.
    #[verifier::rlimit(60)]
    fn execute_returns(&mut self, op: u8)
        requires
            old(self).wf(),
            old(self).m == 4,
            0xc0 <= op,
            op % 8 < 2,
        ensures
            executed(*old(self), *final(self), op, old(self).mmu.read_spec(old(self).registers.pc)),
            op != 0xcb ==> (final(self).registers, final(self).flags) == high_effect(*old(self), op),
            op != 0xcb ==> high_memory(*old(self), final(self).mmu, op),
    {
        let y = (op / 8) % 8;
        let z = op % 8;
        if z == 0 {
            if y < 4 {
                self.ret_cc(y);
            } else if y == 4 {
                let n = self.take_byte();
                let a = self.registers.a;
                self.store(Loc8::Mem(0xff00 + n as u16), a);
            } else if y == 5 {
                let b = self.take_byte();
                self.add_sp(b);
            } else if y == 6 {
                let n = self.take_byte();
                let v = self.load(Loc8::Mem(0xff00 + n as u16));
                self.registers.a = v;
            } else {
                let b = self.take_byte();
                self.ld_hl_sp_plus_immediate_signed(b);
            }
        } else if z == 1 {
            if y % 2 == 0 {
                let p = if y / 2 == 0 {
                    Pair::BC
                } else if y / 2 == 1 {
                    Pair::DE
                } else if y / 2 == 2 {
                    Pair::HL
                } else {
                    Pair::AF
                };
                self.pop(p);
            } else if y == 1 {
                self.ret();
            } else if y == 3 {
                self.reti();
            } else if y == 5 {
                self.registers.pc = self.get_hl();
            } else {
                self.registers.sp = self.get_hl();
                self.m = self.m + 4;
            }
        }
    }

    /// Jumps, the prefix, the loads through C and a16, DI and EI.
    #[verifier::rlimit(60)]
    fn execute_jumps(&mut self, op: u8)
        requires
            old(self).wf(),
            old(self).m == 4,
            0xc0 <= op,
            2 <= op % 8 < 4,
        ensures
            executed(*old(self), *final(self), op, old(self).mmu.read_spec(old(self).registers.pc)),
            op == 0xcb ==> (final(self).registers, final(self).flags) == prefixed_effect(
                fetched(*old(self)),
                old(self).mmu.read_spec(old(self).registers.pc),
            ),
            op != 0xcb ==> (final(self).registers, final(self).flags) == high_effect(*old(self), op),
            op != 0xcb ==> high_memory(*old(self), final(self).mmu, op),
            op == 0xcb ==> prefixed_memory(fetched(*old(self)), final(self).mmu, old(self).mmu.read_spec(old(self).registers.pc)),
    {
        let y = (op / 8) % 8;
        let z = op % 8;
        if z == 2 {
            if y < 4 {
                let address = self.take_word();
                self.jp_cc(y, address);
            } else if y == 4 {
                let a = self.registers.a;
                let c = self.registers.c;
                self.store(Loc8::Mem(0xff00 + c as u16), a);
            } else if y == 5 {
                let address = self.take_word();
                let a = self.registers.a;
                self.store(Loc8::Mem(address), a);
            } else if y == 6 {
                let c = self.registers.c;
                let v = self.load(Loc8::Mem(0xff00 + c as u16));
                self.registers.a = v;
            } else {
                let address = self.take_word();
                let v = self.load(Loc8::Mem(address));
                self.registers.a = v;
            }
        } else if z == 3 {
            if y == 0 {
                let address = self.take_word();
                self.jp(address);
            } else if y == 1 {
                let cb = self.take_byte();
                self.execute_prefixed(cb);
            } else if y == 6 {
                self.disable_interrupts();
            } else if y == 7 {
                self.enable_interrupts();
            }
        }
    }

    /// Calls, pushes, arithmetic on an immediate, restarts.
    #[verifier::rlimit(60)]
    fn execute_calls(&mut self, op: u8)
        requires
            old(self).wf(),
            old(self).m == 4,
            0xc0 <= op,
            4 <= op % 8,
        ensures
            executed(*old(self), *final(self), op, old(self).mmu.read_spec(old(self).registers.pc)),
            op != 0xcb ==> (final(self).registers, final(self).flags) == high_effect(*old(self), op),
            op != 0xcb ==> high_memory(*old(self), final(self).mmu, op),
    {
        let y = (op / 8) % 8;
        let z = op % 8;
        if z == 4 {
            if y < 4 {
                let address = self.take_word();
                self.call_cc(y, address);
            }
        } else if z == 5 {
            if y % 2 == 0 {
                let p = if y / 2 == 0 {
                    Pair::BC
                } else if y / 2 == 1 {
                    Pair::DE
                } else if y / 2 == 2 {
                    Pair::HL
                } else {
                    Pair::AF
                };
                self.push(p);
            } else if y == 1 {
                let address = self.take_word();
                self.call(address);
            }
        } else if z == 6 {
            let x = self.take_byte();
            self.alu(y, x);
        } else {
            self.rst(y as u16 * 8);
        }
    }
    /// Executes the instruction `op`, already fetched.
    fn execute(&mut self, op: u8)
        requires
            old(self).wf(),
            old(self).m == 4,
        ensures
            executed(*old(self), *final(self), op, old(self).mmu.read_spec(old(self).registers.pc)),
            op == 0xcb ==> (final(self).registers, final(self).flags) == prefixed_effect(
                fetched(*old(self)),
                old(self).mmu.read_spec(old(self).registers.pc),
            ),
            0x40 <= op < 0xc0 && op != 0x76 ==> (final(self).registers, final(self).flags) == middle_effect(
                *old(self),
                op,
            ),
            op < 0x40 ==> (final(self).registers, final(self).flags) == low_effect(*old(self), op),
            0xc0 <= op && op != 0xcb ==> (final(self).registers, final(self).flags) == high_effect(*old(self), op),
            memory_effect(*old(self), final(self).mmu, op),
    {
        if op < 0x40 {
            self.execute_low(op);
        } else if op < 0xc0 {
            self.execute_middle(op);
        } else {
            self.execute_high(op);
        }
    }

    /// Serves interrupt `i`: clears its request, turns IME off, pushes PC
    /// and jumps to its vector, in 20 cycles.
    fn service_interrupt(&mut self, i: u8)
        requires
            old(self).wf(),
            old(self).m == 0,
            i < 5,
        ensures
            keeps(*old(self), *final(self)),
            final(self).m == 20,
            final(self).registers == (Registers {
                pc: (0x40 + 8 * i) as u16,
                sp: ((old(self).registers.sp + 0xfffe) % 0x10000) as u16,
                ..old(self).registers
            }),
            final(self).flags == old(self).flags,
            MMU::word_written(
                acknowledged(old(self).mmu, i),
                final(self).mmu,
                ((old(self).registers.sp + 0xfffe) % 0x10000) as u16,
                old(self).registers.pc,
            ),
            !final(self).interrupts,
            !final(self).halted,
            final(self).stopped == old(self).stopped,
    {
        self.mmu.interrupt_flag = self.mmu.interrupt_flag & !(1u8 << i);
        self.interrupts = false;
        self.halted = false;
        self.m = 8;
        let pc = self.registers.pc;
        self.push_word(pc);
        self.registers.pc = 0x40 + 8 * i as u16;
    }

    fn pending_interrupts(&self) -> (r: u8)
        ensures
            r == pending(self.mmu),
    {
        self.mmu.interrupt_flag & self.mmu.ie & 0x1f
    }

    fn first_interrupt(p: u8) -> (r: u8)
        ensures
            r == interrupt_index(p),
            r < 5,
    {
        if p & 1 != 0 {
            0
        } else if p & 2 != 0 {
            1
        } else if p & 4 != 0 {
            2
        } else if p & 8 != 0 {
            3
        } else {
            4
        }
    }

    /// Runs one step: serves a pending interrupt when IME is on, idles while
    /// halted, or fetches and executes one instruction; then leaves the boot
    /// ROM once PC reaches 0x0100 and advances the devices by the cycles spent.
    pub fn step(&mut self)
        requires
            old(self).wf(),
        ensures
            final(self).wf(),
            !old(self).mmu.bootroom_enabled ==> !final(self).mmu.bootroom_enabled,
            final(self).registers.pc >= 0x100 ==> !final(self).mmu.bootroom_enabled,
            final(self).clock.m == (old(self).clock.m + final(self).m) % (u64::MAX + 1),
            final(self).m >= 4,
            old(self).interrupts && pending(old(self).mmu) != 0 ==> {
                let i = interrupt_index(pending(old(self).mmu));
                let sp = ((old(self).registers.sp + 0xfffe) % 0x10000) as u16;
                &&& final(self).m == 20
                &&& final(self).registers == (Registers { pc: (0x40 + 8 * i) as u16, sp, ..old(self).registers })
                &&& final(self).flags == old(self).flags
                &&& !final(self).interrupts
                &&& final(self).stopped == old(self).stopped
                &&& exists|mid: MMU|
                    #[trigger] MMU::word_written(acknowledged(old(self).mmu, i), mid, sp, old(self).registers.pc)
                        && MMU::stepped(leave_boot(mid, final(self).registers.pc), final(self).mmu, 20)
            },
            !(old(self).interrupts && pending(old(self).mmu) != 0) && old(self).halted ==> {
                &&& final(self).m == 4
                &&& final(self).registers == old(self).registers
                &&& final(self).flags == old(self).flags
                &&& final(self).halted == (pending(old(self).mmu) == 0)
                &&& final(self).stopped == old(self).stopped
                &&& MMU::stepped(leave_boot(old(self).mmu, old(self).registers.pc), final(self).mmu, 4)
            },
            !(old(self).interrupts && pending(old(self).mmu) != 0) && !old(self).halted ==> {
                let op = old(self).mmu.read_spec(old(self).registers.pc);
                let cb = old(self).mmu.read_spec(next_address(old(self).registers.pc));
                let after = fetched(CPU { m: 0, ei_pending: false, ..*old(self) });
                &&& final(self).m == cycles_spec(op, cb, old(self).flags)
                &&& final(self).stopped == (old(self).stopped || op == 0x10)
                &&& final(self).halted == (op == 0x76)
                &&& final(self).interrupts == (if op == 0xf3 {
                    false
                } else if op == 0xd9 || old(self).ei_pending {
                    true
                } else {
                    old(self).interrupts
                })
                &&& final(self).ei_pending == (op == 0xfb)
                &&& op < 0x40 ==> (final(self).registers, final(self).flags) == low_effect(after, op)
                &&& 0x40 <= op < 0xc0 && op != 0x76 ==> (final(self).registers, final(self).flags) == middle_effect(after, op)
                &&& 0xc0 <= op && op != 0xcb ==> (final(self).registers, final(self).flags) == high_effect(after, op)
                &&& op == 0xcb ==> (final(self).registers, final(self).flags) == prefixed_effect(fetched(after), cb)
                &&& exists|mid: MMU|
                    #[trigger] memory_effect(after, mid, op) && MMU::stepped(
                        leave_boot(mid, final(self).registers.pc),
                        final(self).mmu,
                        final(self).m,
                    )
            },
    {
        self.m = 0;
        let p = self.pending_interrupts();
        if self.interrupts && p != 0 {
            let i = CPU::first_interrupt(p);
            self.service_interrupt(i);
        } else if self.halted {
            if p != 0 {
                self.halted = false;
            }
            self.m = 4;
        } else {
            let arm = self.ei_pending;
            self.ei_pending = false;
            let op = self.take_byte();
            self.execute(op);
            if arm && op != 0xf3 {
                self.interrupts = true;
            }
        }
        let ghost mid = self.mmu;
        if self.registers.pc >= 0x100 && self.mmu.bootroom_enabled {
            self.mmu.write_byte(0xff50, 1);
        }
        assert(self.mmu == leave_boot(mid, self.registers.pc));
        let m = self.m;
        let total: u128 = self.clock.m as u128 + m as u128;
        self.clock.m = (total % (u64::MAX as u128 + 1)) as u64;
        self.clock.t = if self.clock.t < u64::MAX { self.clock.t + 1 } else { 0 };
        self.mmu.step(m);
    }
}

impl Clock {
    pub fn new() -> (r: Clock)
        ensures
            r.m == 0 && r.t == 0,
    {
        Clock { m: 0, t: 0 }
    }
}

impl Flags {
    pub fn new() -> (r: Flags)
        ensures
            r == (Flags { z: false, n: false, h: false, c: false }),
    {
        Flags { z: false, n: false, h: false, c: false }
    }
}

impl Registers {
    pub fn new() -> (r: Registers)
        ensures
            r == (Registers { pc: 0, sp: 0, a: 0, b: 0, c: 0, d: 0, e: 0, h: 0, l: 0 }),
    {
        Registers { pc: 0, sp: 0, a: 0, b: 0, c: 0, d: 0, e: 0, h: 0, l: 0 }
    }
}

pub fn get_lower_bytes(word: u16) -> (r: u8)
    ensures
        r == lo_byte(word),
{
    (word % 256) as u8
}

pub fn get_upper_bytes(word: u16) -> (r: u8)
    ensures
        r == hi_byte(word),
{
    (word / 256) as u8
}

/// From 0xFF, INC gives 0 with Z set; from 0, DEC gives 0xFF with Z clear.
pub proof fn register_wraps(f: Flags)
    ensures
        inc8(0xff, f).0 == 0 && inc8(0xff, f).1.z,
        dec8(0, f).0 == 0xff && !dec8(0, f).1.z,
{
}

/// INC of a register pair at 0xFFFF gives 0, DEC at 0 gives 0xFFFF, and
/// neither touches the flags (their contracts keep `flags`).
pub proof fn pair_wraps(r: Registers, p: Pair)
    requires
        p != Pair::AF,
    ensures
        pair_get(r, p) == 0xffff ==> pair_get(pair_set(r, p, ((pair_get(r, p) + 1) % 0x10000) as u16), p) == 0,
        pair_get(r, p) == 0 ==> pair_get(pair_set(r, p, ((pair_get(r, p) + 0xffff) % 0x10000) as u16), p) == 0xffff,
{
}

/// After `ADD A, x`: C is set iff A + x >= 256, H iff the low nibbles
/// carry, Z iff the sum is 0 modulo 256, and N is clear.
pub proof fn add_flags(a: u8, x: u8)
    ensures
        add8(a, x, false).1.c == (a + x >= 256),
        add8(a, x, false).1.h == (a % 16 + x % 16 >= 0x10),
        add8(a, x, false).1.z == ((a + x) % 256 == 0),
        !add8(a, x, false).1.n,
{
}

/// `CP x` sets the flags that `SUB x` sets, and keeps A.
pub proof fn compare_flags_match_subtract(c: CPU, x: u8)
    ensures
        CPU::with_a(c, c.registers.a, sub8(c.registers.a, x, false).1).flags == CPU::with_a(
            c,
            sub8(c.registers.a, x, false).0,
            sub8(c.registers.a, x, false).1,
        ).flags,
        CPU::with_a(c, c.registers.a, sub8(c.registers.a, x, false).1).registers.a == c.registers.a,
        sub8(c.registers.a, x, false).1.z == (c.registers.a == x),
        sub8(c.registers.a, x, false).1.c == (c.registers.a < x),
{
}

} // verus!

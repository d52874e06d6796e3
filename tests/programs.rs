use gbrs::cartridge::Cartridge;
use gbrs::cpu::CPU;
use gbrs::mmu::MMU;

fn run_to_stop(rom: Vec<u8>) -> CPU {
    let cart = Cartridge::new(rom);
    let mut mmu: MMU = MMU::new();
    mmu.load_cartridge(cart);
    let mut cpu: CPU = CPU::new(mmu);
    let mut steps = 0u32;
    while !cpu.stopped {
        cpu.step();
        steps += 1;
        assert!(steps < 1_000_000, "program did not stop");
    }
    cpu
}

#[test]
fn mod_ld_bc_immediate_word() {
    let rom = vec![0x01, 0xfe, 0xca, 0x10];
    let cpu = run_to_stop(rom);
    assert_eq!(cpu.registers.b, 0xca);
    assert_eq!(cpu.registers.c, 0xfe);
}

#[test]
fn mod_registers_8bit_wrap_around_upon_overflow() {
    let rom = vec![
        0x3e, 0xff, 0x04, 0x0c, 0x14, 0x1c, 0x24, 0x2c, 0x3d, 0xc2,
        0x02, 0x00, 0x04, 0x0c, 0x14, 0x1c, 0x24, 0x2c, 0x3d, 0x10,
    ];
    let cpu = run_to_stop(rom);
    assert_eq!(cpu.registers.b, 0);
    assert_eq!(cpu.registers.c, 0);
    assert_eq!(cpu.registers.d, 0);
    assert_eq!(cpu.registers.e, 0);
    assert_eq!(cpu.registers.a, 255);
}

#[test]
fn mod_registers_8bit_wrap_around_upon_underflow() {
    let rom = vec![
        0x3e, 0x00, 0x05, 0x0d, 0x15, 0x1d, 0x25, 0x2d, 0x3c, 0xc2,
        0x02, 0x00, 0x05, 0x0d, 0x15, 0x1d, 0x25, 0x2d, 0x3c, 0x10,
    ];
    let cpu = run_to_stop(rom);
    assert_eq!(cpu.registers.b, 255);
    assert_eq!(cpu.registers.c, 255);
    assert_eq!(cpu.registers.d, 255);
    assert_eq!(cpu.registers.e, 255);
    assert_eq!(cpu.registers.a, 1);
}

#[test]
fn mod_registers_16bit_wrap_around_upon_overflow() {
    let rom: Vec<u8> = vec![
        0x01, 0xff, 0xff, // LD BC, 65535
        0x03,             // INC BC
        0x11, 0xff, 0xff, // LD DE, 65535
        0x13,             // INC DE
        0x21, 0xff, 0xff, // LD HL, 65535
        0x23,             // INC HL
        0x31, 0xff, 0xff, // LD SP, 65535
        0x33,             // INC SP
        0x10,             // STOP
    ];
    let cpu = run_to_stop(rom);
    assert_eq!(cpu.registers.b, 0);
    assert_eq!(cpu.registers.c, 0);
    assert_eq!(cpu.registers.d, 0);
    assert_eq!(cpu.registers.e, 0);
    assert_eq!(cpu.registers.h, 0);
    assert_eq!(cpu.registers.l, 0);
    assert_eq!(cpu.registers.sp, 0);
}

#[test]
fn registers_16bt_wrap_around_upon_underflow() {
    let rom: Vec<u8> = vec![
        0x01, 0x00, 0x00, // LD BC, 0
        0x0b,             // DEC BC
        0x11, 0x00, 0x00, // LD DE, 0
        0x1b,             // DEC DE
        0x21, 0x00, 0x00, // LD HL, 0
        0x2b,             // DEC HL
        0x31, 0x00, 0x00, // LD SP, 0
        0x3b,             // DEC SP
        0x10,             // STOP
    ];
    let cpu = run_to_stop(rom);
    assert_eq!(cpu.registers.b, 255);
    assert_eq!(cpu.registers.c, 255);
    assert_eq!(cpu.registers.d, 255);
    assert_eq!(cpu.registers.e, 255);
    assert_eq!(cpu.registers.h, 255);
    assert_eq!(cpu.registers.l, 255);
    assert_eq!(cpu.registers.sp, 65535);
}

/// Cycles of the first instruction of `program`, run from address 0.
fn cycles_of(program: Vec<u8>) -> u64 {
    let cart = Cartridge::new(program);
    let mut mmu: MMU = MMU::new();
    mmu.load_cartridge(cart);
    let mut cpu: CPU = CPU::new(mmu);
    cpu.step();
    cpu.clock.m
}

#[test]
fn instruction_timings() {
    assert_eq!(cycles_of(vec![0x00]), 4);              // 0x00 nop
    assert_eq!(cycles_of(vec![0x01, 0x00, 0x00]), 12); // 0x01 ld bc d16
    assert_eq!(cycles_of(vec![0x02]), 8);              // 0x02 ld (bc) a
    assert_eq!(cycles_of(vec![0x03]), 8);              // 0x03 inc bc
    assert_eq!(cycles_of(vec![0x04]), 4);              // 0x04 inc b
    assert_eq!(cycles_of(vec![0x05]), 4);              // 0x05 dec b
    assert_eq!(cycles_of(vec![0x06, 0x01]), 8);        // 0x06 LD B,d8
    assert_eq!(cycles_of(vec![0x07]), 4);              // 0x07 RLCA
    assert_eq!(cycles_of(vec![0x08, 0x01, 0x02]), 20); // 0x08 LD (a16),SP
    assert_eq!(cycles_of(vec![0x09]), 8);              // 0x09 ADD HL,BC
    assert_eq!(cycles_of(vec![0x0a]), 8);              // 0x0a LD A,(BC)
    assert_eq!(cycles_of(vec![0x0b]), 8);              // 0x0b DEC BC
    assert_eq!(cycles_of(vec![0x0c]), 4);              // 0x0c INC C
    assert_eq!(cycles_of(vec![0x0d]), 4);              // 0x0d DEC C
    assert_eq!(cycles_of(vec![0x0e]), 8);              // 0x0e LD C,d8
    assert_eq!(cycles_of(vec![0x0f]), 4);              // 0x0f RRCA

    assert_eq!(cycles_of(vec![0x10]), 4);              // 0x10 stop
    assert_eq!(cycles_of(vec![0x11]), 12);             // 0x11 LD DE,d16
    assert_eq!(cycles_of(vec![0x12]), 8);              // 0x12 ld (de) a
    assert_eq!(cycles_of(vec![0x13]), 8);              // 0x13 inc de
    assert_eq!(cycles_of(vec![0x14]), 4);              // 0x14 INC D
    assert_eq!(cycles_of(vec![0x15]), 4);              // 0x15 DEC D
    assert_eq!(cycles_of(vec![0x16, 0x00]), 8);        // 0x16 LD D,d8
    assert_eq!(cycles_of(vec![0x17]), 4);              // 0x17 RLA
    assert_eq!(cycles_of(vec![0x18]), 12);             // 0x18 JR r8
    assert_eq!(cycles_of(vec![0x19]), 8);              // 0x19 ADD HL,DE
    assert_eq!(cycles_of(vec![0x1a]), 8);              // 0x1a LD A,(DE)
    assert_eq!(cycles_of(vec![0x1b]), 8);              // 0x1b DEC DE
    assert_eq!(cycles_of(vec![0x1c]), 4);              // 0x1c INC E
    assert_eq!(cycles_of(vec![0x1d]), 4);              // 0x1d DEC E
    assert_eq!(cycles_of(vec![0x1e]), 8);              // 0x1e LD E,d8
    assert_eq!(cycles_of(vec![0x1f]), 4);              // 0x1f RRA

    // JR NZ,r8 not taken: Z is set before the step.
    let cart = Cartridge::new(vec![0x20, 0x00]);
    let mut mmu: MMU = MMU::new();
    mmu.load_cartridge(cart);
    let mut cpu: CPU = CPU::new(mmu);
    cpu.flags.z = true;
    cpu.step();
    assert_eq!(cpu.clock.m, 8);                        // JR NZ,r8
    assert_eq!(cycles_of(vec![0x20, 0x00]), 12);       // JR NZ,r8, taken on a fresh CPU
    assert_eq!(cycles_of(vec![0x21]), 12);             // LD HL,d16
    assert_eq!(cycles_of(vec![0x22]), 8);              // 0x22 ld (hl+) a
    assert_eq!(cycles_of(vec![0x23]), 8);              // 0x23 inc hl
    assert_eq!(cycles_of(vec![0x32]), 8);              // 0x32 ld (hl-) a
    assert_eq!(cycles_of(vec![0x33]), 8);              // 0x33 inc sp
}

use gbrs::cartridge::Cartridge;
use gbrs::cpu::{Loc8, Pair, Register, CPU};
use gbrs::debugger::Debugger;
use gbrs::gpu::{LineMode, Shade, GPU};
use gbrs::joypad::{Button, Joypad};
use gbrs::mmu::MMU;
use gbrs::timer::Timer;

fn cpu_with(program: Vec<u8>) -> CPU {
    let mut mmu: MMU = MMU::new();
    mmu.load_cartridge(Cartridge::new(program));
    CPU::new(mmu)
}

#[test]
fn inc_from_ff_wraps_and_sets_zero() {
    let mut cpu = cpu_with(vec![0x06, 0xff, 0x04, 0x10]);
    cpu.step();
    cpu.step();
    assert_eq!(cpu.registers.b, 0);
    assert!(cpu.flags.z);
    assert!(cpu.flags.h);
    assert!(!cpu.flags.n);
}

#[test]
fn dec_from_zero_wraps_and_clears_zero() {
    let mut cpu = cpu_with(vec![0x3d]);
    cpu.flags.z = true;
    cpu.step();
    assert_eq!(cpu.registers.a, 0xff);
    assert!(!cpu.flags.z);
    assert!(cpu.flags.n);
    assert!(cpu.flags.h);
}

#[test]
fn sixteen_bit_inc_keeps_flags() {
    let mut cpu = cpu_with(vec![0x03, 0x0b]);
    cpu.registers.b = 0xff;
    cpu.registers.c = 0xff;
    cpu.flags.z = true;
    cpu.flags.c = true;
    cpu.step();
    assert_eq!((cpu.registers.b, cpu.registers.c), (0, 0));
    assert!(cpu.flags.z && cpu.flags.c && !cpu.flags.n && !cpu.flags.h);
    cpu.step();
    assert_eq!((cpu.registers.b, cpu.registers.c), (0xff, 0xff));
    assert!(cpu.flags.z && cpu.flags.c);
}

#[test]
fn add_sets_all_flags() {
    let mut cpu = cpu_with(vec![]);
    cpu.registers.a = 0x3a;
    cpu.add_a(0xc6);
    assert_eq!(cpu.registers.a, 0);
    assert!(cpu.flags.z && cpu.flags.h && cpu.flags.c && !cpu.flags.n);
    cpu.registers.a = 0x12;
    cpu.add_a(0x34);
    assert_eq!(cpu.registers.a, 0x46);
    assert!(!cpu.flags.z && !cpu.flags.h && !cpu.flags.c);
}

#[test]
fn adc_adds_the_carry() {
    let mut cpu = cpu_with(vec![]);
    cpu.registers.a = 0xe1;
    cpu.flags.c = true;
    cpu.adc_a(0x0f);
    assert_eq!(cpu.registers.a, 0xf1);
    assert!(cpu.flags.h && !cpu.flags.c && !cpu.flags.z);
}

#[test]
fn cp_sets_the_flags_of_sub() {
    for &(a, x) in &[(0x3e, 0x3e), (0x3e, 0x0f), (0x3e, 0x40), (0x00, 0x01)] {
        let mut with_cp = cpu_with(vec![]);
        with_cp.registers.a = a;
        with_cp.cp(x);
        let mut with_sub = cpu_with(vec![]);
        with_sub.registers.a = a;
        with_sub.sub(x);
        assert_eq!(with_cp.registers.a, a);
        assert_eq!(with_cp.flags, with_sub.flags);
        assert_eq!(with_sub.registers.a, a.wrapping_sub(x));
    }
    let mut cpu = cpu_with(vec![]);
    cpu.registers.a = 0x3e;
    cpu.sub(0x40);
    assert_eq!(cpu.registers.a, 0xfe);
    assert!(cpu.flags.c && cpu.flags.n && !cpu.flags.z && !cpu.flags.h);
}

#[test]
fn sbc_subtracts_the_borrow() {
    let mut cpu = cpu_with(vec![]);
    cpu.registers.a = 0x3b;
    cpu.flags.c = true;
    cpu.sbc_a(0x2a);
    assert_eq!(cpu.registers.a, 0x10);
    assert!(!cpu.flags.z && !cpu.flags.h && !cpu.flags.c && cpu.flags.n);
}

#[test]
fn logic_operations() {
    let mut cpu = cpu_with(vec![]);
    cpu.registers.a = 0x5a;
    cpu.and(0x3f);
    assert_eq!(cpu.registers.a, 0x1a);
    assert!(cpu.flags.h && !cpu.flags.c);
    cpu.xor(0x1a);
    assert_eq!(cpu.registers.a, 0);
    assert!(cpu.flags.z && !cpu.flags.h);
    cpu.or(0x81);
    assert_eq!(cpu.registers.a, 0x81);
    assert!(!cpu.flags.z);
}

#[test]
fn daa_after_addition() {
    let mut cpu = cpu_with(vec![]);
    cpu.registers.a = 0x45;
    cpu.add_a(0x38);
    cpu.daa();
    assert_eq!(cpu.registers.a, 0x83);
    assert!(!cpu.flags.c);
    cpu.registers.a = 0x83;
    cpu.sub(0x38);
    cpu.daa();
    assert_eq!(cpu.registers.a, 0x45);
}

#[test]
fn rotates_and_prefixed_ops() {
    let mut cpu = cpu_with(vec![0xcb, 0x11, 0xcb, 0x7f, 0xcb, 0xc7, 0xcb, 0x37]);
    cpu.registers.a = 0x85;
    cpu.rlca();
    assert_eq!(cpu.registers.a, 0x0b);
    assert!(cpu.flags.c && !cpu.flags.z);
    cpu.registers.c = 0x80;
    cpu.flags.c = false;
    cpu.step(); // RL C
    assert_eq!(cpu.registers.c, 0);
    assert!(cpu.flags.z && cpu.flags.c);
    assert_eq!(cpu.m, 8);
    cpu.registers.a = 0x80;
    cpu.step(); // BIT 7, A
    assert!(!cpu.flags.z && cpu.flags.h);
    cpu.registers.a = 0x00;
    cpu.step(); // SET 0, A
    assert_eq!(cpu.registers.a, 0x01);
    cpu.registers.a = 0xf1;
    cpu.step(); // SWAP A
    assert_eq!(cpu.registers.a, 0x1f);
}

#[test]
fn push_and_pop_af_keep_flags() {
    let mut cpu = cpu_with(vec![0x31, 0x00, 0xd0, 0xf5, 0xaf, 0xf1]);
    cpu.registers.a = 0x12;
    cpu.flags.z = true;
    cpu.flags.c = true;
    cpu.step(); // LD SP, 0xd000
    cpu.step(); // PUSH AF
    assert_eq!(cpu.m, 16);
    assert_eq!(cpu.mmu.read_word(0xcffe), 0x1290);
    cpu.step(); // XOR A
    assert_eq!(cpu.registers.a, 0);
    cpu.step(); // POP AF
    assert_eq!(cpu.registers.a, 0x12);
    assert!(cpu.flags.z && cpu.flags.c && !cpu.flags.n && !cpu.flags.h);
    assert_eq!(cpu.registers.sp, 0xd000);
}

#[test]
fn call_and_return() {
    // LD SP, 0xd000; CALL 0x0010; STOP; ... at 0x10: RET
    let mut program = vec![0x31, 0x00, 0xd0, 0xcd, 0x10, 0x00, 0x10];
    program.resize(0x10, 0);
    program.push(0xc9);
    let mut cpu = cpu_with(program);
    cpu.step();
    cpu.step();
    assert_eq!(cpu.registers.pc, 0x10);
    assert_eq!(cpu.m, 24);
    assert_eq!(cpu.mmu.read_word(0xcffe), 0x0006);
    cpu.step();
    assert_eq!(cpu.m, 16);
    assert_eq!(cpu.registers.pc, 0x0006);
    cpu.step();
    assert!(cpu.stopped);
}

#[test]
fn jr_nz_timing_then_stop() {
    let mut cpu = cpu_with(vec![0x20, 0x00, 0x10]);
    while !cpu.stopped {
        cpu.step();
    }
    assert!(cpu.clock.m >= 12 + 4);
    assert_eq!(cpu.clock.m, 16);
}

#[test]
fn add_sp_and_ld_hl_sp() {
    let mut cpu = cpu_with(vec![]);
    cpu.registers.sp = 0xfff8;
    cpu.add_sp(0x02);
    assert_eq!(cpu.registers.sp, 0xfffa);
    cpu.ld_hl_sp_plus_immediate_signed(0xfe);
    assert_eq!((cpu.registers.h, cpu.registers.l), (0xff, 0xf8));
    assert!(cpu.flags.c && cpu.flags.h && !cpu.flags.z);
}

#[test]
fn inc_through_memory() {
    let mut cpu = cpu_with(vec![]);
    cpu.mmu.write_byte(0xc123, 0x0f);
    cpu.inc(Loc8::Mem(0xc123));
    assert_eq!(cpu.mmu.read_byte(0xc123), 0x10);
    assert!(cpu.flags.h);
    cpu.dec(Loc8::Reg(Register::D));
    assert_eq!(cpu.registers.d, 0xff);
    cpu.inc16(Pair::SP);
    assert_eq!(cpu.registers.sp, 1);
}

#[test]
fn interrupt_dispatch() {
    // EI; NOP; NOP
    let mut cpu = cpu_with(vec![0xfb, 0x00, 0x00]);
    cpu.registers.sp = 0xd000;
    cpu.mmu.write_byte(0xffff, 0x05);
    cpu.mmu.write_byte(0xff0f, 0x04);
    cpu.step(); // EI: IME comes on after the next instruction
    assert!(!cpu.interrupts);
    cpu.step();
    assert!(cpu.interrupts);
    cpu.step(); // timer interrupt served
    assert_eq!(cpu.registers.pc, 0x50);
    assert_eq!(cpu.m, 20);
    assert!(!cpu.interrupts);
    assert_eq!(cpu.mmu.read_byte(0xff0f) & 0x04, 0);
    assert_eq!(cpu.mmu.read_word(0xcffe), 0x0002);
}

#[test]
fn halt_waits_for_an_interrupt() {
    let mut cpu = cpu_with(vec![0x76, 0x00]);
    cpu.step();
    assert!(cpu.halted);
    cpu.step();
    assert!(cpu.halted);
    assert_eq!(cpu.registers.pc, 1);
    cpu.mmu.write_byte(0xffff, 0x01);
    cpu.mmu.write_byte(0xff0f, 0x01);
    cpu.step();
    assert!(!cpu.halted);
}

#[test]
fn word_round_trip_little_endian() {
    let mut mmu = MMU::new();
    for &a in &[0xc000u16, 0xdffe, 0xe100, 0xff80, 0xfffd, 0x8000, 0xfe00] {
        mmu.write_word(a, 0xbeef);
        assert_eq!(mmu.read_word(a), 0xbeef);
        assert_eq!(mmu.read_byte(a), 0xef);
        assert_eq!(mmu.read_byte(a + 1), 0xbe);
    }
}

#[test]
fn echo_ram_mirrors_work_ram() {
    let mut mmu = MMU::new();
    mmu.write_byte(0xc010, 0x77);
    assert_eq!(mmu.read_byte(0xe010), 0x77);
    mmu.write_byte(0xfdff, 0x66);
    assert_eq!(mmu.read_byte(0xddff), 0x66);
    mmu.write_byte(0xfea0, 0x55);
    assert_eq!(mmu.read_byte(0xfea0), 0);
    assert_eq!(mmu.read_byte(0xff10), 0);
}

#[test]
fn boot_overlay_is_one_way() {
    let mut boot = vec![0x00; 256];
    boot[0x00] = 0x31;
    boot[0xff] = 0x50;
    let mut mmu = MMU::with_boot_rom(boot);
    mmu.load_cartridge(Cartridge::new(vec![0xaa; 0x8000]));
    assert_eq!(mmu.read_byte(0x0000), 0x31);
    assert_eq!(mmu.read_byte(0x00ff), 0x50);
    assert_eq!(mmu.read_byte(0x0100), 0xaa);
    mmu.write_byte(0xff50, 0x00);
    assert_eq!(mmu.read_byte(0x0000), 0xaa);
    for &a in &[0xff50u16, 0x0000, 0x2000, 0xff46] {
        mmu.write_byte(a, 0x01);
        assert!(!mmu.bootroom_enabled);
    }
    mmu.step(200);
    assert!(!mmu.bootroom_enabled);
    assert_eq!(mmu.read_byte(0x0000), 0xaa);
}

#[test]
fn cpu_leaves_boot_rom_at_0100() {
    let mut mmu = MMU::with_boot_rom(vec![0x00; 256]);
    let mut rom = vec![0x00; 0x101];
    rom[0x100] = 0x10;
    mmu.load_cartridge(Cartridge::new(rom));
    let mut cpu = CPU::new(mmu);
    let mut steps = 0;
    while !cpu.stopped && steps < 1000 {
        cpu.step();
        steps += 1;
    }
    assert!(cpu.stopped);
    assert!(!cpu.mmu.bootroom_enabled);
}

#[test]
fn dma_copies_to_oam() {
    let mut mmu = MMU::new();
    for i in 0..0xa0u16 {
        mmu.write_byte(0xc000 + i, i as u8);
    }
    mmu.write_byte(0xff46, 0xc0);
    for i in 0..0xa0u16 {
        assert_eq!(mmu.gpu.oam[i as usize], i as u8);
        assert_eq!(mmu.read_byte(0xfe00 + i), i as u8);
    }
}

#[test]
fn cartridge_ram_gate() {
    let mut cart = Cartridge::new(vec![0x11; 0x8000]);
    cart.write_byte(0xa000, 0x42);
    assert_eq!(cart.read_byte(0xa000), 0);
    cart.write_byte(0x0000, 0x1a);
    assert!(cart.ram_enabled);
    cart.write_byte(0xa000, 0x42);
    cart.write_byte(0xbfff, 0x43);
    assert_eq!(cart.read_byte(0xa000), 0x42);
    assert_eq!(cart.read_byte(0xbfff), 0x43);
    cart.write_byte(0x1fff, 0x0b);
    assert!(!cart.ram_enabled);
    assert_eq!(cart.read_byte(0xa000), 0);
    cart.write_byte(0x1000, 0x0a);
    assert_eq!(cart.read_byte(0xa000), 0x42);
    assert_eq!(cart.read_byte(0x7fff), 0x11);
    assert_eq!(cart.read_byte(0x0000), 0x11);
    assert_eq!(cart.size(), 0x8000);
    let short = Cartridge::new(vec![0x22; 4]);
    assert_eq!(short.read_byte(0x0004), 0);
    assert_eq!(short.read_byte(0x0003), 0x22);
}

#[test]
fn timer_overflow_reloads_and_interrupts() {
    let mut mmu = MMU::new();
    mmu.write_byte(0xff06, 0x42);
    mmu.write_byte(0xff05, 0xff);
    mmu.write_byte(0xff07, 0x05);
    mmu.step(15);
    assert_eq!(mmu.read_byte(0xff05), 0xff);
    assert_eq!(mmu.read_byte(0xff0f) & 0x04, 0);
    mmu.step(1);
    assert_eq!(mmu.read_byte(0xff05), 0x42);
    assert_eq!(mmu.read_byte(0xff0f) & 0x04, 0x04);
}

#[test]
fn timer_counts_at_each_clock() {
    for &(tac, period) in &[(0x04u8, 1024u32), (0x05, 16), (0x06, 64), (0x07, 256)] {
        let mut t = Timer::new();
        t.write_byte(0xff07, tac);
        assert_eq!(t.read_byte(0xff07), tac);
        let mut spent = 0;
        while spent < period * 3 {
            t.step(8);
            spent += 8;
        }
        assert_eq!(t.read_byte(0xff05), 3);
    }
    let mut t = Timer::new();
    for _ in 0..64 {
        t.step(8);
    }
    assert_eq!(t.read_byte(0xff04), 2);
    assert_eq!(t.read_byte(0xff05), 0);
    t.write_byte(0xff04, 0x99);
    assert_eq!(t.read_byte(0xff04), 0);
}

#[test]
fn gpu_mode_machine() {
    let mut gpu = GPU::new();
    assert_eq!(gpu.line_mode, LineMode::OAMRead);
    assert_eq!(gpu.step(79), 0);
    assert_eq!(gpu.line_mode, LineMode::OAMRead);
    gpu.step(1);
    assert_eq!(gpu.line_mode, LineMode::VRAMRead);
    gpu.step(172);
    assert_eq!(gpu.line_mode, LineMode::HBlank);
    gpu.step(204);
    assert_eq!(gpu.line_mode, LineMode::OAMRead);
    assert_eq!(gpu.read_byte(0xff44), 1);
    let mut raised = 0;
    for _ in 0..(143 * 456 / 8) {
        raised |= gpu.step(8);
    }
    assert_eq!(gpu.line_mode, LineMode::VBlank);
    assert_eq!(gpu.read_byte(0xff44), 144);
    assert_eq!(raised & 1, 1);
    for _ in 0..(10 * 456 / 8) {
        gpu.step(8);
    }
    assert_eq!(gpu.read_byte(0xff44), 0);
    assert_eq!(gpu.line_mode, LineMode::OAMRead);
}

#[test]
fn gpu_coincidence_interrupt() {
    let mut gpu = GPU::new();
    gpu.write_byte(0xff45, 2);
    gpu.write_byte(0xff41, 0x40);
    let mut raised = 0;
    for _ in 0..(2 * 456 / 8) {
        raised |= gpu.step(8);
    }
    assert_eq!(raised & 2, 2);
    assert_eq!(gpu.read_byte(0xff41) & 0x44, 0x44);
}

#[test]
fn gpu_display_off_holds_line() {
    let mut gpu = GPU::new();
    gpu.write_byte(0xff40, 0x00);
    assert_eq!(gpu.step(200), 0);
    assert_eq!(gpu.read_byte(0xff44), 0);
    assert_eq!(gpu.line_mode, LineMode::HBlank);
    gpu.write_byte(0xff40, 0x91);
    assert_eq!(gpu.read_byte(0xff40), 0x91);
}

#[test]
fn palettes_round_trip() {
    let mut gpu = GPU::new();
    gpu.write_byte(0xff47, 0xe4);
    assert_eq!(gpu.read_byte(0xff47), 0xe4);
    assert_eq!(gpu.regs.bg_palette, (Shade::White, Shade::LightGray, Shade::DarkGray, Shade::Black));
    gpu.write_byte(0xff49, 0x1b);
    assert_eq!(gpu.read_byte(0xff49), 0x1b);
    assert_eq!(Shade::from_u8(2).to_u8(), 2);
}

#[test]
fn joypad_active_low() {
    let mut pad = Joypad::new();
    pad.set_button(Button::A, true);
    pad.set_button(Button::Down, true);
    pad.write_byte(0xff00, 0x10);
    assert_eq!(pad.read_byte(0xff00), 0xde);
    pad.write_byte(0xff00, 0x20);
    assert_eq!(pad.read_byte(0xff00), 0xe7);
    pad.write_byte(0xff00, 0x30);
    assert_eq!(pad.read_byte(0xff00), 0xff);
}

#[test]
fn debugger_breakpoints() {
    let mut d = Debugger::new();
    d.add_pc_break(0x0150);
    d.add_instr_break(0x76);
    d.set_pc(0x0100);
    d.set_instruction(0x00);
    assert!(!d.debug());
    d.set_pc(0x0150);
    assert!(d.debug());
    d.set_pc(0x0200);
    d.set_instruction(0x76);
    assert!(d.debug());
    assert!(d.delete_break(1));
    assert!(!d.debug());
    assert!(!d.delete_break(5));
    d.request_step();
    assert!(d.debug());
    assert!(!d.debug());
}

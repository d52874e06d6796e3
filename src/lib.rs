//! Core of a Game Boy (DMG) emulator: the LR35902 interpreter, the memory bus
//! and the devices behind it, each with its behaviour stated as a contract.
pub mod cartridge;
pub mod cpu;
pub mod debugger;
pub mod gpu;
pub mod joypad;
pub mod memory_map;
pub mod mmu;
pub mod timer;

//! Verified core of a DMG (first-model Game Boy) emulator: SM83 CPU, cartridge
//! MBCs, PPU, timer, joypad, serial port, sound channels, and the
//! debugger's decoding helpers.
pub mod cpu;
pub mod text;
pub mod cartridge;
pub mod timer;
pub mod joypad;
pub mod serial;
pub mod ppu;
pub mod apu;
pub mod mmu;
pub mod system;
pub mod debug;
pub mod ui;
pub mod log_ring;
pub mod video;

# gb_core

The emulation core of a terminal Game Boy (DMG) emulator, written in Verus:
the SM83 CPU with its interrupt/HALT/EI rules, the memory map with OAM DMA,
the PPU's mode sequencer and scanline renderer, timer, joypad, serial port,
cartridge MBCs with battery RAM and the MBC3 clock, the APU's channels and
frame sequencer, and the debugger's text panels (disassembly, hex dump,
status sidebar, VRAM and OAM views, breakpoints and watchpoints).

Every function in `src/` carries a contract proved by Verus, with one
exception: `text::lossy_string`, whose body calls std's
`String::from_utf8_lossy`, has a contract that is trusted, not proved (its
result is named `text::utf8_lossy`; ASCII input decodes one character per
byte). The main
properties are stated as proof functions next to the code they describe
(`cpu/properties.rs`, and at the end of `mmu.rs`, `ppu.rs`, `apu/mod.rs`,
`cartridge.rs`, `joypad.rs`, `debug/disasm.rs`, `debug/breakpoints.rs`,
`ui.rs`).

`app/` is the terminal frontend around the library: argument parsing,
terminal setup, keyboard input, drawing with `ratatui`, audio output
(mixing to floating-point samples happens here), `.sav` files and logging.

Full save states (snapshots of the whole machine) are not provided: they
would need a serialisable mirror of every library type, much of whose
state is private, and the frontend has no key bound to them. Battery-backed
`.sav` files are supported.

`tests/` exercises the library on concrete values.

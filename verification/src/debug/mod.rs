//! Debugger support: disassembly, breakpoints and the text shown by the
//! debug panels.
pub mod breakpoints;
pub mod disasm;
pub mod log_panel;
pub mod memory;
pub mod overlay;
pub mod registers;
pub mod status;
pub mod vram;

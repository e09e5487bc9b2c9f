//! A Nintendo Game Boy emulator core: instruction decoding and execution,
//! the memory map, the pixel processing unit, the system clock and a
//! debugger that can pause, step and rewind the machine.

pub mod backend;
pub mod util;
pub mod emu;
pub mod debugger;

//! A CHIP-8 interpreter core: machine state, instruction decoding and
//! execution, timers and keypad, with every step stated against a
//! mathematical model of the machine.
pub mod instruction;
pub mod machine;
pub mod cpu;
pub mod laws;
pub mod rom_loader;

pub use cpu::{Cpu, CpuError, RomLoadResult};
pub use instruction::{Instr, decode};
pub use rom_loader::{LoadStatus, RomLoader};

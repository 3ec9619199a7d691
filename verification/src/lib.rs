//! A MOS 6502 CPU core with a memory bus, as used by the NES.

pub mod flags;
pub mod error;
pub mod interrupts;
pub mod memory;
pub mod nes;
pub mod bus;
pub mod ops;
pub mod model;
pub mod cpu;
pub mod properties;
pub mod trace;

pub use cpu::Mos6502;
pub use flags::CpuFlags;

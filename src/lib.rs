pub mod alu;
pub mod arith;
pub mod atari2600;
pub mod audio;
pub mod counter;
pub mod cpu_6502_cpu;
pub mod cpu_6505;
pub mod decode;
pub mod palette;
pub mod riot;
pub mod tia;

pub use cpu_6502_cpu::{Registers, MOS6502};
pub use cpu_6505::{AccessType, AddressBus, AddressMode, BusOp, Instruction, Mnemonic};
pub use decode::decode;
pub use palette::palette_rgb;

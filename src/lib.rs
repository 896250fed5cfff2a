pub mod bits;
pub mod cpu;
pub mod laws;
pub mod names;

pub use cpu::{Access, Cpu, CpuRegister, CpuRegisterPair, RegisterError, RegisterFile, Width};
pub use names::{ByteReg, FlagName, PairReg, RegName};

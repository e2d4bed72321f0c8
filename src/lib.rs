//! A verified fetch-decode-execute engine for the 16-bit Hack computer:
//! instruction decode tables, the ALU, a data memory whose screen range
//! turns writes into pixel events, and a loader for binary program text.

pub mod isa;
pub mod memory;
pub mod emu;
pub mod loader;
pub mod laws;

pub use emu::Emu;
pub use loader::LoadError;
pub use memory::PixelEvent;

//! Emulation of the x86 instructions that the host hands back on an access
//! to device memory.

pub mod cpu;
pub mod decode;
pub mod mov;
pub mod platform;

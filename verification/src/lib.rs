//! Device-emulation core of a small x86_64 virtual machine monitor: the
//! virtio split-queue transport, the I/O APIC register model, the MOV
//! instruction emulator, and the parsing of the machine's configuration.

pub mod config;
pub mod emulator;
pub mod endian;
mod fence;
pub mod guest_memory;
pub mod ioapic;
pub mod net;
pub mod option_parser;
pub mod queue;
pub mod testing;
pub mod text;

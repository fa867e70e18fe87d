//! What the emulator asks of the virtual machine that it runs in.

use crate::emulator::cpu::CpuState;
use vstd::prelude::*;

verus! {

/// Why the platform could not do what was asked.
#[derive(Clone, Copy, Debug, PartialEq, Eq, Structural)]
pub enum PlatformError {
    InvalidAddress,
    InvalidOperand,
    InvalidRegister,
    InvalidState,
    MemoryReadFailure,
    MemoryWriteFailure,
    GetCpuStateFailure,
    SetCpuStateFailure,
    TranslateVirtualAddress,
    UnsupportedCpuMode,
}

/// An exception of the processor, by the name of its vector.
#[derive(Clone, Copy, Debug, PartialEq, Eq, Structural)]
pub enum Exception {
    DE,
    DB,
    BP,
    OF,
    BR,
    UD,
    NM,
    DF,
    TS,
    NP,
    SS,
    GP,
    PF,
    MF,
    AC,
    MC,
    XM,
    VE,
    CP,
}

impl Exception {
    /// The vector of the exception.
    pub fn vector(&self) -> (r: u8)
        ensures
            r < 32,
            r == match self {
                Exception::DE => 0u8,
                Exception::DB => 1u8,
                Exception::BP => 3u8,
                Exception::OF => 4u8,
                Exception::BR => 5u8,
                Exception::UD => 6u8,
                Exception::NM => 7u8,
                Exception::DF => 8u8,
                Exception::TS => 10u8,
                Exception::NP => 11u8,
                Exception::SS => 12u8,
                Exception::GP => 13u8,
                Exception::PF => 14u8,
                Exception::MF => 16u8,
                Exception::AC => 17u8,
                Exception::MC => 18u8,
                Exception::XM => 19u8,
                Exception::VE => 20u8,
                Exception::CP => 21u8,
            },
    {
        match self {
            Exception::DE => 0,
            Exception::DB => 1,
            Exception::BP => 3,
            Exception::OF => 4,
            Exception::BR => 5,
            Exception::UD => 6,
            Exception::NM => 7,
            Exception::DF => 8,
            Exception::TS => 10,
            Exception::NP => 11,
            Exception::SS => 12,
            Exception::GP => 13,
            Exception::PF => 14,
            Exception::MF => 16,
            Exception::AC => 17,
            Exception::MC => 18,
            Exception::XM => 19,
            Exception::VE => 20,
            Exception::CP => 21,
        }
    }
}

/// Why an instruction was not emulated.
#[derive(Clone, Copy, Debug, PartialEq, Eq)]
pub enum EmulationError<T> {
    /// The bytes do not hold a whole instruction.
    InsufficientBytes,
    /// The instruction is none that the emulator knows.
    UnsupportedInstruction,
    /// The instruction raises an exception in the guest.
    InstructionException(T),
    /// The platform failed.
    PlatformEmulationError(PlatformError),
}

/// The virtual machine as the emulator sees it: the memory of the guest by
/// virtual address, and the registers of its processors. An implementation
/// answers as its machine stands; nothing is taken for granted about the
/// answers.
pub trait PlatformEmulator {
    /// The `len` bytes of guest memory at the virtual address `gva`.
    fn read_memory(&self, gva: u64, len: usize) -> Result<Vec<u8>, PlatformError>;

    /// Stores `data` in guest memory at the virtual address `gva`.
    fn write_memory(&mut self, gva: u64, data: &[u8]) -> Result<(), PlatformError>;

    /// A snapshot of the registers of the processor `cpu_id`.
    fn cpu_state(&self, cpu_id: usize) -> Result<CpuState, PlatformError>;

    /// Puts `state` in place as the registers of the processor `cpu_id`.
    fn set_cpu_state(&mut self, cpu_id: usize, state: CpuState) -> Result<(), PlatformError>;
}

} // verus!

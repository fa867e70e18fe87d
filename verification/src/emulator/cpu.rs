//! The registers of a virtual processor.

use vstd::prelude::*;

verus! {

/// A general-purpose register of 64 bits, in the order of its number:
/// `RAX` is 0, `RCX` 1, `RDX` 2, `RBX` 3, and so on to `R15`.
#[derive(Clone, Copy, Debug, PartialEq, Eq, Hash, Structural)]
pub enum Gpr {
    Rax,
    Rcx,
    Rdx,
    Rbx,
    Rsp,
    Rbp,
    Rsi,
    Rdi,
    R8,
    R9,
    R10,
    R11,
    R12,
    R13,
    R14,
    R15,
}

/// A register by name: a general-purpose register or a part of one, or the
/// instruction pointer.
#[derive(Clone, Copy, Debug, PartialEq, Eq, Hash, Structural)]
pub enum Register {
    /// Bits 7-0, as `AL` is of `RAX`.
    Byte(Gpr),
    /// Bits 15-8, as `AH` is of `RAX`. The first four registers have one.
    HighByte(Gpr),
    /// Bits 15-0, as `AX` is of `RAX`.
    Word(Gpr),
    /// Bits 31-0, as `EAX` is of `RAX`.
    Dword(Gpr),
    /// The whole register.
    Qword(Gpr),
    /// The instruction pointer.
    Rip,
}

/// The number of a general-purpose register.
pub open spec fn gpr_number(r: Gpr) -> int {
    match r {
        Gpr::Rax => 0,
        Gpr::Rcx => 1,
        Gpr::Rdx => 2,
        Gpr::Rbx => 3,
        Gpr::Rsp => 4,
        Gpr::Rbp => 5,
        Gpr::Rsi => 6,
        Gpr::Rdi => 7,
        Gpr::R8 => 8,
        Gpr::R9 => 9,
        Gpr::R10 => 10,
        Gpr::R11 => 11,
        Gpr::R12 => 12,
        Gpr::R13 => 13,
        Gpr::R14 => 14,
        Gpr::R15 => 15,
    }
}

impl Gpr {
    /// The number of the register.
    pub fn number(&self) -> (r: usize)
        ensures
            r == gpr_number(*self),
            r < 16,
    {
        match self {
            Gpr::Rax => 0,
            Gpr::Rcx => 1,
            Gpr::Rdx => 2,
            Gpr::Rbx => 3,
            Gpr::Rsp => 4,
            Gpr::Rbp => 5,
            Gpr::Rsi => 6,
            Gpr::Rdi => 7,
            Gpr::R8 => 8,
            Gpr::R9 => 9,
            Gpr::R10 => 10,
            Gpr::R11 => 11,
            Gpr::R12 => 12,
            Gpr::R13 => 13,
            Gpr::R14 => 14,
            Gpr::R15 => 15,
        }
    }

    /// The register with the number `n`.
    pub fn from_number(n: usize) -> (r: Option<Gpr>)
        ensures
            r is Some <==> n < 16,
            r matches Some(g) ==> gpr_number(g) == n,
    {
        match n {
            0 => Some(Gpr::Rax),
            1 => Some(Gpr::Rcx),
            2 => Some(Gpr::Rdx),
            3 => Some(Gpr::Rbx),
            4 => Some(Gpr::Rsp),
            5 => Some(Gpr::Rbp),
            6 => Some(Gpr::Rsi),
            7 => Some(Gpr::Rdi),
            8 => Some(Gpr::R8),
            9 => Some(Gpr::R9),
            10 => Some(Gpr::R10),
            11 => Some(Gpr::R11),
            12 => Some(Gpr::R12),
            13 => Some(Gpr::R13),
            14 => Some(Gpr::R14),
            15 => Some(Gpr::R15),
            _ => None,
        }
    }
}

impl Register {
    /// Bytes of the register.
    pub open spec fn spec_size(&self) -> int {
        match self {
            Register::Byte(_) => 1,
            Register::HighByte(_) => 1,
            Register::Word(_) => 2,
            Register::Dword(_) => 4,
            Register::Qword(_) => 8,
            Register::Rip => 8,
        }
    }

    /// Bytes of the register.
    pub fn size(&self) -> (r: usize)
        ensures
            r == self.spec_size(),
    {
        match self {
            Register::Byte(_) => 1,
            Register::HighByte(_) => 1,
            Register::Word(_) => 2,
            Register::Dword(_) => 4,
            Register::Qword(_) => 8,
            Register::Rip => 8,
        }
    }
}

/// The value of the part `reg` of a general-purpose register that holds
/// `full`.
pub open spec fn part_of(reg: Register, full: u64) -> u64 {
    match reg {
        Register::Byte(_) => full & 0xff,
        Register::HighByte(_) => (full >> 8) & 0xff,
        Register::Word(_) => full & 0xffff,
        Register::Dword(_) => full & 0xffff_ffff,
        Register::Qword(_) => full,
        Register::Rip => full,
    }
}

/// What a general-purpose register holds once `val` is written to its part
/// `reg`, when it held `full`. A write to a byte or a word leaves the other
/// bits; a write to the low half clears the high half.
pub open spec fn with_part(reg: Register, full: u64, val: u64) -> u64 {
    match reg {
        Register::Byte(_) => (full & !0xffu64) | (val & 0xff),
        Register::HighByte(_) => (full & !0xff00u64) | ((val & 0xff) << 8),
        Register::Word(_) => (full & !0xffffu64) | (val & 0xffff),
        Register::Dword(_) => val & 0xffff_ffff,
        Register::Qword(_) => val,
        Register::Rip => val,
    }
}

/// The registers as values: the sixteen general-purpose registers by
/// number, and the instruction pointer.
pub struct CpuStateView {
    pub regs: Seq<u64>,
    pub ip: u64,
}

impl CpuStateView {
    /// The general-purpose register that `reg` is or is a part of.
    pub open spec fn full_of(reg: Register) -> Option<Gpr> {
        match reg {
            Register::Byte(g) => Some(g),
            Register::HighByte(g) => Some(g),
            Register::Word(g) => Some(g),
            Register::Dword(g) => Some(g),
            Register::Qword(g) => Some(g),
            Register::Rip => None,
        }
    }

    /// What the register `reg` holds.
    pub open spec fn read(self, reg: Register) -> u64 {
        match Self::full_of(reg) {
            Some(g) => part_of(reg, self.regs[gpr_number(g)]),
            None => self.ip,
        }
    }

    /// The registers once `val` is written to `reg`.
    pub open spec fn write(self, reg: Register, val: u64) -> CpuStateView {
        match Self::full_of(reg) {
            Some(g) => CpuStateView {
                regs: self.regs.update(
                    gpr_number(g),
                    with_part(reg, self.regs[gpr_number(g)], val),
                ),
                ..self
            },
            None => CpuStateView { ip: val, ..self },
        }
    }

    /// The registers with the instruction pointer at `ip`.
    pub open spec fn at(self, ip: u64) -> CpuStateView {
        CpuStateView { ip, ..self }
    }
}

/// The registers of a virtual processor.
#[derive(Clone, Copy, Debug, PartialEq, Eq)]
pub struct CpuState {
    pub regs: [u64; 16],
    pub ip: u64,
}

impl View for CpuState {
    type V = CpuStateView;

    open spec fn view(&self) -> CpuStateView {
        CpuStateView { regs: self.regs@, ip: self.ip }
    }
}

impl CpuState {
    /// A processor with every register at zero and the instruction pointer
    /// at `ip`.
    pub fn new(ip: u64) -> (r: CpuState)
        ensures
            r@.ip == ip,
            r@.regs.len() == 16,
            forall|i: int| 0 <= i < 16 ==> r@.regs[i] == 0,
    {
        CpuState { regs: [0u64;16], ip }
    }

    /// The general-purpose register that `reg` is or is a part of.
    fn full(reg: Register) -> (r: Option<Gpr>)
        ensures
            r == CpuStateView::full_of(reg),
    {
        match reg {
            Register::Byte(g) => Some(g),
            Register::HighByte(g) => Some(g),
            Register::Word(g) => Some(g),
            Register::Dword(g) => Some(g),
            Register::Qword(g) => Some(g),
            Register::Rip => None,
        }
    }

    /// What the register `reg` holds.
    pub fn read_reg(&self, reg: Register) -> (r: u64)
        ensures
            r == self@.read(reg),
    {
        let full: u64 = match Self::full(reg) {
            Some(g) => self.regs[g.number()],
            None => {
                return self.ip;
            },
        };
        match reg {
            Register::Byte(_) => full & 0xff,
            Register::HighByte(_) => (full >> 8) & 0xff,
            Register::Word(_) => full & 0xffff,
            Register::Dword(_) => full & 0xffff_ffff,
            Register::Qword(_) => full,
            Register::Rip => full,
        }
    }

    /// Writes `val` to the register `reg`.
    pub fn write_reg(&mut self, reg: Register, val: u64)
        ensures
            final(self)@ == old(self)@.write(reg, val),
    {
        let g: Gpr = match Self::full(reg) {
            Some(g) => g,
            None => {
                self.ip = val;
                return ;
            },
        };
        let n: usize = g.number();
        let full: u64 = self.regs[n];
        let value: u64 = match reg {
            Register::Byte(_) => (full & !0xffu64) | (val & 0xff),
            Register::HighByte(_) => (full & !0xff00u64) | ((val & 0xff) << 8),
            Register::Word(_) => (full & !0xffffu64) | (val & 0xffff),
            Register::Dword(_) => val & 0xffff_ffff,
            Register::Qword(_) => val,
            Register::Rip => val,
        };
        self.regs[n] = value;
    }

    /// The instruction pointer.
    pub fn ip(&self) -> (r: u64)
        ensures
            r == self@.ip,
    {
        self.ip
    }

    /// Moves the instruction pointer to `ip`.
    pub fn set_ip(&mut self, ip: u64)
        ensures
            final(self)@ == old(self)@.at(ip),
    {
        self.ip = ip;
    }
}

/// A whole register holds what was written to it; a part holds the bits of
/// what was written that fit it.
pub proof fn lemma_read_after_write(s: CpuStateView, reg: Register, val: u64)
    requires
        s.regs.len() == 16,
    ensures
        s.write(reg, val).read(reg) == match reg {
            Register::Byte(_) => val & 0xff,
            Register::HighByte(_) => val & 0xff,
            Register::Word(_) => val & 0xffff,
            Register::Dword(_) => val & 0xffff_ffff,
            Register::Qword(_) => val,
            Register::Rip => val,
        },
{
    match CpuStateView::full_of(reg) {
        Some(g) => {
            let full = s.regs[gpr_number(g)];
            assert({
                &&& ((full & !0xffu64) | (val & 0xff)) & 0xff == val & 0xff
                &&& (((full & !0xff00u64) | ((val & 0xff) << 8)) >> 8) & 0xff == val & 0xff
                &&& ((full & !0xffffu64) | (val & 0xffff)) & 0xffff == val & 0xffff
                &&& (val & 0xffff_ffff) & 0xffff_ffff == val & 0xffff_ffff
            }) by (bit_vector);
        },
        None => {},
    }
}

} // verus!

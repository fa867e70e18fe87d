//! Decoded instructions.
//!
//! The decoder is `iced_x86`. What it makes of the first instruction of
//! some bytes is read one property at a time; each property is a function
//! of the bytes and of the address that they are taken to stand at, and
//! has a name here. What the properties mean to the emulator is worked out
//! from the names.

use crate::emulator::cpu::gpr_number;
use crate::emulator::cpu::Gpr;
use crate::emulator::cpu::Register;
use iced_x86::Decoder;
use iced_x86::DecoderOptions;
use iced_x86::OpKind;
use vstd::prelude::*;

verus! {

/// The MOV instructions that are emulated, by destination and source:
/// `r` is a register, `rm` a register or memory, `imm` an immediate, each
/// with its number of bits.
#[derive(Clone, Copy, Debug, PartialEq, Eq, Structural)]
pub enum Code {
    MovR8Rm8,
    MovR8Imm8,
    MovR16Rm16,
    MovR16Imm16,
    MovR32Rm32,
    MovR32Imm32,
    MovR64Rm64,
    MovR64Imm64,
    MovRm8Imm8,
    MovRm8R8,
    MovRm16Imm16,
    MovRm16R16,
    MovRm32Imm32,
    MovRm32R32,
    MovRm64Imm32,
    MovRm64R64,
    /// Any other instruction.
    Unsupported,
}

/// A memory operand: `base + index * scale + displacement`.
#[derive(Clone, Copy, Debug, PartialEq, Eq, Structural)]
pub struct MemoryOperand {
    pub base: Option<Register>,
    pub index: Option<Register>,
    pub scale: u32,
    pub displacement: u64,
}

/// An operand of an instruction.
#[derive(Clone, Copy, Debug, PartialEq, Eq, Structural)]
pub enum Operand {
    Register(Register),
    Memory(MemoryOperand),
    /// An immediate, extended to 64 bits as the instruction extends it.
    Immediate(u64),
    /// An operand of another kind, or none.
    Unsupported,
}

/// A decoded instruction, as far as the emulator reads it.
#[derive(Clone, Copy, Debug, PartialEq, Eq, Structural)]
pub struct Insn {
    pub code: Code,
    /// The destination.
    pub op0: Operand,
    /// The source.
    pub op1: Operand,
    /// Address of the instruction.
    pub ip: u64,
    /// Address of the instruction behind it.
    pub next_ip: u64,
    /// Bytes of the instruction.
    pub len: usize,
}

/// The kind of an operand, as far as the emulator tells kinds apart.
#[derive(Clone, Copy, Debug, PartialEq, Eq, Structural)]
pub enum OperandKind {
    Register,
    Memory,
    /// An immediate, or a kind that is not emulated.
    Other,
}

/// The decoder's number of the code of no instruction.
pub const CODE_INVALID: usize = 0;

/// The decoder's number of no register.
pub const REGISTER_NONE: usize = 0;

/// The decoder's number of the instruction pointer of 32 bits.
pub const REGISTER_EIP: usize = 69;

/// The decoder's number of the instruction pointer of 64 bits.
pub const REGISTER_RIP: usize = 70;

/// Bytes of the first instruction of `bytes`.
pub uninterp spec fn decoded_len(bytes: Seq<u8>, ip: u64) -> usize;

/// The decoder's number of the code of the first instruction of `bytes`.
pub uninterp spec fn decoded_code(bytes: Seq<u8>, ip: u64) -> usize;

/// Address of the instruction behind the first instruction of `bytes`.
pub uninterp spec fn decoded_next_ip(bytes: Seq<u8>, ip: u64) -> u64;

/// Kind of an operand of the first instruction of `bytes`.
pub uninterp spec fn decoded_op_kind(bytes: Seq<u8>, ip: u64, operand: u32) -> OperandKind;

/// Value of an operand of the first instruction of `bytes`, if the operand
/// is an immediate.
pub uninterp spec fn decoded_immediate(bytes: Seq<u8>, ip: u64, operand: u32) -> Option<u64>;

/// The decoder's number of the register that an operand of the first
/// instruction of `bytes` is.
pub uninterp spec fn decoded_op_register(bytes: Seq<u8>, ip: u64, operand: u32) -> usize;

/// The decoder's number of the base register of the memory operand of the
/// first instruction of `bytes`.
pub uninterp spec fn decoded_memory_base(bytes: Seq<u8>, ip: u64) -> usize;

/// The decoder's number of the index register of the memory operand of
/// the first instruction of `bytes`.
pub uninterp spec fn decoded_memory_index(bytes: Seq<u8>, ip: u64) -> usize;

/// Scale of the index register of the memory operand of the first
/// instruction of `bytes`.
pub uninterp spec fn decoded_memory_index_scale(bytes: Seq<u8>, ip: u64) -> u32;

/// Displacement of the memory operand of the first instruction of
/// `bytes`, or its address where it is relative to the instruction
/// pointer.
pub uninterp spec fn decoded_memory_displacement(bytes: Seq<u8>, ip: u64) -> u64;

/// `iced_x86::Decoder::with_ip` for 64-bit code, `Decoder::decode` and
/// `Instruction::len`: the length of the first instruction of `bytes`,
/// taken to stand at the address `ip`.
#[verifier::external_body]
pub(crate) fn insn_len(bytes: &[u8], ip: u64) -> (r: usize)
    ensures
        r == decoded_len(bytes@, ip),
{
    Decoder::with_ip(64, bytes, ip, DecoderOptions::NONE).decode().len()
}

/// `iced_x86::Instruction::code` of the first instruction of `bytes`, as
/// the number that the decoder gives the code.
#[verifier::external_body]
pub(crate) fn insn_code(bytes: &[u8], ip: u64) -> (r: usize)
    ensures
        r == decoded_code(bytes@, ip),
{
    Decoder::with_ip(64, bytes, ip, DecoderOptions::NONE).decode().code() as usize
}

/// `iced_x86::Instruction::next_ip` of the first instruction of `bytes`.
#[verifier::external_body]
pub(crate) fn insn_next_ip(bytes: &[u8], ip: u64) -> (r: u64)
    ensures
        r == decoded_next_ip(bytes@, ip),
{
    Decoder::with_ip(64, bytes, ip, DecoderOptions::NONE).decode().next_ip()
}

/// `iced_x86::Instruction::op_kind` of the first instruction of `bytes`,
/// as far as it tells a register and memory at `base + index * scale +
/// displacement` from the other kinds. An operand number above 4 is an
/// error to the decoder.
#[verifier::external_body]
pub(crate) fn insn_op_kind(bytes: &[u8], ip: u64, operand: u32) -> (r: OperandKind)
    requires
        operand <= 4,
    ensures
        r == decoded_op_kind(bytes@, ip, operand),
{
    match Decoder::with_ip(64, bytes, ip, DecoderOptions::NONE).decode().op_kind(operand) {
        OpKind::Register => OperandKind::Register,
        OpKind::Memory => OperandKind::Memory,
        _ => OperandKind::Other,
    }
}

/// `iced_x86::Instruction::try_immediate` of the first instruction of
/// `bytes`: the operand's value extended to 64 bits, if the operand is an
/// immediate.
#[verifier::external_body]
pub(crate) fn insn_immediate(bytes: &[u8], ip: u64, operand: u32) -> (r: Option<u64>)
    ensures
        r == decoded_immediate(bytes@, ip, operand),
{
    Decoder::with_ip(64, bytes, ip, DecoderOptions::NONE).decode().try_immediate(operand).ok()
}

/// `iced_x86::Instruction::op_register` of the first instruction of
/// `bytes`, as the number that the decoder gives the register. An operand
/// number above 4 is an error to the decoder.
#[verifier::external_body]
pub(crate) fn insn_op_register(bytes: &[u8], ip: u64, operand: u32) -> (r: usize)
    requires
        operand <= 4,
    ensures
        r == decoded_op_register(bytes@, ip, operand),
{
    Decoder::with_ip(64, bytes, ip, DecoderOptions::NONE).decode().op_register(operand) as usize
}

/// `iced_x86::Instruction::memory_base` of the first instruction of
/// `bytes`, as the number that the decoder gives the register.
#[verifier::external_body]
pub(crate) fn insn_memory_base(bytes: &[u8], ip: u64) -> (r: usize)
    ensures
        r == decoded_memory_base(bytes@, ip),
{
    Decoder::with_ip(64, bytes, ip, DecoderOptions::NONE).decode().memory_base() as usize
}

/// `iced_x86::Instruction::memory_index` of the first instruction of
/// `bytes`, as the number that the decoder gives the register.
#[verifier::external_body]
pub(crate) fn insn_memory_index(bytes: &[u8], ip: u64) -> (r: usize)
    ensures
        r == decoded_memory_index(bytes@, ip),
{
    Decoder::with_ip(64, bytes, ip, DecoderOptions::NONE).decode().memory_index() as usize
}

/// `iced_x86::Instruction::memory_index_scale` of the first instruction of
/// `bytes`.
#[verifier::external_body]
pub(crate) fn insn_memory_index_scale(bytes: &[u8], ip: u64) -> (r: u32)
    ensures
        r == decoded_memory_index_scale(bytes@, ip),
{
    Decoder::with_ip(64, bytes, ip, DecoderOptions::NONE).decode().memory_index_scale()
}

/// `iced_x86::Instruction::memory_displacement64` of the first
/// instruction of `bytes`.
#[verifier::external_body]
pub(crate) fn insn_memory_displacement(bytes: &[u8], ip: u64) -> (r: u64)
    ensures
        r == decoded_memory_displacement(bytes@, ip),
{
    Decoder::with_ip(64, bytes, ip, DecoderOptions::NONE).decode().memory_displacement64()
}

/// The code that the decoder gives the number `number`.
pub open spec fn spec_code(number: usize) -> Code {
    if number == 279 {
        Code::MovRm8R8
    } else if number == 280 {
        Code::MovRm16R16
    } else if number == 281 {
        Code::MovRm32R32
    } else if number == 282 {
        Code::MovRm64R64
    } else if number == 283 {
        Code::MovR8Rm8
    } else if number == 284 {
        Code::MovR16Rm16
    } else if number == 285 {
        Code::MovR32Rm32
    } else if number == 286 {
        Code::MovR64Rm64
    } else if number == 355 {
        Code::MovR8Imm8
    } else if number == 356 {
        Code::MovR16Imm16
    } else if number == 357 {
        Code::MovR32Imm32
    } else if number == 358 {
        Code::MovR64Imm64
    } else if number == 401 {
        Code::MovRm8Imm8
    } else if number == 403 {
        Code::MovRm16Imm16
    } else if number == 404 {
        Code::MovRm32Imm32
    } else if number == 405 {
        Code::MovRm64Imm32
    } else {
        Code::Unsupported
    }
}

/// The general-purpose register with the number `n`, for `n` below 16.
pub open spec fn spec_gpr(n: int) -> Gpr {
    choose|g: Gpr| gpr_number(g) == n
}

/// The register that the decoder gives the number `number`, if it is a
/// general-purpose register or a part of one. The decoder counts the
/// registers of one byte from 1: the low bytes of the first four, their
/// high bytes, the low bytes of the next four, those of the last eight;
/// then from 21, 37 and 53 the sixteen registers of two, four and eight
/// bytes.
pub open spec fn spec_register(number: usize) -> Option<Register> {
    if 1 <= number <= 4 {
        Some(Register::Byte(spec_gpr(number - 1)))
    } else if 5 <= number <= 8 {
        Some(Register::HighByte(spec_gpr(number - 5)))
    } else if 9 <= number <= 20 {
        Some(Register::Byte(spec_gpr(number - 5)))
    } else if 21 <= number <= 36 {
        Some(Register::Word(spec_gpr(number - 21)))
    } else if 37 <= number <= 52 {
        Some(Register::Dword(spec_gpr(number - 37)))
    } else if 53 <= number <= 68 {
        Some(Register::Qword(spec_gpr(number - 53)))
    } else {
        None
    }
}

/// The memory operand of the first instruction of `bytes`. An operand
/// relative to the instruction pointer has its address for displacement
/// and no register; a base or an index that the emulator does not have
/// makes the operand one that is not emulated.
pub open spec fn spec_memory_operand(bytes: Seq<u8>, ip: u64) -> Operand {
    let base = decoded_memory_base(bytes, ip);
    let index = decoded_memory_index(bytes, ip);
    let displacement = decoded_memory_displacement(bytes, ip);
    if base == REGISTER_RIP || base == REGISTER_EIP {
        Operand::Memory(MemoryOperand { base: None, index: None, scale: 1, displacement })
    } else if (base != REGISTER_NONE && spec_register(base) is None) || (index != REGISTER_NONE
        && spec_register(index) is None) {
        Operand::Unsupported
    } else {
        Operand::Memory(
            MemoryOperand {
                base: spec_register(base),
                index: spec_register(index),
                scale: decoded_memory_index_scale(bytes, ip),
                displacement,
            },
        )
    }
}

/// The operand `operand` of the first instruction of `bytes`.
pub open spec fn spec_operand(bytes: Seq<u8>, ip: u64, operand: u32) -> Operand {
    match decoded_op_kind(bytes, ip, operand) {
        OperandKind::Register => match spec_register(decoded_op_register(bytes, ip, operand)) {
            Some(reg) => Operand::Register(reg),
            None => Operand::Unsupported,
        },
        OperandKind::Memory => spec_memory_operand(bytes, ip),
        OperandKind::Other => match decoded_immediate(bytes, ip, operand) {
            Some(value) => Operand::Immediate(value),
            None => Operand::Unsupported,
        },
    }
}

/// The first instruction of `bytes`, taken to stand at the address `ip`,
/// if the bytes hold a whole instruction.
pub open spec fn spec_decode(bytes: Seq<u8>, ip: u64) -> Option<Insn> {
    let len = decoded_len(bytes, ip);
    if bytes.len() == 0 || decoded_code(bytes, ip) == CODE_INVALID || len == 0 || len
        > bytes.len() {
        None
    } else {
        Some(
            Insn {
                code: spec_code(decoded_code(bytes, ip)),
                op0: spec_operand(bytes, ip, 0),
                op1: spec_operand(bytes, ip, 1),
                ip,
                next_ip: decoded_next_ip(bytes, ip),
                len,
            },
        )
    }
}

/// Two registers with the same number are the same register.
pub proof fn lemma_gpr_by_number(a: Gpr, b: Gpr)
    requires
        gpr_number(a) == gpr_number(b),
    ensures
        a == b,
{
}

/// The code that the decoder gives the number `number`.
pub fn code_of(number: usize) -> (r: Code)
    ensures
        r == spec_code(number),
{
    match number {
        279 => Code::MovRm8R8,
        280 => Code::MovRm16R16,
        281 => Code::MovRm32R32,
        282 => Code::MovRm64R64,
        283 => Code::MovR8Rm8,
        284 => Code::MovR16Rm16,
        285 => Code::MovR32Rm32,
        286 => Code::MovR64Rm64,
        355 => Code::MovR8Imm8,
        356 => Code::MovR16Imm16,
        357 => Code::MovR32Imm32,
        358 => Code::MovR64Imm64,
        401 => Code::MovRm8Imm8,
        403 => Code::MovRm16Imm16,
        404 => Code::MovRm32Imm32,
        405 => Code::MovRm64Imm32,
        _ => Code::Unsupported,
    }
}

/// The general-purpose register with the number `n`.
fn gpr_of(n: usize) -> (r: Gpr)
    requires
        n < 16,
    ensures
        r == spec_gpr(n as int),
{
    match Gpr::from_number(n) {
        Some(g) => {
            proof {
                lemma_gpr_by_number(g, spec_gpr(n as int));
            }
            g
        },
        None => Gpr::Rax,
    }
}

/// The register that the decoder gives the number `number`.
pub fn register_of(number: usize) -> (r: Option<Register>)
    ensures
        r == spec_register(number),
{
    if 1 <= number && number <= 4 {
        Some(Register::Byte(gpr_of(number - 1)))
    } else if 5 <= number && number <= 8 {
        Some(Register::HighByte(gpr_of(number - 5)))
    } else if 9 <= number && number <= 20 {
        Some(Register::Byte(gpr_of(number - 5)))
    } else if 21 <= number && number <= 36 {
        Some(Register::Word(gpr_of(number - 21)))
    } else if 37 <= number && number <= 52 {
        Some(Register::Dword(gpr_of(number - 37)))
    } else if 53 <= number && number <= 68 {
        Some(Register::Qword(gpr_of(number - 53)))
    } else {
        None
    }
}

/// The memory operand of the first instruction of `bytes`.
fn memory_operand_of(bytes: &[u8], ip: u64) -> (r: Operand)
    ensures
        r == spec_memory_operand(bytes@, ip),
{
    let base_number: usize = insn_memory_base(bytes, ip);
    let index_number: usize = insn_memory_index(bytes, ip);
    let displacement: u64 = insn_memory_displacement(bytes, ip);
    if base_number == REGISTER_RIP || base_number == REGISTER_EIP {
        return Operand::Memory(MemoryOperand { base: None, index: None, scale: 1, displacement });
    }
    let base = register_of(base_number);
    let index = register_of(index_number);
    if (base_number != REGISTER_NONE && base.is_none()) || (index_number != REGISTER_NONE
        && index.is_none()) {
        return Operand::Unsupported;
    }
    Operand::Memory(
        MemoryOperand { base, index, scale: insn_memory_index_scale(bytes, ip), displacement },
    )
}

/// The operand `operand` of the first instruction of `bytes`.
fn operand_of(bytes: &[u8], ip: u64, operand: u32) -> (r: Operand)
    requires
        operand <= 4,
    ensures
        r == spec_operand(bytes@, ip, operand),
{
    match insn_op_kind(bytes, ip, operand) {
        OperandKind::Register => match register_of(insn_op_register(bytes, ip, operand)) {
            Some(reg) => Operand::Register(reg),
            None => Operand::Unsupported,
        },
        OperandKind::Memory => memory_operand_of(bytes, ip),
        OperandKind::Other => match insn_immediate(bytes, ip, operand) {
            Some(value) => Operand::Immediate(value),
            None => Operand::Unsupported,
        },
    }
}

/// Decodes the first instruction of `bytes`, taken to stand at the address
/// `ip`. There is none where the bytes hold no whole instruction.
pub fn decode(bytes: &[u8], ip: u64) -> (r: Option<Insn>)
    ensures
        r == spec_decode(bytes@, ip),
        r matches Some(insn) ==> 1 <= insn.len <= bytes@.len(),
{
    if bytes.len() == 0 {
        return None;
    }
    let number: usize = insn_code(bytes, ip);
    if number == CODE_INVALID {
        return None;
    }
    let len: usize = insn_len(bytes, ip);
    if len == 0 || len > bytes.len() {
        return None;
    }
    Some(
        Insn {
            code: code_of(number),
            op0: operand_of(bytes, ip, 0),
            op1: operand_of(bytes, ip, 1),
            ip,
            next_ip: insn_next_ip(bytes, ip),
            len,
        },
    )
}

} // verus!

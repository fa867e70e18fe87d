//! MOV: copies the second operand, the source, to the first operand, the
//! destination.

#![allow(non_camel_case_types)]

use crate::emulator::cpu::CpuState;
use crate::emulator::cpu::CpuStateView;
use crate::emulator::cpu::Register;
use crate::emulator::decode::decode;
use crate::emulator::decode::spec_decode;
use crate::emulator::decode::Code;
use crate::emulator::decode::Insn;
use crate::emulator::decode::MemoryOperand;
use crate::emulator::decode::Operand;
use crate::emulator::platform::EmulationError;
use crate::emulator::platform::Exception;
use crate::emulator::platform::PlatformEmulator;
use crate::emulator::platform::PlatformError;
use vstd::arithmetic::div_mod::lemma_mod_breakdown;
use vstd::prelude::*;
use vstd::slice::slice_subrange;

verus! {

/// Whether an operand can be `width` bytes wide.
pub open spec fn is_width(width: usize) -> bool {
    width == 1 || width == 2 || width == 4 || width == 8
}

/// The number that the bytes `bytes` write, least significant byte first.
pub open spec fn le_value(bytes: Seq<u8>) -> nat
    decreases bytes.len(),
{
    if bytes.len() == 0 {
        0
    } else {
        (le_value(bytes.drop_last()) + bytes.last() as nat * width_limit(
            (bytes.len() - 1) as nat,
        )) as nat
    }
}

/// 256 to the power `n`: the first number that `n` bytes do not hold.
pub open spec fn width_limit(n: nat) -> nat
    decreases n,
{
    if n == 0 {
        1
    } else {
        256 * width_limit((n - 1) as nat)
    }
}

/// Byte `i` of `value`, counted from the least significant.
pub open spec fn byte_of(value: u64, i: int) -> u8 {
    ((value as nat / width_limit(i as nat)) % 256) as u8
}

/// The `width` least significant bytes of `value`, least significant
/// first.
pub open spec fn le_bytes(value: u64, width: nat) -> Seq<u8> {
    Seq::new(width, |i: int| byte_of(value, i))
}

/// The linear address of a memory operand: base, scaled index and
/// displacement, added modulo 2^64. Segments lie flat.
pub open spec fn spec_address(state: CpuStateView, m: MemoryOperand) -> u64 {
    let base = match m.base {
        Some(r) => state.read(r),
        None => 0u64,
    };
    let index = match m.index {
        Some(r) => state.read(r).wrapping_mul(m.scale as u64),
        None => 0u64,
    };
    base.wrapping_add(index).wrapping_add(m.displacement)
}

/// The value of a source that is a register or an immediate.
pub open spec fn direct_source(state: CpuStateView, op: Operand) -> Option<u64> {
    match op {
        Operand::Register(r) => Some(state.read(r)),
        Operand::Immediate(v) => Some(v),
        _ => None,
    }
}

/// The linear address of a memory operand.
pub fn operand_address(state: &CpuState, m: &MemoryOperand) -> (r: u64)
    ensures
        r == spec_address(state@, *m),
{
    let base: u64 = match m.base {
        Some(r) => state.read_reg(r),
        None => 0,
    };
    let index: u64 = match m.index {
        Some(r) => state.read_reg(r).wrapping_mul(m.scale as u64),
        None => 0,
    };
    base.wrapping_add(index).wrapping_add(m.displacement)
}

/// The powers of 256 up to the eighth.
pub proof fn lemma_width_limits()
    ensures
        width_limit(0) == 1,
        width_limit(1) == 0x100,
        width_limit(2) == 0x1_0000,
        width_limit(3) == 0x100_0000,
        width_limit(4) == 0x1_0000_0000,
        width_limit(5) == 0x100_0000_0000,
        width_limit(6) == 0x1_0000_0000_0000,
        width_limit(7) == 0x100_0000_0000_0000,
        width_limit(8) == 0x1_0000_0000_0000_0000,
{
    reveal_with_fuel(width_limit, 10);
}

/// The number that up to eight bytes write, least significant byte first.
pub fn value_of_bytes(bytes: &[u8]) -> (r: u64)
    requires
        bytes@.len() <= 8,
    ensures
        r == le_value(bytes@),
{
    let mut value: u64 = 0;
    let mut weight: u64 = 1;
    let mut i: usize = 0;
    proof {
        lemma_width_limits();
        assert(bytes@.take(0) =~= Seq::<u8>::empty());
    }
    while i < bytes.len()
        invariant
            i <= bytes@.len() <= 8,
            value == le_value(bytes@.take(i as int)),
            value < width_limit(i as nat),
            i < 8 ==> weight == width_limit(i as nat),
        decreases bytes@.len() - i,
    {
        proof {
            lemma_width_limits();
            assert(bytes@.take(i + 1).drop_last() =~= bytes@.take(i as int));
            assert(bytes@.take(i + 1).last() == bytes@[i as int]);
            assert(bytes@[i as int] * weight <= 255 * weight) by (nonlinear_arith);
        }
        value = value + (bytes[i] as u64) * weight;
        if i < 7 {
            weight = weight * 256;
        }
        i += 1;
    }
    assert(bytes@.take(i as int) =~= bytes@);
    value
}

/// The `width` least significant bytes of `value`, least significant
/// first.
pub fn bytes_of_value(value: u64, width: usize) -> (r: Vec<u8>)
    requires
        width <= 8,
    ensures
        r@ == le_bytes(value, width as nat),
{
    let mut bytes: Vec<u8> = Vec::new();
    let mut rest: u64 = value;
    let mut i: usize = 0;
    proof {
        lemma_width_limits();
    }
    while i < width
        invariant
            i <= width <= 8,
            bytes@.len() == i,
            rest == value as nat / width_limit(i as nat),
            forall|j: int| 0 <= j < i ==> bytes@[j] == byte_of(value, j),
        decreases width - i,
    {
        proof {
            lemma_width_limits();
            let w = width_limit(i as nat);
            assert(width_limit((i + 1) as nat) == 256 * w);
            assert((value as nat / w) / 256 == value as nat / (256 * w)) by (nonlinear_arith)
                requires
                    w > 0,
            ;
        }
        bytes.push((rest % 256) as u8);
        rest = rest / 256;
        i += 1;
    }
    assert(bytes@ =~= le_bytes(value, width as nat));
    bytes
}

/// Fetches the operand `op` of `width` bytes: what the register holds,
/// the bytes in memory as a number, or the immediate.
pub fn get_op<P: PlatformEmulator>(op: &Operand, width: usize, state: &CpuState, platform: &P) -> (r:
    Result<u64, PlatformError>)
    ensures
        !is_width(width) || *op is Unsupported ==> r == Err::<u64, PlatformError>(
            PlatformError::InvalidOperand,
        ),
        is_width(width) && direct_source(state@, *op) is Some ==> r == Ok::<u64, PlatformError>(
            direct_source(state@, *op)->0,
        ),
        r matches Ok(v) ==> *op is Register || *op is Immediate || v < width_limit(width as nat),
{
    if !(width == 1 || width == 2 || width == 4 || width == 8) {
        return Err(PlatformError::InvalidOperand);
    }
    match op {
        Operand::Register(reg) => Ok(state.read_reg(*reg)),
        Operand::Memory(m) => {
            let addr: u64 = operand_address(state, m);
            let bytes = match platform.read_memory(addr, width) {
                Ok(b) => b,
                Err(e) => {
                    return Err(e);
                },
            };
            if bytes.len() != width {
                return Err(PlatformError::MemoryReadFailure);
            }
            proof {
                lemma_le_value_bound(bytes@);
            }
            Ok(value_of_bytes(bytes.as_slice()))
        },
        Operand::Immediate(value) => Ok(*value),
        Operand::Unsupported => Err(PlatformError::InvalidOperand),
    }
}

/// The number that bytes write is below 256 to the power of their count.
pub proof fn lemma_le_value_bound(bytes: Seq<u8>)
    ensures
        le_value(bytes) < width_limit(bytes.len()),
    decreases bytes.len(),
{
    if bytes.len() > 0 {
        lemma_le_value_bound(bytes.drop_last());
        let w = width_limit((bytes.len() - 1) as nat);
        assert(bytes.last() as nat * w <= 255 * w) by (nonlinear_arith);
    }
}

/// 256 to the power `n` is positive.
pub proof fn lemma_width_limit_positive(n: nat)
    ensures
        width_limit(n) > 0,
    decreases n,
{
    if n > 0 {
        lemma_width_limit_positive((n - 1) as nat);
    }
}

/// The bytes that a store of `width` bytes writes are read back as the
/// value that was stored, as far as `width` bytes hold it.
pub proof fn lemma_store_then_load(value: u64, width: nat)
    ensures
        le_bytes(value, width).len() == width,
        le_value(le_bytes(value, width)) == value as nat % width_limit(width),
    decreases width,
{
    if width > 0 {
        let bytes = le_bytes(value, width);
        let low = width_limit((width - 1) as nat);
        lemma_store_then_load(value, (width - 1) as nat);
        lemma_width_limit_positive((width - 1) as nat);
        assert(bytes.drop_last() =~= le_bytes(value, (width - 1) as nat));
        assert(bytes.last() == byte_of(value, width - 1));
        lemma_mod_breakdown(value as int, low as int, 256);
        assert(low * 256 == width_limit(width)) by (nonlinear_arith)
            requires
                width_limit(width) == 256 * low,
        ;
        assert(bytes.last() as nat * low == low * ((value as nat / low) % 256))
            by (nonlinear_arith)
            requires
                bytes.last() as nat == (value as nat / low) % 256,
        ;
    }
}

/// Stores `value` in the operand `op` of `width` bytes: in the register,
/// or its `width` least significant bytes in memory. Only an operand that
/// is a register changes the registers.
pub fn set_op<P: PlatformEmulator>(
    op: &Operand,
    width: usize,
    state: &mut CpuState,
    platform: &mut P,
    value: u64,
) -> (r: Result<(), PlatformError>)
    ensures
        !is_width(width) || *op is Unsupported || *op is Immediate ==> r == Err::<
            (),
            PlatformError,
        >(PlatformError::InvalidOperand),
        is_width(width) && *op is Register ==> r is Ok,
        final(state)@ == match *op {
            Operand::Register(reg) => if is_width(width) {
                old(state)@.write(reg, value)
            } else {
                old(state)@
            },
            _ => old(state)@,
        },
{
    if !(width == 1 || width == 2 || width == 4 || width == 8) {
        return Err(PlatformError::InvalidOperand);
    }
    match op {
        Operand::Register(reg) => {
            state.write_reg(*reg, value);
            Ok(())
        },
        Operand::Memory(m) => {
            let addr: u64 = operand_address(state, m);
            let bytes = bytes_of_value(value, width);
            platform.write_memory(addr, bytes.as_slice())
        },
        _ => Err(PlatformError::InvalidOperand),
    }
}

/// The registers after a MOV of `width` bytes to a register from a source
/// that is a register or an immediate, if the instruction is one.
pub open spec fn spec_mov(state: CpuStateView, insn: Insn, width: usize) -> Option<CpuStateView> {
    match (insn.op0, direct_source(state, insn.op1)) {
        (Operand::Register(dst), Some(v)) => if is_width(width) {
            Some(state.write(dst, v).at(insn.next_ip))
        } else {
            None
        },
        _ => None,
    }
}

/// Whether a MOV of `width` bytes fails on its operands before the
/// platform is asked for anything: the width is none, the source is of no
/// kind that is known, or the source needs no memory and the destination
/// is no place to store to.
pub open spec fn mov_rejected(state: CpuStateView, insn: Insn, width: usize) -> bool {
    !is_width(width) || insn.op1 is Unsupported || (direct_source(state, insn.op1) is Some && (
    insn.op0 is Unsupported || insn.op0 is Immediate))
}

/// Whether `r` and the registers `after` are what a MOV of `width` bytes
/// may leave of the registers `before`. A MOV between registers, or of an
/// immediate to a register, succeeds and leaves exactly one state. A MOV
/// that is rejected changes nothing. A MOV that reads or writes memory
/// goes as the platform lets it: after a failure the registers are as
/// they were; after a success the instruction pointer stands behind the
/// instruction, and where the destination is memory no other register
/// has changed.
pub open spec fn mov_done(
    width: usize,
    before: CpuStateView,
    insn: Insn,
    after: CpuStateView,
    r: Result<(), EmulationError<Exception>>,
) -> bool {
    &&& spec_mov(before, insn, width) matches Some(s) ==> r is Ok && after == s
    &&& mov_rejected(before, insn, width) ==> r == Err::<(), EmulationError<Exception>>(
        EmulationError::PlatformEmulationError(PlatformError::InvalidOperand),
    )
    &&& r is Err ==> after == before
    &&& r matches Err(e) ==> e is PlatformEmulationError
    &&& r is Ok ==> after.ip == insn.next_ip && after.regs.len() == before.regs.len()
    &&& r is Ok && !(insn.op0 is Register) ==> after == before.at(insn.next_ip)
    &&& r is Ok && insn.op0 is Register ==> exists|v: u64|
        after == #[trigger] before.write(insn.op0->Register_0, v).at(insn.next_ip)
}

/// MOV of `width` bytes: fetches the source, stores it in the
/// destination, and moves the instruction pointer behind the instruction.
pub fn mov<P: PlatformEmulator>(width: usize, insn: &Insn, state: &mut CpuState, platform: &mut P) -> (r:
    Result<(), EmulationError<Exception>>)
    ensures
        mov_done(width, old(state)@, *insn, final(state)@, r),
{
    let value: u64 = match get_op(&insn.op1, width, state, platform) {
        Ok(v) => v,
        Err(e) => {
            return Err(EmulationError::PlatformEmulationError(e));
        },
    };

    match set_op(&insn.op0, width, state, platform, value) {
        Ok(_) => {},
        Err(e) => {
            return Err(EmulationError::PlatformEmulationError(e));
        },
    }

    state.set_ip(insn.next_ip);

    Ok(())
}

/// The emulation of one kind of instruction.
pub trait InstructionHandler {
    /// Bytes that the instruction moves.
    spec fn spec_width(&self) -> usize;

    /// Emulates the instruction `insn` on the registers `state` of a
    /// processor of the machine `platform`.
    fn emulate<P: PlatformEmulator>(&self, insn: &Insn, state: &mut CpuState, platform: &mut P) -> (r:
        Result<(), EmulationError<Exception>>)
        ensures
            mov_done(self.spec_width(), old(state)@, *insn, final(state)@, r),
    ;
}

/// MOV to a register of 8 bits from a register or memory.
pub struct Mov_r8_rm8;

impl InstructionHandler for Mov_r8_rm8 {
    open spec fn spec_width(&self) -> usize {
        1
    }

    fn emulate<P: PlatformEmulator>(&self, insn: &Insn, state: &mut CpuState, platform: &mut P) -> (r:
        Result<(), EmulationError<Exception>>) {
        mov(1, insn, state, platform)
    }
}

/// MOV to a register of 8 bits from an immediate.
pub struct Mov_r8_imm8;

impl InstructionHandler for Mov_r8_imm8 {
    open spec fn spec_width(&self) -> usize {
        1
    }

    fn emulate<P: PlatformEmulator>(&self, insn: &Insn, state: &mut CpuState, platform: &mut P) -> (r:
        Result<(), EmulationError<Exception>>) {
        mov(1, insn, state, platform)
    }
}

/// MOV to a register of 16 bits from a register or memory.
pub struct Mov_r16_rm16;

impl InstructionHandler for Mov_r16_rm16 {
    open spec fn spec_width(&self) -> usize {
        2
    }

    fn emulate<P: PlatformEmulator>(&self, insn: &Insn, state: &mut CpuState, platform: &mut P) -> (r:
        Result<(), EmulationError<Exception>>) {
        mov(2, insn, state, platform)
    }
}

/// MOV to a register of 16 bits from an immediate.
pub struct Mov_r16_imm16;

impl InstructionHandler for Mov_r16_imm16 {
    open spec fn spec_width(&self) -> usize {
        2
    }

    fn emulate<P: PlatformEmulator>(&self, insn: &Insn, state: &mut CpuState, platform: &mut P) -> (r:
        Result<(), EmulationError<Exception>>) {
        mov(2, insn, state, platform)
    }
}

/// MOV to a register of 32 bits from a register or memory.
pub struct Mov_r32_rm32;

impl InstructionHandler for Mov_r32_rm32 {
    open spec fn spec_width(&self) -> usize {
        4
    }

    fn emulate<P: PlatformEmulator>(&self, insn: &Insn, state: &mut CpuState, platform: &mut P) -> (r:
        Result<(), EmulationError<Exception>>) {
        mov(4, insn, state, platform)
    }
}

/// MOV to a register of 32 bits from an immediate.
pub struct Mov_r32_imm32;

impl InstructionHandler for Mov_r32_imm32 {
    open spec fn spec_width(&self) -> usize {
        4
    }

    fn emulate<P: PlatformEmulator>(&self, insn: &Insn, state: &mut CpuState, platform: &mut P) -> (r:
        Result<(), EmulationError<Exception>>) {
        mov(4, insn, state, platform)
    }
}

/// MOV to a register of 64 bits from a register or memory.
pub struct Mov_r64_rm64;

impl InstructionHandler for Mov_r64_rm64 {
    open spec fn spec_width(&self) -> usize {
        8
    }

    fn emulate<P: PlatformEmulator>(&self, insn: &Insn, state: &mut CpuState, platform: &mut P) -> (r:
        Result<(), EmulationError<Exception>>) {
        mov(8, insn, state, platform)
    }
}

/// MOV to a register of 64 bits from an immediate.
pub struct Mov_r64_imm64;

impl InstructionHandler for Mov_r64_imm64 {
    open spec fn spec_width(&self) -> usize {
        8
    }

    fn emulate<P: PlatformEmulator>(&self, insn: &Insn, state: &mut CpuState, platform: &mut P) -> (r:
        Result<(), EmulationError<Exception>>) {
        mov(8, insn, state, platform)
    }
}

/// MOV to a register or memory of 8 bits from an immediate.
pub struct Mov_rm8_imm8;

impl InstructionHandler for Mov_rm8_imm8 {
    open spec fn spec_width(&self) -> usize {
        1
    }

    fn emulate<P: PlatformEmulator>(&self, insn: &Insn, state: &mut CpuState, platform: &mut P) -> (r:
        Result<(), EmulationError<Exception>>) {
        mov(1, insn, state, platform)
    }
}

/// MOV to a register or memory of 8 bits from a register.
pub struct Mov_rm8_r8;

impl InstructionHandler for Mov_rm8_r8 {
    open spec fn spec_width(&self) -> usize {
        1
    }

    fn emulate<P: PlatformEmulator>(&self, insn: &Insn, state: &mut CpuState, platform: &mut P) -> (r:
        Result<(), EmulationError<Exception>>) {
        mov(1, insn, state, platform)
    }
}

/// MOV to a register or memory of 16 bits from an immediate.
pub struct Mov_rm16_imm16;

impl InstructionHandler for Mov_rm16_imm16 {
    open spec fn spec_width(&self) -> usize {
        2
    }

    fn emulate<P: PlatformEmulator>(&self, insn: &Insn, state: &mut CpuState, platform: &mut P) -> (r:
        Result<(), EmulationError<Exception>>) {
        mov(2, insn, state, platform)
    }
}

/// MOV to a register or memory of 16 bits from a register.
pub struct Mov_rm16_r16;

impl InstructionHandler for Mov_rm16_r16 {
    open spec fn spec_width(&self) -> usize {
        2
    }

    fn emulate<P: PlatformEmulator>(&self, insn: &Insn, state: &mut CpuState, platform: &mut P) -> (r:
        Result<(), EmulationError<Exception>>) {
        mov(2, insn, state, platform)
    }
}

/// MOV to a register or memory of 32 bits from an immediate.
pub struct Mov_rm32_imm32;

impl InstructionHandler for Mov_rm32_imm32 {
    open spec fn spec_width(&self) -> usize {
        4
    }

    fn emulate<P: PlatformEmulator>(&self, insn: &Insn, state: &mut CpuState, platform: &mut P) -> (r:
        Result<(), EmulationError<Exception>>) {
        mov(4, insn, state, platform)
    }
}

/// MOV to a register or memory of 32 bits from a register.
pub struct Mov_rm32_r32;

impl InstructionHandler for Mov_rm32_r32 {
    open spec fn spec_width(&self) -> usize {
        4
    }

    fn emulate<P: PlatformEmulator>(&self, insn: &Insn, state: &mut CpuState, platform: &mut P) -> (r:
        Result<(), EmulationError<Exception>>) {
        mov(4, insn, state, platform)
    }
}

/// MOV to a register or memory of 64 bits from an immediate of 32 bits;
/// to memory the four bytes of the immediate are stored.
pub struct Mov_rm64_imm32;

impl InstructionHandler for Mov_rm64_imm32 {
    open spec fn spec_width(&self) -> usize {
        4
    }

    fn emulate<P: PlatformEmulator>(&self, insn: &Insn, state: &mut CpuState, platform: &mut P) -> (r:
        Result<(), EmulationError<Exception>>) {
        mov(4, insn, state, platform)
    }
}

/// MOV to a register or memory of 64 bits from a register.
pub struct Mov_rm64_r64;

impl InstructionHandler for Mov_rm64_r64 {
    open spec fn spec_width(&self) -> usize {
        8
    }

    fn emulate<P: PlatformEmulator>(&self, insn: &Insn, state: &mut CpuState, platform: &mut P) -> (r:
        Result<(), EmulationError<Exception>>) {
        mov(8, insn, state, platform)
    }
}

/// Bytes that an instruction moves; none for an instruction that is not
/// emulated.
pub open spec fn code_width(code: Code) -> Option<usize> {
    match code {
        Code::MovR8Rm8 => Some(1usize),
        Code::MovR8Imm8 => Some(1usize),
        Code::MovR16Rm16 => Some(2usize),
        Code::MovR16Imm16 => Some(2usize),
        Code::MovR32Rm32 => Some(4usize),
        Code::MovR32Imm32 => Some(4usize),
        Code::MovR64Rm64 => Some(8usize),
        Code::MovR64Imm64 => Some(8usize),
        Code::MovRm8Imm8 => Some(1usize),
        Code::MovRm8R8 => Some(1usize),
        Code::MovRm16Imm16 => Some(2usize),
        Code::MovRm16R16 => Some(2usize),
        Code::MovRm32Imm32 => Some(4usize),
        Code::MovRm32R32 => Some(4usize),
        Code::MovRm64Imm32 => Some(4usize),
        Code::MovRm64R64 => Some(8usize),
        Code::Unsupported => None,
    }
}

/// Emulates the instruction `insn` by the handler of its kind. An
/// instruction of no kind that is emulated changes nothing.
pub fn emulate_insn<P: PlatformEmulator>(insn: &Insn, state: &mut CpuState, platform: &mut P) -> (r:
    Result<(), EmulationError<Exception>>)
    ensures
        match code_width(insn.code) {
            Some(width) => mov_done(width, old(state)@, *insn, final(state)@, r),
            None => r == Err::<(), EmulationError<Exception>>(
                EmulationError::UnsupportedInstruction,
            ) && final(state)@ == old(state)@,
        },
{
    match insn.code {
        Code::MovR8Rm8 => Mov_r8_rm8.emulate(insn, state, platform),
        Code::MovR8Imm8 => Mov_r8_imm8.emulate(insn, state, platform),
        Code::MovR16Rm16 => Mov_r16_rm16.emulate(insn, state, platform),
        Code::MovR16Imm16 => Mov_r16_imm16.emulate(insn, state, platform),
        Code::MovR32Rm32 => Mov_r32_rm32.emulate(insn, state, platform),
        Code::MovR32Imm32 => Mov_r32_imm32.emulate(insn, state, platform),
        Code::MovR64Rm64 => Mov_r64_rm64.emulate(insn, state, platform),
        Code::MovR64Imm64 => Mov_r64_imm64.emulate(insn, state, platform),
        Code::MovRm8Imm8 => Mov_rm8_imm8.emulate(insn, state, platform),
        Code::MovRm8R8 => Mov_rm8_r8.emulate(insn, state, platform),
        Code::MovRm16Imm16 => Mov_rm16_imm16.emulate(insn, state, platform),
        Code::MovRm16R16 => Mov_rm16_r16.emulate(insn, state, platform),
        Code::MovRm32Imm32 => Mov_rm32_imm32.emulate(insn, state, platform),
        Code::MovRm32R32 => Mov_rm32_r32.emulate(insn, state, platform),
        Code::MovRm64Imm32 => Mov_rm64_imm32.emulate(insn, state, platform),
        Code::MovRm64R64 => Mov_rm64_r64.emulate(insn, state, platform),
        Code::Unsupported => Err(EmulationError::UnsupportedInstruction),
    }
}

/// The instructions that are left to emulate once one more has been.
pub open spec fn one_less(budget: Option<nat>) -> Option<nat> {
    match budget {
        Some(n) => Some((n - 1) as nat),
        None => None,
    }
}

/// What emulating the instructions in `bytes` makes of the registers
/// `state`, as far as that does not depend on the platform: all of the
/// instructions, or the first `budget`, each decoded at the address at
/// which the one before it left the instruction pointer. There is no
/// answer where an instruction reads or writes memory.
pub open spec fn spec_run(bytes: Seq<u8>, state: CpuStateView, budget: Option<nat>) -> Option<
    Result<CpuStateView, EmulationError<Exception>>,
>
    decreases bytes.len(),
{
    if bytes.len() == 0 || budget == Some(0nat) {
        Some(Ok(state))
    } else {
        match spec_decode(bytes, state.ip) {
            None => Some(Err(EmulationError::InsufficientBytes)),
            Some(insn) => match code_width(insn.code) {
                None => Some(Err(EmulationError::UnsupportedInstruction)),
                Some(width) => if mov_rejected(state, insn, width) {
                    Some(
                        Err(EmulationError::PlatformEmulationError(PlatformError::InvalidOperand)),
                    )
                } else {
                    match spec_mov(state, insn, width) {
                        Some(after) => spec_run(
                            bytes.skip(insn.len as int),
                            after,
                            one_less(budget),
                        ),
                        None => None,
                    }
                },
            },
        }
    }
}

/// Emulates the instructions in `insn_stream` on the registers `state`,
/// one after the other from the start: all of them, or the first
/// `num_insn`. Bytes that hold no whole instruction end the emulation
/// with `InsufficientBytes`, and an instruction that is not emulated with
/// `UnsupportedInstruction`.
pub fn run<P: PlatformEmulator>(
    insn_stream: &[u8],
    num_insn: Option<usize>,
    state: &mut CpuState,
    platform: &mut P,
) -> (r: Result<(), EmulationError<Exception>>)
    ensures
        stream_gives(insn_stream@, old(state)@, budget_of(num_insn), match r {
            Ok(_) => Ok::<CpuStateView, EmulationError<Exception>>(final(state)@),
            Err(e) => Err::<CpuStateView, EmulationError<Exception>>(e),
        }),
        r matches Err(e) ==> !(e is InstructionException),
{
    let mut offset: usize = 0;
    let mut emulated: usize = 0;
    let ghost all = spec_run(insn_stream@, state@, budget_of(num_insn));
    assert(insn_stream@.skip(0) =~= insn_stream@);
    while offset < insn_stream.len() && !reached(num_insn, emulated)
        invariant
            offset <= insn_stream@.len(),
            emulated <= offset,
            num_insn matches Some(n) ==> emulated <= n,
            all == spec_run(insn_stream@, old(state)@, budget_of(num_insn)),
            all is Some ==> all == spec_run(
                insn_stream@.skip(offset as int),
                state@,
                left_of(num_insn, emulated),
            ),
        decreases insn_stream@.len() - offset,
    {
        let rest = slice_subrange(insn_stream, offset, insn_stream.len());
        assert(rest@ =~= insn_stream@.skip(offset as int));
        assert(rest@.len() != 0 && left_of(num_insn, emulated) != Some(0nat));
        assert(one_less(left_of(num_insn, emulated)) == left_of(num_insn, (emulated + 1) as usize));
        let insn = match decode(rest, state.ip()) {
            Some(i) => i,
            None => {
                return Err(EmulationError::InsufficientBytes);
            },
        };
        assert(rest@.skip(insn.len as int) =~= insn_stream@.skip(offset + insn.len));
        match emulate_insn(&insn, state, platform) {
            Ok(_) => {},
            Err(e) => {
                return Err(e);
            },
        }
        offset += insn.len;
        emulated += 1;
    }
    assert(offset == insn_stream@.len() ==> insn_stream@.skip(offset as int).len() == 0);
    Ok(())
}

/// The instructions that may be emulated, as a number or without end.
pub open spec fn budget_of(num_insn: Option<usize>) -> Option<nat> {
    match num_insn {
        Some(n) => Some(n as nat),
        None => None,
    }
}

/// The instructions that may still be emulated once `emulated` have been.
pub open spec fn left_of(num_insn: Option<usize>, emulated: usize) -> Option<nat> {
    match num_insn {
        Some(n) => Some((n - emulated) as nat),
        None => None,
    }
}

/// Whether `r` is what emulating the instructions in `bytes` makes of the
/// registers `start`, as far as that does not depend on the platform.
pub open spec fn stream_gives(
    bytes: Seq<u8>,
    start: CpuStateView,
    budget: Option<nat>,
    r: Result<CpuStateView, EmulationError<Exception>>,
) -> bool {
    match spec_run(bytes, start, budget) {
        Some(outcome) => outcome == r,
        None => true,
    }
}

/// Whether there are registers of which emulating the instructions in
/// `bytes` makes `r`, as far as that does not depend on the platform.
pub open spec fn stream_may_give(
    bytes: Seq<u8>,
    budget: Option<nat>,
    r: Result<CpuStateView, EmulationError<Exception>>,
) -> bool {
    exists|start: CpuStateView| #[trigger] stream_gives(bytes, start, budget, r)
}

/// Whether `r` is what emulating the instructions in `bytes` may give on
/// a platform: the platform failed, or there are registers, those that
/// the platform handed out, of which the emulation makes `r`.
pub open spec fn emulated(
    bytes: Seq<u8>,
    budget: Option<nat>,
    r: Result<CpuState, EmulationError<Exception>>,
) -> bool {
    match r {
        Ok(s) => stream_may_give(bytes, budget, Ok(s@)),
        Err(e) => !(e is InstructionException) && (e is PlatformEmulationError
            || stream_may_give(bytes, budget, Err(e))),
    }
}

/// The emulator of the instructions of one machine.
pub struct Emulator<'a, P: PlatformEmulator> {
    pub platform: &'a mut P,
}

impl<'a, P: PlatformEmulator> Emulator<'a, P> {
    pub fn new(platform: &'a mut P) -> (r: Emulator<'a, P>)
        ensures
            *r.platform == *old(platform),
            *final(r.platform) == *final(platform),
    {
        Emulator { platform }
    }

    /// Emulates the instructions in `insn_stream` on the processor
    /// `cpu_id`: all of them, or the first `num_insn`. The registers are
    /// taken from the platform at the start, and given back to it, and
    /// returned, after the last instruction. After a failure the
    /// platform's registers are as they were.
    pub fn emulate_insn_stream(
        &mut self,
        cpu_id: usize,
        insn_stream: &[u8],
        num_insn: Option<usize>,
    ) -> (r: Result<CpuState, EmulationError<Exception>>)
        ensures
            emulated(insn_stream@, budget_of(num_insn), r),
    {
        let mut state = match self.platform.cpu_state(cpu_id) {
            Ok(s) => s,
            Err(e) => {
                return Err(EmulationError::PlatformEmulationError(e));
            },
        };
        let ghost start = state@;
        match run(insn_stream, num_insn, &mut state, self.platform) {
            Ok(_) => {},
            Err(e) => {
                assert(stream_gives(
                    insn_stream@,
                    start,
                    budget_of(num_insn),
                    Err::<CpuStateView, EmulationError<Exception>>(e),
                ));
                return Err(e);
            },
        }
        let stored = self.platform.set_cpu_state(cpu_id, state);
        assert(stream_gives(
            insn_stream@,
            start,
            budget_of(num_insn),
            Ok::<CpuStateView, EmulationError<Exception>>(state@),
        ));
        assert(stream_may_give(
            insn_stream@,
            budget_of(num_insn),
            Ok::<CpuStateView, EmulationError<Exception>>(state@),
        ));
        match stored {
            Ok(_) => Ok(state),
            Err(e) => Err(EmulationError::PlatformEmulationError(e)),
        }
    }

    /// Emulates the first instruction of `insn`.
    pub fn emulate_first_insn(&mut self, cpu_id: usize, insn: &[u8]) -> (r: Result<
        CpuState,
        EmulationError<Exception>,
    >)
        ensures
            emulated(insn@, Some(1nat), r),
    {
        self.emulate_insn_stream(cpu_id, insn, Some(1))
    }

    /// Emulates the instructions of `insn`, or the first `num_insn` of
    /// them.
    pub fn emulate_insn(&mut self, cpu_id: usize, insn: &[u8], num_insn: Option<usize>) -> (r:
        Result<CpuState, EmulationError<Exception>>)
        ensures
            emulated(insn@, budget_of(num_insn), r),
    {
        self.emulate_insn_stream(cpu_id, insn, num_insn)
    }
}

/// Whether `emulated` instructions are as many as were asked for.
fn reached(num_insn: Option<usize>, emulated: usize) -> (r: bool)
    ensures
        r == (num_insn matches Some(n) && emulated >= n),
{
    match num_insn {
        Some(n) => emulated >= n,
        None => false,
    }
}

} // verus!

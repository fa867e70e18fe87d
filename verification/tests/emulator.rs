use std::collections::HashMap;
use vmm_core::emulator::cpu::CpuState;
use vmm_core::emulator::cpu::Gpr;
use vmm_core::emulator::cpu::Register;
use vmm_core::emulator::decode::code_of;
use vmm_core::emulator::decode::decode;
use vmm_core::emulator::decode::register_of;
use vmm_core::emulator::decode::Code;
use vmm_core::emulator::decode::Insn;
use vmm_core::emulator::decode::MemoryOperand;
use vmm_core::emulator::decode::Operand;
use vmm_core::emulator::mov::bytes_of_value;
use vmm_core::emulator::mov::emulate_insn;
use vmm_core::emulator::mov::get_op;
use vmm_core::emulator::mov::operand_address;
use vmm_core::emulator::mov::run;
use vmm_core::emulator::mov::set_op;
use vmm_core::emulator::mov::value_of_bytes;
use vmm_core::emulator::mov::Emulator;
use vmm_core::emulator::mov::InstructionHandler;
use vmm_core::emulator::mov::Mov_r16_imm16;
use vmm_core::emulator::mov::Mov_r16_rm16;
use vmm_core::emulator::mov::Mov_r32_imm32;
use vmm_core::emulator::mov::Mov_r32_rm32;
use vmm_core::emulator::mov::Mov_r64_imm64;
use vmm_core::emulator::mov::Mov_r64_rm64;
use vmm_core::emulator::mov::Mov_r8_imm8;
use vmm_core::emulator::mov::Mov_r8_rm8;
use vmm_core::emulator::mov::Mov_rm16_imm16;
use vmm_core::emulator::mov::Mov_rm16_r16;
use vmm_core::emulator::mov::Mov_rm32_imm32;
use vmm_core::emulator::mov::Mov_rm32_r32;
use vmm_core::emulator::mov::Mov_rm64_imm32;
use vmm_core::emulator::mov::Mov_rm64_r64;
use vmm_core::emulator::mov::Mov_rm8_imm8;
use vmm_core::emulator::mov::Mov_rm8_r8;
use vmm_core::emulator::platform::EmulationError;
use vmm_core::emulator::platform::Exception;
use vmm_core::emulator::platform::PlatformEmulator;
use vmm_core::emulator::platform::PlatformError;

const RAX: Register = Register::Qword(Gpr::Rax);
const RBX: Register = Register::Qword(Gpr::Rbx);
const EAX: Register = Register::Dword(Gpr::Rax);
const ESI: Register = Register::Dword(Gpr::Rsi);
const EDI: Register = Register::Dword(Gpr::Rdi);
const AL: Register = Register::Byte(Gpr::Rax);
const DH: Register = Register::HighByte(Gpr::Rdx);

type MockResult = Result<(), EmulationError<Exception>>;

/// A machine of one processor whose memory is zero where nothing was
/// stored, and ends at `limit`.
struct MockVMM {
    state: CpuState,
    memory: HashMap<u64, u8>,
    limit: u64,
}

impl MockVMM {
    fn new(ip: u64, regs: Vec<(Register, u64)>, memory: Option<(u64, &[u8])>) -> MockVMM {
        let mut state = CpuState::new(ip);
        for (reg, value) in regs {
            state.write_reg(reg, value);
        }
        let mut vmm = MockVMM { state, memory: HashMap::new(), limit: u64::MAX };
        if let Some((addr, bytes)) = memory {
            vmm.write_memory(addr, bytes).unwrap();
        }
        vmm
    }

    fn emulate_insn(&mut self, cpu_id: usize, insn: &[u8], num_insn: Option<usize>) -> MockResult {
        let mut emulator = Emulator::new(self);
        emulator.emulate_insn(cpu_id, insn, num_insn).map(|_| ())
    }

    fn emulate_first_insn(&mut self, cpu_id: usize, insn: &[u8]) -> MockResult {
        let mut emulator = Emulator::new(self);
        emulator.emulate_first_insn(cpu_id, insn).map(|_| ())
    }

    fn read_into(&self, gva: u64, data: &mut [u8]) -> Result<(), PlatformError> {
        let bytes = self.read_memory(gva, data.len())?;
        data.copy_from_slice(&bytes);
        Ok(())
    }
}

impl PlatformEmulator for MockVMM {
    fn read_memory(&self, gva: u64, len: usize) -> Result<Vec<u8>, PlatformError> {
        if gva.checked_add(len as u64).map_or(true, |end| end > self.limit) {
            return Err(PlatformError::MemoryReadFailure);
        }
        Ok((0..len as u64).map(|i| *self.memory.get(&(gva + i)).unwrap_or(&0)).collect())
    }

    fn write_memory(&mut self, gva: u64, data: &[u8]) -> Result<(), PlatformError> {
        if gva.checked_add(data.len() as u64).map_or(true, |end| end > self.limit) {
            return Err(PlatformError::MemoryWriteFailure);
        }
        for (i, byte) in data.iter().enumerate() {
            self.memory.insert(gva + i as u64, *byte);
        }
        Ok(())
    }

    fn cpu_state(&self, cpu_id: usize) -> Result<CpuState, PlatformError> {
        if cpu_id != 0 {
            return Err(PlatformError::GetCpuStateFailure);
        }
        Ok(self.state)
    }

    fn set_cpu_state(&mut self, cpu_id: usize, state: CpuState) -> Result<(), PlatformError> {
        if cpu_id != 0 {
            return Err(PlatformError::SetCpuStateFailure);
        }
        self.state = state;
        Ok(())
    }
}

#[test]
// mov rax,rbx
fn test_mov_r64_r64() -> MockResult {
    let rbx: u64 = 0x8899aabbccddeeff;
    let ip: u64 = 0x1000;
    let cpu_id = 0;
    let insn = [0x48, 0x89, 0xd8];
    let mut vmm = MockVMM::new(ip, vec![(RBX, rbx)], None);
    assert!(vmm.emulate_first_insn(cpu_id, &insn).is_ok());

    let rax: u64 = vmm.cpu_state(cpu_id).unwrap().read_reg(RAX);
    assert_eq!(rax, rbx);

    Ok(())
}

#[test]
// mov rax,0x1122334411223344
fn test_mov_r64_imm64() -> MockResult {
    let imm64: u64 = 0x1122334411223344;
    let ip: u64 = 0x1000;
    let cpu_id = 0;
    let insn = [0x48, 0xb8, 0x44, 0x33, 0x22, 0x11, 0x44, 0x33, 0x22, 0x11];
    let mut vmm = MockVMM::new(ip, vec![], None);
    assert!(vmm.emulate_first_insn(cpu_id, &insn).is_ok());

    let rax: u64 = vmm.cpu_state(cpu_id).unwrap().read_reg(RAX);
    assert_eq!(rax, imm64);

    Ok(())
}

#[test]
// mov rax, [rax+rax]
fn test_mov_r64_m64() -> MockResult {
    let target_rax: u64 = 0x1234567812345678;
    let mut rax: u64 = 0x100;
    let ip: u64 = 0x1000;
    let cpu_id = 0;
    let memory: [u8; 8] = target_rax.to_le_bytes();
    let insn = [0x48, 0x8b, 0x04, 0x00];
    let mut vmm = MockVMM::new(ip, vec![(RAX, rax)], Some((rax + rax, &memory)));
    assert!(vmm.emulate_first_insn(cpu_id, &insn).is_ok());

    rax = vmm.cpu_state(cpu_id).unwrap().read_reg(RAX);
    assert_eq!(rax, target_rax);

    Ok(())
}

#[test]
// mov al,0x11
fn test_mov_r8_imm8() -> MockResult {
    let imm8: u8 = 0x11;
    let ip: u64 = 0x1000;
    let cpu_id = 0;
    let insn = [0xb0, 0x11];
    let mut vmm = MockVMM::new(ip, vec![], None);
    assert!(vmm.emulate_first_insn(cpu_id, &insn).is_ok());

    let al = vmm.cpu_state(cpu_id).unwrap().read_reg(AL);
    assert_eq!(al as u8, imm8);

    Ok(())
}

#[test]
// mov eax,0x11
fn test_mov_r32_imm8() -> MockResult {
    let imm8: u8 = 0x11;
    let ip: u64 = 0x1000;
    let cpu_id = 0;
    let insn = [0xb8, 0x11, 0x00, 0x00, 0x00];
    let mut vmm = MockVMM::new(ip, vec![], None);
    assert!(vmm.emulate_first_insn(cpu_id, &insn).is_ok());

    let eax = vmm.cpu_state(cpu_id).unwrap().read_reg(EAX);
    assert_eq!(eax as u8, imm8);

    Ok(())
}

#[test]
// mov rax,0x11223344
fn test_mov_r64_imm32() -> MockResult {
    let imm32: u32 = 0x11223344;
    let ip: u64 = 0x1000;
    let cpu_id = 0;
    let insn = [0x48, 0xc7, 0xc0, 0x44, 0x33, 0x22, 0x11];
    let mut vmm = MockVMM::new(ip, vec![], None);
    assert!(vmm.emulate_first_insn(cpu_id, &insn).is_ok());

    let rax: u64 = vmm.cpu_state(cpu_id).unwrap().read_reg(RAX);
    assert_eq!(rax, imm32 as u64);

    Ok(())
}

#[test]
// mov byte ptr [rax],dh
fn test_mov_m8_r8() -> MockResult {
    let rax: u64 = 0x100;
    let dh: u8 = 0x99;
    let ip: u64 = 0x1000;
    let cpu_id = 0;
    let insn = [0x88, 0x30];
    let mut vmm = MockVMM::new(ip, vec![(RAX, rax), (DH, dh.into())], None);
    assert!(vmm.emulate_first_insn(cpu_id, &insn).is_ok());

    let mut memory: [u8; 1] = [0; 1];
    vmm.read_into(rax, &mut memory).unwrap();

    assert_eq!(u8::from_le_bytes(memory), dh);

    Ok(())
}

#[test]
// mov dword ptr [rax],esi
fn test_mov_m32_r32() -> MockResult {
    let rax: u64 = 0x100;
    let esi: u32 = 0x8899;
    let ip: u64 = 0x1000;
    let cpu_id = 0;
    let insn = [0x89, 0x30];
    let mut vmm = MockVMM::new(ip, vec![(RAX, rax), (ESI, esi.into())], None);
    assert!(vmm.emulate_first_insn(cpu_id, &insn).is_ok());

    let mut memory: [u8; 4] = [0; 4];
    vmm.read_into(rax, &mut memory).unwrap();

    assert_eq!(u32::from_le_bytes(memory), esi);

    Ok(())
}

#[test]
// mov dword ptr [rax+0x00000001],edi
fn test_mov_m32imm32_r32() -> MockResult {
    let rax: u64 = 0x100;
    let displacement: u64 = 0x1;
    let edi: u32 = 0x8899;
    let ip: u64 = 0x1000;
    let cpu_id = 0;
    let insn = [0x89, 0x3c, 0x05, 0x01, 0x00, 0x00, 0x00];
    let mut vmm = MockVMM::new(ip, vec![(RAX, rax), (EDI, edi.into())], None);
    assert!(vmm.emulate_first_insn(cpu_id, &insn).is_ok());

    let mut memory: [u8; 4] = [0; 4];
    vmm.read_into(rax + displacement, &mut memory).unwrap();

    assert_eq!(u32::from_le_bytes(memory), edi);

    Ok(())
}

#[test]
// mov eax,dword ptr [rax+10h]
fn test_mov_r32_m32imm32() -> MockResult {
    let rax: u64 = 0x100;
    let displacement: u64 = 0x10;
    let eax: u32 = 0xaabbccdd;
    let memory: [u8; 4] = eax.to_le_bytes();
    let ip: u64 = 0x1000;
    let cpu_id = 0;
    let insn = [0x8b, 0x40, 0x10];
    let mut vmm = MockVMM::new(ip, vec![(RAX, rax)], Some((rax + displacement, &memory)));
    assert!(vmm.emulate_first_insn(cpu_id, &insn).is_ok());

    let new_eax = vmm.cpu_state(cpu_id).unwrap().read_reg(EAX);
    assert_eq!(new_eax, eax as u64);

    Ok(())
}

#[test]
// mov al,byte ptr [rax+10h]
fn test_mov_r8_m32imm32() -> MockResult {
    let rax: u64 = 0x100;
    let displacement: u64 = 0x10;
    let al: u8 = 0xaa;
    let ip: u64 = 0x1000;
    let cpu_id = 0;
    let insn = [0x8a, 0x40, 0x10];
    let memory: [u8; 1] = al.to_le_bytes();
    let mut vmm = MockVMM::new(ip, vec![(RAX, rax)], Some((rax + displacement, &memory)));
    assert!(vmm.emulate_first_insn(cpu_id, &insn).is_ok());

    let new_al = vmm.cpu_state(cpu_id).unwrap().read_reg(AL);
    assert_eq!(new_al, al as u64);

    Ok(())
}

#[test]
// mov rax, 0x100
// mov rbx, qword ptr [rax+10h]
fn test_mov_r64_imm64_and_r64_m64() -> MockResult {
    let target_rax: u64 = 0x1234567812345678;
    let rax: u64 = 0x100;
    let displacement: u64 = 0x10;
    let ip: u64 = 0x1000;
    let cpu_id = 0;
    let memory: [u8; 8] = target_rax.to_le_bytes();
    let insn = [
        0x48, 0xc7, 0xc0, 0x00, 0x01, 0x00, 0x00, // mov rax, 0x100
        0x48, 0x8b, 0x58, 0x10, // mov rbx, qword ptr [rax+10h]
    ];
    let mut vmm = MockVMM::new(ip, vec![], Some((rax + displacement, &memory)));
    assert!(vmm.emulate_insn(cpu_id, &insn, Some(2)).is_ok());

    let rbx: u64 = vmm.cpu_state(cpu_id).unwrap().read_reg(RBX);
    assert_eq!(rbx, target_rax);

    Ok(())
}

#[test]
// mov rax, 0x100
// mov rbx, qword ptr [rax+10h]
fn test_mov_r64_imm64_and_r64_m64_first_insn() -> MockResult {
    let target_rax: u64 = 0x1234567812345678;
    let rax: u64 = 0x100;
    let displacement: u64 = 0x10;
    let ip: u64 = 0x1000;
    let cpu_id = 0;
    let memory: [u8; 8] = target_rax.to_le_bytes();
    let insn = [
        0x48, 0xc7, 0xc0, 0x00, 0x01, 0x00, 0x00, // mov rax, 0x100
        0x48, 0x8b, 0x58, 0x10, // mov rbx, qword ptr [rax+10h]
    ];

    let mut vmm = MockVMM::new(ip, vec![], Some((rax + displacement, &memory)));
    // Only run the first instruction.
    assert!(vmm.emulate_first_insn(cpu_id, &insn).is_ok());

    assert_eq!(ip + 7 as u64, vmm.cpu_state(cpu_id).unwrap().ip());

    let new_rax: u64 = vmm.cpu_state(cpu_id).unwrap().read_reg(RAX);
    assert_eq!(rax, new_rax);

    Ok(())
}

#[test]
// mov rax, 0x100
// mov rbx, qword ptr [rax+10h]
// mov rax, 0x200
fn test_mov_r64_imm64_and_r64_m64_two_insns() -> MockResult {
    let target_rax: u64 = 0x1234567812345678;
    let rax: u64 = 0x100;
    let displacement: u64 = 0x10;
    let ip: u64 = 0x1000;
    let cpu_id = 0;
    let memory: [u8; 8] = target_rax.to_le_bytes();
    let insn = [
        0x48, 0xc7, 0xc0, 0x00, 0x01, 0x00, 0x00, // mov rax, 0x100
        0x48, 0x8b, 0x58, 0x10, // mov rbx, qword ptr [rax+10h]
        0x48, 0xc7, 0xc0, 0x00, 0x02, 0x00, 0x00, // mov rax, 0x200
    ];

    let mut vmm = MockVMM::new(ip, vec![], Some((rax + displacement, &memory)));
    // Run the 2 first instructions.
    assert!(vmm.emulate_insn(cpu_id, &insn, Some(2)).is_ok());

    assert_eq!(ip + 7 + 4 as u64, vmm.cpu_state(cpu_id).unwrap().ip());

    let rbx: u64 = vmm.cpu_state(cpu_id).unwrap().read_reg(RBX);
    assert_eq!(rbx, target_rax);

    // Check that rax is still at 0x100
    let new_rax: u64 = vmm.cpu_state(cpu_id).unwrap().read_reg(RAX);
    assert_eq!(rax, new_rax);

    Ok(())
}

#[test]
fn whole_stream_is_emulated() {
    let insn = [
        0x48, 0xc7, 0xc0, 0x00, 0x01, 0x00, 0x00, // mov rax, 0x100
        0x48, 0x8b, 0x58, 0x10, // mov rbx, qword ptr [rax+10h]
        0x48, 0xc7, 0xc0, 0x00, 0x02, 0x00, 0x00, // mov rax, 0x200
    ];
    let mut vmm = MockVMM::new(0x1000, vec![], Some((0x110, &[7u8])));
    assert!(vmm.emulate_insn(0, &insn, None).is_ok());
    let state = vmm.cpu_state(0).unwrap();
    assert_eq!(state.ip(), 0x1000 + 18);
    assert_eq!(state.read_reg(RAX), 0x200);
    assert_eq!(state.read_reg(RBX), 7);
    // no instruction at all
    let mut idle = MockVMM::new(0x1000, vec![(RAX, 5)], None);
    assert!(idle.emulate_insn(0, &insn, Some(0)).is_ok());
    assert!(idle.emulate_insn(0, &[], None).is_ok());
    assert_eq!(idle.cpu_state(0).unwrap(), vmm_state(0x1000, RAX, 5));
}

fn vmm_state(ip: u64, reg: Register, value: u64) -> CpuState {
    let mut state = CpuState::new(ip);
    state.write_reg(reg, value);
    state
}

#[test]
fn emulation_errors() {
    // a truncated instruction
    let mut vmm = MockVMM::new(0x1000, vec![(RAX, 1)], None);
    assert_eq!(vmm.emulate_first_insn(0, &[0x48, 0xc7, 0xc0, 0x00]), Err(EmulationError::InsufficientBytes));
    // an instruction that is no MOV: nop
    assert_eq!(vmm.emulate_first_insn(0, &[0x90]), Err(EmulationError::UnsupportedInstruction));
    // a processor that the platform does not have
    assert_eq!(
        vmm.emulate_first_insn(1, &[0x48, 0x89, 0xd8]),
        Err(EmulationError::PlatformEmulationError(PlatformError::GetCpuStateFailure))
    );
    // memory that the platform does not have: mov rax, [rax+rax] and mov [rax], esi
    vmm.limit = 0x1000;
    vmm.state.write_reg(RAX, 0x1000);
    assert_eq!(
        vmm.emulate_first_insn(0, &[0x48, 0x8b, 0x04, 0x00]),
        Err(EmulationError::PlatformEmulationError(PlatformError::MemoryReadFailure))
    );
    assert_eq!(
        vmm.emulate_first_insn(0, &[0x89, 0x30]),
        Err(EmulationError::PlatformEmulationError(PlatformError::MemoryWriteFailure))
    );
    // the failed instructions left the registers alone
    assert_eq!(vmm.cpu_state(0).unwrap(), vmm_state(0x1000, RAX, 0x1000));
}

#[test]
fn register_parts() {
    let mut s = CpuState::new(0);
    s.write_reg(RAX, 0x1122_3344_5566_7788);
    assert_eq!(s.read_reg(AL), 0x88);
    assert_eq!(s.read_reg(Register::HighByte(Gpr::Rax)), 0x77);
    assert_eq!(s.read_reg(Register::Word(Gpr::Rax)), 0x7788);
    assert_eq!(s.read_reg(EAX), 0x5566_7788);
    s.write_reg(AL, 0xabcd);
    assert_eq!(s.read_reg(RAX), 0x1122_3344_5566_77cd);
    s.write_reg(Register::HighByte(Gpr::Rax), 0x1ef);
    assert_eq!(s.read_reg(RAX), 0x1122_3344_5566_efcd);
    s.write_reg(Register::Word(Gpr::Rax), 0xf_1234);
    assert_eq!(s.read_reg(RAX), 0x1122_3344_5566_1234);
    // a write to the low half clears the high half
    s.write_reg(EAX, 0xf_9abc_def0);
    assert_eq!(s.read_reg(RAX), 0x9abc_def0);
    s.write_reg(Register::Rip, 0x42);
    assert_eq!(s.ip(), 0x42);
    assert_eq!(s.read_reg(Register::Rip), 0x42);
    s.set_ip(0x43);
    assert_eq!(s.read_reg(Register::Rip), 0x43);
    s.write_reg(Register::Qword(Gpr::R15), 9);
    assert_eq!(s.regs[15], 9);
    assert_eq!(s.regs[0], 0x9abc_def0);
    for n in 0..16usize {
        assert_eq!(Gpr::from_number(n).unwrap().number(), n);
    }
    assert_eq!(Gpr::from_number(16), None);
    assert_eq!(Gpr::Rbx.number(), 3);
    assert_eq!(Register::Dword(Gpr::Rbx).size(), 4);
    assert_eq!(Register::HighByte(Gpr::Rbx).size(), 1);
    assert_eq!(Register::Rip.size(), 8);
}

#[test]
fn decoded_operands() {
    // mov byte ptr [rax],dh
    let insn = decode(&[0x88, 0x30], 0x2000).unwrap();
    assert_eq!(insn.code, Code::MovRm8R8);
    assert_eq!(insn.op1, Operand::Register(DH));
    assert_eq!(
        insn.op0,
        Operand::Memory(MemoryOperand { base: Some(RAX), index: None, scale: 1, displacement: 0 })
    );
    assert_eq!((insn.ip, insn.next_ip, insn.len), (0x2000, 0x2002, 2));
    // mov rax, [rax+rax]
    let insn = decode(&[0x48, 0x8b, 0x04, 0x00, 0x90], 0).unwrap();
    assert_eq!(insn.code, Code::MovR64Rm64);
    assert_eq!(insn.op0, Operand::Register(RAX));
    assert_eq!(
        insn.op1,
        Operand::Memory(MemoryOperand { base: Some(RAX), index: Some(RAX), scale: 1, displacement: 0 })
    );
    assert_eq!(insn.len, 4);
    // mov rax, [rbx+rcx*4+0x10]
    let insn = decode(&[0x48, 0x8b, 0x44, 0x8b, 0x10], 0).unwrap();
    assert_eq!(
        insn.op1,
        Operand::Memory(MemoryOperand {
            base: Some(RBX),
            index: Some(Register::Qword(Gpr::Rcx)),
            scale: 4,
            displacement: 0x10
        })
    );
    // mov r9w, 0x1234 and mov sil, 1
    let insn = decode(&[0x66, 0x41, 0xb9, 0x34, 0x12], 0).unwrap();
    assert_eq!(insn.code, Code::MovR16Imm16);
    assert_eq!(insn.op0, Operand::Register(Register::Word(Gpr::R9)));
    assert_eq!(insn.op1, Operand::Immediate(0x1234));
    let insn = decode(&[0x40, 0xb6, 0x01], 0).unwrap();
    assert_eq!(insn.op0, Operand::Register(Register::Byte(Gpr::Rsi)));
    // mov qword ptr [rip+0x10], -1: the immediate is extended, the address is absolute
    let insn = decode(&[0x48, 0xc7, 0x05, 0x10, 0, 0, 0, 0xff, 0xff, 0xff, 0xff], 0x1000).unwrap();
    assert_eq!(insn.code, Code::MovRm64Imm32);
    assert_eq!(insn.op1, Operand::Immediate(u64::MAX));
    assert_eq!(
        insn.op0,
        Operand::Memory(MemoryOperand { base: None, index: None, scale: 1, displacement: 0x101b })
    );
    // mov ax, ds has a register that is not emulated
    let insn = decode(&[0x66, 0x8c, 0xd8], 0).unwrap();
    assert_eq!(insn.code, Code::Unsupported);
    assert_eq!(insn.op1, Operand::Unsupported);
    assert!(decode(&[], 0).is_none());
    assert!(decode(&[0x48], 0).is_none());
}

#[test]
fn registers_by_number() {
    assert_eq!(register_of(0), None);
    assert_eq!(register_of(1), Some(AL));
    assert_eq!(register_of(4), Some(Register::Byte(Gpr::Rbx)));
    assert_eq!(register_of(5), Some(Register::HighByte(Gpr::Rax)));
    assert_eq!(register_of(7), Some(DH));
    assert_eq!(register_of(8), Some(Register::HighByte(Gpr::Rbx)));
    assert_eq!(register_of(9), Some(Register::Byte(Gpr::Rsp)));
    assert_eq!(register_of(11), Some(Register::Byte(Gpr::Rsi)));
    assert_eq!(register_of(13), Some(Register::Byte(Gpr::R8)));
    assert_eq!(register_of(20), Some(Register::Byte(Gpr::R15)));
    assert_eq!(register_of(21), Some(Register::Word(Gpr::Rax)));
    assert_eq!(register_of(36), Some(Register::Word(Gpr::R15)));
    assert_eq!(register_of(37), Some(EAX));
    assert_eq!(register_of(43), Some(ESI));
    assert_eq!(register_of(52), Some(Register::Dword(Gpr::R15)));
    assert_eq!(register_of(53), Some(RAX));
    assert_eq!(register_of(56), Some(RBX));
    assert_eq!(register_of(68), Some(Register::Qword(Gpr::R15)));
    for other in [69, 70, 71, 255, usize::MAX] {
        assert_eq!(register_of(other), None);
    }
    assert_eq!(code_of(0), Code::Unsupported);
    assert_eq!(code_of(279), Code::MovRm8R8);
    assert_eq!(code_of(286), Code::MovR64Rm64);
    assert_eq!(code_of(358), Code::MovR64Imm64);
    assert_eq!(code_of(402), Code::Unsupported);
    assert_eq!(code_of(405), Code::MovRm64Imm32);
}

#[test]
fn every_register_is_decoded() {
    // mov r64, r64 with every destination and source: REX.W 89 /r
    for dst in 0..16u8 {
        for src in 0..16u8 {
            let rex = 0x48 | ((src >> 3) << 2) | (dst >> 3);
            let modrm = 0xc0 | ((src & 7) << 3) | (dst & 7);
            let insn = decode(&[rex, 0x89, modrm], 0).unwrap();
            assert_eq!(insn.code, Code::MovRm64R64);
            assert_eq!(insn.op0, Operand::Register(Register::Qword(Gpr::from_number(dst as usize).unwrap())));
            assert_eq!(insn.op1, Operand::Register(Register::Qword(Gpr::from_number(src as usize).unwrap())));
        }
    }
    // the registers of one byte without and with a REX prefix: 88 /r
    let low = [Gpr::Rax, Gpr::Rcx, Gpr::Rdx, Gpr::Rbx];
    for n in 0..8u8 {
        let insn = decode(&[0x88, 0xc0 | n], 0).unwrap();
        let expected = if n < 4 {
            Register::Byte(low[n as usize])
        } else {
            Register::HighByte(low[n as usize - 4])
        };
        assert_eq!(insn.op0, Operand::Register(expected));
        let insn = decode(&[0x40, 0x88, 0xc0 | n], 0).unwrap();
        assert_eq!(insn.op0, Operand::Register(Register::Byte(Gpr::from_number(n as usize).unwrap())));
        let insn = decode(&[0x41, 0x88, 0xc0 | n], 0).unwrap();
        assert_eq!(insn.op0, Operand::Register(Register::Byte(Gpr::from_number(n as usize + 8).unwrap())));
    }
    // every kind of MOV that is emulated
    let kinds: [(&[u8], Code); 16] = [
        (&[0x8a, 0xc3], Code::MovR8Rm8),
        (&[0xb0, 0x01], Code::MovR8Imm8),
        (&[0x66, 0x8b, 0xc3], Code::MovR16Rm16),
        (&[0x66, 0xb8, 0x01, 0x00], Code::MovR16Imm16),
        (&[0x8b, 0xc3], Code::MovR32Rm32),
        (&[0xb8, 0x01, 0x00, 0x00, 0x00], Code::MovR32Imm32),
        (&[0x48, 0x8b, 0xc3], Code::MovR64Rm64),
        (&[0x48, 0xb8, 1, 0, 0, 0, 0, 0, 0, 0], Code::MovR64Imm64),
        (&[0xc6, 0x00, 0x01], Code::MovRm8Imm8),
        (&[0x88, 0x18], Code::MovRm8R8),
        (&[0x66, 0xc7, 0x00, 0x01, 0x00], Code::MovRm16Imm16),
        (&[0x66, 0x89, 0x18], Code::MovRm16R16),
        (&[0xc7, 0x00, 0x01, 0x00, 0x00, 0x00], Code::MovRm32Imm32),
        (&[0x89, 0x18], Code::MovRm32R32),
        (&[0x48, 0xc7, 0x00, 0x01, 0x00, 0x00, 0x00], Code::MovRm64Imm32),
        (&[0x48, 0x89, 0x18], Code::MovRm64R64),
    ];
    for (bytes, code) in kinds {
        let insn = decode(bytes, 0x100).unwrap();
        assert_eq!(insn.code, code);
        assert_eq!(insn.len, bytes.len());
        assert_eq!(insn.next_ip, 0x100 + bytes.len() as u64);
    }
}

#[test]
fn operand_values() {
    assert_eq!(value_of_bytes(&[]), 0);
    assert_eq!(value_of_bytes(&[0x34, 0x12]), 0x1234);
    assert_eq!(value_of_bytes(&[1, 2, 3, 4, 5, 6, 7, 0xff]), 0xff07_0605_0403_0201);
    assert_eq!(bytes_of_value(0x1122_3344_5566_7788, 4), vec![0x88, 0x77, 0x66, 0x55]);
    assert_eq!(bytes_of_value(0x1122_3344_5566_7788, 8), 0x1122_3344_5566_7788u64.to_le_bytes().to_vec());
    assert_eq!(bytes_of_value(5, 0), Vec::<u8>::new());

    let mut vmm = MockVMM::new(0, vec![], Some((0x20, &[0xaau8, 0xbb, 0xcc, 0xdd])));
    let mut state = vmm_state(0, RAX, 0x10);
    state.write_reg(RBX, 4);
    let m = MemoryOperand { base: Some(RAX), index: Some(RBX), scale: 2, displacement: 8 };
    assert_eq!(operand_address(&state, &m), 0x20);
    let top = MemoryOperand { base: Some(RAX), index: None, scale: 1, displacement: u64::MAX };
    assert_eq!(operand_address(&state, &top), 0xf);
    assert_eq!(get_op(&Operand::Memory(m), 2, &state, &vmm), Ok(0xbbaa));
    assert_eq!(get_op(&Operand::Memory(m), 4, &state, &vmm), Ok(0xddcc_bbaa));
    assert_eq!(get_op(&Operand::Register(RAX), 1, &state, &vmm), Ok(0x10));
    assert_eq!(get_op(&Operand::Immediate(9), 8, &state, &vmm), Ok(9));
    assert_eq!(get_op(&Operand::Immediate(9), 3, &state, &vmm), Err(PlatformError::InvalidOperand));
    assert_eq!(get_op(&Operand::Unsupported, 8, &state, &vmm), Err(PlatformError::InvalidOperand));
    assert_eq!(set_op(&Operand::Memory(m), 2, &mut state, &mut vmm, 0x1_2345), Ok(()));
    assert_eq!(vmm.read_memory(0x20, 4).unwrap(), vec![0x45, 0x23, 0xcc, 0xdd]);
    assert_eq!(set_op(&Operand::Register(AL), 1, &mut state, &mut vmm, 0x1ff), Ok(()));
    assert_eq!(state.read_reg(RAX), 0xff);
    assert_eq!(set_op(&Operand::Immediate(1), 1, &mut state, &mut vmm, 0), Err(PlatformError::InvalidOperand));
    assert_eq!(set_op(&Operand::Register(AL), 0, &mut state, &mut vmm, 0), Err(PlatformError::InvalidOperand));
}

fn register_move(code: Code) -> Insn {
    Insn {
        code,
        op0: Operand::Register(RAX),
        op1: Operand::Immediate(0x1122_3344_5566_7788),
        ip: 0x10,
        next_ip: 0x14,
        len: 4,
    }
}

#[test]
fn handlers_by_width() {
    let mut vmm = MockVMM::new(0, vec![], None);
    let insn = Insn {
        op0: Operand::Memory(MemoryOperand { base: None, index: None, scale: 1, displacement: 0x40 }),
        ..register_move(Code::Unsupported)
    };
    let mut stored = |width: usize, r: Result<(), EmulationError<Exception>>, vmm: &mut MockVMM| {
        assert_eq!(r, Ok(()));
        let bytes = vmm.read_memory(0x40, 8).unwrap();
        let mut expected = 0x1122_3344_5566_7788u64.to_le_bytes().to_vec();
        expected[width..].fill(0);
        assert_eq!(bytes, expected);
        vmm.write_memory(0x40, &[0; 8]).unwrap();
    };
    let mut s = CpuState::new(0);
    stored(1, Mov_r8_rm8.emulate(&insn, &mut s, &mut vmm), &mut vmm);
    stored(1, Mov_r8_imm8.emulate(&insn, &mut s, &mut vmm), &mut vmm);
    stored(2, Mov_r16_rm16.emulate(&insn, &mut s, &mut vmm), &mut vmm);
    stored(2, Mov_r16_imm16.emulate(&insn, &mut s, &mut vmm), &mut vmm);
    stored(4, Mov_r32_rm32.emulate(&insn, &mut s, &mut vmm), &mut vmm);
    stored(4, Mov_r32_imm32.emulate(&insn, &mut s, &mut vmm), &mut vmm);
    stored(8, Mov_r64_rm64.emulate(&insn, &mut s, &mut vmm), &mut vmm);
    stored(8, Mov_r64_imm64.emulate(&insn, &mut s, &mut vmm), &mut vmm);
    stored(1, Mov_rm8_imm8.emulate(&insn, &mut s, &mut vmm), &mut vmm);
    stored(1, Mov_rm8_r8.emulate(&insn, &mut s, &mut vmm), &mut vmm);
    stored(2, Mov_rm16_imm16.emulate(&insn, &mut s, &mut vmm), &mut vmm);
    stored(2, Mov_rm16_r16.emulate(&insn, &mut s, &mut vmm), &mut vmm);
    stored(4, Mov_rm32_imm32.emulate(&insn, &mut s, &mut vmm), &mut vmm);
    stored(4, Mov_rm32_r32.emulate(&insn, &mut s, &mut vmm), &mut vmm);
    stored(4, Mov_rm64_imm32.emulate(&insn, &mut s, &mut vmm), &mut vmm);
    stored(8, Mov_rm64_r64.emulate(&insn, &mut s, &mut vmm), &mut vmm);
    assert_eq!(s, CpuState { regs: [0; 16], ip: 0x14 });
}

#[test]
fn dispatch_by_code() {
    let mut vmm = MockVMM::new(0, vec![], None);
    let mut s = CpuState::new(0x10);
    assert_eq!(emulate_insn(&register_move(Code::MovR64Imm64), &mut s, &mut vmm), Ok(()));
    assert_eq!(s, vmm_state(0x14, RAX, 0x1122_3344_5566_7788));
    let before = s;
    assert_eq!(
        emulate_insn(&register_move(Code::Unsupported), &mut s, &mut vmm),
        Err(EmulationError::UnsupportedInstruction)
    );
    let bad = Insn { op0: Operand::Immediate(1), ..register_move(Code::MovRm8Imm8) };
    assert_eq!(
        emulate_insn(&bad, &mut s, &mut vmm),
        Err(EmulationError::PlatformEmulationError(PlatformError::InvalidOperand))
    );
    assert_eq!(s, before);
    assert_eq!(Exception::GP.vector(), 13);
    assert_eq!(Exception::PF.vector(), 14);
    assert_eq!(Exception::DE.vector(), 0);
}

#[test]
fn run_of_register_moves() {
    let mut vmm = MockVMM::new(0, vec![], None);
    // mov rax, rbx; mov ecx, eax; mov ch, 0x12
    let stream = [0x48, 0x89, 0xd8, 0x89, 0xc1, 0xb5, 0x12];
    let mut s = vmm_state(0x1000, RBX, 0x1_0000_0007);
    assert_eq!(run(&stream, None, &mut s, &mut vmm), Ok(()));
    assert_eq!(s.read_reg(RAX), 0x1_0000_0007);
    assert_eq!(s.read_reg(Register::Qword(Gpr::Rcx)), 0x1207);
    assert_eq!(s.ip(), 0x1007);
    // the first two only, then none
    let mut s = vmm_state(0x1000, RBX, 0x1_0000_0007);
    assert_eq!(run(&stream, Some(2), &mut s, &mut vmm), Ok(()));
    assert_eq!(s.read_reg(Register::Qword(Gpr::Rcx)), 7);
    assert_eq!(s.ip(), 0x1005);
    let before = s;
    assert_eq!(run(&stream, Some(0), &mut s, &mut vmm), Ok(()));
    assert_eq!(run(&[], None, &mut s, &mut vmm), Ok(()));
    assert_eq!(s, before);
    // what was emulated before a failure stays
    let mut s = vmm_state(0x1000, RBX, 9);
    assert_eq!(run(&[0x48, 0x89, 0xd8, 0x90], None, &mut s, &mut vmm), Err(EmulationError::UnsupportedInstruction));
    assert_eq!((s.read_reg(RAX), s.ip()), (9, 0x1003));
    assert_eq!(run(&[0x48, 0x89], None, &mut s, &mut vmm), Err(EmulationError::InsufficientBytes));
}

use chip8::cpu::{Cpu, ExecutionError, ExecutionResult, START_ADDRESS};
use chip8::instruction::Instruction;
use chip8::keyboard::{Ch8Key, KeyError};
use chip8::memory::{AccessKind, MemoryError};
use chip8::registers::{RegistersError, VRegister};
use chip8::screen::DIGITS;

fn cpu_with(values: &[(usize, u8)]) -> Cpu {
    let mut cpu = Cpu::new();
    for &(r, v) in values {
        cpu.registers.values[r] = v;
    }
    cpu
}

#[test]
fn add_reg_sets_carry() {
    let mut cpu = cpu_with(&[(1, 200), (2, 100)]);
    cpu.execute(Instruction::ADD_Reg(VRegister::V1, VRegister::V2)).unwrap();
    assert_eq!(cpu.registers.values[1], 44);
    assert_eq!(cpu.registers.values[15], 1);

    let mut cpu = cpu_with(&[(1, 20), (2, 100)]);
    cpu.execute(Instruction::ADD_Reg(VRegister::V1, VRegister::V2)).unwrap();
    assert_eq!(cpu.registers.values[1], 120);
    assert_eq!(cpu.registers.values[15], 0);
}

#[test]
fn sub_sets_not_borrow() {
    let mut cpu = cpu_with(&[(1, 5), (2, 7)]);
    cpu.execute(Instruction::SUB(VRegister::V1, VRegister::V2)).unwrap();
    assert_eq!(cpu.registers.values[1], 254);
    assert_eq!(cpu.registers.values[15], 0);

    let mut cpu = cpu_with(&[(1, 7), (2, 7)]);
    cpu.execute(Instruction::SUB(VRegister::V1, VRegister::V2)).unwrap();
    assert_eq!(cpu.registers.values[1], 0);
    assert_eq!(cpu.registers.values[15], 1);

    let mut cpu = cpu_with(&[(1, 5), (2, 7)]);
    cpu.execute(Instruction::SUBN(VRegister::V1, VRegister::V2)).unwrap();
    assert_eq!(cpu.registers.values[1], 2);
    assert_eq!(cpu.registers.values[15], 1);
}

#[test]
fn shifts_set_the_shifted_out_bit() {
    let mut cpu = cpu_with(&[(3, 0b1000_0011)]);
    cpu.execute(Instruction::SHR(VRegister::V3)).unwrap();
    assert_eq!(cpu.registers.values[3], 0b0100_0001);
    assert_eq!(cpu.registers.values[15], 1);

    let mut cpu = cpu_with(&[(3, 0b1000_0010)]);
    cpu.execute(Instruction::SHL(VRegister::V3)).unwrap();
    assert_eq!(cpu.registers.values[3], 0b0000_0100);
    assert_eq!(cpu.registers.values[15], 1);

    let mut cpu = cpu_with(&[(3, 0b0100_0001)]);
    cpu.execute(Instruction::SHL(VRegister::V3)).unwrap();
    assert_eq!(cpu.registers.values[3], 0b1000_0010);
    assert_eq!(cpu.registers.values[15], 0);
}

#[test]
fn logic_and_loads() {
    let mut cpu = cpu_with(&[(1, 0b1100), (2, 0b1010)]);
    cpu.execute(Instruction::OR(VRegister::V1, VRegister::V2)).unwrap();
    assert_eq!(cpu.registers.values[1], 0b1110);
    cpu.execute(Instruction::AND(VRegister::V1, VRegister::V2)).unwrap();
    assert_eq!(cpu.registers.values[1], 0b1010);
    cpu.execute(Instruction::XOR(VRegister::V1, VRegister::V2)).unwrap();
    assert_eq!(cpu.registers.values[1], 0);
    cpu.execute(Instruction::LD(VRegister::V4, 250)).unwrap();
    cpu.execute(Instruction::ADD(VRegister::V4, 10)).unwrap();
    assert_eq!(cpu.registers.values[4], 4);
    cpu.execute(Instruction::LD_Regs(VRegister::V5, VRegister::V4)).unwrap();
    assert_eq!(cpu.registers.values[5], 4);
}

#[test]
fn bcd_is_stored_at_i() {
    let mut cpu = cpu_with(&[(2, 254)]);
    cpu.execute(Instruction::LD_I(0x300)).unwrap();
    cpu.execute(Instruction::LD_B(VRegister::V2)).unwrap();
    assert_eq!(&cpu.memory.data[0x300..0x303], &[2, 5, 4]);
}

#[test]
fn bcd_into_reserved_area_is_refused() {
    let mut cpu = cpu_with(&[(2, 254)]);
    cpu.execute(Instruction::LD_I(0x100)).unwrap();
    let before = cpu.memory.data;
    assert_eq!(
        cpu.execute(Instruction::LD_B(VRegister::V2)),
        Err(ExecutionError::Memory(MemoryError::ReservedAddr(AccessKind::Write, 0x100)))
    );
    assert_eq!(cpu.memory.data, before);
}

#[test]
fn registers_round_trip_through_memory() {
    let mut cpu = cpu_with(&[(0, 10), (1, 11), (2, 12), (3, 13)]);
    cpu.execute(Instruction::LD_I(0x400)).unwrap();
    cpu.execute(Instruction::LD_MEM_I(VRegister::V2)).unwrap();
    assert_eq!(&cpu.memory.data[0x400..0x404], &[10, 11, 12, 0]);

    let mut other = Cpu::new();
    other.memory.data[0x400..0x404].copy_from_slice(&[10, 11, 12, 99]);
    other.execute(Instruction::LD_I(0x400)).unwrap();
    other.execute(Instruction::LD_I_MEM(VRegister::V2)).unwrap();
    assert_eq!(&other.registers.values[0..4], &[10, 11, 12, 0]);
}

#[test]
fn reads_past_memory_are_refused() {
    let mut cpu = Cpu::new();
    cpu.execute(Instruction::LD_I(0x1000)).unwrap();
    assert_eq!(
        cpu.execute(Instruction::LD_I_MEM(VRegister::V2)),
        Err(ExecutionError::Memory(MemoryError::OutOfBound(AccessKind::Read, 0x1000)))
    );
    assert_eq!(
        cpu.execute(Instruction::LD_MEM_I(VRegister::V2)),
        Err(ExecutionError::Memory(MemoryError::OutOfBound(AccessKind::Write, 0x1000)))
    );
    cpu.execute(Instruction::LD_I(0xFFF)).unwrap();
    assert_eq!(
        cpu.execute(Instruction::DRW(VRegister::V0, VRegister::V1, 5)),
        Err(ExecutionError::Memory(MemoryError::OutOfBound(AccessKind::Read, 0xFFF)))
    );
}

#[test]
fn font_sprite_is_drawn() {
    let mut cpu = cpu_with(&[(0, 0xA), (1, 0), (2, 0)]);
    cpu.execute(Instruction::LD_F(VRegister::V0)).unwrap();
    assert_eq!(cpu.registers.i, 50);
    cpu.execute(Instruction::DRW(VRegister::V1, VRegister::V2, 5)).unwrap();
    for row in 0..5 {
        assert_eq!(cpu.screen.pixels[row], (DIGITS[0xA][row] as u64) << 56);
    }
    assert_eq!(cpu.registers.values[15], 0);
    cpu.execute(Instruction::DRW(VRegister::V1, VRegister::V2, 5)).unwrap();
    assert_eq!(cpu.registers.values[15], 1);
    assert!(cpu.screen.pixels.iter().all(|p| *p == 0));
    cpu.execute(Instruction::DRW(VRegister::V1, VRegister::V2, 5)).unwrap();
    cpu.execute(Instruction::CLS).unwrap();
    assert!(cpu.screen.pixels.iter().all(|p| *p == 0));
}

#[test]
fn keys_are_checked() {
    let mut cpu = cpu_with(&[(1, 0xC), (2, 0x10)]);
    let pc = cpu.registers.pc;
    cpu.execute(Instruction::SKP(VRegister::V1)).unwrap();
    assert_eq!(cpu.registers.pc, pc);
    cpu.execute(Instruction::SKNP(VRegister::V1)).unwrap();
    assert_eq!(cpu.registers.pc, pc + 2);
    cpu.keyboard.press_key(Ch8Key::C);
    cpu.execute(Instruction::SKP(VRegister::V1)).unwrap();
    assert_eq!(cpu.registers.pc, pc + 4);
    assert_eq!(
        cpu.execute(Instruction::SKP(VRegister::V2)),
        Err(ExecutionError::BadKeyValue(KeyError::InvalidKeyValue(0x10)))
    );
}

#[test]
fn stack_errors() {
    let mut cpu = Cpu::new();
    assert_eq!(
        cpu.execute(Instruction::RET),
        Err(ExecutionError::Registers(RegistersError::StackEmpty))
    );
    for _ in 0..16 {
        cpu.execute(Instruction::CALL(0x300)).unwrap();
    }
    assert_eq!(
        cpu.execute(Instruction::CALL(0x300)),
        Err(ExecutionError::Registers(RegistersError::StackFull))
    );
}

#[test]
fn ret_undoes_call() {
    let mut cpu = cpu_with(&[(1, 3)]);
    let before = cpu.registers.clone();
    cpu.execute(Instruction::CALL(0x456)).unwrap();
    assert_eq!(cpu.registers.pc, 0x456);
    cpu.execute(Instruction::RET).unwrap();
    assert_eq!(cpu.registers.pc, before.pc);
    assert_eq!(cpu.registers.stack_pointer, before.stack_pointer);
    assert_eq!(cpu.registers.values, before.values);
    assert_eq!(cpu.registers.stack[0], before.pc);
}

#[test]
fn timers_and_index() {
    let mut cpu = cpu_with(&[(1, 3), (2, 0x20)]);
    cpu.execute(Instruction::SET_DT(VRegister::V1)).unwrap();
    cpu.execute(Instruction::SET_ST(VRegister::V1)).unwrap();
    cpu.decrease_delay_timer();
    cpu.execute(Instruction::LD_DT(VRegister::V3)).unwrap();
    assert_eq!(cpu.registers.values[3], 2);
    assert_eq!(cpu.registers.sound_timer, 3);
    cpu.execute(Instruction::LD_I(0x100)).unwrap();
    cpu.execute(Instruction::ADD_I(VRegister::V2)).unwrap();
    assert_eq!(cpu.registers.i, 0x120);
    cpu.execute(Instruction::JP_V0(0x300)).unwrap();
    assert_eq!(cpu.registers.pc, 0x300);
}

#[test]
fn random_byte_is_masked() {
    for _ in 0..64 {
        let mut cpu = Cpu::new();
        cpu.execute(Instruction::RND(VRegister::V6, 0x0F)).unwrap();
        assert_eq!(cpu.registers.values[6] & 0xF0, 0);
    }
    let mut cpu = Cpu::new();
    cpu.execute_with(Instruction::RND(VRegister::V6, 0x3C), 0xFF).unwrap();
    assert_eq!(cpu.registers.values[6], 0x3C);
}

#[test]
fn wait_for_key() {
    let mut cpu = Cpu::new();
    assert_eq!(
        cpu.execute(Instruction::LD_K(VRegister::V7)),
        Ok(ExecutionResult::WaitForKey(VRegister::V7))
    );
}

#[test]
fn load_and_fetch() {
    let mut cpu = Cpu::load_program(&[0x61, 0x42, 0x00, 0xE0]).unwrap();
    assert_eq!(cpu.registers.pc, START_ADDRESS);
    assert_eq!(cpu.next_instr(), Ok(Instruction::LD(VRegister::V1, 0x42)));
    assert_eq!(cpu.next_instr(), Ok(Instruction::CLS));
    assert_eq!(cpu.registers.pc, START_ADDRESS + 4);
    assert_eq!(
        Cpu::load_program(&vec![0u8; 0xE01]).err(),
        Some(MemoryError::OutOfBound(AccessKind::Write, START_ADDRESS))
    );
    assert!(Cpu::load_program(&vec![0u8; 0xDFF]).is_ok());
    assert_eq!(&cpu.memory.data[0..5], &DIGITS[0]);
}

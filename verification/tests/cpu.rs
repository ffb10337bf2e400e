use chip8::cpu::Cpu;
use chip8::instruction::Instruction;
use chip8::memory::Address;
use chip8::registers::VRegister;

const ADDR: Address = 0x321;

fn create_interpreter() -> Cpu {
    Cpu::new()
}

#[test]
fn cpu_instruction_jp() {
    let mut int = create_interpreter();

    let res = int.execute(Instruction::JP(ADDR));
    assert!(res.is_ok());
    assert_eq!(int.registers.pc, ADDR);
}

#[test]
fn cpu_instruction_call() {
    let mut int = create_interpreter();

    let pc = int.registers.pc;

    int.execute(Instruction::CALL(ADDR)).unwrap();
    assert_eq!(pc, int.registers.top_stack().unwrap());
    assert_eq!(int.registers.pc, ADDR);
}

#[test]
fn cpu_instruction_se_value() {
    let mut int = create_interpreter();

    int.registers.values[0] = 1;
    let pc = int.registers.pc;
    int.execute(Instruction::SE_Value(VRegister::V0, 1)).unwrap();
    assert_eq!(int.registers.pc, pc + 2);

    let pc = int.registers.pc;
    int.execute(Instruction::SE_Value(VRegister::V0, 2)).unwrap();
    assert_ne!(int.registers.pc, pc + 2);
}

#[test]
fn cpu_instruction_sne() {
    let mut int = create_interpreter();

    int.registers.values[0] = 0;
    let pc = int.registers.pc;
    int.execute(Instruction::SNE(VRegister::V0, 1)).unwrap();
    assert_eq!(int.registers.pc, pc + 2);

    let pc = int.registers.pc;
    int.execute(Instruction::SNE(VRegister::V0, 0)).unwrap();
    assert_ne!(int.registers.pc, pc + 2);
}

#[test]
fn cpu_instruction_se_reg() {
    let mut int = create_interpreter();

    let pc = int.registers.pc;
    int.registers.values[0] = 1;
    int.registers.values[1] = 1;
    int.execute(Instruction::SE_Reg(VRegister::V0, VRegister::V1)).unwrap();
    assert_eq!(int.registers.pc, pc + 2);

    let pc = int.registers.pc;
    int.registers.values[1] = 0;
    int.execute(Instruction::SE_Reg(VRegister::V0, VRegister::V1)).unwrap();
    assert_ne!(int.registers.pc, pc + 2);
}

#[test]
fn mod_timers_underflow() {
    let mut cpu = create_interpreter();

    assert_eq!(cpu.registers.delay_timer, 0);
    assert_eq!(cpu.registers.sound_timer, 0);

    cpu.decrease_delay_timer();
    cpu.decrease_sound_timer();

    assert_eq!(cpu.registers.delay_timer, 0);
    assert_eq!(cpu.registers.sound_timer, 0);
}

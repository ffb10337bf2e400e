use chip8::emulator::Emulator;
use chip8::instruction::Instruction;
use chip8::memory::Address;
use chip8::registers::VRegister;

const REG_1: VRegister = VRegister::V1;
const REG_2: VRegister = VRegister::V2;
const ADDR: Address = 0x321;

fn create_cpu() -> Emulator {
    Emulator::default()
}

#[test]
fn mod_instruction_jp() {
    let mut int = create_cpu();

    let res = int.execute(Instruction::JP(ADDR));
    assert!(res.is_ok());
    assert_eq!(int.registers().pc, ADDR);
}

#[test]
fn mod_instruction_call() {
    let mut int = create_cpu();

    let pc = int.registers().pc;

    int.execute(Instruction::CALL(ADDR)).unwrap();
    assert_eq!(pc, int.registers().top_stack().unwrap());
    assert_eq!(int.registers().pc, ADDR);
}

#[test]
fn mod_instruction_se_value() {
    let mut int = create_cpu();

    int.set_vreg(REG_1, 1);
    let pc = int.registers().pc;
    int.execute(Instruction::SE_Value(REG_1, 1)).unwrap();
    assert_eq!(int.registers().pc, pc + 2);

    let pc = int.registers().pc;
    int.execute(Instruction::SE_Value(REG_1, 2)).unwrap();
    assert_ne!(int.registers().pc, pc + 2);
}

#[test]
fn mod_instruction_sne() {
    let mut int = create_cpu();

    int.set_vreg(REG_1, 0);
    let pc = int.registers().pc;
    int.execute(Instruction::SNE(REG_1, 1)).unwrap();
    assert_eq!(int.registers().pc, pc + 2);

    let pc = int.registers().pc;
    int.execute(Instruction::SNE(REG_1, 0)).unwrap();
    assert_ne!(int.registers().pc, pc + 2);
}

#[test]
fn mod_instruction_se_reg() {
    let mut int = create_cpu();

    let pc = int.registers().pc;
    int.set_vreg(REG_1, 1);
    int.set_vreg(REG_2, 1);
    int.execute(Instruction::SE_Reg(REG_1, REG_2)).unwrap();
    assert_eq!(int.registers().pc, pc + 2);

    let pc = int.registers().pc;
    int.set_vreg(REG_2, 2);
    int.execute(Instruction::SE_Reg(REG_1, REG_2)).unwrap();
    assert_ne!(int.registers().pc, pc + 2);
}

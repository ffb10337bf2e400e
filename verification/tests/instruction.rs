use chip8::instruction::{Instruction, InstructionError};
use chip8::memory::Address;
use chip8::registers::VRegister;

const REG_1: VRegister = VRegister::V1;
const REG_2: VRegister = VRegister::V2;
const ADDR: Address = 0x200;

#[test]
fn instruction_test_non_existent_instruction() {
    let instr = Instruction::try_from(0x0000);
    assert_eq!(
        instr,
        Err(InstructionError::InvalidInstruction([0x00, 0x00]))
    );
}

#[test]
fn test_parsing_cls() {
    assert_eq!(Instruction::try_from(0x00E0), Ok(Instruction::CLS));
}

#[test]
fn test_parsing_ret() {
    assert_eq!(Instruction::try_from(0x00EE), Ok(Instruction::RET));
}

#[test]
fn test_parsing_jp() {
    assert_eq!(Instruction::try_from(0x1200), Ok(Instruction::JP(ADDR)));
}

#[test]
fn test_parsing_call() {
    assert_eq!(Instruction::try_from(0x2200), Ok(Instruction::CALL(ADDR)));
}

#[test]
fn test_parsing_se() {
    assert_eq!(Instruction::try_from(0x3142), Ok(Instruction::SE_Value(REG_1, 0x42)));
}

#[test]
fn test_parsing_sne() {
    assert_eq!(Instruction::try_from(0x4142), Ok(Instruction::SNE(REG_1, 0x42)));
}

#[test]
fn test_parsing_se_reg() {
    assert_eq!(Instruction::try_from(0x5120), Ok(Instruction::SE_Reg(REG_1, REG_2)));
}

#[test]
fn test_parsing_ld() {
    assert_eq!(Instruction::try_from(0x6142), Ok(Instruction::LD(REG_1, 0x42)));
}

#[test]
fn test_parsing_add() {
    assert_eq!(Instruction::try_from(0x7142), Ok(Instruction::ADD(REG_1, 0x42)));
}

#[test]
fn test_parsing_ld_regs() {
    assert_eq!(Instruction::try_from(0x8120), Ok(Instruction::LD_Regs(REG_1, REG_2)));
}

#[test]
fn test_parsing_or() {
    assert_eq!(Instruction::try_from(0x8121), Ok(Instruction::OR(REG_1, REG_2)));
}

#[test]
fn test_parsing_and() {
    assert_eq!(Instruction::try_from(0x8122), Ok(Instruction::AND(REG_1, REG_2)));
}

#[test]
fn test_parsing_xor() {
    assert_eq!(Instruction::try_from(0x8123), Ok(Instruction::XOR(REG_1, REG_2)));
}

#[test]
fn test_parsing_add_reg() {
    assert_eq!(Instruction::try_from(0x8124), Ok(Instruction::ADD_Reg(REG_1, REG_2)));
}

#[test]
fn test_parsing_sub() {
    assert_eq!(Instruction::try_from(0x8125), Ok(Instruction::SUB(REG_1, REG_2)));
}

#[test]
fn test_parsing_shr() {
    assert_eq!(Instruction::try_from(0x8126), Ok(Instruction::SHR(REG_1)));
}

#[test]
fn test_parsing_subn() {
    assert_eq!(Instruction::try_from(0x8127), Ok(Instruction::SUBN(REG_1, REG_2)));
}

#[test]
fn test_parsing_shl() {
    assert_eq!(Instruction::try_from(0x812E), Ok(Instruction::SHL(REG_1)));
}

#[test]
fn test_parsing_sne_reg() {
    assert_eq!(Instruction::try_from(0x9120), Ok(Instruction::SNE_Reg(REG_1, REG_2)));
}

#[test]
fn test_parsing_ld_i() {
    assert_eq!(Instruction::try_from(0xA200), Ok(Instruction::LD_I(ADDR)));
}

#[test]
fn test_parsing_jp_v0() {
    assert_eq!(Instruction::try_from(0xB200), Ok(Instruction::JP_V0(ADDR)));
}

#[test]
fn test_parsing_rnd() {
    assert_eq!(Instruction::try_from(0xC142), Ok(Instruction::RND(REG_1, 0x42)));
}

#[test]
fn test_parsing_drw() {
    assert_eq!(Instruction::try_from(0xD123), Ok(Instruction::DRW(REG_1, REG_2, 0x3)));
}

#[test]
fn test_parsing_skp() {
    assert_eq!(Instruction::try_from(0xE19E), Ok(Instruction::SKP(REG_1)));
}

#[test]
fn test_parsing_sknp() {
    assert_eq!(Instruction::try_from(0xE1A1), Ok(Instruction::SKNP(REG_1)));
}

#[test]
fn test_parsing_ld_dt() {
    assert_eq!(Instruction::try_from(0xF107), Ok(Instruction::LD_DT(REG_1)));
}

#[test]
fn test_parsing_ld_k() {
    assert_eq!(Instruction::try_from(0xF10A), Ok(Instruction::LD_K(REG_1)));
}

#[test]
fn test_parsing_set_dt() {
    assert_eq!(Instruction::try_from(0xF115), Ok(Instruction::SET_DT(REG_1)));
}

#[test]
fn test_parsing_set_st() {
    assert_eq!(Instruction::try_from(0xF118), Ok(Instruction::SET_ST(REG_1)));
}

#[test]
fn test_parsing_add_i() {
    assert_eq!(Instruction::try_from(0xF11E), Ok(Instruction::ADD_I(REG_1)));
}

#[test]
fn test_parsing_ld_f() {
    assert_eq!(Instruction::try_from(0xF129), Ok(Instruction::LD_F(REG_1)));
}

#[test]
fn test_parsing_ld_b() {
    assert_eq!(Instruction::try_from(0xF133), Ok(Instruction::LD_B(REG_1)));
}

#[test]
fn test_parsing_ld_mem_i() {
    assert_eq!(Instruction::try_from(0xF155), Ok(Instruction::LD_MEM_I(REG_1)));
}

#[test]
fn test_parsing_ld_i_mem() {
    assert_eq!(Instruction::try_from(0xF165), Ok(Instruction::LD_I_MEM(REG_1)));
}

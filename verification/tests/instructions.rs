use chip8::instructions::{Instructions, InstructionsError};

#[test]
fn instructions_test_non_existent_instruction() {
    let instr = Instructions::try_from(0x0000);
    assert_eq!(instr, Err(InstructionsError::InvalidInstruction(0x0000)));
}

#[test]
fn test_cls() {
    assert_eq!(Instructions::try_from(0x00E0), Ok(Instructions::CLS))
}

#[test]
fn test_ret() {
    assert_eq!(Instructions::try_from(0x00EE), Ok(Instructions::RET))
}

#[test]
fn test_jp() {
    assert_eq!(Instructions::try_from(0x1200), Ok(Instructions::JP(0x200)))
}

#[test]
fn test_call() {
    assert_eq!(Instructions::try_from(0x2200), Ok(Instructions::CALL(0x200)))
}

#[test]
fn test_se() {
    assert_eq!(Instructions::try_from(0x3142), Ok(Instructions::SE_Value(0x1, 0x42)))
}

#[test]
fn test_sne() {
    assert_eq!(Instructions::try_from(0x4142), Ok(Instructions::SNE(1, 0x42)))
}

#[test]
fn test_se_reg() {
    assert_eq!(Instructions::try_from(0x5120), Ok(Instructions::SE_Reg(0x1, 0x2)))
}

#[test]
fn test_ld() {
    assert_eq!(Instructions::try_from(0x6142), Ok(Instructions::LD(0x1, 0x42)))
}

#[test]
fn test_add() {
    assert_eq!(Instructions::try_from(0x7142), Ok(Instructions::ADD(0x1, 0x42)))
}

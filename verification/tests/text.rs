use chip8::instruction::Instruction;
use chip8::registers::VRegister;

/// The reference rendering of an instruction: Rust's own formatting.
fn reference(instr: &Instruction) -> String {
    const WIDTH: usize = 20;
    let r = |v: &VRegister| format!("{v:?}");
    let inner = match instr {
        Instruction::CLS => "CLS".to_string(),
        Instruction::RET => "RET".to_string(),
        Instruction::JP(addr) => format!("JP {:#05X}", addr),
        Instruction::CALL(addr) => format!("CALL {:#05X}", addr),
        Instruction::SE_Value(vx, kk) => format!("SE V{}, {}", r(vx), kk),
        Instruction::SNE(vx, kk) => format!("SNE V{}, {}", r(vx), kk),
        Instruction::SE_Reg(vx, vy) => format!("SE V{}, V{}", r(vx), r(vy)),
        Instruction::LD(vx, kk) => format!("LD V{}, {}", r(vx), kk),
        Instruction::ADD(vx, kk) => format!("ADD V{}, {}", r(vx), kk),
        Instruction::LD_Regs(vx, vy) => format!("LD V{}, V{}", r(vx), r(vy)),
        Instruction::OR(vx, vy) => format!("OR V{}, V{}", r(vx), r(vy)),
        Instruction::AND(vx, vy) => format!("AND V{}, V{}", r(vx), r(vy)),
        Instruction::XOR(vx, vy) => format!("XOR V{}, V{}", r(vx), r(vy)),
        Instruction::ADD_Reg(vx, vy) => format!("ADD V{}, V{}", r(vx), r(vy)),
        Instruction::SUB(vx, vy) => format!("SUB V{}, V{}", r(vx), r(vy)),
        Instruction::SHR(vx) => format!("SHR V{}", r(vx)),
        Instruction::SUBN(vx, vy) => format!("SUBN V{}, V{}", r(vx), r(vy)),
        Instruction::SHL(vx) => format!("SHL V{}", r(vx)),
        Instruction::SNE_Reg(vx, vy) => format!("SNE V{}, V{}", r(vx), r(vy)),
        Instruction::LD_I(addr) => format!("LD I, {:#05X}", addr),
        Instruction::JP_V0(addr) => format!("JP V0, {:#05X}", addr),
        Instruction::RND(vx, kk) => format!("RND V{}, {}", r(vx), kk),
        Instruction::DRW(vx, vy, n) => format!("DRW V{}, V{}, {}", r(vx), r(vy), n),
        Instruction::SKP(vx) => format!("SKP V{}", r(vx)),
        Instruction::SKNP(vx) => format!("SKNP V{}", r(vx)),
        Instruction::LD_DT(vx) => format!("LD V{}, DT", r(vx)),
        Instruction::LD_K(vx) => format!("LD V{}, KEY", r(vx)),
        Instruction::SET_DT(vx) => format!("LD DT, V{}", r(vx)),
        Instruction::SET_ST(vx) => format!("LD ST, V{}", r(vx)),
        Instruction::ADD_I(vx) => format!("ADD I, V{}", r(vx)),
        Instruction::LD_F(vx) => format!("LD F, V{}", r(vx)),
        Instruction::LD_B(vx) => format!("LD B, V{}", r(vx)),
        Instruction::LD_MEM_I(vx) => format!("LD [I], V{}", r(vx)),
        Instruction::LD_I_MEM(vx) => format!("LD V{}, [I]", r(vx)),
    };
    format!("{:<WIDTH$}", inner)
}

#[test]
fn text_of_every_decodable_word_matches_rust_formatting() {
    let mut checked = 0;
    for word in (0u32..=0xFFFF).step_by(7) {
        if let Ok(instr) = Instruction::try_from(word as u16) {
            assert_eq!(instr.text(), reference(&instr), "word {word:#06X}");
            checked += 1;
        }
    }
    assert!(checked > 1000);
}

#[test]
fn text_exact_values() {
    assert_eq!(Instruction::JP(0x200).text(), "JP 0x200            ");
    assert_eq!(Instruction::JP(0x5).text(), "JP 0x005            ");
    assert_eq!(Instruction::LD_I(0xABCD).text(), "LD I, 0xABCD        ");
    assert_eq!(Instruction::SE_Value(VRegister::V1, 66).text(), "SE VV1, 66          ");
    assert_eq!(Instruction::ADD(VRegister::VA, 255).text(), "ADD VVA, 255        ");
    assert_eq!(Instruction::CLS.text(), "CLS                 ");
    assert_eq!(Instruction::LD_MEM_I(VRegister::VF).text().chars().count(), 20);
}

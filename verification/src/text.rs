use vstd::prelude::*;

use crate::instruction::Instruction;
use crate::registers::VRegister;

verus! {

/// Width to which instruction texts are padded with spaces.
pub const INSTRUCTION_TEXT_WIDTH: usize = 20;

/// The upper case hexadecimal digit for `d < 16`.
pub open spec fn hex_char(d: int) -> char {
    if d < 10 {
        ('0' as int + d) as char
    } else {
        ('A' as int + d - 10) as char
    }
}

/// `a` in upper case hexadecimal, prefixed with `0x` and padded with zeros
/// to at least three digits.
pub open spec fn hex_addr_text(a: u16) -> Seq<char> {
    seq!['0', 'x'] + (if a >= 4096 {
        seq![hex_char((a / 4096) as int)]
    } else {
        Seq::empty()
    }) + seq![hex_char((a / 256 % 16) as int), hex_char((a / 16 % 16) as int), hex_char((a % 16) as int)]
}

/// `v` in decimal, without leading zeros.
pub open spec fn dec_text(v: u8) -> Seq<char> {
    if v >= 100 {
        seq![hex_char((v / 100) as int), hex_char((v / 10 % 10) as int), hex_char((v % 10) as int)]
    } else if v >= 10 {
        seq![hex_char((v / 10) as int), hex_char((v % 10) as int)]
    } else {
        seq![hex_char(v as int)]
    }
}

/// The name of a register, `V0` to `VF`.
pub open spec fn reg_text(r: VRegister) -> Seq<char> {
    seq!['V', hex_char(r.index())]
}

/// `s` padded with spaces on the right to at least `w` characters.
pub open spec fn padded(s: Seq<char>, w: nat) -> Seq<char> {
    if s.len() < w {
        s + Seq::new((w - s.len()) as nat, |k: int| ' ')
    } else {
        s
    }
}

/// The assembly text of an instruction, before padding. Register operands
/// are written `V` followed by the register's name.
pub open spec fn unpadded_text(instr: Instruction) -> Seq<char> {
    match instr {
        Instruction::CLS => "CLS"@,
        Instruction::RET => "RET"@,
        Instruction::JP(a) => "JP "@ + hex_addr_text(a),
        Instruction::CALL(a) => "CALL "@ + hex_addr_text(a),
        Instruction::SE_Value(x, kk) => "SE V"@ + reg_text(x) + ", "@ + dec_text(kk),
        Instruction::SNE(x, kk) => "SNE V"@ + reg_text(x) + ", "@ + dec_text(kk),
        Instruction::SE_Reg(x, y) => "SE V"@ + reg_text(x) + ", V"@ + reg_text(y),
        Instruction::LD(x, kk) => "LD V"@ + reg_text(x) + ", "@ + dec_text(kk),
        Instruction::ADD(x, kk) => "ADD V"@ + reg_text(x) + ", "@ + dec_text(kk),
        Instruction::LD_Regs(x, y) => "LD V"@ + reg_text(x) + ", V"@ + reg_text(y),
        Instruction::OR(x, y) => "OR V"@ + reg_text(x) + ", V"@ + reg_text(y),
        Instruction::AND(x, y) => "AND V"@ + reg_text(x) + ", V"@ + reg_text(y),
        Instruction::XOR(x, y) => "XOR V"@ + reg_text(x) + ", V"@ + reg_text(y),
        Instruction::ADD_Reg(x, y) => "ADD V"@ + reg_text(x) + ", V"@ + reg_text(y),
        Instruction::SUB(x, y) => "SUB V"@ + reg_text(x) + ", V"@ + reg_text(y),
        Instruction::SHR(x) => "SHR V"@ + reg_text(x) + ""@,
        Instruction::SUBN(x, y) => "SUBN V"@ + reg_text(x) + ", V"@ + reg_text(y),
        Instruction::SHL(x) => "SHL V"@ + reg_text(x) + ""@,
        Instruction::SNE_Reg(x, y) => "SNE V"@ + reg_text(x) + ", V"@ + reg_text(y),
        Instruction::LD_I(a) => "LD I, "@ + hex_addr_text(a),
        Instruction::JP_V0(a) => "JP V0, "@ + hex_addr_text(a),
        Instruction::RND(x, kk) => "RND V"@ + reg_text(x) + ", "@ + dec_text(kk),
        Instruction::DRW(x, y, n) => "DRW V"@ + reg_text(x) + ", V"@ + reg_text(y) + ", "@
            + dec_text(n),
        Instruction::SKP(x) => "SKP V"@ + reg_text(x) + ""@,
        Instruction::SKNP(x) => "SKNP V"@ + reg_text(x) + ""@,
        Instruction::LD_DT(x) => "LD V"@ + reg_text(x) + ", DT"@,
        Instruction::LD_K(x) => "LD V"@ + reg_text(x) + ", KEY"@,
        Instruction::SET_DT(x) => "LD DT, V"@ + reg_text(x) + ""@,
        Instruction::SET_ST(x) => "LD ST, V"@ + reg_text(x) + ""@,
        Instruction::ADD_I(x) => "ADD I, V"@ + reg_text(x) + ""@,
        Instruction::LD_F(x) => "LD F, V"@ + reg_text(x) + ""@,
        Instruction::LD_B(x) => "LD B, V"@ + reg_text(x) + ""@,
        Instruction::LD_MEM_I(x) => "LD [I], V"@ + reg_text(x) + ""@,
        Instruction::LD_I_MEM(x) => "LD V"@ + reg_text(x) + ", [I]"@,
    }
}

/// The text of an instruction as the history shows it: its assembly text,
/// padded with spaces to `INSTRUCTION_TEXT_WIDTH` characters.
pub open spec fn instruction_text(instr: Instruction) -> Seq<char> {
    padded(unpadded_text(instr), INSTRUCTION_TEXT_WIDTH as nat)
}

/// The one-character string of hexadecimal digit `d`.
fn digit_str(d: u8) -> (s: &'static str)
    requires
        d < 16,
    ensures
        s@ == seq![hex_char(d as int)],
{
    proof {
        reveal_strlit("0");
        reveal_strlit("1");
        reveal_strlit("2");
        reveal_strlit("3");
        reveal_strlit("4");
        reveal_strlit("5");
        reveal_strlit("6");
        reveal_strlit("7");
        reveal_strlit("8");
        reveal_strlit("9");
        reveal_strlit("A");
        reveal_strlit("B");
        reveal_strlit("C");
        reveal_strlit("D");
        reveal_strlit("E");
        reveal_strlit("F");
    }
    match d {
        0 => "0",
        1 => "1",
        2 => "2",
        3 => "3",
        4 => "4",
        5 => "5",
        6 => "6",
        7 => "7",
        8 => "8",
        9 => "9",
        10 => "A",
        11 => "B",
        12 => "C",
        13 => "D",
        14 => "E",
        _ => "F",
    }
}

/// Append the hexadecimal text of an address.
fn push_addr(s: &mut String, a: u16)
    ensures
        final(s)@ == old(s)@ + hex_addr_text(a),
{
    proof {
        reveal_strlit("0x");
    }
    s.append("0x");
    if a >= 4096 {
        s.append(digit_str((a / 4096) as u8));
    }
    s.append(digit_str((a / 256 % 16) as u8));
    s.append(digit_str((a / 16 % 16) as u8));
    s.append(digit_str((a % 16) as u8));
    assert(s@ =~= old(s)@ + hex_addr_text(a));
}

/// Append the decimal text of a byte.
fn push_dec(s: &mut String, v: u8)
    ensures
        final(s)@ == old(s)@ + dec_text(v),
{
    if v >= 100 {
        s.append(digit_str(v / 100));
        s.append(digit_str(v / 10 % 10));
        s.append(digit_str(v % 10));
    } else if v >= 10 {
        s.append(digit_str(v / 10));
        s.append(digit_str(v % 10));
    } else {
        s.append(digit_str(v));
    }
    assert(s@ =~= old(s)@ + dec_text(v));
}

/// Append the name of a register.
fn push_reg(s: &mut String, r: VRegister)
    ensures
        final(s)@ == old(s)@ + reg_text(r),
{
    proof {
        reveal_strlit("V");
    }
    s.append("V");
    s.append(digit_str(r.to_index() as u8));
    assert(s@ =~= old(s)@ + reg_text(r));
}

/// `prefix`, a register's name, `", "` and a decimal byte.
fn reg_value_text(prefix: &str, x: VRegister, kk: u8) -> (s: String)
    ensures
        s@ == prefix@ + reg_text(x) + ", "@ + dec_text(kk),
{
    let mut s = String::new();
    s.append(prefix);
    push_reg(&mut s, x);
    s.append(", ");
    push_dec(&mut s, kk);
    assert(s@ =~= prefix@ + reg_text(x) + ", "@ + dec_text(kk));
    s
}

/// `prefix`, a register's name, `", V"` and another register's name.
fn reg_reg_text(prefix: &str, x: VRegister, y: VRegister) -> (s: String)
    ensures
        s@ == prefix@ + reg_text(x) + ", V"@ + reg_text(y),
{
    let mut s = String::new();
    s.append(prefix);
    push_reg(&mut s, x);
    s.append(", V");
    push_reg(&mut s, y);
    assert(s@ =~= prefix@ + reg_text(x) + ", V"@ + reg_text(y));
    s
}

/// `prefix`, a register's name and `suffix`.
fn reg_text_between(prefix: &str, x: VRegister, suffix: &str) -> (s: String)
    ensures
        s@ == prefix@ + reg_text(x) + suffix@,
{
    let mut s = String::new();
    s.append(prefix);
    push_reg(&mut s, x);
    s.append(suffix);
    assert(s@ =~= prefix@ + reg_text(x) + suffix@);
    s
}

/// `prefix` and an address.
fn addr_text(prefix: &str, a: u16) -> (s: String)
    ensures
        s@ == prefix@ + hex_addr_text(a),
{
    let mut s = String::new();
    s.append(prefix);
    push_addr(&mut s, a);
    s
}

/// Pad `s` with spaces on the right to at least `w` characters.
fn pad(s: &mut String, w: usize)
    ensures
        final(s)@ == padded(old(s)@, w as nat),
{
    proof {
        reveal_strlit(" ");
    }
    let ghost start = s@;
    let mut n = s.as_str().unicode_len();
    while n < w
        invariant
            start == old(s)@,
            n == s@.len(),
            " "@ == seq![' '],
            s@.len() >= start.len(),
            s@ == start + Seq::new((s@.len() - start.len()) as nat, |k: int| ' '),
            start.len() < w ==> s@.len() <= w,
            start.len() >= w ==> s@ == start,
        decreases w - n,
    {
        s.append(" ");
        assert(s@ =~= start + Seq::new((s@.len() - start.len()) as nat, |k: int| ' '));
        n = s.as_str().unicode_len();
    }
    assert(s@ =~= padded(start, w as nat));
}

impl Instruction {
    /// The instruction's text as the history shows it.
    pub fn text(&self) -> (s: String)
        ensures
            s@ == instruction_text(*self),
    {
        let mut s = match *self {
            Instruction::CLS => String::from_str("CLS"),
            Instruction::RET => String::from_str("RET"),
            Instruction::JP(a) => addr_text("JP ", a),
            Instruction::CALL(a) => addr_text("CALL ", a),
            Instruction::SE_Value(x, kk) => reg_value_text("SE V", x, kk),
            Instruction::SNE(x, kk) => reg_value_text("SNE V", x, kk),
            Instruction::SE_Reg(x, y) => reg_reg_text("SE V", x, y),
            Instruction::LD(x, kk) => reg_value_text("LD V", x, kk),
            Instruction::ADD(x, kk) => reg_value_text("ADD V", x, kk),
            Instruction::LD_Regs(x, y) => reg_reg_text("LD V", x, y),
            Instruction::OR(x, y) => reg_reg_text("OR V", x, y),
            Instruction::AND(x, y) => reg_reg_text("AND V", x, y),
            Instruction::XOR(x, y) => reg_reg_text("XOR V", x, y),
            Instruction::ADD_Reg(x, y) => reg_reg_text("ADD V", x, y),
            Instruction::SUB(x, y) => reg_reg_text("SUB V", x, y),
            Instruction::SHR(x) => reg_text_between("SHR V", x, ""),
            Instruction::SUBN(x, y) => reg_reg_text("SUBN V", x, y),
            Instruction::SHL(x) => reg_text_between("SHL V", x, ""),
            Instruction::SNE_Reg(x, y) => reg_reg_text("SNE V", x, y),
            Instruction::LD_I(a) => addr_text("LD I, ", a),
            Instruction::JP_V0(a) => addr_text("JP V0, ", a),
            Instruction::RND(x, kk) => reg_value_text("RND V", x, kk),
            Instruction::DRW(x, y, n) => {
                let mut s = reg_reg_text("DRW V", x, y);
                s.append(", ");
                push_dec(&mut s, n);
                s
            },
            Instruction::SKP(x) => reg_text_between("SKP V", x, ""),
            Instruction::SKNP(x) => reg_text_between("SKNP V", x, ""),
            Instruction::LD_DT(x) => reg_text_between("LD V", x, ", DT"),
            Instruction::LD_K(x) => reg_text_between("LD V", x, ", KEY"),
            Instruction::SET_DT(x) => reg_text_between("LD DT, V", x, ""),
            Instruction::SET_ST(x) => reg_text_between("LD ST, V", x, ""),
            Instruction::ADD_I(x) => reg_text_between("ADD I, V", x, ""),
            Instruction::LD_F(x) => reg_text_between("LD F, V", x, ""),
            Instruction::LD_B(x) => reg_text_between("LD B, V", x, ""),
            Instruction::LD_MEM_I(x) => reg_text_between("LD [I], V", x, ""),
            Instruction::LD_I_MEM(x) => reg_text_between("LD V", x, ", [I]"),
        };
        assert(s@ == unpadded_text(*self));
        pad(&mut s, INSTRUCTION_TEXT_WIDTH);
        s
    }
}

} // verus!

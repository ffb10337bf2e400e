use vstd::prelude::*;

use crate::memory::Address;
use crate::registers::{VRegister, ValueRegister};

verus! {

/// A decoded CHIP-8 instruction.
#[derive(Debug, Clone, Copy, PartialEq, Eq, Structural)]
#[allow(non_camel_case_types, clippy::upper_case_acronyms)]
pub enum Instruction {
    /// Clear the display.
    CLS,
    /// Return from a subroutine: the program counter is set to the address on
    /// top of the stack, which is popped.
    RET,
    /// Jump to location nnn.
    JP(Address),
    /// Call subroutine at nnn: the current program counter is pushed on the
    /// stack, then the program counter is set to nnn.
    CALL(Address),
    /// Skip next instruction if Vx = kk.
    SE_Value(VRegister, ValueRegister),
    /// Skip next instruction if Vx != kk.
    SNE(VRegister, ValueRegister),
    /// Skip next instruction if Vx = Vy.
    SE_Reg(VRegister, VRegister),
    /// Set Vx = kk.
    LD(VRegister, ValueRegister),
    /// Set Vx = Vx + kk, wrapping.
    ADD(VRegister, ValueRegister),
    /// Set Vx = Vy.
    LD_Regs(VRegister, VRegister),
    /// Set Vx = Vx OR Vy.
    OR(VRegister, VRegister),
    /// Set Vx = Vx AND Vy.
    AND(VRegister, VRegister),
    /// Set Vx = Vx XOR Vy.
    XOR(VRegister, VRegister),
    /// Set Vx = Vx + Vy, set VF = carry.
    ADD_Reg(VRegister, VRegister),
    /// Set Vx = Vx - Vy, set VF = NOT borrow.
    SUB(VRegister, VRegister),
    /// Set VF = least significant bit of Vx, then Vx = Vx SHR 1.
    SHR(VRegister),
    /// Set Vx = Vy - Vx, set VF = NOT borrow.
    SUBN(VRegister, VRegister),
    /// Set VF = most significant bit of Vx, then Vx = Vx SHL 1.
    SHL(VRegister),
    /// Skip next instruction if Vx != Vy.
    SNE_Reg(VRegister, VRegister),
    /// Set I = nnn.
    LD_I(Address),
    /// Jump to location nnn + V0.
    JP_V0(Address),
    /// Set Vx = random byte AND kk.
    RND(VRegister, ValueRegister),
    /// Display the n-byte sprite at memory location I at (Vx, Vy), set VF = collision.
    DRW(VRegister, VRegister, u8),
    /// Skip next instruction if the key with the value of Vx is down.
    SKP(VRegister),
    /// Skip next instruction if the key with the value of Vx is up.
    SKNP(VRegister),
    /// Set Vx = delay timer value.
    LD_DT(VRegister),
    /// Wait for a key press, store the value of the key in Vx.
    LD_K(VRegister),
    /// Set delay timer = Vx.
    SET_DT(VRegister),
    /// Set sound timer = Vx.
    SET_ST(VRegister),
    /// Set I = I + Vx.
    ADD_I(VRegister),
    /// Set I = location of the font sprite for digit Vx.
    LD_F(VRegister),
    /// Store the BCD representation of Vx at I, I+1 and I+2.
    LD_B(VRegister),
    /// Store registers V0 through Vx in memory starting at location I.
    LD_MEM_I(VRegister),
    /// Read registers V0 through Vx from memory starting at location I.
    LD_I_MEM(VRegister),
}

/// Why two bytes do not decode to an instruction.
#[derive(Debug, Clone, Copy, PartialEq, Eq)]
pub enum InstructionError {
    /// The two bytes, most significant first, name no instruction.
    InvalidInstruction([u8; 2]),
}

/// The register numbered by nibble `n`.
pub open spec fn reg(n: int) -> VRegister {
    VRegister::from_index(n)
}

/// The instruction encoded by the nibbles `a b c d`, most significant first.
pub open spec fn spec_decode_nibbles(a: int, b: int, c: int, d: int) -> Option<Instruction> {
    let nnn = (b * 256 + c * 16 + d) as u16;
    let kk = (c * 16 + d) as u8;
    if a == 0x0 && b == 0x0 && c == 0xE && d == 0x0 {
        Some(Instruction::CLS)
    } else if a == 0x0 && b == 0x0 && c == 0xE && d == 0xE {
        Some(Instruction::RET)
    } else if a == 0x1 {
        Some(Instruction::JP(nnn))
    } else if a == 0x2 {
        Some(Instruction::CALL(nnn))
    } else if a == 0x3 {
        Some(Instruction::SE_Value(reg(b), kk))
    } else if a == 0x4 {
        Some(Instruction::SNE(reg(b), kk))
    } else if a == 0x5 && d == 0x0 {
        Some(Instruction::SE_Reg(reg(b), reg(c)))
    } else if a == 0x6 {
        Some(Instruction::LD(reg(b), kk))
    } else if a == 0x7 {
        Some(Instruction::ADD(reg(b), kk))
    } else if a == 0x8 && d == 0x0 {
        Some(Instruction::LD_Regs(reg(b), reg(c)))
    } else if a == 0x8 && d == 0x1 {
        Some(Instruction::OR(reg(b), reg(c)))
    } else if a == 0x8 && d == 0x2 {
        Some(Instruction::AND(reg(b), reg(c)))
    } else if a == 0x8 && d == 0x3 {
        Some(Instruction::XOR(reg(b), reg(c)))
    } else if a == 0x8 && d == 0x4 {
        Some(Instruction::ADD_Reg(reg(b), reg(c)))
    } else if a == 0x8 && d == 0x5 {
        Some(Instruction::SUB(reg(b), reg(c)))
    } else if a == 0x8 && d == 0x6 {
        Some(Instruction::SHR(reg(b)))
    } else if a == 0x8 && d == 0x7 {
        Some(Instruction::SUBN(reg(b), reg(c)))
    } else if a == 0x8 && d == 0xE {
        Some(Instruction::SHL(reg(b)))
    } else if a == 0x9 && d == 0x0 {
        Some(Instruction::SNE_Reg(reg(b), reg(c)))
    } else if a == 0xA {
        Some(Instruction::LD_I(nnn))
    } else if a == 0xB {
        Some(Instruction::JP_V0(nnn))
    } else if a == 0xC {
        Some(Instruction::RND(reg(b), kk))
    } else if a == 0xD {
        Some(Instruction::DRW(reg(b), reg(c), d as u8))
    } else if a == 0xE && c == 0x9 && d == 0xE {
        Some(Instruction::SKP(reg(b)))
    } else if a == 0xE && c == 0xA && d == 0x1 {
        Some(Instruction::SKNP(reg(b)))
    } else if a == 0xF && c == 0x0 && d == 0x7 {
        Some(Instruction::LD_DT(reg(b)))
    } else if a == 0xF && c == 0x0 && d == 0xA {
        Some(Instruction::LD_K(reg(b)))
    } else if a == 0xF && c == 0x1 && d == 0x5 {
        Some(Instruction::SET_DT(reg(b)))
    } else if a == 0xF && c == 0x1 && d == 0x8 {
        Some(Instruction::SET_ST(reg(b)))
    } else if a == 0xF && c == 0x1 && d == 0xE {
        Some(Instruction::ADD_I(reg(b)))
    } else if a == 0xF && c == 0x2 && d == 0x9 {
        Some(Instruction::LD_F(reg(b)))
    } else if a == 0xF && c == 0x3 && d == 0x3 {
        Some(Instruction::LD_B(reg(b)))
    } else if a == 0xF && c == 0x5 && d == 0x5 {
        Some(Instruction::LD_MEM_I(reg(b)))
    } else if a == 0xF && c == 0x6 && d == 0x5 {
        Some(Instruction::LD_I_MEM(reg(b)))
    } else {
        None
    }
}

/// The instruction encoded by the bytes `hi lo`, or the error naming them.
pub open spec fn spec_decode(hi: u8, lo: u8) -> Result<Instruction, InstructionError> {
    match spec_decode_nibbles((hi / 16) as int, (hi % 16) as int, (lo / 16) as int, (lo % 16) as int) {
        Some(instr) => Ok(instr),
        None => Err(InstructionError::InvalidInstruction([hi, lo])),
    }
}

/// The instruction encoded by the big-endian word `word`.
pub open spec fn spec_decode_word(word: u16) -> Result<Instruction, InstructionError> {
    spec_decode((word / 256) as u8, (word % 256) as u8)
}

/// The four nibbles of two bytes, most significant first.
fn split_nibbles(value: [u8; 2]) -> (n: (u8, u8, u8, u8))
    ensures
        n.0 == value[0] / 16,
        n.1 == value[0] % 16,
        n.2 == value[1] / 16,
        n.3 == value[1] % 16,
{
    let (a, b) = split_high_low(value[0]);
    let (c, d) = split_high_low(value[1]);
    (a, b, c, d)
}

/// The high and low nibbles of a byte.
fn split_high_low(byte: u8) -> (n: (u8, u8))
    ensures
        n.0 == byte / 16,
        n.1 == byte % 16,
{
    assert((byte & 0xF0) >> 4u8 == byte / 16) by (bit_vector);
    assert(byte & 0xF == byte % 16) by (bit_vector);
    ((byte & 0xF0) >> 4, byte & 0xF)
}

/// The byte made of nibbles `high` and `low`: `high` shifted into the upper
/// four bits, or-ed with `low`.
fn from_nibbles(high: u8, low: u8) -> (b: u8)
    ensures
        b == (high << 4u8) | low,
        high < 16 && low < 16 ==> b == high * 16 + low,
{
    assert(high < 16 && low < 16 ==> (high << 4u8) | low == high * 16 + low) by (bit_vector);
    (high << 4) | low
}

/// The 12-bit value made of nibbles `a b c`: `a` shifted into bits 8 and up,
/// `b` into bits 4 and up, or-ed with `c`.
fn from_low_12(a: u8, b: u8, c: u8) -> (v: u16)
    ensures
        v == (((a as u16) << 8u16) | ((b as u16) << 4u16)) | (c as u16),
        a < 16 && b < 16 && c < 16 ==> v == a * 256 + b * 16 + c,
{
    let (a16, b16, c16) = (a as u16, b as u16, c as u16);
    assert(a16 < 16 && b16 < 16 && c16 < 16 ==> ((a16 << 8u16) | (b16 << 4u16)) | c16 == a16 * 256
        + b16 * 16 + c16) by (bit_vector);
    ((a16 << 8) | (b16 << 4)) | c16
}

/// The register numbered by a nibble.
fn nibble_reg(n: u8) -> (r: VRegister)
    requires
        n < 16,
    ensures
        r == reg(n as int),
{
    match VRegister::try_from(n) {
        Ok(r) => r,
        Err(()) => {
            assert(false);
            VRegister::V0
        },
    }
}

impl Instruction {
    /// Decode the two bytes of an instruction, most significant first.
    pub fn decode(value: &[u8; 2]) -> (res: Result<Instruction, InstructionError>)
        ensures
            res == spec_decode(value[0], value[1]),
    {
        let (a, b, c, d) = split_nibbles(*value);
        let b_reg = nibble_reg(b);
        let c_reg = nibble_reg(c);
        let nnn = from_low_12(b, c, d);
        let kk = from_nibbles(c, d);
        let instr = if a == 0x0 && b == 0x0 && c == 0xE && d == 0x0 {
            Instruction::CLS
        } else if a == 0x0 && b == 0x0 && c == 0xE && d == 0xE {
            Instruction::RET
        } else if a == 0x1 {
            Instruction::JP(nnn)
        } else if a == 0x2 {
            Instruction::CALL(nnn)
        } else if a == 0x3 {
            Instruction::SE_Value(b_reg, kk)
        } else if a == 0x4 {
            Instruction::SNE(b_reg, kk)
        } else if a == 0x5 && d == 0x0 {
            Instruction::SE_Reg(b_reg, c_reg)
        } else if a == 0x6 {
            Instruction::LD(b_reg, kk)
        } else if a == 0x7 {
            Instruction::ADD(b_reg, kk)
        } else if a == 0x8 && d == 0x0 {
            Instruction::LD_Regs(b_reg, c_reg)
        } else if a == 0x8 && d == 0x1 {
            Instruction::OR(b_reg, c_reg)
        } else if a == 0x8 && d == 0x2 {
            Instruction::AND(b_reg, c_reg)
        } else if a == 0x8 && d == 0x3 {
            Instruction::XOR(b_reg, c_reg)
        } else if a == 0x8 && d == 0x4 {
            Instruction::ADD_Reg(b_reg, c_reg)
        } else if a == 0x8 && d == 0x5 {
            Instruction::SUB(b_reg, c_reg)
        } else if a == 0x8 && d == 0x6 {
            Instruction::SHR(b_reg)
        } else if a == 0x8 && d == 0x7 {
            Instruction::SUBN(b_reg, c_reg)
        } else if a == 0x8 && d == 0xE {
            Instruction::SHL(b_reg)
        } else if a == 0x9 && d == 0x0 {
            Instruction::SNE_Reg(b_reg, c_reg)
        } else if a == 0xA {
            Instruction::LD_I(nnn)
        } else if a == 0xB {
            Instruction::JP_V0(nnn)
        } else if a == 0xC {
            Instruction::RND(b_reg, kk)
        } else if a == 0xD {
            Instruction::DRW(b_reg, c_reg, d)
        } else if a == 0xE && c == 0x9 && d == 0xE {
            Instruction::SKP(b_reg)
        } else if a == 0xE && c == 0xA && d == 0x1 {
            Instruction::SKNP(b_reg)
        } else if a == 0xF && c == 0x0 && d == 0x7 {
            Instruction::LD_DT(b_reg)
        } else if a == 0xF && c == 0x0 && d == 0xA {
            Instruction::LD_K(b_reg)
        } else if a == 0xF && c == 0x1 && d == 0x5 {
            Instruction::SET_DT(b_reg)
        } else if a == 0xF && c == 0x1 && d == 0x8 {
            Instruction::SET_ST(b_reg)
        } else if a == 0xF && c == 0x1 && d == 0xE {
            Instruction::ADD_I(b_reg)
        } else if a == 0xF && c == 0x2 && d == 0x9 {
            Instruction::LD_F(b_reg)
        } else if a == 0xF && c == 0x3 && d == 0x3 {
            Instruction::LD_B(b_reg)
        } else if a == 0xF && c == 0x5 && d == 0x5 {
            Instruction::LD_MEM_I(b_reg)
        } else if a == 0xF && c == 0x6 && d == 0x5 {
            Instruction::LD_I_MEM(b_reg)
        } else {
            assert(*value =~= [value[0], value[1]]);
            return Err(InstructionError::InvalidInstruction(*value));
        };
        Ok(instr)
    }

    /// Decode the big-endian word `value`.
    pub fn decode_word(value: u16) -> (res: Result<Instruction, InstructionError>)
        ensures
            res == spec_decode_word(value),
    {
        let hi = (value >> 8u16) as u8;
        let lo = (value & 0xFF) as u8;
        assert(value >> 8u16 == value / 256) by (bit_vector);
        assert(value & 0xFF == value % 256) by (bit_vector);
        Instruction::decode(&[hi, lo])
    }
}

impl TryFrom<&[u8; 2]> for Instruction {
    type Error = InstructionError;

    fn try_from(value: &[u8; 2]) -> (res: Result<Self, Self::Error>) {
        Instruction::decode(value)
    }
}

impl vstd::std_specs::convert::TryFromSpecImpl<&[u8; 2]> for Instruction {
    open spec fn obeys_try_from_spec() -> bool {
        true
    }

    open spec fn try_from_spec(value: &[u8; 2]) -> Result<Self, Self::Error> {
        spec_decode(value[0], value[1])
    }
}

impl TryFrom<u16> for Instruction {
    type Error = InstructionError;

    fn try_from(value: u16) -> (res: Result<Self, Self::Error>) {
        Instruction::decode_word(value)
    }
}

impl vstd::std_specs::convert::TryFromSpecImpl<u16> for Instruction {
    open spec fn obeys_try_from_spec() -> bool {
        true
    }

    open spec fn try_from_spec(value: u16) -> Result<Self, Self::Error> {
        spec_decode_word(value)
    }
}

} // verus!

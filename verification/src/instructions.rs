use vstd::prelude::*;

use crate::memory::Address;

verus! {

/// A general purpose register, by number.
pub type RegisterIndex = u8;

/// An eight-bit operand.
pub type Value = u8;

/// The first instruction set of the interpreter: the instructions with
/// opcodes `0` to `7`, with registers named by number.
#[derive(Debug, Clone, Copy, PartialEq, Eq, Structural)]
#[allow(non_camel_case_types)]
pub enum Instructions {
    /// Clear the display.
    CLS,
    /// Return from a subroutine.
    RET,
    /// Jump to location nnn.
    JP(Address),
    /// Call subroutine at nnn.
    CALL(Address),
    /// Skip next instruction if Vx = kk.
    SE_Value(RegisterIndex, Value),
    /// Skip next instruction if Vx != kk.
    SNE(RegisterIndex, Value),
    /// Skip next instruction if Vx = Vy.
    SE_Reg(RegisterIndex, RegisterIndex),
    /// Set Vx = kk.
    LD(RegisterIndex, Value),
    /// Set Vx = Vx + kk.
    ADD(RegisterIndex, Value),
}

/// Why a word does not decode to an instruction.
#[derive(Debug, Clone, Copy, PartialEq, Eq, Structural)]
pub enum InstructionsError {
    InvalidInstruction(u16),
}

/// The instruction encoded by `value`, or the error naming it.
pub open spec fn spec_decode_instructions(value: u16) -> Result<Instructions, InstructionsError> {
    let a = value / 4096;
    let b = value / 256 % 16;
    let c = value / 16 % 16;
    let d = value % 16;
    if a == 0 && b == 0 && c == 0xE && d == 0 {
        Ok(Instructions::CLS)
    } else if a == 0 && b == 0 && c == 0xE && d == 0xE {
        Ok(Instructions::RET)
    } else if a == 1 {
        Ok(Instructions::JP(value % 4096))
    } else if a == 2 {
        Ok(Instructions::CALL(value % 4096))
    } else if a == 3 {
        Ok(Instructions::SE_Value(b as u8, (value % 256) as u8))
    } else if a == 4 {
        Ok(Instructions::SNE(b as u8, (value % 256) as u8))
    } else if a == 5 && d == 0 {
        Ok(Instructions::SE_Reg(b as u8, c as u8))
    } else if a == 6 {
        Ok(Instructions::LD(b as u8, (value % 256) as u8))
    } else if a == 7 {
        Ok(Instructions::ADD(b as u8, (value % 256) as u8))
    } else {
        Err(InstructionsError::InvalidInstruction(value))
    }
}

/// The top nibble of a word.
#[allow(dead_code)]
fn upper_4(value: u16) -> (n: u8)
    ensures
        n == value / 4096,
{
    assert(value >> 12u16 == value / 4096) by (bit_vector);
    (value >> 12) as u8
}

/// A word split into its top nibble, its second nibble and its low byte.
#[allow(dead_code)]
fn split_4_4_8(value: u16) -> (n: (u8, u8, u8))
    ensures
        n.0 == value / 4096,
        n.1 == value / 256 % 16,
        n.2 == value % 256,
{
    assert(value >> 12u16 == value / 4096) by (bit_vector);
    assert((value & 0xF00) >> 8u16 == value / 256 % 16) by (bit_vector);
    assert(value & 0xFF == value % 256) by (bit_vector);
    ((value >> 12) as u8, ((value & 0xF00) >> 8) as u8, (value & 0xFF) as u8)
}

/// A word split into its four nibbles, most significant first.
fn split_4_4_4_4(value: u16) -> (n: (u16, u16, u16, u16))
    ensures
        n.0 == value / 4096,
        n.1 == value / 256 % 16,
        n.2 == value / 16 % 16,
        n.3 == value % 16,
        n.1 == (value & 0xF00) >> 8u16,
        n.2 == (value & 0xF0) >> 4u16,
        n.3 == value & 0xF,
{
    assert(value >> 12u16 == value / 4096) by (bit_vector);
    assert((value & 0xF00) >> 8u16 == value / 256 % 16) by (bit_vector);
    assert((value & 0xF0) >> 4u16 == value / 16 % 16) by (bit_vector);
    assert(value & 0xF == value % 16) by (bit_vector);
    (value >> 12, (value & 0xF00) >> 8, (value & 0xF0) >> 4, value & 0xF)
}

impl Instructions {
    /// Decode the word `value`.
    pub fn decode(value: u16) -> (res: Result<Instructions, InstructionsError>)
        ensures
            res == spec_decode_instructions(value),
    {
        let (a, b, c, d) = split_4_4_4_4(value);
        assert(b == (value & 0xF00) >> 8u16 && c == (value & 0xF0) >> 4u16 && d == value & 0xF
            ==> (b << 8u16) + (c << 4u16) + d == value % 4096 && (((c << 4u16) + d) as u8) == value
            % 256) by (bit_vector);
        if a == 0x0 && b == 0x0 && c == 0xE && d == 0x0 {
            Ok(Instructions::CLS)
        } else if a == 0x0 && b == 0x0 && c == 0xE && d == 0xE {
            Ok(Instructions::RET)
        } else if a == 0x1 {
            Ok(Instructions::JP((b << 8) + (c << 4) + d))
        } else if a == 0x2 {
            Ok(Instructions::CALL((b << 8) + (c << 4) + d))
        } else if a == 0x3 {
            Ok(Instructions::SE_Value(b as u8, ((c << 4) + d) as u8))
        } else if a == 0x4 {
            Ok(Instructions::SNE(b as u8, ((c << 4) + d) as u8))
        } else if a == 0x5 && d == 0x0 {
            Ok(Instructions::SE_Reg(b as u8, c as u8))
        } else if a == 0x6 {
            Ok(Instructions::LD(b as u8, ((c << 4) + d) as u8))
        } else if a == 0x7 {
            Ok(Instructions::ADD(b as u8, ((c << 4) + d) as u8))
        } else {
            Err(InstructionsError::InvalidInstruction(value))
        }
    }
}

impl TryFrom<u16> for Instructions {
    type Error = InstructionsError;

    fn try_from(value: u16) -> (res: Result<Self, Self::Error>) {
        Instructions::decode(value)
    }
}

impl vstd::std_specs::convert::TryFromSpecImpl<u16> for Instructions {
    open spec fn obeys_try_from_spec() -> bool {
        true
    }

    open spec fn try_from_spec(value: u16) -> Result<Self, Self::Error> {
        spec_decode_instructions(value)
    }
}

} // verus!

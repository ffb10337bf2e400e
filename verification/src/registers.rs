use vstd::prelude::*;

use crate::memory::Address;

verus! {

/// Value held by a general purpose register.
pub type ValueRegister = u8;

/// Value held by the delay and sound timers.
pub type TimerValue = u8;

/// Number of nested subroutine calls the stack can hold.
pub const MAX_SUBROUTINES: u8 = 16;

/// One of the sixteen general purpose registers `V0` to `VF`.
#[derive(Debug, Clone, Copy, PartialEq, Eq, Structural)]
pub enum VRegister {
    V0,
    V1,
    V2,
    V3,
    V4,
    V5,
    V6,
    V7,
    V8,
    V9,
    VA,
    VB,
    VC,
    VD,
    VE,
    VF,
}

impl VRegister {
    /// The register's number, `0` for `V0` to `15` for `VF`.
    pub open spec fn index(self) -> int {
        match self {
            VRegister::V0 => 0,
            VRegister::V1 => 1,
            VRegister::V2 => 2,
            VRegister::V3 => 3,
            VRegister::V4 => 4,
            VRegister::V5 => 5,
            VRegister::V6 => 6,
            VRegister::V7 => 7,
            VRegister::V8 => 8,
            VRegister::V9 => 9,
            VRegister::VA => 10,
            VRegister::VB => 11,
            VRegister::VC => 12,
            VRegister::VD => 13,
            VRegister::VE => 14,
            VRegister::VF => 15,
        }
    }

    /// The register numbered `n`, for `n < 16`.
    pub open spec fn from_index(n: int) -> VRegister {
        if n == 0 {
            VRegister::V0
        } else if n == 1 {
            VRegister::V1
        } else if n == 2 {
            VRegister::V2
        } else if n == 3 {
            VRegister::V3
        } else if n == 4 {
            VRegister::V4
        } else if n == 5 {
            VRegister::V5
        } else if n == 6 {
            VRegister::V6
        } else if n == 7 {
            VRegister::V7
        } else if n == 8 {
            VRegister::V8
        } else if n == 9 {
            VRegister::V9
        } else if n == 10 {
            VRegister::VA
        } else if n == 11 {
            VRegister::VB
        } else if n == 12 {
            VRegister::VC
        } else if n == 13 {
            VRegister::VD
        } else if n == 14 {
            VRegister::VE
        } else {
            VRegister::VF
        }
    }

    /// The register's number as an index into the register file.
    pub fn to_index(self) -> (i: usize)
        ensures
            i == self.index(),
            i < 16,
    {
        match self {
            VRegister::V0 => 0,
            VRegister::V1 => 1,
            VRegister::V2 => 2,
            VRegister::V3 => 3,
            VRegister::V4 => 4,
            VRegister::V5 => 5,
            VRegister::V6 => 6,
            VRegister::V7 => 7,
            VRegister::V8 => 8,
            VRegister::V9 => 9,
            VRegister::VA => 10,
            VRegister::VB => 11,
            VRegister::VC => 12,
            VRegister::VD => 13,
            VRegister::VE => 14,
            VRegister::VF => 15,
        }
    }
}

/// The register numbered `value`, or `Err(())` when `value > 15`.
pub open spec fn spec_vregister_try_from(value: u8) -> Result<VRegister, ()> {
    if value < 16 {
        Ok(VRegister::from_index(value as int))
    } else {
        Err(())
    }
}

impl TryFrom<u8> for VRegister {
    type Error = ();

    fn try_from(value: u8) -> (res: Result<Self, Self::Error>) {
        match value {
            0x0 => Ok(Self::V0),
            0x1 => Ok(Self::V1),
            0x2 => Ok(Self::V2),
            0x3 => Ok(Self::V3),
            0x4 => Ok(Self::V4),
            0x5 => Ok(Self::V5),
            0x6 => Ok(Self::V6),
            0x7 => Ok(Self::V7),
            0x8 => Ok(Self::V8),
            0x9 => Ok(Self::V9),
            0xA => Ok(Self::VA),
            0xB => Ok(Self::VB),
            0xC => Ok(Self::VC),
            0xD => Ok(Self::VD),
            0xE => Ok(Self::VE),
            0xF => Ok(Self::VF),
            _ => Err(()),
        }
    }
}

impl vstd::std_specs::convert::TryFromSpecImpl<u8> for VRegister {
    open spec fn obeys_try_from_spec() -> bool {
        true
    }

    open spec fn try_from_spec(value: u8) -> Result<Self, Self::Error> {
        spec_vregister_try_from(value)
    }
}

/// The register file of the machine.
#[derive(Debug, Clone)]
pub struct Registers {
    /// The sixteen general purpose registers `V0` to `VF`; `VF` doubles as a
    /// flag for some instructions.
    pub values: [ValueRegister; 16],
    /// Holds memory addresses.
    pub i: Address,
    /// Decremented at 60Hz while non-zero.
    pub delay_timer: TimerValue,
    /// Decremented at 60Hz while non-zero.
    pub sound_timer: TimerValue,
    /// Address of the instruction to execute next.
    pub pc: Address,
    /// Number of return addresses on the stack.
    pub stack_pointer: u8,
    /// Return addresses of the active subroutine calls, oldest first.
    pub stack: [Address; 16],
}

/// Why a stack operation was refused.
#[derive(Debug, Clone, Copy, PartialEq, Eq, Structural)]
pub enum RegistersError {
    /// The stack already holds `MAX_SUBROUTINES` return addresses.
    StackFull,
    /// The stack holds no return address.
    StackEmpty,
}

/// The registers after pushing `addr` on the stack of `r`, and the outcome.
pub open spec fn spec_push_stack(r: Registers, addr: Address) -> (Registers, Result<(), RegistersError>) {
    if r.stack_pointer == MAX_SUBROUTINES {
        (r, Err(RegistersError::StackFull))
    } else {
        (
            Registers {
                stack: vstd::array::spec_array_update(r.stack, r.stack_pointer as int, addr),
                stack_pointer: (r.stack_pointer + 1) as u8,
                ..r
            },
            Ok(()),
        )
    }
}

/// The registers after popping the stack of `r`, and the popped address.
pub open spec fn spec_pop_stack(r: Registers) -> (Registers, Result<Address, RegistersError>) {
    if r.stack_pointer == 0 {
        (r, Err(RegistersError::StackEmpty))
    } else {
        (
            Registers { stack_pointer: (r.stack_pointer - 1) as u8, ..r },
            Ok(r.stack@[r.stack_pointer - 1]),
        )
    }
}

impl Registers {
    /// The stack pointer stays within the stack.
    pub open spec fn wf(&self) -> bool {
        self.stack_pointer <= MAX_SUBROUTINES
    }

    /// The return addresses on the stack, oldest first.
    pub open spec fn stack_contents(&self) -> Seq<Address> {
        self.stack@.take(self.stack_pointer as int)
    }

    /// Registers set to zero, with the program counter at `pc`.
    pub fn with_pc(pc: Address) -> (r: Registers)
        ensures
            r.wf(),
            r.pc == pc,
            r.values@ == Seq::new(16, |j: int| 0u8),
            r.i == 0,
            r.delay_timer == 0,
            r.sound_timer == 0,
            r.stack_pointer == 0,
            r.stack@ == Seq::new(16, |j: int| 0u16),
    {
        let r = Registers {
            values: [0u8; 16],
            i: 0,
            delay_timer: 0,
            sound_timer: 0,
            pc,
            stack_pointer: 0,
            stack: [0u16; 16],
        };
        assert(r.values@ =~= Seq::new(16, |j: int| 0u8));
        assert(r.stack@ =~= Seq::new(16, |j: int| 0u16));
        r
    }

    /// Push a return address.
    pub fn push_stack(&mut self, addr: Address) -> (res: Result<(), RegistersError>)
        requires
            old(self).wf(),
        ensures
            final(self).wf(),
            (*final(self), res) == spec_push_stack(*old(self), addr),
            final(self).stack@ == (if res is Ok {
                old(self).stack@.update(old(self).stack_pointer as int, addr)
            } else {
                old(self).stack@
            }),
            res is Ok ==> final(self).stack_contents() == old(self).stack_contents().push(addr),
    {
        if self.stack_pointer == MAX_SUBROUTINES {
            return Err(RegistersError::StackFull);
        }
        let sp = self.stack_pointer as usize;
        self.stack.set(sp, addr);
        self.stack_pointer = self.stack_pointer + 1;
        assert(self.stack =~= vstd::array::spec_array_update(old(self).stack, sp as int, addr));
        assert(self.stack_contents() =~= old(self).stack_contents().push(addr));
        Ok(())
    }

    /// Pop the most recent return address.
    pub fn pop_stack(&mut self) -> (res: Result<Address, RegistersError>)
        requires
            old(self).wf(),
        ensures
            final(self).wf(),
            (*final(self), res) == spec_pop_stack(*old(self)),
            res is Ok ==> final(self).stack_contents() == old(self).stack_contents().drop_last(),
    {
        if self.stack_pointer == 0 {
            return Err(RegistersError::StackEmpty);
        }
        self.stack_pointer = self.stack_pointer - 1;
        let addr = self.stack[self.stack_pointer as usize];
        assert(self.stack_contents() =~= old(self).stack_contents().drop_last());
        Ok(addr)
    }

    /// The most recent return address, if any.
    pub fn top_stack(&self) -> (res: Option<Address>)
        requires
            self.wf(),
        ensures
            self.stack_pointer == 0 ==> res is None,
            self.stack_pointer > 0 ==> res == Some(self.stack@[self.stack_pointer - 1]),
    {
        if self.stack_pointer > 0 {
            Some(self.stack[self.stack_pointer as usize - 1])
        } else {
            None
        }
    }

    /// Set register `vreg` to `value`.
    pub fn set_vreg(&mut self, vreg: VRegister, value: ValueRegister)
        ensures
            *final(self) == (Registers {
                values: final(self).values,
                ..*old(self)
            }),
            final(self).values@ == old(self).values@.update(vreg.index(), value),
    {
        self.values.set(vreg.to_index(), value);
    }

    /// The value of register `vreg`.
    pub fn vreg(&self, vreg: VRegister) -> (v: ValueRegister)
        ensures
            v == self.values@[vreg.index()],
    {
        self.values[vreg.to_index()]
    }

    /// Decrement the delay timer, stopping at zero.
    pub fn decrease_delay_timer(&mut self)
        ensures
            *final(self) == (Registers {
                delay_timer: if old(self).delay_timer == 0 {
                    0
                } else {
                    (old(self).delay_timer - 1) as u8
                },
                ..*old(self)
            }),
    {
        self.delay_timer = self.delay_timer.saturating_sub(1);
    }

    /// Decrement the sound timer, stopping at zero.
    pub fn decrease_sound_timer(&mut self)
        ensures
            *final(self) == (Registers {
                sound_timer: if old(self).sound_timer == 0 {
                    0
                } else {
                    (old(self).sound_timer - 1) as u8
                },
                ..*old(self)
            }),
    {
        self.sound_timer = self.sound_timer.saturating_sub(1);
    }
}

impl Default for Registers {
    fn default() -> (r: Registers)
        ensures
            r.wf(),
            r.pc == 0,
            r.values@ == Seq::new(16, |j: int| 0u8),
            r.i == 0,
            r.delay_timer == 0,
            r.sound_timer == 0,
            r.stack_pointer == 0,
            r.stack@ == Seq::new(16, |j: int| 0u16),
    {
        Registers::with_pc(0)
    }
}

} // verus!

use vstd::prelude::*;

use rand::rngs::ThreadRng;
use rand::RngExt;

use crate::instruction::{spec_decode, Instruction, InstructionError};
use crate::keyboard::{key_from_value, spec_key_try_from, Ch8Keyboard, KeyError};
use crate::memory::{
    digit_addr, initial_bytes, read_overruns, spec_digit_addr, spec_is_reserved, spec_write,
    store_overruns, AccessKind, Address, Memory, MemoryError, MEMORY_SIZE,
};
use crate::registers::{Registers, RegistersError, VRegister, ValueRegister, MAX_SUBROUTINES};
use crate::screen::{spec_collision, spec_draw, Sprite, StandardScreen};

verus! {

/// Address at which programs are loaded and execution starts.
pub const START_ADDRESS: Address = 0x200;

/// What the machine does after an instruction.
#[derive(Debug, Clone, Copy, PartialEq, Eq, Structural)]
pub enum ExecutionResult {
    /// Go on with the next instruction.
    Continue,
    /// Wait for a key press and store its value in the register.
    WaitForKey(VRegister),
}

/// Why an instruction could not be executed.
#[derive(Debug, Clone, Copy, PartialEq, Eq, Structural)]
pub enum ExecutionError {
    Registers(RegistersError),
    Memory(MemoryError),
    BadKeyValue(KeyError),
}

/// Why the next instruction could not be fetched.
#[derive(Debug, Clone, Copy, PartialEq, Eq)]
pub enum InstructionFetchError {
    BadInstruction(InstructionError),
    BadMemoryAccess(MemoryError),
}

/// The state of the machine as the instructions see it.
#[verifier::ext_equal]
pub struct CpuView {
    /// The general purpose registers `V0` to `VF`.
    pub v: Seq<u8>,
    pub i: u16,
    pub pc: u16,
    pub dt: u8,
    pub st: u8,
    pub sp: u8,
    pub stack: Seq<u16>,
    pub mem: Seq<u8>,
    pub screen: Seq<u64>,
    /// Which keys are down, by key value.
    pub keys: Seq<bool>,
}

/// `s` with register `x` set to `val`.
pub open spec fn set_v(s: CpuView, x: VRegister, val: u8) -> CpuView {
    CpuView { v: s.v.update(x.index(), val), ..s }
}

/// `s` with the next instruction skipped when `cond` holds.
pub open spec fn skip_if(s: CpuView, cond: bool) -> CpuView {
    if cond {
        CpuView { pc: (s.pc + 2) as u16, ..s }
    } else {
        s
    }
}

/// `(a - b) mod 256`.
pub open spec fn wrapping_sub_u8(a: u8, b: u8) -> u8 {
    if a >= b {
        (a - b) as u8
    } else {
        (a - b + 256) as u8
    }
}

/// The rows of the sprite of `n` bytes at `addr`, at most `Sprite::MAX_LEN`.
pub open spec fn sprite_at(mem: Seq<u8>, addr: int, n: int) -> Seq<u8> {
    mem.subrange(addr, addr + n).take(if n < 15 { n } else { 15 })
}

/// Registers `V0` to `Vx` loaded from `mem` starting at `addr`.
pub open spec fn load_regs(v: Seq<u8>, mem: Seq<u8>, addr: int, x: int) -> Seq<u8> {
    Seq::new(v.len(), |k: int| if k <= x { mem[addr + k] } else { v[k] })
}

/// A normal outcome.
pub open spec fn cont(s: CpuView) -> (CpuView, Result<ExecutionResult, ExecutionError>) {
    (s, Ok(ExecutionResult::Continue))
}

/// A refused instruction: the state as it was, and the error.
pub open spec fn fail(s: CpuView, e: ExecutionError) -> (
    CpuView,
    Result<ExecutionResult, ExecutionError>,
) {
    (s, Err(e))
}

/// Whether a skip would move the program counter past `u16::MAX`.
pub open spec fn skip_overflows(s: CpuView, cond: bool) -> bool {
    cond && s.pc + 2 > u16::MAX
}

/// Whether executing `instr` in `s` is defined: the inputs on which the
/// interpreter would abort (an arithmetic overflow of an address, or an access
/// to the byte at `MEMORY_SIZE`, which the memory does not hold) are left out.
pub open spec fn execute_defined(s: CpuView, instr: Instruction) -> bool {
    match instr {
        Instruction::SE_Value(x, kk) => !skip_overflows(s, s.v[x.index()] == kk),
        Instruction::SNE(x, kk) => !skip_overflows(s, s.v[x.index()] != kk),
        Instruction::SE_Reg(x, y) => !skip_overflows(s, s.v[x.index()] == s.v[y.index()]),
        Instruction::SNE_Reg(x, y) => !skip_overflows(s, s.v[x.index()] != s.v[y.index()]),
        Instruction::JP_V0(a) => s.v[0] + a <= u16::MAX,
        Instruction::DRW(_, _, n) => !read_overruns(s.i as int, n as int),
        Instruction::SKP(x) => s.v[x.index()] < 16 ==> !skip_overflows(
            s,
            s.keys[s.v[x.index()] as int],
        ),
        Instruction::SKNP(x) => s.v[x.index()] < 16 ==> !skip_overflows(
            s,
            !s.keys[s.v[x.index()] as int],
        ),
        Instruction::ADD_I(x) => s.i + s.v[x.index()] <= u16::MAX,
        Instruction::LD_B(_) => !(MEMORY_SIZE - 2 <= s.i <= MEMORY_SIZE),
        Instruction::LD_MEM_I(x) => s.i != u16::MAX && !(!spec_is_reserved(s.i as int) && s.i
            <= MEMORY_SIZE && s.i + x.index() >= MEMORY_SIZE),
        Instruction::LD_I_MEM(x) => s.i != u16::MAX && !(s.i <= MEMORY_SIZE && s.i + x.index()
            >= MEMORY_SIZE),
        _ => true,
    }
}

/// The state after executing `instr` in `s`, with `rnd` the random byte that
/// `RND` draws, and the outcome. A refused instruction leaves the state as it
/// was.
pub open spec fn spec_execute(s: CpuView, instr: Instruction, rnd: u8) -> (
    CpuView,
    Result<ExecutionResult, ExecutionError>,
) {
    match instr {
        Instruction::CLS => cont(CpuView { screen: Seq::new(32, |r: int| 0u64), ..s }),
        Instruction::RET => if s.sp == 0 {
            fail(s, ExecutionError::Registers(RegistersError::StackEmpty))
        } else {
            cont(CpuView { sp: (s.sp - 1) as u8, pc: s.stack[s.sp - 1], ..s })
        },
        Instruction::JP(a) => cont(CpuView { pc: a, ..s }),
        Instruction::CALL(a) => if s.sp == MAX_SUBROUTINES {
            fail(s, ExecutionError::Registers(RegistersError::StackFull))
        } else {
            cont(CpuView { stack: s.stack.update(s.sp as int, s.pc), sp: (s.sp + 1) as u8, pc: a, ..s })
        },
        Instruction::SE_Value(x, kk) => cont(skip_if(s, s.v[x.index()] == kk)),
        Instruction::SNE(x, kk) => cont(skip_if(s, s.v[x.index()] != kk)),
        Instruction::SE_Reg(x, y) => cont(skip_if(s, s.v[x.index()] == s.v[y.index()])),
        Instruction::LD(x, kk) => cont(set_v(s, x, kk)),
        Instruction::ADD(x, kk) => cont(set_v(s, x, ((s.v[x.index()] + kk) % 256) as u8)),
        Instruction::LD_Regs(x, y) => cont(set_v(s, x, s.v[y.index()])),
        Instruction::OR(x, y) => cont(set_v(s, x, s.v[x.index()] | s.v[y.index()])),
        Instruction::AND(x, y) => cont(set_v(s, x, s.v[x.index()] & s.v[y.index()])),
        Instruction::XOR(x, y) => cont(set_v(s, x, s.v[x.index()] ^ s.v[y.index()])),
        Instruction::ADD_Reg(x, y) => {
            let sum = s.v[x.index()] + s.v[y.index()];
            cont(
                set_v(
                    set_v(s, x, (sum % 256) as u8),
                    VRegister::VF,
                    if sum > 255 {
                        1
                    } else {
                        0
                    },
                ),
            )
        },
        Instruction::SUB(x, y) => {
            let (a, b) = (s.v[x.index()], s.v[y.index()]);
            cont(
                set_v(
                    set_v(s, x, wrapping_sub_u8(a, b)),
                    VRegister::VF,
                    if a >= b {
                        1
                    } else {
                        0
                    },
                ),
            )
        },
        Instruction::SHR(x) => {
            let value = s.v[x.index()];
            cont(set_v(set_v(s, VRegister::VF, value % 2), x, value / 2))
        },
        Instruction::SUBN(x, y) => {
            let (a, b) = (s.v[x.index()], s.v[y.index()]);
            cont(
                set_v(
                    set_v(s, x, wrapping_sub_u8(b, a)),
                    VRegister::VF,
                    if b >= a {
                        1
                    } else {
                        0
                    },
                ),
            )
        },
        Instruction::SHL(x) => {
            let value = s.v[x.index()];
            cont(set_v(set_v(s, VRegister::VF, value / 128), x, ((value * 2) % 256) as u8))
        },
        Instruction::SNE_Reg(x, y) => cont(skip_if(s, s.v[x.index()] != s.v[y.index()])),
        Instruction::LD_I(a) => cont(CpuView { i: a, ..s }),
        Instruction::JP_V0(a) => cont(CpuView { pc: (s.v[0] + a) as u16, ..s }),
        Instruction::RND(x, kk) => cont(set_v(s, x, rnd & kk)),
        Instruction::DRW(x, y, n) => if s.i + n - 1 > MEMORY_SIZE {
            fail(s, ExecutionError::Memory(MemoryError::OutOfBound(AccessKind::Read, s.i)))
        } else {
            let sprite = sprite_at(s.mem, s.i as int, n as int);
            let px = (s.v[x.index()] % 64) as int;
            let py = (s.v[y.index()] % 32) as int;
            cont(
                set_v(
                    CpuView { screen: spec_draw(s.screen, sprite, px, py), ..s },
                    VRegister::VF,
                    if spec_collision(s.screen, sprite, px, py) {
                        1
                    } else {
                        0
                    },
                ),
            )
        },
        Instruction::SKP(x) => match spec_key_try_from(s.v[x.index()]) {
            Ok(k) => cont(skip_if(s, s.keys[k.value() as int])),
            Err(e) => fail(s, ExecutionError::BadKeyValue(e)),
        },
        Instruction::SKNP(x) => match spec_key_try_from(s.v[x.index()]) {
            Ok(k) => cont(skip_if(s, !s.keys[k.value() as int])),
            Err(e) => fail(s, ExecutionError::BadKeyValue(e)),
        },
        Instruction::LD_DT(x) => cont(set_v(s, x, s.dt)),
        Instruction::LD_K(x) => (s, Ok(ExecutionResult::WaitForKey(x))),
        Instruction::SET_DT(x) => cont(CpuView { dt: s.v[x.index()], ..s }),
        Instruction::SET_ST(x) => cont(CpuView { st: s.v[x.index()], ..s }),
        Instruction::ADD_I(x) => cont(CpuView { i: (s.i + s.v[x.index()]) as u16, ..s }),
        Instruction::LD_F(x) => cont(CpuView { i: spec_digit_addr(s.v[x.index()]) as u16, ..s }),
        Instruction::LD_B(x) => if spec_is_reserved(s.i as int) {
            fail(s, ExecutionError::Memory(MemoryError::ReservedAddr(AccessKind::Write, s.i)))
        } else if s.i > MEMORY_SIZE {
            fail(s, ExecutionError::Memory(MemoryError::OutOfBound(AccessKind::Write, s.i)))
        } else {
            let value = s.v[x.index()];
            let digits = seq![value / 100, value % 100 / 10, value % 10];
            cont(CpuView { mem: spec_write(s.mem, digits, s.i as int), ..s })
        },
        Instruction::LD_MEM_I(x) => if spec_is_reserved(s.i as int) {
            fail(s, ExecutionError::Memory(MemoryError::ReservedAddr(AccessKind::Write, s.i)))
        } else if s.i > MEMORY_SIZE {
            fail(s, ExecutionError::Memory(MemoryError::OutOfBound(AccessKind::Write, s.i)))
        } else {
            cont(CpuView { mem: spec_write(s.mem, s.v.take(x.index() + 1), s.i as int), ..s })
        },
        Instruction::LD_I_MEM(x) => if s.i > MEMORY_SIZE {
            fail(s, ExecutionError::Memory(MemoryError::OutOfBound(AccessKind::Read, s.i)))
        } else {
            cont(CpuView { v: load_regs(s.v, s.mem, s.i as int, x.index()), ..s })
        },
    }
}

/// The outcome of fetching the instruction at `s.pc`; on success the program
/// counter moves past it.
pub open spec fn spec_next_instr(s: CpuView) -> (CpuView, Result<Instruction, InstructionFetchError>) {
    if s.pc + 1 > MEMORY_SIZE {
        (s, Err(InstructionFetchError::BadMemoryAccess(MemoryError::OutOfBound(AccessKind::Read, s.pc))))
    } else {
        match spec_decode(s.mem[s.pc as int], s.mem[s.pc + 1]) {
            Ok(instr) => (CpuView { pc: (s.pc + 2) as u16, ..s }, Ok(instr)),
            Err(e) => (s, Err(InstructionFetchError::BadInstruction(e))),
        }
    }
}

/// Whether fetching the instruction at `s.pc` is defined: the program counter
/// plus two must fit in `u16` and must not end the read at `MEMORY_SIZE`.
pub open spec fn fetch_defined(s: CpuView) -> bool {
    !read_overruns(s.pc as int, 2)
}

/// Whether `instr` is a display or control flow instruction.
pub open spec fn is_flow(instr: Instruction) -> bool {
    ||| instr is CLS
    ||| instr is RET
    ||| instr is JP
    ||| instr is CALL
    ||| instr is SE_Value
    ||| instr is SNE
    ||| instr is SE_Reg
    ||| instr is SNE_Reg
    ||| instr is JP_V0
}

/// Whether `instr` is a load or a logic instruction on the registers.
pub open spec fn is_alu(instr: Instruction) -> bool {
    ||| instr is LD
    ||| instr is ADD
    ||| instr is LD_Regs
    ||| instr is OR
    ||| instr is AND
    ||| instr is XOR
}

/// Whether `instr` sets the flag register `VF` from its operands.
pub open spec fn is_flagged(instr: Instruction) -> bool {
    ||| instr is ADD_Reg
    ||| instr is SUB
    ||| instr is SHR
    ||| instr is SUBN
    ||| instr is SHL
}

/// Whether `instr` is an instruction on I, the timers, the keypad or the random generator.
pub open spec fn is_misc(instr: Instruction) -> bool {
    ||| instr is LD_I
    ||| instr is RND
    ||| instr is SKP
    ||| instr is SKNP
    ||| instr is LD_DT
    ||| instr is LD_K
    ||| instr is SET_DT
    ||| instr is SET_ST
    ||| instr is ADD_I
    ||| instr is LD_F
}

#[verifier::external_type_specification]
#[verifier::external_body]
pub struct ExThreadRng(ThreadRng);

/// `rand::rng`: a handle on the thread's random generator. Nothing is stated
/// of it. It panics if the operating system's generator fails when the thread's
/// generator is first seeded; no input of the library controls that.
#[verifier::external_body]
fn thread_rng() -> ThreadRng {
    rand::rng()
}

/// `rand::RngExt::random`, drawing one byte. What it returns depends on
/// chance, so nothing is stated of it.
#[verifier::external_body]
fn random_byte(rng: &mut ThreadRng) -> u8 {
    rng.random()
}

/// The processor: registers, keypad, memory and display.
#[derive(Debug, Clone)]
pub struct Cpu {
    pub registers: Registers,
    pub keyboard: Ch8Keyboard,
    pub memory: Memory,
    pub screen: StandardScreen,
}

impl View for Cpu {
    type V = CpuView;

    open spec fn view(&self) -> CpuView {
        CpuView {
            v: self.registers.values@,
            i: self.registers.i,
            pc: self.registers.pc,
            dt: self.registers.delay_timer,
            st: self.registers.sound_timer,
            sp: self.registers.stack_pointer,
            stack: self.registers.stack@,
            mem: self.memory.bytes(),
            screen: self.screen.rows(),
            keys: self.keyboard.down(),
        }
    }
}

impl Cpu {
    /// The register stack pointer stays within the stack.
    pub open spec fn wf(&self) -> bool {
        self.registers.wf()
    }

    /// A machine with the font loaded, a dark display, every key up, every
    /// register zero and the program counter at `START_ADDRESS`.
    pub fn new() -> (cpu: Cpu)
        ensures
            cpu.wf(),
            cpu@.v == Seq::new(16, |j: int| 0u8),
            cpu@.i == 0,
            cpu@.pc == START_ADDRESS,
            cpu@.dt == 0,
            cpu@.st == 0,
            cpu@.sp == 0,
            cpu@.stack == Seq::new(16, |j: int| 0u16),
            cpu@.mem == initial_bytes(),
            cpu@.screen == Seq::new(32, |r: int| 0u64),
            cpu@.keys == Seq::new(16, |j: int| false),
    {
        Cpu {
            registers: Registers::with_pc(START_ADDRESS),
            keyboard: Ch8Keyboard::new(),
            memory: Memory::new(),
            screen: StandardScreen::new(),
        }
    }

    /// A fresh machine with `bytes` loaded at `START_ADDRESS`; refused when the
    /// program does not fit below `MEMORY_SIZE`.
    pub fn load_program(bytes: &[u8]) -> (res: Result<Cpu, MemoryError>)
        requires
            !store_overruns(START_ADDRESS as int, bytes@.len() as int),
            START_ADDRESS + bytes@.len() <= usize::MAX,
        ensures
            START_ADDRESS + bytes@.len() - 1 > MEMORY_SIZE ==> res == Err::<Cpu, MemoryError>(
                MemoryError::OutOfBound(AccessKind::Write, START_ADDRESS),
            ),
            START_ADDRESS + bytes@.len() - 1 <= MEMORY_SIZE ==> res is Ok,
            res matches Ok(cpu) ==> {
                &&& cpu.wf()
                &&& cpu@.v == Seq::new(16, |j: int| 0u8)
                &&& cpu@.i == 0
                &&& cpu@.pc == START_ADDRESS
                &&& cpu@.dt == 0
                &&& cpu@.st == 0
                &&& cpu@.sp == 0
                &&& cpu@.stack == Seq::new(16, |j: int| 0u16)
                &&& cpu@.mem == spec_write(initial_bytes(), bytes@, START_ADDRESS as int)
                &&& cpu@.screen == Seq::new(32, |r: int| 0u64)
                &&& cpu@.keys == Seq::new(16, |j: int| false)
            },
    {
        let mut cpu = Cpu::new();
        match cpu.memory.store(bytes, START_ADDRESS) {
            Ok(()) => Ok(cpu),
            Err(e) => Err(e),
        }
    }

    /// Fetch the instruction at the program counter and move past it.
    pub fn next_instr(&mut self) -> (res: Result<Instruction, InstructionFetchError>)
        requires
            fetch_defined(old(self)@),
        ensures
            final(self).wf() == old(self).wf(),
            (final(self)@, res) == spec_next_instr(old(self)@),
    {
        let pc = self.registers.pc;
        let bytes = match self.memory.read(pc, 2) {
            Ok(b) => b,
            Err(e) => return Err(InstructionFetchError::BadMemoryAccess(e)),
        };
        let word: [u8; 2] = [bytes[0], bytes[1]];
        match Instruction::decode(&word) {
            Ok(instr) => {
                self.registers.pc = pc + 2;
                Ok(instr)
            },
            Err(e) => Err(InstructionFetchError::BadInstruction(e)),
        }
    }

    /// The value of register `vreg`.
    fn vreg(&self, vreg: VRegister) -> (v: ValueRegister)
        ensures
            v == self@.v[vreg.index()],
    {
        self.registers.vreg(vreg)
    }

    /// Set register `vreg` to `value`.
    pub fn set_vreg(&mut self, vreg: VRegister, value: ValueRegister)
        ensures
            final(self).wf() == old(self).wf(),
            final(self)@ == set_v(old(self)@, vreg, value),
    {
        self.registers.set_vreg(vreg, value);
    }

    /// Set the flag register `VF`.
    fn set_f(&mut self, value: ValueRegister)
        ensures
            final(self).wf() == old(self).wf(),
            final(self)@ == set_v(old(self)@, VRegister::VF, value),
    {
        self.set_vreg(VRegister::VF, value);
    }

    /// Set register `vx` to `value`, then the flag register to `flag`.
    fn write_result_then_flag(&mut self, vx: VRegister, value: u8, flag: u8)
        ensures
            final(self).wf() == old(self).wf(),
            final(self)@ == set_v(set_v(old(self)@, vx, value), VRegister::VF, flag),
    {
        self.set_vreg(vx, value);
        self.set_f(flag);
    }

    /// Set the flag register to `flag`, then register `vx` to `value`.
    fn write_flag_then_result(&mut self, flag: u8, vx: VRegister, value: u8)
        ensures
            final(self).wf() == old(self).wf(),
            final(self)@ == set_v(set_v(old(self)@, VRegister::VF, flag), vx, value),
    {
        self.set_f(flag);
        self.set_vreg(vx, value);
    }

    /// Set the program counter.
    fn set_pc(&mut self, addr: Address)
        ensures
            final(self).wf() == old(self).wf(),
            final(self)@ == (CpuView { pc: addr, ..old(self)@ }),
    {
        self.registers.pc = addr;
    }

    /// Skip the next instruction when `cond` holds.
    fn skip_instr_if(&mut self, cond: bool)
        requires
            !skip_overflows(old(self)@, cond),
        ensures
            final(self).wf() == old(self).wf(),
            final(self)@ == skip_if(old(self)@, cond),
    {
        if cond {
            self.registers.pc = self.registers.pc + 2;
        }
    }

    /// `LD_B`: store the decimal digits of Vx at I, I+1 and I+2.
    fn store_bcd(&mut self, x: VRegister) -> (res: Result<ExecutionResult, ExecutionError>)
        requires
            execute_defined(old(self)@, Instruction::LD_B(x)),
        ensures
            final(self).wf() == old(self).wf(),
            (final(self)@, res) == spec_execute(old(self)@, Instruction::LD_B(x), 0),
    {
        let value = self.vreg(x);
        let i = self.registers.i;
        if let Err(e) = self.memory.store(&[value / 100], i) {
            return Err(ExecutionError::Memory(e));
        }
        if let Err(e) = self.memory.store(&[value % 100 / 10], i + 1) {
            return Err(ExecutionError::Memory(e));
        }
        if let Err(e) = self.memory.store(&[value % 10], i + 2) {
            return Err(ExecutionError::Memory(e));
        }
        let ghost digits = seq![value / 100, value % 100 / 10, value % 10];
        assert(self.memory.bytes() =~= spec_write(old(self)@.mem, digits, i as int));
        Ok(ExecutionResult::Continue)
    }

    /// `LD_MEM_I`: store V0 to Vx in memory from I on.
    fn store_registers(&mut self, x: VRegister) -> (res: Result<ExecutionResult, ExecutionError>)
        requires
            execute_defined(old(self)@, Instruction::LD_MEM_I(x)),
        ensures
            final(self).wf() == old(self).wf(),
            (final(self)@, res) == spec_execute(old(self)@, Instruction::LD_MEM_I(x), 0),
    {
        let n = x.to_index() + 1;
        let base = self.registers.i;
        let ghost v = self.registers.values@;
        let ghost mem0 = self.memory.bytes();
        let mut k: usize = 0;
        while k < n
            invariant
                0 <= k <= n,
                n == x.index() + 1,
                n <= 16,
                base == old(self)@.i,
                base != u16::MAX,
                self.registers == old(self).registers,
                self.keyboard == old(self).keyboard,
                self.screen == old(self).screen,
                v == old(self)@.v,
                mem0 == old(self)@.mem,
                k > 0 ==> !spec_is_reserved(base as int) && base <= MEMORY_SIZE,
                !(!spec_is_reserved(base as int) && base <= MEMORY_SIZE && base + x.index()
                    >= MEMORY_SIZE),
                self.memory.bytes() == spec_write(mem0, v.take(k as int), base as int),
            decreases n - k,
        {
            let value = self.registers.values[k];
            let addr = base + k as u16;
            match self.memory.store(&[value], addr) {
                Err(e) => {
                    assert(k == 0);
                    assert(self.memory.bytes() =~= mem0);
                    return Err(ExecutionError::Memory(e));
                },
                Ok(()) => {},
            }
            assert(self.memory.bytes() =~= spec_write(mem0, v.take(k + 1), base as int));
            k = k + 1;
        }
        assert(v.take(n as int) =~= v.take(x.index() + 1));
        Ok(ExecutionResult::Continue)
    }

    /// `LD_I_MEM`: load V0 to Vx from memory from I on.
    fn load_registers(&mut self, x: VRegister) -> (res: Result<ExecutionResult, ExecutionError>)
        requires
            execute_defined(old(self)@, Instruction::LD_I_MEM(x)),
        ensures
            final(self).wf() == old(self).wf(),
            (final(self)@, res) == spec_execute(old(self)@, Instruction::LD_I_MEM(x), 0),
    {
        let n = x.to_index() + 1;
        let base = self.registers.i;
        let ghost v0 = self.registers.values@;
        let ghost mem = self.memory.bytes();
        let mut k: usize = 0;
        while k < n
            invariant
                0 <= k <= n,
                n == x.index() + 1,
                n <= 16,
                base == old(self)@.i,
                base != u16::MAX,
                self.memory == old(self).memory,
                self.keyboard == old(self).keyboard,
                self.screen == old(self).screen,
                self.registers.i == old(self).registers.i,
                self.registers.pc == old(self).registers.pc,
                self.registers.delay_timer == old(self).registers.delay_timer,
                self.registers.sound_timer == old(self).registers.sound_timer,
                self.registers.stack_pointer == old(self).registers.stack_pointer,
                self.registers.stack == old(self).registers.stack,
                v0 == old(self)@.v,
                mem == old(self)@.mem,
                k > 0 ==> base <= MEMORY_SIZE,
                !(base <= MEMORY_SIZE && base + x.index() >= MEMORY_SIZE),
                self.registers.values@ == load_regs(v0, mem, base as int, k - 1),
            decreases n - k,
        {
            let addr = base + k as u16;
            let b = match self.memory.read(addr, 1) {
                Err(e) => {
                    assert(k == 0);
                    assert(self.registers.values@ =~= v0);
                    return Err(ExecutionError::Memory(e));
                },
                Ok(s) => s[0],
            };
            self.registers.values.set(k, b);
            assert(self.registers.values@ =~= load_regs(v0, mem, base as int, k as int));
            k = k + 1;
        }
        Ok(ExecutionResult::Continue)
    }

    /// `DRW`: draw the sprite of `n` bytes at I at (Vx, Vy), set VF to the
    /// collision flag.
    fn draw(&mut self, x: VRegister, y: VRegister, n: u8) -> (res: Result<
        ExecutionResult,
        ExecutionError,
    >)
        requires
            execute_defined(old(self)@, Instruction::DRW(x, y, n)),
        ensures
            final(self).wf() == old(self).wf(),
            (final(self)@, res) == spec_execute(old(self)@, Instruction::DRW(x, y, n), 0),
    {
        let i = self.registers.i;
        let sprite = match self.memory.read(i, n as Address) {
            Err(e) => return Err(ExecutionError::Memory(e)),
            Ok(bytes) => Sprite::from(bytes),
        };
        let px = self.vreg(x);
        let py = self.vreg(y);
        let collision = self.screen.write_sprite(&sprite, px as usize, py as usize);
        self.set_f(if collision { 1 } else { 0 });
        Ok(ExecutionResult::Continue)
    }

    /// Execute a display or control flow instruction.
    fn execute_flow(&mut self, instr: Instruction, rnd: u8) -> (res: Result<
        ExecutionResult,
        ExecutionError,
    >)
        requires
            old(self).wf(),
            execute_defined(old(self)@, instr),
            is_flow(instr),
        ensures
            final(self).wf(),
            (final(self)@, res) == spec_execute(old(self)@, instr, rnd),
    {
        match instr {
            Instruction::CLS => self.screen.clear(),
            Instruction::RET => {
                match self.registers.pop_stack() {
                    Ok(addr) => self.set_pc(addr),
                    Err(e) => return Err(ExecutionError::Registers(e)),
                }
            },
            Instruction::JP(addr) => self.set_pc(addr),
            Instruction::CALL(addr) => {
                let pc = self.registers.pc;
                match self.registers.push_stack(pc) {
                    Ok(()) => self.set_pc(addr),
                    Err(e) => return Err(ExecutionError::Registers(e)),
                }
            },
            Instruction::SE_Value(vx, kk) => {
                let c = self.vreg(vx) == kk;
                self.skip_instr_if(c);
            },
            Instruction::SNE(vx, kk) => {
                let c = self.vreg(vx) != kk;
                self.skip_instr_if(c);
            },
            Instruction::SE_Reg(vx, vy) => {
                let c = self.vreg(vx) == self.vreg(vy);
                self.skip_instr_if(c);
            },
            Instruction::SNE_Reg(vx, vy) => {
                let c = self.vreg(vx) != self.vreg(vy);
                self.skip_instr_if(c);
            },
            Instruction::JP_V0(addr) => {
                let v0 = self.vreg(VRegister::V0);
                self.set_pc(v0 as Address + addr);
            },
            _ => {
                assert(false);
            },
        }
        Ok(ExecutionResult::Continue)
    }

    /// Execute a load or a logic instruction on the registers.
    fn execute_alu(&mut self, instr: Instruction, rnd: u8) -> (res: Result<
        ExecutionResult,
        ExecutionError,
    >)
        requires
            old(self).wf(),
            execute_defined(old(self)@, instr),
            is_alu(instr),
        ensures
            final(self).wf(),
            (final(self)@, res) == spec_execute(old(self)@, instr, rnd),
    {
        match instr {
            Instruction::LD(vx, kk) => self.set_vreg(vx, kk),
            Instruction::ADD(vx, kk) => {
                let r = self.vreg(vx).wrapping_add(kk);
                self.set_vreg(vx, r);
            },
            Instruction::LD_Regs(vx, vy) => {
                let r = self.vreg(vy);
                self.set_vreg(vx, r);
            },
            Instruction::OR(vx, vy) => {
                let r = self.vreg(vx) | self.vreg(vy);
                self.set_vreg(vx, r);
            },
            Instruction::AND(vx, vy) => {
                let r = self.vreg(vx) & self.vreg(vy);
                self.set_vreg(vx, r);
            },
            Instruction::XOR(vx, vy) => {
                let r = self.vreg(vx) ^ self.vreg(vy);
                self.set_vreg(vx, r);
            },
            _ => {
                assert(false);
            },
        }
        Ok(ExecutionResult::Continue)
    }

    /// Execute an instruction that sets the flag register `VF`.
    #[verifier::spinoff_prover]
    fn execute_flagged(&mut self, instr: Instruction, rnd: u8) -> (res: Result<
        ExecutionResult,
        ExecutionError,
    >)
        requires
            old(self).wf(),
            execute_defined(old(self)@, instr),
            is_flagged(instr),
        ensures
            final(self).wf(),
            (final(self)@, res) == spec_execute(old(self)@, instr, rnd),
    {
        match instr {
            Instruction::ADD_Reg(vx, vy) => {
                let a = self.vreg(vx);
                let b = self.vreg(vy);
                let carry = a > u8::MAX - b;
                self.write_result_then_flag(vx, a.wrapping_add(b), if carry { 1 } else { 0 });
            },
            Instruction::SUB(vx, vy) => {
                let a = self.vreg(vx);
                let b = self.vreg(vy);
                let borrow = a < b;
                self.write_result_then_flag(vx, a.wrapping_sub(b), if !borrow { 1 } else { 0 });
            },
            Instruction::SHR(vx) => {
                let value = self.vreg(vx);
                assert(value & 1 == value % 2) by (bit_vector);
                assert(value >> 1u8 == value / 2) by (bit_vector);
                self.write_flag_then_result(value & 1, vx, value >> 1);
            },
            Instruction::SUBN(vx, vy) => {
                let a = self.vreg(vx);
                let b = self.vreg(vy);
                let borrow = b < a;
                self.write_result_then_flag(vx, b.wrapping_sub(a), if !borrow { 1 } else { 0 });
            },
            Instruction::SHL(vx) => {
                let value = self.vreg(vx);
                assert(value >> 7u8 == value / 128) by (bit_vector);
                assert(value << 1u8 == (value * 2) % 256) by (bit_vector);
                self.write_flag_then_result(value >> 7, vx, value << 1);
            },
            _ => {
                assert(false);
            },
        }
        Ok(ExecutionResult::Continue)
    }

    /// Execute an instruction on I, the timers, the keypad or the random generator.
    fn execute_misc(&mut self, instr: Instruction, rnd: u8) -> (res: Result<
        ExecutionResult,
        ExecutionError,
    >)
        requires
            old(self).wf(),
            execute_defined(old(self)@, instr),
            is_misc(instr),
        ensures
            final(self).wf(),
            (final(self)@, res) == spec_execute(old(self)@, instr, rnd),
    {
        match instr {
            Instruction::LD_I(addr) => self.registers.i = addr,
            Instruction::RND(vx, kk) => self.set_vreg(vx, rnd & kk),
            Instruction::SKP(vx) => {
                match key_from_value(self.vreg(vx)) {
                    Ok(key) => {
                        let c = self.keyboard.is_down(key);
                        self.skip_instr_if(c);
                    },
                    Err(e) => return Err(ExecutionError::BadKeyValue(e)),
                }
            },
            Instruction::SKNP(vx) => {
                match key_from_value(self.vreg(vx)) {
                    Ok(key) => {
                        let c = self.keyboard.is_up(key);
                        self.skip_instr_if(c);
                    },
                    Err(e) => return Err(ExecutionError::BadKeyValue(e)),
                }
            },
            Instruction::LD_DT(vx) => {
                let dt = self.registers.delay_timer;
                self.set_vreg(vx, dt);
            },
            Instruction::LD_K(vx) => return Ok(ExecutionResult::WaitForKey(vx)),
            Instruction::SET_DT(vx) => self.registers.delay_timer = self.vreg(vx),
            Instruction::SET_ST(vx) => self.registers.sound_timer = self.vreg(vx),
            Instruction::ADD_I(vx) => self.registers.i = self.registers.i + self.vreg(vx) as Address,
            Instruction::LD_F(vx) => self.registers.i = digit_addr(self.vreg(vx)),
            _ => {
                assert(false);
            },
        }
        Ok(ExecutionResult::Continue)
    }

    /// Execute `instr`, with `rnd` as the random byte that `RND` uses.
    pub fn execute_with(&mut self, instr: Instruction, rnd: u8) -> (res: Result<
        ExecutionResult,
        ExecutionError,
    >)
        requires
            old(self).wf(),
            execute_defined(old(self)@, instr),
        ensures
            final(self).wf(),
            (final(self)@, res) == spec_execute(old(self)@, instr, rnd),
    {
        match instr {
            Instruction::DRW(vx, vy, n) => self.draw(vx, vy, n),
            Instruction::LD_B(vx) => self.store_bcd(vx),
            Instruction::LD_MEM_I(vx) => self.store_registers(vx),
            Instruction::LD_I_MEM(vx) => self.load_registers(vx),
            Instruction::CLS | Instruction::RET | Instruction::JP(_) | Instruction::CALL(_)
            | Instruction::SE_Value(_, _) | Instruction::SNE(_, _) | Instruction::SE_Reg(_, _)
            | Instruction::SNE_Reg(_, _) | Instruction::JP_V0(_) => self.execute_flow(instr, rnd),
            Instruction::LD(_, _) | Instruction::ADD(_, _) | Instruction::LD_Regs(_, _)
            | Instruction::OR(_, _) | Instruction::AND(_, _) | Instruction::XOR(_, _) => {
                self.execute_alu(instr, rnd)
            },
            Instruction::ADD_Reg(_, _) | Instruction::SUB(_, _) | Instruction::SHR(_)
            | Instruction::SUBN(_, _) | Instruction::SHL(_) => self.execute_flagged(instr, rnd),
            _ => self.execute_misc(instr, rnd),
        }
    }

    /// Execute `instr`. `RND` draws its random byte from `rand`; every other
    /// instruction behaves as `execute_with` says.
    pub fn execute(&mut self, instr: Instruction) -> (res: Result<ExecutionResult, ExecutionError>)
        requires
            old(self).wf(),
            execute_defined(old(self)@, instr),
        ensures
            final(self).wf(),
            exists|rnd: u8| (final(self)@, res) == spec_execute(old(self)@, instr, rnd),
            !(instr is RND) ==> (final(self)@, res) == spec_execute(old(self)@, instr, 0),
    {
        let rnd = if let Instruction::RND(_, _) = instr {
            let mut rng = thread_rng();
            random_byte(&mut rng)
        } else {
            0
        };
        self.execute_with(instr, rnd)
    }

    /// Whether executing `instr` would be defined with the program counter at
    /// `pc` and the rest of the state as it is.
    #[verifier::spinoff_prover]
    pub fn execution_defined_at(&self, pc: Address, instr: Instruction) -> (b: bool)
        ensures
            b == execute_defined(CpuView { pc, ..self@ }, instr),
    {
        let skip_ok = pc <= u16::MAX - 2;
        let i = self.registers.i;
        match instr {
            Instruction::SE_Value(x, kk) => skip_ok || self.vreg(x) != kk,
            Instruction::SNE(x, kk) => skip_ok || self.vreg(x) == kk,
            Instruction::SE_Reg(x, y) => skip_ok || self.vreg(x) != self.vreg(y),
            Instruction::SNE_Reg(x, y) => skip_ok || self.vreg(x) == self.vreg(y),
            Instruction::JP_V0(a) => self.vreg(VRegister::V0) as u32 + a as u32 <= u16::MAX as u32,
            Instruction::DRW(_, _, n) => {
                let end = i as u32 + n as u32;
                !(end == 0 || end > u16::MAX as u32 || end == MEMORY_SIZE as u32 + 1)
            },
            Instruction::SKP(x) => {
                let v = self.vreg(x);
                if v < 16 {
                    match key_from_value(v) {
                        Ok(k) => skip_ok || !self.keyboard.is_down(k),
                        Err(_) => true,
                    }
                } else {
                    true
                }
            },
            Instruction::SKNP(x) => {
                let v = self.vreg(x);
                if v < 16 {
                    match key_from_value(v) {
                        Ok(k) => skip_ok || self.keyboard.is_down(k),
                        Err(_) => true,
                    }
                } else {
                    true
                }
            },
            Instruction::ADD_I(x) => i as u32 + self.vreg(x) as u32 <= u16::MAX as u32,
            Instruction::LD_B(_) => !(MEMORY_SIZE - 2 <= i && i <= MEMORY_SIZE),
            Instruction::LD_MEM_I(x) => i != u16::MAX && !(!Memory::is_reserved(i) && i
                <= MEMORY_SIZE && i as usize + x.to_index() >= MEMORY_SIZE as usize),
            Instruction::LD_I_MEM(x) => i != u16::MAX && !(i <= MEMORY_SIZE && i as usize
                + x.to_index() >= MEMORY_SIZE as usize),
            _ => true,
        }
    }

    /// Decrement the delay timer, stopping at zero.
    pub fn decrease_delay_timer(&mut self)
        ensures
            final(self).wf() == old(self).wf(),
            final(self).keyboard == old(self).keyboard,
            final(self)@ == (CpuView {
                dt: if old(self)@.dt == 0 {
                    0
                } else {
                    (old(self)@.dt - 1) as u8
                },
                ..old(self)@
            }),
    {
        self.registers.decrease_delay_timer();
    }

    /// Decrement the sound timer, stopping at zero.
    pub fn decrease_sound_timer(&mut self)
        ensures
            final(self).wf() == old(self).wf(),
            final(self).keyboard == old(self).keyboard,
            final(self)@ == (CpuView {
                st: if old(self)@.st == 0 {
                    0
                } else {
                    (old(self)@.st - 1) as u8
                },
                ..old(self)@
            }),
    {
        self.registers.decrease_sound_timer();
    }
}

impl Default for Cpu {
    fn default() -> (cpu: Cpu)
        ensures
            cpu.wf(),
            cpu@.v == Seq::new(16, |j: int| 0u8),
            cpu@.i == 0,
            cpu@.pc == START_ADDRESS,
            cpu@.dt == 0,
            cpu@.st == 0,
            cpu@.sp == 0,
            cpu@.stack == Seq::new(16, |j: int| 0u16),
            cpu@.mem == initial_bytes(),
            cpu@.screen == Seq::new(32, |r: int| 0u64),
            cpu@.keys == Seq::new(16, |j: int| false),
    {
        Cpu::new()
    }
}

} // verus!

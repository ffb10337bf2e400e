use vstd::prelude::*;

use crate::cpu::{
    set_v, execute_defined, fetch_defined, spec_execute, spec_next_instr, Cpu, CpuView, ExecutionError,
    ExecutionResult, InstructionFetchError, START_ADDRESS,
};
use crate::instruction::Instruction;
use crate::keyboard::{key_value, released_after, Ch8Key, KeyState};
use crate::memory::{initial_bytes, spec_write, store_overruns, AccessKind, MemoryError, MEMORY_SIZE};
use crate::registers::{Registers, VRegister, ValueRegister};

verus! {

/// A request sent to the emulator.
#[derive(Debug, Clone, Copy, PartialEq, Eq, Structural)]
pub enum EmulatorMessage {
    /// Pause or resume the emulator.
    TogglePause,
    /// Execute only the next instruction, then pause.
    Step,
    /// Stop the emulator.
    Stop,
    /// Press a key of the keypad.
    KeyPress(Ch8Key),
    /// Ask the emulator to publish its state to the display.
    RefreshSharedStates,
}

/// How a running emulator runs.
#[derive(Debug, Clone, Copy, PartialEq, Eq, Structural)]
pub enum RunMode {
    /// Run until told otherwise.
    Standard,
    /// Pause after the next instruction.
    Debug,
}

/// Whether the emulator runs.
#[derive(Debug, Clone, Copy, PartialEq, Eq, Structural)]
pub enum EmulatorState {
    /// The emulator runs.
    Running(RunMode),
    /// The execution is paused.
    Paused,
    /// The emulator has reached the end of execution.
    Stopped,
}

/// Whether the processor executes instructions.
#[derive(Debug, Clone, Copy, PartialEq, Eq, Structural)]
pub enum CpuMode {
    /// The processor executes instructions.
    Active,
    /// The processor waits for a key press, whose value goes into the register
    /// (see instruction `LD_K`).
    WaitingForKey(VRegister),
}

/// What handling a message did, so that its caller can keep its clocks.
#[derive(Debug, Clone, Copy, PartialEq, Eq, Structural)]
pub enum Transition {
    /// The emulator was paused.
    Paused,
    /// The emulator was resumed in the given mode.
    Resumed(RunMode),
    /// The emulator was stopped.
    Stopped,
    /// A key was pressed.
    KeyPressed,
    /// The emulator's state should be published.
    Refresh,
    /// The message had no effect in the emulator's state.
    Ignored,
}

/// What a cycle of the emulator did.
#[derive(Debug, Clone, Copy, PartialEq, Eq, Structural)]
pub enum CycleOutcome {
    /// The instruction was executed and recorded.
    Executed(Instruction),
    /// The instruction left the program counter where it was: the program has
    /// entered a dead state, and the emulator stopped.
    Halted(Instruction),
    /// The instruction was executed and recorded, and the emulator paused
    /// because it was stepping.
    SteppedAndPaused(Instruction),
}

/// Why an emulator step failed.
#[derive(Debug, Clone, Copy, PartialEq, Eq)]
pub enum StepError {
    /// The next instruction could not be fetched.
    InstructionFetch(InstructionFetchError),
    /// The instruction could not be executed.
    Execution(Instruction, ExecutionError),
}

/// Why a program could not be run.
#[derive(Debug, Clone, Copy, PartialEq, Eq, Structural)]
pub enum Chip8Error {
    /// The program could not be loaded.
    ProgramLoadingFailed(MemoryError),
}

/// Executed instructions, oldest first.
#[derive(Debug, Clone)]
pub struct History {
    inner: Vec<Instruction>,
}

impl View for History {
    type V = Seq<Instruction>;

    closed spec fn view(&self) -> Seq<Instruction> {
        self.inner@
    }
}

impl History {
    /// An empty history.
    pub fn new() -> (h: History)
        ensures
            h@ == Seq::<Instruction>::empty(),
    {
        History { inner: Vec::new() }
    }

    /// Record `instr` as executed last.
    pub fn push(&mut self, instr: Instruction)
        ensures
            final(self)@ == old(self)@.push(instr),
    {
        self.inner.push(instr);
    }

    /// The executed instructions, oldest first.
    pub fn as_slice(&self) -> (s: &[Instruction])
        ensures
            s@ == self@,
    {
        self.inner.as_slice()
    }
}

/// What the emulator holds, as its contracts see it.
#[verifier::ext_equal]
pub struct EmulatorView {
    pub cpu: CpuView,
    pub state: EmulatorState,
    pub cpu_mode: CpuMode,
    pub history: Seq<Instruction>,
    /// Number of instructions executed.
    pub cycles: u16,
}

/// The state after handling `msg` in `state`, and what handling it did.
pub open spec fn spec_transition(state: EmulatorState, msg: EmulatorMessage) -> (
    EmulatorState,
    Transition,
) {
    match (msg, state) {
        (EmulatorMessage::TogglePause, EmulatorState::Running(_)) => (
            EmulatorState::Paused,
            Transition::Paused,
        ),
        (EmulatorMessage::TogglePause, EmulatorState::Paused) => (
            EmulatorState::Running(RunMode::Standard),
            Transition::Resumed(RunMode::Standard),
        ),
        (EmulatorMessage::Step, EmulatorState::Paused) => (
            EmulatorState::Running(RunMode::Debug),
            Transition::Resumed(RunMode::Debug),
        ),
        (EmulatorMessage::Step, EmulatorState::Running(RunMode::Standard)) => (
            EmulatorState::Paused,
            Transition::Paused,
        ),
        (EmulatorMessage::Stop, _) => (EmulatorState::Stopped, Transition::Stopped),
        (EmulatorMessage::KeyPress(_), EmulatorState::Running(_)) => (state, Transition::KeyPressed),
        (EmulatorMessage::RefreshSharedStates, EmulatorState::Running(_)) => (
            state,
            Transition::Refresh,
        ),
        _ => (state, Transition::Ignored),
    }
}

/// The processor state and mode after `key` is pressed in `s` with mode
/// `mode`: a processor waiting for a key receives its value and resumes.
pub open spec fn spec_press(s: CpuView, mode: CpuMode, key: Ch8Key) -> (CpuView, CpuMode) {
    let pressed = CpuView { keys: s.keys.update(key.value() as int, true), ..s };
    match mode {
        CpuMode::WaitingForKey(vx) => (
            CpuView { v: pressed.v.update(vx.index(), key.value()), ..pressed },
            CpuMode::Active,
        ),
        CpuMode::Active => (pressed, CpuMode::Active),
    }
}

/// The mode after an instruction's outcome: `LD_K` makes the processor wait.
pub open spec fn mode_after(mode: CpuMode, res: Result<ExecutionResult, ExecutionError>) -> CpuMode {
    match res {
        Ok(ExecutionResult::WaitForKey(vx)) => CpuMode::WaitingForKey(vx),
        _ => mode,
    }
}

/// Whether the next step from `s` is defined: fetching it is, and so is
/// executing what was fetched.
pub open spec fn step_defined(s: CpuView) -> bool {
    &&& fetch_defined(s)
    &&& spec_next_instr(s).1 matches Ok(instr) ==> execute_defined(spec_next_instr(s).0, instr)
}

/// The emulator: the processor with its run state and execution record.
#[derive(Debug, Clone)]
pub struct Emulator {
    cpu: Cpu,
    state: EmulatorState,
    cpu_mode: CpuMode,
    history: History,
    cycles: u16,
}

impl View for Emulator {
    type V = EmulatorView;

    closed spec fn view(&self) -> EmulatorView {
        EmulatorView {
            cpu: self.cpu@,
            state: self.state,
            cpu_mode: self.cpu_mode,
            history: self.history@,
            cycles: self.cycles,
        }
    }
}

/// The emulator after one step from `e`, with `rnd` the byte `RND` draws, and
/// the step's outcome: fetch the instruction, then execute it.
pub open spec fn spec_step(e: EmulatorView, rnd: u8) -> (EmulatorView, Result<Instruction, StepError>) {
    let (s1, fetched) = spec_next_instr(e.cpu);
    match fetched {
        Err(err) => (EmulatorView { cpu: s1, ..e }, Err(StepError::InstructionFetch(err))),
        Ok(instr) => {
            let (s2, res) = spec_execute(s1, instr, rnd);
            let e2 = EmulatorView { cpu: s2, cpu_mode: mode_after(e.cpu_mode, res), ..e };
            match res {
                Ok(_) => (e2, Ok(instr)),
                Err(err) => (e2, Err(StepError::Execution(instr, err))),
            }
        },
    }
}

/// Whether the next fetched instruction of `s` is `RND`, the one instruction
/// whose outcome depends on chance.
pub open spec fn fetches_rnd(s: CpuView) -> bool {
    spec_next_instr(s).1 matches Ok(Instruction::RND(_, _))
}

/// The emulator after running one cycle from `e` (a step whose fetch and
/// execution succeed), given the emulator `stepped` right after the step and
/// the instruction `instr` it executed.
pub open spec fn spec_after_cycle(e: EmulatorView, stepped: EmulatorView, instr: Instruction) -> (
    EmulatorView,
    CycleOutcome,
) {
    if stepped.cpu.pc == e.cpu.pc {
        (EmulatorView { state: EmulatorState::Stopped, ..stepped }, CycleOutcome::Halted(instr))
    } else {
        let recorded = EmulatorView {
            history: stepped.history.push(instr),
            cycles: (stepped.cycles + 1) as u16,
            ..stepped
        };
        if e.state == EmulatorState::Running(RunMode::Debug) {
            (
                EmulatorView { state: EmulatorState::Paused, ..recorded },
                CycleOutcome::SteppedAndPaused(instr),
            )
        } else {
            (recorded, CycleOutcome::Executed(instr))
        }
    }
}

/// The emulator after handling `msg` in `e`, and what handling it did.
pub open spec fn spec_handle(e: EmulatorView, msg: EmulatorMessage) -> (EmulatorView, Transition) {
    let (state, t) = spec_transition(e.state, msg);
    match t {
        Transition::KeyPressed => match msg {
            EmulatorMessage::KeyPress(key) => (spec_press_key(e, key), t),
            _ => (e, t),
        },
        _ => (EmulatorView { state, ..e }, t),
    }
}

/// The emulator after `key` is pressed in `e`.
pub open spec fn spec_press_key(e: EmulatorView, key: Ch8Key) -> EmulatorView {
    let (s, m) = spec_press(e.cpu, e.cpu_mode, key);
    EmulatorView { cpu: s, cpu_mode: m, ..e }
}

/// The emulator after executing `instr` in `e`, with `rnd` the byte `RND`
/// draws, and the outcome.
pub open spec fn spec_emulator_execute(e: EmulatorView, instr: Instruction, rnd: u8) -> (
    EmulatorView,
    Result<(), ExecutionError>,
) {
    let (s, r) = spec_execute(e.cpu, instr, rnd);
    (
        EmulatorView { cpu: s, cpu_mode: mode_after(e.cpu_mode, r), ..e },
        match r {
            Ok(_) => Ok(()),
            Err(err) => Err(err),
        },
    )
}

/// The emulator after a timer tick: both timers decremented, stopping at
/// zero, and the keypad as `keys`.
pub open spec fn timers_ticked(e: EmulatorView, keys: Seq<bool>) -> EmulatorView {
    EmulatorView {
        cpu: CpuView {
            dt: if e.cpu.dt == 0 {
                0
            } else {
                (e.cpu.dt - 1) as u8
            },
            st: if e.cpu.st == 0 {
                0
            } else {
                (e.cpu.st - 1) as u8
            },
            keys,
            ..e.cpu
        },
        ..e
    }
}

/// The emulator after one cycle from `e`, with `rnd` the byte `RND` draws,
/// and the cycle's outcome.
pub open spec fn spec_cycle(e: EmulatorView, rnd: u8) -> (EmulatorView, Result<CycleOutcome, StepError>) {
    let (stepped, r) = spec_step(e, rnd);
    match r {
        Err(err) => (stepped, Err(err)),
        Ok(instr) => {
            let (after, outcome) = spec_after_cycle(e, stepped, instr);
            (after, Ok(outcome))
        },
    }
}

impl Emulator {
    /// The processor's registers stay well formed.
    pub closed spec fn wf(&self) -> bool {
        self.cpu.wf()
    }

    /// The state of each key of the keypad, press times included.
    pub closed spec fn key_states(&self) -> Seq<KeyState> {
        self.cpu.keyboard.states@
    }

    /// The sizes of the machine: sixteen registers, stack slots and keys,
    /// `MEMORY_SIZE` bytes of memory and thirty-two display rows; the stack
    /// pointer stays within the stack when the emulator is well formed.
    pub proof fn lemma_view_sizes(&self)
        ensures
            self@.cpu.v.len() == 16,
            self@.cpu.stack.len() == 16,
            self@.cpu.keys.len() == 16,
            self@.cpu.mem.len() == MEMORY_SIZE,
            self@.cpu.screen.len() == 32,
            self.key_states().len() == 16,
            self.wf() ==> self@.cpu.sp <= 16,
    {
    }

    /// A running emulator with a fresh machine, nothing executed yet.
    pub fn new() -> (e: Emulator)
        ensures
            e.wf(),
            e@.cpu.v == Seq::new(16, |j: int| 0u8),
            e@.cpu.i == 0,
            e@.cpu.pc == START_ADDRESS,
            e@.cpu.dt == 0,
            e@.cpu.st == 0,
            e@.cpu.sp == 0,
            e@.cpu.stack == Seq::new(16, |j: int| 0u16),
            e@.cpu.mem == initial_bytes(),
            e@.cpu.screen == Seq::new(32, |r: int| 0u64),
            e@.cpu.keys == Seq::new(16, |j: int| false),
            e@.state == EmulatorState::Running(RunMode::Standard),
            e@.cpu_mode == CpuMode::Active,
            e@.history == Seq::<Instruction>::empty(),
            e@.cycles == 0,
    {
        Emulator {
            cpu: Cpu::new(),
            state: EmulatorState::Running(RunMode::Standard),
            cpu_mode: CpuMode::Active,
            history: History::new(),
            cycles: 0,
        }
    }

    /// A fresh emulator with `bytes` loaded at `START_ADDRESS`; refused when
    /// the program does not fit below `MEMORY_SIZE`.
    pub fn load_program(bytes: &[u8]) -> (res: Result<Emulator, MemoryError>)
        requires
            !store_overruns(START_ADDRESS as int, bytes@.len() as int),
            START_ADDRESS + bytes@.len() <= usize::MAX,
        ensures
            START_ADDRESS + bytes@.len() - 1 > MEMORY_SIZE ==> res == Err::<Emulator, MemoryError>(
                MemoryError::OutOfBound(AccessKind::Write, START_ADDRESS),
            ),
            START_ADDRESS + bytes@.len() - 1 <= MEMORY_SIZE ==> res is Ok,
            res matches Ok(e) ==> {
                &&& e.wf()
                &&& e@.cpu.v == Seq::new(16, |j: int| 0u8)
                &&& e@.cpu.i == 0
                &&& e@.cpu.pc == START_ADDRESS
                &&& e@.cpu.dt == 0
                &&& e@.cpu.st == 0
                &&& e@.cpu.sp == 0
                &&& e@.cpu.stack == Seq::new(16, |j: int| 0u16)
                &&& e@.cpu.mem == spec_write(initial_bytes(), bytes@, START_ADDRESS as int)
                &&& e@.cpu.screen == Seq::new(32, |r: int| 0u64)
                &&& e@.cpu.keys == Seq::new(16, |j: int| false)
                &&& e@.state == EmulatorState::Running(RunMode::Standard)
                &&& e@.cpu_mode == CpuMode::Active
                &&& e@.history == Seq::<Instruction>::empty()
                &&& e@.cycles == 0
            },
    {
        let mut emulator = Emulator::new();
        match emulator.cpu.memory.store(bytes, START_ADDRESS) {
            Ok(()) => Ok(emulator),
            Err(e) => Err(e),
        }
    }

    /// The processor.
    pub fn cpu(&self) -> (c: &Cpu)
        ensures
            c@ == self@.cpu,
            c.wf() == self.wf(),
    {
        &self.cpu
    }

    /// The processor's registers.
    pub fn registers(&self) -> (r: &Registers)
        ensures
            r.values@ == self@.cpu.v,
            r.i == self@.cpu.i,
            r.pc == self@.cpu.pc,
            r.delay_timer == self@.cpu.dt,
            r.sound_timer == self@.cpu.st,
            r.stack_pointer == self@.cpu.sp,
            r.stack@ == self@.cpu.stack,
            r.wf() == self.wf(),
    {
        &self.cpu.registers
    }

    /// Whether the emulator runs, is paused or stopped.
    pub fn state(&self) -> (s: EmulatorState)
        ensures
            s == self@.state,
    {
        self.state
    }

    /// Whether the processor executes or waits for a key.
    pub fn cpu_mode(&self) -> (m: CpuMode)
        ensures
            m == self@.cpu_mode,
    {
        self.cpu_mode
    }

    /// The executed instructions, oldest first.
    pub fn history(&self) -> (h: &History)
        ensures
            h@ == self@.history,
    {
        &self.history
    }

    /// Number of instructions executed.
    pub fn cycles(&self) -> (c: u16)
        ensures
            c == self@.cycles,
    {
        self.cycles
    }

    /// Handle `message`: pause, resume, step, stop, press a key or ask for the
    /// state to be published, as the current state allows.
    pub fn handle_message(&mut self, message: EmulatorMessage) -> (t: Transition)
        requires
            old(self).wf(),
        ensures
            final(self).wf(),
            (final(self)@, t) == spec_handle(old(self)@, message),
    {
        match (message, self.state) {
            (EmulatorMessage::TogglePause, EmulatorState::Running(_)) => {
                self.pause();
                Transition::Paused
            },
            (EmulatorMessage::TogglePause, EmulatorState::Paused) => {
                self.resume(RunMode::Standard);
                Transition::Resumed(RunMode::Standard)
            },
            (EmulatorMessage::Step, EmulatorState::Paused) => {
                self.resume(RunMode::Debug);
                Transition::Resumed(RunMode::Debug)
            },
            (EmulatorMessage::Step, EmulatorState::Running(RunMode::Standard)) => {
                self.pause();
                Transition::Paused
            },
            (EmulatorMessage::Stop, _) => {
                self.stop();
                Transition::Stopped
            },
            (EmulatorMessage::KeyPress(key), EmulatorState::Running(_)) => {
                self.press_key(key);
                Transition::KeyPressed
            },
            (EmulatorMessage::RefreshSharedStates, EmulatorState::Running(_)) => Transition::Refresh,
            (_, _) => Transition::Ignored,
        }
    }

    /// Stop the emulator.
    pub fn stop(&mut self)
        ensures
            final(self).wf() == old(self).wf(),
            final(self)@ == (EmulatorView { state: EmulatorState::Stopped, ..old(self)@ }),
    {
        self.state = EmulatorState::Stopped;
    }

    /// Pause the emulator's execution.
    pub fn pause(&mut self)
        ensures
            final(self).wf() == old(self).wf(),
            final(self)@ == (EmulatorView { state: EmulatorState::Paused, ..old(self)@ }),
    {
        self.state = EmulatorState::Paused;
    }

    /// Resume the emulator's execution in `run_mode`.
    pub fn resume(&mut self, run_mode: RunMode)
        ensures
            final(self).wf() == old(self).wf(),
            final(self)@ == (EmulatorView { state: EmulatorState::Running(run_mode), ..old(self)@ }),
    {
        self.state = EmulatorState::Running(run_mode);
    }

    /// Press `key`; a processor waiting for a key receives its value and
    /// resumes.
    pub fn press_key(&mut self, key: Ch8Key)
        requires
            old(self).wf(),
        ensures
            final(self).wf(),
            final(self)@ == spec_press_key(old(self)@, key),
    {
        self.cpu.keyboard.press_key(key);
        if let CpuMode::WaitingForKey(vx) = self.cpu_mode {
            self.cpu.set_vreg(vx, key_value(key));
            self.cpu_mode = CpuMode::Active;
        }
    }

    /// Fetch the next instruction and move the program counter past it.
    pub fn next_instr(&mut self) -> (res: Result<Instruction, InstructionFetchError>)
        requires
            old(self).wf(),
            fetch_defined(old(self)@.cpu),
        ensures
            final(self).wf(),
            (final(self)@.cpu, res) == spec_next_instr(old(self)@.cpu),
            final(self)@ == (EmulatorView { cpu: final(self)@.cpu, ..old(self)@ }),
    {
        self.cpu.next_instr()
    }

    /// Execute `instr`; `LD_K` makes the processor wait for a key.
    pub fn execute(&mut self, instr: Instruction) -> (res: Result<(), ExecutionError>)
        requires
            old(self).wf(),
            execute_defined(old(self)@.cpu, instr),
        ensures
            final(self).wf(),
            exists|rnd: u8| (final(self)@, res) == spec_emulator_execute(old(self)@, instr, rnd),
            !(instr is RND) ==> (final(self)@, res) == spec_emulator_execute(old(self)@, instr, 0),
    {
        let r = self.cpu.execute(instr);
        let ghost rnd = choose|rnd: u8| (self.cpu@, r) == spec_execute(old(self)@.cpu, instr, rnd);
        let res = match r {
            Ok(ExecutionResult::Continue) => Ok(()),
            Ok(ExecutionResult::WaitForKey(vx)) => {
                self.cpu_mode = CpuMode::WaitingForKey(vx);
                Ok(())
            },
            Err(e) => Err(e),
        };
        assert((self@, res) == spec_emulator_execute(old(self)@, instr, rnd));
        res
    }

    /// Execute the next instruction and return it.
    pub fn step(&mut self) -> (res: Result<Instruction, StepError>)
        requires
            old(self).wf(),
            step_defined(old(self)@.cpu),
        ensures
            final(self).wf(),
            exists|rnd: u8| (final(self)@, res) == spec_step(old(self)@, rnd),
            !fetches_rnd(old(self)@.cpu) ==> (final(self)@, res) == spec_step(old(self)@, 0),
    {
        let instr = match self.next_instr() {
            Ok(instr) => instr,
            Err(e) => {
                assert((self@, Err::<Instruction, StepError>(StepError::InstructionFetch(e)))
                    == spec_step(old(self)@, 0));
                return Err(StepError::InstructionFetch(e));
            },
        };
        let ghost fetched = self@;
        let r = self.execute(instr);
        let ghost rnd = choose|rnd: u8| (self@, r) == spec_emulator_execute(fetched, instr, rnd);
        let res = match r {
            Ok(()) => Ok(instr),
            Err(e) => Err(StepError::Execution(instr, e)),
        };
        assert((self@, res) == spec_step(old(self)@, rnd));
        res
    }

    /// The value of register `vreg`.
    pub fn vreg(&self, vreg: VRegister) -> (v: ValueRegister)
        ensures
            v == self@.cpu.v[vreg.index()],
    {
        self.cpu.registers.vreg(vreg)
    }

    /// Set register `vreg` to `value`.
    pub fn set_vreg(&mut self, vreg: VRegister, value: ValueRegister)
        requires
            old(self).wf(),
        ensures
            final(self).wf(),
            final(self)@ == (EmulatorView { cpu: set_v(old(self)@.cpu, vreg, value), ..old(self)@ }),
    {
        self.cpu.set_vreg(vreg, value);
    }

    /// A tick of the 60Hz timers: decrement both timers, stopping at zero,
    /// and release the keys that have been down long enough.
    pub fn tick_timers(&mut self)
        requires
            old(self).wf(),
        ensures
            final(self).wf(),
            final(self)@.cpu.dt == (if old(self)@.cpu.dt == 0 {
                0
            } else {
                (old(self)@.cpu.dt - 1) as u8
            }),
            final(self)@.cpu.st == (if old(self)@.cpu.st == 0 {
                0
            } else {
                (old(self)@.cpu.st - 1) as u8
            }),
            forall|j: int|
                0 <= j < 16 ==> (#[trigger] final(self)@.cpu.keys[j] ==> old(self)@.cpu.keys[j]),
            final(self)@.cpu.keys.len() == 16,
            final(self)@ == timers_ticked(old(self)@, final(self)@.cpu.keys),
            exists|elapsed_nanos: Seq<u128>|
                #[trigger] released_after(old(self).key_states(), final(self).key_states(), elapsed_nanos),
            forall|j: int|
                0 <= j < 16 ==> #[trigger] final(self)@.cpu.keys[j] == (final(self).key_states()[j] is Down),
    {
        self.cpu.decrease_delay_timer();
        self.cpu.decrease_sound_timer();
        let ghost before = self.cpu.keyboard.states@;
        self.cpu.keyboard.release_keys();
        proof {
            let n = choose|n: Seq<u128>| released_after(before, self.cpu.keyboard.states@, n);
            assert(released_after(old(self).key_states(), self.key_states(), n));
        }
    }

    /// Whether the next step is defined (see `step_defined`).
    pub fn step_is_defined(&self) -> (b: bool)
        ensures
            b == step_defined(self@.cpu),
    {
        let pc = self.cpu.registers.pc;
        let end = pc as u32 + 2;
        if end > u16::MAX as u32 || end == MEMORY_SIZE as u32 + 1 {
            return false;
        }
        if pc + 1 > MEMORY_SIZE {
            return true;
        }
        let word = [self.cpu.memory.data[pc as usize], self.cpu.memory.data[pc as usize + 1]];
        match Instruction::decode(&word) {
            Ok(instr) => self.cpu.execution_defined_at(pc + 2, instr),
            Err(_) => true,
        }
    }

    /// Run one cycle of a running, active emulator: execute the next
    /// instruction; stop if it left the program counter where it was,
    /// otherwise record it, and pause if the emulator was stepping.
    pub fn run_cycle(&mut self) -> (res: Result<CycleOutcome, StepError>)
        requires
            old(self).wf(),
            old(self)@.state is Running,
            step_defined(old(self)@.cpu),
            old(self)@.cycles < u16::MAX,
        ensures
            final(self).wf(),
            exists|rnd: u8| (final(self)@, res) == spec_cycle(old(self)@, rnd),
            !fetches_rnd(old(self)@.cpu) ==> (final(self)@, res) == spec_cycle(old(self)@, 0),
    {
        let pc = self.cpu.registers.pc;
        let run_mode = self.state;
        let r = self.step();
        let ghost rnd = choose|rnd: u8| (self@, r) == spec_step(old(self)@, rnd);
        let ghost stepped = self@;
        let instr = match r {
            Ok(instr) => instr,
            Err(e) => {
                assert((self@, Err::<CycleOutcome, StepError>(e)) == spec_cycle(old(self)@, rnd));
                return Err(e);
            },
        };
        let outcome = if self.cpu.registers.pc == pc {
            self.stop();
            CycleOutcome::Halted(instr)
        } else {
            self.history.push(instr);
            self.cycles = self.cycles + 1;
            if run_mode == EmulatorState::Running(RunMode::Debug) {
                self.pause();
                CycleOutcome::SteppedAndPaused(instr)
            } else {
                CycleOutcome::Executed(instr)
            }
        };
        assert((self@, Ok::<CycleOutcome, StepError>(outcome)) == spec_cycle(old(self)@, rnd));
        Ok(outcome)
    }
}

impl Default for RunMode {
    fn default() -> (m: RunMode)
        ensures
            m == RunMode::Standard,
    {
        RunMode::Standard
    }
}

impl Default for Emulator {
    fn default() -> (e: Emulator)
        ensures
            e.wf(),
            e@.cpu.v == Seq::new(16, |j: int| 0u8),
            e@.cpu.i == 0,
            e@.cpu.pc == START_ADDRESS,
            e@.cpu.dt == 0,
            e@.cpu.st == 0,
            e@.cpu.sp == 0,
            e@.cpu.stack == Seq::new(16, |j: int| 0u16),
            e@.cpu.mem == initial_bytes(),
            e@.cpu.screen == Seq::new(32, |r: int| 0u64),
            e@.cpu.keys == Seq::new(16, |j: int| false),
            e@.state == EmulatorState::Running(RunMode::Standard),
            e@.cpu_mode == CpuMode::Active,
            e@.history == Seq::<Instruction>::empty(),
            e@.cycles == 0,
    {
        Emulator::new()
    }
}

} // verus!

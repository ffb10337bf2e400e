use vstd::prelude::*;

use crate::clock::{paused_at, resumed_at, RunClock};
use crate::cpu::{
    execute_defined, spec_execute, spec_next_instr, sprite_at, CpuView, ExecutionResult, START_ADDRESS,
};
use crate::emulator::{
    spec_handle, spec_transition, EmulatorMessage, EmulatorState, EmulatorView, RunMode, Transition,
};
use crate::instruction::{spec_decode, spec_decode_word, Instruction, InstructionError};
use crate::keyboard::{spec_key_try_from, Ch8Key};
use crate::memory::{
    initial_bytes, read_overruns, spec_digit_addr, spec_is_reserved, spec_write, store_overruns, Memory,
    MEMORY_SIZE, RESERVED_SPACE_END,
};
use crate::registers::{
    spec_pop_stack, spec_push_stack, spec_vregister_try_from, Registers, VRegister, MAX_SUBROUTINES,
};
use crate::screen::{covers, pixel_on, spec_collision, spec_draw, erases_at, sprite_row, DIGITS};

verus! {

/// Reading back what was stored gives the stored bytes, and a store changes no
/// byte outside the range it writes.
pub proof fn law_read_after_store(mem: Seq<u8>, bytes: Seq<u8>, addr: int)
    requires
        0 <= addr,
        addr + bytes.len() <= mem.len(),
    ensures
        spec_write(mem, bytes, addr).subrange(addr, addr + bytes.len()) == bytes,
        spec_write(mem, bytes, addr).len() == mem.len(),
        forall|j: int|
            0 <= j < mem.len() && !(addr <= j < addr + bytes.len()) ==> #[trigger] spec_write(
                mem,
                bytes,
                addr,
            )[j] == mem[j],
{
    assert(spec_write(mem, bytes, addr).subrange(addr, addr + bytes.len()) =~= bytes);
}

/// Once `store` has written `bytes` at `addr` of `m`, reading as many bytes
/// at `addr` succeeds and gives back `bytes`.
pub proof fn law_memory_read_after_store(m: Memory, bytes: Seq<u8>, addr: u16)
    requires
        1 <= bytes.len(),
        !spec_is_reserved(addr as int),
        addr + bytes.len() - 1 <= MEMORY_SIZE,
        !store_overruns(addr as int, bytes.len() as int),
    ensures
        bytes.len() <= u16::MAX,
        !read_overruns(addr as int, bytes.len() as int),
        addr + bytes.len() - 1 <= MEMORY_SIZE,
        spec_write(m.bytes(), bytes, addr as int).subrange(addr as int, addr + bytes.len()) == bytes,
{
    let after = spec_write(m.bytes(), bytes, addr as int);
    assert(after.subrange(addr as int, addr + bytes.len()) =~= bytes);
}

/// Splitting a byte into its high and low nibbles and joining them gives the
/// byte back, and splitting the byte joined from two nibbles gives the two
/// nibbles back.
pub proof fn law_nibble_round_trip(byte: u8, high: u8, low: u8)
    requires
        high < 16,
        low < 16,
    ensures
        byte / 16 < 16,
        byte % 16 < 16,
        (byte / 16) * 16 + byte % 16 == byte,
        (high * 16 + low) / 16 == high,
        (high * 16 + low) % 16 == low,
{
}

/// Popping the stack gives back the address pushed last, and leaves the
/// registers as they were before the push but for the stack slot it used.
pub proof fn law_pop_after_push(r: Registers, addr: u16)
    requires
        r.stack_pointer < MAX_SUBROUTINES,
    ensures
        ({
            let (pushed, _) = spec_push_stack(r, addr);
            let (popped, res) = spec_pop_stack(pushed);
            &&& res == Ok::<u16, crate::registers::RegistersError>(addr)
            &&& popped == Registers { stack: pushed.stack, ..r }
            &&& popped.stack_contents() == r.stack_contents()
        }),
{
    let (pushed, _) = spec_push_stack(r, addr);
    assert(pushed.stack@ == r.stack@.update(r.stack_pointer as int, addr));
    let (popped, res) = spec_pop_stack(pushed);
    assert(popped.stack_contents() =~= r.stack_contents());
}

/// `RET` undoes `CALL`: calling a subroutine and returning from it at once
/// restores every register, the program counter included, and leaves the
/// return address in the stack slot above the stack pointer.
pub proof fn law_ret_undoes_call(s: CpuView, addr: u16, rnd: u8)
    requires
        s.sp < MAX_SUBROUTINES,
        s.stack.len() == MAX_SUBROUTINES,
    ensures
        ({
            let (called, r1) = spec_execute(s, Instruction::CALL(addr), rnd);
            let (returned, r2) = spec_execute(called, Instruction::RET, rnd);
            &&& r1 == Ok::<ExecutionResult, crate::cpu::ExecutionError>(ExecutionResult::Continue)
            &&& r2 == Ok::<ExecutionResult, crate::cpu::ExecutionError>(ExecutionResult::Continue)
            &&& returned == CpuView { stack: s.stack.update(s.sp as int, s.pc), ..s }
        }),
{
    let (called, r1) = spec_execute(s, Instruction::CALL(addr), rnd);
    let (returned, r2) = spec_execute(called, Instruction::RET, rnd);
    assert(returned =~= CpuView { stack: s.stack.update(s.sp as int, s.pc), ..s });
}

/// Drawing the same sprite twice at the same place restores the display.
pub proof fn law_draw_twice_restores(pixels: Seq<u64>, sprite: Seq<u8>, x: int, y: int)
    ensures
        spec_draw(spec_draw(pixels, sprite, x, y), sprite, x, y) == pixels,
{
    let once = spec_draw(pixels, sprite, x, y);
    let twice = spec_draw(once, sprite, x, y);
    assert forall|i: int| 0 <= i < pixels.len() implies twice[i] == pixels[i] by {
        if y <= i < y + sprite.len() {
            let p = pixels[i];
            let b = sprite_row(sprite[i - y], x);
            assert((p ^ b) ^ b == p) by (bit_vector);
        }
    }
    assert(twice =~= pixels);
}

/// Drawing on a dark display never reports a collision.
pub proof fn law_no_collision_on_dark_display(sprite: Seq<u8>, x: int, y: int)
    ensures
        !spec_collision(Seq::new(32, |i: int| 0u64), sprite, x, y),
{
    let dark = Seq::new(32, |i: int| 0u64);
    assert forall|i: int| !#[trigger] erases_at(dark, sprite, x, y, i) by {
        if 0 <= i < 32 && y <= i < y + sprite.len() {
            let b = sprite_row(sprite[i - y], x);
            assert(0u64 & b == 0) by (bit_vector);
        }
    }
}

/// No instruction changes the interpreter's reserved area, where the font
/// lives.
pub proof fn law_reserved_area_unchanged(s: CpuView, instr: Instruction, rnd: u8)
    requires
        s.mem.len() == MEMORY_SIZE,
        s.v.len() == 16,
        execute_defined(s, instr),
    ensures
        spec_execute(s, instr, rnd).0.mem.subrange(0, RESERVED_SPACE_END + 1) == s.mem.subrange(
            0,
            RESERVED_SPACE_END + 1,
        ),
{
    let after = spec_execute(s, instr, rnd).0;
    assert(after.mem.subrange(0, RESERVED_SPACE_END + 1) =~= s.mem.subrange(
        0,
        RESERVED_SPACE_END + 1,
    ));
}

/// No emulator cycle changes the interpreter's reserved area, where the font
/// lives.
pub proof fn law_cycle_keeps_reserved_area(e: crate::emulator::EmulatorView, rnd: u8)
    requires
        e.cpu.mem.len() == MEMORY_SIZE,
        e.cpu.v.len() == 16,
        crate::emulator::step_defined(e.cpu),
    ensures
        crate::emulator::spec_cycle(e, rnd).0.cpu.mem.subrange(0, RESERVED_SPACE_END + 1)
            == e.cpu.mem.subrange(0, RESERVED_SPACE_END + 1),
{
    let (s1, fetched) = spec_next_instr(e.cpu);
    if let Ok(instr) = fetched {
        law_reserved_area_unchanged(s1, instr, rnd);
    }
}

/// An instruction that is refused leaves the machine as it was.
pub proof fn law_refused_instruction_changes_nothing(s: CpuView, instr: Instruction, rnd: u8)
    ensures
        spec_execute(s, instr, rnd).1 is Err ==> spec_execute(s, instr, rnd).0 == s,
{
}

/// In a fresh memory, the five bytes at the font address of digit `d` are the
/// sprite of `d`.
pub proof fn law_font_at_digit_addr(d: u8, row: int)
    requires
        d < 16,
        0 <= row < 5,
    ensures
        initial_bytes()[spec_digit_addr(d) + row] == DIGITS@[d as int]@[row],
{
    assert((5 * d + row) / 5 == d && (5 * d + row) % 5 == row);
}

/// A key converts to its value and back.
pub proof fn law_key_value_round_trip(k: Ch8Key)
    ensures
        spec_key_try_from(k.value()) == Ok::<Ch8Key, crate::keyboard::KeyError>(k),
{
}

/// Exactly the values below 16 name keys, each the key of that value.
pub proof fn law_key_values(v: u8)
    ensures
        spec_key_try_from(v) is Ok <==> v < 16,
        spec_key_try_from(v) matches Ok(k) ==> k.value() == v,
{
}

/// Exactly the numbers below 16 name registers, each the register of that
/// number.
pub proof fn law_register_numbers(n: u8)
    ensures
        spec_vregister_try_from(n) is Ok <==> n < 16,
        spec_vregister_try_from(n) matches Ok(r) ==> r.index() == n,
        n < 16 ==> VRegister::from_index(n as int).index() == n,
{
}

/// A stopped emulator stays stopped, whatever it is told.
pub proof fn law_stop_is_final(msg: EmulatorMessage)
    ensures
        spec_transition(EmulatorState::Stopped, msg).0 == EmulatorState::Stopped,
{
}

/// Toggling the pause twice returns a paused emulator to pause, and a
/// running one to running.
pub proof fn law_toggle_pause_twice(state: EmulatorState)
    requires
        state != EmulatorState::Stopped,
    ensures
        state == EmulatorState::Paused ==> spec_transition(
            spec_transition(state, EmulatorMessage::TogglePause).0,
            EmulatorMessage::TogglePause,
        ).0 == EmulatorState::Paused,
        state is Running ==> spec_transition(
            spec_transition(state, EmulatorMessage::TogglePause).0,
            EmulatorMessage::TogglePause,
        ).0 == EmulatorState::Running(RunMode::Standard),
{
}

/// The first instruction fetched after loading a program is the one its first
/// two bytes encode.
pub proof fn law_first_fetch_decodes_program(s: CpuView, program: Seq<u8>)
    requires
        s.pc == START_ADDRESS,
        s.mem == spec_write(initial_bytes(), program, START_ADDRESS as int),
        2 <= program.len(),
        START_ADDRESS + program.len() <= MEMORY_SIZE,
    ensures
        spec_next_instr(s).1 == match spec_decode(program[0], program[1]) {
            Ok(instr) => Ok::<Instruction, crate::cpu::InstructionFetchError>(instr),
            Err(e) => Err(crate::cpu::InstructionFetchError::BadInstruction(e)),
        },
{
}

/// Registers stored to memory with `LD [I], Vx` and read back with
/// `LD Vx, [I]` come back unchanged.
pub proof fn law_registers_round_trip_through_memory(s: CpuView, x: VRegister, rnd: u8)
    requires
        s.mem.len() == MEMORY_SIZE,
        s.v.len() == 16,
        RESERVED_SPACE_END < s.i,
        s.i + x.index() < MEMORY_SIZE,
    ensures
        ({
            let (stored, r1) = spec_execute(s, Instruction::LD_MEM_I(x), rnd);
            let (loaded, r2) = spec_execute(stored, Instruction::LD_I_MEM(x), rnd);
            &&& r1 is Ok
            &&& r2 is Ok
            &&& loaded == stored
        }),
{
    let (stored, r1) = spec_execute(s, Instruction::LD_MEM_I(x), rnd);
    let (loaded, r2) = spec_execute(stored, Instruction::LD_I_MEM(x), rnd);
    assert(loaded.v =~= s.v);
    assert(loaded =~= stored);
}

/// `LD B, Vx` stores three decimal digits at I whose value is Vx.
pub proof fn law_bcd_digits(s: CpuView, x: VRegister, rnd: u8)
    requires
        s.mem.len() == MEMORY_SIZE,
        s.v.len() == 16,
        RESERVED_SPACE_END < s.i,
        s.i + 2 < MEMORY_SIZE,
    ensures
        ({
            let (after, r) = spec_execute(s, Instruction::LD_B(x), rnd);
            let (h, t, o) = (after.mem[s.i as int], after.mem[s.i + 1], after.mem[s.i + 2]);
            &&& r is Ok
            &&& h < 10 && t < 10 && o < 10
            &&& h * 100 + t * 10 + o == s.v[x.index()]
        }),
{
}

/// A key pressed while the emulator runs is seen as down by `SKP` and `SKNP`.
pub proof fn law_pressed_key_is_seen(s: CpuView, mode: crate::emulator::CpuMode, key: Ch8Key)
    requires
        s.keys.len() == 16,
    ensures
        crate::emulator::spec_press(s, mode, key).0.keys[key.value() as int],
{
}

/// Time spent paused is not counted as running time: pausing at `t1`,
/// resuming at `t2` and pausing again at `t3` adds to the uptime the time run
/// before `t1` and after `t2`, and puts the next instruction and timer tick
/// off by the length of the pause.
pub proof fn law_pause_time_not_counted(c: RunClock, t1: u64, t2: u64, t3: u64)
    requires
        c.last_restart <= t1 <= t2 <= t3,
        c.uptime + (t1 - c.last_restart) + (t3 - t2) <= u64::MAX,
        c.next_cycle + (t2 - t1) <= u64::MAX,
        c.next_timer_tick + (t2 - t1) <= u64::MAX,
    ensures
        ({
            let resumed = resumed_at(paused_at(c, t1), t2);
            let again = paused_at(resumed, t3);
            &&& resumed.next_cycle == c.next_cycle + (t2 - t1)
            &&& resumed.next_timer_tick == c.next_timer_tick + (t2 - t1)
            &&& again.uptime == c.uptime + (t1 - c.last_restart) + (t3 - t2)
            &&& again.last_pause == Some(t3)
        }),
{
}

/// `SHR Vx` halves Vx and puts the bit shifted out, the least significant
/// bit of Vx, in VF; no other register changes. For `SHR VF` the flag is
/// written first, so VF ends up halved.
pub proof fn law_shr_shifts_out_the_low_bit(s: CpuView, x: VRegister, rnd: u8)
    requires
        s.v.len() == 16,
    ensures
        ({
            let (t, r) = spec_execute(s, Instruction::SHR(x), rnd);
            let value = s.v[x.index()];
            &&& r == Ok::<ExecutionResult, crate::cpu::ExecutionError>(ExecutionResult::Continue)
            &&& t.v.len() == 16
            &&& x != VRegister::VF ==> t.v[x.index()] == value / 2 && t.v[15] == value % 2 && t.v[15]
                == value & 1
            &&& x == VRegister::VF ==> t.v[15] == value / 2
            &&& forall|k: int| 0 <= k < 15 && k != x.index() ==> #[trigger] t.v[k] == s.v[k]
            &&& t.pc == s.pc && t.i == s.i && t.mem == s.mem && t.screen == s.screen
        }),
{
    let value = s.v[x.index()];
    assert(value & 1 == value % 2) by (bit_vector);
}

/// `SHL Vx` doubles Vx, dropping the bit shifted out, and puts that bit, the
/// most significant bit of Vx, in VF; no other register changes.
pub proof fn law_shl_shifts_out_the_high_bit(s: CpuView, x: VRegister, rnd: u8)
    requires
        s.v.len() == 16,
        x != VRegister::VF,
    ensures
        ({
            let (t, r) = spec_execute(s, Instruction::SHL(x), rnd);
            let value = s.v[x.index()];
            &&& r == Ok::<ExecutionResult, crate::cpu::ExecutionError>(ExecutionResult::Continue)
            &&& t.v[x.index()] == (value * 2) % 256
            &&& t.v[15] == value >> 7u8
            &&& forall|k: int| 0 <= k < 15 && k != x.index() ==> #[trigger] t.v[k] == s.v[k]
        }),
{
    let value = s.v[x.index()];
    assert(value >> 7u8 == value / 128) by (bit_vector);
}

/// Column `k` (from `0`, the leftmost) of a sprite row `b`: its bits are laid
/// out most significant first.
pub open spec fn sprite_pixel(b: u8, k: int) -> bool {
    ((b as u64) >> ((7 - k) as u64)) & 1u64 == 1u64
}

proof fn lemma_xor_pixel(p: u64, b: u8, px: u64, c: u64)
    requires
        px < 64,
        c < 64,
    ensures
        ((p ^ (((b as u64) << 56u64) >> px)) & (1u64 << ((63 - c) as u64)) != 0) == ((p & (1u64
            << ((63 - c) as u64)) != 0) != (px <= c && c < px + 8 && ((b as u64) >> ((7 - (c
            - px)) as u64)) & 1u64 == 1u64)),
{
    let sh: u64 = (63 - c) as u64;
    let k: u64 = (7 + px - c) as u64;
    assert(((p ^ (((b as u64) << 56u64) >> px)) & (1u64 << sh) != 0) == ((p & (1u64 << sh) != 0) != (
    px <= c && c < px + 8 && ((b as u64) >> k) & 1u64 == 1u64))) by (bit_vector)
        requires
            px < 64,
            c < 64,
            sh == 63 - c,
            px <= c && c < px + 8 ==> k == 7 + px - c,
    ;
}

/// `DRW Vx, Vy, n` flips exactly the pixels of the sprite of `n` bytes at I
/// (at most fifteen) placed with its left column at column `Vx % 64` and its
/// top row at row `Vy % 32`: the column comes from Vx and the row from Vy,
/// and the parts past the right and bottom edges are cut off. Every other
/// pixel stays as it was.
pub proof fn law_draw_flips_the_sprite_pixels(
    s: CpuView,
    x: VRegister,
    y: VRegister,
    n: u8,
    rnd: u8,
    row: int,
    col: int,
)
    requires
        s.v.len() == 16,
        s.screen.len() == 32,
        s.mem.len() == MEMORY_SIZE,
        execute_defined(s, Instruction::DRW(x, y, n)),
        s.i + n - 1 <= MEMORY_SIZE,
        0 <= row < 32,
        0 <= col < 64,
    ensures
        ({
            let (t, r) = spec_execute(s, Instruction::DRW(x, y, n), rnd);
            let px = s.v[x.index()] % 64;
            let py = s.v[y.index()] % 32;
            let len = if n < 15 {
                n as int
            } else {
                15
            };
            let lit = px <= col < px + 8 && py <= row < py + len && sprite_pixel(
                s.mem[s.i + (row - py)],
                col - px,
            );
            &&& r == Ok::<ExecutionResult, crate::cpu::ExecutionError>(ExecutionResult::Continue)
            &&& t.screen.len() == 32
            &&& pixel_on(t.screen[row], col) == (pixel_on(s.screen[row], col) != lit)
        }),
{
    let (t, r) = spec_execute(s, Instruction::DRW(x, y, n), rnd);
    let px = s.v[x.index()] % 64;
    let py = s.v[y.index()] % 32;
    let sprite = sprite_at(s.mem, s.i as int, n as int);
    assert(t.screen == spec_draw(s.screen, sprite, px as int, py as int));
    if covers(sprite, py as int, row) {
        assert(sprite[row - py] == s.mem[s.i + (row - py)]);
        lemma_xor_pixel(s.screen[row], sprite[row - py], px as u64, col as u64);
    }
}

/// Split a word into its top nibble and its low twelve bits, through the two
/// bytes `spec_decode` reads.
proof fn lemma_word_nibbles(w: u16)
    ensures
        ((w / 256) as u8) / 16 == w / 4096,
        (((w / 256) as u8) % 16) * 256 + (((w % 256) as u8) / 16) * 16 + ((w % 256) as u8) % 16 == w
            % 4096,
{
    assert(((w / 256) as u8) / 16 == w / 4096) by (bit_vector);
    assert((((w / 256) as u8) % 16) * 256 + (((w % 256) as u8) / 16) * 16 + ((w % 256) as u8) % 16
        == w % 4096) by (bit_vector);
}

/// The address operand of `JP`, `CALL`, `LD I` and `JP V0` is the whole of the
/// word's low twelve bits.
pub proof fn law_address_operand_is_low_twelve_bits(n: u16)
    requires
        n < 0x1000,
    ensures
        spec_decode_word((0x1000 + n) as u16) == Ok::<Instruction, InstructionError>(
            Instruction::JP(n),
        ),
        spec_decode_word((0x2000 + n) as u16) == Ok::<Instruction, InstructionError>(
            Instruction::CALL(n),
        ),
        spec_decode_word((0xA000 + n) as u16) == Ok::<Instruction, InstructionError>(
            Instruction::LD_I(n),
        ),
        spec_decode_word((0xB000 + n) as u16) == Ok::<Instruction, InstructionError>(
            Instruction::JP_V0(n),
        ),
{
    lemma_word_nibbles((0x1000 + n) as u16);
    lemma_word_nibbles((0x2000 + n) as u16);
    lemma_word_nibbles((0xA000 + n) as u16);
    lemma_word_nibbles((0xB000 + n) as u16);
}

/// `Stop` stops the emulator from every state.
pub proof fn law_stop_always_stops(e: EmulatorView)
    ensures
        spec_transition(e.state, EmulatorMessage::Stop) == (EmulatorState::Stopped, Transition::Stopped),
        spec_handle(e, EmulatorMessage::Stop).0.state == EmulatorState::Stopped,
        spec_handle(e, EmulatorMessage::Stop).1 == Transition::Stopped,
        spec_handle(e, EmulatorMessage::Stop).0.cpu == e.cpu,
{
}

/// `JP V0, a` sets the program counter to V0 plus `a`: the same as jumping
/// to that sum, and nothing else changes.
pub proof fn law_jump_with_offset_adds_v0(s: CpuView, a: u16, rnd: u8)
    requires
        s.v.len() == 16,
        execute_defined(s, Instruction::JP_V0(a)),
    ensures
        ({
            let (t, r) = spec_execute(s, Instruction::JP_V0(a), rnd);
            &&& r == Ok::<ExecutionResult, crate::cpu::ExecutionError>(ExecutionResult::Continue)
            &&& t.pc == s.v[0] + a
            &&& t.pc - a == s.v[0]
            &&& t.v == s.v && t.i == s.i && t.sp == s.sp && t.stack == s.stack && t.mem == s.mem
            &&& (t, r) == spec_execute(s, Instruction::JP((s.v[0] + a) as u16), rnd)
        }),
{
}

} // verus!

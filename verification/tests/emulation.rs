use chip8::emulator::{
    CpuMode, CycleOutcome, Emulator, EmulatorMessage, EmulatorState, RunMode, Transition,
};
use chip8::instruction::Instruction;
use chip8::keyboard::Ch8Key;
use chip8::registers::VRegister;

#[test]
fn pause_resume_and_stop() {
    let mut emu = Emulator::default();
    assert_eq!(emu.state(), EmulatorState::Running(RunMode::Standard));
    assert_eq!(emu.handle_message(EmulatorMessage::TogglePause), Transition::Paused);
    assert_eq!(emu.state(), EmulatorState::Paused);
    assert_eq!(
        emu.handle_message(EmulatorMessage::TogglePause),
        Transition::Resumed(RunMode::Standard)
    );
    assert_eq!(emu.handle_message(EmulatorMessage::Step), Transition::Paused);
    assert_eq!(
        emu.handle_message(EmulatorMessage::Step),
        Transition::Resumed(RunMode::Debug)
    );
    assert_eq!(emu.state(), EmulatorState::Running(RunMode::Debug));
    assert_eq!(emu.handle_message(EmulatorMessage::Step), Transition::Ignored);
    assert_eq!(
        emu.handle_message(EmulatorMessage::RefreshSharedStates),
        Transition::Refresh
    );
    assert_eq!(emu.handle_message(EmulatorMessage::Stop), Transition::Stopped);
    assert_eq!(emu.handle_message(EmulatorMessage::TogglePause), Transition::Ignored);
    assert_eq!(emu.state(), EmulatorState::Stopped);
}

#[test]
fn key_press_wakes_a_waiting_cpu() {
    let mut emu = Emulator::default();
    emu.execute(Instruction::LD_K(VRegister::V7)).unwrap();
    assert_eq!(emu.cpu_mode(), CpuMode::WaitingForKey(VRegister::V7));
    assert_eq!(
        emu.handle_message(EmulatorMessage::KeyPress(Ch8Key::B)),
        Transition::KeyPressed
    );
    assert_eq!(emu.cpu_mode(), CpuMode::Active);
    assert_eq!(emu.vreg(VRegister::V7), 0xB);
    assert!(emu.cpu().keyboard.is_down(Ch8Key::B));
}

#[test]
fn key_press_is_ignored_while_paused() {
    let mut emu = Emulator::default();
    emu.handle_message(EmulatorMessage::TogglePause);
    assert_eq!(
        emu.handle_message(EmulatorMessage::KeyPress(Ch8Key::B)),
        Transition::Ignored
    );
    assert!(emu.cpu().keyboard.is_up(Ch8Key::B));
}

#[test]
fn cycles_record_history_and_halt() {
    // LD V1, 5 ; ADD V1, 1 ; JP 0x204
    let mut emu = Emulator::load_program(&[0x61, 0x05, 0x71, 0x01, 0x12, 0x04]).unwrap();
    assert!(emu.step_is_defined());
    assert_eq!(
        emu.run_cycle(),
        Ok(CycleOutcome::Executed(Instruction::LD(VRegister::V1, 5)))
    );
    assert_eq!(
        emu.run_cycle(),
        Ok(CycleOutcome::Executed(Instruction::ADD(VRegister::V1, 1)))
    );
    assert_eq!(emu.vreg(VRegister::V1), 6);
    assert_eq!(emu.run_cycle(), Ok(CycleOutcome::Halted(Instruction::JP(0x204))));
    assert_eq!(emu.state(), EmulatorState::Stopped);
    assert_eq!(emu.cycles(), 2);
    assert_eq!(
        emu.history().as_slice(),
        &[Instruction::LD(VRegister::V1, 5), Instruction::ADD(VRegister::V1, 1)]
    );
}

#[test]
fn stepping_pauses_after_one_instruction() {
    let mut emu = Emulator::load_program(&[0x61, 0x05, 0x71, 0x01]).unwrap();
    emu.handle_message(EmulatorMessage::TogglePause);
    emu.handle_message(EmulatorMessage::Step);
    assert_eq!(
        emu.run_cycle(),
        Ok(CycleOutcome::SteppedAndPaused(Instruction::LD(VRegister::V1, 5)))
    );
    assert_eq!(emu.state(), EmulatorState::Paused);
}

#[test]
fn timer_tick() {
    let mut emu = Emulator::default();
    emu.set_vreg(VRegister::V0, 2);
    emu.execute(Instruction::SET_DT(VRegister::V0)).unwrap();
    emu.tick_timers();
    assert_eq!(emu.registers().delay_timer, 1);
    assert_eq!(emu.registers().sound_timer, 0);
}

#[test]
fn undefined_step_is_detected() {
    let mut emu = Emulator::load_program(&[0xF0, 0x1E]).unwrap();
    emu.set_vreg(VRegister::V0, 0xFF);
    assert!(emu.step_is_defined());
    emu.execute(Instruction::LD_I(0xFFFF)).unwrap();
    assert!(!emu.step_is_defined());
}

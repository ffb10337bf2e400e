use std::time::{Duration, Instant};

use chip8::input::{handle_key_event, Action, App, AppState, HostKey};
use chip8::emulator::EmulatorMessage;
use chip8::keyboard::{Ch8Key, Ch8Keyboard, KeyError};
use chip8::memory::{digit_addr, AccessKind, Memory, MemoryError};
use chip8::registers::VRegister;
use chip8::screen::{Sprite, StandardScreen, DIGITS, PIXEL_OFF, PIXEL_ON};

#[test]
fn key_values_round_trip() {
    for v in 0u8..16 {
        let k = Ch8Key::try_from(v).unwrap();
        assert_eq!(u8::from(k), v);
    }
    assert_eq!(Ch8Key::try_from(16).err(), Some(KeyError::InvalidKeyValue(16)));
    assert_eq!(VRegister::try_from(15), Ok(VRegister::VF));
    assert_eq!(VRegister::try_from(16), Err(()));
}

#[test]
fn keyboard_press_and_release() {
    let mut kb = Ch8Keyboard::new();
    assert!(kb.is_up(Ch8Key::Five));
    kb.press_key(Ch8Key::Five);
    assert!(kb.is_down(Ch8Key::Five));
    kb.release_keys();
    assert!(kb.is_down(Ch8Key::Five));
    let start = Instant::now();
    while start.elapsed() < Duration::from_millis(250) {}
    kb.release_keys();
    assert!(kb.is_up(Ch8Key::Five));
    kb.press_key(Ch8Key::A);
    kb.release_key(Ch8Key::A);
    assert!(kb.is_up(Ch8Key::A));
}

#[test]
fn host_keys_map_to_actions() {
    assert_eq!(
        handle_key_event(HostKey::Char('a')),
        Some(Action::Message(EmulatorMessage::KeyPress(Ch8Key::A)))
    );
    assert_eq!(
        handle_key_event(HostKey::Char('7')),
        Some(Action::Message(EmulatorMessage::KeyPress(Ch8Key::Seven)))
    );
    assert_eq!(handle_key_event(HostKey::Char('q')), Some(Action::Quit));
    assert_eq!(
        handle_key_event(HostKey::Char('p')),
        Some(Action::Message(EmulatorMessage::TogglePause))
    );
    assert_eq!(
        handle_key_event(HostKey::Char('s')),
        Some(Action::Message(EmulatorMessage::Step))
    );
    assert_eq!(handle_key_event(HostKey::Char('x')), None);
    assert_eq!(handle_key_event(HostKey::Char('A')), None);
    assert_eq!(handle_key_event(HostKey::Esc), None);
}

#[test]
fn quitting_terminates() {
    let mut app = App::default();
    assert_eq!(
        app.handle_action(Action::Message(EmulatorMessage::Stop)),
        Some(EmulatorMessage::Stop)
    );
    assert_eq!(app.state, AppState::Running);
    assert_eq!(app.handle_action(Action::Quit), None);
    assert_eq!(app.state, AppState::Terminating);
}

#[test]
fn memory_read_after_store() {
    let mut mem = Memory::default();
    mem.store(&[9, 8, 7], 0x500).unwrap();
    assert_eq!(mem.read(0x500, 3).unwrap(), &[9, 8, 7]);
    assert_eq!(mem.read(0x4FF, 1).unwrap(), &[0]);
    assert_eq!(mem.store(&[], 0x300), Ok(()));
    assert_eq!(
        mem.read(0xFFF, 2),
        Err(MemoryError::OutOfBound(AccessKind::Read, 0xFFF))
    );
    assert_eq!(
        mem.store(&[1, 2], 0xFFF),
        Err(MemoryError::OutOfBound(AccessKind::Write, 0xFFF))
    );
    assert_eq!(mem.read(digit_addr(3), 5).unwrap(), &DIGITS[3]);
}

#[test]
fn drawing_twice_restores_the_screen() {
    let mut screen = StandardScreen::new();
    let sprite = Sprite::from(DIGITS[8].as_slice());
    screen.write_sprite(&sprite, 10, 3);
    let once = screen.pixels;
    assert!(screen.write_sprite(&sprite, 10, 3));
    assert!(screen.pixels.iter().all(|p| *p == 0));
    screen.write_sprite(&sprite, 10, 3);
    assert_eq!(screen.pixels, once);
}

#[test]
fn screen_lines() {
    let mut screen = StandardScreen::new();
    screen.write_sprite(&Sprite::from(DIGITS[0].as_slice()), 0, 0);
    let lines = screen.lines();
    assert_eq!(lines.len(), 32);
    let expected: String = [PIXEL_ON; 4]
        .into_iter()
        .chain(std::iter::repeat(PIXEL_OFF).take(60))
        .collect();
    assert_eq!(lines[0], expected);
    assert_eq!(screen.line(1).chars().nth(1), Some(PIXEL_OFF));
    assert_eq!(screen.line(1).chars().nth(3), Some(PIXEL_ON));
    assert_eq!(lines[31].chars().count(), 64);
}

#[test]
fn key_symbols() {
    assert_eq!(Ch8Key::Zero.symbol(), '0');
    assert_eq!(Ch8Key::Nine.symbol(), '9');
    assert_eq!(Ch8Key::A.symbol(), 'A');
    assert_eq!(Ch8Key::F.symbol(), 'F');
}

#[test]
fn expired_keys_follow_the_press_duration() {
    let mut kb = Ch8Keyboard::new();
    kb.press_key(Ch8Key::One);
    kb.press_key(Ch8Key::Two);
    let mut elapsed = [0u128; 16];
    elapsed[1] = 200_000_001;
    elapsed[2] = 200_000_000;
    elapsed[3] = 900_000_000;
    let expired = kb.expired_keys(&elapsed);
    // Key 1 has been down past the threshold; key 2 exactly at it stays down;
    // key 3 is up, however long ago.
    assert!(expired[1]);
    assert!(!expired[2]);
    assert!(!expired[3]);
    assert_eq!(expired.iter().filter(|e| **e).count(), 1);
    kb.release_expired(&expired);
    assert!(kb.is_up(Ch8Key::One));
    assert!(kb.is_down(Ch8Key::Two));
}


use vstd::prelude::*;

use crate::emulator::EmulatorMessage;
use crate::keyboard::Ch8Key;

verus! {

/// A key of the host keyboard, as far as the bindings tell keys apart.
#[derive(Debug, Clone, Copy, PartialEq, Eq, Structural)]
pub enum HostKey {
    /// A key that types a character.
    Char(char),
    /// The escape key.
    Esc,
    /// Any other key.
    Other,
}

/// What the user asked for.
#[derive(Debug, Clone, Copy, PartialEq, Eq, Structural)]
pub enum Action {
    /// Exit the emulator.
    Quit,
    /// Send a message to the emulator.
    Message(EmulatorMessage),
}

/// Why a host key does not stand for a keypad key.
#[derive(Debug, Clone, Copy, PartialEq, Eq, Structural)]
pub enum InputError {
    NotAVirtualKey(HostKey),
}

/// Key that quits the emulator.
pub const QUIT: char = 'q';

/// Key that pauses or resumes the emulator.
pub const PAUSE: char = 'p';

/// Key that executes the next instruction only.
pub const STEP: char = 's';

/// The keypad key typed by `c`: the digits and the lower case letters `a`
/// to `f` type the key of their hexadecimal value.
pub open spec fn spec_keypad_key(c: char) -> Option<Ch8Key> {
    if '0' <= c <= '9' {
        Some(Ch8Key::from_value((c as u32 - '0' as u32) as u8))
    } else if 'a' <= c <= 'f' {
        Some(Ch8Key::from_value((c as u32 - 'a' as u32 + 10) as u8))
    } else {
        None
    }
}

/// The keypad key standing for `key`, refused for keys outside the keypad.
pub open spec fn spec_ch8_key(key: HostKey) -> Result<Ch8Key, InputError> {
    match key {
        HostKey::Char(c) => match spec_keypad_key(c) {
            Some(k) => Ok(k),
            None => Err(InputError::NotAVirtualKey(key)),
        },
        _ => Err(InputError::NotAVirtualKey(key)),
    }
}

/// The action bound to a key outside the keypad.
pub open spec fn spec_keybind(key: HostKey) -> Option<Action> {
    match key {
        HostKey::Char(c) => if c == QUIT {
            Some(Action::Quit)
        } else if c == PAUSE {
            Some(Action::Message(EmulatorMessage::TogglePause))
        } else if c == STEP {
            Some(Action::Message(EmulatorMessage::Step))
        } else {
            None
        },
        _ => None,
    }
}

/// The action a host key stands for: a keypad key is pressed, the other keys
/// go by their bindings.
pub open spec fn spec_action(key: HostKey) -> Option<Action> {
    match spec_ch8_key(key) {
        Ok(k) => Some(Action::Message(EmulatorMessage::KeyPress(k))),
        Err(_) => spec_keybind(key),
    }
}

/// The keypad key standing for `key`.
pub fn ch8_key(key: HostKey) -> (res: Result<Ch8Key, InputError>)
    ensures
        res == spec_ch8_key(key),
{
    let c = match key {
        HostKey::Char(c) => c,
        _ => return Err(InputError::NotAVirtualKey(key)),
    };
    let k = match c {
        '0' => Ch8Key::Zero,
        '1' => Ch8Key::One,
        '2' => Ch8Key::Two,
        '3' => Ch8Key::Three,
        '4' => Ch8Key::Four,
        '5' => Ch8Key::Five,
        '6' => Ch8Key::Six,
        '7' => Ch8Key::Seven,
        '8' => Ch8Key::Eight,
        '9' => Ch8Key::Nine,
        'a' => Ch8Key::A,
        'b' => Ch8Key::B,
        'c' => Ch8Key::C,
        'd' => Ch8Key::D,
        'e' => Ch8Key::E,
        'f' => Ch8Key::F,
        _ => return Err(InputError::NotAVirtualKey(key)),
    };
    Ok(k)
}

/// The action bound to a key outside the keypad.
pub fn keybind(key: HostKey) -> (res: Option<Action>)
    ensures
        res == spec_keybind(key),
{
    match key {
        HostKey::Char(c) => if c == QUIT {
            Some(Action::Quit)
        } else if c == PAUSE {
            Some(Action::Message(EmulatorMessage::TogglePause))
        } else if c == STEP {
            Some(Action::Message(EmulatorMessage::Step))
        } else {
            None
        },
        _ => None,
    }
}

/// The action a host key stands for.
pub fn handle_key_event(key: HostKey) -> (res: Option<Action>)
    ensures
        res == spec_action(key),
{
    match ch8_key(key) {
        Ok(k) => Some(Action::Message(EmulatorMessage::KeyPress(k))),
        Err(InputError::NotAVirtualKey(key)) => keybind(key),
    }
}

/// Whether the application goes on.
#[derive(Debug, Clone, Copy, PartialEq, Eq, Structural)]
pub enum AppState {
    Running,
    Terminating,
}

/// The application's decisions on the user's actions.
#[derive(Debug)]
pub struct App {
    pub state: AppState,
}

impl App {
    /// A running application.
    pub fn new() -> (app: App)
        ensures
            app.state == AppState::Running,
    {
        App { state: AppState::Running }
    }

    /// Handle `action`: quitting makes the application terminate; a message
    /// is returned, to be sent to the emulator.
    pub fn handle_action(&mut self, action: Action) -> (to_send: Option<EmulatorMessage>)
        ensures
            action == Action::Quit ==> final(self).state == AppState::Terminating && to_send is None,
            action matches Action::Message(m) ==> final(self).state == old(self).state && to_send
                == Some(m),
    {
        match action {
            Action::Quit => {
                self.terminate();
                None
            },
            Action::Message(message) => Some(message),
        }
    }

    /// Make the application terminate.
    pub fn terminate(&mut self)
        ensures
            final(self).state == AppState::Terminating,
    {
        self.state = AppState::Terminating;
    }
}

impl Default for App {
    fn default() -> (app: App)
        ensures
            app.state == AppState::Running,
    {
        App::new()
    }
}

} // verus!

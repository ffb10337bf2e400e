use vstd::prelude::*;

use std::time::{Duration, Instant};

use crate::text::hex_char;

verus! {

#[verifier::external_type_specification]
#[verifier::external_body]
pub struct ExInstant(Instant);

/// How long a key stays down after it was pressed, in nanoseconds.
pub const PRESS_DURATION_NANOS: u128 = 200_000_000;

/// `std::time::Instant::now`. What it returns depends on the clock, so nothing
/// is stated of it.
#[verifier::external_body]
fn now() -> Instant {
    Instant::now()
}

/// `std::time::Instant::elapsed`. What it returns depends on the clock, so
/// nothing is stated of it.
#[verifier::external_body]
fn elapsed(instant: &Instant) -> Duration {
    instant.elapsed()
}

/// `std::time::Duration::as_nanos`: the whole nanoseconds in `d`. A
/// `Duration` is opaque here, so nothing is stated of the result.
#[verifier::external_body]
fn as_nanos(d: &Duration) -> u128 {
    d.as_nanos()
}

/// A key of the sixteen-key hexadecimal keypad.
#[derive(Debug, Clone, Copy, PartialEq, Eq, Structural, Hash)]
pub enum Ch8Key {
    Zero,
    One,
    Two,
    Three,
    Four,
    Five,
    Six,
    Seven,
    Eight,
    Nine,
    A,
    B,
    C,
    D,
    E,
    F,
}

/// Why a value does not name a key.
#[derive(Debug, Clone, Copy, PartialEq, Eq, Structural)]
pub enum KeyError {
    /// Only `0x0` to `0xF` name keys.
    InvalidKeyValue(u8),
}

impl Ch8Key {
    /// The hexadecimal value the key stands for.
    pub open spec fn value(self) -> u8 {
        match self {
            Ch8Key::Zero => 0x0,
            Ch8Key::One => 0x1,
            Ch8Key::Two => 0x2,
            Ch8Key::Three => 0x3,
            Ch8Key::Four => 0x4,
            Ch8Key::Five => 0x5,
            Ch8Key::Six => 0x6,
            Ch8Key::Seven => 0x7,
            Ch8Key::Eight => 0x8,
            Ch8Key::Nine => 0x9,
            Ch8Key::A => 0xA,
            Ch8Key::B => 0xB,
            Ch8Key::C => 0xC,
            Ch8Key::D => 0xD,
            Ch8Key::E => 0xE,
            Ch8Key::F => 0xF,
        }
    }

    /// The key standing for `value`, for `value < 16`.
    pub open spec fn from_value(value: u8) -> Ch8Key {
        if value == 0 {
            Ch8Key::Zero
        } else if value == 1 {
            Ch8Key::One
        } else if value == 2 {
            Ch8Key::Two
        } else if value == 3 {
            Ch8Key::Three
        } else if value == 4 {
            Ch8Key::Four
        } else if value == 5 {
            Ch8Key::Five
        } else if value == 6 {
            Ch8Key::Six
        } else if value == 7 {
            Ch8Key::Seven
        } else if value == 8 {
            Ch8Key::Eight
        } else if value == 9 {
            Ch8Key::Nine
        } else if value == 10 {
            Ch8Key::A
        } else if value == 11 {
            Ch8Key::B
        } else if value == 12 {
            Ch8Key::C
        } else if value == 13 {
            Ch8Key::D
        } else if value == 14 {
            Ch8Key::E
        } else {
            Ch8Key::F
        }
    }
}

/// The key standing for `value`, refused for values above `0xF`.
pub open spec fn spec_key_try_from(value: u8) -> Result<Ch8Key, KeyError> {
    if value < 16 {
        Ok(Ch8Key::from_value(value))
    } else {
        Err(KeyError::InvalidKeyValue(value))
    }
}

impl From<Ch8Key> for u8 {
    fn from(value: Ch8Key) -> (v: u8) {
        match value {
            Ch8Key::Zero => 0x0,
            Ch8Key::One => 0x1,
            Ch8Key::Two => 0x2,
            Ch8Key::Three => 0x3,
            Ch8Key::Four => 0x4,
            Ch8Key::Five => 0x5,
            Ch8Key::Six => 0x6,
            Ch8Key::Seven => 0x7,
            Ch8Key::Eight => 0x8,
            Ch8Key::Nine => 0x9,
            Ch8Key::A => 0xA,
            Ch8Key::B => 0xB,
            Ch8Key::C => 0xC,
            Ch8Key::D => 0xD,
            Ch8Key::E => 0xE,
            Ch8Key::F => 0xF,
        }
    }
}

impl vstd::std_specs::convert::FromSpecImpl<Ch8Key> for u8 {
    open spec fn obeys_from_spec() -> bool {
        true
    }

    open spec fn from_spec(value: Ch8Key) -> u8 {
        value.value()
    }
}

impl TryFrom<u8> for Ch8Key {
    type Error = KeyError;

    fn try_from(value: u8) -> (res: Result<Self, KeyError>) {
        match value {
            0x0 => Ok(Ch8Key::Zero),
            0x1 => Ok(Ch8Key::One),
            0x2 => Ok(Ch8Key::Two),
            0x3 => Ok(Ch8Key::Three),
            0x4 => Ok(Ch8Key::Four),
            0x5 => Ok(Ch8Key::Five),
            0x6 => Ok(Ch8Key::Six),
            0x7 => Ok(Ch8Key::Seven),
            0x8 => Ok(Ch8Key::Eight),
            0x9 => Ok(Ch8Key::Nine),
            0xA => Ok(Ch8Key::A),
            0xB => Ok(Ch8Key::B),
            0xC => Ok(Ch8Key::C),
            0xD => Ok(Ch8Key::D),
            0xE => Ok(Ch8Key::E),
            0xF => Ok(Ch8Key::F),
            _ => Err(KeyError::InvalidKeyValue(value)),
        }
    }
}

impl vstd::std_specs::convert::TryFromSpecImpl<u8> for Ch8Key {
    open spec fn obeys_try_from_spec() -> bool {
        true
    }

    open spec fn try_from_spec(value: u8) -> Result<Self, Self::Error> {
        spec_key_try_from(value)
    }
}

impl Ch8Key {
    /// The hexadecimal digit printed on the key.
    pub fn symbol(self) -> (c: char)
        ensures
            c == hex_char(self.value() as int),
    {
        match self {
            Ch8Key::Zero => '0',
            Ch8Key::One => '1',
            Ch8Key::Two => '2',
            Ch8Key::Three => '3',
            Ch8Key::Four => '4',
            Ch8Key::Five => '5',
            Ch8Key::Six => '6',
            Ch8Key::Seven => '7',
            Ch8Key::Eight => '8',
            Ch8Key::Nine => '9',
            Ch8Key::A => 'A',
            Ch8Key::B => 'B',
            Ch8Key::C => 'C',
            Ch8Key::D => 'D',
            Ch8Key::E => 'E',
            Ch8Key::F => 'F',
        }
    }
}

/// The value a key stands for.
pub fn key_value(key: Ch8Key) -> (v: u8)
    ensures
        v == key.value(),
        v < 16,
{
    u8::from(key)
}

/// The key standing for `value`, refused for values above `0xF`.
pub fn key_from_value(value: u8) -> (res: Result<Ch8Key, KeyError>)
    ensures
        res == spec_key_try_from(value),
{
    Ch8Key::try_from(value)
}

/// Whether a key is held down, and since when.
#[derive(Debug, Clone, Copy)]
pub enum KeyState {
    Up,
    Down(Instant),
}

/// Which keys have been down longer than `PRESS_DURATION_NANOS`, given for
/// each key the nanoseconds since its press.
pub open spec fn spec_expired(states: Seq<KeyState>, elapsed_nanos: Seq<u128>) -> Seq<bool> {
    Seq::new(16, |j: int| states[j] is Down && elapsed_nanos[j] > PRESS_DURATION_NANOS)
}

/// `states` with every key flagged in `expired` up, the others unchanged.
pub open spec fn released(states: Seq<KeyState>, expired: Seq<bool>) -> Seq<KeyState> {
    Seq::new(states.len(), |j: int| if expired[j] { KeyState::Up } else { states[j] })
}

/// `after` is `before` with every key that had been down longer than
/// `PRESS_DURATION_NANOS` released, `elapsed_nanos` giving for each key the
/// nanoseconds since its press.
pub open spec fn released_after(
    before: Seq<KeyState>,
    after: Seq<KeyState>,
    elapsed_nanos: Seq<u128>,
) -> bool {
    &&& elapsed_nanos.len() == 16
    &&& after == released(before, spec_expired(before, elapsed_nanos))
}

/// The sixteen-key keypad.
#[derive(Debug, Clone)]
pub struct Ch8Keyboard {
    pub states: [KeyState; 16],
}

impl Ch8Keyboard {
    /// Which keys are down, indexed by key value.
    pub open spec fn down(&self) -> Seq<bool> {
        Seq::new(16, |j: int| self.states@[j] is Down)
    }

    /// Whether `k` is down.
    pub open spec fn spec_is_down(&self, k: Ch8Key) -> bool {
        self.states@[k.value() as int] is Down
    }

    /// A keypad with every key up.
    pub fn new() -> (kb: Ch8Keyboard)
        ensures
            kb.down() == Seq::new(16, |j: int| false),
    {
        let kb = Ch8Keyboard { states: [KeyState::Up; 16] };
        assert(kb.down() =~= Seq::new(16, |j: int| false));
        kb
    }

    /// Whether `k` is down.
    pub fn is_down(&self, k: Ch8Key) -> (b: bool)
        ensures
            b == self.spec_is_down(k),
    {
        match self.states[key_value(k) as usize] {
            KeyState::Down(_) => true,
            KeyState::Up => false,
        }
    }

    /// Whether `k` is up.
    pub fn is_up(&self, k: Ch8Key) -> (b: bool)
        ensures
            b == !self.spec_is_down(k),
    {
        match self.states[key_value(k) as usize] {
            KeyState::Up => true,
            KeyState::Down(_) => false,
        }
    }

    /// Press `key`: it is down from now on.
    pub fn press_key(&mut self, key: Ch8Key)
        ensures
            final(self).down() == old(self).down().update(key.value() as int, true),
            forall|j: int|
                0 <= j < 16 && j != key.value() ==> final(self).states@[j] == old(self).states@[j],
    {
        let t = now();
        self.states.set(key_value(key) as usize, KeyState::Down(t));
        assert(self.down() =~= old(self).down().update(key.value() as int, true));
    }

    /// Release `key`.
    pub fn release_key(&mut self, key: Ch8Key)
        ensures
            final(self).down() == old(self).down().update(key.value() as int, false),
            forall|j: int|
                0 <= j < 16 && j != key.value() ==> final(self).states@[j] == old(self).states@[j],
    {
        self.states.set(key_value(key) as usize, KeyState::Up);
        assert(self.down() =~= old(self).down().update(key.value() as int, false));
    }

    /// Release every key whose flag in `expired` is set.
    pub fn release_expired(&mut self, expired: &[bool; 16])
        ensures
            final(self).down() == Seq::new(16, |j: int| old(self).down()[j] && !expired@[j]),
            forall|j: int|
                0 <= j < 16 && !expired@[j] ==> #[trigger] final(self).states@[j]
                    == old(self).states@[j],
            forall|j: int| 0 <= j < 16 && expired@[j] ==> #[trigger] final(self).states@[j] is Up,
            final(self).states@ == released(old(self).states@, expired@),
    {
        let ghost orig = self.states@;
        let mut k: u8 = 0;
        while k < 16
            invariant
                0 <= k <= 16,
                orig == old(self).states@,
                self.states@.len() == 16,
                forall|j: int|
                    0 <= j < 16 ==> #[trigger] self.states@[j] == (if j < k && expired@[j] {
                        KeyState::Up
                    } else {
                        orig[j]
                    }),
            decreases 16 - k,
        {
            let e = expired[k as usize];
            assert(e == expired@[k as int]);
            if e {
                self.states.set(k as usize, KeyState::Up);
            }
            k = k + 1;
        }
        assert(self.down() =~= Seq::new(16, |j: int| old(self).down()[j] && !expired@[j]));
        assert(self.states@ =~= released(old(self).states@, expired@));
    }

    /// Which keys have been down longer than `PRESS_DURATION_NANOS`, given in
    /// `elapsed_nanos` the nanoseconds since each key's press.
    pub fn expired_keys(&self, elapsed_nanos: &[u128; 16]) -> (e: [bool; 16])
        ensures
            e@ == spec_expired(self.states@, elapsed_nanos@),
    {
        let mut e = [false; 16];
        let mut k: usize = 0;
        while k < 16
            invariant
                0 <= k <= 16,
                forall|j: int|
                    0 <= j < 16 ==> #[trigger] e@[j] == (j < k && self.states@[j] is Down
                        && elapsed_nanos@[j] > PRESS_DURATION_NANOS),
            decreases 16 - k,
        {
            let down = match self.states[k] {
                KeyState::Down(_) => true,
                KeyState::Up => false,
            };
            let late = elapsed_nanos[k] > PRESS_DURATION_NANOS;
            e.set(k, down && late);
            k = k + 1;
        }
        assert(e@ =~= spec_expired(self.states@, elapsed_nanos@));
        e
    }

    /// Simulate the release of keys: a key that has been down longer than
    /// `PRESS_DURATION_NANOS` goes up, the others stay as they were. How long
    /// each key has been down is read from the clock.
    pub fn release_keys(&mut self)
        ensures
            exists|elapsed_nanos: Seq<u128>|
                #[trigger] released_after(old(self).states@, final(self).states@, elapsed_nanos),
            forall|j: int|
                0 <= j < 16 ==> (final(self).states@[j] == old(self).states@[j]
                    || final(self).states@[j] is Up),
            forall|j: int| 0 <= j < 16 && !old(self).down()[j] ==> !final(self).down()[j],
    {
        let mut elapsed_nanos = [0u128; 16];
        let mut k: usize = 0;
        while k < 16
            invariant
                0 <= k <= 16,
            decreases 16 - k,
        {
            match self.states[k] {
                KeyState::Down(instant) => {
                    elapsed_nanos.set(k, as_nanos(&elapsed(&instant)));
                },
                KeyState::Up => {},
            }
            k = k + 1;
        }
        let expired = self.expired_keys(&elapsed_nanos);
        self.release_expired(&expired);
        assert(released_after(old(self).states@, self.states@, elapsed_nanos@));
    }
}

impl Default for Ch8Keyboard {
    fn default() -> (kb: Ch8Keyboard)
        ensures
            kb.down() == Seq::new(16, |j: int| false),
    {
        Ch8Keyboard::new()
    }
}

} // verus!

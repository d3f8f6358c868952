//! The sixteen-key hexadecimal keypad.

use vstd::prelude::*;

verus! {

/// Number of keys.
pub const KEY_COUNT: usize = 16;

/// A key of the host keyboard, by its position: the sixteen that stand for a
/// key of the keypad, and `Other` for every other key.
#[derive(Clone, Copy, Debug, PartialEq, Eq, Structural)]
pub enum PhysicalKey {
    Digit1,
    Digit2,
    Digit3,
    Digit4,
    KeyQ,
    KeyW,
    KeyE,
    KeyR,
    KeyA,
    KeyS,
    KeyD,
    KeyF,
    KeyZ,
    KeyX,
    KeyC,
    KeyV,
    Other,
}

/// The keypad key that a host key stands for. The four rows `1234`, `QWER`,
/// `ASDF`, `ZXCV` are the keypad's rows `123C`, `456D`, `789E`, `A0BF`.
pub open spec fn keypad_key(key: PhysicalKey) -> Option<u8> {
    match key {
        PhysicalKey::Digit1 => Some(0x1u8),
        PhysicalKey::Digit2 => Some(0x2u8),
        PhysicalKey::Digit3 => Some(0x3u8),
        PhysicalKey::Digit4 => Some(0xCu8),
        PhysicalKey::KeyQ => Some(0x4u8),
        PhysicalKey::KeyW => Some(0x5u8),
        PhysicalKey::KeyE => Some(0x6u8),
        PhysicalKey::KeyR => Some(0xDu8),
        PhysicalKey::KeyA => Some(0x7u8),
        PhysicalKey::KeyS => Some(0x8u8),
        PhysicalKey::KeyD => Some(0x9u8),
        PhysicalKey::KeyF => Some(0xEu8),
        PhysicalKey::KeyZ => Some(0xAu8),
        PhysicalKey::KeyX => Some(0x0u8),
        PhysicalKey::KeyC => Some(0xBu8),
        PhysicalKey::KeyV => Some(0xFu8),
        PhysicalKey::Other => None,
    }
}

/// The lowest key from `from` on that is held down in `keys`, if any is.
pub open spec fn lowest_pressed_from(keys: Seq<bool>, from: nat) -> Option<u8>
    decreases keys.len() - from,
{
    if from >= keys.len() {
        None
    } else if keys[from as int] {
        Some(from as u8)
    } else {
        lowest_pressed_from(keys, from + 1)
    }
}

/// The lowest key that is held down in `keys`, if any is.
pub open spec fn lowest_pressed(keys: Seq<bool>) -> Option<u8> {
    lowest_pressed_from(keys, 0)
}

/// What `lowest_pressed_from` finds is held down, and no key between `from`
/// and it is; it finds nothing only where no key from `from` on is held
/// down.
pub proof fn lemma_lowest_pressed_from(keys: Seq<bool>, from: nat)
    requires
        keys.len() <= 256,
    ensures
        match lowest_pressed_from(keys, from) {
            Some(key) => from <= key < keys.len() && keys[key as int] && forall|j: int|
                from <= j < key ==> !keys[j],
            None => forall|j: int| from <= j < keys.len() ==> !keys[j],
        },
    decreases keys.len() - from,
{
    if from < keys.len() && !keys[from as int] {
        lemma_lowest_pressed_from(keys, from + 1);
    }
}

/// The state of the keypad. Its view tells for each key, 0 to 15, whether it
/// is held down.
pub struct Keypad {
    keys: [bool; 16],
}

impl View for Keypad {
    type V = Seq<bool>;

    closed spec fn view(&self) -> Seq<bool> {
        self.keys@
    }
}

impl Keypad {
    /// Every keypad has exactly `KEY_COUNT` keys.
    pub proof fn lemma_len(&self)
        ensures
            self@.len() == KEY_COUNT,
    {
    }

    /// A keypad on which no key is held down.
    pub fn new() -> (keypad: Keypad)
        ensures
            keypad@ == Seq::new(KEY_COUNT as nat, |k: int| false),
    {
        let keypad = Keypad { keys: [false; 16] };
        assert(keypad@ =~= Seq::new(KEY_COUNT as nat, |k: int| false));
        keypad
    }

    /// Whether `key` is held down.
    pub fn is_pressed(&self, key: u8) -> (pressed: bool)
        requires
            key < KEY_COUNT,
        ensures
            pressed == self@[key as int],
    {
        self.keys[key as usize]
    }

    /// Records that `key` went down.
    pub fn press(&mut self, key: u8)
        requires
            key < KEY_COUNT,
        ensures
            final(self)@ == old(self)@.update(key as int, true),
    {
        self.keys[key as usize] = true;
    }

    /// Records that `key` came up.
    pub fn release(&mut self, key: u8)
        requires
            key < KEY_COUNT,
        ensures
            final(self)@ == old(self)@.update(key as int, false),
    {
        self.keys[key as usize] = false;
    }

    /// The lowest key that is held down, or `None` while none is.
    pub fn get_pressed_key(&self) -> (found: Option<u8>)
        ensures
            found == lowest_pressed(self@),
            match found {
                Some(key) => key < KEY_COUNT && self@[key as int] && forall|j: int|
                    0 <= j < key ==> !self@[j],
                None => forall|j: int| 0 <= j < KEY_COUNT ==> !self@[j],
            },
    {
        let mut k: u8 = 0;
        while k < 16
            invariant
                k <= 16,
                forall|j: int| 0 <= j < k ==> !self.keys@[j],
                lowest_pressed(self@) == lowest_pressed_from(self@, k as nat),
            decreases 16 - k,
        {
            if self.keys[k as usize] {
                return Some(k);
            }
            k += 1;
        }
        None
    }

    /// The keypad key that a host key stands for, if it stands for one.
    pub fn map_key(&self, key: PhysicalKey) -> (mapped: Option<u8>)
        ensures
            mapped == keypad_key(key),
            mapped matches Some(k) ==> k < KEY_COUNT,
    {
        match key {
            PhysicalKey::Digit1 => Some(0x1),
            PhysicalKey::Digit2 => Some(0x2),
            PhysicalKey::Digit3 => Some(0x3),
            PhysicalKey::Digit4 => Some(0xC),
            PhysicalKey::KeyQ => Some(0x4),
            PhysicalKey::KeyW => Some(0x5),
            PhysicalKey::KeyE => Some(0x6),
            PhysicalKey::KeyR => Some(0xD),
            PhysicalKey::KeyA => Some(0x7),
            PhysicalKey::KeyS => Some(0x8),
            PhysicalKey::KeyD => Some(0x9),
            PhysicalKey::KeyF => Some(0xE),
            PhysicalKey::KeyZ => Some(0xA),
            PhysicalKey::KeyX => Some(0x0),
            PhysicalKey::KeyC => Some(0xB),
            PhysicalKey::KeyV => Some(0xF),
            PhysicalKey::Other => None,
        }
    }

    /// Takes in one event of the host keyboard: a key that stands for a
    /// keypad key sets that key to `pressed`; any other key changes nothing.
    pub fn handle_key_event(&mut self, key: PhysicalKey, pressed: bool)
        ensures
            final(self)@ == match keypad_key(key) {
                Some(k) => old(self)@.update(k as int, pressed),
                None => old(self)@,
            },
    {
        if let Some(chip8_key) = self.map_key(key) {
            if pressed {
                self.press(chip8_key);
            } else {
                self.release(chip8_key);
            }
        }
    }
}

} // verus!

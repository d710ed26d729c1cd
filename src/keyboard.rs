use vstd::prelude::*;

verus! {

/// Number of keys on the keypad.
pub const KEY_COUNT: usize = 16;

/// One of the hexadecimal keys of the keypad.
#[derive(Debug, Clone, Copy, PartialEq, Eq, Structural)]
pub enum Key {
    Num0,
    Num1,
    Num2,
    Num3,
    Num4,
    Num5,
    Num6,
    Num7,
    Num8,
    Num9,
    A,
    B,
    C,
    D,
    E,
    F,
}

impl Key {
    /// The hexadecimal value that the key stands for.
    pub open spec fn spec_code(self) -> u8 {
        match self {
            Key::Num0 => 0x0,
            Key::Num1 => 0x1,
            Key::Num2 => 0x2,
            Key::Num3 => 0x3,
            Key::Num4 => 0x4,
            Key::Num5 => 0x5,
            Key::Num6 => 0x6,
            Key::Num7 => 0x7,
            Key::Num8 => 0x8,
            Key::Num9 => 0x9,
            Key::A => 0xA,
            Key::B => 0xB,
            Key::C => 0xC,
            Key::D => 0xD,
            Key::E => 0xE,
            Key::F => 0xF,
        }
    }

    /// Returns the hexadecimal value that the key stands for.
    pub fn code(&self) -> (r: u8)
        ensures
            r == self.spec_code(),
            r < KEY_COUNT,
    {
        match self {
            Key::Num0 => 0x0,
            Key::Num1 => 0x1,
            Key::Num2 => 0x2,
            Key::Num3 => 0x3,
            Key::Num4 => 0x4,
            Key::Num5 => 0x5,
            Key::Num6 => 0x6,
            Key::Num7 => 0x7,
            Key::Num8 => 0x8,
            Key::Num9 => 0x9,
            Key::A => 0xA,
            Key::B => 0xB,
            Key::C => 0xC,
            Key::D => 0xD,
            Key::E => 0xE,
            Key::F => 0xF,
        }
    }

    /// Returns the key that stands for the hexadecimal value `value`.
    pub fn from(value: u8) -> (r: Key)
        requires
            value < KEY_COUNT,
        ensures
            r.spec_code() == value,
    {
        match value {
            0x0 => Key::Num0,
            0x1 => Key::Num1,
            0x2 => Key::Num2,
            0x3 => Key::Num3,
            0x4 => Key::Num4,
            0x5 => Key::Num5,
            0x6 => Key::Num6,
            0x7 => Key::Num7,
            0x8 => Key::Num8,
            0x9 => Key::Num9,
            0xA => Key::A,
            0xB => Key::B,
            0xC => Key::C,
            0xD => Key::D,
            0xE => Key::E,
            _ => Key::F,
        }
    }
}

/// Stores whether each of the sixteen keys is currently pressed.
pub struct Keyboard {
    pressed: [bool; 16],
}

impl View for Keyboard {
    type V = Seq<bool>;

    /// Entry `k` tells whether the key of code `k` is pressed.
    closed spec fn view(&self) -> Seq<bool> {
        self.pressed@
    }
}

impl Default for Keyboard {
    fn default() -> (r: Keyboard)
        ensures
            r@.len() == KEY_COUNT,
            forall|k: int| 0 <= k < KEY_COUNT ==> !r@[k],
    {
        Keyboard { pressed: [false; 16] }
    }
}

impl Keyboard {
    /// Every keyboard has exactly `KEY_COUNT` keys.
    pub proof fn lemma_size(&self)
        ensures
            self@.len() == KEY_COUNT,
    {
    }

    /// Returns all sixteen keys, in ascending order of their codes.
    pub fn keys() -> (r: Vec<Key>)
        ensures
            r@.len() == KEY_COUNT,
            forall|k: int| 0 <= k < KEY_COUNT ==> r@[k].spec_code() == k,
    {
        let r = vec![
            Key::Num0,
            Key::Num1,
            Key::Num2,
            Key::Num3,
            Key::Num4,
            Key::Num5,
            Key::Num6,
            Key::Num7,
            Key::Num8,
            Key::Num9,
            Key::A,
            Key::B,
            Key::C,
            Key::D,
            Key::E,
            Key::F,
        ];
        r
    }

    /// Returns whether `key` is currently pressed.
    pub fn is_pressed(&self, key: &Key) -> (r: bool)
        ensures
            r == self@[key.spec_code() as int],
    {
        self.pressed[key.code() as usize]
    }

    /// Releases `key`.
    pub fn release(&mut self, key: &Key)
        ensures
            final(self)@ == old(self)@.update(key.spec_code() as int, false),
    {
        self.pressed[key.code() as usize] = false;
    }

    /// Presses `key`.
    pub fn press(&mut self, key: &Key)
        ensures
            final(self)@ == old(self)@.update(key.spec_code() as int, true),
    {
        self.pressed[key.code() as usize] = true;
    }
}

} // verus!

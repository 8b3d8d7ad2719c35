//! Lighting and button logic of a 16-key backlit macro keypad: per-key
//! animation queues, button edge dispatch, and the binary command protocol
//! that reprograms the lighting.
use vstd::prelude::*;

pub mod animations;
pub mod board;
pub mod rgbleds;
pub mod serial_protocol;
pub mod transitions;

verus! {

/// One key of the keypad: its code, the LED under it, and whether it was
/// pressed at the last poll.
#[derive(Clone, Copy, Debug)]
pub struct Button {
    _code: ButtonCode,
    pub rgb_led_index: u8,
    pressed: bool,
}

impl Button {
    pub closed spec fn spec_code(&self) -> ButtonCode {
        self._code
    }

    pub closed spec fn led_index(&self) -> u8 {
        self.rgb_led_index
    }

    pub closed spec fn is_pressed(&self) -> bool {
        self.pressed
    }

    pub fn new(code: ButtonCode) -> (r: Self)
        ensures
            r.spec_code() == code,
            r.led_index() == code.index(),
            !r.is_pressed(),
    {
        Button { _code: code, rgb_led_index: code.to_index(), pressed: false }
    }

    pub fn pressed(&self) -> (r: bool)
        ensures
            r == self.is_pressed(),
    {
        self.pressed
    }

    pub(crate) fn set_pressed(&mut self, pressed: bool)
        ensures
            final(self).is_pressed() == pressed,
            final(self).spec_code() == old(self).spec_code(),
            final(self).led_index() == old(self).led_index(),
    {
        self.pressed = pressed;
    }
}

/// The bit that a key sets in the input register; the name is the number
/// printed on the key.
#[derive(Clone, Copy, Debug, PartialEq, Eq, Structural)]
pub enum ButtonCode {
    _8,
    _9,
    _A,
    _B,
    _C,
    _D,
    _E,
    _F,
    _0,
    _1,
    _2,
    _3,
    _4,
    _5,
    _6,
    _7,
}

impl ButtonCode {
    /// The number printed on the key.
    pub open spec fn index(&self) -> u8 {
        match self {
            ButtonCode::_8 => 8,
            ButtonCode::_9 => 9,
            ButtonCode::_A => 10,
            ButtonCode::_B => 11,
            ButtonCode::_C => 12,
            ButtonCode::_D => 13,
            ButtonCode::_E => 14,
            ButtonCode::_F => 15,
            ButtonCode::_0 => 0,
            ButtonCode::_1 => 1,
            ButtonCode::_2 => 2,
            ButtonCode::_3 => 3,
            ButtonCode::_4 => 4,
            ButtonCode::_5 => 5,
            ButtonCode::_6 => 6,
            ButtonCode::_7 => 7,
        }
    }

    /// The key's bit in the input register: key 8 is bit 0, key 0 is bit 8.
    pub open spec fn value(&self) -> u32 {
        match self {
            ButtonCode::_8 => 0x1,
            ButtonCode::_9 => 0x2,
            ButtonCode::_A => 0x4,
            ButtonCode::_B => 0x8,
            ButtonCode::_C => 0x10,
            ButtonCode::_D => 0x20,
            ButtonCode::_E => 0x40,
            ButtonCode::_F => 0x80,
            ButtonCode::_0 => 0x100,
            ButtonCode::_1 => 0x200,
            ButtonCode::_2 => 0x400,
            ButtonCode::_3 => 0x800,
            ButtonCode::_4 => 0x1000,
            ButtonCode::_5 => 0x2000,
            ButtonCode::_6 => 0x4000,
            ButtonCode::_7 => 0x8000,
        }
    }

    pub fn to_index(&self) -> (r: u8)
        ensures
            r == self.index(),
            r < 16,
    {
        match self {
            ButtonCode::_8 => 8,
            ButtonCode::_9 => 9,
            ButtonCode::_A => 10,
            ButtonCode::_B => 11,
            ButtonCode::_C => 12,
            ButtonCode::_D => 13,
            ButtonCode::_E => 14,
            ButtonCode::_F => 15,
            ButtonCode::_0 => 0,
            ButtonCode::_1 => 1,
            ButtonCode::_2 => 2,
            ButtonCode::_3 => 3,
            ButtonCode::_4 => 4,
            ButtonCode::_5 => 5,
            ButtonCode::_6 => 6,
            ButtonCode::_7 => 7,
        }
    }

    /// The key whose register bit is `value`.
    pub fn try_from(value: u32) -> (r: Result<ButtonCode, ()>)
        ensures
            match r {
                Ok(c) => c.value() == value,
                Err(_) => forall|c: ButtonCode| c.value() != value,
            },
    {
        match value {
            0x1 => Ok(ButtonCode::_8),
            0x2 => Ok(ButtonCode::_9),
            0x4 => Ok(ButtonCode::_A),
            0x8 => Ok(ButtonCode::_B),
            0x10 => Ok(ButtonCode::_C),
            0x20 => Ok(ButtonCode::_D),
            0x40 => Ok(ButtonCode::_E),
            0x80 => Ok(ButtonCode::_F),
            0x100 => Ok(ButtonCode::_0),
            0x200 => Ok(ButtonCode::_1),
            0x400 => Ok(ButtonCode::_2),
            0x800 => Ok(ButtonCode::_3),
            0x1000 => Ok(ButtonCode::_4),
            0x2000 => Ok(ButtonCode::_5),
            0x4000 => Ok(ButtonCode::_6),
            0x8000 => Ok(ButtonCode::_7),
            _ => {
                assert forall|c: ButtonCode| c.value() != value by {
                    match c {
                        _ => {},
                    }
                }
                Err(())
            },
        }
    }
}

/// How a key is lit, described as a whole.
#[derive(Clone, Copy, Debug)]
pub enum Illumination {
    Steady(Colour),
    Blinking(Colour, u16),
    Rainbow(u16),
}

/// An RGB colour with three independent 8-bit channels.
#[derive(Clone, Copy, Debug, PartialEq, Eq, Structural)]
pub struct Colour {
    pub red: u8,
    pub green: u8,
    pub blue: u8,
}

impl Colour {
    pub fn white() -> (r: Colour)
        ensures
            r == (Colour { red: 0xff, green: 0xff, blue: 0xff }),
    {
        Colour { red: 0xff, green: 0xff, blue: 0xff }
    }

    pub fn rgb(red: u8, green: u8, blue: u8) -> (r: Colour)
        ensures
            r == (Colour { red, green, blue }),
    {
        Colour { red, green, blue }
    }

    /// The bitwise complement of each channel.
    pub fn invert(&self) -> (r: Colour)
        ensures
            r == (Colour { red: !self.red, green: !self.green, blue: !self.blue }),
    {
        Colour::rgb(!self.red, !self.green, !self.blue)
    }
}

/// The logical state of a key, each with its own animation queue.
#[derive(Clone, Copy, Debug, PartialEq, Eq, Structural)]
pub enum ButtonState {
    Pressed,
    Held,
    Released,
    Idle,
}

} // verus!

use vstd::prelude::*;
use crate::memory_map::{ReadByte, WriteByte};

verus! {

/// The eight buttons of the pad.
#[derive(PartialEq, Eq, Structural, Clone, Copy, Debug)]
pub enum Button {
    Down,
    Up,
    Left,
    Right,
    Start,
    Select,
    B,
    A,
}

/// The joypad register at 0xFF00: two select lines and the state of each button.
pub struct Joypad {
    pub select_button_keys: bool,
    pub select_directional_keys: bool,
    pub down: bool,
    pub up: bool,
    pub left: bool,
    pub right: bool,
    pub start: bool,
    pub select: bool,
    pub b: bool,
    pub a: bool,
}

/// `bit` when the line is high, 0 when it is pulled low.
pub open spec fn high(line_high: bool, bit: u8) -> u8 {
    if line_high { bit } else { 0 }
}

impl Joypad {
    /// The joypad register value: bits 7 and 6 read high, bits 5 and 4 are the select
    /// lines and bits 3..0 the buttons under the selected lines, all active low.
    pub open spec fn read_spec(&self) -> u8 {
        (0xc0u8 + high(!self.select_button_keys, 0x20) + high(!self.select_directional_keys, 0x10)
            + high(!((self.select_directional_keys && self.down) || (self.select_button_keys && self.start)), 0x08)
            + high(!((self.select_directional_keys && self.up) || (self.select_button_keys && self.select)), 0x04)
            + high(!((self.select_directional_keys && self.left) || (self.select_button_keys && self.b)), 0x02)
            + high(!((self.select_directional_keys && self.right) || (self.select_button_keys && self.a)), 0x01)) as u8
    }

    pub fn new() -> (r: Joypad)
        ensures
            !r.select_button_keys && !r.select_directional_keys,
            !r.down && !r.up && !r.left && !r.right,
            !r.start && !r.select && !r.b && !r.a,
    {
        Joypad {
            select_button_keys: false,
            select_directional_keys: false,
            down: false,
            up: false,
            left: false,
            right: false,
            start: false,
            select: false,
            b: false,
            a: false,
        }
    }

    /// Records whether `button` is held.
    pub fn set_button(&mut self, button: Button, pressed: bool)
        ensures
            *final(self) == (match button {
                Button::Down => Joypad { down: pressed, ..*old(self) },
                Button::Up => Joypad { up: pressed, ..*old(self) },
                Button::Left => Joypad { left: pressed, ..*old(self) },
                Button::Right => Joypad { right: pressed, ..*old(self) },
                Button::Start => Joypad { start: pressed, ..*old(self) },
                Button::Select => Joypad { select: pressed, ..*old(self) },
                Button::B => Joypad { b: pressed, ..*old(self) },
                Button::A => Joypad { a: pressed, ..*old(self) },
            }),
    {
        match button {
            Button::Down => self.down = pressed,
            Button::Up => self.up = pressed,
            Button::Left => self.left = pressed,
            Button::Right => self.right = pressed,
            Button::Start => self.start = pressed,
            Button::Select => self.select = pressed,
            Button::B => self.b = pressed,
            Button::A => self.a = pressed,
        }
    }

    pub fn read_byte(&self, _address: u16) -> (r: u8)
        ensures
            r == self.read_spec(),
    {
        let mut value: u8 = 0xc0;
        if !self.select_button_keys {
            value = value + 0x20;
        }
        if !self.select_directional_keys {
            value = value + 0x10;
        }
        if !((self.select_directional_keys && self.down) || (self.select_button_keys && self.start)) {
            value = value + 0x08;
        }
        if !((self.select_directional_keys && self.up) || (self.select_button_keys && self.select)) {
            value = value + 0x04;
        }
        if !((self.select_directional_keys && self.left) || (self.select_button_keys && self.b)) {
            value = value + 0x02;
        }
        if !((self.select_directional_keys && self.right) || (self.select_button_keys && self.a)) {
            value = value + 0x01;
        }
        value
    }

    /// Only the two select lines take the written value; a line is selected
    /// when its bit is written low.
    pub fn write_byte(&mut self, _address: u16, value: u8)
        ensures
            *final(self) == (Joypad {
                select_button_keys: value & 0x20 == 0,
                select_directional_keys: value & 0x10 == 0,
                ..*old(self)
            }),
    {
        self.select_button_keys = value & 0x20 == 0;
        self.select_directional_keys = value & 0x10 == 0;
    }
}

impl ReadByte for Joypad {
    open spec fn readable(&self) -> bool {
        true
    }

    fn read_byte(&self, address: u16) -> u8 {
        Joypad::read_byte(self, address)
    }
}

impl WriteByte for Joypad {
    open spec fn writable(&self) -> bool {
        true
    }

    fn write_byte(&mut self, address: u16, value: u8) {
        Joypad::write_byte(self, address, value);
    }
}

} // verus!

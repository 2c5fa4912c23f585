//! The keys of the keyboard that stand for the buttons of the console.

use vstd::prelude::*;

verus! {

/// The code of the key that a scancode stands for: the result of
/// `Key::from` of the crate `piston`, taken as a number by `Key::code`.
pub uninterp spec fn key_named(scancode: u32) -> i32;

/// `piston::input::Key::from`, followed by `Key::code`: the key that a
/// scancode stands for, as its code. The key depends on the scancode alone;
/// which key it is, is left to the crate.
#[verifier::external_body]
fn key_from_scancode(scancode: u32) -> (code: i32)
    ensures
        code == key_named(scancode),
{
    piston::input::Key::from(scancode).code()
}

/// Which key stands for which button, each key as its code.
#[derive(Copy, Clone, Debug, PartialEq, Eq)]
pub struct GameBoyKeymap {
    pub up: i32,
    pub down: i32,
    pub left: i32,
    pub right: i32,
    pub start: i32,
    pub select: i32,
    pub b: i32,
    pub a: i32,
    pub x: i32,
    pub y: i32,
    pub left_shoulder: i32,
    pub right_shoulder: i32,
}

impl GameBoyKeymap {
    /// The keys that stand for the buttons unless others are chosen: the
    /// arrows for the directions, Return for Start, the right Shift for
    /// Select, Z for B and X for A, S for X and A for Y, Q and W for the
    /// shoulders.
    pub open spec fn default_keys() -> GameBoyKeymap {
        GameBoyKeymap {
            up: 0x4000_0052,
            down: 0x4000_0051,
            left: 0x4000_0050,
            right: 0x4000_004F,
            start: 0x0D,
            select: 0x4000_00E5,
            b: 0x7A,
            a: 0x78,
            x: 0x73,
            y: 0x61,
            left_shoulder: 0x71,
            right_shoulder: 0x77,
        }
    }

    /// The keymap of `default_keys`.
    pub fn default() -> (k: GameBoyKeymap)
        ensures
            k == GameBoyKeymap::default_keys(),
    {
        GameBoyKeymap {
            up: 0x4000_0052,
            down: 0x4000_0051,
            left: 0x4000_0050,
            right: 0x4000_004F,
            start: 0x0D,
            select: 0x4000_00E5,
            b: 0x7A,
            a: 0x78,
            x: 0x73,
            y: 0x61,
            left_shoulder: 0x71,
            right_shoulder: 0x77,
        }
    }

    /// What the joypad register reads when a key is held down: the bits of
    /// the first button that the key stands for, in the order Down, Up,
    /// Left, Right, Start, Select, B, A; nothing for a key that stands for
    /// none of them.
    pub open spec fn bits_for(&self, key: i32) -> Option<u8> {
        if key == self.down {
            Some(0b0010_1000u8)
        } else if key == self.up {
            Some(0b0010_0100u8)
        } else if key == self.left {
            Some(0b0010_0010u8)
        } else if key == self.right {
            Some(0b0010_0001u8)
        } else if key == self.start {
            Some(0b0001_1000u8)
        } else if key == self.select {
            Some(0b0001_0100u8)
        } else if key == self.b {
            Some(0b0001_0010u8)
        } else if key == self.a {
            Some(0b0001_0001u8)
        } else {
            None
        }
    }

    /// What the joypad register reads when the key with the given code is
    /// held down.
    pub fn pressed(&self, key: i32) -> (r: Option<u8>)
        ensures
            r == self.bits_for(key),
    {
        if key == self.down {
            Some(0b0010_1000)
        } else if key == self.up {
            Some(0b0010_0100)
        } else if key == self.left {
            Some(0b0010_0010)
        } else if key == self.right {
            Some(0b0010_0001)
        } else if key == self.start {
            Some(0b0001_1000)
        } else if key == self.select {
            Some(0b0001_0100)
        } else if key == self.b {
            Some(0b0001_0010)
        } else if key == self.a {
            Some(0b0001_0001)
        } else {
            None
        }
    }

    /// What the joypad register reads when the key with the given scancode
    /// is held down.
    pub fn handle_keypress(&mut self, scancode: u32) -> (r: Option<u8>)
        ensures
            r == old(self).bits_for(key_named(scancode)),
            *final(self) == *old(self),
    {
        self.pressed(key_from_scancode(scancode))
    }
}

} // verus!

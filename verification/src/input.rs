//! Keyboard input: which physical key stands for which of the 16 keys.
use crate::cpu::Cpu;
use crate::machine::Machine;
use vstd::prelude::*;

verus! {

/// A key of the host keyboard, as far as the key pad uses it.
#[derive(Debug, Clone, Copy, PartialEq, Eq, Structural)]
pub enum Key {
    X,
    Num1,
    Num2,
    Num3,
    Q,
    W,
    E,
    A,
    S,
    D,
    Z,
    C,
    Num4,
    R,
    F,
    V,
    /// Any key that the key pad does not use.
    Other,
}

/// An event of the host's window system, as far as the processor reads it.
#[derive(Debug, Clone, Copy, PartialEq, Eq, Structural)]
pub enum InputEvent {
    KeyDown { keycode: Option<Key> },
    KeyUp { keycode: Option<Key> },
    /// Any other event.
    Other,
}

/// The key pad laid over the left of a QWERTY keyboard:
///
/// ```text
/// 1 2 3 4        1 2 3 C
/// Q W E R   for  4 5 6 D
/// A S D F        7 8 9 E
/// Z X C V        A 0 B F
/// ```
///
/// A key outside the pad has the index 16, which names no key.
pub open spec fn key_index(keycode: Key) -> int {
    match keycode {
        Key::X => 0,
        Key::Num1 => 1,
        Key::Num2 => 2,
        Key::Num3 => 3,
        Key::Q => 4,
        Key::W => 5,
        Key::E => 6,
        Key::A => 7,
        Key::S => 8,
        Key::D => 9,
        Key::Z => 10,
        Key::C => 11,
        Key::Num4 => 12,
        Key::R => 13,
        Key::F => 14,
        Key::V => 15,
        Key::Other => 16,
    }
}

/// The state after an input event: a key of the pad going down or up sets
/// or clears its flag; every other event leaves the state as it is.
pub open spec fn after_input(m: Machine, e: InputEvent) -> Machine {
    match e {
        InputEvent::KeyDown { keycode: Some(key) } => if key_index(key) < 16 {
            m.with_key(key_index(key), true)
        } else {
            m
        },
        InputEvent::KeyUp { keycode: Some(key) } => if key_index(key) < 16 {
            m.with_key(key_index(key), false)
        } else {
            m
        },
        _ => m,
    }
}

impl Cpu {
    /// The index of the pad key that `keycode` stands for, or 16.
    pub fn keycode_to_index(keycode: Key) -> (index: usize)
        ensures
            index == key_index(keycode),
    {
        match keycode {
            Key::X => 0,
            Key::Num1 => 1,
            Key::Num2 => 2,
            Key::Num3 => 3,
            Key::Q => 4,
            Key::W => 5,
            Key::E => 6,
            Key::A => 7,
            Key::S => 8,
            Key::D => 9,
            Key::Z => 10,
            Key::C => 11,
            Key::Num4 => 12,
            Key::R => 13,
            Key::F => 14,
            Key::V => 15,
            _ => 16,
        }
    }

    /// Applies a key event to the key flags.
    pub fn process_input(&mut self, e: InputEvent)
        ensures
            final(self)@ == after_input(old(self)@, e),
    {
        match e {
            InputEvent::KeyDown { keycode } => {
                let index = match keycode {
                    Some(keycode) => Cpu::keycode_to_index(keycode),
                    None => 16,
                };
                if index < 16 {
                    self.press_button(index);
                }
            },
            InputEvent::KeyUp { keycode } => {
                let index = match keycode {
                    Some(keycode) => Cpu::keycode_to_index(keycode),
                    None => 16,
                };
                if index < 16 {
                    self.release_button(index);
                }
            },
            _ => {},
        }
    }
}

} // verus!

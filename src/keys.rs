//! Raw key events and the fixed table from physical keys to digits.
//!
//! Codes follow the kernel's input event codes, which are also the values
//! held by evdev's `Key` and `EventType`.

use vstd::prelude::*;

verus! {

/// Event type of key events.
pub const EV_KEY: u16 = 1;

/// Value of a key event when the key goes up.
pub const VALUE_RELEASED: i32 = 0;

/// Value of a key event when the key goes down.
pub const VALUE_PRESSED: i32 = 1;

/// Value of a key event sent while a key is held down.
pub const VALUE_REPEATED: i32 = 2;

pub const KEY_1: u16 = 2;
pub const KEY_2: u16 = 3;
pub const KEY_3: u16 = 4;
pub const KEY_4: u16 = 5;
pub const KEY_5: u16 = 6;
pub const KEY_6: u16 = 7;
pub const KEY_7: u16 = 8;
pub const KEY_8: u16 = 9;
pub const KEY_9: u16 = 10;
pub const KEY_0: u16 = 11;
pub const KEY_ENTER: u16 = 28;

/// The digit printed on the key with the given code, if it is a digit key.
pub open spec fn spec_digit_of(code: u16) -> Option<char> {
    if code == KEY_1 {
        Some('1')
    } else if code == KEY_2 {
        Some('2')
    } else if code == KEY_3 {
        Some('3')
    } else if code == KEY_4 {
        Some('4')
    } else if code == KEY_5 {
        Some('5')
    } else if code == KEY_6 {
        Some('6')
    } else if code == KEY_7 {
        Some('7')
    } else if code == KEY_8 {
        Some('8')
    } else if code == KEY_9 {
        Some('9')
    } else if code == KEY_0 {
        Some('0')
    } else {
        None
    }
}

/// Whether the code is that of one of the ten digit keys.
pub open spec fn is_digit_code(code: u16) -> bool {
    spec_digit_of(code) is Some
}

/// Whether `c` is one of the characters `0` to `9`.
pub open spec fn is_digit_char(c: char) -> bool {
    '0' <= c && c <= '9'
}

/// Maps a physical key to the digit it types, or to nothing for any other key.
pub fn get_char(key: u16) -> (r: Option<char>)
    ensures
        r == spec_digit_of(key),
        r matches Some(c) ==> is_digit_char(c),
{
    match key {
        KEY_1 => Some('1'),
        KEY_2 => Some('2'),
        KEY_3 => Some('3'),
        KEY_4 => Some('4'),
        KEY_5 => Some('5'),
        KEY_6 => Some('6'),
        KEY_7 => Some('7'),
        KEY_8 => Some('8'),
        KEY_9 => Some('9'),
        KEY_0 => Some('0'),
        _ => None,
    }
}

/// One raw event read from an input device, as its three kernel fields.
#[derive(Clone, Copy, Debug, PartialEq, Eq, Structural)]
pub struct InputEvent {
    pub event_type: u16,
    pub code: u16,
    pub value: i32,
}

impl InputEvent {
    /// A key event with the given key code and value.
    pub fn key(code: u16, value: i32) -> (r: InputEvent)
        ensures
            r == (InputEvent { event_type: EV_KEY, code, value }),
    {
        InputEvent { event_type: EV_KEY, code, value }
    }

    /// The event of pressing the key with the given code.
    pub fn press(code: u16) -> (r: InputEvent)
        ensures
            r == (InputEvent { event_type: EV_KEY, code, value: VALUE_PRESSED }),
            r.spec_is_key_press(),
    {
        InputEvent::key(code, VALUE_PRESSED)
    }

    /// Whether this is a key going down; releases and repeats are not.
    pub open spec fn spec_is_key_press(self) -> bool {
        self.event_type == EV_KEY && self.value == VALUE_PRESSED
    }

    pub fn is_key_press(&self) -> (r: bool)
        ensures
            r == self.spec_is_key_press(),
    {
        self.event_type == EV_KEY && self.value == VALUE_PRESSED
    }
}

} // verus!

//! Key event types: [`KeyCode`] and [`KeyPress`], and the decoding of raw
//! 5-byte input reports from the read channel.

use vstd::prelude::*;

verus! {

/// The raw channel byte that identifies the Caps Lock key, whose
/// press/release signal is inverted by the firmware.
pub const CAPS_LOCK_RAW_CODE: u8 = 10;

/// Two-byte opaque identifier that the read channel emits for a physical
/// key; compared for equality, never interpreted arithmetically.
#[derive(Debug, Clone, Copy, PartialEq, Eq, PartialOrd, Ord, Hash, Structural)]
pub struct KeyCode {
    /// First byte of the code
    pub first_u8: u8,
    /// Second byte of the code
    pub seconde_u8: u8,
}

impl KeyCode {
    /// Create a new key code.
    pub fn new(first_u8: u8, seconde_u8: u8) -> (r: Self)
        ensures
            r == (KeyCode { first_u8, seconde_u8 }),
    {
        Self { first_u8, seconde_u8 }
    }

    /// First byte of the code.
    pub fn first_u8(self) -> (r: u8)
        ensures
            r == self.first_u8,
    {
        self.first_u8
    }

    /// Second byte of the code.
    pub fn seconde_u8(self) -> (r: u8)
        ensures
            r == self.seconde_u8,
    {
        self.seconde_u8
    }

    /// Mutable reference to the first byte of the code.
    pub fn first_u8_mut(&mut self) -> (r: &mut u8)
        ensures
            *r == old(self).first_u8,
            *final(self) == (KeyCode { first_u8: *final(r), ..*old(self) }),
    {
        &mut self.first_u8
    }

    /// Mutable reference to the second byte of the code.
    pub fn seconde_u8_mut(&mut self) -> (r: &mut u8)
        ensures
            *r == old(self).seconde_u8,
            *final(self) == (KeyCode { seconde_u8: *final(r), ..*old(self) }),
    {
        &mut self.seconde_u8
    }
}

impl Default for KeyCode {
    /// The all-zero code.
    fn default() -> (r: Self)
        ensures
            r == (KeyCode { first_u8: 0, seconde_u8: 0 }),
    {
        KeyCode::new(0, 0)
    }
}

/// Whether a raw report with channel byte `code` and signal byte `signal`
/// means "pressed": the signal is non-zero, except for the Caps Lock code
/// whose firmware signal is inverted.
pub open spec fn spec_is_pressed(code: u8, signal: u8) -> bool {
    if code == CAPS_LOCK_RAW_CODE {
        signal == 0
    } else {
        signal != 0
    }
}

/// A key press or release event from the read channel.
#[derive(Debug, Clone, Copy, PartialEq, Eq, PartialOrd, Ord, Hash, Structural)]
pub struct KeyPress {
    /// Which key received an event
    pub key_code: KeyCode,
    /// Whether the key was pressed (true) or released (false)
    pub is_pressed: bool,
}

impl KeyPress {
    /// Decode a raw 5-byte report from the read channel. Total over all
    /// inputs: bytes 2 and 3 form the key code; byte 4 is the signal, with
    /// the Caps Lock polarity exception.
    pub fn new_from_buffer(buffer: [u8; 5]) -> (r: Self)
        ensures
            r.key_code == (KeyCode { first_u8: buffer[2], seconde_u8: buffer[3] }),
            r.is_pressed == spec_is_pressed(buffer[2], buffer[4]),
    {
        Self {
            key_code: KeyCode::new(buffer[2], buffer[3]),
            is_pressed: if buffer[2] == CAPS_LOCK_RAW_CODE {
                buffer[4] == 0
            } else {
                buffer[4] != 0
            },
        }
    }

    /// Create a new event from a [`KeyCode`] and a [`bool`].
    pub fn new(key_code: KeyCode, is_pressed: bool) -> (r: Self)
        ensures
            r == (KeyPress { key_code, is_pressed }),
    {
        Self { key_code, is_pressed }
    }

    /// Get the key code.
    pub fn key_code(&self) -> (r: &KeyCode)
        ensures
            *r == self.key_code,
    {
        &self.key_code
    }

    /// Whether this is a press event.
    pub fn is_pressed(self) -> (r: bool)
        ensures
            r == self.is_pressed,
    {
        self.is_pressed
    }

    /// Mutable reference to the key code.
    pub fn key_code_mut(&mut self) -> (r: &mut KeyCode)
        ensures
            *r == old(self).key_code,
            *final(self) == (KeyPress { key_code: *final(r), ..*old(self) }),
    {
        &mut self.key_code
    }

    /// Mutable reference to the pressed flag.
    pub fn is_pressed_mut(&mut self) -> (r: &mut bool)
        ensures
            *r == old(self).is_pressed,
            *final(self) == (KeyPress { is_pressed: *final(r), ..*old(self) }),
    {
        &mut self.is_pressed
    }
}

impl Default for KeyPress {
    /// A release event of the all-zero code.
    fn default() -> (r: Self)
        ensures
            r == (KeyPress { key_code: KeyCode { first_u8: 0, seconde_u8: 0 }, is_pressed: false }),
    {
        KeyPress::new(KeyCode::new(0, 0), false)
    }
}

} // verus!

//! The shift and caps-lock latches.
//!
//! Each shift key has a latch that is set while the key is held. Caps lock
//! has a latch that flips every time the key is pressed. Nothing else is
//! remembered between scancodes.

use vstd::prelude::*;

verus! {

/// Make code of the left shift key.
pub const LEFT_SHIFT_MAKE: u8 = 0x2A;

/// Break code of the left shift key.
pub const LEFT_SHIFT_BREAK: u8 = 0xAA;

/// Make code of the right shift key.
pub const RIGHT_SHIFT_MAKE: u8 = 0x36;

/// Break code of the right shift key.
pub const RIGHT_SHIFT_BREAK: u8 = 0xB6;

/// Make code of the caps-lock key. Its break code changes nothing.
pub const CAPS_LOCK_MAKE: u8 = 0x3A;

/// The three modifier latches.
#[derive(Clone, Copy, Debug, PartialEq, Eq, Structural)]
pub struct ModifierState {
    /// The left shift key is held.
    pub shift_left: bool,
    /// The right shift key is held.
    pub shift_right: bool,
    /// Caps lock is on.
    pub caps_lock: bool,
}

impl ModifierState {
    /// Whether either shift key is held.
    pub open spec fn shifted(self) -> bool {
        self.shift_left || self.shift_right
    }

    /// Whether a key prints its shifted byte: shift and caps lock cancel
    /// each other.
    pub open spec fn case_inverted(self) -> bool {
        self.shifted() != self.caps_lock
    }

    /// The latches after `scancode` has arrived. A shift make code sets the
    /// latch of its key and the break code clears it; a caps-lock make code
    /// flips the caps-lock latch; every other scancode changes nothing.
    pub open spec fn after(self, scancode: u8) -> ModifierState {
        ModifierState {
            shift_left: if scancode == LEFT_SHIFT_MAKE {
                true
            } else if scancode == LEFT_SHIFT_BREAK {
                false
            } else {
                self.shift_left
            },
            shift_right: if scancode == RIGHT_SHIFT_MAKE {
                true
            } else if scancode == RIGHT_SHIFT_BREAK {
                false
            } else {
                self.shift_right
            },
            caps_lock: if scancode == CAPS_LOCK_MAKE {
                !self.caps_lock
            } else {
                self.caps_lock
            },
        }
    }

    /// The latches after every scancode of `scancodes` has arrived, first to
    /// last.
    pub open spec fn after_all(self, scancodes: Seq<u8>) -> ModifierState
        decreases scancodes.len(),
    {
        if scancodes.len() == 0 {
            self
        } else {
            self.after_all(scancodes.drop_last()).after(scancodes.last())
        }
    }

    /// Whether `scancode` is the break code of a shift key that is held, the
    /// one way in which a scancode past the end of the table changes the
    /// latches.
    pub open spec fn releases_shift(self, scancode: u8) -> bool {
        (scancode == LEFT_SHIFT_BREAK && self.shift_left) || (scancode == RIGHT_SHIFT_BREAK
            && self.shift_right)
    }

    /// The state at start-up: no shift key held, caps lock off.
    pub fn new() -> (state: Self)
        ensures
            state == (ModifierState { shift_left: false, shift_right: false, caps_lock: false }),
    {
        ModifierState { shift_left: false, shift_right: false, caps_lock: false }
    }

    /// Whether either shift key is held.
    pub fn is_shifted(&self) -> (held: bool)
        ensures
            held == self.shifted(),
    {
        self.shift_left || self.shift_right
    }

    /// Whether caps lock is on.
    pub fn is_capslock(&self) -> (on: bool)
        ensures
            on == self.caps_lock,
    {
        self.caps_lock
    }

    /// Updates the latches for one incoming scancode.
    pub fn check_status_n_change(&mut self, scancode: u8)
        ensures
            *final(self) == old(self).after(scancode),
    {
        match scancode {
            LEFT_SHIFT_MAKE => {
                self.shift_left = true;
            },
            RIGHT_SHIFT_MAKE => {
                self.shift_right = true;
            },
            CAPS_LOCK_MAKE => {
                self.caps_lock = !self.caps_lock;
            },
            LEFT_SHIFT_BREAK => {
                self.shift_left = false;
            },
            RIGHT_SHIFT_BREAK => {
                self.shift_right = false;
            },
            _ => {},
        }
    }
}

} // verus!

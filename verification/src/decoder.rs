//! Decoding: which byte a scancode prints, given the modifier latches.

use vstd::prelude::*;
use crate::keymap::{is_letter_key, key_code, BREAK_BIT, NO_OUTPUT};
use crate::modifiers::{
    ModifierState, CAPS_LOCK_MAKE, LEFT_SHIFT_BREAK, LEFT_SHIFT_MAKE, RIGHT_SHIFT_BREAK,
    RIGHT_SHIFT_MAKE,
};

verus! {

/// A table byte as an outcome: `None` for the byte that stands for "prints
/// nothing".
pub open spec fn printed(byte: u8) -> Option<u8> {
    if byte == NO_OUTPUT {
        None
    } else {
        Some(byte)
    }
}

/// What `scancode` prints while no modifier is active: the plain byte of its
/// key.
pub open spec fn plain(scancode: u8) -> Option<u8> {
    match key_code(scancode) {
        Some(entry) => printed(entry.ascii1),
        None => None,
    }
}

/// What `scancode` prints under `state`. A mapped scancode selects its
/// shifted byte when exactly one of shift and caps lock is active, and its
/// plain byte otherwise. Unmapped scancodes, among them all break codes,
/// print nothing.
pub open spec fn decoded(state: ModifierState, scancode: u8) -> Option<u8> {
    match key_code(scancode) {
        Some(entry) => printed(
            if state.case_inverted() {
                entry.ascii2
            } else {
                entry.ascii1
            },
        ),
        None => None,
    }
}

/// The bytes that `scancodes` print, in the order of their scancodes, when
/// the latches are `state` before the first of them. Each scancode is decoded
/// under the latches as they are once it has arrived itself.
pub open spec fn printed_by(state: ModifierState, scancodes: Seq<u8>) -> Seq<u8>
    decreases scancodes.len(),
{
    if scancodes.len() == 0 {
        Seq::empty()
    } else {
        let earlier = printed_by(state, scancodes.drop_last());
        match decoded(state.after_all(scancodes), scancodes.last()) {
            Some(unit) => earlier.push(unit),
            None => earlier,
        }
    }
}

/// Decodes one scancode. The result depends on the scancode and the three
/// latches and on nothing else, and the latches are not changed. "Prints
/// nothing" is always `None`, never `Some(NO_OUTPUT)`, and a break code never
/// prints anything.
pub fn decode(state: &ModifierState, scancode: u8) -> (unit: Option<u8>)
    ensures
        unit == decoded(*state, scancode),
        unit != Some(NO_OUTPUT),
        scancode >= BREAK_BIT ==> unit.is_none(),
{
    match key_code(scancode) {
        Some(entry) => {
            let selected = if state.is_shifted() ^ state.is_capslock() {
                entry.ascii2
            } else {
                entry.ascii1
            };
            if selected == NO_OUTPUT {
                None
            } else {
                Some(selected)
            }
        },
        None => None,
    }
}

/// The modifier keys themselves print nothing, pressed or released, whatever
/// the latches hold.
pub proof fn lemma_modifier_keys_print_nothing(state: ModifierState, scancode: u8)
    requires
        scancode == LEFT_SHIFT_MAKE || scancode == LEFT_SHIFT_BREAK || scancode
            == RIGHT_SHIFT_MAKE || scancode == RIGHT_SHIFT_BREAK || scancode == CAPS_LOCK_MAKE,
    ensures
        decoded(state, scancode).is_none(),
{
}

/// Caps lock inverts the case of letters. A letter key prints its lower-case
/// letter while shift and caps lock agree and its upper-case letter while
/// they differ, so a caps-lock make code turns what the key prints into the
/// same letter in the other case.
pub proof fn lemma_caps_lock_toggles_letter_case(state: ModifierState, scancode: u8)
    requires
        is_letter_key(scancode),
    ensures
        ({
            let lower = key_code(scancode).unwrap().ascii1;
            let upper = (lower - 0x20) as u8;
            let before = decoded(state, scancode);
            let after = decoded(state.after(CAPS_LOCK_MAKE), scancode);
            &&& 0x61 <= lower <= 0x7A
            &&& before == Some(if state.case_inverted() { upper } else { lower })
            &&& after == Some(if state.case_inverted() { lower } else { upper })
        }),
{
}

/// Caps lock changes nothing for a key whose plain and shifted bytes are the
/// same, nor for a scancode outside the table. (For a key with two different
/// bytes it selects the other one, as a held shift key would.)
pub proof fn lemma_caps_lock_spares_single_output_keys(state: ModifierState, scancode: u8)
    requires
        match key_code(scancode) {
            Some(entry) => entry.ascii1 == entry.ascii2,
            None => true,
        },
    ensures
        decoded(state.after(CAPS_LOCK_MAKE), scancode) == decoded(state, scancode),
{
}

/// Releasing a shift key undoes pressing it. After the make code and then the
/// break code of a shift key the latch of that key is clear and the other two
/// latches are as they were; with the other shift key up and caps lock off,
/// every key prints its plain byte again.
pub proof fn lemma_shift_release_restores_plain_decoding(state: ModifierState, scancode: u8)
    ensures
        ({
            let pressed = state.after(LEFT_SHIFT_MAKE);
            let released = pressed.after(LEFT_SHIFT_BREAK);
            &&& pressed.shift_left
            &&& released == (ModifierState { shift_left: false, ..state })
            &&& !state.shift_right && !state.caps_lock ==> decoded(released, scancode)
                == plain(scancode)
        }),
        ({
            let pressed = state.after(RIGHT_SHIFT_MAKE);
            let released = pressed.after(RIGHT_SHIFT_BREAK);
            &&& pressed.shift_right
            &&& released == (ModifierState { shift_right: false, ..state })
            &&& !state.shift_left && !state.caps_lock ==> decoded(released, scancode)
                == plain(scancode)
        }),
{
}

} // verus!

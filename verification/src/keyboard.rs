//! The driver state: one byte queue and one set of modifier latches, with the
//! two operations that touch them. The interrupt side hands in one scancode
//! at a time; the consumer side polls for one decoded byte at a time.
//!
//! Neither operation blocks or allocates. Whoever owns the `KeyBoard` sees to
//! it that the two sides do not run at the same time.

use vstd::prelude::*;
use crate::decoder::{decode, decoded, printed_by};
use crate::keymap::KEY_MAP_LEN;
use crate::modifiers::ModifierState;
use crate::ring_buffer::{
    after_read, after_write, after_writes, lemma_writes_keep_oldest, next_unit, RingBuffer,
    BUFFER_SIZE,
};

verus! {

/// I/O port from which scancodes are read.
pub const KEYBOARD_DATA: u16 = 0x60;

/// I/O port of the controller's status register.
pub const KEYBOARD_STATUS: u16 = 0x64;

/// I/O port to which controller commands are written.
pub const KEYBOARD_COMMAND: u16 = 0x64;

/// Interrupt vector of the keyboard.
pub const KEYBOARD_IRQ: u16 = 0x21;

/// State of the keyboard driver.
pub struct KeyBoard {
    buffer: RingBuffer,
    modifiers: ModifierState,
}

/// What a `KeyBoard` holds: the latches, and the decoded bytes that have not
/// been fetched yet, oldest first.
pub struct KeyBoardView {
    pub modifiers: ModifierState,
    pub pending: Seq<u8>,
}

impl KeyBoardView {
    /// The state after the interrupt for `scancode`. The latches are brought
    /// up to date first; the scancode is then decoded under the new latches,
    /// and a byte that comes out of it is queued.
    pub open spec fn after_scancode(self, scancode: u8) -> KeyBoardView {
        let modifiers = self.modifiers.after(scancode);
        KeyBoardView {
            modifiers,
            pending: match decoded(modifiers, scancode) {
                Some(unit) => after_write(self.pending, unit),
                None => self.pending,
            },
        }
    }

    /// The state after the interrupts for `scancodes`, first to last.
    pub open spec fn after_scancodes(self, scancodes: Seq<u8>) -> KeyBoardView
        decreases scancodes.len(),
    {
        if scancodes.len() == 0 {
            self
        } else {
            self.after_scancodes(scancodes.drop_last()).after_scancode(scancodes.last())
        }
    }

    /// The state after one `getchar`.
    pub open spec fn after_getchar(self) -> KeyBoardView {
        KeyBoardView { modifiers: self.modifiers, pending: after_read(self.pending) }
    }
}

impl View for KeyBoard {
    type V = KeyBoardView;

    closed spec fn view(&self) -> KeyBoardView {
        KeyBoardView { modifiers: self.modifiers, pending: self.buffer@ }
    }
}

impl KeyBoard {
    /// No keyboard ever holds more than `BUFFER_SIZE - 1` pending bytes.
    pub proof fn lemma_pending_bounded(self)
        ensures
            self@.pending.len() <= BUFFER_SIZE - 1,
    {
        self.buffer.lemma_occupancy_bounded();
    }

    /// The driver state at start-up: nothing queued, no shift key held, caps
    /// lock off.
    pub fn new() -> (keyboard: Self)
        ensures
            keyboard@ == (KeyBoardView {
                modifiers: ModifierState {
                    shift_left: false,
                    shift_right: false,
                    caps_lock: false,
                },
                pending: Seq::empty(),
            }),
    {
        KeyBoard { buffer: RingBuffer::new(), modifiers: ModifierState::new() }
    }

    /// The current latches.
    pub fn modifiers(&self) -> (state: ModifierState)
        ensures
            state == self@.modifiers,
    {
        self.modifiers
    }

    /// Fetches the oldest decoded byte. With nothing pending it returns
    /// `None` at once and leaves the keyboard exactly as it was.
    pub fn getchar(&mut self) -> (unit: Option<u8>)
        ensures
            unit == next_unit(old(self)@.pending),
            final(self)@ == old(self)@.after_getchar(),
            old(self)@.pending.len() == 0 ==> unit.is_none() && *final(self) == *old(self),
    {
        self.buffer.read()
    }
}

/// Handles one keyboard interrupt, given the scancode read from the data
/// port: updates the latches, decodes the scancode, and queues the byte if
/// there is one. A byte that finds the queue full is dropped.
///
/// A scancode past the end of the table queues nothing, and it leaves the
/// latches alone unless it releases a shift key that is held.
pub fn keyboard_intrrupt_handler(keyboard: &mut KeyBoard, scancode: u8)
    ensures
        final(keyboard)@ == old(keyboard)@.after_scancode(scancode),
        final(keyboard)@.pending.len() <= BUFFER_SIZE - 1,
        scancode >= KEY_MAP_LEN ==> final(keyboard)@.pending == old(keyboard)@.pending,
        scancode >= KEY_MAP_LEN && !old(keyboard)@.modifiers.releases_shift(scancode)
            ==> final(keyboard)@ == old(keyboard)@,
{
    proof {
        keyboard.buffer.lemma_occupancy_bounded();
    }
    keyboard.modifiers.check_status_n_change(scancode);
    if let Some(c) = decode(&keyboard.modifiers, scancode) {
        keyboard.buffer.write(c);
    }
}

/// Fetches the oldest decoded byte from `keyboard`, or `None` if nothing is
/// pending.
pub fn getchar(keyboard: &mut KeyBoard) -> (unit: Option<u8>)
    ensures
        unit == next_unit(old(keyboard)@.pending),
        final(keyboard)@ == old(keyboard)@.after_getchar(),
        old(keyboard)@.pending.len() == 0 ==> unit.is_none() && *final(keyboard) == *old(keyboard),
{
    keyboard.getchar()
}

/// Bytes are delivered in the order in which their scancodes arrived. After
/// a run of interrupts the pending bytes are those that were pending before,
/// followed by the bytes that the scancodes print, in scancode order; what
/// does not fit within `BUFFER_SIZE - 1` bytes is cut off at the end.
pub proof fn lemma_bytes_arrive_in_scancode_order(start: KeyBoardView, scancodes: Seq<u8>)
    requires
        start.pending.len() <= BUFFER_SIZE - 1,
    ensures
        start.after_scancodes(scancodes).modifiers == start.modifiers.after_all(scancodes),
        start.after_scancodes(scancodes).pending == after_writes(
            start.pending,
            printed_by(start.modifiers, scancodes),
        ),
        start.after_scancodes(scancodes).pending == if start.pending.len() + printed_by(
            start.modifiers,
            scancodes,
        ).len() <= BUFFER_SIZE - 1 {
            start.pending + printed_by(start.modifiers, scancodes)
        } else {
            (start.pending + printed_by(start.modifiers, scancodes)).take(BUFFER_SIZE - 1)
        },
    decreases scancodes.len(),
{
    if scancodes.len() > 0 {
        let earlier = scancodes.drop_last();
        lemma_bytes_arrive_in_scancode_order(start, earlier);
        match decoded(start.modifiers.after_all(scancodes), scancodes.last()) {
            Some(unit) => {
                let printed = printed_by(start.modifiers, earlier).push(unit);
                assert(printed.drop_last() == printed_by(start.modifiers, earlier));
            },
            None => {},
        }
    }
    lemma_writes_keep_oldest(start.pending, printed_by(start.modifiers, scancodes));
}

} // verus!

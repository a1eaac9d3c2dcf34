//! The scancode table: what each key of scancode set 1 prints, plain and
//! shifted.

use vstd::prelude::*;

verus! {

/// Number of scancodes the table maps: `0x00` up to and including `0x5D`.
pub const KEY_MAP_LEN: usize = 94;

/// The bit that tells a break code (key released) from the make code of the
/// same key (key pressed).
pub const BREAK_BIT: u8 = 0x80;

/// Table value of a key that prints nothing (modifier, function and cursor
/// keys).
pub const NO_OUTPUT: u8 = 0;

/// Make codes by index: the byte a key prints plain, then the byte it prints
/// shifted.
pub const KEY_MAP: [(u8, u8); KEY_MAP_LEN] = [
    (0x00, 0x00),  // 0x00: not assigned
    (0x00, 0x00),  // 0x01: Esc
    (0x31, 0x21),  // 0x02: 1, !
    (0x32, 0x40),  // 0x03: 2, @
    (0x33, 0x23),  // 0x04: 3, #
    (0x34, 0x24),  // 0x05: 4, $
    (0x35, 0x25),  // 0x06: 5, %
    (0x36, 0x5E),  // 0x07: 6, ^
    (0x37, 0x26),  // 0x08: 7, &
    (0x38, 0x2A),  // 0x09: 8, *
    (0x39, 0x28),  // 0x0A: 9, left parenthesis
    (0x30, 0x29),  // 0x0B: 0, right parenthesis
    (0x2D, 0x5F),  // 0x0C: -, _
    (0x3D, 0x2B),  // 0x0D: =, +
    (0x08, 0x08),  // 0x0E: Backspace
    (0x00, 0x00),  // 0x0F: Tab
    (0x71, 0x51),  // 0x10: q, Q
    (0x77, 0x57),  // 0x11: w, W
    (0x65, 0x45),  // 0x12: e, E
    (0x72, 0x52),  // 0x13: r, R
    (0x74, 0x54),  // 0x14: t, T
    (0x79, 0x59),  // 0x15: y, Y
    (0x75, 0x55),  // 0x16: u, U
    (0x69, 0x49),  // 0x17: i, I
    (0x6F, 0x4F),  // 0x18: o, O
    (0x70, 0x50),  // 0x19: p, P
    (0x5B, 0x7B),  // 0x1A: left bracket, left brace
    (0x5D, 0x7D),  // 0x1B: right bracket, right brace
    (0x0A, 0x0A),  // 0x1C: Enter
    (0x00, 0x00),  // 0x1D: left Ctrl
    (0x61, 0x41),  // 0x1E: a, A
    (0x73, 0x53),  // 0x1F: s, S
    (0x64, 0x44),  // 0x20: d, D
    (0x66, 0x46),  // 0x21: f, F
    (0x67, 0x47),  // 0x22: g, G
    (0x68, 0x48),  // 0x23: h, H
    (0x6A, 0x4A),  // 0x24: j, J
    (0x6B, 0x4B),  // 0x25: k, K
    (0x6C, 0x4C),  // 0x26: l, L
    (0x3B, 0x3A),  // 0x27: ;, :
    (0x27, 0x22),  // 0x28: apostrophe, double quote
    (0x60, 0x7E),  // 0x29: backtick, ~
    (0x00, 0x00),  // 0x2A: left Shift
    (0x5C, 0x7C),  // 0x2B: backslash, |
    (0x7A, 0x5A),  // 0x2C: z, Z
    (0x78, 0x58),  // 0x2D: x, X
    (0x63, 0x43),  // 0x2E: c, C
    (0x76, 0x56),  // 0x2F: v, V
    (0x62, 0x42),  // 0x30: b, B
    (0x6E, 0x4E),  // 0x31: n, N
    (0x6D, 0x4D),  // 0x32: m, M
    (0x2C, 0x3C),  // 0x33: ,, <
    (0x2E, 0x3E),  // 0x34: ., >
    (0x2F, 0x3F),  // 0x35: /, ?
    (0x00, 0x00),  // 0x36: right Shift
    (0x2A, 0x2A),  // 0x37: keypad *
    (0x00, 0x00),  // 0x38: Alt
    (0x20, 0x00),  // 0x39: Space
    (0x00, 0x00),  // 0x3A: Caps Lock
    (0x00, 0x00),  // 0x3B: F1
    (0x00, 0x00),  // 0x3C: F2
    (0x00, 0x00),  // 0x3D: F3
    (0x00, 0x00),  // 0x3E: F4
    (0x00, 0x00),  // 0x3F: F5
    (0x00, 0x00),  // 0x40: F6
    (0x00, 0x00),  // 0x41: F7
    (0x00, 0x00),  // 0x42: F8
    (0x00, 0x00),  // 0x43: F9
    (0x00, 0x00),  // 0x44: F10
    (0x00, 0x00),  // 0x45: Num Lock
    (0x00, 0x00),  // 0x46: Scroll Lock
    (0x00, 0x00),  // 0x47: Home
    (0x00, 0x00),  // 0x48: Up
    (0x00, 0x00),  // 0x49: Page Up
    (0x00, 0x00),  // 0x4A: keypad -
    (0x00, 0x00),  // 0x4B: Left
    (0x00, 0x00),  // 0x4C: keypad 5
    (0x00, 0x00),  // 0x4D: Right
    (0x00, 0x00),  // 0x4E: keypad +
    (0x00, 0x00),  // 0x4F: End
    (0x00, 0x00),  // 0x50: Down
    (0x00, 0x00),  // 0x51: Page Down
    (0x00, 0x00),  // 0x52: Insert
    (0x7F, 0x7F),  // 0x53: Delete
    (0x0A, 0x0A),  // 0x54: keypad Enter
    (0x00, 0x00),  // 0x55: not assigned
    (0x00, 0x00),  // 0x56: not assigned
    (0x00, 0x00),  // 0x57: F11
    (0x00, 0x00),  // 0x58: F12
    (0x00, 0x00),  // 0x59: not assigned
    (0x00, 0x00),  // 0x5A: not assigned
    (0x00, 0x00),  // 0x5B: left Win
    (0x00, 0x00),  // 0x5C: right Win
    (0x00, 0x00),  // 0x5D: Apps
];

/// One entry of the scancode table.
#[derive(Clone, Copy, Debug, PartialEq, Eq, Structural)]
pub struct KeyCode {
    /// Byte printed by the plain key; `NO_OUTPUT` if there is none.
    pub ascii1: u8,
    /// Byte printed by the shifted key; `NO_OUTPUT` if there is none.
    pub ascii2: u8,
}

/// The table as a function of the scancode: the entry of a mapped scancode,
/// `None` for every scancode past the end of the table.
pub open spec fn spec_key_code(scancode: u8) -> Option<KeyCode> {
    if scancode < KEY_MAP_LEN {
        Some(KeyCode { ascii1: KEY_MAP[scancode as int].0, ascii2: KEY_MAP[scancode as int].1 })
    } else {
        None
    }
}

/// Looks `scancode` up in the table.
#[verifier::when_used_as_spec(spec_key_code)]
pub fn key_code(scancode: u8) -> (entry: Option<KeyCode>)
    ensures
        entry == spec_key_code(scancode),
{
    let index: usize = scancode as usize;
    if index < KEY_MAP_LEN {
        let (ascii1, ascii2) = KEY_MAP[index];
        Some(KeyCode { ascii1, ascii2 })
    } else {
        None
    }
}

/// Whether `scancode` is the make code of a letter key: its plain byte is a
/// lower-case ASCII letter.
pub open spec fn is_letter_key(scancode: u8) -> bool {
    match key_code(scancode) {
        Some(entry) => 0x61 <= entry.ascii1 <= 0x7A,
        None => false,
    }
}

/// On every letter key the shifted byte is the upper-case form of the plain
/// byte.
pub proof fn lemma_letter_keys_hold_both_cases(scancode: u8)
    requires
        is_letter_key(scancode),
    ensures
        key_code(scancode).unwrap().ascii2 == key_code(scancode).unwrap().ascii1 - 0x20,
{
}

} // verus!

use ps2_keyboard::modifiers::{
    ModifierState, CAPS_LOCK_MAKE, LEFT_SHIFT_BREAK, LEFT_SHIFT_MAKE, RIGHT_SHIFT_BREAK,
    RIGHT_SHIFT_MAKE,
};

fn state(shift_left: bool, shift_right: bool, caps_lock: bool) -> ModifierState {
    ModifierState { shift_left, shift_right, caps_lock }
}

fn all_states() -> Vec<ModifierState> {
    let mut states: Vec<ModifierState> = Vec::new();
    for shift_left in [false, true] {
        for shift_right in [false, true] {
            for caps_lock in [false, true] {
                states.push(state(shift_left, shift_right, caps_lock));
            }
        }
    }
    states
}

#[test]
fn modifier_scancodes_have_their_set_1_values() {
    assert_eq!(LEFT_SHIFT_MAKE, 0x2A);
    assert_eq!(LEFT_SHIFT_BREAK, 0xAA);
    assert_eq!(RIGHT_SHIFT_MAKE, 0x36);
    assert_eq!(RIGHT_SHIFT_BREAK, 0xB6);
    assert_eq!(CAPS_LOCK_MAKE, 0x3A);
    assert_eq!(LEFT_SHIFT_BREAK, LEFT_SHIFT_MAKE | 0x80);
    assert_eq!(RIGHT_SHIFT_BREAK, RIGHT_SHIFT_MAKE | 0x80);
}

#[test]
fn initial_state_has_all_latches_clear() {
    let modifiers = ModifierState::new();
    assert_eq!(modifiers, state(false, false, false));
    assert!(!modifiers.is_shifted());
    assert!(!modifiers.is_capslock());
}

#[test]
fn left_shift_make_sets_and_break_clears() {
    let mut modifiers = ModifierState::new();
    modifiers.check_status_n_change(0x2A);
    assert_eq!(modifiers, state(true, false, false));
    assert!(modifiers.is_shifted());
    modifiers.check_status_n_change(0xAA);
    assert_eq!(modifiers, state(false, false, false));
    assert!(!modifiers.is_shifted());
}

#[test]
fn right_shift_make_sets_and_break_clears() {
    let mut modifiers = ModifierState::new();
    modifiers.check_status_n_change(0x36);
    assert_eq!(modifiers, state(false, true, false));
    assert!(modifiers.is_shifted());
    modifiers.check_status_n_change(0xB6);
    assert_eq!(modifiers, state(false, false, false));
    assert!(!modifiers.is_shifted());
}

#[test]
fn repeated_shift_make_keeps_latch_set() {
    let mut modifiers = ModifierState::new();
    modifiers.check_status_n_change(0x2A);
    modifiers.check_status_n_change(0x2A);
    modifiers.check_status_n_change(0x2A);
    assert_eq!(modifiers, state(true, false, false));
    modifiers.check_status_n_change(0x36);
    modifiers.check_status_n_change(0x36);
    assert_eq!(modifiers, state(true, true, false));
}

#[test]
fn shift_break_without_make_changes_nothing() {
    let mut modifiers = ModifierState::new();
    modifiers.check_status_n_change(0xAA);
    modifiers.check_status_n_change(0xB6);
    assert_eq!(modifiers, state(false, false, false));
}

#[test]
fn each_shift_key_has_its_own_latch() {
    let mut modifiers = ModifierState::new();
    modifiers.check_status_n_change(0x2A);
    modifiers.check_status_n_change(0x36);
    assert_eq!(modifiers, state(true, true, false));
    modifiers.check_status_n_change(0xAA);
    assert_eq!(modifiers, state(false, true, false));
    assert!(modifiers.is_shifted());
    modifiers.check_status_n_change(0xB6);
    assert_eq!(modifiers, state(false, false, false));
    assert!(!modifiers.is_shifted());
}

#[test]
fn wrong_break_code_does_not_release_the_other_shift() {
    let mut modifiers = ModifierState::new();
    modifiers.check_status_n_change(0x2A);
    modifiers.check_status_n_change(0xB6);
    assert_eq!(modifiers, state(true, false, false));
    let mut modifiers = ModifierState::new();
    modifiers.check_status_n_change(0x36);
    modifiers.check_status_n_change(0xAA);
    assert_eq!(modifiers, state(false, true, false));
}

#[test]
fn caps_lock_make_toggles() {
    let mut modifiers = ModifierState::new();
    modifiers.check_status_n_change(0x3A);
    assert_eq!(modifiers, state(false, false, true));
    assert!(modifiers.is_capslock());
    modifiers.check_status_n_change(0x3A);
    assert_eq!(modifiers, state(false, false, false));
    assert!(!modifiers.is_capslock());
    modifiers.check_status_n_change(0x3A);
    assert!(modifiers.is_capslock());
}

#[test]
fn caps_lock_break_is_ignored() {
    for before in all_states() {
        let mut modifiers = before;
        modifiers.check_status_n_change(0xBA);
        assert_eq!(modifiers, before);
    }
}

#[test]
fn caps_lock_does_not_count_as_shift() {
    let modifiers = state(false, false, true);
    assert!(!modifiers.is_shifted());
    assert!(modifiers.is_capslock());
}

#[test]
fn is_shifted_is_the_or_of_both_latches() {
    for modifiers in all_states() {
        assert_eq!(modifiers.is_shifted(), modifiers.shift_left || modifiers.shift_right);
        assert_eq!(modifiers.is_capslock(), modifiers.caps_lock);
    }
}

#[test]
fn only_the_five_modifier_scancodes_change_the_latches() {
    for before in all_states() {
        for scancode in 0..=0xFFu8 {
            let mut modifiers = before;
            modifiers.check_status_n_change(scancode);
            let expected = match scancode {
                0x2A => state(true, before.shift_right, before.caps_lock),
                0xAA => state(false, before.shift_right, before.caps_lock),
                0x36 => state(before.shift_left, true, before.caps_lock),
                0xB6 => state(before.shift_left, false, before.caps_lock),
                0x3A => state(before.shift_left, before.shift_right, !before.caps_lock),
                _ => before,
            };
            assert_eq!(modifiers, expected, "scancode {:#04x}", scancode);
        }
    }
}

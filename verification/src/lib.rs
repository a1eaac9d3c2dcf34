//! Core of a PS/2 keyboard driver for scancode set 1.
//!
//! A scancode read from the keyboard's data port goes through three steps:
//! the shift and caps-lock latches are updated ([`modifiers`]), the scancode
//! is looked up in the key table under those latches ([`keymap`],
//! [`decoder`]), and the byte that comes out, if any, is queued in a
//! fixed-capacity ring ([`ring_buffer`]). A consumer polls the queue one byte
//! at a time. [`keyboard`] holds the state and the two entry points.
//!
//! Nothing here touches hardware, blocks or allocates. The caller reads the
//! port, and keeps the interrupt side and the consumer side from running on
//! the same `KeyBoard` at once.

pub mod decoder;
pub mod keyboard;
pub mod keymap;
pub mod modifiers;
pub mod ring_buffer;

pub use keyboard::{getchar, keyboard_intrrupt_handler, KeyBoard};

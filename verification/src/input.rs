//! The input gate: deciding whether a key press asks the monitor to quit.
//!
//! Waiting for the key is left to the embedding program.  It hands over what
//! it observed within one tick period, in the terms of the `crossterm`
//! terminal library: the key's code, and the modifier keys held with it as
//! that library's `KeyModifiers` packs them into a byte.

use crossterm::event::KeyModifiers;
use vstd::prelude::*;

verus! {

/// How long one poll for a key may take, in milliseconds.  The poll is what
/// paces the monitor, so this is also the tick period.
pub const TICK_PERIOD_MS: u64 = 1000;

/// The key that was pressed, as far as the monitor tells keys apart.
#[derive(Clone, Copy, Debug, PartialEq, Eq, Structural)]
pub enum KeyCode {
    /// A key that produces the given character.
    Char(char),
    /// Any other key.
    Other,
}

/// One key press.
#[derive(Clone, Copy, Debug, PartialEq, Eq, Structural)]
pub struct KeyPress {
    /// The key.
    pub code: KeyCode,
    /// The modifier keys held with it, one bit each.
    pub modifiers: u8,
}

/// Why the monitor is asked to stop.
#[derive(Clone, Copy, Debug, PartialEq, Eq, Structural)]
pub enum QuitReason {
    /// The operator asked for it.
    Quit,
}

/// Whether the control key is among the modifiers: the bit of value two.
pub open spec fn control_held(modifiers: u8) -> bool {
    modifiers & 0x02 == 0x02
}

/// Whether `key` is the quit key, `q`, whatever is held with it.
pub open spec fn is_quit_key(key: KeyPress) -> bool {
    key.code == KeyCode::Char('q')
}

/// Whether `key` is the interrupt combination, `c` with the control key.
pub open spec fn is_interrupt(key: KeyPress) -> bool {
    key.code == KeyCode::Char('c') && control_held(key.modifiers)
}

/// What a poll comes to: a quit signal when a key was observed and it is the
/// quit key or the interrupt combination, and nothing otherwise.
pub open spec fn quit_signal(observed: Option<KeyPress>) -> Option<QuitReason> {
    match observed {
        Some(key) => if is_quit_key(key) || is_interrupt(key) {
            Some(QuitReason::Quit)
        } else {
            None
        },
        None => None,
    }
}

/// Asks `crossterm` whether the control key is among the modifiers with the
/// given bits: builds its `KeyModifiers` from the bits, all of them kept,
/// and calls `KeyModifiers::contains` with `KeyModifiers::CONTROL`.
///
/// Not proved here: `CONTROL` is the flag of value two, and `contains` is
/// true exactly when every bit of the flag is set in the modifiers.
#[verifier::external_body]
fn modifiers_hold_control(modifiers: u8) -> (held: bool)
    ensures
        held == control_held(modifiers),
{
    KeyModifiers::from_bits_retain(modifiers).contains(KeyModifiers::CONTROL)
}

/// Decides whether a key press is a quit signal.
pub fn quit_reason(key: &KeyPress) -> (reason: Option<QuitReason>)
    ensures
        reason == quit_signal(Some(*key)),
{
    match key.code {
        KeyCode::Char(c) => {
            if c == 'q' || (c == 'c' && modifiers_hold_control(key.modifiers)) {
                Some(QuitReason::Quit)
            } else {
                None
            }
        },
        KeyCode::Other => None,
    }
}

/// The result of one poll of the input gate.  `observed` is the key press
/// seen within the tick period, or `None` when the period passed without
/// one.
pub fn poll_result(observed: Option<KeyPress>) -> (reason: Option<QuitReason>)
    ensures
        reason == quit_signal(observed),
{
    match observed {
        Some(key) => quit_reason(&key),
        None => None,
    }
}

} // verus!

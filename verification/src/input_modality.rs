//! Input modality: which input origin last pressed in this window, and
//! therefore whether focused controls paint their focus ring.
//!
//! The policy is strict: only keyboard input paints focus rings; programmatic
//! focus inherits the previous origin and never paints one by itself. The
//! modality is stored as one byte (0 programmatic, 1 keyboard, 2 pointer);
//! the functions here read and write that byte, wherever the caller keeps it.

use vstd::prelude::*;

verus! {

/// The most recent input origin capable of changing focus.
#[derive(Clone, Copy, Debug, PartialEq, Eq, Structural)]
pub enum InputModality {
    /// Initial state, and focus changes initiated by application code.
    Programmatic,
    /// A keyboard event was observed (any key, including bare modifiers).
    Keyboard,
    /// A pointer button was pressed over the root surface.
    Pointer,
}

impl Default for InputModality {
    fn default() -> (r: Self)
        ensures
            r == InputModality::Programmatic,
    {
        InputModality::Programmatic
    }
}

/// The stored byte of a modality.
pub open spec fn modality_byte(m: InputModality) -> u8 {
    match m {
        InputModality::Programmatic => 0,
        InputModality::Keyboard => 1,
        InputModality::Pointer => 2,
    }
}

/// The modality a stored byte names; unknown bytes read as programmatic.
pub open spec fn modality_of_byte(value: u8) -> InputModality {
    if value == 1 {
        InputModality::Keyboard
    } else if value == 2 {
        InputModality::Pointer
    } else {
        InputModality::Programmatic
    }
}

impl InputModality {
    /// Decode a stored byte.
    pub fn from_u8(value: u8) -> (r: Self)
        ensures
            r == modality_of_byte(value),
    {
        if value == 1 {
            InputModality::Keyboard
        } else if value == 2 {
            InputModality::Pointer
        } else {
            InputModality::Programmatic
        }
    }

    /// Encode as the stored byte.
    pub fn as_u8(self) -> (r: u8)
        ensures
            r == modality_byte(self),
    {
        match self {
            InputModality::Programmatic => 0,
            InputModality::Keyboard => 1,
            InputModality::Pointer => 2,
        }
    }

    /// Strict focus-visible policy: only keyboard modality paints a ring.
    pub fn shows_focus_ring(self) -> (r: bool)
        ensures
            r == (self == InputModality::Keyboard),
    {
        match self {
            InputModality::Keyboard => true,
            _ => false,
        }
    }
}

/// The current modality, read from its stored byte.
pub fn modality(stored: u8) -> (r: InputModality)
    ensures
        r == modality_of_byte(stored),
{
    InputModality::from_u8(stored)
}

/// Whether focused controls currently paint their focus ring.
pub fn focus_visible(stored: u8) -> (r: bool)
    ensures
        r == (modality_of_byte(stored) == InputModality::Keyboard),
{
    modality(stored).shows_focus_ring()
}

/// Observe one keyboard press.
pub fn observe_keyboard(stored: &mut u8)
    ensures
        *final(stored) == modality_byte(InputModality::Keyboard),
{
    *stored = InputModality::Keyboard.as_u8();
}

/// Observe one pointer button press over the root surface.
pub fn observe_pointer(stored: &mut u8)
    ensures
        *final(stored) == modality_byte(InputModality::Pointer),
{
    *stored = InputModality::Pointer.as_u8();
}

/// Decoding the stored byte of a modality gives that modality back.
pub proof fn lemma_modality_byte_round_trip(m: InputModality)
    ensures
        modality_of_byte(modality_byte(m)) == m,
{
}

/// Keyboard input makes the focus ring visible, pointer input hides it, and
/// the initial programmatic state never shows one.
pub proof fn lemma_focus_ring_follows_last_input()
    ensures
        modality_of_byte(modality_byte(InputModality::Keyboard)) == InputModality::Keyboard,
        modality_of_byte(modality_byte(InputModality::Pointer)) != InputModality::Keyboard,
        modality_of_byte(0) != InputModality::Keyboard,
{
}

} // verus!

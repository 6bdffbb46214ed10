//! Keyboard events normalized into the shared shell key vocabulary.
//!
//! A named key maps to a fixed shell key; a single printable character maps
//! to a fixed key for the Alt+digit page shortcuts and the Ctrl+Space /
//! Ctrl+F / Ctrl+C commands, and otherwise passes through as a character for
//! local bindings and search input. Everything else (Backspace, bare
//! modifiers, multi-character input) has no shared meaning.

use vstd::prelude::*;
use crate::text::chars_of;

verus! {

/// The shared key vocabulary.
#[derive(Clone, Copy, Debug, PartialEq, Eq, Structural)]
pub enum KeyCode {
    Enter,
    Escape,
    Tab,
    Delete,
    ArrowUp,
    ArrowDown,
    ArrowLeft,
    ArrowRight,
    PageUp,
    PageDown,
    Home,
    End,
    F1,
    F5,
    F9,
    Digit1,
    Digit2,
    Digit3,
    Digit4,
    Digit5,
    Digit6,
    Digit7,
    Digit8,
    Space,
    F,
    C,
}

/// The shared modifier state.
#[derive(Clone, Copy, Debug, PartialEq, Eq, Structural)]
pub struct Modifiers {
    pub control: bool,
    pub alt: bool,
    pub shift: bool,
    pub logo: bool,
}

/// One normalized key press routed through the shared vocabulary.
#[derive(Clone, Copy, Debug, PartialEq, Eq, Structural)]
pub struct ShellKeyEvent {
    pub code: KeyCode,
    pub modifiers: Modifiers,
}

/// The normalized outcome of one key press.
#[derive(Clone, Copy, Debug, PartialEq, Eq, Structural)]
pub enum IcedKey {
    /// A fixed key (arrows, page keys, enter, escape, ...).
    Fixed(ShellKeyEvent),
    /// A printable character plus the shared modifier state.
    Character(char, Modifiers),
    /// A key with no shared meaning.
    Other,
}

/// The toolkit's named keys that the mapping distinguishes.
#[derive(Clone, Copy, Debug, PartialEq, Eq, Structural)]
pub enum NamedKey {
    Enter,
    Escape,
    Tab,
    Backspace,
    Delete,
    ArrowUp,
    ArrowDown,
    ArrowLeft,
    ArrowRight,
    PageUp,
    PageDown,
    Home,
    End,
    F1,
    F5,
    F9,
    Other,
}

/// A key press as the toolkit reports it.
#[derive(Clone, Debug)]
pub enum KeyInput {
    Named(NamedKey),
    Character(String),
    Unidentified,
}

/// The toolkit's modifier flags.
#[derive(Clone, Copy, Debug, PartialEq, Eq, Structural)]
pub struct KeyModifiers {
    pub control: bool,
    pub alt: bool,
    pub shift: bool,
    pub logo: bool,
}

/// The shared modifier state of the toolkit's flags.
pub open spec fn modifiers_spec(m: KeyModifiers) -> Modifiers {
    Modifiers { control: m.control, alt: m.alt, shift: m.shift, logo: m.logo }
}

/// Map the shared modifier state from the toolkit's flags.
pub fn modifiers(m: KeyModifiers) -> (r: Modifiers)
    ensures
        r == modifiers_spec(m),
{
    Modifiers { control: m.control, alt: m.alt, shift: m.shift, logo: m.logo }
}

/// The fixed shell key of a named key (Backspace and unlisted keys have none).
pub open spec fn named_code(key: NamedKey) -> Option<KeyCode> {
    match key {
        NamedKey::Enter => Some(KeyCode::Enter),
        NamedKey::Escape => Some(KeyCode::Escape),
        NamedKey::Tab => Some(KeyCode::Tab),
        NamedKey::Backspace => None,
        NamedKey::Delete => Some(KeyCode::Delete),
        NamedKey::ArrowUp => Some(KeyCode::ArrowUp),
        NamedKey::ArrowDown => Some(KeyCode::ArrowDown),
        NamedKey::ArrowLeft => Some(KeyCode::ArrowLeft),
        NamedKey::ArrowRight => Some(KeyCode::ArrowRight),
        NamedKey::PageUp => Some(KeyCode::PageUp),
        NamedKey::PageDown => Some(KeyCode::PageDown),
        NamedKey::Home => Some(KeyCode::Home),
        NamedKey::End => Some(KeyCode::End),
        NamedKey::F1 => Some(KeyCode::F1),
        NamedKey::F5 => Some(KeyCode::F5),
        NamedKey::F9 => Some(KeyCode::F9),
        NamedKey::Other => None,
    }
}

/// The fixed shell key a single character stands for under the modifiers:
/// Alt + 1..8 select pages, Ctrl + Space / F / C are commands.
pub open spec fn character_code(c: char, m: KeyModifiers) -> Option<KeyCode> {
    if m.alt && c == '1' {
        Some(KeyCode::Digit1)
    } else if m.alt && c == '2' {
        Some(KeyCode::Digit2)
    } else if m.alt && c == '3' {
        Some(KeyCode::Digit3)
    } else if m.alt && c == '4' {
        Some(KeyCode::Digit4)
    } else if m.alt && c == '5' {
        Some(KeyCode::Digit5)
    } else if m.alt && c == '6' {
        Some(KeyCode::Digit6)
    } else if m.alt && c == '7' {
        Some(KeyCode::Digit7)
    } else if m.alt && c == '8' {
        Some(KeyCode::Digit8)
    } else if m.control && c == ' ' {
        Some(KeyCode::Space)
    } else if m.control && (c == 'f' || c == 'F') {
        Some(KeyCode::F)
    } else if m.control && (c == 'c' || c == 'C') {
        Some(KeyCode::C)
    } else {
        None
    }
}

/// The normalized outcome of one key press.
pub open spec fn map_key_spec(key: KeyInput, m: KeyModifiers) -> IcedKey {
    let shared = modifiers_spec(m);
    match key {
        KeyInput::Named(named) => match named_code(named) {
            Some(code) => IcedKey::Fixed(ShellKeyEvent { code, modifiers: shared }),
            None => IcedKey::Other,
        },
        KeyInput::Character(s) => if s@.len() == 1 {
            match character_code(s@[0], m) {
                Some(code) => IcedKey::Fixed(ShellKeyEvent { code, modifiers: shared }),
                None => IcedKey::Character(s@[0], shared),
            }
        } else {
            IcedKey::Other
        },
        KeyInput::Unidentified => IcedKey::Other,
    }
}

fn character_code_exec(c: char, m: KeyModifiers) -> (r: Option<KeyCode>)
    ensures
        r == character_code(c, m),
{
    if m.alt && c == '1' {
        Some(KeyCode::Digit1)
    } else if m.alt && c == '2' {
        Some(KeyCode::Digit2)
    } else if m.alt && c == '3' {
        Some(KeyCode::Digit3)
    } else if m.alt && c == '4' {
        Some(KeyCode::Digit4)
    } else if m.alt && c == '5' {
        Some(KeyCode::Digit5)
    } else if m.alt && c == '6' {
        Some(KeyCode::Digit6)
    } else if m.alt && c == '7' {
        Some(KeyCode::Digit7)
    } else if m.alt && c == '8' {
        Some(KeyCode::Digit8)
    } else if m.control && c == ' ' {
        Some(KeyCode::Space)
    } else if m.control && (c == 'f' || c == 'F') {
        Some(KeyCode::F)
    } else if m.control && (c == 'c' || c == 'C') {
        Some(KeyCode::C)
    } else {
        None
    }
}

/// Map one key press onto the shared vocabulary.
pub fn map_key(key: &KeyInput, m: KeyModifiers) -> (r: IcedKey)
    ensures
        r == map_key_spec(*key, m),
{
    let shared = modifiers(m);
    let code = match key {
        KeyInput::Named(named) => match named {
            NamedKey::Enter => KeyCode::Enter,
            NamedKey::Escape => KeyCode::Escape,
            NamedKey::Tab => KeyCode::Tab,
            NamedKey::Backspace => return IcedKey::Other,
            NamedKey::Delete => KeyCode::Delete,
            NamedKey::ArrowUp => KeyCode::ArrowUp,
            NamedKey::ArrowDown => KeyCode::ArrowDown,
            NamedKey::ArrowLeft => KeyCode::ArrowLeft,
            NamedKey::ArrowRight => KeyCode::ArrowRight,
            NamedKey::PageUp => KeyCode::PageUp,
            NamedKey::PageDown => KeyCode::PageDown,
            NamedKey::Home => KeyCode::Home,
            NamedKey::End => KeyCode::End,
            NamedKey::F1 => KeyCode::F1,
            NamedKey::F5 => KeyCode::F5,
            NamedKey::F9 => KeyCode::F9,
            NamedKey::Other => return IcedKey::Other,
        },
        KeyInput::Character(s) => {
            let chars = chars_of(s.as_str());
            if chars.len() != 1 {
                return IcedKey::Other;
            }
            let c = chars[0];
            return match character_code_exec(c, m) {
                Some(code) => IcedKey::Fixed(ShellKeyEvent { code, modifiers: shared }),
                None => IcedKey::Character(c, shared),
            };
        },
        KeyInput::Unidentified => return IcedKey::Other,
    };
    IcedKey::Fixed(ShellKeyEvent { code, modifiers: shared })
}

/// Alt + a page digit always selects a page, whatever else is held, and the
/// modifier state travels with every normalized key unchanged.
pub proof fn lemma_alt_digit_selects_page(s: String, m: KeyModifiers)
    requires
        m.alt,
        s@.len() == 1,
        '1' <= s@[0] <= '8',
    ensures
        map_key_spec(KeyInput::Character(s), m) matches IcedKey::Fixed(e) && e.modifiers == modifiers_spec(m)
            && (e.code == KeyCode::Digit1 || e.code == KeyCode::Digit2 || e.code == KeyCode::Digit3
            || e.code == KeyCode::Digit4 || e.code == KeyCode::Digit5 || e.code == KeyCode::Digit6
            || e.code == KeyCode::Digit7 || e.code == KeyCode::Digit8),
{
}

} // verus!

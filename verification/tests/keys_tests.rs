use taskmanager_iced::keys::{
    map_key, modifiers, IcedKey, KeyCode, KeyInput, KeyModifiers, Modifiers, NamedKey, ShellKeyEvent,
};

fn mods(control: bool, alt: bool, shift: bool, logo: bool) -> KeyModifiers {
    KeyModifiers { control, alt, shift, logo }
}

fn shared(control: bool, alt: bool, shift: bool, logo: bool) -> Modifiers {
    Modifiers { control, alt, shift, logo }
}

fn character(text: &str) -> KeyInput {
    KeyInput::Character(text.to_string())
}

#[test]
fn modifier_flags_carry_over() {
    assert_eq!(modifiers(mods(true, false, true, false)), shared(true, false, true, false));
    assert_eq!(modifiers(mods(false, true, false, true)), shared(false, true, false, true));
}

#[test]
fn named_keys_map_to_fixed_codes() {
    let none = mods(false, false, false, false);
    let cases = [
        (NamedKey::Enter, KeyCode::Enter),
        (NamedKey::Escape, KeyCode::Escape),
        (NamedKey::Tab, KeyCode::Tab),
        (NamedKey::Delete, KeyCode::Delete),
        (NamedKey::ArrowUp, KeyCode::ArrowUp),
        (NamedKey::ArrowDown, KeyCode::ArrowDown),
        (NamedKey::ArrowLeft, KeyCode::ArrowLeft),
        (NamedKey::ArrowRight, KeyCode::ArrowRight),
        (NamedKey::PageUp, KeyCode::PageUp),
        (NamedKey::PageDown, KeyCode::PageDown),
        (NamedKey::Home, KeyCode::Home),
        (NamedKey::End, KeyCode::End),
        (NamedKey::F1, KeyCode::F1),
        (NamedKey::F5, KeyCode::F5),
        (NamedKey::F9, KeyCode::F9),
    ];
    for (named, code) in cases {
        assert_eq!(
            map_key(&KeyInput::Named(named), none),
            IcedKey::Fixed(ShellKeyEvent { code, modifiers: shared(false, false, false, false) })
        );
    }
    let shifted = map_key(&KeyInput::Named(NamedKey::Tab), mods(false, false, true, false));
    assert_eq!(shifted, IcedKey::Fixed(ShellKeyEvent { code: KeyCode::Tab, modifiers: shared(false, false, true, false) }));
}

#[test]
fn backspace_and_unknown_keys_have_no_shared_meaning() {
    let none = mods(false, false, false, false);
    assert_eq!(map_key(&KeyInput::Named(NamedKey::Backspace), none), IcedKey::Other);
    assert_eq!(map_key(&KeyInput::Named(NamedKey::Other), none), IcedKey::Other);
    assert_eq!(map_key(&KeyInput::Unidentified, none), IcedKey::Other);
}

#[test]
fn alt_digits_select_pages() {
    let alt = mods(false, true, false, false);
    let digits = [
        ("1", KeyCode::Digit1),
        ("2", KeyCode::Digit2),
        ("3", KeyCode::Digit3),
        ("4", KeyCode::Digit4),
        ("5", KeyCode::Digit5),
        ("6", KeyCode::Digit6),
        ("7", KeyCode::Digit7),
        ("8", KeyCode::Digit8),
    ];
    for (text, code) in digits {
        assert_eq!(
            map_key(&character(text), alt),
            IcedKey::Fixed(ShellKeyEvent { code, modifiers: shared(false, true, false, false) })
        );
    }
    assert_eq!(map_key(&character("9"), alt), IcedKey::Character('9', shared(false, true, false, false)));
    assert_eq!(
        map_key(&character("3"), mods(false, false, false, false)),
        IcedKey::Character('3', shared(false, false, false, false))
    );
}

#[test]
fn control_shortcuts_are_fixed_keys() {
    let ctrl = mods(true, false, false, false);
    let ctrl_shared = shared(true, false, false, false);
    assert_eq!(map_key(&character(" "), ctrl), IcedKey::Fixed(ShellKeyEvent { code: KeyCode::Space, modifiers: ctrl_shared }));
    assert_eq!(map_key(&character("f"), ctrl), IcedKey::Fixed(ShellKeyEvent { code: KeyCode::F, modifiers: ctrl_shared }));
    assert_eq!(map_key(&character("F"), ctrl), IcedKey::Fixed(ShellKeyEvent { code: KeyCode::F, modifiers: ctrl_shared }));
    assert_eq!(map_key(&character("c"), ctrl), IcedKey::Fixed(ShellKeyEvent { code: KeyCode::C, modifiers: ctrl_shared }));
    assert_eq!(map_key(&character("C"), ctrl), IcedKey::Fixed(ShellKeyEvent { code: KeyCode::C, modifiers: ctrl_shared }));
    assert_eq!(map_key(&character("f"), mods(false, false, false, false)), IcedKey::Character('f', shared(false, false, false, false)));
    assert_eq!(map_key(&character("x"), ctrl), IcedKey::Character('x', ctrl_shared));
}

#[test]
fn only_single_characters_pass_through() {
    let none = mods(false, false, false, false);
    assert_eq!(map_key(&character(""), none), IcedKey::Other);
    assert_eq!(map_key(&character("ab"), none), IcedKey::Other);
    assert_eq!(map_key(&character("é"), none), IcedKey::Character('é', shared(false, false, false, false)));
    assert_eq!(map_key(&character("中"), none), IcedKey::Character('中', shared(false, false, false, false)));
}

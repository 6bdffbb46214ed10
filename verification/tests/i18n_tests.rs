use taskmanager_iced::i18n::{t, Key, Language};

#[test]
fn language_tokens_round_trip() {
    for language in [Language::En, Language::Zh] {
        assert_eq!(Language::from_token(language.token()), Some(language));
    }
    assert_eq!(Language::from_token(""), None);
    assert_eq!(Language::from_token("fr"), None);
    assert_eq!(Language::En.label(), "English");
    assert_eq!(Language::Zh.label(), "中文");
}

#[test]
fn translations_cover_both_languages() {
    assert_eq!(t(Language::En, Key::Settings), "Settings");
    assert_eq!(t(Language::Zh, Key::Settings), "设置");
    assert_eq!(Key::Performance.code(), "settings.startup_performance");
    assert_eq!(t(Language::Zh, Key::Applications), "进程");
}

fn every_key() -> Vec<Key> {
    vec![Key::Settings, Key::Containers, Key::Health, Key::Export, Key::About, Key::Close, Key::Appearance, Key::Skin, Key::Mode, Key::HighContrast, Key::On, Key::Off, Key::Fonts, Key::FontFamily, Key::FontChoose, Key::Density, Key::Units, Key::Language, Key::Version, Key::SystemInfo, Key::AlertRules, Key::DeviceSummary, Key::ExportDone, Key::ExportNoData, Key::ExportFailed, Key::ContainersUnavailable, Key::ContainersUnsupported, Key::ContainersPermissionDenied, Key::ContainersNoContainers, Key::ContainersWaiting, Key::ContainersHeader, Key::HealthWaiting, Key::HealthNoData, Key::DetailsTitle, Key::Confirm, Key::Cancel, Key::Light, Key::Dark, Key::EyeForest, Key::System, Key::Bundled, Key::Comfortable, Key::Compact, Key::Bytes, Key::Bits, Key::Default, Key::Subpixel, Key::Grayscale, Key::RememberLast, Key::Performance, Key::Applications]
}

#[test]
fn codes_and_renderings_are_distinct() {
    let keys = every_key();
    for (i, a) in keys.iter().enumerate() {
        let code = a.code();
        let (ns, name) = code.split_once('.').unwrap();
        assert!(!ns.is_empty() && !name.is_empty() && !name.contains('.'));
        assert!(code.chars().all(|c| c == '.' || c == '_' || c.is_ascii_lowercase()));
        assert_ne!(t(Language::Zh, *a), t(Language::En, *a));
        for b in &keys[i + 1..] {
            assert_ne!(a.code(), b.code());
            assert_ne!(t(Language::En, *a), t(Language::En, *b));
            assert_ne!(t(Language::Zh, *a), t(Language::Zh, *b));
        }
    }
}

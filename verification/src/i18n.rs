//! Renderer-local language preference and the minimal dictionary for the
//! surfaces this frontend owns (settings / about / export / health).
//!
//! The two supported languages persist as the tokens `en` / `zh`; an empty or
//! unknown token means "no recorded preference". Every key has both an English
//! and a Chinese rendering, so no label can render empty.

use vstd::prelude::*;
use crate::text::str_eq;

verus! {

/// The two supported UI languages.
#[derive(Clone, Copy, Debug, PartialEq, Eq, Structural)]
pub enum Language {
    En,
    Zh,
}

impl Default for Language {
    fn default() -> (r: Self)
        ensures
            r == Language::En,
    {
        Language::En
    }
}

/// Every supported language, in picker order.
pub fn all_languages() -> (r: [Language; 2])
    ensures
        r@ == seq![Language::En, Language::Zh],
{
    [Language::En, Language::Zh]
}

impl Language {
    /// The self-name of a language in its own tongue.
    pub open spec fn label_spec(self) -> Seq<char> {
        match self {
            Language::En => "English"@,
            Language::Zh => "\u{4e2d}\u{6587}"@,
        }
    }

    /// The persisted preference token of a language.
    pub open spec fn token_spec(self) -> Seq<char> {
        match self {
            Language::En => "en"@,
            Language::Zh => "zh"@,
        }
    }

    /// Self-name in its own tongue (`English` / Chinese).
    pub fn label(self) -> (s: &'static str)
        ensures
            s@ == self.label_spec(),
    {
        match self {
            Language::En => "English",
            Language::Zh => "\u{4e2d}\u{6587}",
        }
    }

    /// The persisted language token for this language.
    pub fn token(self) -> (s: &'static str)
        ensures
            s@ == self.token_spec(),
    {
        match self {
            Language::En => "en",
            Language::Zh => "zh",
        }
    }

    /// Parse a persisted language token: `en` and `zh` name a language; any
    /// other token (empty, unknown) yields `None`.
    pub fn from_token(token: &str) -> (r: Option<Self>)
        ensures
            r == parse_language_token(token@),
    {
        if str_eq(token, "en") {
            Some(Language::En)
        } else if str_eq(token, "zh") {
            Some(Language::Zh)
        } else {
            None
        }
    }
}

/// The language a persisted token names: `en` and `zh`, nothing else.
pub open spec fn parse_language_token(token: Seq<char>) -> Option<Language> {
    if token == "en"@ {
        Some(Language::En)
    } else if token == "zh"@ {
        Some(Language::Zh)
    } else {
        None
    }
}

/// Parsing the token a language persists under gives that language back.
pub proof fn lemma_language_token_round_trip(language: Language)
    ensures
        parse_language_token(language.token_spec()) == Some(language),
{
    reveal_strlit("en");
    reveal_strlit("zh");
    assert("zh"@[0] != "en"@[0]);
}

/// Dictionary keys for the iced-owned surfaces.
#[derive(Clone, Copy, Debug, PartialEq, Eq, Structural)]
pub enum Key {
    Settings,
    Containers,
    Health,
    Export,
    About,
    Close,
    Appearance,
    Skin,
    Mode,
    HighContrast,
    On,
    Off,
    Fonts,
    FontFamily,
    FontChoose,
    Density,
    Units,
    Language,
    Version,
    SystemInfo,
    AlertRules,
    DeviceSummary,
    ExportDone,
    ExportNoData,
    ExportFailed,
    ContainersUnavailable,
    ContainersUnsupported,
    ContainersPermissionDenied,
    ContainersNoContainers,
    ContainersWaiting,
    ContainersHeader,
    HealthWaiting,
    HealthNoData,
    DetailsTitle,
    Confirm,
    Cancel,
    Light,
    Dark,
    EyeForest,
    System,
    Bundled,
    Comfortable,
    Compact,
    Bytes,
    Bits,
    Default,
    Subpixel,
    Grayscale,
    RememberLast,
    Performance,
    Applications,
}

/// The stable dictionary key string of a key.
pub open spec fn key_code_spec(key: Key) -> Seq<char> {
    match key {
        Key::Settings => "settings.title"@,
        Key::Containers => "containers.title"@,
        Key::Health => "health.title"@,
        Key::Export => "export.title"@,
        Key::About => "about.title"@,
        Key::Close => "chrome.close"@,
        Key::Appearance => "settings.appearance"@,
        Key::Skin => "settings.skin"@,
        Key::Mode => "settings.mode"@,
        Key::HighContrast => "settings.high_contrast"@,
        Key::On => "settings.on"@,
        Key::Off => "settings.off"@,
        Key::Fonts => "settings.fonts"@,
        Key::FontFamily => "settings.font_family"@,
        Key::FontChoose => "settings.font_choose"@,
        Key::Density => "settings.density"@,
        Key::Units => "settings.units"@,
        Key::Language => "settings.language"@,
        Key::Version => "about.version"@,
        Key::SystemInfo => "about.system_info"@,
        Key::AlertRules => "health.alert_rules"@,
        Key::DeviceSummary => "health.device_summary"@,
        Key::ExportDone => "export.done"@,
        Key::ExportNoData => "export.no_data"@,
        Key::ExportFailed => "export.failed"@,
        Key::ContainersUnavailable => "containers.unavailable"@,
        Key::ContainersUnsupported => "containers.unsupported"@,
        Key::ContainersPermissionDenied => "containers.permission_denied"@,
        Key::ContainersNoContainers => "containers.no_containers"@,
        Key::ContainersWaiting => "containers.waiting"@,
        Key::ContainersHeader => "containers.header"@,
        Key::HealthWaiting => "health.waiting"@,
        Key::HealthNoData => "health.no_data"@,
        Key::DetailsTitle => "details.title"@,
        Key::Confirm => "chrome.confirm"@,
        Key::Cancel => "chrome.cancel"@,
        Key::Light => "settings.light"@,
        Key::Dark => "settings.dark"@,
        Key::EyeForest => "settings.eyeforest"@,
        Key::System => "settings.system"@,
        Key::Bundled => "settings.bundled"@,
        Key::Comfortable => "settings.comfortable"@,
        Key::Compact => "settings.compact"@,
        Key::Bytes => "settings.bytes"@,
        Key::Bits => "settings.bits"@,
        Key::Default => "settings.default"@,
        Key::Subpixel => "settings.subpixel"@,
        Key::Grayscale => "settings.grayscale"@,
        Key::RememberLast => "settings.remember_last"@,
        Key::Performance => "settings.startup_performance"@,
        Key::Applications => "settings.startup_processes"@,
    }
}

/// The English rendering of a key.
pub open spec fn en_spec(key: Key) -> Seq<char> {
    match key {
        Key::Settings => "Settings"@,
        Key::Containers => "Containers"@,
        Key::Health => "Health"@,
        Key::Export => "Export"@,
        Key::About => "About"@,
        Key::Close => "Close"@,
        Key::Appearance => "Appearance"@,
        Key::Skin => "Skin"@,
        Key::Mode => "Mode"@,
        Key::HighContrast => "High contrast"@,
        Key::On => "On"@,
        Key::Off => "Off"@,
        Key::Fonts => "Fonts"@,
        Key::FontFamily => "Installed family"@,
        Key::FontChoose => "Choose an installed font\u{2026}"@,
        Key::Density => "Row density"@,
        Key::Units => "Memory units"@,
        Key::Language => "Language"@,
        Key::Version => "Version"@,
        Key::SystemInfo => "System information"@,
        Key::AlertRules => "Alert rules"@,
        Key::DeviceSummary => "Device summary"@,
        Key::ExportDone => "Snapshot exported"@,
        Key::ExportNoData => "No snapshot data to export yet"@,
        Key::ExportFailed => "Export failed"@,
        Key::ContainersUnavailable => "Container rollup unavailable"@,
        Key::ContainersUnsupported => "Containers unsupported on this host"@,
        Key::ContainersPermissionDenied => "Container collection denied"@,
        Key::ContainersNoContainers => "No containers running"@,
        Key::ContainersWaiting => "Waiting for the container rollup\u{2026}"@,
        Key::ContainersHeader => "Per-container CPU and memory rollup"@,
        Key::HealthWaiting => "Waiting for telemetry\u{2026}"@,
        Key::HealthNoData => "No health facts reported yet"@,
        Key::DetailsTitle => "Process details"@,
        Key::Confirm => "Confirm"@,
        Key::Cancel => "Cancel"@,
        Key::Light => "Light"@,
        Key::Dark => "Dark"@,
        Key::EyeForest => "EyeForest"@,
        Key::System => "System"@,
        Key::Bundled => "Bundled"@,
        Key::Comfortable => "Comfortable"@,
        Key::Compact => "Compact"@,
        Key::Bytes => "Bytes"@,
        Key::Bits => "Bits"@,
        Key::Default => "Default"@,
        Key::Subpixel => "Subpixel"@,
        Key::Grayscale => "Grayscale"@,
        Key::RememberLast => "Remember last"@,
        Key::Performance => "Performance"@,
        Key::Applications => "Applications"@,
    }
}

/// The Chinese rendering of a key.
pub open spec fn zh_spec(key: Key) -> Seq<char> {
    match key {
        Key::Settings => "\u{8bbe}\u{7f6e}"@,
        Key::Containers => "\u{5bb9}\u{5668}"@,
        Key::Health => "\u{5065}\u{5eb7}"@,
        Key::Export => "\u{5bfc}\u{51fa}"@,
        Key::About => "\u{5173}\u{4e8e}"@,
        Key::Close => "\u{5173}\u{95ed}"@,
        Key::Appearance => "\u{5916}\u{89c2}"@,
        Key::Skin => "\u{76ae}\u{80a4}"@,
        Key::Mode => "\u{6a21}\u{5f0f}"@,
        Key::HighContrast => "\u{9ad8}\u{5bf9}\u{6bd4}\u{5ea6}"@,
        Key::On => "\u{5f00}"@,
        Key::Off => "\u{5173}"@,
        Key::Fonts => "\u{5b57}\u{4f53}"@,
        Key::FontFamily => "\u{5df2}\u{5b89}\u{88c5}\u{5b57}\u{4f53}"@,
        Key::FontChoose => "\u{9009}\u{62e9}\u{5df2}\u{5b89}\u{88c5}\u{5b57}\u{4f53}\u{2026}"@,
        Key::Density => "\u{884c}\u{5bc6}\u{5ea6}"@,
        Key::Units => "\u{5185}\u{5b58}\u{5355}\u{4f4d}"@,
        Key::Language => "\u{8bed}\u{8a00}"@,
        Key::Version => "\u{7248}\u{672c}"@,
        Key::SystemInfo => "\u{7cfb}\u{7edf}\u{4fe1}\u{606f}"@,
        Key::AlertRules => "\u{544a}\u{8b66}\u{89c4}\u{5219}"@,
        Key::DeviceSummary => "\u{8bbe}\u{5907}\u{6458}\u{8981}"@,
        Key::ExportDone => "\u{5feb}\u{7167}\u{5df2}\u{5bfc}\u{51fa}"@,
        Key::ExportNoData => "\u{5c1a}\u{65e0}\u{5feb}\u{7167}\u{6570}\u{636e}\u{53ef}\u{5bfc}\u{51fa}"@,
        Key::ExportFailed => "\u{5bfc}\u{51fa}\u{5931}\u{8d25}"@,
        Key::ContainersUnavailable => "\u{5bb9}\u{5668}\u{6c47}\u{603b}\u{4e0d}\u{53ef}\u{7528}"@,
        Key::ContainersUnsupported => "\u{6b64}\u{4e3b}\u{673a}\u{4e0d}\u{652f}\u{6301}\u{5bb9}\u{5668}"@,
        Key::ContainersPermissionDenied => "\u{5bb9}\u{5668}\u{91c7}\u{96c6}\u{88ab}\u{62d2}\u{7edd}"@,
        Key::ContainersNoContainers => "\u{6ca1}\u{6709}\u{6b63}\u{5728}\u{8fd0}\u{884c}\u{7684}\u{5bb9}\u{5668}"@,
        Key::ContainersWaiting => "\u{7b49}\u{5f85}\u{5bb9}\u{5668}\u{6c47}\u{603b}\u{2026}"@,
        Key::ContainersHeader => "\u{6309}\u{5bb9}\u{5668}\u{7684} CPU \u{4e0e}\u{5185}\u{5b58}\u{6c47}\u{603b}"@,
        Key::HealthWaiting => "\u{7b49}\u{5f85}\u{9065}\u{6d4b}\u{6570}\u{636e}\u{2026}"@,
        Key::HealthNoData => "\u{6682}\u{65e0}\u{5065}\u{5eb7}\u{6570}\u{636e}"@,
        Key::DetailsTitle => "\u{8fdb}\u{7a0b}\u{8be6}\u{60c5}"@,
        Key::Confirm => "\u{786e}\u{8ba4}"@,
        Key::Cancel => "\u{53d6}\u{6d88}"@,
        Key::Light => "\u{6d45}\u{8272}"@,
        Key::Dark => "\u{6df1}\u{8272}"@,
        Key::EyeForest => "\u{62a4}\u{773c}\u{68ee}\u{6797}"@,
        Key::System => "\u{8ddf}\u{968f}\u{7cfb}\u{7edf}"@,
        Key::Bundled => "\u{5185}\u{7f6e}"@,
        Key::Comfortable => "\u{8212}\u{9002}"@,
        Key::Compact => "\u{7d27}\u{51d1}"@,
        Key::Bytes => "\u{5b57}\u{8282}"@,
        Key::Bits => "\u{6bd4}\u{7279}"@,
        Key::Default => "\u{9ed8}\u{8ba4}"@,
        Key::Subpixel => "\u{6b21}\u{50cf}\u{7d20}"@,
        Key::Grayscale => "\u{7070}\u{5ea6}"@,
        Key::RememberLast => "\u{8bb0}\u{4f4f}\u{4e0a}\u{6b21}"@,
        Key::Performance => "\u{6027}\u{80fd}"@,
        Key::Applications => "\u{8fdb}\u{7a0b}"@,
    }
}

/// The rendering of a key in a language.
pub open spec fn translation(language: Language, key: Key) -> Seq<char> {
    match language {
        Language::En => en_spec(key),
        Language::Zh => zh_spec(key),
    }
}

impl Key {
    /// The stable key string (the `locales/*.json` spelling where one exists).
    pub fn code(self) -> (s: &'static str)
        ensures
            s@ == key_code_spec(self),
    {
        match self {
            Key::Settings => "settings.title",
            Key::Containers => "containers.title",
            Key::Health => "health.title",
            Key::Export => "export.title",
            Key::About => "about.title",
            Key::Close => "chrome.close",
            Key::Appearance => "settings.appearance",
            Key::Skin => "settings.skin",
            Key::Mode => "settings.mode",
            Key::HighContrast => "settings.high_contrast",
            Key::On => "settings.on",
            Key::Off => "settings.off",
            Key::Fonts => "settings.fonts",
            Key::FontFamily => "settings.font_family",
            Key::FontChoose => "settings.font_choose",
            Key::Density => "settings.density",
            Key::Units => "settings.units",
            Key::Language => "settings.language",
            Key::Version => "about.version",
            Key::SystemInfo => "about.system_info",
            Key::AlertRules => "health.alert_rules",
            Key::DeviceSummary => "health.device_summary",
            Key::ExportDone => "export.done",
            Key::ExportNoData => "export.no_data",
            Key::ExportFailed => "export.failed",
            Key::ContainersUnavailable => "containers.unavailable",
            Key::ContainersUnsupported => "containers.unsupported",
            Key::ContainersPermissionDenied => "containers.permission_denied",
            Key::ContainersNoContainers => "containers.no_containers",
            Key::ContainersWaiting => "containers.waiting",
            Key::ContainersHeader => "containers.header",
            Key::HealthWaiting => "health.waiting",
            Key::HealthNoData => "health.no_data",
            Key::DetailsTitle => "details.title",
            Key::Confirm => "chrome.confirm",
            Key::Cancel => "chrome.cancel",
            Key::Light => "settings.light",
            Key::Dark => "settings.dark",
            Key::EyeForest => "settings.eyeforest",
            Key::System => "settings.system",
            Key::Bundled => "settings.bundled",
            Key::Comfortable => "settings.comfortable",
            Key::Compact => "settings.compact",
            Key::Bytes => "settings.bytes",
            Key::Bits => "settings.bits",
            Key::Default => "settings.default",
            Key::Subpixel => "settings.subpixel",
            Key::Grayscale => "settings.grayscale",
            Key::RememberLast => "settings.remember_last",
            Key::Performance => "settings.startup_performance",
            Key::Applications => "settings.startup_processes",
        }
    }
}

/// English rendering of every key.
fn en(key: Key) -> (s: &'static str)
    ensures
        s@ == en_spec(key),
{
    match key {
        Key::Settings => "Settings",
        Key::Containers => "Containers",
        Key::Health => "Health",
        Key::Export => "Export",
        Key::About => "About",
        Key::Close => "Close",
        Key::Appearance => "Appearance",
        Key::Skin => "Skin",
        Key::Mode => "Mode",
        Key::HighContrast => "High contrast",
        Key::On => "On",
        Key::Off => "Off",
        Key::Fonts => "Fonts",
        Key::FontFamily => "Installed family",
        Key::FontChoose => "Choose an installed font\u{2026}",
        Key::Density => "Row density",
        Key::Units => "Memory units",
        Key::Language => "Language",
        Key::Version => "Version",
        Key::SystemInfo => "System information",
        Key::AlertRules => "Alert rules",
        Key::DeviceSummary => "Device summary",
        Key::ExportDone => "Snapshot exported",
        Key::ExportNoData => "No snapshot data to export yet",
        Key::ExportFailed => "Export failed",
        Key::ContainersUnavailable => "Container rollup unavailable",
        Key::ContainersUnsupported => "Containers unsupported on this host",
        Key::ContainersPermissionDenied => "Container collection denied",
        Key::ContainersNoContainers => "No containers running",
        Key::ContainersWaiting => "Waiting for the container rollup\u{2026}",
        Key::ContainersHeader => "Per-container CPU and memory rollup",
        Key::HealthWaiting => "Waiting for telemetry\u{2026}",
        Key::HealthNoData => "No health facts reported yet",
        Key::DetailsTitle => "Process details",
        Key::Confirm => "Confirm",
        Key::Cancel => "Cancel",
        Key::Light => "Light",
        Key::Dark => "Dark",
        Key::EyeForest => "EyeForest",
        Key::System => "System",
        Key::Bundled => "Bundled",
        Key::Comfortable => "Comfortable",
        Key::Compact => "Compact",
        Key::Bytes => "Bytes",
        Key::Bits => "Bits",
        Key::Default => "Default",
        Key::Subpixel => "Subpixel",
        Key::Grayscale => "Grayscale",
        Key::RememberLast => "Remember last",
        Key::Performance => "Performance",
        Key::Applications => "Applications",
    }
}

/// Chinese rendering of every key.
fn zh(key: Key) -> (s: &'static str)
    ensures
        s@ == zh_spec(key),
{
    match key {
        Key::Settings => "\u{8bbe}\u{7f6e}",
        Key::Containers => "\u{5bb9}\u{5668}",
        Key::Health => "\u{5065}\u{5eb7}",
        Key::Export => "\u{5bfc}\u{51fa}",
        Key::About => "\u{5173}\u{4e8e}",
        Key::Close => "\u{5173}\u{95ed}",
        Key::Appearance => "\u{5916}\u{89c2}",
        Key::Skin => "\u{76ae}\u{80a4}",
        Key::Mode => "\u{6a21}\u{5f0f}",
        Key::HighContrast => "\u{9ad8}\u{5bf9}\u{6bd4}\u{5ea6}",
        Key::On => "\u{5f00}",
        Key::Off => "\u{5173}",
        Key::Fonts => "\u{5b57}\u{4f53}",
        Key::FontFamily => "\u{5df2}\u{5b89}\u{88c5}\u{5b57}\u{4f53}",
        Key::FontChoose => "\u{9009}\u{62e9}\u{5df2}\u{5b89}\u{88c5}\u{5b57}\u{4f53}\u{2026}",
        Key::Density => "\u{884c}\u{5bc6}\u{5ea6}",
        Key::Units => "\u{5185}\u{5b58}\u{5355}\u{4f4d}",
        Key::Language => "\u{8bed}\u{8a00}",
        Key::Version => "\u{7248}\u{672c}",
        Key::SystemInfo => "\u{7cfb}\u{7edf}\u{4fe1}\u{606f}",
        Key::AlertRules => "\u{544a}\u{8b66}\u{89c4}\u{5219}",
        Key::DeviceSummary => "\u{8bbe}\u{5907}\u{6458}\u{8981}",
        Key::ExportDone => "\u{5feb}\u{7167}\u{5df2}\u{5bfc}\u{51fa}",
        Key::ExportNoData => "\u{5c1a}\u{65e0}\u{5feb}\u{7167}\u{6570}\u{636e}\u{53ef}\u{5bfc}\u{51fa}",
        Key::ExportFailed => "\u{5bfc}\u{51fa}\u{5931}\u{8d25}",
        Key::ContainersUnavailable => "\u{5bb9}\u{5668}\u{6c47}\u{603b}\u{4e0d}\u{53ef}\u{7528}",
        Key::ContainersUnsupported => "\u{6b64}\u{4e3b}\u{673a}\u{4e0d}\u{652f}\u{6301}\u{5bb9}\u{5668}",
        Key::ContainersPermissionDenied => "\u{5bb9}\u{5668}\u{91c7}\u{96c6}\u{88ab}\u{62d2}\u{7edd}",
        Key::ContainersNoContainers => "\u{6ca1}\u{6709}\u{6b63}\u{5728}\u{8fd0}\u{884c}\u{7684}\u{5bb9}\u{5668}",
        Key::ContainersWaiting => "\u{7b49}\u{5f85}\u{5bb9}\u{5668}\u{6c47}\u{603b}\u{2026}",
        Key::ContainersHeader => "\u{6309}\u{5bb9}\u{5668}\u{7684} CPU \u{4e0e}\u{5185}\u{5b58}\u{6c47}\u{603b}",
        Key::HealthWaiting => "\u{7b49}\u{5f85}\u{9065}\u{6d4b}\u{6570}\u{636e}\u{2026}",
        Key::HealthNoData => "\u{6682}\u{65e0}\u{5065}\u{5eb7}\u{6570}\u{636e}",
        Key::DetailsTitle => "\u{8fdb}\u{7a0b}\u{8be6}\u{60c5}",
        Key::Confirm => "\u{786e}\u{8ba4}",
        Key::Cancel => "\u{53d6}\u{6d88}",
        Key::Light => "\u{6d45}\u{8272}",
        Key::Dark => "\u{6df1}\u{8272}",
        Key::EyeForest => "\u{62a4}\u{773c}\u{68ee}\u{6797}",
        Key::System => "\u{8ddf}\u{968f}\u{7cfb}\u{7edf}",
        Key::Bundled => "\u{5185}\u{7f6e}",
        Key::Comfortable => "\u{8212}\u{9002}",
        Key::Compact => "\u{7d27}\u{51d1}",
        Key::Bytes => "\u{5b57}\u{8282}",
        Key::Bits => "\u{6bd4}\u{7279}",
        Key::Default => "\u{9ed8}\u{8ba4}",
        Key::Subpixel => "\u{6b21}\u{50cf}\u{7d20}",
        Key::Grayscale => "\u{7070}\u{5ea6}",
        Key::RememberLast => "\u{8bb0}\u{4f4f}\u{4e0a}\u{6b21}",
        Key::Performance => "\u{6027}\u{80fd}",
        Key::Applications => "\u{8fdb}\u{7a0b}",
    }
}

/// Translate one key into the active language.
pub fn t(language: Language, key: Key) -> (s: &'static str)
    ensures
        s@ == translation(language, key),
{
    match language {
        Language::En => en(key),
        Language::Zh => zh(key),
    }
}

/// Every key renders as a non-empty label in every language.
pub proof fn lemma_translation_nonempty(language: Language, key: Key)
    ensures
        translation(language, key).len() > 0,
{
    match language {
        Language::En => match key {
            Key::Settings => reveal_strlit("Settings"),
            Key::Containers => reveal_strlit("Containers"),
            Key::Health => reveal_strlit("Health"),
            Key::Export => reveal_strlit("Export"),
            Key::About => reveal_strlit("About"),
            Key::Close => reveal_strlit("Close"),
            Key::Appearance => reveal_strlit("Appearance"),
            Key::Skin => reveal_strlit("Skin"),
            Key::Mode => reveal_strlit("Mode"),
            Key::HighContrast => reveal_strlit("High contrast"),
            Key::On => reveal_strlit("On"),
            Key::Off => reveal_strlit("Off"),
            Key::Fonts => reveal_strlit("Fonts"),
            Key::FontFamily => reveal_strlit("Installed family"),
            Key::FontChoose => reveal_strlit("Choose an installed font\u{2026}"),
            Key::Density => reveal_strlit("Row density"),
            Key::Units => reveal_strlit("Memory units"),
            Key::Language => reveal_strlit("Language"),
            Key::Version => reveal_strlit("Version"),
            Key::SystemInfo => reveal_strlit("System information"),
            Key::AlertRules => reveal_strlit("Alert rules"),
            Key::DeviceSummary => reveal_strlit("Device summary"),
            Key::ExportDone => reveal_strlit("Snapshot exported"),
            Key::ExportNoData => reveal_strlit("No snapshot data to export yet"),
            Key::ExportFailed => reveal_strlit("Export failed"),
            Key::ContainersUnavailable => reveal_strlit("Container rollup unavailable"),
            Key::ContainersUnsupported => reveal_strlit("Containers unsupported on this host"),
            Key::ContainersPermissionDenied => reveal_strlit("Container collection denied"),
            Key::ContainersNoContainers => reveal_strlit("No containers running"),
            Key::ContainersWaiting => reveal_strlit("Waiting for the container rollup\u{2026}"),
            Key::ContainersHeader => reveal_strlit("Per-container CPU and memory rollup"),
            Key::HealthWaiting => reveal_strlit("Waiting for telemetry\u{2026}"),
            Key::HealthNoData => reveal_strlit("No health facts reported yet"),
            Key::DetailsTitle => reveal_strlit("Process details"),
            Key::Confirm => reveal_strlit("Confirm"),
            Key::Cancel => reveal_strlit("Cancel"),
            Key::Light => reveal_strlit("Light"),
            Key::Dark => reveal_strlit("Dark"),
            Key::EyeForest => reveal_strlit("EyeForest"),
            Key::System => reveal_strlit("System"),
            Key::Bundled => reveal_strlit("Bundled"),
            Key::Comfortable => reveal_strlit("Comfortable"),
            Key::Compact => reveal_strlit("Compact"),
            Key::Bytes => reveal_strlit("Bytes"),
            Key::Bits => reveal_strlit("Bits"),
            Key::Default => reveal_strlit("Default"),
            Key::Subpixel => reveal_strlit("Subpixel"),
            Key::Grayscale => reveal_strlit("Grayscale"),
            Key::RememberLast => reveal_strlit("Remember last"),
            Key::Performance => reveal_strlit("Performance"),
            Key::Applications => reveal_strlit("Applications"),
        },
        Language::Zh => match key {
            Key::Settings => reveal_strlit("\u{8bbe}\u{7f6e}"),
            Key::Containers => reveal_strlit("\u{5bb9}\u{5668}"),
            Key::Health => reveal_strlit("\u{5065}\u{5eb7}"),
            Key::Export => reveal_strlit("\u{5bfc}\u{51fa}"),
            Key::About => reveal_strlit("\u{5173}\u{4e8e}"),
            Key::Close => reveal_strlit("\u{5173}\u{95ed}"),
            Key::Appearance => reveal_strlit("\u{5916}\u{89c2}"),
            Key::Skin => reveal_strlit("\u{76ae}\u{80a4}"),
            Key::Mode => reveal_strlit("\u{6a21}\u{5f0f}"),
            Key::HighContrast => reveal_strlit("\u{9ad8}\u{5bf9}\u{6bd4}\u{5ea6}"),
            Key::On => reveal_strlit("\u{5f00}"),
            Key::Off => reveal_strlit("\u{5173}"),
            Key::Fonts => reveal_strlit("\u{5b57}\u{4f53}"),
            Key::FontFamily => reveal_strlit("\u{5df2}\u{5b89}\u{88c5}\u{5b57}\u{4f53}"),
            Key::FontChoose => reveal_strlit("\u{9009}\u{62e9}\u{5df2}\u{5b89}\u{88c5}\u{5b57}\u{4f53}\u{2026}"),
            Key::Density => reveal_strlit("\u{884c}\u{5bc6}\u{5ea6}"),
            Key::Units => reveal_strlit("\u{5185}\u{5b58}\u{5355}\u{4f4d}"),
            Key::Language => reveal_strlit("\u{8bed}\u{8a00}"),
            Key::Version => reveal_strlit("\u{7248}\u{672c}"),
            Key::SystemInfo => reveal_strlit("\u{7cfb}\u{7edf}\u{4fe1}\u{606f}"),
            Key::AlertRules => reveal_strlit("\u{544a}\u{8b66}\u{89c4}\u{5219}"),
            Key::DeviceSummary => reveal_strlit("\u{8bbe}\u{5907}\u{6458}\u{8981}"),
            Key::ExportDone => reveal_strlit("\u{5feb}\u{7167}\u{5df2}\u{5bfc}\u{51fa}"),
            Key::ExportNoData => reveal_strlit("\u{5c1a}\u{65e0}\u{5feb}\u{7167}\u{6570}\u{636e}\u{53ef}\u{5bfc}\u{51fa}"),
            Key::ExportFailed => reveal_strlit("\u{5bfc}\u{51fa}\u{5931}\u{8d25}"),
            Key::ContainersUnavailable => reveal_strlit("\u{5bb9}\u{5668}\u{6c47}\u{603b}\u{4e0d}\u{53ef}\u{7528}"),
            Key::ContainersUnsupported => reveal_strlit("\u{6b64}\u{4e3b}\u{673a}\u{4e0d}\u{652f}\u{6301}\u{5bb9}\u{5668}"),
            Key::ContainersPermissionDenied => reveal_strlit("\u{5bb9}\u{5668}\u{91c7}\u{96c6}\u{88ab}\u{62d2}\u{7edd}"),
            Key::ContainersNoContainers => reveal_strlit("\u{6ca1}\u{6709}\u{6b63}\u{5728}\u{8fd0}\u{884c}\u{7684}\u{5bb9}\u{5668}"),
            Key::ContainersWaiting => reveal_strlit("\u{7b49}\u{5f85}\u{5bb9}\u{5668}\u{6c47}\u{603b}\u{2026}"),
            Key::ContainersHeader => reveal_strlit("\u{6309}\u{5bb9}\u{5668}\u{7684} CPU \u{4e0e}\u{5185}\u{5b58}\u{6c47}\u{603b}"),
            Key::HealthWaiting => reveal_strlit("\u{7b49}\u{5f85}\u{9065}\u{6d4b}\u{6570}\u{636e}\u{2026}"),
            Key::HealthNoData => reveal_strlit("\u{6682}\u{65e0}\u{5065}\u{5eb7}\u{6570}\u{636e}"),
            Key::DetailsTitle => reveal_strlit("\u{8fdb}\u{7a0b}\u{8be6}\u{60c5}"),
            Key::Confirm => reveal_strlit("\u{786e}\u{8ba4}"),
            Key::Cancel => reveal_strlit("\u{53d6}\u{6d88}"),
            Key::Light => reveal_strlit("\u{6d45}\u{8272}"),
            Key::Dark => reveal_strlit("\u{6df1}\u{8272}"),
            Key::EyeForest => reveal_strlit("\u{62a4}\u{773c}\u{68ee}\u{6797}"),
            Key::System => reveal_strlit("\u{8ddf}\u{968f}\u{7cfb}\u{7edf}"),
            Key::Bundled => reveal_strlit("\u{5185}\u{7f6e}"),
            Key::Comfortable => reveal_strlit("\u{8212}\u{9002}"),
            Key::Compact => reveal_strlit("\u{7d27}\u{51d1}"),
            Key::Bytes => reveal_strlit("\u{5b57}\u{8282}"),
            Key::Bits => reveal_strlit("\u{6bd4}\u{7279}"),
            Key::Default => reveal_strlit("\u{9ed8}\u{8ba4}"),
            Key::Subpixel => reveal_strlit("\u{6b21}\u{50cf}\u{7d20}"),
            Key::Grayscale => reveal_strlit("\u{7070}\u{5ea6}"),
            Key::RememberLast => reveal_strlit("\u{8bb0}\u{4f4f}\u{4e0a}\u{6b21}"),
            Key::Performance => reveal_strlit("\u{6027}\u{80fd}"),
            Key::Applications => reveal_strlit("\u{8fdb}\u{7a0b}"),
        },
    }
}

/// The key a dictionary code belongs to, read off its length and a few of its characters.
spec fn key_of_code(s: Seq<char>) -> Key {
    if s.len() == 14 && s[0] == 's' && s[9] == 't' && s[13] == 'e' {
        Key::Settings
    } else if s.len() == 16 && s[0] == 'c' && s[9] == 's' && s[15] == 'e' {
        Key::Containers
    } else if s.len() == 12 && s[0] == 'h' && s[9] == 't' && s[11] == 'e' {
        Key::Health
    } else if s.len() == 12 && s[0] == 'e' && s[9] == 't' && s[11] == 'e' {
        Key::Export
    } else if s.len() == 11 && s[0] == 'a' && s[9] == 'l' && s[10] == 'e' {
        Key::About
    } else if s.len() == 12 && s[0] == 'c' && s[9] == 'o' && s[11] == 'e' {
        Key::Close
    } else if s.len() == 19 && s[0] == 's' && s[9] == 'a' && s[18] == 'e' {
        Key::Appearance
    } else if s.len() == 13 && s[0] == 's' && s[9] == 's' && s[12] == 'n' {
        Key::Skin
    } else if s.len() == 13 && s[0] == 's' && s[9] == 'm' && s[12] == 'e' {
        Key::Mode
    } else if s.len() == 22 && s[0] == 's' && s[9] == 'h' && s[21] == 't' {
        Key::HighContrast
    } else if s.len() == 11 && s[0] == 's' && s[9] == 'o' && s[10] == 'n' {
        Key::On
    } else if s.len() == 12 && s[0] == 's' && s[9] == 'o' && s[11] == 'f' {
        Key::Off
    } else if s.len() == 14 && s[0] == 's' && s[9] == 'f' && s[13] == 's' {
        Key::Fonts
    } else if s.len() == 20 && s[0] == 's' && s[9] == 'f' && s[19] == 'y' {
        Key::FontFamily
    } else if s.len() == 20 && s[0] == 's' && s[9] == 'f' && s[19] == 'e' {
        Key::FontChoose
    } else if s.len() == 16 && s[0] == 's' && s[9] == 'd' && s[15] == 'y' {
        Key::Density
    } else if s.len() == 14 && s[0] == 's' && s[9] == 'u' && s[13] == 's' {
        Key::Units
    } else if s.len() == 17 && s[0] == 's' && s[9] == 'l' && s[16] == 'e' {
        Key::Language
    } else if s.len() == 13 && s[0] == 'a' && s[9] == 's' && s[12] == 'n' {
        Key::Version
    } else if s.len() == 17 && s[0] == 'a' && s[9] == 't' && s[16] == 'o' {
        Key::SystemInfo
    } else if s.len() == 18 && s[0] == 'h' && s[9] == 'e' && s[17] == 's' {
        Key::AlertRules
    } else if s.len() == 21 && s[0] == 'h' && s[9] == 'v' && s[20] == 'y' {
        Key::DeviceSummary
    } else if s.len() == 11 && s[0] == 'e' && s[9] == 'n' && s[10] == 'e' {
        Key::ExportDone
    } else if s.len() == 14 && s[0] == 'e' && s[9] == '_' && s[13] == 'a' {
        Key::ExportNoData
    } else if s.len() == 13 && s[0] == 'e' && s[9] == 'i' && s[12] == 'd' {
        Key::ExportFailed
    } else if s.len() == 22 && s[0] == 'c' && s[9] == 's' && s[21] == 'e' {
        Key::ContainersUnavailable
    } else if s.len() == 22 && s[0] == 'c' && s[9] == 's' && s[21] == 'd' {
        Key::ContainersUnsupported
    } else if s.len() == 28 && s[0] == 'c' && s[9] == 's' && s[27] == 'd' {
        Key::ContainersPermissionDenied
    } else if s.len() == 24 && s[0] == 'c' && s[9] == 's' && s[23] == 's' {
        Key::ContainersNoContainers
    } else if s.len() == 18 && s[0] == 'c' && s[9] == 's' && s[17] == 'g' {
        Key::ContainersWaiting
    } else if s.len() == 17 && s[0] == 'c' && s[9] == 's' && s[16] == 'r' {
        Key::ContainersHeader
    } else if s.len() == 14 && s[0] == 'h' && s[9] == 'i' && s[13] == 'g' {
        Key::HealthWaiting
    } else if s.len() == 14 && s[0] == 'h' && s[9] == '_' && s[13] == 'a' {
        Key::HealthNoData
    } else if s.len() == 13 && s[0] == 'd' && s[9] == 'i' && s[12] == 'e' {
        Key::DetailsTitle
    } else if s.len() == 14 && s[0] == 'c' && s[9] == 'n' && s[13] == 'm' {
        Key::Confirm
    } else if s.len() == 13 && s[0] == 'c' && s[9] == 'n' && s[12] == 'l' {
        Key::Cancel
    } else if s.len() == 14 && s[0] == 's' && s[9] == 'l' && s[13] == 't' {
        Key::Light
    } else if s.len() == 13 && s[0] == 's' && s[9] == 'd' && s[12] == 'k' {
        Key::Dark
    } else if s.len() == 18 && s[0] == 's' && s[9] == 'e' && s[17] == 't' {
        Key::EyeForest
    } else if s.len() == 15 && s[0] == 's' && s[9] == 's' && s[14] == 'm' {
        Key::System
    } else if s.len() == 16 && s[0] == 's' && s[9] == 'b' && s[15] == 'd' {
        Key::Bundled
    } else if s.len() == 20 && s[0] == 's' && s[9] == 'c' && s[19] == 'e' {
        Key::Comfortable
    } else if s.len() == 16 && s[0] == 's' && s[9] == 'c' && s[15] == 't' {
        Key::Compact
    } else if s.len() == 14 && s[0] == 's' && s[9] == 'b' && s[13] == 's' {
        Key::Bytes
    } else if s.len() == 13 && s[0] == 's' && s[9] == 'b' && s[12] == 's' {
        Key::Bits
    } else if s.len() == 16 && s[0] == 's' && s[9] == 'd' && s[15] == 't' {
        Key::Default
    } else if s.len() == 17 && s[0] == 's' && s[9] == 's' && s[16] == 'l' {
        Key::Subpixel
    } else if s.len() == 18 && s[0] == 's' && s[9] == 'g' && s[17] == 'e' {
        Key::Grayscale
    } else if s.len() == 22 && s[0] == 's' && s[9] == 'r' && s[21] == 't' {
        Key::RememberLast
    } else if s.len() == 28 && s[0] == 's' && s[9] == 's' && s[27] == 'e' {
        Key::Performance
    } else {
        Key::Applications
    }
}

/// Every code reads back to its key.
proof fn lemma_key_of_code(key: Key)
    ensures
        key_of_code(key_code_spec(key)) == key,
{
    match key {
        Key::Settings => reveal_strlit("settings.title"),
        Key::Containers => reveal_strlit("containers.title"),
        Key::Health => reveal_strlit("health.title"),
        Key::Export => reveal_strlit("export.title"),
        Key::About => reveal_strlit("about.title"),
        Key::Close => reveal_strlit("chrome.close"),
        Key::Appearance => reveal_strlit("settings.appearance"),
        Key::Skin => reveal_strlit("settings.skin"),
        Key::Mode => reveal_strlit("settings.mode"),
        Key::HighContrast => reveal_strlit("settings.high_contrast"),
        Key::On => reveal_strlit("settings.on"),
        Key::Off => reveal_strlit("settings.off"),
        Key::Fonts => reveal_strlit("settings.fonts"),
        Key::FontFamily => reveal_strlit("settings.font_family"),
        Key::FontChoose => reveal_strlit("settings.font_choose"),
        Key::Density => reveal_strlit("settings.density"),
        Key::Units => reveal_strlit("settings.units"),
        Key::Language => reveal_strlit("settings.language"),
        Key::Version => reveal_strlit("about.version"),
        Key::SystemInfo => reveal_strlit("about.system_info"),
        Key::AlertRules => reveal_strlit("health.alert_rules"),
        Key::DeviceSummary => reveal_strlit("health.device_summary"),
        Key::ExportDone => reveal_strlit("export.done"),
        Key::ExportNoData => reveal_strlit("export.no_data"),
        Key::ExportFailed => reveal_strlit("export.failed"),
        Key::ContainersUnavailable => reveal_strlit("containers.unavailable"),
        Key::ContainersUnsupported => reveal_strlit("containers.unsupported"),
        Key::ContainersPermissionDenied => reveal_strlit("containers.permission_denied"),
        Key::ContainersNoContainers => reveal_strlit("containers.no_containers"),
        Key::ContainersWaiting => reveal_strlit("containers.waiting"),
        Key::ContainersHeader => reveal_strlit("containers.header"),
        Key::HealthWaiting => reveal_strlit("health.waiting"),
        Key::HealthNoData => reveal_strlit("health.no_data"),
        Key::DetailsTitle => reveal_strlit("details.title"),
        Key::Confirm => reveal_strlit("chrome.confirm"),
        Key::Cancel => reveal_strlit("chrome.cancel"),
        Key::Light => reveal_strlit("settings.light"),
        Key::Dark => reveal_strlit("settings.dark"),
        Key::EyeForest => reveal_strlit("settings.eyeforest"),
        Key::System => reveal_strlit("settings.system"),
        Key::Bundled => reveal_strlit("settings.bundled"),
        Key::Comfortable => reveal_strlit("settings.comfortable"),
        Key::Compact => reveal_strlit("settings.compact"),
        Key::Bytes => reveal_strlit("settings.bytes"),
        Key::Bits => reveal_strlit("settings.bits"),
        Key::Default => reveal_strlit("settings.default"),
        Key::Subpixel => reveal_strlit("settings.subpixel"),
        Key::Grayscale => reveal_strlit("settings.grayscale"),
        Key::RememberLast => reveal_strlit("settings.remember_last"),
        Key::Performance => reveal_strlit("settings.startup_performance"),
        Key::Applications => reveal_strlit("settings.startup_processes"),
    }
}

/// The key an English rendering belongs to, read off its length and its first and last characters.
spec fn key_of_english(s: Seq<char>) -> Key {
    if s.len() == 8 && s[0] == 'S' && s[7] == 's' {
        Key::Settings
    } else if s.len() == 10 && s[0] == 'C' && s[9] == 's' {
        Key::Containers
    } else if s.len() == 6 && s[0] == 'H' && s[5] == 'h' {
        Key::Health
    } else if s.len() == 6 && s[0] == 'E' && s[5] == 't' {
        Key::Export
    } else if s.len() == 5 && s[0] == 'A' && s[4] == 't' {
        Key::About
    } else if s.len() == 5 && s[0] == 'C' && s[4] == 'e' {
        Key::Close
    } else if s.len() == 10 && s[0] == 'A' && s[9] == 'e' {
        Key::Appearance
    } else if s.len() == 4 && s[0] == 'S' && s[3] == 'n' {
        Key::Skin
    } else if s.len() == 4 && s[0] == 'M' && s[3] == 'e' {
        Key::Mode
    } else if s.len() == 13 && s[0] == 'H' && s[12] == 't' {
        Key::HighContrast
    } else if s.len() == 2 && s[0] == 'O' && s[1] == 'n' {
        Key::On
    } else if s.len() == 3 && s[0] == 'O' && s[2] == 'f' {
        Key::Off
    } else if s.len() == 5 && s[0] == 'F' && s[4] == 's' {
        Key::Fonts
    } else if s.len() == 16 && s[0] == 'I' && s[15] == 'y' {
        Key::FontFamily
    } else if s.len() == 25 && s[0] == 'C' && s[24] == '\u{2026}' {
        Key::FontChoose
    } else if s.len() == 11 && s[0] == 'R' && s[10] == 'y' {
        Key::Density
    } else if s.len() == 12 && s[0] == 'M' && s[11] == 's' {
        Key::Units
    } else if s.len() == 8 && s[0] == 'L' && s[7] == 'e' {
        Key::Language
    } else if s.len() == 7 && s[0] == 'V' && s[6] == 'n' {
        Key::Version
    } else if s.len() == 18 && s[0] == 'S' && s[17] == 'n' {
        Key::SystemInfo
    } else if s.len() == 11 && s[0] == 'A' && s[10] == 's' {
        Key::AlertRules
    } else if s.len() == 14 && s[0] == 'D' && s[13] == 'y' {
        Key::DeviceSummary
    } else if s.len() == 17 && s[0] == 'S' && s[16] == 'd' {
        Key::ExportDone
    } else if s.len() == 30 && s[0] == 'N' && s[29] == 't' {
        Key::ExportNoData
    } else if s.len() == 13 && s[0] == 'E' && s[12] == 'd' {
        Key::ExportFailed
    } else if s.len() == 28 && s[0] == 'C' && s[27] == 'e' {
        Key::ContainersUnavailable
    } else if s.len() == 35 && s[0] == 'C' && s[34] == 't' {
        Key::ContainersUnsupported
    } else if s.len() == 27 && s[0] == 'C' && s[26] == 'd' {
        Key::ContainersPermissionDenied
    } else if s.len() == 21 && s[0] == 'N' && s[20] == 'g' {
        Key::ContainersNoContainers
    } else if s.len() == 33 && s[0] == 'W' && s[32] == '\u{2026}' {
        Key::ContainersWaiting
    } else if s.len() == 35 && s[0] == 'P' && s[34] == 'p' {
        Key::ContainersHeader
    } else if s.len() == 22 && s[0] == 'W' && s[21] == '\u{2026}' {
        Key::HealthWaiting
    } else if s.len() == 28 && s[0] == 'N' && s[27] == 't' {
        Key::HealthNoData
    } else if s.len() == 15 && s[0] == 'P' && s[14] == 's' {
        Key::DetailsTitle
    } else if s.len() == 7 && s[0] == 'C' && s[6] == 'm' {
        Key::Confirm
    } else if s.len() == 6 && s[0] == 'C' && s[5] == 'l' {
        Key::Cancel
    } else if s.len() == 5 && s[0] == 'L' && s[4] == 't' {
        Key::Light
    } else if s.len() == 4 && s[0] == 'D' && s[3] == 'k' {
        Key::Dark
    } else if s.len() == 9 && s[0] == 'E' && s[8] == 't' {
        Key::EyeForest
    } else if s.len() == 6 && s[0] == 'S' && s[5] == 'm' {
        Key::System
    } else if s.len() == 7 && s[0] == 'B' && s[6] == 'd' {
        Key::Bundled
    } else if s.len() == 11 && s[0] == 'C' && s[10] == 'e' {
        Key::Comfortable
    } else if s.len() == 7 && s[0] == 'C' && s[6] == 't' {
        Key::Compact
    } else if s.len() == 5 && s[0] == 'B' && s[4] == 's' {
        Key::Bytes
    } else if s.len() == 4 && s[0] == 'B' && s[3] == 's' {
        Key::Bits
    } else if s.len() == 7 && s[0] == 'D' && s[6] == 't' {
        Key::Default
    } else if s.len() == 8 && s[0] == 'S' && s[7] == 'l' {
        Key::Subpixel
    } else if s.len() == 9 && s[0] == 'G' && s[8] == 'e' {
        Key::Grayscale
    } else if s.len() == 13 && s[0] == 'R' && s[12] == 't' {
        Key::RememberLast
    } else if s.len() == 11 && s[0] == 'P' && s[10] == 'e' {
        Key::Performance
    } else {
        Key::Applications
    }
}

/// Every English rendering reads back to its key.
proof fn lemma_key_of_english(key: Key)
    ensures
        key_of_english(en_spec(key)) == key,
{
    match key {
        Key::Settings => reveal_strlit("Settings"),
        Key::Containers => reveal_strlit("Containers"),
        Key::Health => reveal_strlit("Health"),
        Key::Export => reveal_strlit("Export"),
        Key::About => reveal_strlit("About"),
        Key::Close => reveal_strlit("Close"),
        Key::Appearance => reveal_strlit("Appearance"),
        Key::Skin => reveal_strlit("Skin"),
        Key::Mode => reveal_strlit("Mode"),
        Key::HighContrast => reveal_strlit("High contrast"),
        Key::On => reveal_strlit("On"),
        Key::Off => reveal_strlit("Off"),
        Key::Fonts => reveal_strlit("Fonts"),
        Key::FontFamily => reveal_strlit("Installed family"),
        Key::FontChoose => reveal_strlit("Choose an installed font\u{2026}"),
        Key::Density => reveal_strlit("Row density"),
        Key::Units => reveal_strlit("Memory units"),
        Key::Language => reveal_strlit("Language"),
        Key::Version => reveal_strlit("Version"),
        Key::SystemInfo => reveal_strlit("System information"),
        Key::AlertRules => reveal_strlit("Alert rules"),
        Key::DeviceSummary => reveal_strlit("Device summary"),
        Key::ExportDone => reveal_strlit("Snapshot exported"),
        Key::ExportNoData => reveal_strlit("No snapshot data to export yet"),
        Key::ExportFailed => reveal_strlit("Export failed"),
        Key::ContainersUnavailable => reveal_strlit("Container rollup unavailable"),
        Key::ContainersUnsupported => reveal_strlit("Containers unsupported on this host"),
        Key::ContainersPermissionDenied => reveal_strlit("Container collection denied"),
        Key::ContainersNoContainers => reveal_strlit("No containers running"),
        Key::ContainersWaiting => reveal_strlit("Waiting for the container rollup\u{2026}"),
        Key::ContainersHeader => reveal_strlit("Per-container CPU and memory rollup"),
        Key::HealthWaiting => reveal_strlit("Waiting for telemetry\u{2026}"),
        Key::HealthNoData => reveal_strlit("No health facts reported yet"),
        Key::DetailsTitle => reveal_strlit("Process details"),
        Key::Confirm => reveal_strlit("Confirm"),
        Key::Cancel => reveal_strlit("Cancel"),
        Key::Light => reveal_strlit("Light"),
        Key::Dark => reveal_strlit("Dark"),
        Key::EyeForest => reveal_strlit("EyeForest"),
        Key::System => reveal_strlit("System"),
        Key::Bundled => reveal_strlit("Bundled"),
        Key::Comfortable => reveal_strlit("Comfortable"),
        Key::Compact => reveal_strlit("Compact"),
        Key::Bytes => reveal_strlit("Bytes"),
        Key::Bits => reveal_strlit("Bits"),
        Key::Default => reveal_strlit("Default"),
        Key::Subpixel => reveal_strlit("Subpixel"),
        Key::Grayscale => reveal_strlit("Grayscale"),
        Key::RememberLast => reveal_strlit("Remember last"),
        Key::Performance => reveal_strlit("Performance"),
        Key::Applications => reveal_strlit("Applications"),
    }
}

/// The key a Chinese rendering belongs to, read off its length and its first and last two characters.
spec fn key_of_chinese(s: Seq<char>) -> Key {
    if s.len() == 2 && s[0] == '\u{8bbe}' && s[1] == '\u{7f6e}' && s[0] == '\u{8bbe}' {
        Key::Settings
    } else if s.len() == 2 && s[0] == '\u{5bb9}' && s[1] == '\u{5668}' && s[0] == '\u{5bb9}' {
        Key::Containers
    } else if s.len() == 2 && s[0] == '\u{5065}' && s[1] == '\u{5eb7}' && s[0] == '\u{5065}' {
        Key::Health
    } else if s.len() == 2 && s[0] == '\u{5bfc}' && s[1] == '\u{51fa}' && s[0] == '\u{5bfc}' {
        Key::Export
    } else if s.len() == 2 && s[0] == '\u{5173}' && s[1] == '\u{4e8e}' && s[0] == '\u{5173}' {
        Key::About
    } else if s.len() == 2 && s[0] == '\u{5173}' && s[1] == '\u{95ed}' && s[0] == '\u{5173}' {
        Key::Close
    } else if s.len() == 2 && s[0] == '\u{5916}' && s[1] == '\u{89c2}' && s[0] == '\u{5916}' {
        Key::Appearance
    } else if s.len() == 2 && s[0] == '\u{76ae}' && s[1] == '\u{80a4}' && s[0] == '\u{76ae}' {
        Key::Skin
    } else if s.len() == 2 && s[0] == '\u{6a21}' && s[1] == '\u{5f0f}' && s[0] == '\u{6a21}' {
        Key::Mode
    } else if s.len() == 4 && s[0] == '\u{9ad8}' && s[3] == '\u{5ea6}' && s[2] == '\u{6bd4}' {
        Key::HighContrast
    } else if s.len() == 1 && s[0] == '\u{5f00}' && s[0] == '\u{5f00}' {
        Key::On
    } else if s.len() == 1 && s[0] == '\u{5173}' && s[0] == '\u{5173}' {
        Key::Off
    } else if s.len() == 2 && s[0] == '\u{5b57}' && s[1] == '\u{4f53}' && s[0] == '\u{5b57}' {
        Key::Fonts
    } else if s.len() == 5 && s[0] == '\u{5df2}' && s[4] == '\u{4f53}' && s[3] == '\u{5b57}' {
        Key::FontFamily
    } else if s.len() == 8 && s[0] == '\u{9009}' && s[7] == '\u{2026}' && s[6] == '\u{4f53}' {
        Key::FontChoose
    } else if s.len() == 3 && s[0] == '\u{884c}' && s[2] == '\u{5ea6}' && s[1] == '\u{5bc6}' {
        Key::Density
    } else if s.len() == 4 && s[0] == '\u{5185}' && s[3] == '\u{4f4d}' && s[2] == '\u{5355}' {
        Key::Units
    } else if s.len() == 2 && s[0] == '\u{8bed}' && s[1] == '\u{8a00}' && s[0] == '\u{8bed}' {
        Key::Language
    } else if s.len() == 2 && s[0] == '\u{7248}' && s[1] == '\u{672c}' && s[0] == '\u{7248}' {
        Key::Version
    } else if s.len() == 4 && s[0] == '\u{7cfb}' && s[3] == '\u{606f}' && s[2] == '\u{4fe1}' {
        Key::SystemInfo
    } else if s.len() == 4 && s[0] == '\u{544a}' && s[3] == '\u{5219}' && s[2] == '\u{89c4}' {
        Key::AlertRules
    } else if s.len() == 4 && s[0] == '\u{8bbe}' && s[3] == '\u{8981}' && s[2] == '\u{6458}' {
        Key::DeviceSummary
    } else if s.len() == 5 && s[0] == '\u{5feb}' && s[4] == '\u{51fa}' && s[3] == '\u{5bfc}' {
        Key::ExportDone
    } else if s.len() == 9 && s[0] == '\u{5c1a}' && s[8] == '\u{51fa}' && s[7] == '\u{5bfc}' {
        Key::ExportNoData
    } else if s.len() == 4 && s[0] == '\u{5bfc}' && s[3] == '\u{8d25}' && s[2] == '\u{5931}' {
        Key::ExportFailed
    } else if s.len() == 7 && s[0] == '\u{5bb9}' && s[6] == '\u{7528}' && s[5] == '\u{53ef}' {
        Key::ContainersUnavailable
    } else if s.len() == 8 && s[0] == '\u{6b64}' && s[7] == '\u{5668}' && s[6] == '\u{5bb9}' {
        Key::ContainersUnsupported
    } else if s.len() == 7 && s[0] == '\u{5bb9}' && s[6] == '\u{7edd}' && s[5] == '\u{62d2}' {
        Key::ContainersPermissionDenied
    } else if s.len() == 9 && s[0] == '\u{6ca1}' && s[8] == '\u{5668}' && s[7] == '\u{5bb9}' {
        Key::ContainersNoContainers
    } else if s.len() == 7 && s[0] == '\u{7b49}' && s[6] == '\u{2026}' && s[5] == '\u{603b}' {
        Key::ContainersWaiting
    } else if s.len() == 14 && s[0] == '\u{6309}' && s[13] == '\u{603b}' && s[12] == '\u{6c47}' {
        Key::ContainersHeader
    } else if s.len() == 7 && s[0] == '\u{7b49}' && s[6] == '\u{2026}' && s[5] == '\u{636e}' {
        Key::HealthWaiting
    } else if s.len() == 6 && s[0] == '\u{6682}' && s[5] == '\u{636e}' && s[4] == '\u{6570}' {
        Key::HealthNoData
    } else if s.len() == 4 && s[0] == '\u{8fdb}' && s[3] == '\u{60c5}' && s[2] == '\u{8be6}' {
        Key::DetailsTitle
    } else if s.len() == 2 && s[0] == '\u{786e}' && s[1] == '\u{8ba4}' && s[0] == '\u{786e}' {
        Key::Confirm
    } else if s.len() == 2 && s[0] == '\u{53d6}' && s[1] == '\u{6d88}' && s[0] == '\u{53d6}' {
        Key::Cancel
    } else if s.len() == 2 && s[0] == '\u{6d45}' && s[1] == '\u{8272}' && s[0] == '\u{6d45}' {
        Key::Light
    } else if s.len() == 2 && s[0] == '\u{6df1}' && s[1] == '\u{8272}' && s[0] == '\u{6df1}' {
        Key::Dark
    } else if s.len() == 4 && s[0] == '\u{62a4}' && s[3] == '\u{6797}' && s[2] == '\u{68ee}' {
        Key::EyeForest
    } else if s.len() == 4 && s[0] == '\u{8ddf}' && s[3] == '\u{7edf}' && s[2] == '\u{7cfb}' {
        Key::System
    } else if s.len() == 2 && s[0] == '\u{5185}' && s[1] == '\u{7f6e}' && s[0] == '\u{5185}' {
        Key::Bundled
    } else if s.len() == 2 && s[0] == '\u{8212}' && s[1] == '\u{9002}' && s[0] == '\u{8212}' {
        Key::Comfortable
    } else if s.len() == 2 && s[0] == '\u{7d27}' && s[1] == '\u{51d1}' && s[0] == '\u{7d27}' {
        Key::Compact
    } else if s.len() == 2 && s[0] == '\u{5b57}' && s[1] == '\u{8282}' && s[0] == '\u{5b57}' {
        Key::Bytes
    } else if s.len() == 2 && s[0] == '\u{6bd4}' && s[1] == '\u{7279}' && s[0] == '\u{6bd4}' {
        Key::Bits
    } else if s.len() == 2 && s[0] == '\u{9ed8}' && s[1] == '\u{8ba4}' && s[0] == '\u{9ed8}' {
        Key::Default
    } else if s.len() == 3 && s[0] == '\u{6b21}' && s[2] == '\u{7d20}' && s[1] == '\u{50cf}' {
        Key::Subpixel
    } else if s.len() == 2 && s[0] == '\u{7070}' && s[1] == '\u{5ea6}' && s[0] == '\u{7070}' {
        Key::Grayscale
    } else if s.len() == 4 && s[0] == '\u{8bb0}' && s[3] == '\u{6b21}' && s[2] == '\u{4e0a}' {
        Key::RememberLast
    } else if s.len() == 2 && s[0] == '\u{6027}' && s[1] == '\u{80fd}' && s[0] == '\u{6027}' {
        Key::Performance
    } else {
        Key::Applications
    }
}

/// Every Chinese rendering reads back to its key.
proof fn lemma_key_of_chinese(key: Key)
    ensures
        key_of_chinese(zh_spec(key)) == key,
{
    match key {
        Key::Settings => reveal_strlit("\u{8bbe}\u{7f6e}"),
        Key::Containers => reveal_strlit("\u{5bb9}\u{5668}"),
        Key::Health => reveal_strlit("\u{5065}\u{5eb7}"),
        Key::Export => reveal_strlit("\u{5bfc}\u{51fa}"),
        Key::About => reveal_strlit("\u{5173}\u{4e8e}"),
        Key::Close => reveal_strlit("\u{5173}\u{95ed}"),
        Key::Appearance => reveal_strlit("\u{5916}\u{89c2}"),
        Key::Skin => reveal_strlit("\u{76ae}\u{80a4}"),
        Key::Mode => reveal_strlit("\u{6a21}\u{5f0f}"),
        Key::HighContrast => reveal_strlit("\u{9ad8}\u{5bf9}\u{6bd4}\u{5ea6}"),
        Key::On => reveal_strlit("\u{5f00}"),
        Key::Off => reveal_strlit("\u{5173}"),
        Key::Fonts => reveal_strlit("\u{5b57}\u{4f53}"),
        Key::FontFamily => reveal_strlit("\u{5df2}\u{5b89}\u{88c5}\u{5b57}\u{4f53}"),
        Key::FontChoose => reveal_strlit("\u{9009}\u{62e9}\u{5df2}\u{5b89}\u{88c5}\u{5b57}\u{4f53}\u{2026}"),
        Key::Density => reveal_strlit("\u{884c}\u{5bc6}\u{5ea6}"),
        Key::Units => reveal_strlit("\u{5185}\u{5b58}\u{5355}\u{4f4d}"),
        Key::Language => reveal_strlit("\u{8bed}\u{8a00}"),
        Key::Version => reveal_strlit("\u{7248}\u{672c}"),
        Key::SystemInfo => reveal_strlit("\u{7cfb}\u{7edf}\u{4fe1}\u{606f}"),
        Key::AlertRules => reveal_strlit("\u{544a}\u{8b66}\u{89c4}\u{5219}"),
        Key::DeviceSummary => reveal_strlit("\u{8bbe}\u{5907}\u{6458}\u{8981}"),
        Key::ExportDone => reveal_strlit("\u{5feb}\u{7167}\u{5df2}\u{5bfc}\u{51fa}"),
        Key::ExportNoData => reveal_strlit("\u{5c1a}\u{65e0}\u{5feb}\u{7167}\u{6570}\u{636e}\u{53ef}\u{5bfc}\u{51fa}"),
        Key::ExportFailed => reveal_strlit("\u{5bfc}\u{51fa}\u{5931}\u{8d25}"),
        Key::ContainersUnavailable => reveal_strlit("\u{5bb9}\u{5668}\u{6c47}\u{603b}\u{4e0d}\u{53ef}\u{7528}"),
        Key::ContainersUnsupported => reveal_strlit("\u{6b64}\u{4e3b}\u{673a}\u{4e0d}\u{652f}\u{6301}\u{5bb9}\u{5668}"),
        Key::ContainersPermissionDenied => reveal_strlit("\u{5bb9}\u{5668}\u{91c7}\u{96c6}\u{88ab}\u{62d2}\u{7edd}"),
        Key::ContainersNoContainers => reveal_strlit("\u{6ca1}\u{6709}\u{6b63}\u{5728}\u{8fd0}\u{884c}\u{7684}\u{5bb9}\u{5668}"),
        Key::ContainersWaiting => reveal_strlit("\u{7b49}\u{5f85}\u{5bb9}\u{5668}\u{6c47}\u{603b}\u{2026}"),
        Key::ContainersHeader => reveal_strlit("\u{6309}\u{5bb9}\u{5668}\u{7684} CPU \u{4e0e}\u{5185}\u{5b58}\u{6c47}\u{603b}"),
        Key::HealthWaiting => reveal_strlit("\u{7b49}\u{5f85}\u{9065}\u{6d4b}\u{6570}\u{636e}\u{2026}"),
        Key::HealthNoData => reveal_strlit("\u{6682}\u{65e0}\u{5065}\u{5eb7}\u{6570}\u{636e}"),
        Key::DetailsTitle => reveal_strlit("\u{8fdb}\u{7a0b}\u{8be6}\u{60c5}"),
        Key::Confirm => reveal_strlit("\u{786e}\u{8ba4}"),
        Key::Cancel => reveal_strlit("\u{53d6}\u{6d88}"),
        Key::Light => reveal_strlit("\u{6d45}\u{8272}"),
        Key::Dark => reveal_strlit("\u{6df1}\u{8272}"),
        Key::EyeForest => reveal_strlit("\u{62a4}\u{773c}\u{68ee}\u{6797}"),
        Key::System => reveal_strlit("\u{8ddf}\u{968f}\u{7cfb}\u{7edf}"),
        Key::Bundled => reveal_strlit("\u{5185}\u{7f6e}"),
        Key::Comfortable => reveal_strlit("\u{8212}\u{9002}"),
        Key::Compact => reveal_strlit("\u{7d27}\u{51d1}"),
        Key::Bytes => reveal_strlit("\u{5b57}\u{8282}"),
        Key::Bits => reveal_strlit("\u{6bd4}\u{7279}"),
        Key::Default => reveal_strlit("\u{9ed8}\u{8ba4}"),
        Key::Subpixel => reveal_strlit("\u{6b21}\u{50cf}\u{7d20}"),
        Key::Grayscale => reveal_strlit("\u{7070}\u{5ea6}"),
        Key::RememberLast => reveal_strlit("\u{8bb0}\u{4f4f}\u{4e0a}\u{6b21}"),
        Key::Performance => reveal_strlit("\u{6027}\u{80fd}"),
        Key::Applications => reveal_strlit("\u{8fdb}\u{7a0b}"),
    }
}

/// A code character: a lowercase ASCII letter or an underscore.
pub open spec fn is_code_char(c: char) -> bool {
    ('a' <= c && c <= 'z') || c == '_'
}

/// A code of the form `namespace.name` with its only dot at `dot`.
pub open spec fn code_shape_at(s: Seq<char>, dot: int) -> bool {
    &&& 0 < dot < s.len() - 1
    &&& s[dot] == '.'
    &&& forall|j: int| 0 <= j < s.len() && j != dot ==> is_code_char(#[trigger] s[j])
}

/// A code of the form `namespace.name`: exactly one dot, with a non-empty
/// run of lowercase letters and underscores on each side.
pub open spec fn is_code_shape(s: Seq<char>) -> bool {
    exists|dot: int| code_shape_at(s, dot)
}

/// Every dictionary code has the form `namespace.name`.
pub proof fn lemma_key_code_shape(key: Key)
    ensures
        is_code_shape(key_code_spec(key)),
{
    match key {
        Key::Settings => {
            reveal_strlit("settings.title");
            assert(code_shape_at("settings.title"@, 8));
        },
        Key::Containers => {
            reveal_strlit("containers.title");
            assert(code_shape_at("containers.title"@, 10));
        },
        Key::Health => {
            reveal_strlit("health.title");
            assert(code_shape_at("health.title"@, 6));
        },
        Key::Export => {
            reveal_strlit("export.title");
            assert(code_shape_at("export.title"@, 6));
        },
        Key::About => {
            reveal_strlit("about.title");
            assert(code_shape_at("about.title"@, 5));
        },
        Key::Close => {
            reveal_strlit("chrome.close");
            assert(code_shape_at("chrome.close"@, 6));
        },
        Key::Appearance => {
            reveal_strlit("settings.appearance");
            assert(code_shape_at("settings.appearance"@, 8));
        },
        Key::Skin => {
            reveal_strlit("settings.skin");
            assert(code_shape_at("settings.skin"@, 8));
        },
        Key::Mode => {
            reveal_strlit("settings.mode");
            assert(code_shape_at("settings.mode"@, 8));
        },
        Key::HighContrast => {
            reveal_strlit("settings.high_contrast");
            assert(code_shape_at("settings.high_contrast"@, 8));
        },
        Key::On => {
            reveal_strlit("settings.on");
            assert(code_shape_at("settings.on"@, 8));
        },
        Key::Off => {
            reveal_strlit("settings.off");
            assert(code_shape_at("settings.off"@, 8));
        },
        Key::Fonts => {
            reveal_strlit("settings.fonts");
            assert(code_shape_at("settings.fonts"@, 8));
        },
        Key::FontFamily => {
            reveal_strlit("settings.font_family");
            assert(code_shape_at("settings.font_family"@, 8));
        },
        Key::FontChoose => {
            reveal_strlit("settings.font_choose");
            assert(code_shape_at("settings.font_choose"@, 8));
        },
        Key::Density => {
            reveal_strlit("settings.density");
            assert(code_shape_at("settings.density"@, 8));
        },
        Key::Units => {
            reveal_strlit("settings.units");
            assert(code_shape_at("settings.units"@, 8));
        },
        Key::Language => {
            reveal_strlit("settings.language");
            assert(code_shape_at("settings.language"@, 8));
        },
        Key::Version => {
            reveal_strlit("about.version");
            assert(code_shape_at("about.version"@, 5));
        },
        Key::SystemInfo => {
            reveal_strlit("about.system_info");
            assert(code_shape_at("about.system_info"@, 5));
        },
        Key::AlertRules => {
            reveal_strlit("health.alert_rules");
            assert(code_shape_at("health.alert_rules"@, 6));
        },
        Key::DeviceSummary => {
            reveal_strlit("health.device_summary");
            assert(code_shape_at("health.device_summary"@, 6));
        },
        Key::ExportDone => {
            reveal_strlit("export.done");
            assert(code_shape_at("export.done"@, 6));
        },
        Key::ExportNoData => {
            reveal_strlit("export.no_data");
            assert(code_shape_at("export.no_data"@, 6));
        },
        Key::ExportFailed => {
            reveal_strlit("export.failed");
            assert(code_shape_at("export.failed"@, 6));
        },
        Key::ContainersUnavailable => {
            reveal_strlit("containers.unavailable");
            assert(code_shape_at("containers.unavailable"@, 10));
        },
        Key::ContainersUnsupported => {
            reveal_strlit("containers.unsupported");
            assert(code_shape_at("containers.unsupported"@, 10));
        },
        Key::ContainersPermissionDenied => {
            reveal_strlit("containers.permission_denied");
            assert(code_shape_at("containers.permission_denied"@, 10));
        },
        Key::ContainersNoContainers => {
            reveal_strlit("containers.no_containers");
            assert(code_shape_at("containers.no_containers"@, 10));
        },
        Key::ContainersWaiting => {
            reveal_strlit("containers.waiting");
            assert(code_shape_at("containers.waiting"@, 10));
        },
        Key::ContainersHeader => {
            reveal_strlit("containers.header");
            assert(code_shape_at("containers.header"@, 10));
        },
        Key::HealthWaiting => {
            reveal_strlit("health.waiting");
            assert(code_shape_at("health.waiting"@, 6));
        },
        Key::HealthNoData => {
            reveal_strlit("health.no_data");
            assert(code_shape_at("health.no_data"@, 6));
        },
        Key::DetailsTitle => {
            reveal_strlit("details.title");
            assert(code_shape_at("details.title"@, 7));
        },
        Key::Confirm => {
            reveal_strlit("chrome.confirm");
            assert(code_shape_at("chrome.confirm"@, 6));
        },
        Key::Cancel => {
            reveal_strlit("chrome.cancel");
            assert(code_shape_at("chrome.cancel"@, 6));
        },
        Key::Light => {
            reveal_strlit("settings.light");
            assert(code_shape_at("settings.light"@, 8));
        },
        Key::Dark => {
            reveal_strlit("settings.dark");
            assert(code_shape_at("settings.dark"@, 8));
        },
        Key::EyeForest => {
            reveal_strlit("settings.eyeforest");
            assert(code_shape_at("settings.eyeforest"@, 8));
        },
        Key::System => {
            reveal_strlit("settings.system");
            assert(code_shape_at("settings.system"@, 8));
        },
        Key::Bundled => {
            reveal_strlit("settings.bundled");
            assert(code_shape_at("settings.bundled"@, 8));
        },
        Key::Comfortable => {
            reveal_strlit("settings.comfortable");
            assert(code_shape_at("settings.comfortable"@, 8));
        },
        Key::Compact => {
            reveal_strlit("settings.compact");
            assert(code_shape_at("settings.compact"@, 8));
        },
        Key::Bytes => {
            reveal_strlit("settings.bytes");
            assert(code_shape_at("settings.bytes"@, 8));
        },
        Key::Bits => {
            reveal_strlit("settings.bits");
            assert(code_shape_at("settings.bits"@, 8));
        },
        Key::Default => {
            reveal_strlit("settings.default");
            assert(code_shape_at("settings.default"@, 8));
        },
        Key::Subpixel => {
            reveal_strlit("settings.subpixel");
            assert(code_shape_at("settings.subpixel"@, 8));
        },
        Key::Grayscale => {
            reveal_strlit("settings.grayscale");
            assert(code_shape_at("settings.grayscale"@, 8));
        },
        Key::RememberLast => {
            reveal_strlit("settings.remember_last");
            assert(code_shape_at("settings.remember_last"@, 8));
        },
        Key::Performance => {
            reveal_strlit("settings.startup_performance");
            assert(code_shape_at("settings.startup_performance"@, 8));
        },
        Key::Applications => {
            reveal_strlit("settings.startup_processes");
            assert(code_shape_at("settings.startup_processes"@, 8));
        },
    }
}

/// Distinct keys have distinct dictionary codes.
pub proof fn lemma_key_codes_distinct(a: Key, b: Key)
    requires
        a != b,
    ensures
        key_code_spec(a) != key_code_spec(b),
{
    lemma_key_of_code(a);
    lemma_key_of_code(b);
}

/// Distinct keys have distinct English renderings.
pub proof fn lemma_english_distinct(a: Key, b: Key)
    requires
        a != b,
    ensures
        en_spec(a) != en_spec(b),
{
    lemma_key_of_english(a);
    lemma_key_of_english(b);
}

/// Distinct keys have distinct Chinese renderings.
pub proof fn lemma_chinese_distinct(a: Key, b: Key)
    requires
        a != b,
    ensures
        zh_spec(a) != zh_spec(b),
{
    lemma_key_of_chinese(a);
    lemma_key_of_chinese(b);
}

/// No key falls back to its English rendering in Chinese: the two renderings
/// of every key differ in their first character.
pub proof fn lemma_chinese_differs_from_english(key: Key)
    ensures
        zh_spec(key) != en_spec(key),
{
    match key {
        Key::Settings => {
            reveal_strlit("\u{8bbe}\u{7f6e}");
            reveal_strlit("Settings");
            assert(zh_spec(key)[0] != en_spec(key)[0]);
        },
        Key::Containers => {
            reveal_strlit("\u{5bb9}\u{5668}");
            reveal_strlit("Containers");
            assert(zh_spec(key)[0] != en_spec(key)[0]);
        },
        Key::Health => {
            reveal_strlit("\u{5065}\u{5eb7}");
            reveal_strlit("Health");
            assert(zh_spec(key)[0] != en_spec(key)[0]);
        },
        Key::Export => {
            reveal_strlit("\u{5bfc}\u{51fa}");
            reveal_strlit("Export");
            assert(zh_spec(key)[0] != en_spec(key)[0]);
        },
        Key::About => {
            reveal_strlit("\u{5173}\u{4e8e}");
            reveal_strlit("About");
            assert(zh_spec(key)[0] != en_spec(key)[0]);
        },
        Key::Close => {
            reveal_strlit("\u{5173}\u{95ed}");
            reveal_strlit("Close");
            assert(zh_spec(key)[0] != en_spec(key)[0]);
        },
        Key::Appearance => {
            reveal_strlit("\u{5916}\u{89c2}");
            reveal_strlit("Appearance");
            assert(zh_spec(key)[0] != en_spec(key)[0]);
        },
        Key::Skin => {
            reveal_strlit("\u{76ae}\u{80a4}");
            reveal_strlit("Skin");
            assert(zh_spec(key)[0] != en_spec(key)[0]);
        },
        Key::Mode => {
            reveal_strlit("\u{6a21}\u{5f0f}");
            reveal_strlit("Mode");
            assert(zh_spec(key)[0] != en_spec(key)[0]);
        },
        Key::HighContrast => {
            reveal_strlit("\u{9ad8}\u{5bf9}\u{6bd4}\u{5ea6}");
            reveal_strlit("High contrast");
            assert(zh_spec(key)[0] != en_spec(key)[0]);
        },
        Key::On => {
            reveal_strlit("\u{5f00}");
            reveal_strlit("On");
            assert(zh_spec(key)[0] != en_spec(key)[0]);
        },
        Key::Off => {
            reveal_strlit("\u{5173}");
            reveal_strlit("Off");
            assert(zh_spec(key)[0] != en_spec(key)[0]);
        },
        Key::Fonts => {
            reveal_strlit("\u{5b57}\u{4f53}");
            reveal_strlit("Fonts");
            assert(zh_spec(key)[0] != en_spec(key)[0]);
        },
        Key::FontFamily => {
            reveal_strlit("\u{5df2}\u{5b89}\u{88c5}\u{5b57}\u{4f53}");
            reveal_strlit("Installed family");
            assert(zh_spec(key)[0] != en_spec(key)[0]);
        },
        Key::FontChoose => {
            reveal_strlit("\u{9009}\u{62e9}\u{5df2}\u{5b89}\u{88c5}\u{5b57}\u{4f53}\u{2026}");
            reveal_strlit("Choose an installed font\u{2026}");
            assert(zh_spec(key)[0] != en_spec(key)[0]);
        },
        Key::Density => {
            reveal_strlit("\u{884c}\u{5bc6}\u{5ea6}");
            reveal_strlit("Row density");
            assert(zh_spec(key)[0] != en_spec(key)[0]);
        },
        Key::Units => {
            reveal_strlit("\u{5185}\u{5b58}\u{5355}\u{4f4d}");
            reveal_strlit("Memory units");
            assert(zh_spec(key)[0] != en_spec(key)[0]);
        },
        Key::Language => {
            reveal_strlit("\u{8bed}\u{8a00}");
            reveal_strlit("Language");
            assert(zh_spec(key)[0] != en_spec(key)[0]);
        },
        Key::Version => {
            reveal_strlit("\u{7248}\u{672c}");
            reveal_strlit("Version");
            assert(zh_spec(key)[0] != en_spec(key)[0]);
        },
        Key::SystemInfo => {
            reveal_strlit("\u{7cfb}\u{7edf}\u{4fe1}\u{606f}");
            reveal_strlit("System information");
            assert(zh_spec(key)[0] != en_spec(key)[0]);
        },
        Key::AlertRules => {
            reveal_strlit("\u{544a}\u{8b66}\u{89c4}\u{5219}");
            reveal_strlit("Alert rules");
            assert(zh_spec(key)[0] != en_spec(key)[0]);
        },
        Key::DeviceSummary => {
            reveal_strlit("\u{8bbe}\u{5907}\u{6458}\u{8981}");
            reveal_strlit("Device summary");
            assert(zh_spec(key)[0] != en_spec(key)[0]);
        },
        Key::ExportDone => {
            reveal_strlit("\u{5feb}\u{7167}\u{5df2}\u{5bfc}\u{51fa}");
            reveal_strlit("Snapshot exported");
            assert(zh_spec(key)[0] != en_spec(key)[0]);
        },
        Key::ExportNoData => {
            reveal_strlit("\u{5c1a}\u{65e0}\u{5feb}\u{7167}\u{6570}\u{636e}\u{53ef}\u{5bfc}\u{51fa}");
            reveal_strlit("No snapshot data to export yet");
            assert(zh_spec(key)[0] != en_spec(key)[0]);
        },
        Key::ExportFailed => {
            reveal_strlit("\u{5bfc}\u{51fa}\u{5931}\u{8d25}");
            reveal_strlit("Export failed");
            assert(zh_spec(key)[0] != en_spec(key)[0]);
        },
        Key::ContainersUnavailable => {
            reveal_strlit("\u{5bb9}\u{5668}\u{6c47}\u{603b}\u{4e0d}\u{53ef}\u{7528}");
            reveal_strlit("Container rollup unavailable");
            assert(zh_spec(key)[0] != en_spec(key)[0]);
        },
        Key::ContainersUnsupported => {
            reveal_strlit("\u{6b64}\u{4e3b}\u{673a}\u{4e0d}\u{652f}\u{6301}\u{5bb9}\u{5668}");
            reveal_strlit("Containers unsupported on this host");
            assert(zh_spec(key)[0] != en_spec(key)[0]);
        },
        Key::ContainersPermissionDenied => {
            reveal_strlit("\u{5bb9}\u{5668}\u{91c7}\u{96c6}\u{88ab}\u{62d2}\u{7edd}");
            reveal_strlit("Container collection denied");
            assert(zh_spec(key)[0] != en_spec(key)[0]);
        },
        Key::ContainersNoContainers => {
            reveal_strlit("\u{6ca1}\u{6709}\u{6b63}\u{5728}\u{8fd0}\u{884c}\u{7684}\u{5bb9}\u{5668}");
            reveal_strlit("No containers running");
            assert(zh_spec(key)[0] != en_spec(key)[0]);
        },
        Key::ContainersWaiting => {
            reveal_strlit("\u{7b49}\u{5f85}\u{5bb9}\u{5668}\u{6c47}\u{603b}\u{2026}");
            reveal_strlit("Waiting for the container rollup\u{2026}");
            assert(zh_spec(key)[0] != en_spec(key)[0]);
        },
        Key::ContainersHeader => {
            reveal_strlit("\u{6309}\u{5bb9}\u{5668}\u{7684} CPU \u{4e0e}\u{5185}\u{5b58}\u{6c47}\u{603b}");
            reveal_strlit("Per-container CPU and memory rollup");
            assert(zh_spec(key)[0] != en_spec(key)[0]);
        },
        Key::HealthWaiting => {
            reveal_strlit("\u{7b49}\u{5f85}\u{9065}\u{6d4b}\u{6570}\u{636e}\u{2026}");
            reveal_strlit("Waiting for telemetry\u{2026}");
            assert(zh_spec(key)[0] != en_spec(key)[0]);
        },
        Key::HealthNoData => {
            reveal_strlit("\u{6682}\u{65e0}\u{5065}\u{5eb7}\u{6570}\u{636e}");
            reveal_strlit("No health facts reported yet");
            assert(zh_spec(key)[0] != en_spec(key)[0]);
        },
        Key::DetailsTitle => {
            reveal_strlit("\u{8fdb}\u{7a0b}\u{8be6}\u{60c5}");
            reveal_strlit("Process details");
            assert(zh_spec(key)[0] != en_spec(key)[0]);
        },
        Key::Confirm => {
            reveal_strlit("\u{786e}\u{8ba4}");
            reveal_strlit("Confirm");
            assert(zh_spec(key)[0] != en_spec(key)[0]);
        },
        Key::Cancel => {
            reveal_strlit("\u{53d6}\u{6d88}");
            reveal_strlit("Cancel");
            assert(zh_spec(key)[0] != en_spec(key)[0]);
        },
        Key::Light => {
            reveal_strlit("\u{6d45}\u{8272}");
            reveal_strlit("Light");
            assert(zh_spec(key)[0] != en_spec(key)[0]);
        },
        Key::Dark => {
            reveal_strlit("\u{6df1}\u{8272}");
            reveal_strlit("Dark");
            assert(zh_spec(key)[0] != en_spec(key)[0]);
        },
        Key::EyeForest => {
            reveal_strlit("\u{62a4}\u{773c}\u{68ee}\u{6797}");
            reveal_strlit("EyeForest");
            assert(zh_spec(key)[0] != en_spec(key)[0]);
        },
        Key::System => {
            reveal_strlit("\u{8ddf}\u{968f}\u{7cfb}\u{7edf}");
            reveal_strlit("System");
            assert(zh_spec(key)[0] != en_spec(key)[0]);
        },
        Key::Bundled => {
            reveal_strlit("\u{5185}\u{7f6e}");
            reveal_strlit("Bundled");
            assert(zh_spec(key)[0] != en_spec(key)[0]);
        },
        Key::Comfortable => {
            reveal_strlit("\u{8212}\u{9002}");
            reveal_strlit("Comfortable");
            assert(zh_spec(key)[0] != en_spec(key)[0]);
        },
        Key::Compact => {
            reveal_strlit("\u{7d27}\u{51d1}");
            reveal_strlit("Compact");
            assert(zh_spec(key)[0] != en_spec(key)[0]);
        },
        Key::Bytes => {
            reveal_strlit("\u{5b57}\u{8282}");
            reveal_strlit("Bytes");
            assert(zh_spec(key)[0] != en_spec(key)[0]);
        },
        Key::Bits => {
            reveal_strlit("\u{6bd4}\u{7279}");
            reveal_strlit("Bits");
            assert(zh_spec(key)[0] != en_spec(key)[0]);
        },
        Key::Default => {
            reveal_strlit("\u{9ed8}\u{8ba4}");
            reveal_strlit("Default");
            assert(zh_spec(key)[0] != en_spec(key)[0]);
        },
        Key::Subpixel => {
            reveal_strlit("\u{6b21}\u{50cf}\u{7d20}");
            reveal_strlit("Subpixel");
            assert(zh_spec(key)[0] != en_spec(key)[0]);
        },
        Key::Grayscale => {
            reveal_strlit("\u{7070}\u{5ea6}");
            reveal_strlit("Grayscale");
            assert(zh_spec(key)[0] != en_spec(key)[0]);
        },
        Key::RememberLast => {
            reveal_strlit("\u{8bb0}\u{4f4f}\u{4e0a}\u{6b21}");
            reveal_strlit("Remember last");
            assert(zh_spec(key)[0] != en_spec(key)[0]);
        },
        Key::Performance => {
            reveal_strlit("\u{6027}\u{80fd}");
            reveal_strlit("Performance");
            assert(zh_spec(key)[0] != en_spec(key)[0]);
        },
        Key::Applications => {
            reveal_strlit("\u{8fdb}\u{7a0b}");
            reveal_strlit("Applications");
            assert(zh_spec(key)[0] != en_spec(key)[0]);
        },
    }
}

} // verus!

use taskmanager_iced::health::{health_rows, HealthInputs, HealthLabels};
use taskmanager_iced::health::{count_value, cpu_reading_text, device_count_value, system_value, used_of_total};
use taskmanager_iced::i18n::{all_languages, t, Key, Language};

#[test]
fn count_values_pick_singular_or_plural() {
    let one = count_value(Language::En, Key::Settings, Key::Health, 1, "Samsung");
    assert_eq!(one, t(Language::En, Key::Settings));
    let many = count_value(Language::En, Key::Settings, Key::Health, 2, "Samsung");
    assert_eq!(many, t(Language::En, Key::Health));
}

#[test]
fn device_rows_are_healthy_only_with_devices() {
    let (text, healthy) = device_count_value(Language::En, Key::Settings, Key::Health, &[], "—");
    assert_eq!(text, "—");
    assert!(!healthy);
    let models = vec!["eth0".to_string(), "wlan0".to_string()];
    let (text, healthy) = device_count_value(Language::Zh, Key::Settings, Key::Health, &models, "—");
    assert_eq!(text, t(Language::Zh, Key::Health));
    assert!(healthy);
}

#[test]
fn memory_needs_a_positive_total() {
    assert_eq!(used_of_total(Some(10), Some(20)), Some((10, 20)));
    assert_eq!(used_of_total(Some(10), Some(0)), None);
    assert_eq!(used_of_total(None, Some(20)), None);
    assert_eq!(used_of_total(Some(10), None), None);
}

#[test]
fn cpu_reading_joins_usage_and_clock() {
    assert_eq!(cpu_reading_text(Some("12.5%"), "3.2 GHz", "—"), "12.5% \u{00B7} 3.2 GHz");
    assert_eq!(cpu_reading_text(Some("12.5%"), "", "—"), "12.5%");
    assert_eq!(cpu_reading_text(Some("12.5%"), "\u{2014}", "—"), "12.5%");
    assert_eq!(cpu_reading_text(None, "BogoMIPS 4800", "—"), "BogoMIPS 4800");
    assert_eq!(cpu_reading_text(None, "", "—"), "—");
}

#[test]
fn system_line_fills_its_placeholders() {
    let (line, healthy) = system_value("up {uptime}, {processes} procs, {threads} threads", "2h", 300, Some(1200), "—");
    assert_eq!(line, "up 2h, 300 procs, 1200 threads");
    assert!(healthy);
    let (line, healthy) = system_value("{processes}/{threads}", "0s", 0, None, "—");
    assert_eq!(line, "0/—");
    assert!(!healthy);
}

#[test]
fn every_language_has_a_label_and_token() {
    for language in all_languages() {
        assert!(!language.label().is_empty());
        assert_eq!(Language::from_token(language.token()), Some(language));
        assert!(!t(language, Key::Health).is_empty());
    }
    assert_eq!(Language::default(), Language::En);
}

fn health_labels() -> HealthLabels {
    HealthLabels {
        score: "Health score".to_string(),
        cpu: "CPU".to_string(),
        memory: "Memory".to_string(),
        swap: "Swap".to_string(),
        disk: "Disk".to_string(),
        network: "Network".to_string(),
        gpu: "GPU".to_string(),
        system: "System".to_string(),
    }
}

#[test]
fn health_rows_in_order_with_their_health() {
    let inputs = HealthInputs {
        score: Some(72),
        score_summary: "72 / 100".to_string(),
        cpu_usage: Some("12.5%".to_string()),
        cpu_frequency: "3.2 GHz".to_string(),
        cpu_temperature: None,
        memory_used: Some(4),
        memory_total: Some(8),
        memory_text: "4 GiB / 8 GiB".to_string(),
        swap_used: Some(0),
        swap_total: Some(0),
        swap_text: "0 B / 0 B".to_string(),
        disk_value: "1 disk (Samsung)".to_string(),
        disk_healthy: true,
        network_value: "\u{2014}".to_string(),
        network_healthy: false,
        gpu_value: "1 GPU (Intel)".to_string(),
        gpu_healthy: true,
        system_value: "up 1h, 200 processes".to_string(),
        system_healthy: true,
    };
    let rows = health_rows(&health_labels(), &inputs, "\u{2014}");
    let view: Vec<(&str, &str, bool)> = rows.iter().map(|r| (r.label.as_str(), r.value.as_str(), r.healthy)).collect();
    assert_eq!(
        view,
        vec![
            ("Health score", "72 / 100", false),
            ("CPU", "12.5% \u{00B7} 3.2 GHz \u{00B7} \u{2014}", true),
            ("Memory", "4 GiB / 8 GiB", true),
            ("Swap", "\u{2014}", false),
            ("Disk", "1 disk (Samsung)", true),
            ("Network", "\u{2014}", false),
            ("GPU", "1 GPU (Intel)", true),
            ("System", "up 1h, 200 processes", true),
        ]
    );
    let good = HealthInputs { score: Some(80), ..inputs.clone() };
    assert!(health_rows(&health_labels(), &good, "\u{2014}")[0].healthy);
    let no_score = HealthInputs { score: None, cpu_usage: None, ..inputs };
    let rows = health_rows(&health_labels(), &no_score, "\u{2014}");
    assert_eq!(rows.len(), 7);
    assert_eq!(rows[0].label, "CPU");
    assert!(!rows[0].healthy);
}

use taskmanager_iced::chrome::{
    alert_badge_tone, alert_pill_label, footer_status, footer_tone, page_tab_active, paused_label, view_body,
    worst_severity, AlertSeverity, FeedbackSeverity, Tone, ViewBody,
};
use taskmanager_iced::focus::AppPage;
use taskmanager_iced::focusable::{control_reaction, ControlEvent, ControlMessage, ControlReaction};
use taskmanager_iced::panels::{
    banner_title_key, core_breakdown_label, core_cell_label, fan_section_state, fan_title, mini_graph_caption, readout_text,
    source_notice_action, source_panel_state, CpuType, ListState, PanelState, SensorQuantity, SourceNoticeAction,
};

#[test]
fn body_and_tabs() {
    assert_eq!(view_body(true, true, AppPage::Users), ViewBody::Warmup);
    assert_eq!(view_body(false, true, AppPage::Users), ViewBody::Alerts);
    assert_eq!(view_body(false, false, AppPage::Users), ViewBody::Page(AppPage::Users));
    assert!(page_tab_active(AppPage::System, AppPage::System, false));
    assert!(!page_tab_active(AppPage::System, AppPage::System, true));
    assert!(!page_tab_active(AppPage::Users, AppPage::System, false));
}

#[test]
fn footer_status_and_tone() {
    assert_eq!(footer_status(true, "Quitting…", "Ready"), "Quitting…");
    assert_eq!(footer_status(false, "Quitting…", "Ready"), "Ready");
    assert_eq!(footer_tone(true, Some(FeedbackSeverity::Success)), Tone::Warning);
    assert_eq!(footer_tone(false, Some(FeedbackSeverity::Error)), Tone::Danger);
    assert_eq!(footer_tone(false, Some(FeedbackSeverity::Info)), Tone::Foreground);
    assert_eq!(footer_tone(false, None), Tone::Foreground);
}

#[test]
fn alert_pill() {
    assert_eq!(worst_severity(&[]), None);
    assert_eq!(
        worst_severity(&[AlertSeverity::Info, AlertSeverity::Critical, AlertSeverity::Warning]),
        Some(AlertSeverity::Critical)
    );
    assert_eq!(worst_severity(&[AlertSeverity::Info, AlertSeverity::Warning]), Some(AlertSeverity::Warning));
    assert_eq!(alert_badge_tone(AlertSeverity::Critical), Tone::Danger);
    assert_eq!(alert_badge_tone(AlertSeverity::Info), Tone::Accent);
    assert_eq!(alert_pill_label("{} active alerts ({})", 0), None);
    assert_eq!(alert_pill_label("{} active alerts ({})", 3).as_deref(), Some("3 active alerts ({})"));
    assert_eq!(paused_label(false, "Paused"), None);
    assert_eq!(paused_label(true, "Paused").as_deref(), Some("\u{23F8} Paused"));
}

#[test]
fn focusable_controls() {
    let press = control_reaction(ControlEvent::KeyActivate, true, false, false, false);
    assert_eq!(press, ControlReaction { published: vec![ControlMessage::Focus, ControlMessage::Press], captured: true, forwarded: false });
    let unfocused = control_reaction(ControlEvent::KeyActivate, false, true, true, true);
    assert_eq!(unfocused, ControlReaction { published: vec![], captured: false, forwarded: true });
    let click = control_reaction(ControlEvent::LeftPress, false, true, true, false);
    assert_eq!(click, ControlReaction { published: vec![ControlMessage::Focus, ControlMessage::Press], captured: true, forwarded: false });
    let row_click = control_reaction(ControlEvent::LeftPress, false, true, false, false);
    assert_eq!(row_click, ControlReaction { published: vec![ControlMessage::Focus], captured: false, forwarded: true });
    let context = control_reaction(ControlEvent::RightPress, false, true, false, true);
    assert_eq!(context, ControlReaction { published: vec![ControlMessage::Focus, ControlMessage::Context], captured: true, forwarded: false });
    let no_menu = control_reaction(ControlEvent::RightPress, false, true, false, false);
    assert_eq!(no_menu, ControlReaction { published: vec![], captured: false, forwarded: true });
    let outside = control_reaction(ControlEvent::LeftPress, true, false, true, true);
    assert!(outside.published.is_empty() && outside.forwarded);
}

#[test]
fn source_panels() {
    assert_eq!(source_panel_state(true), PanelState::Partial);
    assert_eq!(source_panel_state(false), PanelState::Unavailable);
    assert_eq!(banner_title_key(true), "source.partial_title");
    assert_eq!(banner_title_key(false), "source.unavailable_title");
    assert_eq!(source_notice_action(true), SourceNoticeAction::Refresh);
    assert_eq!(source_notice_action(false), SourceNoticeAction::RetryAfterChange);
}

#[test]
fn fan_panel() {
    assert_eq!(fan_section_state(None), ListState::Loading);
    assert_eq!(fan_section_state(Some(&[SensorQuantity::Temperature])), ListState::Empty);
    assert_eq!(fan_section_state(Some(&[])), ListState::Empty);
    assert_eq!(fan_section_state(Some(&[SensorQuantity::Other, SensorQuantity::FanSpeed])), ListState::Ready);
    assert_eq!(fan_title("  cpu_fan ", "Fan"), "Fan \u{2014} cpu_fan");
    assert_eq!(fan_title("   ", "Fan"), "Fan");
    assert_eq!(mini_graph_caption("Read", 2, "collecting"), "Read");
    assert_eq!(mini_graph_caption("Read", 1, "collecting"), "Read \u{00B7} collecting");
}

#[test]
fn core_grid_labels() {
    assert_eq!(core_cell_label(3, None), "C03");
    assert_eq!(core_cell_label(12, Some(CpuType::Efficient)), "C12 (E)");
    assert_eq!(core_cell_label(0, Some(CpuType::Performance)), "C00 (P)");
    assert_eq!(core_cell_label(7, Some(CpuType::LowPower)), "C07 (LP)");
    assert_eq!(core_cell_label(7, Some(CpuType::Unknown)), "C07");
    assert_eq!(core_breakdown_label(0, 0, 0), None);
    assert_eq!(core_breakdown_label(8, 16, 0).as_deref(), Some("8 P-Cores \u{00B7} 16 E-Cores"));
    assert_eq!(core_breakdown_label(0, 4, 2).as_deref(), Some("4 E-Cores \u{00B7} 2 LP-Cores"));
    assert_eq!(core_breakdown_label(6, 0, 0).as_deref(), Some("6 P-Cores"));
}

#[test]
fn hover_readout_joins_the_present_series() {
    assert_eq!(readout_text("CPU", Some("43"), "Mem", Some("61")), Some("CPU 43% \u{00B7} Mem 61%".to_string()));
    assert_eq!(readout_text("CPU", Some("43"), "Mem", None), Some("CPU 43%".to_string()));
    assert_eq!(readout_text("CPU", None, "Mem", Some("7")), Some("Mem 7%".to_string()));
    assert_eq!(readout_text("CPU", None, "Mem", None), None);
}

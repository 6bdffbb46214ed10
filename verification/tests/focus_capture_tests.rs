use taskmanager_iced::capture::{
    device_marker_line, device_name, marker_line, page_name, target_marker_line, PerfDevice,
};
use taskmanager_iced::app_history::HistoryWindow;
use taskmanager_iced::focus::{focus_id, page_key, refresh_request_key, AppPage, FocusTarget, RefreshRequest, MODAL_CLOSE_ID};

#[test]
fn page_keys_are_stable() {
    assert_eq!(page_key(AppPage::Performance), "performance");
    assert_eq!(page_key(AppPage::Applications), "applications");
    assert_eq!(page_key(AppPage::Services), "services");
    assert_eq!(page_key(AppPage::System), "system");
    assert_eq!(page_key(AppPage::Startup), "startup");
    assert_eq!(page_key(AppPage::Users), "users");
    assert_eq!(page_key(AppPage::AppHistory), "app-history");
    assert_eq!(refresh_request_key(RefreshRequest::Sessions), "sessions");
    assert_eq!(refresh_request_key(RefreshRequest::Other), "other");
}

#[test]
fn focus_ids_spell_their_payloads() {
    assert_eq!(focus_id(FocusTarget::ModalClose), MODAL_CLOSE_ID);
    assert_eq!(focus_id(FocusTarget::TableRow { page: AppPage::Applications, index: 12 }), "iced-table-row-applications-12");
    assert_eq!(focus_id(FocusTarget::PageTab(AppPage::AppHistory)), "iced-page-tab-app-history");
    assert_eq!(focus_id(FocusTarget::SourceRetry(RefreshRequest::Startup)), "iced-source-retry-startup");
    assert_eq!(focus_id(FocusTarget::ProcessColumnToggle("CPU")), "iced-process-column-toggle-CPU");
    assert_eq!(focus_id(FocusTarget::ProcessAffinityCpu(7)), "iced-process-affinity-cpu-7");
    assert_eq!(focus_id(FocusTarget::FirstRunCopy(0)), "iced-first-run-copy-0");
    assert_eq!(focus_id(FocusTarget::FirstRunAction(5)), "iced-first-run-action-5");
    assert_eq!(focus_id(FocusTarget::PerformanceGraphPoints(120)), "iced-perf-graph-points-120");
    assert_eq!(focus_id(FocusTarget::ProcessMenuCopyJson), "iced-process-menu-copy-json");
}

#[test]
fn table_row_ids_are_distinct() {
    let a = focus_id(FocusTarget::TableRow { page: AppPage::Services, index: 1 });
    let b = focus_id(FocusTarget::TableRow { page: AppPage::Services, index: 11 });
    assert_ne!(a, b);
    let c = focus_id(FocusTarget::FirstRunCopy(1));
    let d = focus_id(FocusTarget::FirstRunAction(1));
    assert_ne!(c, d);
}

#[test]
fn capture_marker_lines() {
    assert_eq!(marker_line("ready", "demo", "performance"), "ICED_CAPTURE_MARKER event=ready mode=demo page=performance\n");
    assert_eq!(
        target_marker_line("applications", "row-3"),
        "ICED_CAPTURE_MARKER event=target_ready mode=demo page=applications device=row-3\n"
    );
    assert_eq!(
        device_marker_line(PerfDevice::Gpu(1)),
        "ICED_CAPTURE_MARKER event=target_ready mode=demo page=performance device=gpu\n"
    );
    assert_eq!(device_name(PerfDevice::Cpu), "cpu");
    assert_eq!(device_name(PerfDevice::Fan(2)), "fan");
    assert_eq!(page_name(AppPage::AppHistory), "app-history");
}

#[test]
fn focus_ids_are_distinct_and_prefixed() {
    let targets = [
        FocusTarget::TableRow { page: AppPage::AppHistory, index: 1 },
        FocusTarget::TableRow { page: AppPage::Applications, index: 1 },
        FocusTarget::PageTab(AppPage::AppHistory),
        FocusTarget::SettingsChoice { section: "a-1", index: 2 },
        FocusTarget::SettingsChoice { section: "a", index: 12 },
        FocusTarget::ServiceAction { index: 1, action: "2-x" },
        FocusTarget::ServiceAction { index: 12, action: "x" },
        FocusTarget::StartupMenuAction { index: 3, enabled: true },
        FocusTarget::StartupMenuAction { index: 3, enabled: false },
        FocusTarget::HistoryReplayWindow(HistoryWindow::SevenDays),
        FocusTarget::FirstRunAction(2),
        FocusTarget::FirstRunCopy(2),
        FocusTarget::ModalClose,
    ];
    for (i, a) in targets.iter().enumerate() {
        assert!(focus_id(*a).starts_with("iced-"));
        for b in &targets[i + 1..] {
            assert_ne!(focus_id(*a), focus_id(*b));
        }
    }
    assert_eq!(focus_id(FocusTarget::HistoryReplayWindow(HistoryWindow::OneHour)), "iced-history-replay-window-OneHour");
    assert_eq!(focus_id(FocusTarget::FirstRunAction(4)), "iced-first-run-action-4");
}

use taskmanager_iced::affinity::{
    affinity_editable, affinity_grid_rows, affinity_mask, affinity_mask_text, affinity_selected_count,
    affinity_status_line, affinity_target_name, core_presets_shown,
};
use taskmanager_iced::app_history::{
    all_history_windows, history_detail_line, history_provenance_key, history_shows_table, history_state_copy,
    history_window_key, clock_jump_note, last_good_window_note, replay_coverage_line, replay_peak_text,
    replay_shows_empty, row_heading, sparkline_has_line, ApplicationHistoryStatus, HistoryWindow,
};
use taskmanager_iced::containers::{
    branch_message_key, container_row_vm, more_rows_label, page_branch, runtime_label, ContainerFacts,
    ContainerRollupFacts, ContainersPageBranch, DeviceStatus, IsolationKind,
};
use taskmanager_iced::insights::{
    environment_heading, facet_overflow_label, facet_unavailable_text, format_connection, format_engine_usage,
    format_open_file_row, format_resource_pair, isolation_kind_label, open_file_rows, sandboxed_label,
    shows_container_id, AddressFamily, ConnectionTransport, FacetLabel, FacetUnavailable, LimitText, OpenFileFacts,
};

#[test]
fn affinity_counts_and_status() {
    assert_eq!(affinity_selected_count(&[0, 1, 7, 64], 8), 3);
    assert_eq!(affinity_selected_count(&[], 8), 0);
    assert_eq!(
        affinity_status_line(None, true, 3, 8, "Collecting", "logical CPUs"),
        "3 / 8 logical CPUs"
    );
    assert_eq!(affinity_status_line(None, false, 0, 8, "Collecting", "logical CPUs"), "Collecting");
    assert_eq!(
        affinity_status_line(Some("PermissionDenied"), true, 3, 8, "Collecting", "logical CPUs"),
        "Current affinity unavailable: PermissionDenied"
    );
    assert_eq!(affinity_target_name("  ", "Unknown"), "Unknown");
    assert_eq!(affinity_target_name("bash", "Unknown"), "bash");
    assert!(affinity_editable(true, false));
    assert!(!affinity_editable(true, true));
    assert!(!affinity_editable(false, false));
    assert!(core_presets_shown(Some(24)));
    assert!(!core_presets_shown(Some(0)));
    assert!(!core_presets_shown(None));
}

#[test]
fn affinity_mask_readout() {
    let mask = affinity_mask(&[0, 1, 3, 200]);
    assert_eq!(mask, 0b1011);
    assert_eq!(affinity_mask(&[127]), 1u128 << 127);
    assert_eq!(affinity_mask_text(mask, 8), "0x0000000B");
    assert_eq!(affinity_mask_text(mask, 48), "0x000000000000000B");
    assert_eq!(affinity_mask_text(mask, 96), "0x0000000000000000000000000000000B");
    assert_eq!(affinity_mask_text(affinity_mask(&[40]), 32), "0x00000000");
    assert_eq!(affinity_mask_text(affinity_mask(&[4, 5, 6, 7]), 8), "0x000000F0");
}

#[test]
fn affinity_grid_rows_of_eight() {
    let rows = affinity_grid_rows(20);
    assert_eq!(rows.len(), 3);
    assert_eq!(rows[0], (0..8).collect::<Vec<u32>>());
    assert_eq!(rows[2], vec![16, 17, 18, 19]);
    assert_eq!(affinity_grid_rows(16).len(), 2);
    assert!(affinity_grid_rows(0).is_empty());
}

#[test]
fn history_copy() {
    assert_eq!(
        all_history_windows(),
        vec![HistoryWindow::OneHour, HistoryWindow::TwentyFourHours, HistoryWindow::SevenDays]
    );
    assert_eq!(history_window_key(HistoryWindow::SevenDays), "perf.replay.window.7d");
    assert_eq!(
        history_state_copy(ApplicationHistoryStatus::Connecting),
        ("history.application.connecting", Some("history.application.connecting_detail"))
    );
    assert_eq!(history_state_copy(ApplicationHistoryStatus::Ready), ("history.application.title", None));
    assert!(history_shows_table(ApplicationHistoryStatus::Ready));
    assert!(!history_shows_table(ApplicationHistoryStatus::Collecting));
    assert_eq!(history_detail_line("History is off", None), "History is off");
    assert_eq!(history_detail_line("Unavailable", Some("db_locked")), "Unavailable (db_locked)");
    assert_eq!(history_provenance_key(true), "history.application.verified");
    assert_eq!(history_provenance_key(false), "history.application.unverified");
    assert_eq!(row_heading("cpu.usage", None, None), "cpu.usage");
    assert_eq!(row_heading("cpu.usage", None, Some(3)), "cpu.usage \u{00B7} core 3");
    assert_eq!(row_heading("disk.read", Some("nvme0n1"), None), "disk.read \u{00B7} nvme0n1");
}

#[test]
fn sparkline_needs_two_finite_samples() {
    let nan = f32::NAN.to_bits();
    assert!(!sparkline_has_line(&[]));
    assert!(!sparkline_has_line(&[1.0f32.to_bits(), nan]));
    assert!(sparkline_has_line(&[1.0f32.to_bits(), nan, 2.0f32.to_bits()]));
    assert!(!sparkline_has_line(&[f32::INFINITY.to_bits(), nan, 3.0f32.to_bits()]));
}

#[test]
fn containers_page_branches() {
    assert_eq!(page_branch(None), ContainersPageBranch::Waiting);
    let rollup = |status, container_count| ContainerRollupFacts { status, container_count };
    assert_eq!(page_branch(Some(&rollup(DeviceStatus::Unsupported, 3))), ContainersPageBranch::Unsupported);
    assert_eq!(page_branch(Some(&rollup(DeviceStatus::PermissionDenied, 0))), ContainersPageBranch::PermissionDenied);
    assert_eq!(page_branch(Some(&rollup(DeviceStatus::Stale, 2))), ContainersPageBranch::Stale);
    assert_eq!(page_branch(Some(&rollup(DeviceStatus::Healthy, 0))), ContainersPageBranch::Empty);
    assert_eq!(page_branch(Some(&rollup(DeviceStatus::MissingTool, 0))), ContainersPageBranch::Empty);
    assert_eq!(page_branch(Some(&rollup(DeviceStatus::Healthy, 4))), ContainersPageBranch::Table);
    assert_eq!(branch_message_key(ContainersPageBranch::Waiting), Some("containers.telemetry_not_collected"));
    assert_eq!(branch_message_key(ContainersPageBranch::Empty), Some("containers.no_containers"));
    assert_eq!(branch_message_key(ContainersPageBranch::Table), None);
}

#[test]
fn container_rows() {
    assert_eq!(runtime_label(Some(IsolationKind::SystemdNspawn)), "nspawn");
    assert_eq!(runtime_label(Some(IsolationKind::OtherContainer)), "Container");
    assert_eq!(runtime_label(None), "Container");
    let facts = ContainerFacts {
        name: "web".to_string(),
        runtime: Some(IsolationKind::Podman),
        cpu_text: Some("3.5%".to_string()),
        memory_text: None,
        member_count: 4,
    };
    let vm = container_row_vm(&facts, "—");
    assert_eq!(vm.name, "web");
    assert_eq!(vm.runtime, "Podman");
    assert_eq!(vm.cpu, "3.5%");
    assert_eq!(vm.memory, "—");
    assert_eq!(vm.processes, "4");
    let bare = ContainerFacts { name: "x".to_string(), runtime: None, cpu_text: None, memory_text: None, member_count: 0 };
    let vm = container_row_vm(&bare, "—");
    assert_eq!(vm.runtime, "—");
    assert_eq!(vm.cpu, "—");
    assert_eq!(vm.processes, "—");
    assert_eq!(more_rows_label("+{count} more", 12), "+12 more");
}

#[test]
fn insight_lines() {
    assert_eq!(facet_overflow_label(8), None);
    assert_eq!(facet_overflow_label(11).as_deref(), Some("\u{2026} +3 more"));
    let entry = OpenFileFacts { fd: 3, target: Some("/var/log/syslog".to_string()) };
    assert_eq!(format_open_file_row(&entry, "unreadable"), "fd 3 \u{2192} /var/log/syslog");
    let hidden = OpenFileFacts { fd: 9, target: None };
    assert_eq!(format_open_file_row(&hidden, "unreadable"), "fd 9 \u{2192} unreadable");
    let rows = open_file_rows(&[entry.clone(), hidden.clone(), entry.clone()], 2, "unreadable");
    assert_eq!(rows, vec!["fd 3 \u{2192} /var/log/syslog".to_string(), "fd 9 \u{2192} unreadable".to_string()]);
    assert_eq!(format_resource_pair(Some("1 GiB"), Some(&LimitText::Unlimited), "—").as_deref(), Some("1 GiB / \u{221E}"));
    assert_eq!(
        format_resource_pair(None, Some(&LimitText::Value("2 GiB".to_string())), "—").as_deref(),
        Some("— / 2 GiB")
    );
    assert_eq!(format_resource_pair(Some("5"), None, "—").as_deref(), Some("5"));
    assert_eq!(format_resource_pair(None, None, "—"), None);
    assert_eq!(
        format_connection(ConnectionTransport::Tcp, AddressFamily::Ipv6, "TCP", "[::1]:80", "[::1]:5000"),
        "TCP6  [::1]:80 \u{2192} [::1]:5000"
    );
    assert_eq!(
        format_connection(ConnectionTransport::Udp, AddressFamily::Ipv4, "UDP", "0.0.0.0:53", "*:*"),
        "UDP  0.0.0.0:53 \u{2192} *:*"
    );
    assert_eq!(format_engine_usage("3D", Some("12.0%"), Some("5m"), Some(9), "—"), "3D  12.0%  5m");
    assert_eq!(format_engine_usage("Video", None, None, Some(1200), "—"), "Video  —  1200 cycles");
    assert_eq!(format_engine_usage("Copy", None, None, None, "—"), "Copy  —  —");
    assert_eq!(facet_unavailable_text(FacetUnavailable::ProviderRequiresEscalation), "permission denied");
    assert_eq!(facet_unavailable_text(FacetUnavailable::SubmissionUnsupportedCapability), "unsupported");
    assert_eq!(facet_unavailable_text(FacetUnavailable::SubmissionOther), "unavailable");
}

#[test]
fn isolation_and_environment_facets() {
    assert!(matches!(isolation_kind_label(Some(IsolationKind::SystemdNspawn)), FacetLabel::Fixed("systemd-nspawn")));
    assert!(matches!(isolation_kind_label(Some(IsolationKind::Docker)), FacetLabel::Fixed("Docker")));
    assert!(matches!(isolation_kind_label(None), FacetLabel::Catalog("proc_insights.host_process")));
    assert!(matches!(sandboxed_label(Some(true)), FacetLabel::Fixed("Yes")));
    assert!(matches!(sandboxed_label(Some(false)), FacetLabel::Fixed("No")));
    assert!(matches!(sandboxed_label(None), FacetLabel::Catalog("proc_insights.unknown")));
    assert!(shows_container_id(Some("3f2a")));
    assert!(!shows_container_id(Some("")));
    assert!(!shows_container_id(None));
    assert_eq!(environment_heading("Environment", 0, 0), "Environment");
    assert_eq!(environment_heading("Environment", 12, 0), "Environment \u{00B7} 12");
    assert_eq!(environment_heading("Environment", 64, 5), "Environment \u{00B7} 64 \u{00B7} +5");
}

#[test]
fn replay_row_summary_lines() {
    assert_eq!(replay_coverage_line("Observed", 120, "Gaps", 3), "Observed: 120, Gaps: 3");
    assert_eq!(clock_jump_note(2, "clock jumps"), Some("2 clock jumps".to_string()));
    assert_eq!(clock_jump_note(0, "clock jumps"), None);
    assert_eq!(replay_peak_text("Peak", Some("42.5"), "\u{2014}"), "Peak: 42.5");
    assert_eq!(replay_peak_text("Peak", None, "\u{2014}"), "\u{2014}");
}

#[test]
fn replay_failure_and_empty_notices() {
    assert_eq!(
        last_good_window_note(HistoryWindow::SevenDays, Some(HistoryWindow::OneHour)),
        Some(HistoryWindow::OneHour)
    );
    assert_eq!(last_good_window_note(HistoryWindow::OneHour, Some(HistoryWindow::OneHour)), None);
    assert_eq!(last_good_window_note(HistoryWindow::OneHour, None), None);
    assert!(replay_shows_empty(false, 0));
    assert!(!replay_shows_empty(true, 0));
    assert!(!replay_shows_empty(false, 4));
}

use taskmanager_iced::directory_usage::{
    entry_label, entry_size_text, has_reported_mount, mount_owns_root, scan_target_root, snapshot_targets_disk,
    status_key, toggle_request, totals_text, visible_entries, DirectoryScanStatus, DirectoryTotals,
    DirectoryTotalsLabels, DirectoryUsageRequest, DirectoryUsageSnapshot, DiskMounts, MAX_VISIBLE_ENTRIES,
};

fn disk(mount: &str, parts: &[&str]) -> DiskMounts {
    DiskMounts { mount_point: mount.to_string(), partition_mount_points: parts.iter().map(|p| p.to_string()).collect() }
}

fn snapshot(id: u64, root: &str, status: DirectoryScanStatus) -> DirectoryUsageSnapshot {
    DirectoryUsageSnapshot { scan_id: id, root: root.to_string(), status }
}

#[test]
fn mounts_own_their_subtrees() {
    assert!(mount_owns_root("/", "/home/user"));
    assert!(!mount_owns_root("/", "relative"));
    assert!(mount_owns_root("/home", "/home"));
    assert!(mount_owns_root("/home", "/home/user"));
    assert!(!mount_owns_root("/home", "/homework"));
    assert!(!mount_owns_root("/home", "/"));
}

#[test]
fn scan_targets_first_mounted_partition() {
    assert_eq!(scan_target_root(&disk("", &["", "/data", "/backup"])), "/data");
    assert_eq!(scan_target_root(&disk("/mnt/disk", &[""])), "/mnt/disk");
    assert_eq!(scan_target_root(&disk("", &[])), "/");
    assert!(has_reported_mount(&disk("", &["", "/data"])));
    assert!(!has_reported_mount(&disk("", &["", ""])));
}

#[test]
fn snapshot_belongs_to_its_disk() {
    let d = disk("", &["/data"]);
    assert!(snapshot_targets_disk(&snapshot(1, "/data/logs", DirectoryScanStatus::Scanning), &d));
    assert!(!snapshot_targets_disk(&snapshot(1, "/database", DirectoryScanStatus::Scanning), &d));
}

#[test]
fn toggle_cancels_an_active_scan_of_this_disk() {
    let d = disk("", &["/data"]);
    let active = snapshot(9, "/data", DirectoryScanStatus::Scanning);
    match toggle_request(&d, Some(&active)) {
        DirectoryUsageRequest::Cancel(id) => assert_eq!(id, 9),
        other => panic!("expected a cancel, got {other:?}"),
    }
    let done = snapshot(9, "/data", DirectoryScanStatus::Completed);
    match toggle_request(&d, Some(&done)) {
        DirectoryUsageRequest::StartScan(root) => assert_eq!(root, "/data"),
        other => panic!("expected a new scan, got {other:?}"),
    }
    let elsewhere = snapshot(4, "/other", DirectoryScanStatus::Scanning);
    match toggle_request(&d, Some(&elsewhere)) {
        DirectoryUsageRequest::StartScan(root) => assert_eq!(root, "/data"),
        other => panic!("expected a new scan, got {other:?}"),
    }
    match toggle_request(&disk("", &[]), None) {
        DirectoryUsageRequest::StartScan(root) => assert_eq!(root, "/"),
        other => panic!("expected a new scan, got {other:?}"),
    }
}

#[test]
fn panel_labels() {
    assert_eq!(visible_entries(3), 3);
    assert_eq!(visible_entries(100), MAX_VISIBLE_ENTRIES);
    assert_eq!(status_key(DirectoryScanStatus::Scanning), "disk.usage_scanning");
    assert_eq!(status_key(DirectoryScanStatus::Failed), "disk.usage_failed");
    assert_eq!(entry_label("", "/data"), "/data");
    assert_eq!(entry_label("logs/app", "/data"), "logs/app");
    assert_eq!(entry_size_text(Some("1.5 GiB"), true, "unreadable", "—"), "1.5 GiB");
    assert_eq!(entry_size_text(None, true, "unreadable", "—"), "unreadable");
    assert_eq!(entry_size_text(None, false, "unreadable", "—"), "—");
}

fn labels() -> DirectoryTotalsLabels {
    DirectoryTotalsLabels {
        files: "files".to_string(),
        dirs: "dirs".to_string(),
        partial: "partial".to_string(),
        unreadable_dirs: "unreadable".to_string(),
        capped: "capped".to_string(),
    }
}

#[test]
fn totals_line_lists_every_fact() {
    let plain = DirectoryTotals {
        files_counted: 120,
        directories_visited: 8,
        bytes_text: None,
        bytes_partial: false,
        unreadable_directories: 0,
        capped: false,
    };
    assert_eq!(totals_text(&plain, &labels()), "120 files · 8 dirs");
    let full = DirectoryTotals {
        files_counted: 5,
        directories_visited: 2,
        bytes_text: Some("3 MiB".to_string()),
        bytes_partial: true,
        unreadable_directories: 1,
        capped: true,
    };
    assert_eq!(totals_text(&full, &labels()), "5 files · 2 dirs · 3 MiB · partial · 1 unreadable · capped");
}

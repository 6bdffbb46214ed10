use taskmanager_iced::about::{about_copy_payload, about_rows, InfoLine};
use taskmanager_iced::export::{
    diagnostics_markdown_body, json_string, process_to_json, process_to_tsv, DiskFacts, GpuFacts, HardwareFacts,
    ProcessExport, SnapshotFacts,
};

fn process() -> ProcessExport {
    ProcessExport {
        pid: 4242,
        name: "fire\"fox".to_string(),
        status: "Running".to_string(),
        cmdline: "firefox --new-tab\n\"x\"".to_string(),
        user: Some("alice".to_string()),
        cpu_text: Some("12.5".to_string()),
        memory_bytes: Some(1048576),
        memory_text: Some("1.0 MiB".to_string()),
    }
}

fn hardware() -> HardwareFacts {
    HardwareFacts {
        os_name: Some("Linux".to_string()),
        os_version: Some("6.8".to_string()),
        kernel_version: Some("6.8.0".to_string()),
        hostname: Some("box".to_string()),
        architecture: Some("x86_64".to_string()),
        motherboard_vendor: None,
        motherboard_model: None,
        firmware_release_date: None,
        secure_boot: Some(true),
        cpu_brand: Some("Ryzen".to_string()),
        cpu_cores: Some(16),
        total_memory_mb: Some(32768),
    }
}

#[test]
fn json_strings_escape_like_serde_json() {
    assert_eq!(json_string("plain"), "\"plain\"");
    assert_eq!(json_string("a\"b\\c"), "\"a\\\"b\\\\c\"");
    assert_eq!(json_string("tab\tnl\n"), "\"tab\\tnl\\n\"");
    assert_eq!(json_string("\u{1}"), "\"\\u0001\"");
    assert_eq!(json_string("\u{1f}"), "\"\\u001f\"");
    assert_eq!(json_string("中"), "\"中\"");
    assert_eq!(json_string("x\u{1b}y"), serde_json::to_string("x\u{1b}y").unwrap());
}

#[test]
fn process_tsv_line() {
    assert_eq!(process_to_tsv(&process(), "—"), "4242\tfire\"fox\t12.5%\t1.0 MiB\talice\tRunning");
    let mut p = process();
    p.user = Some(String::new());
    p.cpu_text = None;
    p.memory_text = None;
    assert_eq!(process_to_tsv(&p, "N/A"), "4242\tfire\"fox\tN/A\tN/A\t\u{2014}\tRunning");
    p.user = None;
    assert_eq!(process_to_tsv(&p, ""), "4242\tfire\"fox\t\t\t\u{2014}\tRunning");
}

#[test]
fn process_json_object_parses_back() {
    let text = process_to_json(&process());
    let value: serde_json::Value = serde_json::from_str(&text).expect("valid JSON");
    assert_eq!(value["pid"], 4242);
    assert_eq!(value["name"], "fire\"fox");
    assert_eq!(value["cpu_usage"], 12.5);
    assert_eq!(value["memory_bytes"], 1048576);
    assert_eq!(value["user"], "alice");
    assert_eq!(value["cmdline"], "firefox --new-tab\n\"x\"");
    let mut p = process();
    p.cmdline = String::new();
    p.user = None;
    p.cpu_text = None;
    p.memory_bytes = None;
    let value: serde_json::Value = serde_json::from_str(&process_to_json(&p)).unwrap();
    assert!(value["cmdline"].is_null());
    assert!(value["user"].is_null());
    assert!(value["cpu_usage"].is_null());
    assert!(value["memory_bytes"].is_null());
}

#[test]
fn diagnostics_report_body() {
    let snapshot = SnapshotFacts {
        uptime_text: "1h 2m".to_string(),
        processes: 321,
        cpu_usage_text: Some("7.5%".to_string()),
        memory_text: Some(("4 GiB".to_string(), "32 GiB".to_string())),
        gpus: vec![GpuFacts { brand: "Radeon".to_string(), driver: Some("amdgpu".to_string()), driver_version: Some(String::new()) }],
        disks: vec![DiskFacts { name: "nvme0n1".to_string(), model: "Samsung".to_string() }],
    };
    let body = diagnostics_markdown_body(Some(&hardware()), Some(&snapshot), "—");
    let expected = "### TaskForest System Diagnostics Report\n\n```markdown\n\
OS: Linux 6.8\nKernel: 6.8.0\nHostname: box\nCPU: Ryzen\nCores: 16\n\
Uptime: 1h 2m\nProcess Count: 321\nCPU Total Usage: 7.5%\nMemory: 4 GiB / 32 GiB\n\
GPU Count: 1\n  [GPU 0] Radeon (Driver: amdgpu)\n\
Disks Count: 1\n  [Disk 0] nvme0n1 (Samsung)\n```\n";
    assert_eq!(body, expected);
    let empty = diagnostics_markdown_body(None, None, "—");
    assert!(empty.starts_with("### TaskForest System Diagnostics Report\n\n```markdown\n"));
    assert!(empty.contains("System Snapshot: Unavailable\n"));
    assert!(empty.ends_with("```\n"));
}

#[test]
fn about_rows_keep_every_field() {
    let rows = about_rows(Some(&hardware()), Some("3h"), "—", "Enabled", "Disabled");
    let view: Vec<(&str, &str)> = rows.iter().map(|r| (r.label_key, r.value.as_str())).collect();
    assert_eq!(
        view,
        vec![
            ("system.hostname", "box"),
            ("system.field.os_name", "Linux"),
            ("system.field.os_version", "6.8"),
            ("system.kernel", "6.8.0"),
            ("system.field.architecture", "x86_64"),
            ("system.field.motherboard_vendor", "—"),
            ("system.field.motherboard_model", "—"),
            ("system.field.firmware_release_date", "—"),
            ("system.secure_boot", "Enabled"),
            ("common.cpu", "Ryzen"),
            ("common.logical_cores", "16"),
            ("system.field.installed_memory", "32768 MiB"),
            ("common.uptime", "3h"),
        ]
    );
    let unknown = about_rows(None, None, "—", "Enabled", "Disabled");
    assert_eq!(unknown.len(), 12);
    assert!(unknown.iter().all(|r| r.value == "—"));
}

#[test]
fn copy_payload_is_the_version_then_the_rows() {
    let lines = vec![
        InfoLine { label: "Hostname".to_string(), value: "box".to_string() },
        InfoLine { label: "CPU".to_string(), value: "Ryzen".to_string() },
    ];
    assert_eq!(about_copy_payload("TaskForest 1.2.3", &lines), "TaskForest 1.2.3\nHostname: box\nCPU: Ryzen");
    assert_eq!(about_copy_payload("TaskForest 1.2.3", &[]), "TaskForest 1.2.3");
}

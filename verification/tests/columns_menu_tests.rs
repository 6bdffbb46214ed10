use taskmanager_iced::columns::{
    apps_column_order, clamped_row_range, column_menu_entry_label, column_resizable, localized_sort_column_label,
    sort_arrow, sort_col_contract_id, sort_col_from_contract_id, stepper_columns, trend_header_index_for,
    visible_apps_column_order, SortDir,
};
use taskmanager_iced::focus::FocusTarget;
use taskmanager_iced::process_menu::{
    menu_destructive, menu_label, menu_target, process_menu_header, process_menu_rows, MenuCommand, MenuLabel,
    ProcessSignal,
};
use taskmanager_iced::saved_views::{sort_token, ColumnSet, SortCol};

#[test]
fn contract_ids_match_persisted_tokens() {
    for c in apps_column_order(true) {
        assert_eq!(sort_col_contract_id(c), sort_token(c));
        assert_eq!(sort_col_from_contract_id(sort_col_contract_id(c)), Some(c));
    }
    assert_eq!(sort_col_contract_id(SortCol::State), "Status");
    assert_eq!(sort_col_from_contract_id("status"), None);
}

#[test]
fn display_order_and_chooser() {
    let all = apps_column_order(false);
    assert_eq!(all.len(), 14);
    assert_eq!(&all[..5], &[SortCol::Pid, SortCol::Name, SortCol::Cpu, SortCol::Memory, SortCol::Pss]);
    assert_eq!(all[5], SortCol::DiskRead);
    assert_eq!(apps_column_order(true)[5], SortCol::Swap);
    let mut hidden = ColumnSet::new();
    hidden.insert(SortCol::Name);
    hidden.insert(SortCol::Cpu);
    let shown = visible_apps_column_order(false, &hidden);
    assert_eq!(shown.len(), 13);
    assert!(shown.contains(&SortCol::Name));
    assert!(!shown.contains(&SortCol::Cpu));
}

#[test]
fn trend_cell_follows_cpu_then_name() {
    assert_eq!(trend_header_index_for(&[SortCol::Pid, SortCol::Name, SortCol::Cpu, SortCol::Memory]), 3);
    assert_eq!(trend_header_index_for(&[SortCol::Pid, SortCol::Name, SortCol::Memory]), 2);
    assert_eq!(trend_header_index_for(&[SortCol::Memory, SortCol::User]), 0);
    assert_eq!(trend_header_index_for(&[]), 0);
}

#[test]
fn header_labels_and_arrows() {
    assert_eq!(localized_sort_column_label(SortCol::Pid), "proc.pid");
    assert_eq!(localized_sort_column_label(SortCol::State), "common.state");
    assert_eq!(localized_sort_column_label(SortCol::StartTime), "proc.start");
    assert_eq!(sort_arrow((SortCol::Cpu, SortDir::Asc), SortCol::Cpu), Some("\u{25B2}"));
    assert_eq!(sort_arrow((SortCol::Cpu, SortDir::Desc), SortCol::Cpu), Some("\u{25BC}"));
    assert_eq!(sort_arrow((SortCol::Cpu, SortDir::Desc), SortCol::Memory), None);
}

#[test]
fn viewport_ranges_are_clamped() {
    assert_eq!(clamped_row_range(100, 10, 20), (10, 20));
    assert_eq!(clamped_row_range(15, 10, 20), (10, 15));
    assert_eq!(clamped_row_range(5, 10, 20), (5, 5));
    assert_eq!(clamped_row_range(100, 30, 20), (30, 30));
}

#[test]
fn chooser_entries_and_steppers() {
    assert!(!column_resizable(SortCol::Name));
    assert!(column_resizable(SortCol::Pss));
    assert_eq!(column_menu_entry_label(true, "CPU"), "\u{2713} CPU");
    assert_eq!(column_menu_entry_label(false, "CPU"), "\u{00B7} CPU");
    let mut hidden = ColumnSet::new();
    hidden.insert(SortCol::Swap);
    let steppers = stepper_columns(&hidden);
    assert_eq!(steppers.len(), 13);
    assert!(!steppers.contains(&SortCol::Name));
    assert!(!steppers.contains(&SortCol::Swap));
    assert_eq!(steppers[0], SortCol::Pid);
}

#[test]
fn process_menu_layout() {
    let rows = process_menu_rows();
    assert_eq!(rows.len(), 5);
    assert_eq!(rows[0], vec![
        MenuCommand::EndTask,
        MenuCommand::EndProcessTree,
        MenuCommand::Kill,
        MenuCommand::Suspend,
        MenuCommand::Resume,
    ]);
    assert_eq!(rows[1][2], MenuCommand::Signal(ProcessSignal::User1));
    assert_eq!(rows[4], vec![MenuCommand::Close]);
    let destructive: Vec<MenuCommand> = rows.iter().flatten().copied().filter(|c| menu_destructive(*c)).collect();
    assert_eq!(destructive, vec![MenuCommand::EndTask, MenuCommand::EndProcessTree, MenuCommand::Kill]);
    assert_eq!(menu_target(MenuCommand::CopyTsv), FocusTarget::ProcessMenuCopyTsv);
    assert_eq!(menu_target(MenuCommand::Close), FocusTarget::ProcessMenuClose);
    match menu_label(MenuCommand::Signal(ProcessSignal::Hangup)) {
        MenuLabel::Fixed(text) => assert_eq!(text, "Send SIGHUP"),
        MenuLabel::Catalog(_) => panic!("signals are labelled by their names"),
    }
    match menu_label(MenuCommand::Close) {
        MenuLabel::Catalog(key) => assert_eq!(key, "common.cancel"),
        MenuLabel::Fixed(_) => panic!("close is a catalog label"),
    }
}

#[test]
fn process_menu_header_falls_back_for_a_blank_name() {
    assert_eq!(process_menu_header("firefox", "Unknown", 4242), "firefox \u{00B7} PID 4242");
    assert_eq!(process_menu_header("   ", "Unknown", 7), "Unknown \u{00B7} PID 7");
}

#[test]
fn name_is_shown_whatever_is_hidden() {
    let mut hidden = ColumnSet::new();
    for c in apps_column_order(true) {
        hidden.insert(c);
    }
    assert_eq!(visible_apps_column_order(true, &hidden), vec![SortCol::Name]);
    assert_eq!(visible_apps_column_order(false, &hidden), vec![SortCol::Name]);
}

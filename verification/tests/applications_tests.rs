use taskmanager_iced::applications::{group_header_press, row_hosts_menu, row_is_selected, tree_row_press, RowPress};
use taskmanager_iced::focus::{AppPage, FocusTarget};
use taskmanager_iced::applications::{
    action_bar_batch, action_bar_items, action_bar_mode, aggregate_count_text, empty_state_message, group_marker,
    member_count_label, process_count_label, selected_target_count, selection_hint, swap_column_visible,
    tree_guide_prefix, visible_column_elements, visible_column_tags, ActionBarItem, ActionBarMode, PriorityChoice,
    PriorityTier, ProcessBatchAction,
};
use taskmanager_iced::saved_views::{ColumnSet, SortCol};

#[test]
fn empty_state_quotes_the_trimmed_query() {
    assert_eq!(empty_state_message("   ", "No processes", "No processes match"), "No processes");
    assert_eq!(
        empty_state_message("  fire ", "No processes", "No processes match"),
        "No processes match \u{201C}fire\u{201D}"
    );
}

#[test]
fn selection_hint_counts_a_multi_select() {
    assert_eq!(selection_hint(3, "{count} processes selected", "Delete confirms"), "3 processes selected");
    assert_eq!(selection_hint(1, "{count} processes selected", "Delete confirms"), "Delete confirms");
    assert_eq!(selection_hint(0, "{count} processes selected", "Delete confirms"), "Delete confirms");
}

#[test]
fn priority_presets() {
    assert_eq!(PriorityChoice::all(), [PriorityChoice::High, PriorityChoice::Normal, PriorityChoice::Low]);
    assert_eq!(PriorityChoice::Low.tier(), PriorityTier::Low);
    assert_eq!(PriorityChoice::High.action(), ProcessBatchAction::SetPriority(PriorityTier::High));
}

#[test]
fn column_tags_fuse_identity_for_groups() {
    let flat = visible_column_tags(false, false);
    let grouped = visible_column_tags(false, true);
    assert_eq!(flat.len(), grouped.len() + 1);
    assert_eq!(flat[0], Some(SortCol::Pid));
    assert_eq!(grouped[0], Some(SortCol::Name));
    assert_eq!(flat[3], None);
    assert_eq!(visible_column_tags(true, false).len(), flat.len() + 1);
}

#[test]
fn hidden_columns_drop_their_cells() {
    let cells: Vec<usize> = (0..16).collect();
    let mut hidden = ColumnSet::new();
    hidden.insert(SortCol::Pid);
    hidden.insert(SortCol::Name);
    hidden.insert(SortCol::Memory);
    let kept = visible_column_elements(cells, false, &hidden, false);
    assert_eq!(kept, vec![1, 2, 3, 5, 6, 7, 8, 9, 10, 11, 12, 13, 14]);
    let short: Vec<&str> = vec!["a", "b"];
    assert_eq!(visible_column_elements(short, false, &ColumnSet::new(), true), vec!["a", "b"]);
}

#[test]
fn tree_guides() {
    assert_eq!(tree_guide_prefix(0, true, true), "\u{25B6} ");
    assert_eq!(tree_guide_prefix(0, true, false), "\u{25BC} ");
    assert_eq!(tree_guide_prefix(1, false, false), "\u{2514}\u{2500} \u{00B7} ");
    assert_eq!(tree_guide_prefix(3, false, true), "    \u{2514}\u{2500} \u{00B7} ");
    assert_eq!(group_marker(true), "\u{25BC}");
    assert_eq!(group_marker(false), "\u{25B6}");
    assert_eq!(member_count_label(12), "x12");
}

#[test]
fn aggregate_counts_never_fake_a_zero() {
    assert_eq!(aggregate_count_text(Some(0), "—"), ("0".to_string(), true));
    assert_eq!(aggregate_count_text(Some(42), "—"), ("42".to_string(), false));
    assert_eq!(aggregate_count_text(None, "—"), ("—".to_string(), false));
}

#[test]
fn swap_column_hides_only_on_a_measured_zero() {
    assert!(swap_column_visible(None));
    assert!(swap_column_visible(Some(None)));
    assert!(swap_column_visible(Some(Some(1 << 30))));
    assert!(!swap_column_visible(Some(Some(0))));
}

#[test]
fn action_bar() {
    assert_eq!(action_bar_mode(true, true), ActionBarMode::ConfirmBatch);
    assert_eq!(action_bar_mode(false, true), ActionBarMode::ConfirmEnd);
    assert_eq!(action_bar_mode(false, false), ActionBarMode::Actions);
    let process = action_bar_items(false);
    assert_eq!(process.len(), 11);
    assert_eq!(process[0], ActionBarItem::EndTask);
    let app = action_bar_items(true);
    assert_eq!(
        app,
        vec![
            ActionBarItem::Kill,
            ActionBarItem::Suspend,
            ActionBarItem::Resume,
            ActionBarItem::ChooseColumns,
            ActionBarItem::RunNewTask,
            ActionBarItem::Priority,
            ActionBarItem::SelectionHint,
        ]
    );
    assert_eq!(action_bar_batch(ActionBarItem::Kill), Some(ProcessBatchAction::Kill));
    assert_eq!(action_bar_batch(ActionBarItem::Resume), Some(ProcessBatchAction::Resume));
    assert_eq!(action_bar_batch(ActionBarItem::EndTask), None);
    assert_eq!(selected_target_count(Some(9), 1), 9);
    assert_eq!(selected_target_count(None, 3), 3);
    assert_eq!(process_count_label(212, "processes"), "212 processes");
}

#[test]
fn row_selection_and_menu_host() {
    assert!(row_is_selected(Some(7), &[3, 7], None, Some(1)));
    assert!(row_is_selected(None, &[], Some(4), Some(4)));
    assert!(!row_is_selected(Some(9), &[3, 7], Some(4), Some(5)));
    assert!(!row_is_selected(None, &[], None, None));
    assert!(row_hosts_menu(Some(7), Some(7)));
    assert!(!row_hosts_menu(Some(7), Some(8)));
    assert!(!row_hosts_menu(None, None));
    assert!(!row_hosts_menu(Some(7), None));
}

#[test]
fn row_presses() {
    assert_eq!(tree_row_press(true, Some(5), 3), RowPress::ActivateTreeNode { identity: Some(5), flat_index: 3 });
    assert_eq!(
        tree_row_press(false, None, 4),
        RowPress::SelectRow {
            target: FocusTarget::TableRow { page: AppPage::Applications, index: 4 },
            index: 4,
            menu_identity: None,
        }
    );
    assert_eq!(
        group_header_press("firefox", Some(2)),
        RowPress::ToggleGroupExpansion { expansion_key: "firefox".to_string(), row_key: Some(2) }
    );
}

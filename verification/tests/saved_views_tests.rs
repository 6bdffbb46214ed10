use taskmanager_iced::saved_views::{
    commit_import, default_built_in_presets, export_wire_presets, feedback_key, filter_from_token, filter_token,
    hidden_from_tokens, hidden_tokens, import_success_text, preset_from_wire, preset_is_active, presets_from_wire,
    sort_from_token, sort_token, wire_from_preset, ColumnSet, InvalidPreset, PresetName, PresetsRibbonState,
    ProcessStatusFilter, SavedViewImportSummary, SavedViewPreset, SavedViewTransferFeedback, SortCol, WirePreset,
};

fn user_preset(name: &str, filter: ProcessStatusFilter, sort: SortCol, hidden: &[SortCol]) -> SavedViewPreset {
    let mut set = ColumnSet::new();
    for c in hidden {
        set.insert(*c);
    }
    SavedViewPreset::restored(name.to_string(), filter, sort, true, set)
}

fn wire(name: &str, filter: &str, sort: &str, hidden: &[&str]) -> WirePreset {
    WirePreset {
        name: name.to_string(),
        filter: filter.to_string(),
        sort: sort.to_string(),
        sort_asc: false,
        hidden_columns: hidden.iter().map(|h| h.to_string()).collect(),
    }
}

#[test]
fn filter_and_sort_tokens_round_trip() {
    for f in [
        ProcessStatusFilter::All,
        ProcessStatusFilter::Running,
        ProcessStatusFilter::Sleeping,
        ProcessStatusFilter::Stopped,
        ProcessStatusFilter::Zombie,
        ProcessStatusFilter::Other,
    ] {
        assert_eq!(filter_from_token(filter_token(f)), Some(f));
    }
    assert_eq!(filter_from_token("running"), None);
    assert_eq!(sort_token(SortCol::State), "Status");
    assert_eq!(sort_token(SortCol::CpuTime), "CPUTime");
    assert_eq!(sort_from_token("PID"), Some(SortCol::Pid));
    assert_eq!(sort_from_token("Pid"), None);
    assert_eq!(sort_from_token(sort_token(SortCol::Fds)), Some(SortCol::Fds));
}

#[test]
fn hidden_columns_serialize_in_token_order() {
    let mut set = ColumnSet::new();
    set.insert(SortCol::User);
    set.insert(SortCol::Cpu);
    set.insert(SortCol::Pss);
    set.insert(SortCol::Cpu);
    assert_eq!(hidden_tokens(&set), vec!["CPU".to_string(), "PSS".to_string(), "User".to_string()]);
    let parsed = hidden_from_tokens(&hidden_tokens(&set)).expect("own tokens parse");
    assert_eq!(parsed, set);
    assert!(parsed.contains(SortCol::Pss));
    assert!(!parsed.contains(SortCol::Name));
    assert_eq!(hidden_from_tokens(&["CPU".to_string(), "Bogus".to_string()]), None);
    assert_eq!(hidden_from_tokens(&[]), Some(ColumnSet::new()));
}

#[test]
fn built_in_presets() {
    let presets = default_built_in_presets();
    assert_eq!(presets.len(), 3);
    assert_eq!(presets[0].name_key, Some("saved_views.cpu_hotspots"));
    assert_eq!(presets[1].filter, ProcessStatusFilter::Running);
    assert_eq!(presets[2].sort_col, SortCol::Memory);
    assert!(presets.iter().all(|p| p.built_in && !p.is_user_saved() && p.user_name().is_none()));
    match presets[0].display_name() {
        PresetName::Key(k) => assert_eq!(k, "saved_views.cpu_hotspots"),
        PresetName::Custom(_) => panic!("a built-in preset is named by its catalog key"),
    }
    let user = user_preset("Mine", ProcessStatusFilter::All, SortCol::Cpu, &[]);
    assert!(user.is_user_saved());
    assert_eq!(user.user_name(), Some("Mine"));
    match user.display_name() {
        PresetName::Custom(n) => assert_eq!(n, "Mine"),
        PresetName::Key(_) => panic!("a user preset carries its own name"),
    }
}

#[test]
fn wire_form_of_a_user_preset() {
    let p = user_preset("Busy", ProcessStatusFilter::Running, SortCol::Memory, &[SortCol::Swap, SortCol::Fds]);
    let w = wire_from_preset(&p, 0, true).expect("portable user preset");
    assert_eq!(w.name, "Busy");
    assert_eq!(w.filter, "Running");
    assert_eq!(w.sort, "Memory");
    assert!(w.sort_asc);
    assert_eq!(w.hidden_columns, vec!["FDs".to_string(), "Swap".to_string()]);
    assert_eq!(wire_from_preset(&p, 4, false).unwrap_err(), InvalidPreset { index: 4 });
    let built_in = &default_built_in_presets()[0];
    assert_eq!(wire_from_preset(built_in, 2, true).unwrap_err(), InvalidPreset { index: 2 });
}

#[test]
fn export_then_import_gives_the_preset_back() {
    let p = user_preset("Busy", ProcessStatusFilter::Zombie, SortCol::Threads, &[SortCol::User]);
    let w = wire_from_preset(&p, 0, true).unwrap();
    let q = preset_from_wire(w, 0, true).unwrap();
    assert_eq!(q.custom_name, "Busy");
    assert_eq!(q.filter, p.filter);
    assert_eq!(q.sort_col, p.sort_col);
    assert_eq!(q.sort_asc, p.sort_asc);
    assert_eq!(q.hidden_cols, p.hidden_cols);
    assert_eq!(q.id, 0);
    assert!(q.is_user_saved());
}

#[test]
fn invalid_wire_presets_are_rejected_at_their_index() {
    assert_eq!(preset_from_wire(wire("A", "Nope", "CPU", &[]), 3, true).unwrap_err(), InvalidPreset { index: 3 });
    assert_eq!(preset_from_wire(wire("A", "All", "Nope", &[]), 1, true).unwrap_err(), InvalidPreset { index: 1 });
    assert_eq!(preset_from_wire(wire("A", "All", "CPU", &["Nope"]), 0, true).unwrap_err(), InvalidPreset { index: 0 });
    assert_eq!(preset_from_wire(wire("A", "All", "CPU", &[]), 6, false).unwrap_err(), InvalidPreset { index: 6 });
    let batch = vec![wire("A", "All", "CPU", &[]), wire("B", "All", "Nope", &[]), wire("C", "Bad", "CPU", &[])];
    assert_eq!(presets_from_wire(batch, &[true, true, true]).unwrap_err(), InvalidPreset { index: 1 });
    let batch = vec![wire("A", "All", "CPU", &[]), wire("B", "Running", "PID", &["Swap"])];
    let restored = presets_from_wire(batch, &[true, true]).unwrap();
    assert_eq!(restored.len(), 2);
    assert_eq!(restored[1].sort_col, SortCol::Pid);
    assert!(restored[1].hidden_cols.contains(SortCol::Swap));
}

#[test]
fn export_skips_built_ins_and_reports_the_first_unportable_name() {
    let mut presets = default_built_in_presets();
    presets.push(user_preset("One", ProcessStatusFilter::All, SortCol::Cpu, &[]));
    presets.push(user_preset("Two", ProcessStatusFilter::Sleeping, SortCol::Name, &[]));
    let exported = export_wire_presets(&presets, &[true, true, true, true, true]).unwrap();
    assert_eq!(exported.len(), 2);
    assert_eq!(exported[0].name, "One");
    assert_eq!(exported[1].filter, "Sleeping");
    let err = export_wire_presets(&presets, &[false, false, false, true, false]).unwrap_err();
    assert_eq!(err, InvalidPreset { index: 1 });
}

#[test]
fn committing_an_import_appends_with_resolved_names_and_ids() {
    let mut existing = default_built_in_presets();
    let mut next_id: u64 = 4;
    let imported = vec![
        user_preset("Dup", ProcessStatusFilter::All, SortCol::Cpu, &[]),
        user_preset("Dup", ProcessStatusFilter::Running, SortCol::Memory, &[]),
    ];
    let summary = commit_import(
        &mut existing,
        &mut next_id,
        imported,
        vec!["Dup".to_string(), "Dup (2)".to_string()],
        &[4, 5],
        6,
        1,
    );
    assert_eq!(summary, SavedViewImportSummary { imported: 2, renamed: 1 });
    assert_eq!(next_id, 6);
    assert_eq!(existing.len(), 5);
    assert_eq!(existing[3].id, 4);
    assert_eq!(existing[4].custom_name, "Dup (2)");
    assert_eq!(existing[4].sort_col, SortCol::Memory);
    assert_eq!(existing[0].name_key, Some("saved_views.cpu_hotspots"));
    let feedback = SavedViewTransferFeedback::Imported(summary);
    assert_eq!(feedback, SavedViewTransferFeedback::Imported(SavedViewImportSummary { imported: 2, renamed: 1 }));
    assert_eq!(SavedViewImportSummary::default(), SavedViewImportSummary { imported: 0, renamed: 0 });
}

#[test]
fn ribbon_marks_the_matching_preset_and_reports_transfers() {
    let presets = default_built_in_presets();
    let state = PresetsRibbonState {
        filter: ProcessStatusFilter::Running,
        sort: SortCol::Cpu,
        ascending: false,
        feedback: None,
        compact: false,
    };
    let active: Vec<bool> = presets.iter().map(|p| preset_is_active(p, &state)).collect();
    assert_eq!(active, vec![false, true, false]);
    assert_eq!(feedback_key(SavedViewTransferFeedback::ExportFailed), ("saved_views.export_failed", true));
    assert_eq!(feedback_key(SavedViewTransferFeedback::ExportCopied), ("first_run.copy_output", false));
    assert_eq!(
        feedback_key(SavedViewTransferFeedback::Imported(SavedViewImportSummary { imported: 1, renamed: 0 })),
        ("saved_views.import_success", false)
    );
    assert_eq!(feedback_key(SavedViewTransferFeedback::ImportInvalid), ("saved_views.import_invalid", true));
    assert_eq!(
        import_success_text("Imported {count} ({renamed} renamed)", SavedViewImportSummary { imported: 4, renamed: 2 }),
        "Imported 4 (2 renamed)"
    );
}

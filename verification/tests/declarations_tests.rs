use taskmanager_iced::capabilities::{
    capability_declaration, decision, functional_declaration, ComponentCapability, ProductIntent, SurfaceDecision,
};
use taskmanager_iced::feature_coverage::{all_feature_ids, feature_coverage_declaration, support, CapabilitySupport, FeatureId, FrontendShape};
use taskmanager_iced::tray::{
    resolve_tray_action, tray_event_effect, tray_events_activate, tray_menu_entries, TrayEffect, TrayEvent, TrayIntent,
    TrayMenuEntry, TRAY_ACTION_PAUSE, TRAY_ACTION_QUIT, TRAY_ACTION_SHOW,
};

#[test]
fn tray_ids_resolve_to_intents() {
    assert_eq!(resolve_tray_action(TRAY_ACTION_SHOW), Some(TrayIntent::ShowWindow));
    assert_eq!(resolve_tray_action(TRAY_ACTION_PAUSE), Some(TrayIntent::TogglePause));
    assert_eq!(resolve_tray_action(TRAY_ACTION_QUIT), Some(TrayIntent::Quit));
    assert_eq!(resolve_tray_action(0), None);
    assert_eq!(resolve_tray_action(99), None);
}

#[test]
fn tray_events() {
    assert_eq!(tray_event_effect(TrayEvent::IconActivated), TrayEffect::Activate);
    assert_eq!(tray_event_effect(TrayEvent::IconDoubleClicked), TrayEffect::Activate);
    assert_eq!(tray_event_effect(TrayEvent::MenuActivated { id: TRAY_ACTION_PAUSE }), TrayEffect::TogglePause);
    assert_eq!(tray_event_effect(TrayEvent::MenuActivated { id: TRAY_ACTION_QUIT }), TrayEffect::Quit);
    assert_eq!(tray_event_effect(TrayEvent::MenuActivated { id: 77 }), TrayEffect::Nothing);
    assert!(tray_events_activate(&[TrayEvent::MenuActivated { id: 77 }, TrayEvent::IconActivated]));
    assert!(!tray_events_activate(&[TrayEvent::MenuActivated { id: TRAY_ACTION_PAUSE }]));
    assert!(!tray_events_activate(&[]));
    let entries = tray_menu_entries(true);
    assert_eq!(entries.len(), 4);
    assert!(matches!(entries[0], TrayMenuEntry::Action { id, .. } if id == TRAY_ACTION_SHOW));
    assert!(matches!(entries[1], TrayMenuEntry::Checkmark { id, checked: true, .. } if id == TRAY_ACTION_PAUSE));
    assert!(matches!(entries[2], TrayMenuEntry::Separator));
    assert!(matches!(entries[3], TrayMenuEntry::Action { id, .. } if id == TRAY_ACTION_QUIT));
    assert!(matches!(tray_menu_entries(false)[1], TrayMenuEntry::Checkmark { checked: false, .. }));
}

#[test]
fn every_feature_is_declared_in_registry_order() {
    let ids = all_feature_ids();
    let declaration = feature_coverage_declaration();
    assert_eq!(declaration.frontend, FrontendShape::Iced);
    assert_eq!(declaration.entries.len(), ids.len());
    for (entry, id) in declaration.entries.iter().zip(ids.iter()) {
        assert_eq!(entry.feature, *id);
        assert_eq!(entry.support, support(*id));
    }
    assert_eq!(support(FeatureId::ProcessAffinityMask), CapabilitySupport::Ported);
    assert!(matches!(support(FeatureId::HandleTypeClassification), CapabilitySupport::Unsupported { .. }));
}

#[test]
fn every_gap_carries_a_reason() {
    for entry in feature_coverage_declaration().entries {
        match entry.support {
            CapabilitySupport::Ported => {},
            CapabilitySupport::Native { via } => assert!(!via.is_empty()),
            CapabilitySupport::Divergent { reason } | CapabilitySupport::Unsupported { reason } => {
                assert!(!reason.is_empty())
            },
        }
    }
}

#[test]
fn component_capabilities() {
    let declaration = capability_declaration();
    assert_eq!(declaration.frontend, FrontendShape::Iced);
    let entries = declaration.entries;
    assert_eq!(entries.len(), 19);
    assert_eq!(entries[0].capability, ComponentCapability::ModalOverlay);
    let toast = entries.iter().find(|e| e.capability == ComponentCapability::Toast).unwrap();
    assert!(matches!(toast.support, CapabilitySupport::Divergent { .. }));
    let scrollbar = entries.iter().find(|e| e.capability == ComponentCapability::Scrollbar).unwrap();
    assert!(matches!(scrollbar.support, CapabilitySupport::Native { .. }));
    let table = entries.iter().find(|e| e.capability == ComponentCapability::Table).unwrap();
    assert_eq!(table.support, CapabilitySupport::Ported);
}

#[test]
fn product_intents() {
    assert_eq!(decision(ProductIntent::ActiveAlerts), SurfaceDecision::Shared { route: "shell.alert-active" });
    assert_eq!(decision(ProductIntent::FirstRunSetup), SurfaceDecision::Local { route: "first-run.dialog" });
    assert!(matches!(decision(ProductIntent::SmartSelfTest), SurfaceDecision::Unsupported { .. }));
    let declaration = functional_declaration();
    assert_eq!(declaration.frontend, FrontendShape::Iced);
    let all = declaration.entries;
    assert_eq!(all.len(), 15);
    for entry in all {
        assert_eq!(entry.decision, decision(entry.intent));
        match entry.decision {
            SurfaceDecision::AcceptedDifference { reason, .. } | SurfaceDecision::Unsupported { reason } => {
                assert!(!reason.is_empty())
            },
            _ => {},
        }
    }
}

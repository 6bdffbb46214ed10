use taskmanager_iced::first_run::{
    action_row, action_slot, copy_slot, failure_key, phase_status_key, FailureKind, FirstRunActionRow,
    FirstRunEvent, FirstRunMessage, FirstRunPhase, FirstRunTransition, FirstRunUiState, SetupScriptAction,
    SetupScriptInfo,
};
use taskmanager_iced::focus::FocusTarget;
use taskmanager_iced::input_modality::{focus_visible, modality, observe_keyboard, observe_pointer, InputModality};

#[test]
fn modality_byte_round_trips() {
    for m in [InputModality::Programmatic, InputModality::Keyboard, InputModality::Pointer] {
        assert_eq!(InputModality::from_u8(m.as_u8()), m);
    }
    assert_eq!(InputModality::Programmatic.as_u8(), 0);
    assert_eq!(InputModality::Keyboard.as_u8(), 1);
    assert_eq!(InputModality::Pointer.as_u8(), 2);
    assert_eq!(InputModality::from_u8(7), InputModality::Programmatic);
    assert_eq!(InputModality::default(), InputModality::Programmatic);
}

#[test]
fn only_keyboard_paints_focus_rings() {
    let mut stored: u8 = 0;
    assert!(!focus_visible(stored));
    observe_keyboard(&mut stored);
    assert_eq!(modality(stored), InputModality::Keyboard);
    assert!(focus_visible(stored));
    observe_pointer(&mut stored);
    assert_eq!(modality(stored), InputModality::Pointer);
    assert!(!focus_visible(stored));
    assert!(InputModality::Keyboard.shows_focus_ring());
    assert!(!InputModality::Pointer.shows_focus_ring());
    assert!(!InputModality::Programmatic.shows_focus_ring());
}

fn info() -> SetupScriptInfo {
    SetupScriptInfo {
        path: "/opt/setup.sh".to_string(),
        run_command: "sh /opt/setup.sh".to_string(),
        revert_command: "sh /opt/setup.sh --revert".to_string(),
    }
}

#[test]
fn observation_shows_or_hides_the_dialog() {
    let mut state = FirstRunUiState::default();
    assert!(!state.visible());
    assert_eq!(state.reduce(FirstRunEvent::ObservationCompleted(Some(info()))), FirstRunTransition::Shown);
    assert_eq!(state.phase, FirstRunPhase::Available);
    assert!(state.visible());
    assert_eq!(state.reduce(FirstRunEvent::ObservationCompleted(None)), FirstRunTransition::Hidden);
    assert_eq!(state.phase, FirstRunPhase::Hidden);
    assert!(state.info.is_none());
}

#[test]
fn run_then_complete_requires_restart() {
    let mut state = FirstRunUiState::default();
    state.reduce(FirstRunEvent::ObservationCompleted(Some(info())));
    assert_eq!(state.reduce(FirstRunEvent::ActionSubmitted(SetupScriptAction::Run)), FirstRunTransition::Shown);
    assert_eq!(state.phase, FirstRunPhase::Running);
    assert!(state.action_pending());
    assert_eq!(state.last_action, Some(SetupScriptAction::Run));
    state.reduce(FirstRunEvent::ActionCompleted(SetupScriptAction::Run));
    assert_eq!(state.phase, FirstRunPhase::RestartRequired);
    assert!(!state.action_pending());
    assert_eq!(phase_status_key(state.phase), Some("first_run.restart_required"));
}

#[test]
fn failed_observation_hides_but_failed_run_shows_failure() {
    let mut state = FirstRunUiState::default();
    state.reduce(FirstRunEvent::ObservationCompleted(Some(info())));
    state.reduce(FirstRunEvent::ActionSubmitted(SetupScriptAction::Run));
    let t = state.reduce(FirstRunEvent::ActionFailed { action: SetupScriptAction::Run, kind: FailureKind::TimedOut });
    assert_eq!(t, FirstRunTransition::Shown);
    assert_eq!(state.phase, FirstRunPhase::Failed(FailureKind::TimedOut));
    assert_eq!(failure_key(FailureKind::TimedOut), "first_run.failure_timeout");
    let t = state.reduce(FirstRunEvent::ActionFailed {
        action: SetupScriptAction::Observe,
        kind: FailureKind::Unsupported,
    });
    assert_eq!(t, FirstRunTransition::Hidden);
    assert_eq!(state.phase, FirstRunPhase::Hidden);
}

#[test]
fn dismissal_changes_nothing() {
    let mut state = FirstRunUiState::default();
    state.reduce(FirstRunEvent::ObservationCompleted(Some(info())));
    state.reduce(FirstRunEvent::ActionSubmitted(SetupScriptAction::Revert));
    assert_eq!(state.reduce(FirstRunEvent::Dismissed), FirstRunTransition::Unchanged);
    assert_eq!(state.phase, FirstRunPhase::Reverting);
    assert!(state.info.is_some());
    assert_eq!(state.last_action, Some(SetupScriptAction::Revert));
}

#[test]
fn status_and_failure_keys() {
    assert_eq!(phase_status_key(FirstRunPhase::Running), Some("first_run.running"));
    assert_eq!(phase_status_key(FirstRunPhase::Reverting), Some("first_run.reverting"));
    assert_eq!(phase_status_key(FirstRunPhase::Restarting), Some("first_run.restarting"));
    assert_eq!(phase_status_key(FirstRunPhase::Available), None);
    assert_eq!(failure_key(FailureKind::PermissionDenied), "first_run.failure_permission");
    assert_eq!(failure_key(FailureKind::RequiresEscalation), "first_run.failure_permission");
    assert_eq!(failure_key(FailureKind::ProviderFault), "first_run.failure_provider");
    assert_eq!(copy_slot(2), FocusTarget::FirstRunCopy(2));
    assert_eq!(action_slot(3), FocusTarget::FirstRunAction(3));
}

#[test]
fn action_row_is_inert_while_pending() {
    let state = FirstRunUiState { phase: FirstRunPhase::Running, info: Some(info()), last_action: Some(SetupScriptAction::Run) };
    match action_row(&state) {
        FirstRunActionRow::Inert(labels) => assert_eq!(
            labels,
            vec!["first_run.open_wiki", "first_run.view_script", "first_run.run_setup", "first_run.revert_setup"]
        ),
        FirstRunActionRow::Buttons(_) => panic!("a pending request renders inert labels"),
    }
}

#[test]
fn action_row_offers_restart_and_retry() {
    let restart = FirstRunUiState { phase: FirstRunPhase::RestartRequired, info: Some(info()), last_action: Some(SetupScriptAction::Run) };
    match action_row(&restart) {
        FirstRunActionRow::Buttons(buttons) => {
            assert_eq!(buttons.len(), 5);
            assert_eq!(buttons[4].slot, 4);
            assert_eq!(buttons[4].label_key, "first_run.restart");
            assert_eq!(buttons[4].message, FirstRunMessage::RequestAction(SetupScriptAction::Restart));
            assert_eq!(buttons[0].message, FirstRunMessage::OpenWiki);
        },
        FirstRunActionRow::Inert(_) => panic!("a settled dialog renders buttons"),
    }
    let failed = FirstRunUiState {
        phase: FirstRunPhase::Failed(FailureKind::Rejected),
        info: Some(info()),
        last_action: Some(SetupScriptAction::Revert),
    };
    match action_row(&failed) {
        FirstRunActionRow::Buttons(buttons) => {
            assert_eq!(buttons.len(), 5);
            assert_eq!(buttons[4].slot, 5);
            assert_eq!(buttons[4].label_key, "first_run.retry");
            assert_eq!(buttons[4].message, FirstRunMessage::RequestAction(SetupScriptAction::Revert));
        },
        FirstRunActionRow::Inert(_) => panic!("a failed dialog renders buttons"),
    }
    let available = FirstRunUiState { phase: FirstRunPhase::Available, info: Some(info()), last_action: None };
    match action_row(&available) {
        FirstRunActionRow::Buttons(buttons) => assert_eq!(buttons.len(), 4),
        FirstRunActionRow::Inert(_) => panic!("an idle dialog renders buttons"),
    }
}
